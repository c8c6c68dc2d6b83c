use vstd::prelude::*;
use vstd::string::*;
use crate::config::{key_entries, SigningKeyConfig};
use crate::error::InfraError;
use crate::shared::KeyRole;
use crate::threshold::{parse_threshold, parsed_usize};
use crate::tool::{step_views, ToolStep};

verus! {

/// The text view of an optional text.
pub open spec fn opt_view(o: Option<String>) -> Option<Seq<char>> {
    match o {
        Some(s) => Some(s@),
        None => None,
    }
}

/// The command that starts a new root document.
pub open spec fn init_text(path: Seq<char>) -> Seq<char> {
    "root init '"@ + path + "'"@
}

/// The command that sets the root document's expiry a year ahead.
pub open spec fn expire_text(path: Seq<char>) -> Seq<char> {
    "root expire '"@ + path + "' 'in 52 weeks'"@
}

/// The command that sets the threshold of one role.
pub open spec fn threshold_text(path: Seq<char>, role: Seq<char>, t: Seq<char>) -> Seq<char> {
    "root set-threshold '"@ + path + "' "@ + role + " '"@ + t + "' "@
}

/// The role flags of the command that registers a key.
pub open spec fn role_flags(role: KeyRole) -> Seq<char> {
    match role {
        KeyRole::Root => "' --role root"@,
        KeyRole::Publication => "' --role snapshot --role targets --role timestamp"@,
    }
}

/// The command that registers a KMS key for a role.
pub open spec fn add_key_text(role: KeyRole, path: Seq<char>, key: Seq<char>) -> Seq<char> {
    "root add-key '"@ + path + "' aws-kms:///'"@ + key + role_flags(role)
}

/// The command that signs the root document with a KMS key.
pub open spec fn sign_text(path: Seq<char>, key: Seq<char>) -> Seq<char> {
    "root sign '"@ + path + "' -k aws-kms:///'"@ + key + "'"@
}

/// The runs that set a role's thresholds, in the default region: one for the
/// root role; snapshot, targets and timestamp alike for the publication role.
pub open spec fn threshold_steps(role: KeyRole, path: Seq<char>, t: Seq<char>, region: Seq<char>) -> Seq<
    (Seq<char>, Seq<char>),
> {
    match role {
        KeyRole::Root => seq![(region, threshold_text(path, "root"@, t))],
        KeyRole::Publication => seq![
            (region, threshold_text(path, "snapshot"@, t)),
            (region, threshold_text(path, "targets"@, t)),
            (region, threshold_text(path, "timestamp"@, t)),
        ],
    }
}

/// The runs that register each available key for a role, each in its key's region.
pub open spec fn add_key_steps(keys: Seq<(Seq<char>, Seq<char>)>, role: KeyRole, path: Seq<char>) -> Seq<
    (Seq<char>, Seq<char>),
> {
    keys.map_values(|k: (Seq<char>, Seq<char>)| (k.1, add_key_text(role, path, k.0)))
}

/// The runs that sign the root document with each available key, each in its key's region.
pub open spec fn sign_steps(keys: Seq<(Seq<char>, Seq<char>)>, path: Seq<char>) -> Seq<
    (Seq<char>, Seq<char>),
> {
    keys.map_values(|k: (Seq<char>, Seq<char>)| (k.1, sign_text(path, k.0)))
}

/// All runs that bind KMS keys to a role: thresholds first, then the keys.
pub open spec fn kms_steps(
    keys: Seq<(Seq<char>, Seq<char>)>,
    role: KeyRole,
    path: Seq<char>,
    t: Seq<char>,
    region: Seq<char>,
) -> Seq<(Seq<char>, Seq<char>)> {
    threshold_steps(role, path, t, region) + add_key_steps(keys, role, path)
}

/// The active publication key after an assignment: a key id once recorded is
/// kept; for the publication role an unset one becomes the first available key.
pub open spec fn next_key_id(
    key_id: Option<Seq<char>>,
    keys: Seq<(Seq<char>, Seq<char>)>,
    role: KeyRole,
) -> Option<Seq<char>> {
    if key_id is Some || role == KeyRole::Root || keys.len() == 0 {
        key_id
    } else {
        Some(keys[0].0)
    }
}

/// What assigning KMS keys to a role yields. `r` is the result, `key_id` the
/// recorded publication key before and `new_key_id` after.
pub open spec fn kms_outcome(
    keys: Seq<(String, String)>,
    role: KeyRole,
    threshold: String,
    path: String,
    region: String,
    key_id: Option<String>,
    r: Result<Vec<ToolStep>, InfraError>,
    new_key_id: Option<String>,
) -> bool {
    match parsed_usize(threshold@) {
        None => r == Err::<Vec<ToolStep>, InfraError>(InfraError::ParseInt { what: threshold })
            && new_key_id == key_id,
        Some(n) => if keys.len() < n {
            r == Err::<Vec<ToolStep>, InfraError>(
                InfraError::InvalidThreshold { threshold, num_keys: keys.len() as usize },
            ) && new_key_id == key_id
        } else if role == KeyRole::Publication && key_id is None && keys.len() == 0 {
            r == Err::<Vec<ToolStep>, InfraError>(InfraError::KeyCreation) && new_key_id
                == key_id
        } else {
            &&& r matches Ok(steps) && step_views(steps@) == kms_steps(
                key_entries(keys),
                role,
                path@,
                threshold@,
                region@,
            )
            &&& opt_view(new_key_id) == next_key_id(opt_view(key_id), key_entries(keys), role)
            &&& (key_id is Some ==> new_key_id == key_id)
        },
    }
}

/// Fails where a root document already exists at the path (`is_file` tells
/// whether one does), so that it is never silently replaced.
pub fn check_root(root_role_path: &String, is_file: bool) -> (r: Result<(), InfraError>)
    ensures
        is_file ==> r == Err::<(), InfraError>(InfraError::FileExists { path: *root_role_path }),
        !is_file ==> r is Ok,
{
    if is_file {
        return Err(InfraError::FileExists { path: root_role_path.clone() });
    }
    Ok(())
}

fn init_command(path: &str) -> (r: String)
    ensures
        r@ == init_text(path@),
{
    let mut s = String::from_str("root init '");
    s.append(path);
    s.append("'");
    s
}

fn expire_command(path: &str) -> (r: String)
    ensures
        r@ == expire_text(path@),
{
    let mut s = String::from_str("root expire '");
    s.append(path);
    s.append("' 'in 52 weeks'");
    s
}

fn threshold_command(path: &str, role: &str, t: &str) -> (r: String)
    ensures
        r@ == threshold_text(path@, role@, t@),
{
    let mut s = String::from_str("root set-threshold '");
    s.append(path);
    s.append("' ");
    s.append(role);
    s.append(" '");
    s.append(t);
    s.append("' ");
    s
}

fn add_key_command(role: KeyRole, path: &str, key: &str) -> (r: String)
    ensures
        r@ == add_key_text(role, path@, key@),
{
    let mut s = String::from_str("root add-key '");
    s.append(path);
    s.append("' aws-kms:///'");
    s.append(key);
    match role {
        KeyRole::Root => s.append("' --role root"),
        KeyRole::Publication => s.append("' --role snapshot --role targets --role timestamp"),
    }
    s
}

fn sign_command(path: &str, key: &str) -> (r: String)
    ensures
        r@ == sign_text(path@, key@),
{
    let mut s = String::from_str("root sign '");
    s.append(path);
    s.append("' -k aws-kms:///'");
    s.append(key);
    s.append("'");
    s
}

/// The runs that start a root document and set its expiry, in the default region.
pub fn create_root(root_role_path: &String, default_region: &String) -> (r: Vec<ToolStep>)
    ensures
        step_views(r@) == seq![
            (default_region@, init_text(root_role_path@)),
            (default_region@, expire_text(root_role_path@)),
        ],
{
    let mut v: Vec<ToolStep> = Vec::new();
    v.push(ToolStep { region: default_region.clone(), command: init_command(root_role_path.as_str()) });
    v.push(ToolStep { region: default_region.clone(), command: expire_command(root_role_path.as_str()) });
    assert(step_views(v@) =~= seq![
        (default_region@, init_text(root_role_path@)),
        (default_region@, expire_text(root_role_path@)),
    ]);
    v
}

/// Appends one run per available key: `sign` picks signing runs, else runs
/// that register the key for `role`.
fn push_key_steps(
    steps: &mut Vec<ToolStep>,
    keys: &Vec<(String, String)>,
    role: KeyRole,
    path: &String,
    sign: bool,
)
    ensures
        step_views(final(steps)@) == step_views(old(steps)@) + (if sign {
            sign_steps(key_entries(keys@), path@)
        } else {
            add_key_steps(key_entries(keys@), role, path@)
        }),
{
    let ghost start = step_views(steps@);
    let ghost want = if sign {
        sign_steps(key_entries(keys@), path@)
    } else {
        add_key_steps(key_entries(keys@), role, path@)
    };
    let mut i: usize = 0;
    while i < keys.len()
        invariant
            i <= keys@.len(),
            want == (if sign {
                sign_steps(key_entries(keys@), path@)
            } else {
                add_key_steps(key_entries(keys@), role, path@)
            }),
            step_views(steps@) =~= start + want.take(i as int),
        decreases keys@.len() - i,
    {
        let command = if sign {
            sign_command(path.as_str(), keys[i].0.as_str())
        } else {
            add_key_command(role, path.as_str(), keys[i].0.as_str())
        };
        let step = ToolStep { region: keys[i].1.clone(), command };
        let ghost before = steps@;
        steps.push(step);
        assert(key_entries(keys@)[i as int] == keys@[i as int]@);
        assert(step@ == want[i as int]);
        assert(step_views(steps@) =~= step_views(before).push(step@));
        assert(want.take(i + 1) =~= want.take(i as int).push(want[i as int]));
        i = i + 1;
    }
    assert(want.take(i as int) =~= want);
}

/// Binds KMS keys to a role in the root document at `filepath`: checks that
/// the threshold is a number no larger than the number of keys, plans the runs
/// that set the role's thresholds and register each key, and, for the
/// publication role, records the first key as the active one where none is.
/// Every check, `KeyCreation` included (the publication role with no key
/// recorded and none available), comes before any run is planned, so a failure
/// leaves nothing to run.
pub fn add_keys_kms(
    available_keys: &Vec<(String, String)>,
    role: &KeyRole,
    threshold: &String,
    filepath: &String,
    key_id: &mut Option<String>,
    default_region: &String,
) -> (r: Result<Vec<ToolStep>, InfraError>)
    ensures
        kms_outcome(
            available_keys@,
            *role,
            *threshold,
            *filepath,
            *default_region,
            *old(key_id),
            r,
            *final(key_id),
        ),
{
    let n = parse_threshold(threshold)?;
    if available_keys.len() < n {
        return Err(InfraError::InvalidThreshold { threshold: threshold.clone(), num_keys: available_keys.len() });
    }
    let mut steps: Vec<ToolStep> = Vec::new();
    let path = filepath.as_str();
    let t = threshold.as_str();
    match role {
        KeyRole::Root => {
            steps.push(ToolStep { region: default_region.clone(), command: threshold_command(path, "root", t) });
        },
        KeyRole::Publication => {
            if key_id.is_none() && available_keys.len() == 0 {
                return Err(InfraError::KeyCreation);
            }
            steps.push(ToolStep { region: default_region.clone(), command: threshold_command(path, "snapshot", t) });
            steps.push(ToolStep { region: default_region.clone(), command: threshold_command(path, "targets", t) });
            steps.push(ToolStep { region: default_region.clone(), command: threshold_command(path, "timestamp", t) });
        },
    }
    assert(step_views(steps@) =~= threshold_steps(*role, filepath@, threshold@, default_region@));
    push_key_steps(&mut steps, available_keys, *role, filepath, false);
    if *role == KeyRole::Publication && key_id.is_none() {
        *key_id = Some(available_keys[0].0.clone());
    }
    Ok(steps)
}

/// Binds the keys of one role configuration to the root document at
/// `filepath`. Only KMS keys take part; a KMS configuration without key details
/// fails. Only the recorded publication key may change.
pub fn add_keys(
    signing_key_config: &mut SigningKeyConfig,
    role: &KeyRole,
    threshold: &String,
    filepath: &String,
    default_region: &String,
) -> (r: Result<Vec<ToolStep>, InfraError>)
    ensures
        match *old(signing_key_config) {
            SigningKeyConfig::Kms { key_id, config: Some(c) } => {
                &&& *final(signing_key_config) matches SigningKeyConfig::Kms {
                    key_id: k,
                    config: c2,
                } && c2 == Some(c) && kms_outcome(
                    c.available_keys@,
                    *role,
                    *threshold,
                    *filepath,
                    *default_region,
                    key_id,
                    r,
                    k,
                )
            },
            SigningKeyConfig::Kms { key_id, config: None } => {
                &&& *final(signing_key_config) == *old(signing_key_config)
                &&& r matches Err(InfraError::MissingConfig { missing }) && missing@
                    == "config field for a kms key"@
            },
            _ => {
                &&& *final(signing_key_config) == *old(signing_key_config)
                &&& r matches Ok(v) && v@.len() == 0
            },
        },
{
    match signing_key_config {
        SigningKeyConfig::Kms { key_id, config } => match config {
            Some(c) => add_keys_kms(&c.available_keys, role, threshold, filepath, key_id, default_region),
            None => Err(InfraError::MissingConfig { missing: String::from_str("config field for a kms key") }),
        },
        _ => Ok(Vec::new()),
    }
}

/// Plans the signing of the root document at `filepath` with every available
/// key of a KMS configuration, each run in its key's region; other kinds of
/// key need no run.
pub fn sign_root(signing_key_config: &SigningKeyConfig, filepath: &String) -> (r: Result<
    Vec<ToolStep>,
    InfraError,
>)
    ensures
        match *signing_key_config {
            SigningKeyConfig::Kms { config: Some(c), .. } => r matches Ok(v) && step_views(v@)
                == sign_steps(key_entries(c.available_keys@), filepath@),
            SigningKeyConfig::Kms { config: None, .. } => r matches Err(
                InfraError::MissingConfig { missing },
            ) && missing@ == "KMS key details"@,
            _ => r matches Ok(v) && v@.len() == 0,
        },
{
    match signing_key_config {
        SigningKeyConfig::Kms { config, .. } => match config {
            Some(c) => {
                let mut steps: Vec<ToolStep> = Vec::new();
                push_key_steps(&mut steps, &c.available_keys, KeyRole::Root, filepath, true);
                assert(step_views(steps@) =~= sign_steps(key_entries(c.available_keys@), filepath@));
                Ok(steps)
            },
            None => Err(InfraError::MissingConfig { missing: String::from_str("KMS key details") }),
        },
        _ => Ok(Vec::new()),
    }
}

/// Once a publication key is recorded, assigning keys again leaves it as it
/// is, whatever the keys and their order.
pub proof fn lemma_key_id_kept(
    keys: Seq<(String, String)>,
    role: KeyRole,
    threshold: String,
    path: String,
    region: String,
    key_id: Option<String>,
    r: Result<Vec<ToolStep>, InfraError>,
    new_key_id: Option<String>,
)
    requires
        kms_outcome(keys, role, threshold, path, region, key_id, r, new_key_id),
        key_id is Some,
    ensures
        new_key_id == key_id,
{
}

/// A successful assignment to the publication role leaves a key recorded, so
/// that every later assignment keeps it.
pub proof fn lemma_publication_key_recorded(
    keys: Seq<(String, String)>,
    threshold: String,
    path: String,
    region: String,
    key_id: Option<String>,
    r: Result<Vec<ToolStep>, InfraError>,
    new_key_id: Option<String>,
)
    requires
        kms_outcome(keys, KeyRole::Publication, threshold, path, region, key_id, r, new_key_id),
        r is Ok,
    ensures
        new_key_id is Some,
        key_id is Some ==> new_key_id == key_id,
        key_id is None ==> (new_key_id matches Some(k) && k@ == keys[0].0@),
{
}

/// With fewer available keys than a well-formed threshold asks for, assigning
/// keys always fails with an invalid threshold and records nothing.
pub proof fn lemma_threshold_too_high(
    keys: Seq<(String, String)>,
    role: KeyRole,
    threshold: String,
    path: String,
    region: String,
    key_id: Option<String>,
    r: Result<Vec<ToolStep>, InfraError>,
    new_key_id: Option<String>,
)
    requires
        kms_outcome(keys, role, threshold, path, region, key_id, r, new_key_id),
        parsed_usize(threshold@) matches Some(n) && keys.len() < n,
    ensures
        r == Err::<Vec<ToolStep>, InfraError>(
            InfraError::InvalidThreshold { threshold, num_keys: keys.len() as usize },
        ),
        new_key_id == key_id,
{
}

} // verus!
