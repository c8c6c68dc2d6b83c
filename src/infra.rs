use vstd::prelude::*;
use vstd::string::*;
use crate::config::{names_distinct, AwsConfig, RepoConfig, S3Config, SigningKeyConfig};
use crate::error::InfraError;
use crate::s3::{format_prefix, formatted_prefix};
use crate::digest::{hex_text, sha512_hex, sha512_of};
use crate::tool::{join2, join3};

verus! {

/// What one repository needs before provisioning starts: the name of its
/// bucket configuration and where that stands in the list, the bucket's region
/// and endpoint, its prefix with a leading `/`, and the two role thresholds.
#[derive(Debug, Clone, PartialEq, Eq)]
pub struct RepoSettings {
    pub stack_name: String,
    pub s3_index: usize,
    pub region: String,
    pub vpc_endpoint_id: String,
    pub prefix: String,
    pub pub_key_threshold: String,
    pub root_key_threshold: String,
}

/// `r` is a missing-configuration error that names `what`.
pub open spec fn is_missing<T>(r: Result<T, InfraError>, what: Seq<char>) -> bool {
    r matches Err(InfraError::MissingConfig { missing }) && missing@ == what
}

/// Whether a named entry is the first whose name is `name`.
pub open spec fn first_named<T>(list: Seq<(String, T)>, name: Seq<char>, i: int) -> bool {
    &&& 0 <= i < list.len()
    &&& list[i].0@ == name
    &&& forall|j: int| 0 <= j < i ==> #[trigger] list[j].0@ != name
}

/// Whether some entry of the list is named `name`.
pub open spec fn has_named<T>(list: Seq<(String, T)>, name: Seq<char>) -> bool {
    exists|j: int| 0 <= j < list.len() && #[trigger] list[j].0@ == name
}

/// Finds the first bucket configuration with the given name.
pub fn find_s3_config(list: &Vec<(String, S3Config)>, name: &String) -> (r: Option<usize>)
    ensures
        match r {
            Some(i) => first_named(list@, name@, i as int),
            None => !has_named(list@, name@),
        },
        names_distinct(list@) && r is Some ==> forall|j: int|
            0 <= j < list@.len() && j != r->Some_0 ==> #[trigger] list@[j].0@ != name@,
{
    let mut i: usize = 0;
    while i < list.len()
        invariant
            i <= list@.len(),
            forall|j: int| 0 <= j < i ==> #[trigger] list@[j].0@ != name@,
        decreases list@.len() - i,
    {
        if list[i].0 == *name {
            return Some(i);
        }
        i = i + 1;
    }
    None
}

/// Checks a role's key configuration before anything is created: KMS keys
/// need their key details; other kinds need nothing.
pub fn check_signing_key_config(signing_key_config: &SigningKeyConfig) -> (r: Result<(), InfraError>)
    ensures
        signing_key_config matches SigningKeyConfig::Kms { config: None, .. } ==> is_missing(
            r,
            "config field for a kms key"@,
        ),
        !(signing_key_config matches SigningKeyConfig::Kms { config: None, .. }) ==> r is Ok,
{
    match signing_key_config {
        SigningKeyConfig::Kms { config: None, .. } => Err(
            InfraError::MissingConfig { missing: String::from_str("config field for a kms key") },
        ),
        _ => Ok(()),
    }
}

/// What resolving one repository's settings yields, field by field, failing
/// at the first absent one.
pub open spec fn settings_outcome(
    repo_name: Seq<char>,
    repo: RepoConfig,
    aws: Option<AwsConfig>,
    r: Result<RepoSettings, InfraError>,
) -> bool {
    match repo.file_hosting_config_name {
        None => is_missing(r, "file_hosting_config_name"@),
        Some(name) => match aws {
            None => is_missing(r, "aws"@),
            Some(a) => match a.s3 {
                None => is_missing(r, "aws.s3"@),
                Some(list) => if !has_named(list@, name@) {
                    is_missing(r, "aws.s3 config with name "@ + name@)
                } else {
                    exists|i: int|
                        first_named(list@, name@, i) && #[trigger] settings_of_bucket(
                            repo_name,
                            repo,
                            name,
                            i,
                            list@[i].1,
                            r,
                        )
                },
            },
        },
    }
}

/// The rest of `settings_outcome`, once the bucket configuration `s3` (at
/// index `i`, named `name`) is found.
pub open spec fn settings_of_bucket(
    repo_name: Seq<char>,
    repo: RepoConfig,
    name: String,
    i: int,
    s3: S3Config,
    r: Result<RepoSettings, InfraError>,
) -> bool {
    match s3.region {
        None => is_missing(r, "region for '"@ + name@ + "' s3 config"@),
        Some(region) => match s3.vpc_endpoint_id {
            None => is_missing(r, "vpc_endpoint_id for '"@ + name@ + "' s3 config"@),
            Some(vpc) => match repo.signing_keys {
                None => is_missing(r, "signing_keys for '"@ + repo_name + "' repo config"@),
                Some(sk) => match repo.root_keys {
                    None => is_missing(r, "root_keys for '"@ + repo_name + "' repo config"@),
                    Some(rk) => match repo.pub_key_threshold {
                        None => is_missing(r, "pub_key_threshold for '"@ + repo_name + "' repo config"@),
                        Some(pt) => match repo.root_key_threshold {
                            None => is_missing(r, "root_key_threshold for '"@ + repo_name + "' repo config"@),
                            Some(rt) => if sk matches SigningKeyConfig::Kms { config: None, .. } || rk matches SigningKeyConfig::Kms { config: None, .. } {
                                is_missing(r, "config field for a kms key"@)
                            } else {
                                r matches Ok(s) && s.stack_name == name && s.s3_index == i && s.region
                                    == region && s.vpc_endpoint_id == vpc && s.prefix@ == formatted_prefix(
                                    s3.s3_prefix@,
                                ) && s.pub_key_threshold == pt && s.root_key_threshold == rt
                            },
                        },
                    },
                },
            },
        },
    }
}

/// Resolves every setting that provisioning one repository needs, and checks
/// both of its key configurations, before anything is created; fails on the
/// first absent field, naming it.
pub fn repo_settings(repo_name: &String, repo: &RepoConfig, aws: &Option<AwsConfig>) -> (r: Result<
    RepoSettings,
    InfraError,
>)
    ensures
        settings_outcome(repo_name@, *repo, *aws, r),
{
    let name = match &repo.file_hosting_config_name {
        Some(n) => n,
        None => {
            return Err(InfraError::MissingConfig { missing: String::from_str("file_hosting_config_name") });
        },
    };
    let a = match aws {
        Some(a) => a,
        None => {
            return Err(InfraError::MissingConfig { missing: String::from_str("aws") });
        },
    };
    let list = match &a.s3 {
        Some(l) => l,
        None => {
            return Err(InfraError::MissingConfig { missing: String::from_str("aws.s3") });
        },
    };
    let i = match find_s3_config(list, name) {
        Some(i) => i,
        None => {
            return Err(InfraError::MissingConfig { missing: join2("aws.s3 config with name ", name.as_str()) });
        },
    };
    let ghost gi = i as int;
    let s3 = &list[i].1;
    let region = match &s3.region {
        Some(x) => x,
        None => {
            let r = Err(InfraError::MissingConfig { missing: join3("region for '", name.as_str(), "' s3 config") });
            assert(settings_of_bucket(repo_name@, *repo, *name, gi, list@[gi].1, r));
            return r;
        },
    };
    let vpc = match &s3.vpc_endpoint_id {
        Some(x) => x,
        None => {
            let r = Err(InfraError::MissingConfig { missing: join3("vpc_endpoint_id for '", name.as_str(), "' s3 config") });
            assert(settings_of_bucket(repo_name@, *repo, *name, gi, list@[gi].1, r));
            return r;
        },
    };
    let sk = match &repo.signing_keys {
        Some(x) => x,
        None => {
            let r = Err(InfraError::MissingConfig { missing: join3("signing_keys for '", repo_name.as_str(), "' repo config") });
            assert(settings_of_bucket(repo_name@, *repo, *name, gi, list@[gi].1, r));
            return r;
        },
    };
    let rk = match &repo.root_keys {
        Some(x) => x,
        None => {
            let r = Err(InfraError::MissingConfig { missing: join3("root_keys for '", repo_name.as_str(), "' repo config") });
            assert(settings_of_bucket(repo_name@, *repo, *name, gi, list@[gi].1, r));
            return r;
        },
    };
    let pt = match &repo.pub_key_threshold {
        Some(x) => x,
        None => {
            let r = Err(InfraError::MissingConfig { missing: join3("pub_key_threshold for '", repo_name.as_str(), "' repo config") });
            assert(settings_of_bucket(repo_name@, *repo, *name, gi, list@[gi].1, r));
            return r;
        },
    };
    let rt = match &repo.root_key_threshold {
        Some(x) => x,
        None => {
            let r = Err(InfraError::MissingConfig { missing: join3("root_key_threshold for '", repo_name.as_str(), "' repo config") });
            assert(settings_of_bucket(repo_name@, *repo, *name, gi, list@[gi].1, r));
            return r;
        },
    };
    let c1 = check_signing_key_config(sk);
    if c1.is_err() {
        let r = Err(InfraError::MissingConfig { missing: String::from_str("config field for a kms key") });
        assert(settings_of_bucket(repo_name@, *repo, *name, gi, list@[gi].1, r));
        return r;
    }
    let c2 = check_signing_key_config(rk);
    if c2.is_err() {
        let r = Err(InfraError::MissingConfig { missing: String::from_str("config field for a kms key") });
        assert(settings_of_bucket(repo_name@, *repo, *name, gi, list@[gi].1, r));
        return r;
    }
    let r = Ok(RepoSettings {
        stack_name: name.clone(),
        s3_index: i,
        region: region.clone(),
        vpc_endpoint_id: vpc.clone(),
        prefix: format_prefix(&s3.s3_prefix),
        pub_key_threshold: pt.clone(),
        root_key_threshold: rt.clone(),
    });
    assert(settings_of_bucket(repo_name@, *repo, *name, gi, list@[gi].1, r));
    r
}

/// The serialization of the URL that a text spells, if it spells one.
pub uninterp spec fn url_text_of(s: Seq<char>) -> Option<Seq<char>>;

/// Relies on url::Url::parse, and on the URL's serialization as a `String`:
/// both depend on the text alone.
#[verifier::external_body]
fn parse_url(s: &str) -> (r: Option<String>)
    ensures
        match r {
            Some(u) => url_text_of(s@) == Some(u@),
            None => url_text_of(s@) is None,
        },
{
    url::Url::parse(s).ok().map(String::from)
}

/// The URL text of the metadata location.
pub open spec fn metadata_text(bucket_url: Seq<char>, prefix: Seq<char>) -> Seq<char> {
    bucket_url + prefix + "/metadata/"@
}

/// The URL text of the targets location.
pub open spec fn targets_text(bucket_url: Seq<char>, prefix: Seq<char>) -> Seq<char> {
    bucket_url + prefix + "/targets/"@
}

/// The URL text of the root document.
pub open spec fn root_text(bucket_url: Seq<char>, prefix: Seq<char>) -> Seq<char> {
    bucket_url + prefix + "/root.json"@
}

/// An output URL field after filling: a set one is kept, an unset one gets
/// the URL that `text` spells.
pub open spec fn url_field(old: Option<String>, text: Seq<char>, new: Option<String>) -> bool {
    match old {
        Some(_) => new == old,
        None => new matches Some(u) && url_text_of(text) == Some(u@),
    }
}

/// Whether an output URL field can be filled: it is set, or `text` spells a URL.
pub open spec fn url_fillable(old: Option<String>, text: Seq<char>) -> bool {
    old is Some || url_text_of(text) is Some
}

/// What filling the output fields of `old` gives: `new`, with result `r`. The
/// input fields never change, and a set URL field is never overwritten. The
/// fields are filled if each unset one gets a URL; the root document's digest
/// is recorded together with its URL.
pub open spec fn fill_outcome(
    old: RepoConfig,
    bucket_url: String,
    prefix: Seq<char>,
    root_role_data: Seq<u8>,
    new: RepoConfig,
    r: Result<(), InfraError>,
) -> bool {
    let b = bucket_url@;
    &&& new.signing_keys == old.signing_keys
    &&& new.root_keys == old.root_keys
    &&& new.file_hosting_config_name == old.file_hosting_config_name
    &&& new.root_key_threshold == old.root_key_threshold
    &&& new.pub_key_threshold == old.pub_key_threshold
    &&& (old.metadata_base_url is Some ==> new.metadata_base_url == old.metadata_base_url)
    &&& (old.targets_url is Some ==> new.targets_url == old.targets_url)
    &&& (old.root_role_url is Some ==> new.root_role_url == old.root_role_url
        && new.root_role_sha512 == old.root_role_sha512)
    &&& if url_fillable(old.metadata_base_url, metadata_text(b, prefix)) && url_fillable(
        old.targets_url,
        targets_text(b, prefix),
    ) && url_fillable(old.root_role_url, root_text(b, prefix)) {
        &&& r is Ok
        &&& url_field(old.metadata_base_url, metadata_text(b, prefix), new.metadata_base_url)
        &&& url_field(old.targets_url, targets_text(b, prefix), new.targets_url)
        &&& url_field(old.root_role_url, root_text(b, prefix), new.root_role_url)
        &&& (old.root_role_url is None ==> (new.root_role_sha512 matches Some(h) && h@ == hex_text(
            sha512_of(root_role_data),
        ) && h@.len() == 128))
    } else {
        r == Err::<(), InfraError>(InfraError::ParseUrl { input: bucket_url })
    }
}

/// Fills the repository's unset output fields from the bucket's URL and
/// prefix: the metadata, targets and root document URLs, and, with the root
/// document's URL, the SHA-512 digest of its content `root_role_data`.
pub fn fill_output_urls(
    repo: &mut RepoConfig,
    bucket_url: &String,
    prefix: &String,
    root_role_data: &Vec<u8>,
) -> (r: Result<(), InfraError>)
    ensures
        fill_outcome(*old(repo), *bucket_url, prefix@, root_role_data@, *final(repo), r),
{
    let b = bucket_url.as_str();
    let p = prefix.as_str();
    if repo.metadata_base_url.is_none() {
        match parse_url(join3(b, p, "/metadata/").as_str()) {
            Some(u) => {
                repo.metadata_base_url = Some(u);
            },
            None => {
                return Err(InfraError::ParseUrl { input: bucket_url.clone() });
            },
        }
    }
    if repo.targets_url.is_none() {
        match parse_url(join3(b, p, "/targets/").as_str()) {
            Some(u) => {
                repo.targets_url = Some(u);
            },
            None => {
                return Err(InfraError::ParseUrl { input: bucket_url.clone() });
            },
        }
    }
    if repo.root_role_url.is_none() {
        match parse_url(join3(b, p, "/root.json").as_str()) {
            Some(u) => {
                repo.root_role_url = Some(u);
            },
            None => {
                return Err(InfraError::ParseUrl { input: bucket_url.clone() });
            },
        }
        repo.root_role_sha512 = Some(sha512_hex(root_role_data));
    }
    Ok(())
}

/// Filling the output fields a second time, with any bucket URL, prefix and
/// content, changes nothing once a first filling succeeded.
pub proof fn lemma_fill_idempotent(
    repo0: RepoConfig,
    url1: String,
    prefix1: Seq<char>,
    data1: Seq<u8>,
    repo1: RepoConfig,
    r1: Result<(), InfraError>,
    url2: String,
    prefix2: Seq<char>,
    data2: Seq<u8>,
    repo2: RepoConfig,
    r2: Result<(), InfraError>,
)
    requires
        fill_outcome(repo0, url1, prefix1, data1, repo1, r1),
        r1 is Ok,
        fill_outcome(repo1, url2, prefix2, data2, repo2, r2),
    ensures
        r2 is Ok,
        repo2 == repo1,
{
}

/// Records a provisioned bucket's stack handle and name in its configuration;
/// its inputs stay as they were.
pub fn record_stack(s3: &mut S3Config, stack_arn: String, bucket_name: String)
    ensures
        final(s3).stack_arn == Some(stack_arn),
        final(s3).bucket_name == Some(bucket_name),
        final(s3).region == old(s3).region,
        final(s3).s3_prefix == old(s3).s3_prefix,
        final(s3).vpc_endpoint_id == old(s3).vpc_endpoint_id,
{
    s3.stack_arn = Some(stack_arn);
    s3.bucket_name = Some(bucket_name);
}

} // verus!
