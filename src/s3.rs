use vstd::prelude::*;
use vstd::string::*;
use crate::error::InfraError;
use crate::tool::{join2, join5};

verus! {

/// A bucket prefix with a leading `/`: a prefix that has one is kept as it is,
/// any other gets one in front. Trailing `/` or `/*` are kept.
pub open spec fn formatted_prefix(p: Seq<char>) -> Seq<char> {
    if p.len() > 0 && p[0] == '/' {
        p
    } else {
        seq!['/'] + p
    }
}

/// Puts a `/` in front of a prefix that lacks one.
pub fn format_prefix(prefix: &String) -> (r: String)
    ensures
        r@ == formatted_prefix(prefix@),
{
    let s = prefix.as_str();
    if s.unicode_len() > 0 && s.get_char(0) == '/' {
        return prefix.clone();
    }
    let slash = "/";
    proof {
        reveal_strlit("/");
    }
    let mut formatted = String::from_str(slash);
    formatted.append(s);
    formatted
}

#[verifier::external_type_specification]
#[verifier::external_body]
pub struct ExJsonValue(serde_json::Value);

/// The JSON document that a text spells, if it spells one.
pub uninterp spec fn json_value_of(s: Seq<char>) -> Option<serde_json::Value>;

/// The member of a JSON object under a key, if the document is an object with
/// that key.
pub uninterp spec fn json_member_of(doc: serde_json::Value, key: Seq<char>) -> Option<serde_json::Value>;

/// The items of a JSON array, if the value is an array.
pub uninterp spec fn json_array_of(v: serde_json::Value) -> Option<Seq<serde_json::Value>>;

/// A JSON object with the member under a key replaced by an array of the items.
pub uninterp spec fn json_with_array(
    doc: serde_json::Value,
    key: Seq<char>,
    items: Seq<serde_json::Value>,
) -> serde_json::Value;

/// The JSON text of a document.
pub uninterp spec fn json_text_of(v: serde_json::Value) -> Seq<char>;

/// Relies on serde_json::from_str into a `Value`: the document depends on the
/// text alone.
#[verifier::external_body]
fn parse_json(s: &str) -> (r: Option<serde_json::Value>)
    ensures
        r == json_value_of(s@),
{
    serde_json::from_str(s).ok()
}

/// Relies on serde_json::Value::get with a string key: the member under the
/// key where the document is an object that has it.
#[verifier::external_body]
fn json_member(doc: &serde_json::Value, key: &str) -> (r: Option<serde_json::Value>)
    ensures
        r == json_member_of(*doc, key@),
{
    doc.get(key).cloned()
}

/// Relies on serde_json::Value::as_array: the items where the value is an array.
#[verifier::external_body]
fn json_array(v: &serde_json::Value) -> (r: Option<Vec<serde_json::Value>>)
    ensures
        match r {
            Some(items) => json_array_of(*v) == Some(items@),
            None => json_array_of(*v) is None,
        },
{
    v.as_array().cloned()
}

/// Relies on serde_json's `IndexMut` with a string key on an object: the
/// member under the key becomes an array of the items. The document is an
/// object, as it has a member under the key, so the indexing does not panic.
#[verifier::external_body]
fn with_json_array(doc: serde_json::Value, key: &str, items: Vec<serde_json::Value>) -> (r:
    serde_json::Value)
    requires
        json_member_of(doc, key@) is Some,
    ensures
        r == json_with_array(doc, key@, items@),
{
    let mut doc = doc;
    doc[key] = serde_json::Value::Array(items);
    doc
}

/// Relies on serde_json::to_string: the JSON text of a document, which cannot
/// fail for a `Value` (its maps have string keys and its serialization never
/// fails).
#[verifier::external_body]
fn json_text(v: &serde_json::Value) -> (r: Option<String>)
    ensures
        r is Some,
        r->Some_0@ == json_text_of(*v),
{
    serde_json::to_string(v).ok()
}

/// What a stack's status means for the wait on it.
#[derive(Debug, Clone, Copy, PartialEq, Eq, Structural)]
pub enum StackPoll {
    /// Creation finished: the outputs can be read.
    Ready,
    /// Creation is under way: ask again later.
    Wait,
    /// Creation ended without success (it failed or is being rolled back):
    /// waiting longer would never end.
    Failed,
}

/// Decides the wait on a stack from its status: ready once creation is
/// complete, waiting while it is in progress, failed on any other status.
pub fn stack_poll(status: &String) -> (r: StackPoll)
    ensures
        status@ == "CREATE_COMPLETE"@ ==> r == StackPoll::Ready,
        status@ == "CREATE_IN_PROGRESS"@ ==> r == StackPoll::Wait,
        status@ != "CREATE_COMPLETE"@ && status@ != "CREATE_IN_PROGRESS"@ ==> r
            == StackPoll::Failed,
{
    let done = String::from_str("CREATE_COMPLETE");
    let going = String::from_str("CREATE_IN_PROGRESS");
    proof {
        reveal_strlit("CREATE_COMPLETE");
        reveal_strlit("CREATE_IN_PROGRESS");
        assert("CREATE_COMPLETE"@.len() != "CREATE_IN_PROGRESS"@.len());
    }
    if *status == done {
        StackPoll::Ready
    } else if *status == going {
        StackPoll::Wait
    } else {
        StackPoll::Failed
    }
}

/// The stack handle from a creation response, which must hold one.
pub fn stack_handle(stack_id: &Option<String>, stack_name: &String) -> (r: Result<String, InfraError>)
    ensures
        match *stack_id {
            Some(id) => r == Ok::<String, InfraError>(id),
            None => r matches Err(InfraError::ParseResponse { what, resource_name }) && what@
                == "stack_id"@ && resource_name == *stack_name,
        },
{
    match stack_id {
        Some(id) => Ok(id.clone()),
        None => Err(
            InfraError::ParseResponse { what: String::from_str("stack_id"), resource_name: stack_name.clone() },
        ),
    }
}

/// The bucket name and bucket URL: the values of a ready stack's first two
/// outputs, in that order.
pub fn bucket_outputs(outputs: &Vec<Option<String>>, stack_name: &String) -> (r: Result<
    (String, String),
    InfraError,
>)
    ensures
        outputs@.len() < 2 ==> (r matches Err(InfraError::ParseResponse { what, resource_name })
            && what@ == "outputs"@ && resource_name == *stack_name),
        outputs@.len() >= 2 ==> match (outputs@[0], outputs@[1]) {
            (Some(name), Some(url)) => r == Ok::<(String, String), InfraError>((name, url)),
            (None, _) => r matches Err(InfraError::ParseResponse { what, resource_name }) && what@
                == "outputs[0].output_value (bucket name)"@ && resource_name == *stack_name,
            (Some(_), None) => r matches Err(InfraError::ParseResponse { what, resource_name })
                && what@ == "outputs[1].output_value (bucket url)"@ && resource_name
                == *stack_name,
        },
{
    if outputs.len() < 2 {
        return Err(
            InfraError::ParseResponse { what: String::from_str("outputs"), resource_name: stack_name.clone() },
        );
    }
    let name = match &outputs[0] {
        Some(n) => n.clone(),
        None => {
            return Err(
                InfraError::ParseResponse {
                    what: String::from_str("outputs[0].output_value (bucket name)"),
                    resource_name: stack_name.clone(),
                },
            );
        },
    };
    let url = match &outputs[1] {
        Some(u) => u.clone(),
        None => {
            return Err(
                InfraError::ParseResponse {
                    what: String::from_str("outputs[1].output_value (bucket url)"),
                    resource_name: stack_name.clone(),
                },
            );
        },
    };
    Ok((name, url))
}

/// The bucket path that the root document is uploaded under.
pub fn upload_bucket(bucket_name: &String, prefix: &String) -> (r: String)
    ensures
        r@ == bucket_name@ + prefix@,
{
    join2(bucket_name.as_str(), prefix.as_str())
}

/// The policy that a bucket without one starts from: no statements.
pub open spec fn empty_policy_text() -> Seq<char> {
    "{\"Version\": \"2008-10-17\", \"Statement\": []}"@
}

/// The policy text to extend: `fetched` is `None` where fetching the bucket's
/// policy failed (the bucket has none yet), else the response's policy field,
/// which must be present.
pub fn initial_policy(fetched: &Option<Option<String>>, bucket_name: &String) -> (r: Result<
    String,
    InfraError,
>)
    ensures
        match *fetched {
            None => r matches Ok(p) && p@ == empty_policy_text(),
            Some(Some(p)) => r == Ok::<String, InfraError>(p),
            Some(None) => r matches Err(InfraError::ParseResponse { what, resource_name })
                && what@ == "policy"@ && resource_name == *bucket_name,
        },
{
    match fetched {
        None => Ok(String::from_str("{\"Version\": \"2008-10-17\", \"Statement\": []}")),
        Some(Some(p)) => Ok(p.clone()),
        Some(None) => Err(
            InfraError::ParseResponse { what: String::from_str("policy"), resource_name: bucket_name.clone() },
        ),
    }
}

/// The resource that the read grant covers: every object under the prefix.
pub open spec fn grant_resource(bucket_name: Seq<char>, prefix: Seq<char>) -> Seq<char> {
    "arn:aws:s3:::"@ + bucket_name + prefix + "/*"@
}

/// The JSON text of the statement that grants reading the objects under the
/// prefix to requests through one network endpoint.
pub open spec fn grant_text(bucket_name: Seq<char>, prefix: Seq<char>, vpcid: Seq<char>) -> Seq<char> {
    "{\"Effect\": \"Allow\", \"Principal\": \"*\", \"Action\": \"s3:GetObject\", \"Resource\": \""@
        + grant_resource(bucket_name, prefix)
        + "\", \"Condition\": {\"StringEquals\": {\"aws:sourceVpce\": \""@ + vpcid + "\"}}}"@
}

/// Builds the statement text of the read grant.
pub fn grant_statement(bucket_name: &String, prefix: &String, vpcid: &String) -> (r: String)
    ensures
        r@ == grant_text(bucket_name@, prefix@, vpcid@),
{
    let mut s = join5(
        "{\"Effect\": \"Allow\", \"Principal\": \"*\", \"Action\": \"s3:GetObject\", \"Resource\": \"arn:aws:s3:::",
        bucket_name.as_str(),
        prefix.as_str(),
        "/*",
        "\", \"Condition\": {\"StringEquals\": {\"aws:sourceVpce\": \"",
    );
    s.append(vpcid.as_str());
    s.append("\"}}}");
    proof {
        reveal_strlit("{\"Effect\": \"Allow\", \"Principal\": \"*\", \"Action\": \"s3:GetObject\", \"Resource\": \"arn:aws:s3:::");
        reveal_strlit("{\"Effect\": \"Allow\", \"Principal\": \"*\", \"Action\": \"s3:GetObject\", \"Resource\": \"");
        reveal_strlit("arn:aws:s3:::");
        assert(s@ =~= grant_text(bucket_name@, prefix@, vpcid@));
    }
    s
}

/// The statement list of a policy document, if it has one.
pub open spec fn policy_statements(doc: serde_json::Value) -> Option<Seq<serde_json::Value>> {
    match json_member_of(doc, "Statement"@) {
        Some(m) => json_array_of(m),
        None => None,
    }
}

/// What extending the policy text `current` with the grant gives: the error
/// where a text is not JSON or the policy has no statement list, else the text
/// of the policy whose statement list is the old one with the grant appended,
/// all else as it was.
pub open spec fn merge_outcome(
    current: Seq<char>,
    bucket_name: String,
    prefix: Seq<char>,
    vpcid: Seq<char>,
    r: Result<String, InfraError>,
) -> bool {
    match json_value_of(current) {
        None => r matches Err(InfraError::InvalidJson { what }) && what@
            == "retrieved bucket policy for "@ + bucket_name@,
        Some(doc) => match json_value_of(grant_text(bucket_name@, prefix, vpcid)) {
            None => r matches Err(InfraError::InvalidJson { what }) && what@
                == "new bucket policy for "@ + bucket_name@,
            Some(grant) => match policy_statements(doc) {
                None => r == Err::<String, InfraError>(
                    InfraError::GetPolicyStatement { bucket_name },
                ),
                Some(items) => r matches Ok(q) && q@ == json_text_of(
                    json_with_array(doc, "Statement"@, items.push(grant)),
                ),
            },
        },
    }
}

/// Extends a bucket policy with the read grant for the prefix and endpoint:
/// the grant is appended to the policy's statement list, no statement is
/// removed or reordered, and nothing else changes.
pub fn merge_policy(current: &String, bucket_name: &String, prefix: &String, vpcid: &String) -> (r: Result<
    String,
    InfraError,
>)
    ensures
        merge_outcome(current@, *bucket_name, prefix@, vpcid@, r),
{
    let doc = match parse_json(current.as_str()) {
        Some(d) => d,
        None => {
            return Err(InfraError::InvalidJson { what: join2("retrieved bucket policy for ", bucket_name.as_str()) });
        },
    };
    let grant = match parse_json(grant_statement(bucket_name, prefix, vpcid).as_str()) {
        Some(g) => g,
        None => {
            return Err(InfraError::InvalidJson { what: join2("new bucket policy for ", bucket_name.as_str()) });
        },
    };
    let key = "Statement";
    proof {
        reveal_strlit("Statement");
    }
    let member = match json_member(&doc, key) {
        Some(m) => m,
        None => {
            return Err(InfraError::GetPolicyStatement { bucket_name: bucket_name.clone() });
        },
    };
    let mut items = match json_array(&member) {
        Some(items) => items,
        None => {
            return Err(InfraError::GetPolicyStatement { bucket_name: bucket_name.clone() });
        },
    };
    items.push(grant);
    let doc = with_json_array(doc, key, items);
    match json_text(&doc) {
        Some(t) => Ok(t),
        None => Err(InfraError::InvalidJson { what: join2("new bucket policy for ", bucket_name.as_str()) }),
    }
}

/// A successful merge keeps every statement of the policy, in order, and adds
/// exactly one after them: the grant, as its JSON text reads.
pub proof fn lemma_merge_appends_grant(
    current: Seq<char>,
    bucket_name: String,
    prefix: Seq<char>,
    vpcid: Seq<char>,
    r: Result<String, InfraError>,
)
    requires
        merge_outcome(current, bucket_name, prefix, vpcid, r),
        r is Ok,
    ensures
        json_value_of(current) matches Some(doc) && policy_statements(doc) matches Some(items)
            && json_value_of(grant_text(bucket_name@, prefix, vpcid)) matches Some(grant) && ({
            let merged = items.push(grant);
            &&& merged.len() == items.len() + 1
            &&& forall|i: int| 0 <= i < items.len() ==> merged[i] == items[i]
            &&& merged.last() == grant
            &&& r matches Ok(q) && q@ == json_text_of(json_with_array(doc, "Statement"@, merged))
        }),
{
    let doc = json_value_of(current)->Some_0;
    let items = policy_statements(doc)->Some_0;
    let grant = json_value_of(grant_text(bucket_name@, prefix, vpcid))->Some_0;
    let merged = items.push(grant);
    assert forall|i: int| 0 <= i < items.len() implies merged[i] == items[i] by {}
}

} // verus!
