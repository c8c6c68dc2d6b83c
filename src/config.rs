use vstd::prelude::*;

verus! {

/// KMS keys that a role may sign with: each entry is a key id and the region
/// that the key lives in, in the order in which they are used.
#[derive(Debug, Clone, PartialEq, Eq)]
pub struct KmsKeyConfig {
    pub available_keys: Vec<(String, String)>,
}

impl KmsKeyConfig {
    /// No key id occurs twice, as in the map that the keys come from.
    pub open spec fn wf(&self) -> bool {
        names_distinct(self.available_keys@)
    }
}

/// No name occurs twice in a list of named entries: the list stands for a map.
pub open spec fn names_distinct<T>(list: Seq<(String, T)>) -> bool {
    forall|i: int, j: int| 0 <= i < j < list.len() ==> list[i].0@ != list[j].0@
}

/// The text view of a list of (key id, region) entries.
pub open spec fn key_entries(v: Seq<(String, String)>) -> Seq<(Seq<char>, Seq<char>)> {
    v.map_values(|k: (String, String)| k@)
}

/// Where the keys of one role live.
#[derive(Debug, Clone, PartialEq, Eq)]
pub enum SigningKeyConfig {
    /// A local key file; nothing here manages it.
    File { path: String },
    /// KMS keys; `key_id` is the active publication key once chosen.
    Kms { key_id: Option<String>, config: Option<KmsKeyConfig> },
    /// A key in a parameter store; nothing here manages it.
    Ssm { parameter: String },
}

/// One storage bucket: inputs (region, prefix, endpoint) and outputs (stack
/// handle, bucket name) written once provisioning succeeded.
#[derive(Debug, Clone, PartialEq, Eq)]
pub struct S3Config {
    pub region: Option<String>,
    pub s3_prefix: String,
    pub vpc_endpoint_id: Option<String>,
    pub stack_arn: Option<String>,
    pub bucket_name: Option<String>,
}

/// Cloud settings: the default regions and the named bucket configurations.
#[derive(Debug, Clone, PartialEq, Eq)]
pub struct AwsConfig {
    pub regions: Vec<String>,
    pub role: Option<String>,
    pub profile: Option<String>,
    pub s3: Option<Vec<(String, S3Config)>>,
}

/// One repository: inputs (bucket config name, keys, thresholds) and output
/// URLs and digest, each filled at most once.
#[derive(Debug, Clone, PartialEq, Eq)]
pub struct RepoConfig {
    pub root_role_url: Option<String>,
    pub root_role_sha512: Option<String>,
    pub signing_keys: Option<SigningKeyConfig>,
    pub root_keys: Option<SigningKeyConfig>,
    pub metadata_base_url: Option<String>,
    pub targets_url: Option<String>,
    pub file_hosting_config_name: Option<String>,
    pub root_key_threshold: Option<String>,
    pub pub_key_threshold: Option<String>,
}

/// The whole configuration: repositories by name, and cloud settings.
#[derive(Debug, Clone, PartialEq, Eq)]
pub struct InfraConfig {
    pub repo: Option<Vec<(String, RepoConfig)>>,
    pub aws: Option<AwsConfig>,
}

impl InfraConfig {
    /// Repository names are distinct, bucket configuration names are distinct,
    /// and so are the key ids of every KMS key configuration.
    pub open spec fn wf(&self) -> bool {
        &&& (self.repo matches Some(list) ==> names_distinct(list@) && forall|i: int|
            0 <= i < list@.len() ==> repo_keys_wf(#[trigger] list@[i].1))
        &&& (self.aws matches Some(a) && a.s3 matches Some(list) ==> names_distinct(list@))
    }
}

/// The KMS key configurations of a repository are well formed.
pub open spec fn repo_keys_wf(repo: RepoConfig) -> bool {
    &&& (repo.signing_keys matches Some(SigningKeyConfig::Kms { config: Some(c), .. }) ==> c.wf())
    &&& (repo.root_keys matches Some(SigningKeyConfig::Kms { config: Some(c), .. }) ==> c.wf())
}

} // verus!
