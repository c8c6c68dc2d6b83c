use vstd::prelude::*;

verus! {

/// Every way in which provisioning a repository can fail.
#[derive(Debug, Clone, PartialEq, Eq)]
pub enum InfraError {
    /// A required configuration field is absent; `missing` names it.
    MissingConfig { missing: String },
    /// Fewer keys are available than the threshold asks for.
    InvalidThreshold { threshold: String, num_keys: usize },
    /// A threshold is not a decimal number that fits a `usize`.
    ParseInt { what: String },
    /// A URL could not be parsed.
    ParseUrl { input: String },
    /// A JSON document could not be parsed or written.
    InvalidJson { what: String },
    /// A bucket policy has no statement list.
    GetPolicyStatement { bucket_name: String },
    /// A cloud response lacked a field; `what` names it.
    ParseResponse { what: String, resource_name: String },
    /// A root document already exists at the path.
    FileExists { path: String },
    /// A signing-tool command line could not be split into words.
    CommandSplit { command: String },
    /// The signing tool ran and exited with failure.
    TuftoolResult { command: String, code: Option<i32> },
    /// No available key could be chosen as the publication key.
    KeyCreation,
}

} // verus!
