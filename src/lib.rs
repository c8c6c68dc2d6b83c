//! Bootstrapping of the infrastructure behind an update repository: configuration
//! model, key bookkeeping, signing-tool command plans, bucket policy merging and
//! the output fields recorded in the lock state.

pub mod error;
pub mod shared;
pub mod s3;
pub mod config;
pub mod tool;
pub mod threshold;
pub mod root;
pub mod digest;
pub mod infra;
