//! Typed errors for the attachment pipeline.

use vstd::prelude::*;

verus! {

/// A missing or unusable environment variable, together with the
/// instructions that tell the operator how to set it.
#[derive(Debug, Clone, PartialEq, Eq)]
pub struct EnvVarError {
    pub var: String,
    pub instructions: Option<String>,
}

/// Every failure the pipeline can report.
///
/// `Io` covers unreadable files and unwritable destinations, `Format` a
/// malformed data URL or a wire attachment with a missing field, `Decode`
/// an invalid base64 payload, `Validation` a path with no extractable
/// file name, and `EnvVar` a provider key that cannot be resolved.
#[derive(Debug, Clone, PartialEq, Eq)]
pub enum CoreError {
    Io(String),
    Format(String),
    Decode(String),
    Validation(String),
    EnvVar(EnvVarError),
}

} // verus!
