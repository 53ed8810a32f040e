//! Detection of local file paths in free-form text, an inline attachment
//! codec built on data URLs, offset-sensitive path-to-URL substitution,
//! and the static provider table the surrounding application configures
//! itself with.

pub mod codec;
pub mod devin;
pub mod errors;
pub mod providers;
pub mod scanner;
pub mod store;
pub mod strutil;
pub mod subst;

use vstd::prelude::*;

verus! {

/// The byte threshold at and above which a file is no longer eligible
/// for remote processing: 10 MiB.
pub const REMOTE_SIZE_LIMIT: u64 = 10 * 1024 * 1024;

/// True exactly when a regular file of `size` bytes may be handed to the
/// remote side: the file must exist as a regular file, its size must be
/// known, and it must be smaller than `REMOTE_SIZE_LIMIT`.
pub fn is_remote_eligible(is_file: bool, size: Option<u64>) -> (r: bool)
    ensures
        r == (is_file && (size matches Some(n) && n < REMOTE_SIZE_LIMIT)),
{
    if !is_file {
        return false;
    }
    match size {
        Some(n) => n < REMOTE_SIZE_LIMIT,
        None => false,
    }
}

} // verus!
