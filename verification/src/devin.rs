//! Name checks for the devin model family.

use vstd::prelude::*;
use crate::strutil::{spec_starts_with, str_eq, str_starts_with};

verus! {

/// True exactly when the model name carries the `devin-` prefix.
pub fn is_devin_model(model: &str) -> (r: bool)
    ensures
        r == spec_starts_with(model@, "devin-"@),
{
    str_starts_with(model, "devin-")
}

/// True exactly when the model name is one of the two supported devin
/// models.
pub fn is_devin_model_supported(model: &str) -> (r: bool)
    ensures
        r == (model@ == "devin-standard"@ || model@ == "devin-deep"@),
{
    if str_eq(model, "devin-standard") {
        return true;
    }
    str_eq(model, "devin-deep")
}

} // verus!
