//! Recognition of placeholder model artifacts: dummy files written in place
//! of a real download, tagged with a sentinel line. Such a file must never be
//! bound to a provider or loaded as a real model.

use vstd::prelude::*;
use crate::strings::{is_prefix, starts_with};

verus! {

/// The sentinel line that opens every placeholder artifact.
pub open spec fn spec_sentinel() -> Seq<char> {
    "digiOS Model Placeholder"@
}

/// The sentinel as a string slice.
pub fn sentinel_str() -> (r: &'static str)
    ensures
        r@ == spec_sentinel(),
{
    "digiOS Model Placeholder"
}

/// File contents that begin with the sentinel mark a placeholder artifact.
pub open spec fn is_placeholder_text(s: Seq<char>) -> bool {
    is_prefix(s, spec_sentinel())
}

/// Whether `s` begins with the placeholder sentinel.
pub fn is_placeholder_content(s: &str) -> (r: bool)
    ensures
        r == is_placeholder_text(s@),
{
    starts_with(s, sentinel_str())
}

} // verus!
