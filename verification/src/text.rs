//! Comparison of text.

use vstd::prelude::*;

verus! {

/// `str`'s `==`: two strings are equal exactly when they hold the same
/// characters in the same order. Assumed of the standard library, not proved.
pub assume_specification[ <str as PartialEq>::eq ](a: &str, b: &str) -> (r: bool)
    ensures
        r == (a@ == b@),
;

} // verus!
