//! Comparison of names.

use vstd::prelude::*;

verus! {

/// Whether two names are made of the same characters.
pub fn names_equal(a: &str, b: &str) -> (r: bool)
    ensures
        r == (a@ == b@),
{
    let x = a.to_owned();
    let y = b.to_owned();
    x == y
}

} // verus!
