use vstd::prelude::*;
use crate::text::str_eq;

verus! {

/// An application can open web URLs when one of the URL schemes it declares
/// is `http` or `https`.
pub open spec fn is_web_scheme(s: Seq<char>) -> bool {
    s == "http"@ || s == "https"@
}

/// Whether the declared URL schemes include `http` or `https`.
pub fn handles_web_urls(schemes: &Vec<String>) -> (r: bool)
    ensures
        r == exists|i: int| 0 <= i < schemes@.len() && is_web_scheme(#[trigger] schemes@[i]@),
{
    let mut i: usize = 0;
    while i < schemes.len()
        invariant
            0 <= i <= schemes@.len(),
            forall|j: int| 0 <= j < i ==> !is_web_scheme(#[trigger] schemes@[j]@),
        decreases schemes@.len() - i,
    {
        if str_eq(schemes[i].as_str(), "http") || str_eq(schemes[i].as_str(), "https") {
            assert(is_web_scheme(schemes@[i as int]@));
            return true;
        }
        i = i + 1;
    }
    false
}

} // verus!
