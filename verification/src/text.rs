//! Small verified helpers over strings: comparison against route segments and
//! assembly of page titles.

use vstd::prelude::*;
use vstd::string::StringExecFns;

verus! {

/// Whether two string slices hold the same characters.
pub fn str_eq(a: &str, b: &str) -> (r: bool)
    ensures
        r == (a@ == b@),
{
    let owned_a = a.to_owned();
    let owned_b = b.to_owned();
    owned_a.eq(&owned_b)
}

/// The browser title shown for a page, derived from the page identifier.
pub fn page_title(page: &str) -> (t: String)
    ensures
        t@ == "Rust - "@ + page@,
{
    let prefix = String::from_str("Rust - ");
    prefix.concat(page)
}

} // verus!
