//! String operations of std that the launcher relies on.

use vstd::prelude::*;

verus! {

/// The Unicode lowercase mapping that `str::to_lowercase` applies to a
/// string (the characters of the result, as a function of the characters
/// of the argument).
pub uninterp spec fn unicode_lowercase(s: Seq<char>) -> Seq<char>;

/// Calls `str::to_lowercase`.
///
/// Trusted: the result is claimed to be `unicode_lowercase` of the
/// argument's characters. Rust's lowercase mapping does not depend on a
/// locale, so the same characters always give the same result; nothing
/// else is claimed of the mapping.
#[verifier::external_body]
pub fn to_lowercase(s: &str) -> (res: String)
    ensures
        res@ == unicode_lowercase(s@),
{
    s.to_lowercase()
}

} // verus!
