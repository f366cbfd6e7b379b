//! Case folding through the standard library. Tokens are folded to lowercase
//! before frequency counting and syllable estimation.

use vstd::prelude::*;

verus! {

/// The Unicode lowercasing of `s`, exactly as `str::to_lowercase` computes
/// it. Left uninterpreted: the mapping fills Unicode tables, but it depends
/// on the characters of `s` alone.
pub uninterp spec fn lower_of(s: Seq<char>) -> Seq<char>;

/// Relies on `str::to_lowercase`: returns the lowercase equivalent of `s`,
/// a pure function of the characters of `s`.
#[verifier::external_body]
pub(crate) fn fold_case(s: &str) -> (r: String)
    ensures
        r@ == lower_of(s@),
{
    s.to_lowercase()
}

} // verus!
