//! The prefix test that decides whether a hash is recorded.

use vstd::prelude::*;

verus! {

/// The character sequences of a list of strings.
pub open spec fn texts(list: Seq<String>) -> Seq<Seq<char>> {
    Seq::new(list.len(), |i: int| list[i]@)
}

/// Some entry of `prefixes` is a prefix of `text`. Exact and case-sensitive;
/// the empty prefix is a prefix of every text, and an empty list has none.
pub open spec fn any_prefix_of(prefixes: Seq<Seq<char>>, text: Seq<char>) -> bool {
    exists|i: int| 0 <= i < prefixes.len() && (#[trigger] prefixes[i]).is_prefix_of(text)
}

/// Trusted: `str::starts_with` with a string pattern.
///
/// The contract claims that the call returns `true` exactly when the
/// characters of `prefix` are the first characters of `text`.
#[verifier::external_body]
pub(crate) fn text_starts_with(text: &str, prefix: &str) -> (found: bool)
    ensures
        found == prefix@.is_prefix_of(text@),
{
    text.starts_with(prefix)
}

/// Whether `text` starts with at least one of `prefixes`. The search stops at
/// the first prefix that fits.
pub fn matches_any(prefixes: &Vec<String>, text: &str) -> (found: bool)
    ensures
        found == any_prefix_of(texts(prefixes@), text@),
{
    let mut i: usize = 0;
    while i < prefixes.len()
        invariant
            i <= prefixes.len(),
            forall|j: int| 0 <= j < i ==> !(#[trigger] texts(prefixes@)[j]).is_prefix_of(text@),
        decreases prefixes.len() - i,
    {
        if text_starts_with(text, prefixes[i].as_str()) {
            assert(texts(prefixes@)[i as int].is_prefix_of(text@));
            return true;
        }
        i += 1;
    }
    false
}

} // verus!
