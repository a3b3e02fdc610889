//! Case-insensitive substring matching for the keyword filter of the
//! catalog query engine.
use vstd::prelude::*;

verus! {

/// The character sequence that `str::to_lowercase` produces for `s`.
/// Unicode lowercasing is a function of the characters alone; it is not
/// restated here, only named.
pub uninterp spec fn lower_of(s: Seq<char>) -> Seq<char>;

/// `needle` occurs contiguously somewhere inside `hay`.
pub open spec fn is_substring(needle: Seq<char>, hay: Seq<char>) -> bool {
    exists|i: int|
        0 <= i && i + needle.len() <= hay.len() && #[trigger] hay.subrange(i, i + needle.len())
            == needle
}

/// A name matches a keyword when the lowercased keyword occurs inside the
/// lowercased name.
pub open spec fn keyword_matches(name: Seq<char>, keyword: Seq<char>) -> bool {
    is_substring(lower_of(keyword), lower_of(name))
}

/// Relies on `str::to_lowercase`: the result depends on the characters of
/// `s` alone, and an empty string stays empty.
#[verifier::external_body]
fn lowercase(s: &str) -> (r: String)
    ensures
        r@ == lower_of(s@),
        s@.len() == 0 ==> r@.len() == 0,
{
    s.to_lowercase()
}

/// Relies on `str::contains`: true exactly when the pattern matches a
/// sub-slice of the string.
#[verifier::external_body]
fn str_contains(hay: &str, needle: &str) -> (r: bool)
    ensures
        r == is_substring(needle@, hay@),
{
    hay.contains(needle)
}

/// Case-insensitive substring test, the executable form of
/// [`keyword_matches`].
pub fn name_matches_keyword(name: &str, keyword: &str) -> (r: bool)
    ensures
        r == keyword_matches(name@, keyword@),
{
    let lowered_name = lowercase(name);
    let lowered_keyword = lowercase(keyword);
    str_contains(lowered_name.as_str(), lowered_keyword.as_str())
}

} // verus!
