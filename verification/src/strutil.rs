//! Character-sequence specifications for the string operations the transform
//! uses, together with the trusted wrappers that carry them out.
use vstd::prelude::*;

verus! {

/// True when `needle` occurs as a contiguous run inside `hay`.
pub open spec fn has_substring(hay: Seq<char>, needle: Seq<char>) -> bool {
    exists|i: int|
        0 <= i && i + needle.len() <= hay.len() && #[trigger] hay.subrange(i, i + needle.len())
            == needle
}

/// Leftmost, non-overlapping replacement of every occurrence of `from` by
/// `to`: scan left to right, and wherever `from` starts, emit `to` and resume
/// after the matched run.
pub open spec fn replace_chars(s: Seq<char>, from: Seq<char>, to: Seq<char>) -> Seq<char>
    decreases s.len(),
{
    if from.len() == 0 || s.len() < from.len() {
        s
    } else if s.subrange(0, from.len() as int) == from {
        to + replace_chars(s.subrange(from.len() as int, s.len() as int), from, to)
    } else {
        seq![s[0]] + replace_chars(s.subrange(1, s.len() as int), from, to)
    }
}

/// Name for what `str::to_lowercase` returns: it depends on the characters
/// alone.
pub uninterp spec fn lower_of(s: Seq<char>) -> Seq<char>;

/// Relies on `str::to_lowercase`: the result is a function of the characters
/// alone.
#[verifier::external_body]
pub(crate) fn to_lower(s: &str) -> (r: String)
    ensures
        r@ == lower_of(s@),
{
    s.to_lowercase()
}

/// Relies on `str::contains`: true exactly when the pattern occurs as a
/// substring of the slice.
#[verifier::external_body]
pub(crate) fn contains_sub(hay: &str, needle: &str) -> (r: bool)
    ensures
        r == has_substring(hay@, needle@),
{
    hay.contains(needle)
}

/// Relies on `str::replace`: replaces the leftmost, non-overlapping matches
/// of the pattern with the replacement.
#[verifier::external_body]
pub(crate) fn replace_str(s: &str, from: &str, to: &str) -> (r: String)
    requires
        from@.len() > 0,
    ensures
        r@ == replace_chars(s@, from@, to@),
{
    s.replace(from, to)
}

} // verus!
