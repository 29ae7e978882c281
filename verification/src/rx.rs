//! The regular-expression boundary: the only place where the library calls
//! into the `regex` crate. Whether a pattern compiles, and where a compiled
//! expression matches, are named here as functions of the pattern, the
//! case-insensitivity flag and the line; the wrappers below state what each
//! call returns in terms of those names.

use vstd::prelude::*;

verus! {

#[verifier::external_type_specification]
#[verifier::external_body]
pub struct ExRegex(regex::Regex);

/// Whether `pat`, compiled with case-insensitivity `ci` under the `regex`
/// crate's default settings, is a valid regular expression.
pub uninterp spec fn regex_compiles(pat: Seq<char>, ci: bool) -> bool;

/// The pattern a compiled regular expression was built from.
pub uninterp spec fn regex_pattern(re: regex::Regex) -> Seq<char>;

/// The case-insensitivity flag a compiled regular expression was built with.
pub uninterp spec fn regex_ci(re: regex::Regex) -> bool;

/// Whether the regular expression `pat`, under case-insensitivity `ci`,
/// matches anywhere in `line` (an unanchored search).
pub uninterp spec fn regex_match(pat: Seq<char>, ci: bool, line: Seq<char>) -> bool;

/// The successive non-overlapping match spans of the regular expression
/// `pat`, under case-insensitivity `ci`, in `line`, in order, each a
/// half-open range of character positions.
pub uninterp spec fn regex_spans(pat: Seq<char>, ci: bool, line: Seq<char>) -> Seq<(usize, usize)>;

/// Relies on `regex::RegexBuilder`: `new(pattern).case_insensitive(ci).build()`
/// returns `Ok` exactly when `pattern` is valid regular-expression syntax
/// (within the builder's default limits), and what it returns is the
/// expression compiled from `pattern` with case folding iff `ci`. The empty
/// pattern is a valid regular expression.
#[verifier::external_body]
pub(crate) fn rx_build(pattern: &str, ci: bool) -> (r: Option<regex::Regex>)
    ensures
        r is Some <==> regex_compiles(pattern@, ci),
        pattern@.len() == 0 ==> r is Some,
        r is Some ==> regex_pattern(r->0) == pattern@ && regex_ci(r->0) == ci,
{
    regex::RegexBuilder::new(pattern).case_insensitive(ci).build().ok()
}

/// Relies on `regex::Regex::is_match`: true iff the expression matches
/// anywhere in `line`. The empty pattern matches in every line, since it
/// matches the empty string at the first position.
#[verifier::external_body]
pub(crate) fn rx_is_match(re: &regex::Regex, line: &str) -> (r: bool)
    ensures
        r == regex_match(regex_pattern(*re), regex_ci(*re), line@),
        regex_pattern(*re).len() == 0 ==> r,
{
    re.is_match(line)
}

/// Relies on `regex::Regex::find_iter`: it yields the successive
/// non-overlapping matches in `line`, in order, each a half-open byte range
/// of the haystack with start at most end. The body converts each byte
/// offset to the character position it falls on, so the spans returned here
/// are ranges of character positions.
#[verifier::external_body]
pub(crate) fn rx_find_spans(re: &regex::Regex, line: &str) -> (r: Vec<(usize, usize)>)
    ensures
        r@ == regex_spans(regex_pattern(*re), regex_ci(*re), line@),
        forall|k: int| 0 <= k < r@.len() ==> (#[trigger] r@[k]).0 <= r@[k].1 <= line@.len(),
        forall|k: int| 0 <= k && k + 1 < r@.len() ==> (#[trigger] r@[k]).1 <= r@[k + 1].0,
{
    re.find_iter(line)
        .map(|m| (line[..m.start()].chars().count(), line[..m.end()].chars().count()))
        .collect()
}

} // verus!
