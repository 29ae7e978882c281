//! The library's general laws: properties of the search that hold for every
//! pattern and every text, proved once and for all over the specification
//! functions that the executable functions' contracts are stated in.

use vstd::prelude::*;
use crate::fold::fold_char;
use crate::fold::fold_seq;
use crate::fold::norm_seq;
use crate::lines::lines_of;
use crate::literal::contains_seq;
use crate::literal::occurs_at;
use crate::rx::regex_compiles;
use crate::search::line_matches;
use crate::search::render_line;
use crate::search::search_spec;
use crate::search::selected_rendered;

verus! {

/// The empty pattern is contained in every sequence.
proof fn lemma_empty_needle(hay: Seq<char>)
    ensures
        contains_seq(hay, Seq::<char>::empty()),
{
    assert(hay.subrange(0, 0) =~= Seq::<char>::empty());
    assert(occurs_at(hay, Seq::<char>::empty(), 0));
}

/// A pattern that does not compile matches a line, case-sensitively, exactly
/// when the line contains it as a literal substring.
proof fn lemma_literal_line(pat: Seq<char>, line: Seq<char>)
    requires
        !regex_compiles(pat, false),
    ensures
        line_matches(pat, true, line) == contains_seq(line, pat),
{
    if pat.len() == 0 {
        assert(pat =~= Seq::<char>::empty());
        lemma_empty_needle(line);
    } else {
        assert(norm_seq(line, true) == line);
        assert(norm_seq(pat, true) == pat);
    }
}

proof fn lemma_literal_selected(pat: Seq<char>, ls: Seq<Seq<char>>)
    requires
        !regex_compiles(pat, false),
    ensures
        selected_rendered(pat, true, false, ls) == ls.filter(
            |l: Seq<char>| contains_seq(l, pat),
        ),
    decreases ls.len(),
{
    reveal(Seq::filter);
    if ls.len() > 0 {
        lemma_literal_selected(pat, ls.drop_last());
        lemma_literal_line(pat, ls.last());
    }
}

/// When the pattern is not valid regular-expression syntax under the
/// case-sensitive mode, a case-sensitive search without highlighting returns
/// exactly the lines of the text that contain the pattern as a literal
/// substring, in their order of appearance.
pub proof fn lemma_literal_fallback_exact(pat: Seq<char>, text: Seq<char>)
    requires
        !regex_compiles(pat, false),
    ensures
        search_spec(pat, text, true, false) == lines_of(text).filter(
            |l: Seq<char>| contains_seq(l, pat),
        ),
{
    lemma_literal_selected(pat, lines_of(text));
}

/// Case folding keeps every literal occurrence: a sequence that contains a
/// needle also contains, after folding, the folded needle, at the very same
/// position.
proof fn lemma_fold_keeps_occurrence(hay: Seq<char>, needle: Seq<char>, i: int)
    requires
        occurs_at(hay, needle, i),
    ensures
        occurs_at(fold_seq(hay), fold_seq(needle), i),
{
    assert(fold_seq(hay).subrange(i, i + needle.len()) =~= fold_seq(needle)) by {
        assert forall|j: int| 0 <= j < needle.len() implies fold_seq(hay)[i + j] == fold_seq(
            needle,
        )[j] by {
            assert(hay.subrange(i, i + needle.len())[j] == hay[i + j]);
            assert(fold_seq(hay)[i + j] == fold_char(hay[i + j]));
            assert(fold_seq(needle)[j] == fold_char(needle[j]));
        }
    }
}

/// Under the literal fallback, a line that matches case-sensitively also
/// matches case-insensitively.
proof fn lemma_sensitive_implies_insensitive(pat: Seq<char>, line: Seq<char>)
    requires
        !regex_compiles(pat, false),
        !regex_compiles(pat, true),
        line_matches(pat, true, line),
    ensures
        line_matches(pat, false, line),
{
    if pat.len() > 0 {
        assert(contains_seq(line, pat));
        let i = choose|i: int| occurs_at(line, pat, i);
        lemma_fold_keeps_occurrence(line, pat, i);
        assert(occurs_at(norm_seq(line, false), norm_seq(pat, false), i));
    }
}

proof fn lemma_insensitive_selected_count(pat: Seq<char>, ls: Seq<Seq<char>>)
    requires
        !regex_compiles(pat, false),
        !regex_compiles(pat, true),
    ensures
        selected_rendered(pat, true, false, ls).len() <= selected_rendered(
            pat,
            false,
            false,
            ls,
        ).len(),
    decreases ls.len(),
{
    if ls.len() > 0 {
        lemma_insensitive_selected_count(pat, ls.drop_last());
        if line_matches(pat, true, ls.last()) {
            lemma_sensitive_implies_insensitive(pat, ls.last());
        }
    }
}

/// Case-sensitivity, under the literal fallback: every line a case-sensitive
/// search finds, the case-insensitive search with the same pattern finds too,
/// so the case-insensitive search never returns fewer lines.
pub proof fn lemma_insensitive_superset(pat: Seq<char>, text: Seq<char>)
    requires
        !regex_compiles(pat, false),
        !regex_compiles(pat, true),
    ensures
        forall|line: Seq<char>|
            line_matches(pat, true, line) ==> #[trigger] line_matches(pat, false, line),
        search_spec(pat, text, true, false).len() <= search_spec(pat, text, false, false).len(),
{
    assert forall|line: Seq<char>|
        line_matches(pat, true, line) implies #[trigger] line_matches(pat, false, line) by {
        lemma_sensitive_implies_insensitive(pat, line);
    }
    lemma_insensitive_selected_count(pat, lines_of(text));
}

proof fn lemma_highlight_selected(
    pat: Seq<char>,
    case_sensitive: bool,
    ls: Seq<Seq<char>>,
)
    ensures
        selected_rendered(pat, case_sensitive, true, ls).len() == selected_rendered(
            pat,
            case_sensitive,
            false,
            ls,
        ).len(),
        forall|i: int|
            0 <= i < selected_rendered(pat, case_sensitive, false, ls).len()
                ==> #[trigger] selected_rendered(pat, case_sensitive, true, ls)[i] == render_line(
                pat,
                case_sensitive,
                true,
                selected_rendered(pat, case_sensitive, false, ls)[i],
            ),
    decreases ls.len(),
{
    if ls.len() > 0 {
        lemma_highlight_selected(pat, case_sensitive, ls.drop_last());
    }
}

/// Highlighting changes only the rendering, never the selection: with the
/// same pattern, text and case mode, the highlighted search returns exactly
/// as many lines as the plain search, the i-th of them being the highlighted
/// rendering of the i-th plain result line. In particular, a line the plain
/// search does not return contributes nothing to the highlighted result.
pub proof fn lemma_highlight_preserves_selection(
    pat: Seq<char>,
    text: Seq<char>,
    case_sensitive: bool,
)
    ensures
        search_spec(pat, text, case_sensitive, true).len() == search_spec(
            pat,
            text,
            case_sensitive,
            false,
        ).len(),
        forall|i: int|
            0 <= i < search_spec(pat, text, case_sensitive, false).len()
                ==> #[trigger] search_spec(pat, text, case_sensitive, true)[i] == render_line(
                pat,
                case_sensitive,
                true,
                search_spec(pat, text, case_sensitive, false)[i],
            ),
{
    lemma_highlight_selected(pat, case_sensitive, lines_of(text));
}

proof fn lemma_empty_selected(case_sensitive: bool, ls: Seq<Seq<char>>)
    ensures
        selected_rendered(Seq::<char>::empty(), case_sensitive, false, ls) == ls,
    decreases ls.len(),
{
    if ls.len() > 0 {
        lemma_empty_selected(case_sensitive, ls.drop_last());
        assert(selected_rendered(Seq::<char>::empty(), case_sensitive, false, ls)
            =~= ls.drop_last().push(ls.last()));
        assert(ls.drop_last().push(ls.last()) =~= ls);
    }
}

/// The empty pattern matches everything: searching any text for the empty
/// pattern without highlighting returns every line of the text, unmodified
/// and in order.
pub proof fn lemma_empty_pattern_selects_all(text: Seq<char>, case_sensitive: bool)
    ensures
        search_spec(Seq::<char>::empty(), text, case_sensitive, false) == lines_of(text),
{
    lemma_empty_selected(case_sensitive, lines_of(text));
}

} // verus!

