//! Match evaluation and the search entry point: the decision, per line,
//! between the regular-expression strategy and the literal fallback, and the
//! collection of the matching lines in order of appearance.

use vstd::prelude::*;
use vstd::string::StringExecFns;
use crate::fold::norm_chars;
use crate::fold::norm_seq;
use crate::fold::chars_of;
use crate::highlight::spans_wf;
use crate::highlight::wrap_spans;
use crate::highlight::wrap_spans_exec;
use crate::lines::lines_of;
use crate::lines::split_lines;
use crate::literal::contains_seq;
use crate::literal::first_index;
use crate::literal::occurs_at;
use crate::literal::find_first;
use crate::rx::regex_ci;
use crate::rx::regex_compiles;
use crate::rx::regex_match;
use crate::rx::regex_pattern;
use crate::rx::regex_spans;
use crate::rx::rx_build;
use crate::rx::rx_find_spans;
use crate::rx::rx_is_match;

verus! {

/// Whether one line matches the pattern. The empty pattern matches every
/// line. A non-empty pattern that compiles as a regular expression matches
/// wherever the compiled expression finds an occurrence; one that does not
/// compile matches iff the line contains the pattern as a literal substring,
/// both sides case-folded when the search is case-insensitive.
pub open spec fn line_matches(pat: Seq<char>, case_sensitive: bool, line: Seq<char>) -> bool {
    if pat.len() == 0 {
        true
    } else if regex_compiles(pat, !case_sensitive) {
        regex_match(pat, !case_sensitive, line)
    } else {
        contains_seq(norm_seq(line, case_sensitive), norm_seq(pat, case_sensitive))
    }
}

/// A matching line as it appears in the result: unchanged when highlighting
/// is off; under the regular-expression strategy with every match span
/// wrapped in the highlight markers; under the literal fallback with only the
/// first occurrence wrapped.
pub open spec fn render_line(
    pat: Seq<char>,
    case_sensitive: bool,
    highlight: bool,
    line: Seq<char>,
) -> Seq<char> {
    if !highlight {
        line
    } else if regex_compiles(pat, !case_sensitive) {
        wrap_spans(line, regex_spans(pat, !case_sensitive, line))
    } else {
        let fline = norm_seq(line, case_sensitive);
        let fpat = norm_seq(pat, case_sensitive);
        if contains_seq(fline, fpat) {
            let i = first_index(fline, fpat);
            wrap_spans(line, seq![(i as usize, (i + pat.len()) as usize)])
        } else {
            line
        }
    }
}

/// The matching lines of `ls`, in order, each rendered.
pub open spec fn selected_rendered(
    pat: Seq<char>,
    case_sensitive: bool,
    highlight: bool,
    ls: Seq<Seq<char>>,
) -> Seq<Seq<char>>
    decreases ls.len(),
{
    if ls.len() == 0 {
        seq![]
    } else {
        let rest = selected_rendered(pat, case_sensitive, highlight, ls.drop_last());
        if line_matches(pat, case_sensitive, ls.last()) {
            rest.push(render_line(pat, case_sensitive, highlight, ls.last()))
        } else {
            rest
        }
    }
}

/// Everything a search returns: the lines of `text` that match `pat`, in
/// order of appearance, rendered per the highlight flag.
pub open spec fn search_spec(
    pat: Seq<char>,
    text: Seq<char>,
    case_sensitive: bool,
    highlight: bool,
) -> Seq<Seq<char>> {
    selected_rendered(pat, case_sensitive, highlight, lines_of(text))
}

/// The matching strategy chosen once per search call: the raw pattern, the
/// case-sensitivity mode, and the compiled expression when the pattern is
/// valid regular-expression syntax.
pub struct Matcher {
    pattern: String,
    case_sensitive: bool,
    compiled: Option<regex::Regex>,
}

impl Matcher {
    /// The raw pattern this matcher searches for.
    pub closed spec fn spec_pattern(&self) -> Seq<char> {
        self.pattern@
    }

    /// Whether this matcher compares case-sensitively.
    pub closed spec fn spec_case_sensitive(&self) -> bool {
        self.case_sensitive
    }

    /// The matcher is as built: the compiled expression is present exactly
    /// when the pattern compiles, and was compiled from this very pattern
    /// under this very case mode.
    pub closed spec fn wf(&self) -> bool {
        &&& (self.compiled is Some <==> regex_compiles(self.pattern@, !self.case_sensitive))
        &&& (self.compiled is Some ==> regex_pattern(self.compiled->0) == self.pattern@
            && regex_ci(self.compiled->0) == !self.case_sensitive)
    }

    /// Chooses the matching strategy for one search call: the pattern is
    /// tried as a regular expression, and kept as a plain string for the
    /// literal fallback when it does not compile.
    pub fn new(pattern: &str, case_sensitive: bool) -> (m: Matcher)
        ensures
            m.wf(),
            m.spec_pattern() == pattern@,
            m.spec_case_sensitive() == case_sensitive,
    {
        let compiled = rx_build(pattern, !case_sensitive);
        Matcher { pattern: String::from_str(pattern), case_sensitive, compiled }
    }

    /// Whether `line` matches this pattern under this case mode.
    pub fn is_match(&self, line: &str) -> (r: bool)
        requires
            self.wf(),
        ensures
            r == line_matches(self.spec_pattern(), self.spec_case_sensitive(), line@),
    {
        match &self.compiled {
            Some(re) => {
                let r = rx_is_match(re, line);
                proof {
                    assert(*re == self.compiled->0);
                    assert(regex_pattern(*re) == self.pattern@);
                }
                r
            },
            None => {
                let lc = chars_of(line);
                let pc = chars_of(self.pattern.as_str());
                let fl = norm_chars(&lc, self.case_sensitive);
                let fp = norm_chars(&pc, self.case_sensitive);
                let found = find_first(&fl, &fp);
                proof {
                    assert(!regex_compiles(self.pattern@, !self.case_sensitive));
                    if fp@.len() == 0 {
                        assert(fl@.subrange(0, 0) =~= fp@);
                        assert(occurs_at(fl@, fp@, 0));
                    }
                    match found {
                        Some(i) => {
                            assert(occurs_at(fl@, fp@, i as int));
                            assert(contains_seq(fl@, fp@));
                        },
                        None => {
                            assert(!contains_seq(fl@, fp@));
                        },
                    }
                }
                found.is_some()
            },
        }
    }

    /// The line as it appears in the result, annotated when `highlight` asks
    /// for it. A line that does not match is returned unchanged.
    pub fn render(&self, line: &str, highlight: bool) -> (r: String)
        requires
            self.wf(),
        ensures
            r@ == render_line(
                self.spec_pattern(),
                self.spec_case_sensitive(),
                highlight,
                line@,
            ),
    {
        if !highlight {
            return String::from_str(line);
        }
        match &self.compiled {
            Some(re) => {
                let spans = rx_find_spans(re, line);
                wrap_spans_exec(line, &spans)
            },
            None => {
                let lc = chars_of(line);
                let pc = chars_of(self.pattern.as_str());
                let fl = norm_chars(&lc, self.case_sensitive);
                let fp = norm_chars(&pc, self.case_sensitive);
                match find_first(&fl, &fp) {
                    Some(i) => {
                        proof {
                            assert(contains_seq(fl@, fp@));
                            assert(fl@.len() == line@.len());
                            assert(fp@.len() == self.pattern@.len());
                        }
                        let hlen = fl.len();
                        let plen = fp.len();
                        proof {
                            assert(i + plen <= hlen);
                        }
                        let end = i + plen;
                        let mut spans: Vec<(usize, usize)> = Vec::new();
                        spans.push((i, end));
                        proof {
                            assert(spans@ =~= seq![(i, end)]);
                            assert(spans_wf(spans@, line@.len()));
                        }
                        wrap_spans_exec(line, &spans)
                    },
                    None => String::from_str(line),
                }
            },
        }
    }
}

/// Searches `text` for `pattern`, line by line, and returns the matching
/// lines in order of appearance. With `highlight` set, each matched span is
/// wrapped in the highlight markers: every span under the regular-expression
/// strategy, only the first occurrence under the literal fallback.
pub fn search_regex(pattern: &str, text: &str, case_sensitive: bool, highlight: bool) -> (r: Vec<
    String,
>)
    ensures
        r.deep_view() == search_spec(pattern@, text@, case_sensitive, highlight),
{
    let m = Matcher::new(pattern, case_sensitive);
    let ls = split_lines(text);
    let mut r: Vec<String> = Vec::new();
    let mut i: usize = 0;
    proof {
        assert(lines_of(text@).take(0) =~= Seq::<Seq<char>>::empty());
        assert(r.deep_view() =~= Seq::<Seq<char>>::empty());
    }
    while i < ls.len()
        invariant
            m.wf(),
            m.spec_pattern() == pattern@,
            m.spec_case_sensitive() == case_sensitive,
            ls.deep_view() == lines_of(text@),
            i <= ls@.len(),
            r.deep_view() == selected_rendered(
                pattern@,
                case_sensitive,
                highlight,
                lines_of(text@).take(i as int),
            ),
        decreases ls@.len() - i,
    {
        let ghost taken = lines_of(text@).take(i + 1);
        proof {
            assert(ls@.len() == lines_of(text@).len());
            assert(taken.drop_last() =~= lines_of(text@).take(i as int));
            assert(taken.last() == lines_of(text@)[i as int]);
            assert(ls@[i as int]@ == ls.deep_view()[i as int]);
        }
        let line = &ls[i];
        if m.is_match(line.as_str()) {
            let ghost r0 = r.deep_view();
            let rendered = m.render(line.as_str(), highlight);
            r.push(rendered);
            proof {
                assert(r.deep_view() =~= r0.push(
                    render_line(pattern@, case_sensitive, highlight, taken.last()),
                ));
            }
        }
        i = i + 1;
    }
    proof {
        assert(lines_of(text@).take(ls@.len() as int) =~= lines_of(text@));
    }
    r
}

} // verus!
