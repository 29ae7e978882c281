//! Line splitting: the input text decomposed into an ordered sequence of
//! lines. A line break is a line feed, and a carriage return immediately
//! before a line feed is not part of the line's content. A trailing line
//! break does not produce a spurious empty final line, and a lone carriage
//! return is not a line break.

use vstd::prelude::*;
use vstd::string::StrSliceExecFns;
use vstd::string::StringExecFns;

verus! {

/// A line's content with the carriage return of a "\r\n" break removed.
pub open spec fn strip_cr(l: Seq<char>) -> Seq<char> {
    if l.len() > 0 && l.last() == '\r' {
        l.drop_last()
    } else {
        l
    }
}

/// The lines of `text` when the characters of `cur` have already been read as
/// the beginning of the current line.
pub open spec fn lines_acc(text: Seq<char>, cur: Seq<char>) -> Seq<Seq<char>>
    decreases text.len(),
{
    if text.len() == 0 {
        if cur.len() == 0 {
            seq![]
        } else {
            seq![cur]
        }
    } else if text[0] == '\n' {
        seq![strip_cr(cur)] + lines_acc(text.skip(1), seq![])
    } else {
        lines_acc(text.skip(1), cur.push(text[0]))
    }
}

/// The ordered sequence of lines of `text`.
pub open spec fn lines_of(text: Seq<char>) -> Seq<Seq<char>> {
    lines_acc(text, seq![])
}

/// Splits `text` into its lines.
pub fn split_lines(text: &str) -> (r: Vec<String>)
    ensures
        r.deep_view() == lines_of(text@),
{
    let n = text.unicode_len();
    let mut r: Vec<String> = Vec::new();
    let mut start: usize = 0;
    let mut i: usize = 0;
    proof {
        assert(text@.skip(0) =~= text@);
        assert(text@.subrange(0, 0) =~= Seq::<char>::empty());
        assert(r.deep_view() =~= Seq::<Seq<char>>::empty());
        assert(r.deep_view() + lines_acc(text@, Seq::<char>::empty()) =~= lines_acc(
            text@,
            Seq::<char>::empty(),
        ));
    }
    while i < n
        invariant
            n == text@.len(),
            start <= i <= n,
            lines_of(text@) == r.deep_view() + lines_acc(
                text@.skip(i as int),
                text@.subrange(start as int, i as int),
            ),
        decreases n - i,
    {
        let ghost rest = text@.skip(i as int);
        let ghost cur = text@.subrange(start as int, i as int);
        let c = text.get_char(i);
        proof {
            assert(rest[0] == text@[i as int]);
        }
        if c == '\n' {
            let line = if i > start && text.get_char(i - 1) == '\r' {
                proof {
                    assert(cur.len() > 0 && cur.last() == '\r');
                    assert(text@.subrange(start as int, i - 1) =~= cur.drop_last());
                }
                text.substring_char(start, i - 1)
            } else {
                proof {
                    assert(cur.len() > 0 ==> cur.last() == text@[i - 1]);
                }
                text.substring_char(start, i)
            };
            let ghost old_r = r.deep_view();
            r.push(String::from_str(line));
            proof {
                assert(line@ == strip_cr(cur));
                assert(r.deep_view() =~= old_r.push(strip_cr(cur)));
                assert(rest.skip(1) =~= text@.skip(i + 1));
                assert(lines_acc(rest, cur) == seq![strip_cr(cur)] + lines_acc(
                    text@.skip(i + 1),
                    seq![],
                ));
                assert(text@.subrange(i + 1, i + 1) =~= Seq::<char>::empty());
                assert(old_r + lines_acc(rest, cur) =~= old_r.push(strip_cr(cur)) + lines_acc(
                    text@.skip(i + 1),
                    text@.subrange(i + 1, i + 1),
                ));
            }
            i = i + 1;
            start = i;
        } else {
            proof {
                assert(rest.skip(1) =~= text@.skip(i + 1));
                assert(cur.push(text@[i as int]) =~= text@.subrange(start as int, i + 1));
                assert(lines_acc(rest, cur) == lines_acc(
                    text@.skip(i + 1),
                    text@.subrange(start as int, i + 1),
                ));
            }
            i = i + 1;
        }
    }
    proof {
        assert(text@.skip(n as int) =~= Seq::<char>::empty());
    }
    if start < n {
        let line = text.substring_char(start, n);
        let ghost old_r = r.deep_view();
        r.push(String::from_str(line));
        proof {
            assert(r.deep_view() =~= old_r.push(text@.subrange(start as int, n as int)));
            assert(lines_of(text@) =~= r.deep_view());
        }
    } else {
        proof {
            assert(text@.subrange(start as int, n as int) =~= Seq::<char>::empty());
            assert(lines_of(text@) =~= r.deep_view());
        }
    }
    r
}

proof fn lemma_lines_acc_trailing(text: Seq<char>, cur: Seq<char>)
    requires
        text.len() > 0,
        text.last() != '\n',
    ensures
        lines_acc(text.push('\n'), cur).len() == lines_acc(text, cur).len(),
        text.last() != '\r' ==> lines_acc(text.push('\n'), cur) == lines_acc(text, cur),
    decreases text.len(),
{
    let ext = text.push('\n');
    assert(ext[0] == text[0]);
    if text.len() == 1 {
        let nl = seq!['\n'];
        let cur1 = cur.push(text[0]);
        assert(text[0] == text.last());
        assert(ext.skip(1) =~= nl);
        assert(text.skip(1) =~= Seq::<char>::empty());
        assert(lines_acc(text, cur) == lines_acc(text.skip(1), cur1));
        assert(lines_acc(Seq::<char>::empty(), cur1) == seq![cur1]);
        assert(lines_acc(text, cur) == seq![cur1]);
        assert(nl[0] == '\n');
        assert(lines_acc(ext, cur) == lines_acc(ext.skip(1), cur1));
        assert(nl.skip(1) =~= Seq::<char>::empty());
        assert(lines_acc(nl, cur1) == seq![strip_cr(cur1)] + lines_acc(
            nl.skip(1),
            Seq::<char>::empty(),
        ));
        assert(lines_acc(Seq::<char>::empty(), Seq::<char>::empty()) =~= Seq::<Seq<char>>::empty());
        assert(lines_acc(ext, cur) =~= seq![strip_cr(cur1)]);
        assert(cur1.last() == text.last());
        if text.last() != '\r' {
            assert(strip_cr(cur1) == cur1);
        }
    } else {
        assert(ext.skip(1) =~= text.skip(1).push('\n'));
        assert(text.skip(1).last() == text.last());
        if text[0] == '\n' {
            lemma_lines_acc_trailing(text.skip(1), seq![]);
        } else {
            lemma_lines_acc_trailing(text.skip(1), cur.push(text[0]));
        }
    }
}

/// A single trailing line break adds no line: when `text` is non-empty and
/// does not end in a line break, `text` followed by a final line feed has
/// exactly as many lines as `text` itself, and (unless `text` ends in a
/// carriage return, which the final break would swallow) the very same ones.
pub proof fn lemma_trailing_newline(text: Seq<char>)
    requires
        text.len() > 0,
        text.last() != '\n',
    ensures
        lines_of(text.push('\n')).len() == lines_of(text).len(),
        text.last() != '\r' ==> lines_of(text.push('\n')) == lines_of(text),
{
    lemma_lines_acc_trailing(text, seq![]);
}

} // verus!
