//! Highlight annotation: a matching line rewritten so that matched spans are
//! wrapped in a fixed pair of start and end markers.

use vstd::prelude::*;
use vstd::string::StrSliceExecFns;
use vstd::string::StringExecFns;

verus! {

/// The marker put immediately before a matched span (reverse video on).
pub open spec fn hl_start() -> Seq<char> {
    seq!['\x1b', '[', '7', 'm']
}

/// The marker put immediately after a matched span (attributes reset).
pub open spec fn hl_end() -> Seq<char> {
    seq!['\x1b', '[', '0', 'm']
}

/// Every span is a half-open range within a line of length `len`, and the
/// spans come in increasing order, pairwise disjoint.
pub open spec fn spans_wf(spans: Seq<(usize, usize)>, len: nat) -> bool {
    &&& forall|k: int| 0 <= k < spans.len() ==> (#[trigger] spans[k]).0 <= spans[k].1 <= len
    &&& forall|k: int| 0 <= k && k + 1 < spans.len() ==> (#[trigger] spans[k]).1 <= spans[k + 1].0
}

/// The tail of `line` from position `from` on, with every given span wrapped
/// in the highlight markers.
pub open spec fn wrap_from(line: Seq<char>, spans: Seq<(usize, usize)>, from: int) -> Seq<char>
    decreases spans.len(),
{
    if spans.len() == 0 {
        line.skip(from)
    } else {
        line.subrange(from, spans[0].0 as int) + hl_start() + line.subrange(
            spans[0].0 as int,
            spans[0].1 as int,
        ) + hl_end() + wrap_from(line, spans.drop_first(), spans[0].1 as int)
    }
}

/// `line` with every given span wrapped in the highlight markers.
pub open spec fn wrap_spans(line: Seq<char>, spans: Seq<(usize, usize)>) -> Seq<char> {
    wrap_from(line, spans, 0)
}

fn hl_start_str() -> (r: &'static str)
    ensures
        r@ == hl_start(),
{
    let s = "\x1b[7m";
    proof {
        reveal_strlit("\x1b[7m");
        assert(s@ =~= hl_start());
    }
    s
}

fn hl_end_str() -> (r: &'static str)
    ensures
        r@ == hl_end(),
{
    let s = "\x1b[0m";
    proof {
        reveal_strlit("\x1b[0m");
        assert(s@ =~= hl_end());
    }
    s
}

/// Builds the annotated copy of `line` for the given spans.
pub fn wrap_spans_exec(line: &str, spans: &Vec<(usize, usize)>) -> (r: String)
    requires
        spans_wf(spans@, line@.len()),
    ensures
        r@ == wrap_spans(line@, spans@),
{
    let len = line.unicode_len();
    let mut r = String::new();
    let mut prev: usize = 0;
    let mut k: usize = 0;
    proof {
        assert(spans@.skip(0) =~= spans@);
        assert(r@ + wrap_from(line@, spans@, 0) =~= wrap_from(line@, spans@, 0));
    }
    while k < spans.len()
        invariant
            spans_wf(spans@, line@.len()),
            len == line@.len(),
            k <= spans@.len(),
            prev <= line@.len(),
            k < spans@.len() ==> prev <= spans@[k as int].0,
            wrap_spans(line@, spans@) == r@ + wrap_from(line@, spans@.skip(k as int), prev as int),
        decreases spans@.len() - k,
    {
        let (s, e) = spans[k];
        let ghost r0 = r@;
        let ghost rest = spans@.skip(k as int);
        r.append(line.substring_char(prev, s));
        r.append(hl_start_str());
        r.append(line.substring_char(s, e));
        r.append(hl_end_str());
        proof {
            assert(rest[0] == spans@[k as int]);
            assert(rest.drop_first() =~= spans@.skip(k + 1));
            assert(wrap_from(line@, rest, prev as int) == line@.subrange(prev as int, s as int)
                + hl_start() + line@.subrange(s as int, e as int) + hl_end() + wrap_from(
                line@,
                spans@.skip(k + 1),
                e as int,
            ));
            assert(r@ + wrap_from(line@, spans@.skip(k + 1), e as int) =~= r0 + wrap_from(
                line@,
                rest,
                prev as int,
            ));
        }
        prev = e;
        k = k + 1;
    }
    let ghost r1 = r@;
    r.append(line.substring_char(prev, len));
    proof {
        assert(spans@.skip(spans@.len() as int) =~= Seq::<(usize, usize)>::empty());
        assert(wrap_from(line@, spans@.skip(spans@.len() as int), prev as int) == line@.skip(
            prev as int,
        ));
        assert(line@.subrange(prev as int, len as int) =~= line@.skip(prev as int));
        assert(r@ =~= r1 + wrap_from(line@, spans@.skip(spans@.len() as int), prev as int));
    }
    r
}

} // verus!
