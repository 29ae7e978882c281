//! Literal substring containment: the fallback matching strategy used when
//! the pattern does not compile as a regular expression.

use vstd::prelude::*;

verus! {

/// `needle` occurs in `hay` as a contiguous block starting at position `i`.
pub open spec fn occurs_at(hay: Seq<char>, needle: Seq<char>, i: int) -> bool {
    &&& 0 <= i
    &&& i + needle.len() <= hay.len()
    &&& hay.subrange(i, i + needle.len()) == needle
}

/// `hay` contains `needle` as a contiguous substring. The empty needle is
/// contained in every sequence, including the empty one.
pub open spec fn contains_seq(hay: Seq<char>, needle: Seq<char>) -> bool {
    exists|i: int| occurs_at(hay, needle, i)
}

/// The position of the first occurrence of `needle` in `hay` at or after `i`,
/// or `hay.len()` when no occurrence starts at or after `i`.
pub open spec fn first_index_from(hay: Seq<char>, needle: Seq<char>, i: int) -> int
    decreases hay.len() - i,
{
    if occurs_at(hay, needle, i) || i >= hay.len() {
        i
    } else {
        first_index_from(hay, needle, i + 1)
    }
}

/// The position of the first occurrence of `needle` in `hay`.
pub open spec fn first_index(hay: Seq<char>, needle: Seq<char>) -> int {
    first_index_from(hay, needle, 0)
}

/// When an occurrence exists at `i` and none exists before it, `first_index`
/// is exactly `i`.
pub proof fn lemma_first_index_is(hay: Seq<char>, needle: Seq<char>, i: int)
    requires
        occurs_at(hay, needle, i),
        forall|j: int| 0 <= j < i ==> !occurs_at(hay, needle, j),
    ensures
        first_index(hay, needle) == i,
{
    lemma_first_index_from_is(hay, needle, 0, i);
}

proof fn lemma_first_index_from_is(hay: Seq<char>, needle: Seq<char>, j: int, i: int)
    requires
        0 <= j <= i,
        occurs_at(hay, needle, i),
        forall|m: int| j <= m < i ==> !occurs_at(hay, needle, m),
    ensures
        first_index_from(hay, needle, j) == i,
    decreases i - j,
{
    if j == i {
    } else {
        assert(j + needle.len() <= i + needle.len() <= hay.len());
        lemma_first_index_from_is(hay, needle, j + 1, i);
    }
}

/// Whether `needle` occurs in `hay` starting exactly at `i`.
fn matches_at(hay: &Vec<char>, needle: &Vec<char>, i: usize) -> (r: bool)
    requires
        i + needle@.len() <= hay@.len(),
    ensures
        r <==> occurs_at(hay@, needle@, i as int),
{
    let hlen = hay.len();
    let mut k: usize = 0;
    while k < needle.len()
        invariant
            i + needle@.len() <= hay@.len(),
            hlen == hay@.len(),
            k <= needle@.len(),
            forall|m: int| 0 <= m < k ==> hay@[i + m] == needle@[m],
        decreases needle@.len() - k,
    {
        if hay[i + k] != needle[k] {
            proof {
                let sub = hay@.subrange(i as int, i + needle@.len());
                assert(sub[k as int] == hay@[i + k]);
            }
            return false;
        }
        k = k + 1;
    }
    proof {
        assert(hay@.subrange(i as int, i + needle@.len()) =~= needle@);
    }
    true
}

/// The position of the first occurrence of `needle` in `hay`, or `None` when
/// `hay` does not contain `needle`.
pub fn find_first(hay: &Vec<char>, needle: &Vec<char>) -> (r: Option<usize>)
    ensures
        match r {
            Some(i) => {
                &&& occurs_at(hay@, needle@, i as int)
                &&& i as int == first_index(hay@, needle@)
                &&& i + needle@.len() <= hay@.len()
            },
            None => !contains_seq(hay@, needle@),
        },
{
    if needle.len() > hay.len() {
        return None;
    }
    if needle.len() == 0 {
        proof {
            assert(hay@.subrange(0, 0) =~= needle@);
            lemma_first_index_is(hay@, needle@, 0);
        }
        return Some(0);
    }
    let last_start = hay.len() - needle.len();
    let mut i: usize = 0;
    while i <= last_start
        invariant
            1 <= needle@.len() <= hay@.len(),
            last_start == hay@.len() - needle@.len(),
            hay@.len() <= usize::MAX,
            i <= last_start + 1,
            forall|j: int| 0 <= j < i ==> !occurs_at(hay@, needle@, j),
        decreases last_start + 1 - i,
    {
        if matches_at(hay, needle, i) {
            proof {
                lemma_first_index_is(hay@, needle@, i as int);
            }
            return Some(i);
        }
        i = i + 1;
    }
    proof {
        assert forall|j: int| 0 <= j implies !occurs_at(hay@, needle@, j) by {
            if occurs_at(hay@, needle@, j) {
                assert(j + needle@.len() <= hay@.len());
                assert(j < i);
            }
        }
    }
    None
}

} // verus!
