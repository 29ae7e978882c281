//! Case folding: the normalization applied to both sides of a literal
//! comparison when matching case-insensitively.

use vstd::prelude::*;
use vstd::string::StrSliceExecFns;

verus! {

/// One character folded to lower case: the letters 'A' through 'Z' map to
/// their lower-case counterparts, every other character is unchanged.
pub open spec fn fold_char(c: char) -> char {
    if 'A' <= c && c <= 'Z' {
        ((c as u8) + 32) as u8 as char
    } else {
        c
    }
}

/// A character sequence folded to lower case, character by character.
/// Folding preserves the length and position of every character.
pub open spec fn fold_seq(s: Seq<char>) -> Seq<char> {
    s.map_values(|c: char| fold_char(c))
}

/// The sequence as it takes part in a literal comparison: unchanged when the
/// search is case-sensitive, folded to lower case when it is not.
pub open spec fn norm_seq(s: Seq<char>, case_sensitive: bool) -> Seq<char> {
    if case_sensitive {
        s
    } else {
        fold_seq(s)
    }
}

/// Executable counterpart of [`fold_char`].
pub fn fold_char_exec(c: char) -> (r: char)
    ensures
        r == fold_char(c),
{
    if 'A' <= c && c <= 'Z' {
        ((c as u8) + 32) as char
    } else {
        c
    }
}

/// The characters of a string slice, in order, as a vector.
pub fn chars_of(s: &str) -> (r: Vec<char>)
    ensures
        r@ == s@,
{
    let n = s.unicode_len();
    let mut r: Vec<char> = Vec::new();
    let mut i: usize = 0;
    while i < n
        invariant
            n == s@.len(),
            i <= n,
            r@ == s@.take(i as int),
        decreases n - i,
    {
        r.push(s.get_char(i));
        i = i + 1;
        proof {
            assert(r@ =~= s@.take(i as int));
        }
    }
    proof {
        assert(s@.take(n as int) =~= s@);
    }
    r
}

/// Executable counterpart of [`norm_seq`] over a character vector.
pub fn norm_chars(v: &Vec<char>, case_sensitive: bool) -> (r: Vec<char>)
    ensures
        r@ == norm_seq(v@, case_sensitive),
{
    if case_sensitive {
        let mut r: Vec<char> = Vec::new();
        let mut i: usize = 0;
        while i < v.len()
            invariant
                i <= v@.len(),
                r@ == v@.take(i as int),
            decreases v@.len() - i,
        {
            r.push(v[i]);
            i = i + 1;
            proof {
                assert(r@ =~= v@.take(i as int));
            }
        }
        proof {
            assert(v@.take(v@.len() as int) =~= v@);
        }
        r
    } else {
        let mut r: Vec<char> = Vec::new();
        let mut i: usize = 0;
        while i < v.len()
            invariant
                i <= v@.len(),
                r@ == fold_seq(v@.take(i as int)),
            decreases v@.len() - i,
        {
            r.push(fold_char_exec(v[i]));
            i = i + 1;
            proof {
                assert(r@ =~= fold_seq(v@.take(i as int)));
            }
        }
        proof {
            assert(v@.take(v@.len() as int) =~= v@);
        }
        r
    }
}

} // verus!
