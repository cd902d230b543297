//! Verified substring search and equality over string slices, used to scan
//! execution log lines for instruction markers.

use vstd::prelude::*;
use vstd::string::StrSliceExecFns;

verus! {

/// `needle` occurs in `hay` starting at position `i`.
pub open spec fn matches_at(hay: Seq<char>, needle: Seq<char>, i: int) -> bool {
    0 <= i && i + needle.len() <= hay.len() && hay.subrange(i, i + needle.len()) == needle
}

/// `needle` occurs somewhere in `hay`.
pub open spec fn contains_seq(hay: Seq<char>, needle: Seq<char>) -> bool {
    exists|i: int| matches_at(hay, needle, i)
}

/// Character-for-character check of `needle` against `hay` at position `start`.
fn matches_at_exec(hay: &str, needle: &str, start: usize, hay_len: usize, needle_len: usize) -> (r: bool)
    requires
        hay_len == hay@.len(),
        needle_len == needle@.len(),
        start + needle_len <= hay_len,
    ensures
        r == matches_at(hay@, needle@, start as int),
{
    let mut j: usize = 0;
    while j < needle_len
        invariant
            hay_len == hay@.len(),
            needle_len == needle@.len(),
            start + needle_len <= hay_len,
            0 <= j <= needle_len,
            forall|k: int| 0 <= k < j ==> hay@[start + k] == needle@[k],
        decreases needle_len - j,
    {
        if hay.get_char(start + j) != needle.get_char(j) {
            proof {
                let sub = hay@.subrange(start as int, start as int + needle@.len() as int);
                assert(sub[j as int] == hay@[start + j]);
            }
            return false;
        }
        j = j + 1;
    }
    proof {
        assert(hay@.subrange(start as int, start as int + needle@.len() as int) =~= needle@);
    }
    true
}

/// Substring search: does `needle` occur anywhere in `hay`?
pub fn str_contains(hay: &str, needle: &str) -> (r: bool)
    ensures
        r == contains_seq(hay@, needle@),
{
    let hay_len = hay.unicode_len();
    let needle_len = needle.unicode_len();
    if needle_len > hay_len {
        proof {
            assert(forall|i: int| !matches_at(hay@, needle@, i));
        }
        return false;
    }
    if needle_len == 0 {
        proof {
            assert(hay@.subrange(0, 0) =~= needle@);
            assert(matches_at(hay@, needle@, 0));
        }
        return true;
    }
    let mut i: usize = 0;
    while i <= hay_len - needle_len
        invariant
            hay_len == hay@.len(),
            needle_len == needle@.len(),
            1 <= needle_len <= hay_len,
            0 <= i <= hay_len - needle_len + 1,
            forall|k: int| 0 <= k < i ==> !matches_at(hay@, needle@, k),
        decreases hay_len - needle_len + 1 - i,
    {
        if matches_at_exec(hay, needle, i, hay_len, needle_len) {
            proof {
                assert(matches_at(hay@, needle@, i as int));
            }
            return true;
        }
        i = i + 1;
    }
    proof {
        assert forall|k: int| !matches_at(hay@, needle@, k) by {
            if 0 <= k < i as int {
                assert(!matches_at(hay@, needle@, k));
            }
        }
    }
    false
}

/// Character-for-character equality of two string slices.
pub fn str_eq(a: &str, b: &str) -> (r: bool)
    ensures
        r == (a@ == b@),
{
    let a_len = a.unicode_len();
    let b_len = b.unicode_len();
    if a_len != b_len {
        return false;
    }
    let m = matches_at_exec(a, b, 0, a_len, b_len);
    proof {
        assert(a@.subrange(0, a@.len() as int) =~= a@);
    }
    m
}

} // verus!
