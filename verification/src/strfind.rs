//! Substring search over character sequences, with exact first-occurrence
//! contracts.  The diagnostic-output scanning of the launcher is built on
//! it.

use vstd::prelude::*;

verus! {

/// The needle occurs in the haystack starting at position `i`.
pub open spec fn match_at(hay: Seq<char>, needle: Seq<char>, i: int) -> bool {
    0 <= i && i + needle.len() <= hay.len() && hay.subrange(i, i + needle.len()) == needle
}

/// The needle occurs somewhere at or after `from`.
pub open spec fn occurs_from(hay: Seq<char>, needle: Seq<char>, from: int) -> bool {
    exists|i: int| i >= from && match_at(hay, needle, i)
}

fn check_match(hay: &str, needle: &str, needle_len: usize, i: usize) -> (r: bool)
    requires
        needle_len == needle@.len(),
        i + needle_len <= hay@.len(),
        hay@.len() <= usize::MAX,
    ensures
        r == match_at(hay@, needle@, i as int),
{
    let mut k: usize = 0;
    while k < needle_len
        invariant
            k <= needle_len,
            needle_len == needle@.len(),
            i + needle_len <= hay@.len(),
            hay@.len() <= usize::MAX,
            forall|j: int| 0 <= j < k ==> hay@[i + j] == needle@[j],
        decreases needle_len - k,
    {
        if hay.get_char(i + k) != needle.get_char(k) {
            proof {
                assert(hay@.subrange(i as int, i as int + needle@.len() as int)[k as int] == hay@[i
                    + k]);
            }
            return false;
        }
        k = k + 1;
    }
    proof {
        assert(hay@.subrange(i as int, i as int + needle@.len() as int) =~= needle@);
    }
    true
}

/// The first occurrence of the needle at or after `from`, if there is one.
pub fn find_from(hay: &str, needle: &str, from: usize) -> (r: Option<usize>)
    ensures
        match r {
            Some(i) => {
                &&& from <= i
                &&& match_at(hay@, needle@, i as int)
                &&& forall|j: int| from <= j < i ==> !match_at(hay@, needle@, j)
            },
            None => forall|j: int| j >= from ==> !match_at(hay@, needle@, j),
        },
{
    let hay_len = hay.unicode_len();
    let needle_len = needle.unicode_len();
    if needle_len > hay_len || from > hay_len - needle_len {
        proof {
            assert forall|j: int| j >= from implies !match_at(hay@, needle@, j) by {
                if match_at(hay@, needle@, j) {
                    assert(j + needle@.len() <= hay@.len());
                }
            }
        }
        return None;
    }
    if needle_len == 0 {
        proof {
            assert(hay@.subrange(from as int, from as int) =~= needle@);
        }
        return Some(from);
    }
    let mut i: usize = from;
    while i <= hay_len - needle_len
        invariant
            from <= i,
            i <= hay_len,
            0 < needle_len <= hay_len,
            hay_len == hay@.len(),
            needle_len == needle@.len(),
            forall|j: int| from <= j < i ==> !match_at(hay@, needle@, j),
        decreases hay_len - i,
    {
        if check_match(hay, needle, needle_len, i) {
            return Some(i);
        }
        i = i + 1;
    }
    proof {
        assert forall|j: int| j >= from implies !match_at(hay@, needle@, j) by {
            if match_at(hay@, needle@, j) {
                assert(j + needle@.len() <= hay@.len());
                assert(j < i);
            }
        }
    }
    None
}

/// Whether two strings hold the same characters.
pub fn str_eq(a: &str, b: &str) -> (r: bool)
    ensures
        r == (a@ == b@),
{
    let alen = a.unicode_len();
    let blen = b.unicode_len();
    if alen != blen {
        return false;
    }
    let mut k: usize = 0;
    while k < alen
        invariant
            k <= alen,
            alen == a@.len(),
            alen == b@.len(),
            forall|j: int| 0 <= j < k ==> a@[j] == b@[j],
        decreases alen - k,
    {
        if a.get_char(k) != b.get_char(k) {
            return false;
        }
        k = k + 1;
    }
    proof {
        assert(a@ =~= b@);
    }
    true
}

/// Whether the needle occurs anywhere in the haystack.
pub fn contains_substr(hay: &str, needle: &str) -> (r: bool)
    ensures
        r == occurs_from(hay@, needle@, 0),
{
    match find_from(hay, needle, 0) {
        Some(_) => true,
        None => false,
    }
}

} // verus!
