//! Character-level string operations shared by the storage core.
//!
//! Driver options and environment entries travel as `key=value` strings, and
//! the OCI environment merge uses a substring containment check, so the core
//! needs verified equality, substring search, and `=`-splitting over
//! `Seq<char>` views.

use vstd::prelude::*;

verus! {

/// The index of the first `'='` in `s`, or `s.len()` if there is none.
pub open spec fn eq_index(s: Seq<char>) -> int
    decreases s.len(),
{
    if s.len() == 0 {
        0
    } else if s[0] == '=' {
        0
    } else {
        1 + eq_index(s.subrange(1, s.len() as int))
    }
}

/// The key token of a `key=value` entry: everything before the first `'='`,
/// or the whole entry when it has no `'='`.
pub open spec fn key_of(s: Seq<char>) -> Seq<char> {
    s.subrange(0, eq_index(s))
}

/// The value of a `key=value` entry: everything after the first `'='`, or
/// nothing when the entry has no `'='`.
pub open spec fn value_of(s: Seq<char>) -> Option<Seq<char>> {
    if eq_index(s) < s.len() {
        Some(s.subrange(eq_index(s) + 1, s.len() as int))
    } else {
        None
    }
}

/// `needle` occurs in `hay` starting at position `i`.
pub open spec fn occurs_at(hay: Seq<char>, needle: Seq<char>, i: int) -> bool {
    0 <= i && i + needle.len() <= hay.len() && hay.subrange(i, i + needle.len()) == needle
}

/// `needle` occurs somewhere in `hay` as a contiguous substring.
pub open spec fn contains_seq(hay: Seq<char>, needle: Seq<char>) -> bool {
    exists|i: int| occurs_at(hay, needle, i)
}

pub proof fn lemma_eq_index_bounds(s: Seq<char>)
    ensures
        0 <= eq_index(s) <= s.len(),
        forall|j: int| 0 <= j < eq_index(s) ==> s[j] != '=',
        eq_index(s) < s.len() ==> s[eq_index(s)] == '=',
    decreases s.len(),
{
    if s.len() != 0 && s[0] != '=' {
        let t = s.subrange(1, s.len() as int);
        lemma_eq_index_bounds(t);
        assert(forall|j: int| 1 <= j < eq_index(s) ==> s[j] == t[j - 1]);
    }
}

/// A position that has no `'='` before it and an `'='` (or the end) at it is
/// exactly the first-`'='` index.
pub proof fn lemma_eq_index_is(s: Seq<char>, i: int)
    requires
        0 <= i <= s.len(),
        forall|j: int| 0 <= j < i ==> s[j] != '=',
        i == s.len() || s[i] == '=',
    ensures
        eq_index(s) == i,
    decreases s.len(),
{
    if s.len() != 0 && s[0] != '=' {
        let t = s.subrange(1, s.len() as int);
        assert(forall|j: int| 0 <= j < i - 1 ==> t[j] == s[j + 1]);
        lemma_eq_index_is(t, i - 1);
    }
}

/// The key token of an entry occurs in the entry itself (it is a prefix).
pub proof fn lemma_entry_contains_its_key(s: Seq<char>)
    ensures
        contains_seq(s, key_of(s)),
{
    lemma_eq_index_bounds(s);
    assert(occurs_at(s, key_of(s), 0));
}

/// Character-wise string equality, stated over the views.
pub fn str_eq(a: &str, b: &str) -> (r: bool)
    ensures
        r == (a@ == b@),
{
    let a_len: usize = a.unicode_len();
    let b_len: usize = b.unicode_len();
    if a_len != b_len {
        return false;
    }
    let mut i: usize = 0;
    while i < a_len
        invariant
            a_len == a@.len(),
            b_len == b@.len(),
            a_len == b_len,
            0 <= i <= a_len,
            forall|j: int| 0 <= j < i ==> a@[j] == b@[j],
        decreases a_len - i,
    {
        if a.get_char(i) != b.get_char(i) {
            return false;
        }
        i += 1;
    }
    proof {
        assert(a@ =~= b@);
    }
    true
}

/// Whether `needle` occurs in `hay` as a contiguous substring.
pub fn contains_sub(hay: &str, needle: &str) -> (r: bool)
    ensures
        r == contains_seq(hay@, needle@),
{
    let hay_len: usize = hay.unicode_len();
    let needle_len: usize = needle.unicode_len();
    if needle_len > hay_len {
        proof {
            assert forall|i: int| !occurs_at(hay@, needle@, i) by {}
        }
        return false;
    }
    let limit: usize = hay_len - needle_len;
    let mut i: usize = 0;
    loop
        invariant
            hay_len == hay@.len(),
            needle_len == needle@.len(),
            limit == hay_len - needle_len,
            0 <= i <= limit,
            forall|k: int| 0 <= k < i ==> !occurs_at(hay@, needle@, k),
        decreases limit - i,
    {
        if matches_at(hay, needle, i) {
            return true;
        }
        if i == limit {
            proof {
                assert forall|k: int| !occurs_at(hay@, needle@, k) by {
                    if 0 <= k && k + needle@.len() <= hay@.len() {
                        assert(0 <= k <= i);
                    }
                }
            }
            return false;
        }
        i += 1;
    }
}

/// Whether `needle` occurs in `hay` starting at position `at`.
fn matches_at(hay: &str, needle: &str, at: usize) -> (r: bool)
    requires
        at + needle@.len() <= hay@.len() <= usize::MAX,
    ensures
        r == occurs_at(hay@, needle@, at as int),
{
    let needle_len: usize = needle.unicode_len();
    let mut j: usize = 0;
    while j < needle_len
        invariant
            needle_len == needle@.len(),
            at + needle_len <= hay@.len() <= usize::MAX,
            0 <= j <= needle_len,
            forall|k: int| 0 <= k < j ==> hay@[at + k] == needle@[k],
        decreases needle_len - j,
    {
        if hay.get_char(at + j) != needle.get_char(j) {
            proof {
                assert(hay@.subrange(at as int, at + needle@.len())[j as int] != needle@[j as int]);
            }
            return false;
        }
        j += 1;
    }
    proof {
        assert(hay@.subrange(at as int, at + needle@.len()) =~= needle@);
    }
    true
}

/// The index of the first `'='` in `s`, or its length if there is none.
pub fn find_eq(s: &str) -> (i: usize)
    ensures
        i == eq_index(s@),
{
    let len: usize = s.unicode_len();
    let mut i: usize = 0;
    while i < len
        invariant
            len == s@.len(),
            0 <= i <= len,
            forall|j: int| 0 <= j < i ==> s@[j] != '=',
        decreases len - i,
    {
        if s.get_char(i) == '=' {
            proof {
                lemma_eq_index_is(s@, i as int);
            }
            return i;
        }
        i += 1;
    }
    proof {
        lemma_eq_index_is(s@, len as int);
    }
    len
}

/// Splits a `key=value` entry at its first `'='`: the key token and, when the
/// entry has an `'='` at all, the value after it.
pub fn split_key_value(s: &str) -> (r: (String, Option<String>))
    ensures
        r.0@ == key_of(s@),
        match r.1 {
            Some(v) => value_of(s@) matches Some(w) && v@ == w,
            None => value_of(s@) is None,
        },
{
    let len: usize = s.unicode_len();
    let i: usize = find_eq(s);
    proof {
        lemma_eq_index_bounds(s@);
    }
    let key = s.substring_char(0, i).to_owned();
    if i < len {
        let value = s.substring_char(i + 1, len).to_owned();
        (key, Some(value))
    } else {
        (key, None)
    }
}

} // verus!
