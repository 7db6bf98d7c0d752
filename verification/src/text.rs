//! Verified string predicates over the character view of `&str`.
use vstd::prelude::*;

verus! {

broadcast use vstd::string::group_string_axioms;

/// `prefix` is a prefix of `s` (character-wise).
pub open spec fn seq_has_prefix(s: Seq<char>, prefix: Seq<char>) -> bool {
    prefix.len() <= s.len() && s.subrange(0, prefix.len() as int) == prefix
}

/// `needle` occurs in `s` as a contiguous run of characters starting at `i`.
pub open spec fn occurs_at(s: Seq<char>, needle: Seq<char>, i: int) -> bool {
    0 <= i && i + needle.len() <= s.len() && s.subrange(i, i + needle.len()) == needle
}

/// `needle` occurs somewhere in `s` (the empty sequence occurs in every `s`).
pub open spec fn seq_contains(s: Seq<char>, needle: Seq<char>) -> bool {
    exists|i: int| occurs_at(s, needle, i)
}

/// Whether the characters of `s` at positions `start..start + needle.len()` are `needle`.
fn matches_at(s: &str, s_len: usize, needle: &str, n_len: usize, start: usize) -> (r: bool)
    requires
        s_len == s@.len(),
        n_len == needle@.len(),
        start + n_len <= s_len,
    ensures
        r == (s@.subrange(start as int, start + n_len) == needle@),
{
    let mut j: usize = 0;
    while j < n_len
        invariant
            s_len == s@.len(),
            n_len == needle@.len(),
            start + n_len <= s_len,
            j <= n_len,
            forall|k: int| 0 <= k < j ==> s@[start + k] == needle@[k],
        decreases n_len - j,
    {
        if s.get_char(start + j) != needle.get_char(j) {
            assert(s@.subrange(start as int, start + n_len)[j as int] != needle@[j as int]);
            return false;
        }
        j = j + 1;
    }
    assert(s@.subrange(start as int, start + n_len) =~= needle@);
    true
}

/// Character-wise equality of two string slices.
pub fn str_eq(a: &str, b: &str) -> (r: bool)
    ensures
        r == (a@ == b@),
{
    let a_len: usize = a.unicode_len();
    let b_len: usize = b.unicode_len();
    if a_len != b_len {
        return false;
    }
    let r: bool = matches_at(a, a_len, b, b_len, 0);
    assert(a@.subrange(0, a_len as int) =~= a@);
    r
}

/// Whether `s` begins with `prefix`, as `str::starts_with` with a `&str` pattern.
pub fn starts_with(s: &str, prefix: &str) -> (r: bool)
    ensures
        r == seq_has_prefix(s@, prefix@),
{
    let s_len: usize = s.unicode_len();
    let p_len: usize = prefix.unicode_len();
    if p_len > s_len {
        return false;
    }
    matches_at(s, s_len, prefix, p_len, 0)
}

/// Whether `needle` occurs in `s`, as `str::contains` with a `&str` pattern.
pub fn contains(s: &str, needle: &str) -> (r: bool)
    ensures
        r == seq_contains(s@, needle@),
{
    let s_len: usize = s.unicode_len();
    let n_len: usize = needle.unicode_len();
    if n_len > s_len {
        assert forall|i: int| !occurs_at(s@, needle@, i) by {}
        return false;
    }
    let last: usize = s_len - n_len;
    let mut i: usize = 0;
    while i < last
        invariant
            s_len == s@.len(),
            n_len == needle@.len(),
            last == s_len - n_len,
            i <= last,
            forall|k: int| 0 <= k < i ==> !occurs_at(s@, needle@, k),
        decreases last - i,
    {
        if matches_at(s, s_len, needle, n_len, i) {
            assert(occurs_at(s@, needle@, i as int));
            return true;
        }
        i = i + 1;
    }
    if matches_at(s, s_len, needle, n_len, last) {
        assert(occurs_at(s@, needle@, last as int));
        return true;
    }
    assert forall|k: int| !occurs_at(s@, needle@, k) by {
        if 0 <= k < last {
        }
    }
    false
}

/// The code of `c` after ASCII case folding: `A`..=`Z` map to `a`..=`z`,
/// every other character keeps its code.
pub open spec fn ascii_fold(c: char) -> u32 {
    let x: u32 = c as u32;
    if 65 <= x && x <= 90 {
        (x + 32) as u32
    } else {
        x
    }
}

/// Every character of `s` is ASCII.
pub open spec fn seq_is_ascii(s: Seq<char>) -> bool {
    forall|i: int| 0 <= i < s.len() ==> (#[trigger] s[i] as u32) < 128
}

/// `s` with its ASCII capital letters replaced by the small ones.
pub open spec fn ascii_lowercase(s: Seq<char>) -> Seq<char> {
    Seq::new(s.len(), |i: int| ascii_fold(s[i]) as char)
}

/// `a` and `b` are equal up to ASCII case: same length, and position by
/// position the characters agree after ASCII case folding.
pub open spec fn seq_eq_ignore_ascii_case(a: Seq<char>, b: Seq<char>) -> bool {
    a.len() == b.len() && forall|i: int| 0 <= i < a.len() ==> ascii_fold(#[trigger] a[i]) == ascii_fold(b[i])
}

fn fold_char(c: char) -> (r: u32)
    ensures
        r == ascii_fold(c),
{
    let x: u32 = c as u32;
    if 65 <= x && x <= 90 {
        x + 32
    } else {
        x
    }
}

/// Equality up to ASCII case, as `str::eq_ignore_ascii_case`: non-ASCII
/// characters must match exactly, ASCII letters match regardless of case.
pub fn eq_ignore_ascii_case(a: &str, b: &str) -> (r: bool)
    ensures
        r == seq_eq_ignore_ascii_case(a@, b@),
{
    let a_len: usize = a.unicode_len();
    let b_len: usize = b.unicode_len();
    if a_len != b_len {
        return false;
    }
    let mut i: usize = 0;
    while i < a_len
        invariant
            a_len == a@.len(),
            b_len == b@.len(),
            a_len == b_len,
            i <= a_len,
            forall|k: int| 0 <= k < i ==> ascii_fold(#[trigger] a@[k]) == ascii_fold(b@[k]),
        decreases a_len - i,
    {
        if fold_char(a.get_char(i)) != fold_char(b.get_char(i)) {
            return false;
        }
        i = i + 1;
    }
    true
}

} // verus!
