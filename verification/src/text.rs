//! Verified string utilities: equality, ASCII-case-insensitive
//! equality, and substring search. The retry classifier and the
//! extension allowlist are built on these.

use vstd::prelude::*;
use vstd::string::StrSliceExecFns;

verus! {

/// Character-for-character equality of two string slices.
pub fn str_eq(a: &str, b: &str) -> (r: bool)
    ensures
        r == (a@ == b@),
{
    let x = a.to_owned();
    let y = b.to_owned();
    x == y
}

/// Equality of two owned strings, stated over their views.
pub fn string_eq(a: &String, b: &String) -> (r: bool)
    ensures
        r == (a@ == b@),
{
    *a == *b
}

/// The code point of a character, with an ASCII capital letter folded
/// to its small counterpart.
pub open spec fn spec_lower_code(c: char) -> int {
    let u = c as int;
    if 65 <= u <= 90 {
        u + 32
    } else {
        u
    }
}

/// Equality of two strings up to ASCII letter case.
pub open spec fn spec_eq_ignore_ascii_case(a: Seq<char>, b: Seq<char>) -> bool {
    a.len() == b.len() && (forall|i: int|
        0 <= i < a.len() ==> spec_lower_code(a[i]) == spec_lower_code(b[i]))
}

/// Compares two string slices ignoring ASCII letter case.
pub fn eq_ignore_ascii_case(a: &str, b: &str) -> (r: bool)
    ensures
        r == spec_eq_ignore_ascii_case(a@, b@),
{
    let la = a.unicode_len();
    let lb = b.unicode_len();
    if la != lb {
        return false;
    }
    let mut i: usize = 0;
    while i < la
        invariant
            la == a@.len(),
            lb == b@.len(),
            la == lb,
            0 <= i <= la,
            forall|j: int| 0 <= j < i ==> spec_lower_code(a@[j]) == spec_lower_code(b@[j]),
        decreases la - i,
    {
        let ca = a.get_char(i) as u32;
        let cb = b.get_char(i) as u32;
        let fa = if 65 <= ca && ca <= 90 {
            ca + 32
        } else {
            ca
        };
        let fb = if 65 <= cb && cb <= 90 {
            cb + 32
        } else {
            cb
        };
        if fa != fb {
            assert(spec_lower_code(a@[i as int]) != spec_lower_code(b@[i as int]));
            return false;
        }
        i = i + 1;
    }
    true
}

/// The needle occurs in the haystack starting at position `i`.
pub open spec fn spec_match_at(h: Seq<char>, n: Seq<char>, i: int) -> bool {
    &&& 0 <= i
    &&& i + n.len() <= h.len()
    &&& forall|j: int| 0 <= j < n.len() ==> h[i + j] == n[j]
}

/// The needle occurs somewhere in the haystack.
pub open spec fn spec_contains_sub(h: Seq<char>, n: Seq<char>) -> bool {
    exists|i: int| spec_match_at(h, n, i)
}

fn match_at(h: &str, n: &str, i: usize, hl: usize, nl: usize) -> (r: bool)
    requires
        hl == h@.len(),
        nl == n@.len(),
        i + nl <= hl,
    ensures
        r == spec_match_at(h@, n@, i as int),
{
    let mut j: usize = 0;
    while j < nl
        invariant
            hl == h@.len(),
            nl == n@.len(),
            i + nl <= hl,
            0 <= j <= nl,
            forall|k: int| 0 <= k < j ==> h@[i + k] == n@[k],
        decreases nl - j,
    {
        if h.get_char(i + j) != n.get_char(j) {
            return false;
        }
        j = j + 1;
    }
    true
}

/// Substring search: whether the needle occurs anywhere in the haystack.
pub fn contains_sub(h: &str, n: &str) -> (r: bool)
    ensures
        r == spec_contains_sub(h@, n@),
{
    let hl = h.unicode_len();
    let nl = n.unicode_len();
    if nl > hl {
        assert(forall|i: int| spec_match_at(h@, n@, i) ==> i + nl <= hl);
        return false;
    }
    if nl == 0 {
        assert(spec_match_at(h@, n@, 0));
        return true;
    }
    let mut i: usize = 0;
    while i <= hl - nl
        invariant
            hl == h@.len(),
            nl == n@.len(),
            1 <= nl <= hl,
            0 <= i <= hl - nl + 1,
            forall|k: int| 0 <= k < i ==> !spec_match_at(h@, n@, k),
        decreases hl - i,
    {
        if match_at(h, n, i, hl, nl) {
            return true;
        }
        i = i + 1;
    }
    assert(forall|k: int| spec_match_at(h@, n@, k) ==> 0 <= k < i);
    false
}

} // verus!
