//! Character-level string helpers used by the router and the path resolver.
use vstd::prelude::*;

verus! {

/// `n` occurs in `h` starting at character index `i`.
pub open spec fn occurs_at(h: Seq<char>, n: Seq<char>, i: int) -> bool {
    0 <= i && i + n.len() <= h.len() && h.subrange(i, i + n.len()) == n
}

/// `i` is the first index at which `n` occurs in `h`.
pub open spec fn is_first_occurrence(h: Seq<char>, n: Seq<char>, i: int) -> bool {
    occurs_at(h, n, i) && forall|j: int| occurs_at(h, n, j) ==> i <= j
}

/// `i` is the last index at which `n` occurs in `h`.
pub open spec fn is_last_occurrence(h: Seq<char>, n: Seq<char>, i: int) -> bool {
    occurs_at(h, n, i) && forall|j: int| occurs_at(h, n, j) ==> j <= i
}

/// `n` occurs somewhere in `h`.
pub open spec fn contains(h: Seq<char>, n: Seq<char>) -> bool {
    exists|i: int| occurs_at(h, n, i)
}

pub open spec fn ends_with(h: Seq<char>, n: Seq<char>) -> bool {
    n.len() <= h.len() && h.subrange(h.len() - n.len(), h.len() as int) == n
}

pub open spec fn trim_leading_slashes(s: Seq<char>) -> Seq<char>
    decreases s.len(),
{
    if s.len() > 0 && s[0] == '/' {
        trim_leading_slashes(s.drop_first())
    } else {
        s
    }
}

pub open spec fn trim_trailing_slashes(s: Seq<char>) -> Seq<char>
    decreases s.len(),
{
    if s.len() > 0 && s.last() == '/' {
        trim_trailing_slashes(s.drop_last())
    } else {
        s
    }
}

/// A repository identifier in normal form: no leading slash and exactly one
/// trailing slash.
pub open spec fn normalized_dir(s: Seq<char>) -> Seq<char> {
    trim_trailing_slashes(trim_leading_slashes(s)) + seq!['/']
}

/// Whether `n` occurs in `h` at character index `i`.
pub fn matches_at(h: &str, n: &str, i: usize) -> (r: bool)
    requires
        i + n@.len() <= h@.len(),
    ensures
        r == occurs_at(h@, n@, i as int),
{
    let hl = h.unicode_len();
    let nl = n.unicode_len();
    let mut j: usize = 0;
    while j < nl
        invariant
            nl == n@.len(),
            hl == h@.len(),
            i + nl <= hl,
            j <= nl,
            forall|t: int| 0 <= t < j ==> h@[i + t] == n@[t],
        decreases nl - j,
    {
        if h.get_char(i + j) != n.get_char(j) {
            assert(h@.subrange(i as int, i + nl)[j as int] != n@[j as int]);
            return false;
        }
        j = j + 1;
    }
    assert(h@.subrange(i as int, i + nl) =~= n@);
    true
}

/// Character index of the first occurrence of `n` in `h`.
pub fn find_str(h: &str, n: &str) -> (r: Option<usize>)
    ensures
        match r {
            Some(i) => is_first_occurrence(h@, n@, i as int),
            None => forall|j: int| !occurs_at(h@, n@, j),
        },
{
    let hl = h.unicode_len();
    let nl = n.unicode_len();
    if nl > hl {
        return None;
    }
    let last = hl - nl;
    let mut i: usize = 0;
    loop
        invariant
            hl == h@.len(),
            nl == n@.len(),
            last == hl - nl,
            i <= last,
            forall|j: int| j < i ==> !occurs_at(h@, n@, j),
        decreases last - i,
    {
        if matches_at(h, n, i) {
            return Some(i);
        }
        if i == last {
            return None;
        }
        i = i + 1;
    }
}

/// Character index of the last occurrence of `n` in `h`.
pub fn rfind_str(h: &str, n: &str) -> (r: Option<usize>)
    ensures
        match r {
            Some(i) => is_last_occurrence(h@, n@, i as int),
            None => forall|j: int| !occurs_at(h@, n@, j),
        },
{
    let hl = h.unicode_len();
    let nl = n.unicode_len();
    if nl > hl {
        return None;
    }
    let mut k: usize = hl - nl;
    loop
        invariant
            hl == h@.len(),
            nl == n@.len(),
            k <= hl - nl,
            forall|j: int| j > k ==> !occurs_at(h@, n@, j),
        decreases k,
    {
        if matches_at(h, n, k) {
            return Some(k);
        }
        if k == 0 {
            return None;
        }
        k = k - 1;
    }
}

/// Whether `n` occurs in `h`.
pub fn str_contains(h: &str, n: &str) -> (r: bool)
    ensures
        r == contains(h@, n@),
{
    match find_str(h, n) {
        Some(i) => true,
        None => false,
    }
}

/// Whether `a` and `b` hold the same characters.
pub fn str_eq(a: &str, b: &str) -> (r: bool)
    ensures
        r == (a@ == b@),
{
    if a.unicode_len() != b.unicode_len() {
        return false;
    }
    let r = matches_at(a, b, 0);
    assert(a@.subrange(0, b@.len() as int) =~= a@);
    r
}

/// Whether `haystack` ends with `needle`.
pub fn str_ends_with(haystack: &str, needle: &str) -> (r: bool)
    ensures
        r == ends_with(haystack@, needle@),
{
    let hl = haystack.unicode_len();
    let nl = needle.unicode_len();
    if nl > hl {
        return false;
    }
    matches_at(haystack, needle, hl - nl)
}

/// The part of `haystack` before the last occurrence of `needle`, or all of
/// `haystack` when `needle` does not occur in it.
pub fn str_before<'a>(haystack: &'a str, needle: &str) -> (r: &'a str)
    ensures
        (forall|j: int| !occurs_at(haystack@, needle@, j)) ==> r@ == haystack@,
        forall|k: int|
            is_last_occurrence(haystack@, needle@, k) ==> r@ == haystack@.subrange(0, k),
{
    match rfind_str(haystack, needle) {
        Some(pos) => haystack.substring_char(0, pos),
        None => haystack,
    }
}

/// `s` without its leading slashes.
pub fn trim_start_slashes(s: &str) -> (r: &str)
    ensures
        r@ == trim_leading_slashes(s@),
{
    let len = s.unicode_len();
    let mut a: usize = 0;
    assert(s@.subrange(0, len as int) =~= s@);
    while a < len && s.get_char(a) == '/'
        invariant
            len == s@.len(),
            a <= len,
            trim_leading_slashes(s@) == trim_leading_slashes(s@.subrange(a as int, len as int)),
        decreases len - a,
    {
        assert(s@.subrange(a as int, len as int).drop_first() =~= s@.subrange(a + 1, len as int));
        a = a + 1;
    }
    s.substring_char(a, len)
}

/// `s` without its trailing slashes.
pub fn trim_end_slashes(s: &str) -> (r: &str)
    ensures
        r@ == trim_trailing_slashes(s@),
{
    let len = s.unicode_len();
    let mut b: usize = len;
    assert(s@.subrange(0, len as int) =~= s@);
    while b > 0 && s.get_char(b - 1) == '/'
        invariant
            len == s@.len(),
            b <= len,
            trim_trailing_slashes(s@) == trim_trailing_slashes(s@.subrange(0, b as int)),
        decreases b,
    {
        assert(s@.subrange(0, b as int).drop_last() =~= s@.subrange(0, b - 1));
        b = b - 1;
    }
    s.substring_char(0, b)
}

/// Normalizes a repository identifier: strips every leading and trailing slash,
/// then appends exactly one slash.
pub fn slash_process(s: &str) -> (r: String)
    ensures
        r@ == normalized_dir(s@),
{
    let mut r = String::from_str(trim_end_slashes(trim_start_slashes(s)));
    r.append("/");
    proof {
        reveal_strlit("/");
        assert(r@ =~= normalized_dir(s@));
    }
    r
}

} // verus!
