//! Verified text helpers: whitespace trimming, prefix tests, substring
//! search and character-wise string equality, used by URL validation and
//! by the classification of store failures.

use vstd::prelude::*;

verus! {

/// A whitespace character, following the Unicode `White_Space` list that
/// `str::trim` documents.
pub open spec fn is_space(c: char) -> bool {
    ('\u{0009}' <= c && c <= '\u{000D}') || c == ' ' || c == '\u{0085}' || c == '\u{00A0}' || c
        == '\u{1680}' || ('\u{2000}' <= c && c <= '\u{200A}') || c == '\u{2028}' || c == '\u{2029}'
        || c == '\u{202F}' || c == '\u{205F}' || c == '\u{3000}'
}

/// Executable test for [`is_space`].
pub fn is_space_char(c: char) -> (r: bool)
    ensures
        r == is_space(c),
{
    ('\u{0009}' <= c && c <= '\u{000D}') || c == ' ' || c == '\u{0085}' || c == '\u{00A0}' || c
        == '\u{1680}' || ('\u{2000}' <= c && c <= '\u{200A}') || c == '\u{2028}' || c == '\u{2029}'
        || c == '\u{202F}' || c == '\u{205F}' || c == '\u{3000}'
}

/// The number of whitespace characters at the front of `s`.
pub open spec fn leading_spaces(s: Seq<char>) -> nat
    decreases s.len(),
{
    if s.len() > 0 && is_space(s[0]) {
        (1 + leading_spaces(s.subrange(1, s.len() as int))) as nat
    } else {
        0
    }
}

/// The number of whitespace characters at the back of `s`.
pub open spec fn trailing_spaces(s: Seq<char>) -> nat
    decreases s.len(),
{
    if s.len() > 0 && is_space(s[s.len() - 1]) {
        (1 + trailing_spaces(s.subrange(0, s.len() - 1))) as nat
    } else {
        0
    }
}

/// `s` with leading and trailing whitespace removed.
pub open spec fn trim_spec(s: Seq<char>) -> Seq<char> {
    if leading_spaces(s) == s.len() {
        Seq::empty()
    } else {
        s.subrange(leading_spaces(s) as int, s.len() - trailing_spaces(s))
    }
}

proof fn lemma_leading_spaces_bound(s: Seq<char>)
    ensures
        leading_spaces(s) <= s.len(),
        forall|j: int| 0 <= j < leading_spaces(s) ==> is_space(s[j]),
        leading_spaces(s) < s.len() ==> !is_space(s[leading_spaces(s) as int]),
    decreases s.len(),
{
    if s.len() > 0 && is_space(s[0]) {
        let t = s.subrange(1, s.len() as int);
        lemma_leading_spaces_bound(t);
        assert forall|j: int| 0 <= j < leading_spaces(s) implies is_space(s[j]) by {
            if j >= 1 {
                assert(is_space(t[j - 1]));
            }
        }
    }
}

proof fn lemma_trailing_spaces_bound(s: Seq<char>)
    ensures
        trailing_spaces(s) <= s.len(),
        forall|j: int| s.len() - trailing_spaces(s) <= j < s.len() ==> is_space(s[j]),
        trailing_spaces(s) < s.len() ==> !is_space(s[s.len() - trailing_spaces(s) - 1]),
    decreases s.len(),
{
    if s.len() > 0 && is_space(s[s.len() - 1]) {
        let t = s.subrange(0, s.len() - 1);
        lemma_trailing_spaces_bound(t);
        assert(forall|j: int| 0 <= j < t.len() ==> t[j] == s[j]);
    }
}

/// A prefix of whitespace that ends at the string's end or at a
/// non-whitespace character has exactly the length `leading_spaces` gives.
proof fn lemma_leading_spaces_is(s: Seq<char>, k: int)
    requires
        0 <= k <= s.len(),
        forall|j: int| 0 <= j < k ==> is_space(s[j]),
        k == s.len() || !is_space(s[k]),
    ensures
        leading_spaces(s) == k,
    decreases s.len(),
{
    if s.len() > 0 && is_space(s[0]) {
        let t = s.subrange(1, s.len() as int);
        assert(forall|j: int| 0 <= j < t.len() ==> t[j] == s[j + 1]);
        lemma_leading_spaces_is(t, k - 1);
    }
}

/// The mirror statement for a suffix of whitespace.
proof fn lemma_trailing_spaces_is(s: Seq<char>, k: int)
    requires
        0 <= k <= s.len(),
        forall|j: int| s.len() - k <= j < s.len() ==> is_space(s[j]),
        k == s.len() || !is_space(s[s.len() - k - 1]),
    ensures
        trailing_spaces(s) == k,
    decreases s.len(),
{
    if s.len() > 0 && is_space(s[s.len() - 1]) {
        let t = s.subrange(0, s.len() - 1);
        assert(forall|j: int| 0 <= j < t.len() ==> t[j] == s[j]);
        lemma_trailing_spaces_is(t, k - 1);
    }
}

/// Remove leading and trailing whitespace.
pub fn trim(s: &str) -> (r: String)
    ensures
        r@ == trim_spec(s@),
{
    let n = s.unicode_len();
    let mut lo: usize = 0;
    while lo < n && is_space_char(s.get_char(lo))
        invariant
            n == s@.len(),
            0 <= lo <= n,
            forall|j: int| 0 <= j < lo ==> is_space(s@[j]),
        decreases n - lo,
    {
        lo = lo + 1;
    }
    proof {
        lemma_leading_spaces_is(s@, lo as int);
    }
    if lo == n {
        let r = String::new();
        assert(r@ =~= trim_spec(s@));
        return r;
    }
    let mut hi: usize = n;
    while hi > lo && is_space_char(s.get_char(hi - 1))
        invariant
            n == s@.len(),
            lo <= hi <= n,
            lo < n,
            !is_space(s@[lo as int]),
            forall|j: int| hi <= j < n ==> is_space(s@[j]),
        decreases hi,
    {
        hi = hi - 1;
    }
    proof {
        lemma_trailing_spaces_is(s@, n - hi);
    }
    let piece = s.substring_char(lo, hi);
    let r = String::from_str(piece);
    assert(r@ =~= trim_spec(s@));
    r
}

/// `n` occurs in `h` starting at position `i`.
pub open spec fn occurs_at(h: Seq<char>, n: Seq<char>, i: int) -> bool {
    0 <= i && i + n.len() <= h.len() && h.subrange(i, i + n.len()) == n
}

/// `n` occurs somewhere in `h`.
pub open spec fn contains_seq(h: Seq<char>, n: Seq<char>) -> bool {
    exists|i: int| occurs_at(h, n, i)
}

/// Substring search: does `needle` occur in `haystack`?
pub fn contains_str(haystack: &str, needle: &str) -> (r: bool)
    ensures
        r == contains_seq(haystack@, needle@),
{
    let hl = haystack.unicode_len();
    let nl = needle.unicode_len();
    if nl > hl {
        assert(forall|i: int| !occurs_at(haystack@, needle@, i));
        return false;
    }
    let mut i: usize = 0;
    while i <= hl - nl
        invariant
            hl == haystack@.len(),
            nl == needle@.len(),
            nl <= hl,
            0 <= i <= hl - nl + 1,
            forall|k: int| 0 <= k < i ==> !occurs_at(haystack@, needle@, k),
        decreases hl + 1 - i,
    {
        let mut j: usize = 0;
        while j < nl && haystack.get_char(i + j) == needle.get_char(j)
            invariant
                hl == haystack@.len(),
                nl == needle@.len(),
                nl <= hl,
                0 <= i <= hl - nl,
                0 <= j <= nl,
                forall|k: int| 0 <= k < j ==> haystack@[i + k] == needle@[k],
            decreases nl - j,
        {
            j = j + 1;
        }
        if j == nl {
            assert(haystack@.subrange(i as int, i + nl) =~= needle@);
            assert(occurs_at(haystack@, needle@, i as int));
            return true;
        }
        assert(!occurs_at(haystack@, needle@, i as int)) by {
            if occurs_at(haystack@, needle@, i as int) {
                assert(haystack@.subrange(i as int, i + nl)[j as int] == needle@[j as int]);
            }
        }
        i = i + 1;
    }
    assert(forall|k: int| !occurs_at(haystack@, needle@, k)) by {
        assert(forall|k: int| k > hl - nl ==> !occurs_at(haystack@, needle@, k));
    }
    false
}

/// Character-wise string equality.
pub fn str_eq(a: &str, b: &str) -> (r: bool)
    ensures
        r == (a@ == b@),
{
    let al = a.unicode_len();
    let bl = b.unicode_len();
    if al != bl {
        return false;
    }
    let mut i: usize = 0;
    while i < al
        invariant
            al == a@.len(),
            al == b@.len(),
            0 <= i <= al,
            forall|j: int| 0 <= j < i ==> a@[j] == b@[j],
        decreases al - i,
    {
        if a.get_char(i) != b.get_char(i) {
            return false;
        }
        i = i + 1;
    }
    assert(a@ =~= b@);
    true
}

} // verus!
