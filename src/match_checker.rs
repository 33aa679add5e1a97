//! Scalar predicates used by every matcher: one over text, one over integers.

use vstd::prelude::*;

verus! {

/// `p` is a prefix of `s`.
pub open spec fn seq_has_prefix(s: Seq<char>, p: Seq<char>) -> bool {
    p.len() <= s.len() && s.subrange(0, p.len() as int) == p
}

/// `p` is a suffix of `s`.
pub open spec fn seq_has_suffix(s: Seq<char>, p: Seq<char>) -> bool {
    p.len() <= s.len() && s.subrange(s.len() - p.len(), s.len() as int) == p
}

/// `p` occurs in `s` as a contiguous run of characters.
pub open spec fn seq_has_infix(s: Seq<char>, p: Seq<char>) -> bool {
    exists|i: int| 0 <= i && i + p.len() <= s.len() && #[trigger] s.subrange(i, i + p.len()) == p
}

/// Case-sensitive predicate over a text.
#[derive(Clone, Debug, PartialEq)]
pub enum StringMatcher {
    Equals(String),
    Contains(String),
    StartsWith(String),
    EndsWith(String),
    Any,
}

/// Predicate over an integer; both bounds of a range are inclusive.
#[derive(Clone, Copy, Debug, PartialEq, Eq, Structural)]
pub enum NumberMatcher {
    Val(i64),
    Range(i64, i64),
    Any,
}

impl StringMatcher {
    pub open spec fn spec_matches(&self, candidate: Seq<char>) -> bool {
        match self {
            StringMatcher::Equals(s) => candidate == s@,
            StringMatcher::Contains(s) => seq_has_infix(candidate, s@),
            StringMatcher::StartsWith(s) => seq_has_prefix(candidate, s@),
            StringMatcher::EndsWith(s) => seq_has_suffix(candidate, s@),
            StringMatcher::Any => true,
        }
    }

    pub fn matches(&self, candidate: &str) -> (r: bool)
        ensures
            r == self.spec_matches(candidate@),
    {
        match self {
            StringMatcher::Equals(s) => {
                same_text(candidate, s.as_str())
            },
            StringMatcher::Contains(s) => text_contains(candidate, s.as_str()),
            StringMatcher::StartsWith(s) => {
                let n = candidate.unicode_len();
                let m = s.as_str().unicode_len();
                m <= n && text_matches_at(candidate, n, s.as_str(), m, 0)
            },
            StringMatcher::EndsWith(s) => {
                let n = candidate.unicode_len();
                let m = s.as_str().unicode_len();
                m <= n && text_matches_at(candidate, n, s.as_str(), m, n - m)
            },
            StringMatcher::Any => true,
        }
    }
}

/// Whether two texts are equal, character by character.
pub fn same_text(a: &str, b: &str) -> (r: bool)
    ensures
        r == (a@ == b@),
{
    let n = a.unicode_len();
    let m = b.unicode_len();
    if n != m {
        return false;
    }
    proof {
        assert(a@.subrange(0, n as int) =~= a@);
    }
    text_matches_at(a, n, b, m, 0)
}

/// Whether `p` stands in `s` starting at character `start`.
fn text_matches_at(s: &str, n: usize, p: &str, m: usize, start: usize) -> (r: bool)
    requires
        n == s@.len(),
        m == p@.len(),
        start + m <= n,
    ensures
        r == (s@.subrange(start as int, start + m) == p@),
{
    let mut i: usize = 0;
    while i < m
        invariant
            n == s@.len(),
            m == p@.len(),
            start + m <= n,
            i <= m,
            s@.subrange(start as int, start + i) == p@.subrange(0, i as int),
        decreases m - i,
    {
        if s.get_char(start + i) != p.get_char(i) {
            assert(s@.subrange(start as int, start + m)[i as int] != p@[i as int]);
            return false;
        }
        assert(s@.subrange(start as int, start + i + 1) =~= p@.subrange(0, i + 1));
        i = i + 1;
    }
    assert(p@.subrange(0, m as int) =~= p@);
    true
}

/// Whether `p` occurs anywhere in `s`.
fn text_contains(s: &str, p: &str) -> (r: bool)
    ensures
        r == seq_has_infix(s@, p@),
{
    let n = s.unicode_len();
    let m = p.unicode_len();
    if m > n {
        return false;
    }
    let mut start: usize = 0;
    loop
        invariant
            n == s@.len(),
            m == p@.len(),
            m <= n,
            start <= n - m,
            forall|j: int| 0 <= j < start ==> #[trigger] s@.subrange(j, j + p@.len()) != p@,
        decreases n - m - start,
    {
        if text_matches_at(s, n, p, m, start) {
            return true;
        }
        if start == n - m {
            assert forall|j: int| 0 <= j && j + p@.len() <= s@.len() implies
                #[trigger] s@.subrange(j, j + p@.len()) != p@ by {
                assert(j <= start);
            }
            return false;
        }
        start = start + 1;
    }
}

impl NumberMatcher {
    pub open spec fn spec_matches(&self, candidate: int) -> bool {
        match self {
            NumberMatcher::Val(v) => candidate == *v as int,
            NumberMatcher::Range(lo, hi) => *lo as int <= candidate <= *hi as int,
            NumberMatcher::Any => true,
        }
    }

    pub fn matches(&self, candidate: i64) -> (r: bool)
        ensures
            r == self.spec_matches(candidate as int),
    {
        match self {
            NumberMatcher::Val(v) => candidate == *v,
            NumberMatcher::Range(lo, hi) => *lo <= candidate && candidate <= *hi,
            NumberMatcher::Any => true,
        }
    }
}

} // verus!
