//! Verified text helpers: prefix tests, substring search, literal
//! replacement, ASCII case folding and whitespace trimming.

use crate::shared_strings::{is_whitespace_char, spec_is_whitespace};
use vstd::prelude::*;
use vstd::string::*;

verus! {

/// Whether `s` begins with `prefix`.
pub open spec fn spec_starts_with(s: Seq<char>, prefix: Seq<char>) -> bool {
    s.len() >= prefix.len() && s.subrange(0, prefix.len() as int) == prefix
}

/// Check whether `s` begins with `prefix`.
pub fn starts_with(s: &str, prefix: &str) -> (r: bool)
    ensures
        r == spec_starts_with(s@, prefix@),
{
    let n = s.unicode_len();
    let m = prefix.unicode_len();
    if m > n {
        proof {
            assert(!spec_starts_with(s@, prefix@));
        }
        return false;
    }
    let mut i: usize = 0;
    while i < m
        invariant
            i <= m <= n,
            n == s@.len(),
            m == prefix@.len(),
            forall|j: int| 0 <= j < i ==> s@[j] == prefix@[j],
        decreases m - i,
    {
        if s.get_char(i) != prefix.get_char(i) {
            proof {
                assert(s@.subrange(0, m as int)[i as int] != prefix@[i as int]);
            }
            return false;
        }
        i = i + 1;
    }
    proof {
        assert(s@.subrange(0, m as int) =~= prefix@);
    }
    true
}

/// Whether `needle` occurs in `s` at position `i`.
pub open spec fn spec_matches_at(s: Seq<char>, needle: Seq<char>, i: int) -> bool {
    0 <= i && i + needle.len() <= s.len() && s.subrange(i, i + needle.len()) == needle
}

/// Whether `needle` occurs anywhere in `s`.
pub open spec fn spec_contains(s: Seq<char>, needle: Seq<char>) -> bool {
    exists|i: int| spec_matches_at(s, needle, i)
}

/// Check whether `needle` occurs at position `i` of `s`.
pub fn starts_with_at(s: &str, needle: &str, i: usize) -> (r: bool)
    requires
        i <= s@.len(),
    ensures
        r == spec_matches_at(s@, needle@, i as int),
{
    let n = s.unicode_len();
    let m = needle.unicode_len();
    if m > n - i {
        return false;
    }
    let mut j: usize = 0;
    while j < m
        invariant
            j <= m,
            i + m <= n,
            n == s@.len(),
            m == needle@.len(),
            forall|t: int| 0 <= t < j ==> s@[i + t] == needle@[t],
        decreases m - j,
    {
        if s.get_char(i + j) != needle.get_char(j) {
            proof {
                assert(s@.subrange(i as int, i + m as int)[j as int] != needle@[j as int]);
            }
            return false;
        }
        j = j + 1;
    }
    proof {
        assert(s@.subrange(i as int, i + m as int) =~= needle@);
    }
    true
}

/// Check whether `needle` occurs anywhere in `s`.
pub fn contains_str(s: &str, needle: &str) -> (r: bool)
    ensures
        r == spec_contains(s@, needle@),
{
    let n = s.unicode_len();
    let m = needle.unicode_len();
    if m > n {
        return false;
    }
    if m == 0 {
        proof {
            assert(spec_matches_at(s@, needle@, 0)) by {
                assert(s@.subrange(0, 0) =~= needle@);
            }
        }
        return true;
    }
    let bound = n - m;
    let mut i: usize = 0;
    while i <= bound
        invariant
            i <= bound + 1,
            bound == n - m,
            1 <= m <= n,
            n == s@.len(),
            m == needle@.len(),
            forall|t: int| 0 <= t < i ==> !spec_matches_at(s@, needle@, t),
        decreases bound + 1 - i,
    {
        if starts_with_at(s, needle, i) {
            return true;
        }
        i = i + 1;
    }
    proof {
        if spec_contains(s@, needle@) {
            let w = choose|w: int| spec_matches_at(s@, needle@, w);
            assert(!spec_matches_at(s@, needle@, w));
        }
    }
    false
}

/// `s` with every occurrence of `pat` replaced by `rep`, scanning
/// left to right without re-scanning replacements.
pub open spec fn spec_replace_all(s: Seq<char>, pat: Seq<char>, rep: Seq<char>) -> Seq<char>
    decreases s.len(),
{
    if pat.len() == 0 || s.len() < pat.len() {
        s
    } else if spec_matches_at(s, pat, 0) {
        rep + spec_replace_all(s.subrange(pat.len() as int, s.len() as int), pat, rep)
    } else {
        seq![s.first()] + spec_replace_all(s.drop_first(), pat, rep)
    }
}

/// Replace every occurrence of `pat` in `s` with `rep`.
pub fn replace_all(s: &str, pat: &str, rep: &str) -> (r: String)
    ensures
        r@ == spec_replace_all(s@, pat@, rep@),
{
    let n = s.unicode_len();
    let m = pat.unicode_len();
    let mut out = String::new();
    if m == 0 {
        return String::from_str(s);
    }
    proof {
        assert(s@.subrange(0, n as int) =~= s@);
        assert(Seq::<char>::empty() + spec_replace_all(s@, pat@, rep@) =~= spec_replace_all(
            s@,
            pat@,
            rep@,
        ));
    }
    let mut i: usize = 0;
    while i < n
        invariant
            i <= n,
            n == s@.len(),
            m == pat@.len(),
            m > 0,
            out@ + spec_replace_all(s@.subrange(i as int, n as int), pat@, rep@)
                == spec_replace_all(s@, pat@, rep@),
        decreases n - i,
    {
        let ghost tail = s@.subrange(i as int, n as int);
        if starts_with_at(s, pat, i) {
            let ghost out0 = out@;
            out.append(rep);
            proof {
                assert(spec_matches_at(tail, pat@, 0)) by {
                    assert(tail.subrange(0, m as int) =~= s@.subrange(i as int, i + m as int));
                }
                let rest = s@.subrange((i + m) as int, n as int);
                assert(tail.subrange(m as int, tail.len() as int) =~= rest);
                crate::xmlwriter::lemma_shift(out0, rep@, spec_replace_all(rest, pat@, rep@));
            }
            i = i + m;
        } else {
            let ghost out0 = out@;
            crate::render::push_char(&mut out, s.get_char(i));
            proof {
                if m <= tail.len() {
                    assert(!spec_matches_at(tail, pat@, 0)) by {
                        if spec_matches_at(tail, pat@, 0) {
                            assert(s@.subrange(i as int, i + m as int) =~= tail.subrange(
                                0,
                                m as int,
                            ));
                        }
                    }
                }
                let rest = s@.subrange(i + 1 as int, n as int);
                assert(tail.first() == s@[i as int]);
                assert(tail.drop_first() =~= rest);
                assert(seq![tail.first()] =~= Seq::<char>::empty().push(s@[i as int]));
                crate::xmlwriter::lemma_shift(out0, seq![s@[i as int]], spec_replace_all(
                    rest,
                    pat@,
                    rep@,
                ));
            }
            i = i + 1;
        }
    }
    proof {
        assert(s@.subrange(n as int, n as int) =~= Seq::<char>::empty());
        crate::xmlwriter::lemma_append_empty(out@);
    }
    out
}

/// The Unicode lowercase form of a string; the result depends on the
/// characters alone.
pub uninterp spec fn spec_unicode_lower(s: Seq<char>) -> Seq<char>;

/// Relies on `str::to_lowercase`: the Unicode lowercase equivalent of
/// the string, a function of its characters alone; an empty string
/// stays empty.
#[verifier::external_body]
pub fn unicode_lower(s: &str) -> (r: String)
    ensures
        r@ == spec_unicode_lower(s@),
        s@.len() == 0 ==> r@.len() == 0,
{
    s.to_lowercase()
}

/// The leading whitespace length of `s`.
pub open spec fn spec_trim_start_len(s: Seq<char>) -> int
    decreases s.len(),
{
    if s.len() > 0 && spec_is_whitespace(s.first()) {
        1 + spec_trim_start_len(s.drop_first())
    } else {
        0
    }
}

/// The trailing whitespace length of `s`.
pub open spec fn spec_trim_end_len(s: Seq<char>) -> int
    decreases s.len(),
{
    if s.len() > 0 && spec_is_whitespace(s.last()) {
        1 + spec_trim_end_len(s.drop_last())
    } else {
        0
    }
}

/// `s` with leading and trailing whitespace removed.
pub open spec fn spec_trim(s: Seq<char>) -> Seq<char> {
    let a = spec_trim_start_len(s);
    let b = s.len() - spec_trim_end_len(s);
    if a <= b {
        s.subrange(a, b)
    } else {
        Seq::empty()
    }
}

proof fn lemma_trim_bounds(s: Seq<char>)
    ensures
        0 <= spec_trim_start_len(s) <= s.len(),
        0 <= spec_trim_end_len(s) <= s.len(),
    decreases s.len(),
{
    if s.len() > 0 {
        lemma_trim_bounds(s.drop_first());
        lemma_trim_bounds(s.drop_last());
    }
}

proof fn lemma_trim_start_step(s: Seq<char>, a: int)
    requires
        0 <= a < s.len(),
        forall|j: int| 0 <= j < a ==> spec_is_whitespace(s[j]),
        !spec_is_whitespace(s[a]),
    ensures
        spec_trim_start_len(s) == a,
    decreases a,
{
    if a == 0 {
    } else {
        assert(spec_is_whitespace(s.first()));
        assert(forall|j: int| 0 <= j < a - 1 ==> spec_is_whitespace(s.drop_first()[j]));
        assert(s.drop_first()[a - 1] == s[a]);
        lemma_trim_start_step(s.drop_first(), a - 1);
    }
}

proof fn lemma_trim_start_all(s: Seq<char>)
    requires
        forall|j: int| 0 <= j < s.len() ==> spec_is_whitespace(s[j]),
    ensures
        spec_trim_start_len(s) == s.len(),
    decreases s.len(),
{
    if s.len() > 0 {
        assert(forall|j: int| 0 <= j < s.len() - 1 ==> spec_is_whitespace(s.drop_first()[j]));
        lemma_trim_start_all(s.drop_first());
    }
}

proof fn lemma_trim_end_step(s: Seq<char>, b: int)
    requires
        0 <= b < s.len(),
        forall|j: int| b < j < s.len() ==> spec_is_whitespace(s[j]),
        !spec_is_whitespace(s[b]),
    ensures
        spec_trim_end_len(s) == s.len() - 1 - b,
    decreases s.len() - b,
{
    if b == s.len() - 1 {
    } else {
        assert(spec_is_whitespace(s.last()));
        assert(forall|j: int| b < j < s.len() - 1 ==> spec_is_whitespace(s.drop_last()[j]));
        assert(s.drop_last()[b] == s[b]);
        lemma_trim_end_step(s.drop_last(), b);
    }
}

/// Remove leading and trailing whitespace.
pub fn trim(s: &str) -> (r: String)
    ensures
        r@ == spec_trim(s@),
{
    let n = s.unicode_len();
    let mut a: usize = 0;
    while a < n && is_whitespace_char(s.get_char(a))
        invariant
            a <= n,
            n == s@.len(),
            forall|j: int| 0 <= j < a ==> spec_is_whitespace(s@[j]),
        decreases n - a,
    {
        a = a + 1;
    }
    if a == n {
        proof {
            lemma_trim_start_all(s@);
            lemma_trim_bounds(s@);
        }
        return String::new();
    }
    let mut b: usize = n - 1;
    while b > a && is_whitespace_char(s.get_char(b))
        invariant
            a <= b < n,
            n == s@.len(),
            forall|j: int| b < j < n ==> spec_is_whitespace(s@[j]),
        decreases b,
    {
        b = b - 1;
    }
    proof {
        lemma_trim_start_step(s@, a as int);
        assert(!spec_is_whitespace(s@[b as int]));
        lemma_trim_end_step(s@, b as int);
    }
    let r = String::from_str(s.substring_char(a, b + 1));
    proof {
        assert(r@ =~= spec_trim(s@));
    }
    r
}

} // verus!
