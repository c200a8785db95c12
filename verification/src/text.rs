//! Verified helpers on character strings.

use vstd::prelude::*;
use vstd::string::*;

verus! {

/// `needle` occurs in `hay` as a contiguous run of characters.
pub open spec fn occurs_in(needle: Seq<char>, hay: Seq<char>) -> bool {
    exists|i: int| occurs_at(needle, hay, i)
}

/// `needle` occurs in `hay` starting at index `i`.
pub open spec fn occurs_at(needle: Seq<char>, hay: Seq<char>, i: int) -> bool {
    0 <= i && i + needle.len() <= hay.len() && hay.subrange(i, i + needle.len()) == needle
}

/// `s` without its first `n` characters.
pub open spec fn skip(s: Seq<char>, n: int) -> Seq<char> {
    s.subrange(n, s.len() as int)
}

/// `s` with every occurrence of `from` replaced by `to`, scanning from the
/// left and never looking again at what was already replaced. An empty
/// `from` replaces nothing.
pub open spec fn replace_all(s: Seq<char>, from: Seq<char>, to: Seq<char>) -> Seq<char>
    decreases s.len(),
{
    if from.len() == 0 || s.len() < from.len() {
        s
    } else if from.is_prefix_of(s) {
        to + replace_all(skip(s, from.len() as int), from, to)
    } else {
        seq![s[0]] + replace_all(skip(s, 1), from, to)
    }
}

/// `s` without its leading `/` characters.
pub open spec fn strip_slashes(s: Seq<char>) -> Seq<char>
    decreases s.len(),
{
    if s.len() > 0 && s[0] == '/' {
        strip_slashes(skip(s, 1))
    } else {
        s
    }
}

/// `s` with the prefix `p` removed for as long as it starts with it.
pub open spec fn trim_prefix_all(s: Seq<char>, p: Seq<char>) -> Seq<char>
    decreases s.len(),
{
    if p.len() > 0 && p.is_prefix_of(s) {
        trim_prefix_all(skip(s, p.len() as int), p)
    } else {
        s
    }
}

/// The index of the first `/` in `s` at or after `i`, or the length of `s`
/// where there is none.
pub open spec fn slash_from(s: Seq<char>, i: int) -> int
    decreases s.len() - i,
{
    if i < 0 || i >= s.len() {
        s.len() as int
    } else if s[i] == '/' {
        i
    } else {
        slash_from(s, i + 1)
    }
}

/// The number of a character, that of an ASCII capital letter replaced by
/// that of its small letter.
pub open spec fn fold_char(c: char) -> int {
    if 'A' <= c && c <= 'Z' {
        c as int + 32
    } else {
        c as int
    }
}

/// The two texts are equal but for the case of their ASCII letters.
pub open spec fn same_name(a: Seq<char>, b: Seq<char>) -> bool {
    a.len() == b.len() && forall|i: int|
        0 <= i < a.len() ==> fold_char(#[trigger] a[i]) == fold_char(b[i])
}

fn fold(c: char) -> (r: u32)
    ensures
        r == fold_char(c),
{
    let x: u32 = c as u32;
    if 65 <= x && x <= 90 {
        x + 32
    } else {
        x
    }
}

/// Tests whether two texts are equal but for the case of their ASCII
/// letters.
pub fn eq_ignore_case(a: &str, b: &str) -> (r: bool)
    ensures
        r == same_name(a@, b@),
{
    let n = a.unicode_len();
    if n != b.unicode_len() {
        return false;
    }
    let mut i: usize = 0;
    while i < n
        invariant
            i <= n,
            n == a@.len(),
            n == b@.len(),
            forall|j: int| 0 <= j < i ==> fold_char(#[trigger] a@[j]) == fold_char(b@[j]),
        decreases n - i,
    {
        if fold(a.get_char(i)) != fold(b.get_char(i)) {
            return false;
        }
        i += 1;
    }
    true
}

/// Up to the first `/` at or after `i` there is no `/`, and where that index
/// lies within the text, a `/` stands there.
pub proof fn lemma_slash_from(s: Seq<char>, i: int)
    requires
        0 <= i <= s.len(),
    ensures
        i <= slash_from(s, i) <= s.len(),
        forall|j: int| i <= j < slash_from(s, i) ==> s[j] != '/',
        slash_from(s, i) < s.len() ==> s[slash_from(s, i)] == '/',
    decreases s.len() - i,
{
    if i < s.len() && s[i] != '/' {
        lemma_slash_from(s, i + 1);
    }
}

/// Tests whether `s` at index `at` continues with `p`.
pub fn matches_at(s: &str, at: usize, p: &str) -> (r: bool)
    requires
        at <= s@.len(),
    ensures
        r == occurs_at(p@, s@, at as int),
{
    let n = s.unicode_len();
    let m = p.unicode_len();
    if m > n - at {
        return false;
    }
    let mut i: usize = 0;
    while i < m
        invariant
            i <= m,
            m <= n - at,
            at <= n,
            m == p@.len(),
            n == s@.len(),
            forall|j: int| 0 <= j < i ==> s@[at + j] == p@[j],
        decreases m - i,
    {
        if s.get_char(at + i) != p.get_char(i) {
            assert(s@.subrange(at as int, at + m)[i as int] != p@[i as int]);
            return false;
        }
        i += 1;
    }
    assert(s@.subrange(at as int, at + m) =~= p@);
    true
}

/// Tests whether `s` starts with `p`.
pub fn starts_with(s: &str, p: &str) -> (r: bool)
    ensures
        r == p@.is_prefix_of(s@),
{
    let r = matches_at(s, 0, p);
    proof {
        if p@.len() <= s@.len() {
            assert(s@.subrange(0, 0 + p@.len() as int) == s@.subrange(0, p@.len() as int));
        }
    }
    r
}

/// Tests whether `needle` occurs anywhere in `hay`.
pub fn contains(hay: &str, needle: &str) -> (r: bool)
    ensures
        r == occurs_in(needle@, hay@),
{
    let n = hay.unicode_len();
    let mut i: usize = 0;
    while i <= n
        invariant
            i <= n + 1,
            n == hay@.len(),
            forall|j: int| 0 <= j < i ==> !occurs_at(needle@, hay@, j),
        decreases n + 1 - i,
    {
        if matches_at(hay, i, needle) {
            return true;
        }
        if i == n {
            assert forall|j: int| !occurs_at(needle@, hay@, j) by {
                if j >= 0 && j + needle@.len() <= hay@.len() {
                    assert(j <= n);
                }
            }
            return false;
        }
        i += 1;
    }
    false
}

/// Removes the leading `/` characters of `s`.
pub fn trim_leading_slashes(s: &str) -> (r: &str)
    ensures
        r@ == strip_slashes(s@),
{
    let n = s.unicode_len();
    let mut i: usize = 0;
    assert(skip(s@, 0) =~= s@);
    while i < n && s.get_char(i) == '/'
        invariant
            i <= n,
            n == s@.len(),
            strip_slashes(s@) == strip_slashes(skip(s@, i as int)),
        decreases n - i,
    {
        proof {
            let cur = skip(s@, i as int);
            assert(cur[0] == s@[i as int]);
            assert(skip(cur, 1) =~= skip(s@, i + 1));
        }
        i += 1;
    }
    proof {
        let cur = skip(s@, i as int);
        if i < n {
            assert(cur[0] == s@[i as int]);
        }
    }
    s.substring_char(i, n)
}

/// Removes the prefix `p` from `s` for as long as `s` starts with it.
pub fn trim_start_matches<'a>(s: &'a str, p: &str) -> (r: &'a str)
    ensures
        r@ == trim_prefix_all(s@, p@),
{
    let m = p.unicode_len();
    if m == 0 {
        return s;
    }
    let mut cur: &str = s;
    while starts_with(cur, p)
        invariant
            m == p@.len(),
            m > 0,
            trim_prefix_all(s@, p@) == trim_prefix_all(cur@, p@),
        decreases cur@.len(),
    {
        let n = cur.unicode_len();
        cur = cur.substring_char(m, n);
    }
    cur
}

/// Finds the first `/` in `s` at or after `start`; the length of `s` where
/// there is none.
pub fn find_slash(s: &str, start: usize) -> (r: usize)
    requires
        start <= s@.len(),
    ensures
        r == slash_from(s@, start as int),
        start <= r <= s@.len(),
{
    let n = s.unicode_len();
    let mut i: usize = start;
    while i < n && s.get_char(i) != '/'
        invariant
            start <= i <= n,
            n == s@.len(),
            slash_from(s@, start as int) == slash_from(s@, i as int),
        decreases n - i,
    {
        i += 1;
    }
    i
}

/// Replaces every occurrence of `from` in `s` by `to`.
pub fn replace(s: &str, from: &str, to: &str) -> (r: String)
    ensures
        r@ == replace_all(s@, from@, to@),
{
    let n = s.unicode_len();
    let m = from.unicode_len();
    if m == 0 {
        return String::from_str(s);
    }
    let mut out = String::new();
    let mut i: usize = 0;
    proof {
        assert(skip(s@, 0) =~= s@);
        assert(out@ + replace_all(s@, from@, to@) =~= replace_all(s@, from@, to@));
    }
    while i < n
        invariant
            i <= n,
            n == s@.len(),
            m == from@.len(),
            m > 0,
            replace_all(s@, from@, to@) == out@ + replace_all(skip(s@, i as int), from@, to@),
        decreases n - i,
    {
        let ghost cur = skip(s@, i as int);
        let ghost before = out@;
        if matches_at(s, i, from) {
            proof {
                assert(cur.subrange(0, m as int) =~= s@.subrange(i as int, i + m));
                assert(skip(cur, m as int) =~= skip(s@, i + m));
                assert(before + (to@ + replace_all(skip(cur, m as int), from@, to@)) =~= (before
                    + to@) + replace_all(skip(cur, m as int), from@, to@));
            }
            out.append(to);
            i += m;
        } else {
            let one = s.substring_char(i, i + 1);
            proof {
                if m <= n - i {
                    assert(cur.subrange(0, m as int) =~= s@.subrange(i as int, i + m));
                    assert(skip(cur, 1) =~= skip(s@, i + 1));
                    assert(one@ =~= seq![cur[0]]);
                    assert(before + (seq![cur[0]] + replace_all(skip(cur, 1), from@, to@)) =~= (before
                        + one@) + replace_all(skip(cur, 1), from@, to@));
                } else {
                    // Too short for a match: the rest is copied as it stands,
                    // one character at a time.
                    lemma_short_rest(cur, from@, to@);
                    lemma_short_rest(skip(cur, 1), from@, to@);
                    assert(skip(cur, 1) =~= skip(s@, i + 1));
                    assert(one@ =~= seq![cur[0]]);
                    assert(before + cur =~= (before + one@) + skip(cur, 1));
                }
            }
            out.append(one);
            i += 1;
        }
    }
    proof {
        assert(skip(s@, n as int) =~= Seq::<char>::empty());
        assert(out@ + Seq::<char>::empty() =~= out@);
    }
    out
}

/// A string shorter than `from` holds no occurrence of it.
pub proof fn lemma_short_rest(s: Seq<char>, from: Seq<char>, to: Seq<char>)
    requires
        s.len() < from.len(),
    ensures
        replace_all(s, from, to) == s,
{
}

} // verus!
