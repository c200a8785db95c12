//! The size guard: whether a file is too large to stream through the proxy.

use crate::text::skip;
use vstd::prelude::*;
use vstd::string::*;

verus! {

/// The character is a decimal digit.
pub open spec fn is_digit(c: char) -> bool {
    '0' <= c && c <= '9'
}

/// Every character of the text is a decimal digit.
pub open spec fn all_digits(s: Seq<char>) -> bool {
    forall|i: int| 0 <= i < s.len() ==> is_digit(#[trigger] s[i])
}

/// The number that a text of decimal digits writes.
pub open spec fn decimal_value(s: Seq<char>) -> int
    decreases s.len(),
{
    if s.len() == 0 {
        0
    } else {
        decimal_value(s.drop_last()) * 10 + (s.last() as int - '0' as int)
    }
}

/// The text without the `+` that may stand at its start.
pub open spec fn unsigned_part(s: Seq<char>) -> Seq<char> {
    if s.len() > 0 && s[0] == '+' {
        skip(s, 1)
    } else {
        s
    }
}

/// The number that a length field writes: decimal digits, after at most one
/// `+`, that give a value within 64 bits. Any other text writes none.
pub open spec fn parsed_length(s: Seq<char>) -> Option<u64> {
    let body = unsigned_part(s);
    if body.len() > 0 && all_digits(body) && decimal_value(body) <= u64::MAX {
        Some(decimal_value(body) as u64)
    } else {
        None
    }
}

/// The file is too large: a ceiling is set, and the content length is given,
/// is a number, and is above the ceiling.
pub open spec fn too_large(limit: u64, content_length: Option<Seq<char>>) -> bool {
    limit != 0 && match content_length {
        Some(field) => match parsed_length(field) {
            Some(size) => size > limit,
            None => false,
        },
        None => false,
    }
}

/// The value of digits only grows as more digits follow.
pub proof fn lemma_value_grows(s: Seq<char>, k: int)
    requires
        all_digits(s),
        0 <= k <= s.len(),
    ensures
        0 <= decimal_value(s.subrange(0, k)) <= decimal_value(s),
    decreases s.len() - k,
{
    lemma_value_not_negative(s.subrange(0, k));
    if k == s.len() {
        assert(s.subrange(0, k) =~= s);
    } else {
        let next = s.subrange(0, k + 1);
        assert(next.drop_last() =~= s.subrange(0, k));
        assert(is_digit(s[k]));
        assert(next.last() == s[k]);
        lemma_value_grows(s, k + 1);
    }
}

/// The value of digits is not negative.
pub proof fn lemma_value_not_negative(s: Seq<char>)
    requires
        all_digits(s),
    ensures
        0 <= decimal_value(s),
    decreases s.len(),
{
    if s.len() > 0 {
        assert(is_digit(s[s.len() - 1]));
        lemma_value_not_negative(s.drop_last());
    }
}

/// Reads a length field as a number of bytes.
pub fn parse_length(field: &str) -> (r: Option<u64>)
    ensures
        r == parsed_length(field@),
{
    let n = field.unicode_len();
    let start: usize = if n > 0 && field.get_char(0) == '+' {
        1
    } else {
        0
    };
    if start == n {
        return None;
    }
    let ghost body = unsigned_part(field@);
    assert(body =~= skip(field@, start as int));
    let mut acc: u64 = 0;
    let mut i: usize = start;
    assert(body.subrange(0, 0) =~= Seq::<char>::empty());
    while i < n
        invariant
            start <= i <= n,
            n == field@.len(),
            body == unsigned_part(field@),
            body == skip(field@, start as int),
            all_digits(body.subrange(0, i - start)),
            acc == decimal_value(body.subrange(0, i - start)),
        decreases n - i,
    {
        let c = field.get_char(i);
        let ghost seen = body.subrange(0, i - start);
        let ghost next = body.subrange(0, i - start + 1);
        proof {
            assert(next.drop_last() =~= seen);
            assert(next.last() == c);
            assert(body[i - start] == c);
        }
        if c < '0' || c > '9' {
            return None;
        }
        let digit: u64 = (c as u32 - '0' as u32) as u64;
        assert(all_digits(next)) by {
            assert forall|j: int| 0 <= j < next.len() implies is_digit(#[trigger] next[j]) by {
                if j < seen.len() {
                    assert(next[j] == seen[j]);
                }
            }
        }
        if acc > 1844674407370955161u64 || acc * 10 > u64::MAX - digit {
            proof {
                assert(decimal_value(next) > u64::MAX);
                if all_digits(body) {
                    lemma_value_grows(body, i - start + 1);
                }
            }
            return None;
        }
        acc = acc * 10 + digit;
        i += 1;
    }
    assert(body.subrange(0, n - start) =~= body);
    Some(acc)
}

/// Whether the size guard probes at all: only where a ceiling is set.
pub fn probe_enabled(limit: u64) -> (r: bool)
    ensures
        r == (limit != 0),
{
    limit != 0
}

/// Tests the content length that a probe reported against the ceiling. A
/// ceiling of 0 switches the guard off; a probe without a readable length
/// lets the request through.
pub fn exceeds_limit(limit: u64, content_length: Option<&str>) -> (r: bool)
    ensures
        r == too_large(
            limit,
            match content_length {
                Some(field) => Some(field@),
                None => None,
            },
        ),
{
    if limit == 0 {
        return false;
    }
    match content_length {
        Some(field) => match parse_length(field) {
            Some(size) => size > limit,
            None => false,
        },
        None => false,
    }
}

} // verus!
