//! Reconstruction of an absolute target URL from the raw path of a request.

use crate::text::{skip, starts_with, strip_slashes, trim_leading_slashes};
use vstd::prelude::*;
use vstd::string::*;

verus! {

/// The text starts with `http://` or `https://`.
pub open spec fn has_scheme(s: Seq<char>) -> bool {
    "http://"@.is_prefix_of(s) || "https://"@.is_prefix_of(s)
}

/// The raw path with a single-slash scheme (`http:/`, `https:/`) mended to
/// `https://`; any other path as it stands.
pub open spec fn mended(p: Seq<char>) -> Seq<char> {
    if has_scheme(p) {
        p
    } else if "http:/"@.is_prefix_of(p) {
        "https://"@ + strip_slashes(skip(p, "http:/"@.len() as int))
    } else if "https:/"@.is_prefix_of(p) {
        "https://"@ + strip_slashes(skip(p, "https:/"@.len() as int))
    } else {
        p
    }
}

/// The path as it stands where it has a scheme, else with `https://` put
/// before it.
pub open spec fn with_scheme(p: Seq<char>) -> Seq<char> {
    if has_scheme(p) {
        p
    } else {
        "https://"@ + p
    }
}

/// The absolute target URL of a raw path: the mended path, with `https://`
/// put before it where it has no scheme.
pub open spec fn normalized(p: Seq<char>) -> Seq<char> {
    with_scheme(mended(p))
}

/// Mends a single-slash scheme at the start of a raw path.
pub fn mend_scheme(raw: &str) -> (out: String)
    ensures
        out@ == mended(raw@),
{
    if starts_with(raw, "http://") || starts_with(raw, "https://") {
        String::from_str(raw)
    } else if starts_with(raw, "http:/") {
        let lead = "http:/".unicode_len();
        let rest = raw.substring_char(lead, raw.unicode_len());
        String::from_str("https://").concat(trim_leading_slashes(rest))
    } else if starts_with(raw, "https:/") {
        let lead = "https:/".unicode_len();
        let rest = raw.substring_char(lead, raw.unicode_len());
        String::from_str("https://").concat(trim_leading_slashes(rest))
    } else {
        String::from_str(raw)
    }
}

/// Puts `https://` before a path that has no scheme.
pub fn ensure_scheme(path: &str) -> (out: String)
    ensures
        out@ == with_scheme(path@),
        has_scheme(out@),
{
    if starts_with(path, "http://") || starts_with(path, "https://") {
        String::from_str(path)
    } else {
        proof {
            lemma_prefix_of_concat("https://"@, path@);
        }
        String::from_str("https://").concat(path)
    }
}

/// Builds the absolute target URL of a raw path: a path with a scheme stays
/// as it is, a single-slash scheme is mended to `https://`, and any other
/// path gets `https://` put before it.
pub fn normalize_path(raw: &str) -> (out: String)
    ensures
        out@ == normalized(raw@),
        has_scheme(out@),
{
    let fixed = mend_scheme(raw);
    ensure_scheme(fixed.as_str())
}

/// A text is a prefix of itself followed by any other.
pub proof fn lemma_prefix_of_concat(a: Seq<char>, b: Seq<char>)
    ensures
        a.is_prefix_of(a + b),
{
    assert((a + b).subrange(0, a.len() as int) =~= a);
}

/// A path has a scheme once one was put before it.
pub proof fn lemma_with_scheme(p: Seq<char>)
    ensures
        has_scheme(with_scheme(p)),
{
    lemma_prefix_of_concat("https://"@, p);
}

/// Every normalized path has a scheme.
pub proof fn normalized_has_scheme(p: Seq<char>)
    ensures
        has_scheme(normalized(p)),
{
    lemma_with_scheme(mended(p));
}

/// A path that has a scheme is its own normal form.
pub proof fn normalize_keeps_scheme(p: Seq<char>)
    requires
        has_scheme(p),
    ensures
        normalized(p) == p,
{
}

/// Normalizing is idempotent: a second pass changes nothing.
pub proof fn normalize_idempotent(p: Seq<char>)
    ensures
        normalized(normalized(p)) == normalized(p),
{
    normalized_has_scheme(p);
    normalize_keeps_scheme(normalized(p));
}

} // verus!
