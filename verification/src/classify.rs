//! Classification of a target URL into one of a fixed set of kinds.
//!
//! The six shapes are regular expressions, tried in a fixed order. Owner,
//! repository and ref are single path segments. Matching is done by the
//! `regex` crate; what is proved here is how the six answers are combined.

use vstd::prelude::*;

verus! {

/// What a target URL points at.
#[derive(Clone, Copy, Debug, PartialEq, Eq, Structural)]
pub enum UrlType {
    /// A release download or a source archive.
    Release,
    /// A file shown in the repository browser.
    Blob,
    /// An endpoint of the git protocol over HTTP.
    Git,
    /// A raw file.
    Raw,
    /// A gist.
    Gist,
    /// The tag list of a repository.
    Tags,
    /// Anything else: served from the static origin.
    Asset,
}

pub const RELEASE_PATTERN: &'static str =
    "^(?:https?://)?github\\.com/[^/\\n]+/[^/\\n]+/(?:releases|archive)/.*$";

pub const BLOB_PATTERN: &'static str = "^(?:https?://)?github\\.com/[^/\\n]+/[^/\\n]+/(?:blob|raw)/.*$";

pub const GIT_PATTERN: &'static str = "^(?:https?://)?github\\.com/[^/\\n]+/[^/\\n]+/(?:info|git-).*$";

pub const RAW_PATTERN: &'static str =
    "^(?:https?://)?raw\\.(?:githubusercontent|github)\\.com/[^/\\n]+/[^/\\n]+/[^/\\n]+/.+$";

pub const GIST_PATTERN: &'static str =
    "^(?:https?://)?gist\\.(?:githubusercontent|github)\\.com/[^/\\n]+/[^/\\n]+/.+$";

pub const TAGS_PATTERN: &'static str = "^(?:https?://)?github\\.com/[^/\\n]+/[^/\\n]+/tags.*$";

/// What the regular expression engine answers for a pattern and a text:
/// `None` where it rejects the pattern, else whether the pattern matches
/// somewhere in the text.
pub uninterp spec fn regex_match(pattern: Seq<char>, text: Seq<char>) -> Option<bool>;

/// Calls `regex::Regex::new` on the pattern and, where that succeeds,
/// `regex::Regex::is_match` on the text. The contract only names the answer:
/// it is a function of the pattern and the text alone, and nothing is claimed
/// of which texts a pattern matches.
#[verifier::external_body]
fn pattern_matches(pattern: &str, text: &str) -> (r: Option<bool>)
    ensures
        r == regex_match(pattern@, text@),
{
    match regex::Regex::new(pattern) {
        Ok(re) => Some(re.is_match(text)),
        Err(_) => None,
    }
}

/// The pattern is accepted by the engine and matches the text.
pub open spec fn hits(pattern: Seq<char>, text: Seq<char>) -> bool {
    regex_match(pattern, text) == Some(true)
}

/// The kind that six answers select: the first pattern that matched, in the
/// order release, blob, git, raw, gist, tags.
pub open spec fn select_kind(
    release: bool,
    blob: bool,
    git: bool,
    raw: bool,
    gist: bool,
    tags: bool,
) -> UrlType {
    if release {
        UrlType::Release
    } else if blob {
        UrlType::Blob
    } else if git {
        UrlType::Git
    } else if raw {
        UrlType::Raw
    } else if gist {
        UrlType::Gist
    } else if tags {
        UrlType::Tags
    } else {
        UrlType::Asset
    }
}

/// The URL has one of the six recognised shapes.
pub open spec fn recognized(url: Seq<char>) -> bool {
    hits(RELEASE_PATTERN@, url) || hits(BLOB_PATTERN@, url) || hits(GIT_PATTERN@, url) || hits(
        RAW_PATTERN@,
        url,
    ) || hits(GIST_PATTERN@, url) || hits(TAGS_PATTERN@, url)
}

/// The kind of a URL.
pub open spec fn url_kind(url: Seq<char>) -> UrlType {
    select_kind(
        hits(RELEASE_PATTERN@, url),
        hits(BLOB_PATTERN@, url),
        hits(GIT_PATTERN@, url),
        hits(RAW_PATTERN@, url),
        hits(GIST_PATTERN@, url),
        hits(TAGS_PATTERN@, url),
    )
}

/// Tests one pattern against a text. A pattern that the engine rejects
/// matches nothing.
pub fn pattern_hit(pattern: &str, text: &str) -> (r: bool)
    ensures
        r == hits(pattern@, text@),
{
    match pattern_matches(pattern, text) {
        Some(found) => found,
        None => false,
    }
}

/// Picks the kind from the answers of the six patterns.
pub fn select_url_type(
    release: bool,
    blob: bool,
    git: bool,
    raw: bool,
    gist: bool,
    tags: bool,
) -> (kind: UrlType)
    ensures
        kind == select_kind(release, blob, git, raw, gist, tags),
{
    if release {
        UrlType::Release
    } else if blob {
        UrlType::Blob
    } else if git {
        UrlType::Git
    } else if raw {
        UrlType::Raw
    } else if gist {
        UrlType::Gist
    } else if tags {
        UrlType::Tags
    } else {
        UrlType::Asset
    }
}

/// Classifies a target URL, with or without its scheme.
pub fn get_url_type(url_str: &str) -> (kind: UrlType)
    ensures
        kind == url_kind(url_str@),
{
    let release = pattern_hit(RELEASE_PATTERN, url_str);
    let blob = pattern_hit(BLOB_PATTERN, url_str);
    let git = pattern_hit(GIT_PATTERN, url_str);
    let raw = pattern_hit(RAW_PATTERN, url_str);
    let gist = pattern_hit(GIST_PATTERN, url_str);
    let tags = pattern_hit(TAGS_PATTERN, url_str);
    select_url_type(release, blob, git, raw, gist, tags)
}

/// Tests whether a URL has one of the six recognised shapes.
pub fn check_url(url_str: &str) -> (r: bool)
    ensures
        r == recognized(url_str@),
        r == (url_kind(url_str@) != UrlType::Asset),
{
    pattern_hit(RELEASE_PATTERN, url_str) || pattern_hit(BLOB_PATTERN, url_str) || pattern_hit(
        GIT_PATTERN,
        url_str,
    ) || pattern_hit(RAW_PATTERN, url_str) || pattern_hit(GIST_PATTERN, url_str) || pattern_hit(
        TAGS_PATTERN,
        url_str,
    )
}

/// Every URL has exactly one kind, and the kind is that of the first pattern
/// that matches: a URL is a release exactly if the release pattern matches,
/// a blob exactly if the release pattern does not and the blob pattern does,
/// and so on down the order; it is an asset exactly if no pattern matches.
pub proof fn kind_is_first_match(url: Seq<char>)
    ensures
        url_kind(url) == UrlType::Release <==> hits(RELEASE_PATTERN@, url),
        url_kind(url) == UrlType::Blob <==> !hits(RELEASE_PATTERN@, url) && hits(
            BLOB_PATTERN@,
            url,
        ),
        url_kind(url) == UrlType::Git <==> !hits(RELEASE_PATTERN@, url) && !hits(
            BLOB_PATTERN@,
            url,
        ) && hits(GIT_PATTERN@, url),
        url_kind(url) == UrlType::Raw <==> !hits(RELEASE_PATTERN@, url) && !hits(
            BLOB_PATTERN@,
            url,
        ) && !hits(GIT_PATTERN@, url) && hits(RAW_PATTERN@, url),
        url_kind(url) == UrlType::Gist <==> !hits(RELEASE_PATTERN@, url) && !hits(
            BLOB_PATTERN@,
            url,
        ) && !hits(GIT_PATTERN@, url) && !hits(RAW_PATTERN@, url) && hits(GIST_PATTERN@, url),
        url_kind(url) == UrlType::Tags <==> !hits(RELEASE_PATTERN@, url) && !hits(
            BLOB_PATTERN@,
            url,
        ) && !hits(GIT_PATTERN@, url) && !hits(RAW_PATTERN@, url) && !hits(GIST_PATTERN@, url)
            && hits(TAGS_PATTERN@, url),
        url_kind(url) == UrlType::Asset <==> !recognized(url),
{
}

} // verus!
