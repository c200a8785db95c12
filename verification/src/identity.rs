//! The identity of the account or repository that a target URL belongs to.

use crate::text::{
    find_slash, lemma_slash_from, skip, slash_from, starts_with, trim_prefix_all,
    trim_start_matches,
};
use vstd::prelude::*;
use vstd::string::*;

verus! {

/// The URL without the schemes at its start: every leading `https://`, then
/// every leading `http://`.
pub open spec fn without_scheme(url: Seq<char>) -> Seq<char> {
    trim_prefix_all(trim_prefix_all(url, "https://"@), "http://"@)
}

/// The identity of an owner and a repository: `github.com/` and the first two
/// segments of `path`, where neither of the two is empty.
pub open spec fn repo_identity(path: Seq<char>) -> Option<Seq<char>> {
    let owner_end = slash_from(path, 0);
    let repo_end = slash_from(path, owner_end + 1);
    if 0 < owner_end < path.len() && owner_end + 1 < repo_end {
        Some("github.com/"@ + path.subrange(0, repo_end))
    } else {
        None
    }
}

/// The identity of an owner alone: `github.com/` and the first segment of
/// `path`, where that segment is not empty.
pub open spec fn owner_identity(path: Seq<char>) -> Option<Seq<char>> {
    let owner_end = slash_from(path, 0);
    if owner_end > 0 {
        Some("github.com/"@ + path.subrange(0, owner_end))
    } else {
        None
    }
}

/// The identity that a target URL belongs to, if it has one.
///
/// Under `github.com/` it is the owner and repository, or the owner alone
/// where no repository follows; under `raw.githubusercontent.com/` the owner
/// and repository; under `gist.githubusercontent.com/` and `gist.github.com/`
/// the owner. A path without an owner has no identity.
pub open spec fn identity_of(url: Seq<char>) -> Option<Seq<char>> {
    let u = without_scheme(url);
    if "github.com/"@.is_prefix_of(u) {
        let path = skip(u, "github.com/"@.len() as int);
        if repo_identity(path) is Some {
            repo_identity(path)
        } else {
            owner_identity(path)
        }
    } else if "raw.githubusercontent.com/"@.is_prefix_of(u) {
        repo_identity(skip(u, "raw.githubusercontent.com/"@.len() as int))
    } else if "gist.githubusercontent.com/"@.is_prefix_of(u) {
        owner_identity(skip(u, "gist.githubusercontent.com/"@.len() as int))
    } else if "gist.github.com/"@.is_prefix_of(u) {
        owner_identity(skip(u, "gist.github.com/"@.len() as int))
    } else {
        None
    }
}

/// A text that is not empty and holds no `/`.
pub open spec fn is_segment(s: Seq<char>) -> bool {
    s.len() > 0 && forall|i: int| 0 <= i < s.len() ==> #[trigger] s[i] != '/'
}

/// The text is `github.com/` and the owner, a segment.
pub open spec fn names_owner(id: Seq<char>, owner: Seq<char>) -> bool {
    is_segment(owner) && id == "github.com/"@ + owner
}

/// The text is `github.com/`, the owner, `/` and the repository, owner and
/// repository being segments.
pub open spec fn names_repo(id: Seq<char>, owner: Seq<char>, repo: Seq<char>) -> bool {
    is_segment(owner) && is_segment(repo) && id == "github.com/"@ + owner + seq!['/'] + repo
}

/// The text has the form of an identity: it names an owner, or an owner and
/// a repository.
pub open spec fn is_identity(id: Seq<char>) -> bool {
    (exists|owner: Seq<char>| names_owner(id, owner)) || (exists|
        owner: Seq<char>,
        repo: Seq<char>,
    | names_repo(id, owner, repo))
}

proof fn lemma_owner_form(path: Seq<char>)
    requires
        owner_identity(path) is Some,
    ensures
        is_identity(owner_identity(path)->Some_0),
{
    lemma_slash_from(path, 0);
    let owner = path.subrange(0, slash_from(path, 0));
    assert(names_owner(owner_identity(path)->Some_0, owner));
}

proof fn lemma_repo_form(path: Seq<char>)
    requires
        repo_identity(path) is Some,
    ensures
        is_identity(repo_identity(path)->Some_0),
{
    let owner_end = slash_from(path, 0);
    lemma_slash_from(path, 0);
    lemma_slash_from(path, owner_end + 1);
    let repo_end = slash_from(path, owner_end + 1);
    let owner = path.subrange(0, owner_end);
    let repo = path.subrange(owner_end + 1, repo_end);
    assert(is_segment(owner));
    assert(is_segment(repo));
    assert(path.subrange(0, repo_end) =~= owner + seq!['/'] + repo);
    assert("github.com/"@ + (owner + seq!['/'] + repo) =~= "github.com/"@ + owner + seq!['/']
        + repo);
    assert(names_repo(repo_identity(path)->Some_0, owner, repo));
}

/// Every identity has the form `github.com/owner` or
/// `github.com/owner/repo`, where owner and repository are not empty and
/// hold no `/`.
pub proof fn identity_has_form(url: Seq<char>)
    requires
        identity_of(url) is Some,
    ensures
        is_identity(identity_of(url)->Some_0),
{
    let u = without_scheme(url);
    if "github.com/"@.is_prefix_of(u) {
        let path = skip(u, "github.com/"@.len() as int);
        if repo_identity(path) is Some {
            lemma_repo_form(path);
        } else {
            lemma_owner_form(path);
        }
    } else if "raw.githubusercontent.com/"@.is_prefix_of(u) {
        lemma_repo_form(skip(u, "raw.githubusercontent.com/"@.len() as int));
    } else if "gist.githubusercontent.com/"@.is_prefix_of(u) {
        lemma_owner_form(skip(u, "gist.githubusercontent.com/"@.len() as int));
    } else {
        lemma_owner_form(skip(u, "gist.github.com/"@.len() as int));
    }
}

/// Every identity names the one host: it starts with `github.com/`.
pub proof fn identity_names_host(url: Seq<char>)
    requires
        identity_of(url) is Some,
    ensures
        "github.com/"@.is_prefix_of(identity_of(url)->Some_0),
{
    let id = identity_of(url)->Some_0;
    let host = "github.com/"@;
    assert(host.len() <= id.len() && id.subrange(0, host.len() as int) =~= host);
}

/// `s` without its first characters, as many as `lead` has.
fn after<'a>(s: &'a str, lead: &str) -> (r: &'a str)
    requires
        lead@.is_prefix_of(s@),
    ensures
        r@ == skip(s@, lead@.len() as int),
{
    s.substring_char(lead.unicode_len(), s.unicode_len())
}

fn repo_of(path: &str) -> (r: Option<String>)
    ensures
        match r {
            Some(id) => repo_identity(path@) == Some(id@),
            None => repo_identity(path@) is None,
        },
{
    let n = path.unicode_len();
    let owner_end = find_slash(path, 0);
    if owner_end == 0 || owner_end >= n {
        return None;
    }
    let repo_end = find_slash(path, owner_end + 1);
    if repo_end == owner_end + 1 {
        None
    } else {
        Some(String::from_str("github.com/").concat(path.substring_char(0, repo_end)))
    }
}

fn owner_of(path: &str) -> (r: Option<String>)
    ensures
        match r {
            Some(id) => owner_identity(path@) == Some(id@),
            None => owner_identity(path@) is None,
        },
{
    let owner_end = find_slash(path, 0);
    if owner_end > 0 {
        Some(String::from_str("github.com/").concat(path.substring_char(0, owner_end)))
    } else {
        None
    }
}

/// Extracts the identity that a target URL belongs to.
pub fn extract_user_repo(url_str: &str) -> (r: Option<String>)
    ensures
        match r {
            Some(id) => identity_of(url_str@) == Some(id@),
            None => identity_of(url_str@) is None,
        },
{
    let u = trim_start_matches(trim_start_matches(url_str, "https://"), "http://");
    if starts_with(u, "github.com/") {
        let path = after(u, "github.com/");
        match repo_of(path) {
            Some(id) => Some(id),
            None => owner_of(path),
        }
    } else if starts_with(u, "raw.githubusercontent.com/") {
        repo_of(after(u, "raw.githubusercontent.com/"))
    } else if starts_with(u, "gist.githubusercontent.com/") {
        owner_of(after(u, "gist.githubusercontent.com/"))
    } else if starts_with(u, "gist.github.com/") {
        owner_of(after(u, "gist.github.com/"))
    } else {
        None
    }
}

} // verus!
