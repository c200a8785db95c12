//! Access control by identity: the pass-by, ban and allow lists, and the
//! whitelist of path fragments.

use crate::identity::{extract_user_repo, identity_of};
use crate::text::{contains, occurs_in, starts_with};
use vstd::prelude::*;
use vstd::string::*;

verus! {

/// The lists that access control goes by. Each entry of the first three is a
/// literal prefix of an identity; each entry of the last a fragment of a URL.
#[derive(Debug)]
pub struct PolicyLists {
    /// Identities that are refused.
    pub banned: Vec<String>,
    /// Where not empty, the only identities that are served.
    pub allowed: Vec<String>,
    /// Identities that are sent to the origin instead of being proxied.
    pub passby: Vec<String>,
    /// Where not empty, a URL must hold one of these to be proxied.
    pub white_list: Vec<String>,
}

/// The mathematical value of [`PolicyLists`].
pub struct PolicyView {
    pub banned: Seq<Seq<char>>,
    pub allowed: Seq<Seq<char>>,
    pub passby: Seq<Seq<char>>,
    pub white_list: Seq<Seq<char>>,
}

/// The texts of a list of strings, in order.
pub open spec fn texts(list: Seq<String>) -> Seq<Seq<char>> {
    Seq::new(list.len(), |i: int| list[i]@)
}

impl View for PolicyLists {
    type V = PolicyView;

    open spec fn view(&self) -> PolicyView {
        PolicyView {
            banned: texts(self.banned@),
            allowed: texts(self.allowed@),
            passby: texts(self.passby@),
            white_list: texts(self.white_list@),
        }
    }
}

/// The outcome of access control for one request.
#[derive(Clone, Copy, Debug, PartialEq, Eq, Structural)]
pub struct AccessDecision {
    /// The request may be served at all.
    pub allowed: bool,
    /// The client is sent to the origin instead of being proxied.
    pub bypass: bool,
}

/// Some entry of the list is a prefix of the identity.
pub open spec fn covers(list: Seq<Seq<char>>, id: Seq<char>) -> bool {
    exists|i: int| 0 <= i < list.len() && (#[trigger] list[i]).is_prefix_of(id)
}

/// Some entry of the list occurs in the URL.
pub open spec fn mentions(list: Seq<Seq<char>>, url: Seq<char>) -> bool {
    exists|i: int| 0 <= i < list.len() && occurs_in(#[trigger] list[i], url)
}

/// The decision for an identity. The first rule that applies wins: no
/// identity is allowed; then pass-by, then ban, then the allow list where it
/// is not empty.
pub open spec fn decision(lists: PolicyView, id: Option<Seq<char>>) -> AccessDecision {
    match id {
        None => AccessDecision { allowed: true, bypass: false },
        Some(who) => if covers(lists.passby, who) {
            AccessDecision { allowed: true, bypass: true }
        } else if covers(lists.banned, who) {
            AccessDecision { allowed: false, bypass: false }
        } else if lists.allowed.len() > 0 {
            AccessDecision { allowed: covers(lists.allowed, who), bypass: false }
        } else {
            AccessDecision { allowed: true, bypass: false }
        },
    }
}

/// The whitelist lets the URL through: it is empty, or one of its entries
/// occurs in the URL.
pub open spec fn whitelisted(lists: PolicyView, url: Seq<char>) -> bool {
    lists.white_list.len() == 0 || mentions(lists.white_list, url)
}

/// Tests whether some entry of the list is a prefix of the identity.
pub fn any_prefix(list: &Vec<String>, id: &str) -> (r: bool)
    ensures
        r == covers(texts(list@), id@),
{
    let mut i: usize = 0;
    while i < list.len()
        invariant
            i <= list.len(),
            forall|j: int| 0 <= j < i ==> !(#[trigger] texts(list@)[j]).is_prefix_of(id@),
        decreases list.len() - i,
    {
        if starts_with(id, list[i].as_str()) {
            assert(texts(list@)[i as int] == list@[i as int]@);
            return true;
        }
        assert(texts(list@)[i as int] == list@[i as int]@);
        i += 1;
    }
    false
}

/// Tests a URL against the whitelist of fragments.
pub fn check_whitelist(url_str: &str, lists: &PolicyLists) -> (r: bool)
    ensures
        r == whitelisted(lists@, url_str@),
{
    if lists.white_list.len() == 0 {
        return true;
    }
    let ghost white = texts(lists.white_list@);
    let mut i: usize = 0;
    while i < lists.white_list.len()
        invariant
            i <= lists.white_list.len(),
            white == texts(lists.white_list@),
            forall|j: int| 0 <= j < i ==> !occurs_in(#[trigger] white[j], url_str@),
        decreases lists.white_list.len() - i,
    {
        assert(white[i as int] == lists.white_list@[i as int]@);
        if contains(url_str, lists.white_list[i].as_str()) {
            return true;
        }
        i += 1;
    }
    false
}

/// Decides on an identity that was extracted already.
pub fn decide_access(identity: Option<&str>, lists: &PolicyLists) -> (r: AccessDecision)
    ensures
        r == decision(
            lists@,
            match identity {
                Some(who) => Some(who@),
                None => None,
            },
        ),
{
    match identity {
        None => AccessDecision { allowed: true, bypass: false },
        Some(who) => {
            if any_prefix(&lists.passby, who) {
                AccessDecision { allowed: true, bypass: true }
            } else if any_prefix(&lists.banned, who) {
                AccessDecision { allowed: false, bypass: false }
            } else if lists.allowed.len() > 0 {
                AccessDecision { allowed: any_prefix(&lists.allowed, who), bypass: false }
            } else {
                AccessDecision { allowed: true, bypass: false }
            }
        },
    }
}

/// Decides whether the target URL may be served, and whether its client is
/// sent to the origin, by the identity that the URL belongs to.
pub fn check_user_repo_access(url_str: &str, lists: &PolicyLists) -> (r: AccessDecision)
    ensures
        r == decision(lists@, identity_of(url_str@)),
{
    match extract_user_repo(url_str) {
        Some(who) => decide_access(Some(who.as_str()), lists),
        None => decide_access(None, lists),
    }
}

/// An identity on the pass-by list is sent to the origin, whatever the ban
/// and allow lists hold.
pub proof fn passby_takes_precedence(lists: PolicyView, id: Seq<char>)
    requires
        covers(lists.passby, id),
    ensures
        decision(lists, Some(id)) == (AccessDecision { allowed: true, bypass: true }),
{
}

/// An identity on the ban list and not on the pass-by list is refused.
pub proof fn banned_is_refused(lists: PolicyView, id: Seq<char>)
    requires
        covers(lists.banned, id),
        !covers(lists.passby, id),
    ensures
        decision(lists, Some(id)) == (AccessDecision { allowed: false, bypass: false }),
{
}

/// Where the allow list is not empty, an identity on none of the three lists
/// is refused.
pub proof fn unlisted_is_refused(lists: PolicyView, id: Seq<char>)
    requires
        lists.allowed.len() > 0,
        !covers(lists.allowed, id),
        !covers(lists.banned, id),
        !covers(lists.passby, id),
    ensures
        decision(lists, Some(id)) == (AccessDecision { allowed: false, bypass: false }),
{
}

/// Where the allow list is not empty, an identity on it and on neither of
/// the other two is served through the proxy; so is every identity on no
/// list where the allow list is empty, and every request without identity.
pub proof fn served_through_proxy(lists: PolicyView, id: Option<Seq<char>>)
    requires
        match id {
            Some(who) => !covers(lists.passby, who) && !covers(lists.banned, who) && (
            lists.allowed.len() == 0 || covers(lists.allowed, who)),
            None => true,
        },
    ensures
        decision(lists, id) == (AccessDecision { allowed: true, bypass: false }),
{
}

} // verus!
