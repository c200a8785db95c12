//! The request router: from the raw path of a request to what is done with
//! it.

use crate::classify::{get_url_type, url_kind, UrlType};
use crate::identity::identity_of;
use crate::normalize::{
    ensure_scheme, has_scheme, lemma_with_scheme, mend_scheme, mended, normalized, with_scheme,
};
use crate::policy::{
    check_user_repo_access, check_whitelist, decision, whitelisted, AccessDecision, PolicyLists,
    PolicyView,
};
use crate::text::{replace, replace_all, skip, starts_with, strip_slashes, trim_leading_slashes};
use vstd::prelude::*;
use vstd::string::*;

verus! {

/// The settings of the proxy, fixed when the process starts.
#[derive(Debug)]
pub struct Config {
    /// The routing prefix that stands before the proxied path.
    pub prefix: String,
    /// The base URL of the static origin.
    pub asset_url: String,
    /// Send clients to the CDN for single files instead of proxying them.
    pub cdn_enabled: bool,
    /// The largest file that is streamed through the proxy, in bytes; 0 for
    /// no ceiling.
    pub size_limit: u64,
    /// The lists of access control.
    pub lists: PolicyLists,
}

/// The mathematical value of a [`Config`].
pub struct ConfigView {
    pub prefix: Seq<char>,
    pub asset_url: Seq<char>,
    pub cdn_enabled: bool,
    pub size_limit: u64,
    pub lists: PolicyView,
}

impl View for Config {
    type V = ConfigView;

    open spec fn view(&self) -> ConfigView {
        ConfigView {
            prefix: self.prefix@,
            asset_url: self.asset_url@,
            cdn_enabled: self.cdn_enabled,
            size_limit: self.size_limit,
            lists: self.lists@,
        }
    }
}

/// What is done with a request.
#[derive(Debug)]
pub enum RouteAction {
    /// Refuse: the identity is banned or not allowed.
    Deny,
    /// Refuse: the whitelist does not let the URL through.
    Blocked,
    /// Send the client to `target`.
    Redirect { target: String },
    /// Proxy the request to `target`; with `probe`, the size guard applies
    /// first.
    Proxy { target: String, probe: bool },
    /// Fetch `target` from the static origin.
    Asset { target: String },
}

/// The mathematical value of a [`RouteAction`].
pub enum RouteView {
    Deny,
    Blocked,
    Redirect { target: Seq<char> },
    Proxy { target: Seq<char>, probe: bool },
    Asset { target: Seq<char> },
}

impl View for RouteAction {
    type V = RouteView;

    open spec fn view(&self) -> RouteView {
        match self {
            RouteAction::Deny => RouteView::Deny,
            RouteAction::Blocked => RouteView::Blocked,
            RouteAction::Redirect { target } => RouteView::Redirect { target: target@ },
            RouteAction::Proxy { target, probe } => RouteView::Proxy {
                target: target@,
                probe: *probe,
            },
            RouteAction::Asset { target } => RouteView::Asset { target: target@ },
        }
    }
}

/// The view of an optional action.
pub open spec fn action_view(action: Option<RouteAction>) -> Option<RouteView> {
    match action {
        Some(a) => Some(a@),
        None => None,
    }
}

/// The CDN address of a blob: `/blob/` becomes `@`, the host becomes the
/// CDN's, and `https://` is put before what does not start with `http`.
pub open spec fn cdn_blob(path: Seq<char>) -> Seq<char> {
    let moved = replace_all(
        replace_all(path, "/blob/"@, "@"@),
        "github.com"@,
        "cdn.jsdelivr.net/gh"@,
    );
    if "http"@.is_prefix_of(moved) {
        moved
    } else {
        "https://"@ + strip_slashes(moved)
    }
}

/// Proxy `path` if the whitelist lets it through.
pub open spec fn proxied(cfg: ConfigView, path: Seq<char>, probe: bool) -> RouteView {
    if whitelisted(cfg.lists, path) {
        RouteView::Proxy { target: with_scheme(path), probe }
    } else {
        RouteView::Blocked
    }
}

/// What is done with an admitted path of the given kind.
///
/// Releases, git endpoints, gists and tag lists are proxied; of these only a
/// release is probed for its size. A blob goes to the CDN where that is
/// switched on, and is else proxied as the raw file it shows. A raw file is
/// proxied. Anything else comes from the static origin.
pub open spec fn dispatched(cfg: ConfigView, path: Seq<char>, kind: UrlType) -> RouteView {
    match kind {
        UrlType::Release => proxied(cfg, path, true),
        UrlType::Git | UrlType::Gist | UrlType::Tags => proxied(cfg, path, false),
        UrlType::Blob => if cfg.cdn_enabled {
            RouteView::Redirect { target: cdn_blob(path) }
        } else {
            proxied(cfg, replace_all(path, "/blob/"@, "/raw/"@), true)
        },
        UrlType::Raw => proxied(cfg, path, true),
        UrlType::Asset => RouteView::Asset { target: cfg.asset_url + path },
    }
}

/// What is done with a raw path: access control first, then dispatch by
/// kind. There is no action for an admitted raw file while the CDN is
/// switched on.
pub open spec fn routed(cfg: ConfigView, raw: Seq<char>) -> Option<RouteView> {
    let path = mended(raw);
    let access = decision(cfg.lists, identity_of(path));
    if !access.allowed {
        Some(RouteView::Deny)
    } else if access.bypass {
        Some(RouteView::Redirect { target: with_scheme(path) })
    } else if cfg.cdn_enabled && url_kind(path) == UrlType::Raw {
        None
    } else {
        Some(dispatched(cfg, path, url_kind(path)))
    }
}

fn proxy_if_listed(cfg: &Config, path: &str, probe: bool) -> (r: RouteAction)
    ensures
        r@ == proxied(cfg@, path@, probe),
{
    if check_whitelist(path, &cfg.lists) {
        RouteAction::Proxy { target: ensure_scheme(path), probe }
    } else {
        RouteAction::Blocked
    }
}

fn cdn_blob_target(path: &str) -> (r: String)
    ensures
        r@ == cdn_blob(path@),
{
    let first = replace(path, "/blob/", "@");
    let moved = replace(first.as_str(), "github.com", "cdn.jsdelivr.net/gh");
    if starts_with(moved.as_str(), "http") {
        moved
    } else {
        String::from_str("https://").concat(trim_leading_slashes(moved.as_str()))
    }
}

/// Decides what is done with an admitted path, given its kind. The CDN
/// rewrite of a raw file is not offered.
pub fn dispatch(cfg: &Config, path: &str, kind: UrlType) -> (r: RouteAction)
    requires
        !(cfg.cdn_enabled && kind == UrlType::Raw),
    ensures
        r@ == dispatched(cfg@, path@, kind),
{
    match kind {
        UrlType::Release => proxy_if_listed(cfg, path, true),
        UrlType::Git => proxy_if_listed(cfg, path, false),
        UrlType::Gist => proxy_if_listed(cfg, path, false),
        UrlType::Tags => proxy_if_listed(cfg, path, false),
        UrlType::Blob => {
            if cfg.cdn_enabled {
                RouteAction::Redirect { target: cdn_blob_target(path) }
            } else {
                let raw_path = replace(path, "/blob/", "/raw/");
                proxy_if_listed(cfg, raw_path.as_str(), true)
            }
        },
        UrlType::Raw => proxy_if_listed(cfg, path, true),
        UrlType::Asset => {
            let mut target = cfg.asset_url.clone();
            target.append(path);
            RouteAction::Asset { target }
        },
    }
}

/// Decides what is done with the raw path of a request.
///
/// Returns `None` exactly for an admitted raw file while the CDN is switched
/// on.
pub fn route(cfg: &Config, raw_path: &str) -> (r: Option<RouteAction>)
    ensures
        action_view(r) == routed(cfg@, raw_path@),
{
    let path = mend_scheme(raw_path);
    let access = check_user_repo_access(path.as_str(), &cfg.lists);
    if !access.allowed {
        return Some(RouteAction::Deny);
    }
    if access.bypass {
        return Some(RouteAction::Redirect { target: ensure_scheme(path.as_str()) });
    }
    let kind = get_url_type(path.as_str());
    if cfg.cdn_enabled && kind == UrlType::Raw {
        None
    } else {
        Some(dispatch(cfg, path.as_str(), kind))
    }
}

/// A refusal by access control is final: whatever the path is, the request is
/// denied.
pub proof fn denied_is_final(cfg: ConfigView, raw: Seq<char>)
    requires
        !decision(cfg.lists, identity_of(mended(raw))).allowed,
    ensures
        routed(cfg, raw) == Some(RouteView::Deny),
{
}

/// An identity on the pass-by list is never proxied: its client is sent to
/// the normalized target.
pub proof fn bypass_is_redirect(cfg: ConfigView, raw: Seq<char>)
    requires
        decision(cfg.lists, identity_of(mended(raw))) == (AccessDecision {
            allowed: true,
            bypass: true,
        }),
    ensures
        routed(cfg, raw) == Some(RouteView::Redirect { target: normalized(raw) }),
{
}

/// Only what has a recognised shape, passed access control and the whitelist
/// is proxied, and every proxy target has a scheme.
pub proof fn proxy_is_guarded(cfg: ConfigView, raw: Seq<char>)
    requires
        routed(cfg, raw) matches Some(RouteView::Proxy { .. }),
    ensures
        url_kind(mended(raw)) != UrlType::Asset,
        decision(cfg.lists, identity_of(mended(raw))) == (AccessDecision {
            allowed: true,
            bypass: false,
        }),
        routed(cfg, raw) matches Some(RouteView::Proxy { target, .. }) && has_scheme(target),
{
    let path = mended(raw);
    if url_kind(path) == UrlType::Blob {
        lemma_with_scheme(replace_all(path, "/blob/"@, "/raw/"@));
    } else {
        lemma_with_scheme(path);
    }
}

/// The part of a request URL behind its origin and the routing prefix, by
/// their lengths; none where the URL is no longer than the two.
pub open spec fn path_behind(url: Seq<char>, origin: Seq<char>, prefix: Seq<char>) -> Option<
    Seq<char>,
> {
    if url.len() <= origin.len() + prefix.len() {
        None
    } else {
        Some(skip(url, (origin.len() + prefix.len()) as int))
    }
}

/// Cuts the origin and the routing prefix off a request URL. A URL with
/// nothing behind them has no path: the root of the static origin is served.
pub fn proxied_path<'a>(url: &'a str, origin: &str, prefix: &str) -> (r: Option<&'a str>)
    ensures
        match r {
            Some(path) => path_behind(url@, origin@, prefix@) == Some(path@),
            None => path_behind(url@, origin@, prefix@) is None,
        },
{
    let n = url.unicode_len();
    let lead = origin.unicode_len();
    let more = prefix.unicode_len();
    if n <= lead || n - lead <= more {
        None
    } else {
        Some(url.substring_char(lead + more, n))
    }
}

/// Where a request with the query parameter `q` is sent: `https://`, the
/// request's host, the routing prefix and the parameter's value.
pub fn query_redirect(host: &str, prefix: &str, q: &str) -> (r: String)
    ensures
        r@ == "https://"@ + host@ + prefix@ + q@,
{
    String::from_str("https://").concat(host).concat(prefix).concat(q)
}

} // verus!
