//! The decisions of the proxy engine: what to do with an upstream response.
//!
//! The runtime sends the request and hands the response's headers to
//! [`after_response`]; it then delivers the response, or sends the next
//! request, as the outcome says. Header names are compared without regard to
//! the case of their ASCII letters.

use crate::classify::{check_url, recognized};
use crate::text::{eq_ignore_case, same_name};
use vstd::prelude::*;
use vstd::string::*;

verus! {

/// The largest number of outbound fetches that one request may cause.
pub const MAX_HOPS: usize = 10;

/// An HTTP request method.
#[derive(Clone, Copy, Debug, PartialEq, Eq, Structural)]
pub enum Method {
    Get,
    Head,
    Post,
    Put,
    Patch,
    Delete,
    Options,
    Connect,
    Trace,
    Report,
}

/// One header line.
#[derive(Debug)]
pub struct Header {
    pub name: String,
    pub value: String,
}

impl View for Header {
    type V = (Seq<char>, Seq<char>);

    open spec fn view(&self) -> (Seq<char>, Seq<char>) {
        (self.name@, self.value@)
    }
}

/// The name and value of each header of a list, in order.
pub open spec fn lines(headers: Seq<Header>) -> Seq<(Seq<char>, Seq<char>)> {
    Seq::new(headers.len(), |i: int| headers[i]@)
}

/// What the engine does after an upstream response.
#[derive(Debug)]
pub enum HopOutcome {
    /// Hand the response to the client, status and body untouched, with
    /// these headers.
    Deliver { headers: Vec<Header> },
    /// Send the same inbound request to `target`: the fetch with the number
    /// `hops`.
    Follow { target: String, hops: usize },
    /// The next fetch would be one more than [`MAX_HOPS`]: a gateway error.
    RedirectLoopExceeded,
}

/// The mathematical value of a [`HopOutcome`].
pub enum HopOutcomeView {
    Deliver { headers: Seq<(Seq<char>, Seq<char>)> },
    Follow { target: Seq<char>, hops: nat },
    RedirectLoopExceeded,
}

impl View for HopOutcome {
    type V = HopOutcomeView;

    open spec fn view(&self) -> HopOutcomeView {
        match self {
            HopOutcome::Deliver { headers } => HopOutcomeView::Deliver { headers: lines(headers@) },
            HopOutcome::Follow { target, hops } => HopOutcomeView::Follow {
                target: target@,
                hops: *hops as nat,
            },
            HopOutcome::RedirectLoopExceeded => HopOutcomeView::RedirectLoopExceeded,
        }
    }
}

/// A header that is never passed on to the client.
pub open spec fn is_stripped(name: Seq<char>) -> bool {
    same_name(name, "content-security-policy"@) || same_name(
        name,
        "content-security-policy-report-only"@,
    ) || same_name(name, "clear-site-data"@)
}

/// A header whose upstream value is replaced: the two CORS headers always,
/// `location` where the response is relocated.
pub open spec fn is_replaced(name: Seq<char>, relocate: bool) -> bool {
    same_name(name, "access-control-expose-headers"@) || same_name(
        name,
        "access-control-allow-origin"@,
    ) || (relocate && same_name(name, "location"@))
}

/// The first `n` upstream headers without those stripped or replaced.
pub open spec fn retained(hs: Seq<(Seq<char>, Seq<char>)>, relocate: bool, n: int) -> Seq<
    (Seq<char>, Seq<char>),
>
    decreases n,
{
    if n <= 0 {
        Seq::empty()
    } else if is_stripped(hs[n - 1].0) || is_replaced(hs[n - 1].0, relocate) {
        retained(hs, relocate, n - 1)
    } else {
        retained(hs, relocate, n - 1).push(hs[n - 1])
    }
}

/// The headers handed to the client: the upstream headers that are neither
/// stripped nor replaced, in their order, then the new `location` where there
/// is one, then the two permissive CORS headers.
pub open spec fn sanitized(hs: Seq<(Seq<char>, Seq<char>)>, location: Option<Seq<char>>) -> Seq<
    (Seq<char>, Seq<char>),
> {
    let kept = retained(hs, location is Some, hs.len() as int);
    let moved = match location {
        Some(target) => kept.push(("location"@, target)),
        None => kept,
    };
    moved.push(("access-control-expose-headers"@, "*"@)).push(
        ("access-control-allow-origin"@, "*"@),
    )
}

/// The value of the first header named `name`, whatever the case of its
/// letters, at or after index `from`; none where there is no such header.
pub open spec fn first_value(hs: Seq<(Seq<char>, Seq<char>)>, name: Seq<char>, from: int) -> Option<
    Seq<char>,
>
    decreases hs.len() - from,
{
    if from < 0 || from >= hs.len() {
        None
    } else if same_name(hs[from].0, name) {
        Some(hs[from].1)
    } else {
        first_value(hs, name, from + 1)
    }
}

/// The outcome for upstream headers `hs`, where `known` says whether the
/// `location` among them has a recognised shape, behind routing prefix
/// `prefix`, after `hops` fetches were made for the request, the one that
/// brought these headers counted.
pub open spec fn hop_outcome(
    hs: Seq<(Seq<char>, Seq<char>)>,
    known: bool,
    prefix: Seq<char>,
    hops: nat,
) -> HopOutcomeView {
    match first_value(hs, "location"@, 0) {
        None => HopOutcomeView::Deliver { headers: sanitized(hs, None) },
        Some(location) => if known {
            HopOutcomeView::Deliver { headers: sanitized(hs, Some(prefix + location)) }
        } else if hops >= MAX_HOPS {
            HopOutcomeView::RedirectLoopExceeded
        } else {
            HopOutcomeView::Follow { target: location, hops: hops + 1 }
        },
    }
}

/// None of the first `n` retained headers is one that is stripped or
/// replaced.
pub proof fn lemma_retained_clean(hs: Seq<(Seq<char>, Seq<char>)>, relocate: bool, n: int)
    ensures
        forall|i: int|
            0 <= i < retained(hs, relocate, n).len() ==> !is_stripped(
                (#[trigger] retained(hs, relocate, n)[i]).0,
            ) && !is_replaced(retained(hs, relocate, n)[i].0, relocate),
    decreases n,
{
    if n > 0 {
        lemma_retained_clean(hs, relocate, n - 1);
        let before = retained(hs, relocate, n - 1);
        let now = retained(hs, relocate, n);
        assert forall|i: int| 0 <= i < now.len() implies !is_stripped((#[trigger] now[i]).0)
            && !is_replaced(now[i].0, relocate) by {
            if i < before.len() {
                assert(now[i] == before[i]);
            }
        }
    }
}

/// No header that is handed to the client is a content-security or
/// clear-site-data header, and the last two are the permissive CORS headers.
pub proof fn sanitized_is_clean(hs: Seq<(Seq<char>, Seq<char>)>, location: Option<Seq<char>>)
    ensures
        forall|i: int|
            0 <= i < sanitized(hs, location).len() ==> !is_stripped(
                (#[trigger] sanitized(hs, location)[i]).0,
            ),
        sanitized(hs, location).len() >= 2,
        sanitized(hs, location).last() == ("access-control-allow-origin"@, "*"@),
        sanitized(hs, location)[sanitized(hs, location).len() - 2] == (
            "access-control-expose-headers"@,
            "*"@,
        ),
{
    reveal_strlit("content-security-policy");
    reveal_strlit("content-security-policy-report-only");
    reveal_strlit("clear-site-data");
    reveal_strlit("location");
    reveal_strlit("access-control-expose-headers");
    reveal_strlit("access-control-allow-origin");
    lemma_retained_clean(hs, location is Some, hs.len() as int);
    let kept = retained(hs, location is Some, hs.len() as int);
    let out = sanitized(hs, location);
    assert("content-security-policy"@.len() == 23);
    assert("content-security-policy-report-only"@.len() == 35);
    assert("clear-site-data"@.len() == 15);
    assert("location"@.len() == 8);
    assert("access-control-expose-headers"@.len() == 29);
    assert("access-control-allow-origin"@.len() == 27);
    assert forall|i: int| 0 <= i < out.len() implies !is_stripped((#[trigger] out[i]).0) by {
        if i < kept.len() {
            assert(out[i] == kept[i]);
        }
    }
}

/// Whether the outbound request carries the inbound body: every method but
/// GET and HEAD does.
pub fn forwards_body(method: Method) -> (r: bool)
    ensures
        r == !(method is Get || method is Head),
{
    match method {
        Method::Get => false,
        Method::Head => false,
        _ => true,
    }
}

/// Looks up the first header with the given name, whatever the case of its
/// letters.
pub fn find_header<'a>(headers: &'a Vec<Header>, name: &str) -> (r: Option<&'a String>)
    ensures
        match r {
            Some(value) => first_value(lines(headers@), name@, 0) == Some(value@),
            None => first_value(lines(headers@), name@, 0) is None,
        },
{
    let mut i: usize = 0;
    while i < headers.len()
        invariant
            i <= headers.len(),
            first_value(lines(headers@), name@, 0) == first_value(lines(headers@), name@, i as int),
        decreases headers.len() - i,
    {
        if eq_ignore_case(headers[i].name.as_str(), name) {
            return Some(&headers[i].value);
        }
        i += 1;
    }
    None
}

fn is_stripped_name(name: &str) -> (r: bool)
    ensures
        r == is_stripped(name@),
{
    eq_ignore_case(name, "content-security-policy") || eq_ignore_case(
        name,
        "content-security-policy-report-only",
    ) || eq_ignore_case(name, "clear-site-data")
}

fn is_replaced_name(name: &str, relocate: bool) -> (r: bool)
    ensures
        r == is_replaced(name@, relocate),
{
    eq_ignore_case(name, "access-control-expose-headers") || eq_ignore_case(
        name,
        "access-control-allow-origin",
    ) || (relocate && eq_ignore_case(name, "location"))
}

/// Builds the headers of the response handed to the client: strips the
/// content-security and clear-site-data headers, sets the two permissive CORS
/// headers, and sets `location` where a new one is given.
pub fn sanitize_headers(headers: &Vec<Header>, location: Option<String>) -> (out: Vec<Header>)
    ensures
        lines(out@) == sanitized(
            lines(headers@),
            match location {
                Some(target) => Some(target@),
                None => None,
            },
        ),
{
    let relocate = location.is_some();
    let ghost hs = lines(headers@);
    let mut out: Vec<Header> = Vec::new();
    let mut i: usize = 0;
    assert(lines(out@) =~= retained(hs, relocate, 0));
    while i < headers.len()
        invariant
            i <= headers.len(),
            hs == lines(headers@),
            lines(out@) == retained(hs, relocate, i as int),
        decreases headers.len() - i,
    {
        let name = headers[i].name.as_str();
        let ghost before = lines(out@);
        if !is_stripped_name(name) && !is_replaced_name(name, relocate) {
            out.push(Header { name: headers[i].name.clone(), value: headers[i].value.clone() });
            assert(lines(out@) =~= before.push(hs[i as int]));
        }
        i += 1;
    }
    let ghost kept = lines(out@);
    match location {
        Some(target) => {
            out.push(Header { name: String::from_str("location"), value: target });
            assert(lines(out@) =~= kept.push(("location"@, target@)));
        },
        None => {},
    }
    let ghost moved = lines(out@);
    out.push(
        Header { name: String::from_str("access-control-expose-headers"), value: String::from_str("*") },
    );
    let ghost exposed = lines(out@);
    assert(exposed =~= moved.push(("access-control-expose-headers"@, "*"@)));
    out.push(
        Header { name: String::from_str("access-control-allow-origin"), value: String::from_str("*") },
    );
    assert(lines(out@) =~= exposed.push(("access-control-allow-origin"@, "*"@)));
    out
}

/// Decides what follows an upstream response, given whether its `location`
/// has a recognised shape.
///
/// Without a `location` the response is delivered with sanitized headers.
/// With a recognised one it is delivered too, its `location` rewritten to
/// lead back through the proxy. Any other `location` is where the next fetch
/// goes, unless [`MAX_HOPS`] fetches were made already.
pub fn decide_hop(headers: &Vec<Header>, known: bool, prefix: &str, hops: usize) -> (r: HopOutcome)
    ensures
        r@ == hop_outcome(lines(headers@), known, prefix@, hops as nat),
{
    match find_header(headers, "location") {
        None => HopOutcome::Deliver { headers: sanitize_headers(headers, None) },
        Some(location) => {
            if known {
                let mut target = String::from_str(prefix);
                target.append(location.as_str());
                HopOutcome::Deliver { headers: sanitize_headers(headers, Some(target)) }
            } else if hops >= MAX_HOPS {
                HopOutcome::RedirectLoopExceeded
            } else {
                HopOutcome::Follow { target: location.clone(), hops: hops + 1 }
            }
        },
    }
}

/// Whether the `location` among the headers, if any, has a recognised shape.
pub open spec fn location_known(hs: Seq<(Seq<char>, Seq<char>)>) -> bool {
    match first_value(hs, "location"@, 0) {
        Some(location) => recognized(location),
        None => false,
    }
}

/// Decides what follows an upstream response with the given headers, behind
/// routing prefix `prefix`. `hops` is the number of fetches made for the
/// request so far, the one that brought this response counted: 1 after the
/// first.
pub fn after_response(headers: &Vec<Header>, prefix: &str, hops: usize) -> (r: HopOutcome)
    ensures
        r@ == hop_outcome(lines(headers@), location_known(lines(headers@)), prefix@, hops as nat),
        hops >= MAX_HOPS ==> !(r is Follow),
        r matches HopOutcome::Follow { hops: next, .. } ==> next == hops + 1 && next <= MAX_HOPS,
{
    let known = match find_header(headers, "location") {
        Some(location) => check_url(location.as_str()),
        None => false,
    };
    decide_hop(headers, known, prefix, hops)
}

} // verus!
