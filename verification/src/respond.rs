//! The fixed responses of the proxy: the CORS preflight and the errors.

use crate::proxy::{lines, Header, Method};
use vstd::prelude::*;
use vstd::string::*;

verus! {

/// Why a request is not served.
#[derive(Clone, Copy, Debug, PartialEq, Eq, Structural)]
pub enum ErrorKind {
    /// The path gives no URL that can be parsed.
    MalformedUrl,
    /// The identity is banned or not allowed.
    AccessDenied,
    /// The whitelist does not let the URL through.
    ContentBlocked,
    /// The upstream could not be reached.
    UpstreamTransportFailure,
    /// The upstream redirected more often than the engine follows.
    RedirectLoopExceeded,
}

/// The status that an error is answered with: 403 for the two refusals, 400
/// for a malformed URL, 502 for the two upstream failures.
pub open spec fn error_status(kind: ErrorKind) -> u16 {
    match kind {
        ErrorKind::MalformedUrl => 400,
        ErrorKind::AccessDenied => 403,
        ErrorKind::ContentBlocked => 403,
        ErrorKind::UpstreamTransportFailure => 502,
        ErrorKind::RedirectLoopExceeded => 502,
    }
}

/// The plain-text body that an error is answered with.
pub open spec fn error_text(kind: ErrorKind) -> Seq<char> {
    match kind {
        ErrorKind::MalformedUrl => "malformed url"@,
        ErrorKind::AccessDenied => "User/repository access denied"@,
        ErrorKind::ContentBlocked => "blocked"@,
        ErrorKind::UpstreamTransportFailure => "upstream unreachable"@,
        ErrorKind::RedirectLoopExceeded => "too many redirects"@,
    }
}

/// The status of the response to an error.
pub fn status_of(kind: ErrorKind) -> (status: u16)
    ensures
        status == error_status(kind),
        400 <= status < 600,
{
    match kind {
        ErrorKind::MalformedUrl => 400,
        ErrorKind::AccessDenied => 403,
        ErrorKind::ContentBlocked => 403,
        ErrorKind::UpstreamTransportFailure => 502,
        ErrorKind::RedirectLoopExceeded => 502,
    }
}

/// The body of the response to an error.
pub fn body_of(kind: ErrorKind) -> (body: &'static str)
    ensures
        body@ == error_text(kind),
{
    match kind {
        ErrorKind::MalformedUrl => "malformed url",
        ErrorKind::AccessDenied => "User/repository access denied",
        ErrorKind::ContentBlocked => "blocked",
        ErrorKind::UpstreamTransportFailure => "upstream unreachable",
        ErrorKind::RedirectLoopExceeded => "too many redirects",
    }
}

/// The headers of the response to an error: a browser may read it from any
/// origin.
pub fn create_response_headers() -> (out: Vec<Header>)
    ensures
        lines(out@) == seq![("access-control-allow-origin"@, "*"@)],
{
    let mut out: Vec<Header> = Vec::new();
    out.push(
        Header { name: String::from_str("access-control-allow-origin"), value: String::from_str("*") },
    );
    assert(lines(out@) =~= seq![("access-control-allow-origin"@, "*"@)]);
    out
}

/// The headers of the answer to a CORS preflight, which has status 204 and
/// no body.
pub fn create_cors_headers() -> (out: Vec<Header>)
    ensures
        lines(out@) == seq![
            ("access-control-allow-origin"@, "*"@),
            (
                "access-control-allow-methods"@,
                "GET,POST,PUT,PATCH,TRACE,DELETE,HEAD,OPTIONS"@,
            ),
            ("access-control-max-age"@, "1728000"@),
        ],
{
    let mut out: Vec<Header> = Vec::new();
    out.push(
        Header { name: String::from_str("access-control-allow-origin"), value: String::from_str("*") },
    );
    out.push(
        Header {
            name: String::from_str("access-control-allow-methods"),
            value: String::from_str("GET,POST,PUT,PATCH,TRACE,DELETE,HEAD,OPTIONS"),
        },
    );
    out.push(
        Header {
            name: String::from_str("access-control-max-age"),
            value: String::from_str("1728000"),
        },
    );
    assert(lines(out@) =~= seq![
        ("access-control-allow-origin"@, "*"@),
        ("access-control-allow-methods"@, "GET,POST,PUT,PATCH,TRACE,DELETE,HEAD,OPTIONS"@),
        ("access-control-max-age"@, "1728000"@),
    ]);
    out
}

/// Whether a request is a CORS preflight: an OPTIONS request that carries
/// the header `access-control-request-headers`.
pub fn is_preflight(method: Method, has_request_headers: bool) -> (r: bool)
    ensures
        r == (method is Options && has_request_headers),
{
    match method {
        Method::Options => has_request_headers,
        _ => false,
    }
}

} // verus!
