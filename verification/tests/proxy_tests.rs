use gh_proxy::proxy::{
    after_response, decide_hop, find_header, forwards_body, sanitize_headers, Header, HopOutcome,
    Method, MAX_HOPS,
};

fn headers(items: &[(&str, &str)]) -> Vec<Header> {
    items.iter().map(|(n, v)| Header { name: n.to_string(), value: v.to_string() }).collect()
}

fn pairs(hs: &[Header]) -> Vec<(String, String)> {
    hs.iter().map(|h| (h.name.clone(), h.value.clone())).collect()
}

fn expect(items: &[(&str, &str)]) -> Vec<(String, String)> {
    items.iter().map(|(n, v)| (n.to_string(), v.to_string())).collect()
}

#[test]
fn recognised_location_is_routed_through_the_proxy() {
    let hs = headers(&[
        ("content-type", "text/html"),
        ("location", "https://github.com/foo/bar/raw/main/x.go"),
    ]);
    match after_response(&hs, "/", 0) {
        HopOutcome::Deliver { headers } => assert_eq!(
            pairs(&headers),
            expect(&[
                ("content-type", "text/html"),
                ("location", "/https://github.com/foo/bar/raw/main/x.go"),
                ("access-control-expose-headers", "*"),
                ("access-control-allow-origin", "*"),
            ])
        ),
        other => panic!("{:?}", other),
    }
}

#[test]
fn other_location_is_followed() {
    let hs = headers(&[("location", "https://objects.githubusercontent.com/abc")]);
    match after_response(&hs, "/", 3) {
        HopOutcome::Follow { target, hops } => {
            assert_eq!(target, "https://objects.githubusercontent.com/abc");
            assert_eq!(hops, 4);
        }
        other => panic!("{:?}", other),
    }
}

#[test]
fn hop_bound_ends_the_chain() {
    let hs = headers(&[("location", "https://objects.githubusercontent.com/abc")]);
    assert_eq!(MAX_HOPS, 10);
    assert!(matches!(after_response(&hs, "/", 9), HopOutcome::Follow { hops: 10, .. }));
    assert!(matches!(after_response(&hs, "/", 10), HopOutcome::RedirectLoopExceeded));
    assert!(matches!(after_response(&hs, "/", usize::MAX), HopOutcome::RedirectLoopExceeded));
    // A recognised location is delivered however long the chain was.
    let hs = headers(&[("location", "https://github.com/foo/bar/tags")]);
    assert!(matches!(after_response(&hs, "/", 10), HopOutcome::Deliver { .. }));
}

#[test]
fn response_without_location_is_sanitized() {
    let hs = headers(&[
        ("content-security-policy", "default-src 'none'"),
        ("content-type", "application/zip"),
        ("content-security-policy-report-only", "x"),
        ("access-control-allow-origin", "https://github.com"),
        ("clear-site-data", "\"cache\""),
        ("etag", "abc"),
        ("access-control-expose-headers", "etag"),
    ]);
    match after_response(&hs, "/", 0) {
        HopOutcome::Deliver { headers } => assert_eq!(
            pairs(&headers),
            expect(&[
                ("content-type", "application/zip"),
                ("etag", "abc"),
                ("access-control-expose-headers", "*"),
                ("access-control-allow-origin", "*"),
            ])
        ),
        other => panic!("{:?}", other),
    }
}

#[test]
fn decide_hop_goes_by_the_answer_it_is_given() {
    let hs = headers(&[("location", "https://example.com/x"), ("location", "second")]);
    match decide_hop(&hs, true, "/gh/", 0) {
        HopOutcome::Deliver { headers } => assert_eq!(
            pairs(&headers),
            expect(&[
                ("location", "/gh/https://example.com/x"),
                ("access-control-expose-headers", "*"),
                ("access-control-allow-origin", "*"),
            ])
        ),
        other => panic!("{:?}", other),
    }
    assert!(matches!(decide_hop(&hs, false, "/gh/", 0), HopOutcome::Follow { hops: 1, .. }));
    assert!(matches!(decide_hop(&headers(&[]), true, "/", 0), HopOutcome::Deliver { .. }));
    assert!(matches!(decide_hop(&headers(&[]), false, "/", 99), HopOutcome::Deliver { .. }));
}

#[test]
fn sanitize_keeps_location_unless_relocated() {
    let hs = headers(&[("location", "a"), ("x", "y")]);
    assert_eq!(
        pairs(&sanitize_headers(&hs, None)),
        expect(&[
            ("location", "a"),
            ("x", "y"),
            ("access-control-expose-headers", "*"),
            ("access-control-allow-origin", "*"),
        ])
    );
    assert_eq!(
        pairs(&sanitize_headers(&hs, Some("b".to_string()))),
        expect(&[
            ("x", "y"),
            ("location", "b"),
            ("access-control-expose-headers", "*"),
            ("access-control-allow-origin", "*"),
        ])
    );
}

#[test]
fn find_header_gives_the_first() {
    let hs = headers(&[("a", "1"), ("b", "2"), ("a", "3")]);
    assert_eq!(find_header(&hs, "a"), Some(&"1".to_string()));
    assert_eq!(find_header(&hs, "b"), Some(&"2".to_string()));
    assert_eq!(find_header(&hs, "c"), None);
    assert_eq!(find_header(&hs, "A"), Some(&"1".to_string()));
    let hs = headers(&[("X", "0"), ("Location", "there"), ("location", "later")]);
    assert_eq!(find_header(&hs, "location"), Some(&"there".to_string()));
}

#[test]
fn header_names_are_compared_without_case() {
    let hs = headers(&[
        ("Content-Security-Policy", "default-src 'none'"),
        ("Content-Type", "text/html"),
        ("CLEAR-SITE-DATA", "*"),
        ("Access-Control-Allow-Origin", "https://github.com"),
        ("Location", "https://github.com/foo/bar/raw/main/x.go"),
    ]);
    match after_response(&hs, "/", 1) {
        HopOutcome::Deliver { headers } => assert_eq!(
            pairs(&headers),
            expect(&[
                ("Content-Type", "text/html"),
                ("location", "/https://github.com/foo/bar/raw/main/x.go"),
                ("access-control-expose-headers", "*"),
                ("access-control-allow-origin", "*"),
            ])
        ),
        other => panic!("{:?}", other),
    }
    let hs = headers(&[("Location", "https://objects.githubusercontent.com/abc")]);
    assert!(matches!(after_response(&hs, "/", 1), HopOutcome::Follow { hops: 2, .. }));
}

#[test]
fn a_chain_of_redirects_ends_after_ten_fetches() {
    let hs = headers(&[("location", "https://objects.githubusercontent.com/abc")]);
    let mut fetches: usize = 1;
    loop {
        match after_response(&hs, "/", fetches) {
            HopOutcome::Follow { hops, .. } => {
                assert_eq!(hops, fetches + 1);
                fetches = hops;
            }
            HopOutcome::RedirectLoopExceeded => break,
            other => panic!("{:?}", other),
        }
    }
    assert_eq!(fetches, 10);
}

#[test]
fn body_goes_with_every_method_but_get_and_head() {
    assert!(!forwards_body(Method::Get));
    assert!(!forwards_body(Method::Head));
    for m in [Method::Post, Method::Put, Method::Patch, Method::Delete, Method::Options,
        Method::Connect, Method::Trace, Method::Report]
    {
        assert!(forwards_body(m));
    }
}
