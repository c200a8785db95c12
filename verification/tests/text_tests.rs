use gh_proxy::text::{
    contains, eq_ignore_case, find_slash, matches_at, replace, starts_with,
    trim_leading_slashes, trim_start_matches,
};

#[test]
fn starts_with_agrees_with_std() {
    let cases = [("", ""), ("a", ""), ("", "a"), ("abc", "ab"), ("abc", "abc"), ("abc", "abcd"),
        ("abc", "b"), ("äbc", "ä"), ("äbc", "a")];
    for (s, p) in cases {
        assert_eq!(starts_with(s, p), s.starts_with(p));
    }
}

#[test]
fn contains_agrees_with_std() {
    let cases = [("", ""), ("a", ""), ("", "a"), ("abc", "bc"), ("abc", "c"), ("abc", "abcd"),
        ("abc", "ac"), ("aab", "ab"), ("xäy", "äy")];
    for (s, p) in cases {
        assert_eq!(contains(s, p), s.contains(p));
    }
}

#[test]
fn matches_at_counts_characters() {
    assert!(matches_at("äbc", 1, "bc"));
    assert!(!matches_at("äbc", 2, "bc"));
    assert!(matches_at("abc", 3, ""));
    assert!(!matches_at("abc", 3, "c"));
}

#[test]
fn eq_ignore_case_agrees_with_std() {
    let cases = [("", ""), ("location", "location"), ("Location", "location"),
        ("LOCATION", "location"), ("location", "LoCaTiOn"), ("ab", "abc"), ("abc", "ab"),
        ("a-b", "a_b"), ("@", "`"), ("[", "{"), ("Z", "z"), ("ä", "Ä"), ("k", "K"),
        ("content-security-policy", "Content-Security-Policy")];
    for (a, b) in cases {
        assert_eq!(eq_ignore_case(a, b), a.eq_ignore_ascii_case(b));
    }
    assert!(eq_ignore_case("Clear-Site-Data", "clear-site-data"));
    assert!(!eq_ignore_case("location", "locatioN "));
}

#[test]
fn replace_agrees_with_std() {
    let cases = [
        ("github.com/foo/bar/blob/main/x.go", "/blob/", "/raw/"),
        ("a/blob/b/blob/c", "/blob/", "@"),
        ("/blob//blob/", "/blob/", "/raw/"),
        ("aaa", "aa", "b"),
        ("abc", "x", "y"),
        ("", "x", "y"),
        ("ab", "abc", "y"),
        ("äxä", "x", "öö"),
        ("abab", "ab", ""),
    ];
    for (s, from, to) in cases {
        assert_eq!(replace(s, from, to), s.replace(from, to));
    }
    assert_eq!(replace("abc", "", "x"), "abc");
}

#[test]
fn trimming_agrees_with_std() {
    assert_eq!(trim_leading_slashes("///a/b"), "a/b");
    assert_eq!(trim_leading_slashes("a/"), "a/");
    assert_eq!(trim_leading_slashes("//"), "");
    assert_eq!(trim_leading_slashes(""), "");
    assert_eq!(trim_start_matches("ababc", "ab"), "c");
    assert_eq!(trim_start_matches("abc", "b"), "abc");
    assert_eq!(trim_start_matches("abc", ""), "abc");
    assert_eq!(trim_start_matches("aaa", "a"), "");
}

#[test]
fn find_slash_gives_the_first_at_or_after() {
    assert_eq!(find_slash("a/b/c", 0), 1);
    assert_eq!(find_slash("a/b/c", 1), 1);
    assert_eq!(find_slash("a/b/c", 2), 3);
    assert_eq!(find_slash("a/b/c", 4), 5);
    assert_eq!(find_slash("abc", 0), 3);
    assert_eq!(find_slash("", 0), 0);
    assert_eq!(find_slash("ä/b", 0), 1);
}
