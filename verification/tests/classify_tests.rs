use gh_proxy::classify::{check_url, get_url_type, pattern_hit, select_url_type, UrlType};
use gh_proxy::classify::{BLOB_PATTERN, GIT_PATTERN, RELEASE_PATTERN, TAGS_PATTERN};

#[test]
fn release_download_is_release() {
    assert_eq!(
        get_url_type("github.com/foo/bar/releases/download/v1/a.zip"),
        UrlType::Release
    );
    assert_eq!(
        get_url_type("https://github.com/foo/bar/archive/refs/heads/main.zip"),
        UrlType::Release
    );
}

#[test]
fn raw_file_is_raw() {
    assert_eq!(
        get_url_type("raw.githubusercontent.com/foo/bar/main/README.md"),
        UrlType::Raw
    );
    assert_eq!(get_url_type("http://raw.github.com/foo/bar/main/README.md"), UrlType::Raw);
}

#[test]
fn blob_and_raw_view_are_blob() {
    assert_eq!(get_url_type("github.com/foo/bar/blob/main/x.go"), UrlType::Blob);
    assert_eq!(get_url_type("https://github.com/foo/bar/raw/main/x.go"), UrlType::Blob);
}

#[test]
fn git_endpoints_are_git() {
    assert_eq!(get_url_type("https://github.com/foo/bar/info/refs"), UrlType::Git);
    assert_eq!(get_url_type("github.com/foo/bar/git-upload-pack"), UrlType::Git);
}

#[test]
fn gist_is_gist() {
    assert_eq!(
        get_url_type("gist.githubusercontent.com/foo/0123abcd/raw/file.txt"),
        UrlType::Gist
    );
    assert_eq!(get_url_type("https://gist.github.com/foo/0123abcd/raw"), UrlType::Gist);
}

#[test]
fn tags_is_tags() {
    assert_eq!(get_url_type("github.com/foo/bar/tags"), UrlType::Tags);
    assert_eq!(get_url_type("https://github.com/foo/bar/tags?after=v1"), UrlType::Tags);
}

#[test]
fn anything_else_is_asset() {
    assert_eq!(get_url_type(""), UrlType::Asset);
    assert_eq!(get_url_type("favicon.ico"), UrlType::Asset);
    assert_eq!(get_url_type("example.com/foo/bar/releases/x"), UrlType::Asset);
    assert_eq!(get_url_type("github.com/foo"), UrlType::Asset);
    assert_eq!(get_url_type("github.com/foo/bar"), UrlType::Asset);
    assert_eq!(get_url_type("ftp://github.com/foo/bar/releases/x"), UrlType::Asset);
    assert_eq!(get_url_type("x github.com/foo/bar/releases/x"), UrlType::Asset);
}

#[test]
fn owner_and_repository_are_single_segments() {
    // The keyword counts only as the third segment.
    assert_eq!(get_url_type("github.com/foo/bar/tags/blob/x"), UrlType::Tags);
    assert_eq!(get_url_type("github.com/foo/bar/releases/blob/x"), UrlType::Release);
    assert_eq!(get_url_type("github.com/foo/bar/blob/releases/x"), UrlType::Blob);
    assert_eq!(get_url_type("github.com/foo/bar/baz/releases/x"), UrlType::Asset);
    assert_eq!(get_url_type("github.com/foo/bar/baz/blob/x"), UrlType::Asset);
    assert_eq!(get_url_type("github.com/foo/bar/baz/tags"), UrlType::Asset);
    assert_eq!(get_url_type("github.com//bar/releases/x"), UrlType::Asset);
    assert_eq!(get_url_type("github.com/foo//releases/x"), UrlType::Asset);
    assert_eq!(get_url_type("github.com/fo\no/bar/releases/x"), UrlType::Asset);
    assert_eq!(get_url_type("raw.githubusercontent.com/foo/bar/main"), UrlType::Asset);
    assert_eq!(get_url_type("raw.githubusercontent.com/foo/bar//x"), UrlType::Asset);
    assert_eq!(get_url_type("gist.github.com/foo/0123"), UrlType::Asset);
}

#[test]
fn github_shapes_are_disjoint() {
    let urls = [
        "github.com/foo/bar/releases/download/v1/a.zip",
        "github.com/foo/bar/archive/main.zip",
        "github.com/foo/bar/blob/main/x.go",
        "github.com/foo/bar/raw/main/x.go",
        "github.com/foo/bar/info/refs",
        "github.com/foo/bar/git-upload-pack",
        "github.com/foo/bar/tags",
        "github.com/foo/bar/tags/blob/x",
        "github.com/foo/bar/releases/blob/x",
        "github.com/foo/bar/blob/tags/releases/",
    ];
    for url in urls {
        let hits = [RELEASE_PATTERN, BLOB_PATTERN, GIT_PATTERN, TAGS_PATTERN]
            .iter()
            .filter(|pattern| pattern_hit(pattern, url))
            .count();
        assert_eq!(hits, 1);
    }
}

#[test]
fn classification_is_repeatable() {
    let urls = [
        "github.com/foo/bar/releases/download/v1/a.zip",
        "github.com/foo/bar/blob/main/x.go",
        "raw.githubusercontent.com/foo/bar/main/README.md",
        "nothing/here",
    ];
    for url in urls {
        assert_eq!(get_url_type(url), get_url_type(url));
        assert_eq!(check_url(url), get_url_type(url) != UrlType::Asset);
    }
}

#[test]
fn check_url_recognises_the_six_shapes() {
    assert!(check_url("https://github.com/foo/bar/releases/download/v1/a.zip"));
    assert!(check_url("https://github.com/foo/bar/raw/main/x.go"));
    assert!(check_url("https://github.com/foo/bar/info/refs"));
    assert!(check_url("https://raw.githubusercontent.com/foo/bar/main/README.md"));
    assert!(check_url("https://gist.github.com/foo/0123abcd/raw"));
    assert!(check_url("https://github.com/foo/bar/tags"));
    assert!(!check_url("https://objects.githubusercontent.com/github-production-release-asset"));
    assert!(!check_url("https://example.com/"));
}

#[test]
fn a_line_break_ends_the_match() {
    assert!(!check_url("github.com/foo/bar/releases/a\nb"));
}

#[test]
fn rejected_pattern_matches_nothing() {
    assert!(!pattern_hit("(?<=com/.+?/.+?)/(.+?)/", "raw.githubusercontent.com/a/b/c/d"));
    assert!(!pattern_hit("foo(bar", "foo(bar"));
    assert!(pattern_hit("^a+$", "aaa"));
    assert!(!pattern_hit("^a+$", "aab"));
}

#[test]
fn select_url_type_follows_the_order() {
    assert_eq!(select_url_type(true, true, true, true, true, true), UrlType::Release);
    assert_eq!(select_url_type(false, true, true, true, true, true), UrlType::Blob);
    assert_eq!(select_url_type(false, false, true, true, true, true), UrlType::Git);
    assert_eq!(select_url_type(false, false, false, true, true, true), UrlType::Raw);
    assert_eq!(select_url_type(false, false, false, false, true, true), UrlType::Gist);
    assert_eq!(select_url_type(false, false, false, false, false, true), UrlType::Tags);
    assert_eq!(select_url_type(false, false, false, false, false, false), UrlType::Asset);
}
