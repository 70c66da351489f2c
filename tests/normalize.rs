use url_normalizer::rules::{canonical_host, path_without_trailing_slash, same_text, upgraded_scheme};
use url_normalizer::UrlNormalizer;

fn norm(s: &str) -> String {
    UrlNormalizer::new().normalize(s)
}

#[test]
fn scheme_http_becomes_https() {
    assert_eq!(norm("http://example.com"), "https://example.com/");
    assert_eq!(norm("http://example.com/page"), "https://example.com/page");
}

#[test]
fn scheme_other_left_alone() {
    assert_eq!(norm("ftp://example.com"), "ftp://example.com/");
    assert_eq!(norm("https://example.com/x"), "https://example.com/x");
    assert_eq!(norm("HTTP://example.com/x"), "https://example.com/x");
}

#[test]
fn alias_twitter_hosts() {
    assert_eq!(norm("https://www.twitter.com/a"), "https://x.com/a");
    assert_eq!(norm("https://twitter.com/a"), "https://x.com/a");
    assert_eq!(norm("http://mobile.twitter.com/a"), "https://x.com/a");
}

#[test]
fn alias_reddit_hosts() {
    assert_eq!(norm("https://old.reddit.com/r/x"), "https://reddit.com/r/x");
    assert_eq!(norm("https://www.reddit.com/r/x"), "https://reddit.com/r/x");
    assert_eq!(norm("https://new.reddit.com/r/x"), "https://reddit.com/r/x");
}

#[test]
fn alias_is_exact() {
    assert_eq!(norm("https://m.twitter.com/a"), "https://m.twitter.com/a");
    assert_eq!(norm("https://reddit.com/r/x"), "https://reddit.com/r/x");
}

#[test]
fn tracking_params_stripped() {
    assert_eq!(
        norm("https://example.com/?utm_source=x&id=5"),
        "https://example.com/?id=5"
    );
    let only = norm("https://example.com/?utm_source=x");
    assert!(!only.contains('?'));
    assert_eq!(only, "https://example.com/");
}

#[test]
fn tracking_params_order_kept() {
    assert_eq!(
        norm("https://example.com/p?b=2&fbclid=1&a=1&s=q&gclid=z"),
        "https://example.com/p?b=2&a=1"
    );
}

#[test]
fn tracking_params_case_sensitive() {
    assert_eq!(
        norm("https://example.com/p?UTM_SOURCE=x"),
        "https://example.com/p?UTM_SOURCE=x"
    );
}

#[test]
fn fragment_removed() {
    assert_eq!(norm("https://example.com/#section"), "https://example.com/");
    assert_eq!(norm("https://example.com/a?id=1#top"), "https://example.com/a?id=1");
}

#[test]
fn trailing_slash_trimmed() {
    assert_eq!(norm("https://example.com/a/"), "https://example.com/a");
    assert_eq!(norm("https://example.com/a///"), "https://example.com/a");
    assert_eq!(norm("https://example.com/a/b/?id=1"), "https://example.com/a/b?id=1");
}

#[test]
fn root_path_kept() {
    assert_eq!(norm("https://example.com/"), "https://example.com/");
}

#[test]
fn all_rules_together() {
    assert_eq!(
        norm("http://www.twitter.com/user/?utm_medium=a&q=1#frag"),
        "https://x.com/user?q=1"
    );
}

#[test]
fn not_a_url_unchanged() {
    assert_eq!(norm("not a url"), "not a url");
    assert_eq!(norm(""), "");
    assert_eq!(norm("example.com/path/"), "example.com/path/");
    assert_eq!(norm("http://"), "http://");
}

#[test]
fn normalize_twice_same_on_plain_urls() {
    for u in [
        "http://www.twitter.com/a/?utm_source=x&id=5#f",
        "https://old.reddit.com/r/x/",
        "ftp://example.com/dir/",
    ] {
        let once = norm(u);
        assert_eq!(norm(&once), once);
    }
}

#[test]
fn helper_same_text() {
    assert!(same_text("abc", "abc"));
    assert!(!same_text("abc", "abd"));
    assert!(!same_text("abc", "ab"));
    assert!(same_text("", ""));
}

#[test]
fn helper_upgraded_scheme() {
    assert_eq!(upgraded_scheme("http"), Some("https"));
    assert_eq!(upgraded_scheme("https"), None);
    assert_eq!(upgraded_scheme("ftp"), None);
}

#[test]
fn helper_canonical_host() {
    assert_eq!(canonical_host("mobile.twitter.com"), Some("x.com"));
    assert_eq!(canonical_host("old.reddit.com"), Some("reddit.com"));
    assert_eq!(canonical_host("x.com"), None);
    assert_eq!(canonical_host("Twitter.com"), None);
}

#[test]
fn helper_path_without_trailing_slash() {
    assert_eq!(path_without_trailing_slash("/a/"), Some("/a"));
    assert_eq!(path_without_trailing_slash("/a/b//"), Some("/a/b"));
    assert_eq!(path_without_trailing_slash("/"), None);
    assert_eq!(path_without_trailing_slash("/a"), None);
    assert_eq!(path_without_trailing_slash(""), None);
}
