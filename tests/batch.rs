use url_normalizer::UrlNormalizer;

fn some(s: &str) -> Option<String> {
    Some(s.to_string())
}

#[test]
fn dedupe_keeps_first_in_order() {
    let n = UrlNormalizer::new();
    let r = n.normalize_batch(vec![some("https://a.com/"), some("https://a.com"), some("https://b.com/")]);
    assert_eq!(r, vec!["https://a.com/".to_string(), "https://b.com/".to_string()]);
}

#[test]
fn dedupe_collapses_equivalent_forms() {
    let n = UrlNormalizer::new();
    let r = n.normalize_batch(vec![
        some("http://twitter.com/u/?utm_source=a"),
        some("https://b.com/x"),
        some("https://x.com/u#top"),
        some("https://www.twitter.com/u/"),
    ]);
    assert_eq!(r, vec!["https://x.com/u".to_string(), "https://b.com/x".to_string()]);
}

#[test]
fn dedupe_skips_non_strings() {
    let n = UrlNormalizer::new();
    let r = n.normalize_batch(vec![None, some("junk"), None, some("junk")]);
    assert_eq!(r, vec!["junk".to_string()]);
    assert!(n.normalize_batch(Vec::new()).is_empty());
}

#[test]
fn stats_counts() {
    let n = UrlNormalizer::new();
    let st = n.normalize_batch_with_stats(vec![
        some("https://a.com/"),
        some("https://a.com"),
        None,
        some("https://b.com/"),
    ]);
    assert_eq!(st.urls, vec!["https://a.com/".to_string(), "https://b.com/".to_string()]);
    assert_eq!(st.original, 4);
    assert_eq!(st.unique, 2);
    assert_eq!(st.duplicates, 2);
    assert_eq!(st.original, st.unique + st.duplicates);
}

#[test]
fn stats_empty() {
    let n = UrlNormalizer::new();
    let st = n.normalize_batch_with_stats(Vec::new());
    assert!(st.urls.is_empty());
    assert_eq!((st.original, st.unique, st.duplicates), (0, 0, 0));
}
