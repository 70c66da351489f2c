use url_normalizer::UrlNormalizer;

fn pair(k: &str, v: &str) -> (String, String) {
    (k.to_string(), v.to_string())
}

#[test]
fn tracking_param_names() {
    let n = UrlNormalizer::new();
    for k in [
        "utm_source", "utm_medium", "utm_campaign", "utm_term", "utm_content", "fbclid", "gclid",
        "msclkid", "mc_cid", "mc_eid", "ref", "referrer", "source", "campaign", "s", "_ga", "_gid",
        "igshid", "ncid",
    ] {
        assert!(n.is_tracking_param(&k.to_string()), "{}", k);
    }
    assert!(!n.is_tracking_param(&"id".to_string()));
    assert!(!n.is_tracking_param(&"Ref".to_string()));
    assert!(!n.is_tracking_param(&"".to_string()));
}

#[test]
fn clean_query_joins_kept_pairs() {
    let n = UrlNormalizer::new();
    let pairs = vec![pair("a", "1"), pair("utm_term", "x"), pair("b", ""), pair("c", "x y")];
    assert_eq!(n.clean_query(&pairs), Some("a=1&b=&c=x y".to_string()));
}

#[test]
fn clean_query_empty_when_all_tracking() {
    let n = UrlNormalizer::new();
    assert_eq!(n.clean_query(&vec![pair("ref", "x"), pair("s", "y")]), None);
    assert_eq!(n.clean_query(&Vec::new()), None);
}
