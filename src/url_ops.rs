//! The calls into the `url` crate.
//!
//! Between two calls a URL is carried as its serialization: `url` compares
//! URLs by their serialization alone, and parses a serialization of its own
//! back to the same URL. Each function below parses the text it is given,
//! makes one call on the parsed URL, and hands back plain values. What the
//! call computes is named by a spec function of the plain arguments.
use vstd::prelude::*;

verus! {

/// The serialization of `input` as parsed by `url`, or `None` where `input`
/// is not a URL.
pub uninterp spec fn url_serialization(input: Seq<char>) -> Option<Seq<char>>;

/// The scheme of the URL serialized as `text`.
pub uninterp spec fn url_scheme(text: Seq<char>) -> Seq<char>;

/// The serialization after `url` was asked to set the scheme.
pub uninterp spec fn scheme_set(text: Seq<char>, scheme: Seq<char>) -> Seq<char>;

/// The host of the URL serialized as `text`, as a string.
pub uninterp spec fn url_host(text: Seq<char>) -> Option<Seq<char>>;

/// The serialization after `url` was asked to set the host.
pub uninterp spec fn host_set(text: Seq<char>, host: Seq<char>) -> Seq<char>;

/// The decoded key/value pairs of the query, in order.
pub uninterp spec fn url_query_pairs(text: Seq<char>) -> Seq<(Seq<char>, Seq<char>)>;

/// The serialization after `url` was asked to set (or, with `None`, remove)
/// the query.
pub uninterp spec fn query_set(text: Seq<char>, query: Option<Seq<char>>) -> Seq<char>;

/// The serialization after `url` removed the fragment.
pub uninterp spec fn fragment_cleared(text: Seq<char>) -> Seq<char>;

/// The path of the URL serialized as `text`.
pub uninterp spec fn url_path(text: Seq<char>) -> Seq<char>;

/// The serialization after `url` was asked to set the path.
pub uninterp spec fn path_set(text: Seq<char>, path: Seq<char>) -> Seq<char>;

/// The characters of each key and value.
pub open spec fn pair_views(pairs: Seq<(String, String)>) -> Seq<(Seq<char>, Seq<char>)> {
    pairs.map_values(|p: (String, String)| (p.0@, p.1@))
}

/// The characters of an optional string.
pub open spec fn opt_view(s: Option<String>) -> Option<Seq<char>> {
    match s {
        Some(t) => Some(t@),
        None => None,
    }
}

/// Relies on `url::Url::parse`: whether `input` is a URL, and the
/// serialization of what was parsed.
#[verifier::external_body]
pub(crate) fn parse_url(input: &str) -> (r: Option<String>)
    ensures
        opt_view(r) == url_serialization(input@),
{
    url::Url::parse(input).ok().map(String::from)
}

/// Relies on `url::Url::scheme`.
#[verifier::external_body]
pub(crate) fn scheme_of(text: &str) -> (r: String)
    ensures
        r@ == url_scheme(text@),
{
    url::Url::parse(text).map(|u| u.scheme().to_string()).unwrap_or_default()
}

/// Relies on `url::Url::set_scheme`; a scheme that `url` refuses leaves the
/// URL as it was.
#[verifier::external_body]
pub(crate) fn with_scheme(text: &str, scheme: &str) -> (r: String)
    ensures
        r@ == scheme_set(text@, scheme@),
{
    match url::Url::parse(text) {
        Ok(mut u) => {
            let _ = u.set_scheme(scheme);
            u.into()
        },
        Err(_) => text.to_string(),
    }
}

/// Relies on `url::Url::host_str`.
#[verifier::external_body]
pub(crate) fn host_of(text: &str) -> (r: Option<String>)
    ensures
        opt_view(r) == url_host(text@),
{
    url::Url::parse(text).ok().and_then(|u| u.host_str().map(|h| h.to_string()))
}

/// Relies on `url::Url::set_host`; a host that `url` refuses leaves the URL
/// as it was.
#[verifier::external_body]
pub(crate) fn with_host(text: &str, host: &str) -> (r: String)
    ensures
        r@ == host_set(text@, host@),
{
    match url::Url::parse(text) {
        Ok(mut u) => {
            let _ = u.set_host(Some(host));
            u.into()
        },
        Err(_) => text.to_string(),
    }
}

/// Relies on `url::Url::query_pairs`: the query decoded as
/// `application/x-www-form-urlencoded`.
#[verifier::external_body]
pub(crate) fn query_pairs_of(text: &str) -> (r: Vec<(String, String)>)
    ensures
        pair_views(r@) == url_query_pairs(text@),
{
    match url::Url::parse(text) {
        Ok(u) => u.query_pairs().map(|(k, v)| (k.into_owned(), v.into_owned())).collect(),
        Err(_) => Vec::new(),
    }
}

/// Relies on `url::Url::set_query`.
#[verifier::external_body]
pub(crate) fn with_query(text: &str, query: &Option<String>) -> (r: String)
    ensures
        r@ == query_set(text@, opt_view(*query)),
{
    match url::Url::parse(text) {
        Ok(mut u) => {
            u.set_query(query.as_deref());
            u.into()
        },
        Err(_) => text.to_string(),
    }
}

/// Relies on `url::Url::set_fragment` with `None`.
#[verifier::external_body]
pub(crate) fn without_fragment(text: &str) -> (r: String)
    ensures
        r@ == fragment_cleared(text@),
{
    match url::Url::parse(text) {
        Ok(mut u) => {
            u.set_fragment(None);
            u.into()
        },
        Err(_) => text.to_string(),
    }
}

/// Relies on `url::Url::path`.
#[verifier::external_body]
pub(crate) fn path_of(text: &str) -> (r: String)
    ensures
        r@ == url_path(text@),
{
    url::Url::parse(text).map(|u| u.path().to_string()).unwrap_or_default()
}

/// Relies on `url::Url::set_path`.
#[verifier::external_body]
pub(crate) fn with_path(text: &str, path: &str) -> (r: String)
    ensures
        r@ == path_set(text@, path@),
{
    match url::Url::parse(text) {
        Ok(mut u) => {
            u.set_path(path);
            u.into()
        },
        Err(_) => text.to_string(),
    }
}

} // verus!
