//! The normalizer: one URL at a time, and batches deduplicated by canonical
//! form.
use vstd::prelude::*;
use vstd::string::StringExecFns;
use crate::rules::{
    canonical_host,
    cleaned_query,
    host_alias,
    is_tracking,
    kept_pairs,
    joined,
    pair_text,
    path_without_trailing_slash,
    tracking_names,
    trimmed_path,
    upgraded_scheme,
};
use crate::url_ops::{
    fragment_cleared,
    host_of,
    host_set,
    opt_view,
    pair_views,
    parse_url,
    path_of,
    path_set,
    query_pairs_of,
    query_set,
    scheme_of,
    scheme_set,
    url_host,
    url_path,
    url_query_pairs,
    url_scheme,
    url_serialization,
    with_host,
    with_path,
    with_query,
    with_scheme,
    without_fragment,
};

verus! {

/// Rule one on a serialized URL.
pub open spec fn after_scheme(text: Seq<char>) -> Seq<char> {
    if url_scheme(text) == "http"@ {
        scheme_set(text, "https"@)
    } else {
        text
    }
}

/// Rule two on a serialized URL.
pub open spec fn after_host(text: Seq<char>) -> Seq<char> {
    match url_host(text) {
        Some(h) => match host_alias(h) {
            Some(c) => host_set(text, c),
            None => text,
        },
        None => text,
    }
}

/// Rule three on a serialized URL.
pub open spec fn after_query(text: Seq<char>) -> Seq<char> {
    query_set(text, cleaned_query(url_query_pairs(text)))
}

/// Rule five on a serialized URL.
pub open spec fn after_path(text: Seq<char>) -> Seq<char> {
    match trimmed_path(url_path(text)) {
        Some(p) => path_set(text, p),
        None => text,
    }
}

/// The five rules, in order, on a serialized URL.
pub open spec fn rewritten(text: Seq<char>) -> Seq<char> {
    after_path(fragment_cleared(after_query(after_host(after_scheme(text)))))
}

/// The canonical form of `input`: the rewritten URL, or `input` itself where
/// it is not a URL.
pub open spec fn normalized(input: Seq<char>) -> Seq<char> {
    match url_serialization(input) {
        Some(text) => rewritten(text),
        None => input,
    }
}

/// Rewrites URLs to a canonical form.
pub struct UrlNormalizer {
    tracking_params: Vec<String>,
}

impl UrlNormalizer {
    /// The tracking parameter names that this normalizer drops.
    pub closed spec fn tracking_view(&self) -> Seq<Seq<char>> {
        self.tracking_params@.map_values(|s: String| s@)
    }

    /// Holds the fixed list of tracking parameters.
    pub open spec fn wf(&self) -> bool {
        self.tracking_view() == tracking_names()
    }

    pub fn new() -> (r: Self)
        ensures
            r.wf(),
    {
        let mut v: Vec<String> = Vec::new();
        v.push(String::from_str("utm_source"));
        v.push(String::from_str("utm_medium"));
        v.push(String::from_str("utm_campaign"));
        v.push(String::from_str("utm_term"));
        v.push(String::from_str("utm_content"));
        v.push(String::from_str("fbclid"));
        v.push(String::from_str("gclid"));
        v.push(String::from_str("msclkid"));
        v.push(String::from_str("mc_cid"));
        v.push(String::from_str("mc_eid"));
        v.push(String::from_str("ref"));
        v.push(String::from_str("referrer"));
        v.push(String::from_str("source"));
        v.push(String::from_str("campaign"));
        v.push(String::from_str("s"));
        v.push(String::from_str("_ga"));
        v.push(String::from_str("_gid"));
        v.push(String::from_str("igshid"));
        v.push(String::from_str("ncid"));
        let r = UrlNormalizer { tracking_params: v };
        assert(r.tracking_view() =~= tracking_names());
        r
    }

    /// Whether `key` is one of the tracking parameters.
    pub fn is_tracking_param(&self, key: &String) -> (r: bool)
        requires
            self.wf(),
        ensures
            r == is_tracking(key@),
    {
        let n = self.tracking_params.len();
        let mut i: usize = 0;
        while i < n
            invariant
                self.wf(),
                n == self.tracking_params@.len(),
                i <= n,
                forall|j: int| 0 <= j < i ==> self.tracking_view()[j] != key@,
            decreases n - i,
        {
            if *key == self.tracking_params[i] {
                assert(self.tracking_view()[i as int] == key@);
                return true;
            }
            i = i + 1;
        }
        false
    }

    /// The query left once the tracking pairs are dropped, as `key=value`
    /// joined by `&`; `None` where no pair is left.
    pub fn clean_query(&self, pairs: &Vec<(String, String)>) -> (r: Option<String>)
        requires
            self.wf(),
        ensures
            opt_view(r) == cleaned_query(pair_views(pairs@)),
    {
        let n = pairs.len();
        let mut out = String::new();
        let mut any = false;
        let mut i: usize = 0;
        while i < n
            invariant
                self.wf(),
                n == pairs@.len(),
                i <= n,
                any == (kept_pairs(pair_views(pairs@).subrange(0, i as int)).len() > 0),
                out@ == joined(kept_pairs(pair_views(pairs@).subrange(0, i as int))),
            decreases n - i,
        {
            let ghost pv = pair_views(pairs@);
            assert(pv.subrange(0, i + 1).drop_last() =~= pv.subrange(0, i as int));
            assert(pv.subrange(0, i + 1).last() == pv[i as int]);
            if !self.is_tracking_param(&pairs[i].0) {
                if any {
                    out.append("&");
                }
                out.append(pairs[i].0.as_str());
                out.append("=");
                out.append(pairs[i].1.as_str());
                proof {
                    let prev = kept_pairs(pv.subrange(0, i as int));
                    let next = prev.push(pv[i as int]);
                    assert(next.drop_last() =~= prev);
                    if prev.len() == 0 {
                        assert(joined(prev) =~= seq![]);
                        assert(out@ =~= pair_text(pv[i as int]));
                    } else {
                        assert(out@ =~= joined(prev) + "&"@ + pair_text(pv[i as int]));
                    }
                }
                any = true;
            }
            i = i + 1;
        }
        assert(pair_views(pairs@).subrange(0, n as int) =~= pair_views(pairs@));
        if any {
            Some(out)
        } else {
            None
        }
    }

    /// The five rules on a URL that parsed; `None` where `url_str` is no URL.
    fn normalize_internal(&self, url_str: &str) -> (r: Option<String>)
        requires
            self.wf(),
        ensures
            r.is_some() == url_serialization(url_str@).is_some(),
            r.is_some() ==> r.unwrap()@ == rewritten(url_serialization(url_str@).unwrap()),
    {
        let parsed = parse_url(url_str)?;
        // scheme
        let scheme = scheme_of(parsed.as_str());
        let parsed = match upgraded_scheme(scheme.as_str()) {
            Some(s) => with_scheme(parsed.as_str(), s),
            None => parsed,
        };
        // host alias
        let host = host_of(parsed.as_str());
        let parsed = match host {
            Some(h) => match canonical_host(h.as_str()) {
                Some(c) => with_host(parsed.as_str(), c),
                None => parsed,
            },
            None => parsed,
        };
        // tracking parameters
        let pairs = query_pairs_of(parsed.as_str());
        let query = self.clean_query(&pairs);
        let parsed = with_query(parsed.as_str(), &query);
        // fragment
        let parsed = without_fragment(parsed.as_str());
        // trailing slash
        let path = path_of(parsed.as_str());
        let parsed = match path_without_trailing_slash(path.as_str()) {
            Some(p) => with_path(parsed.as_str(), p),
            None => parsed,
        };
        Some(parsed)
    }

    /// The canonical form of `url_str`; `url_str` itself where it is no URL.
    pub fn normalize(&self, url_str: &str) -> (r: String)
        requires
            self.wf(),
        ensures
            r@ == normalized(url_str@),
            url_serialization(url_str@).is_none() ==> r@ == url_str@,
    {
        match self.normalize_internal(url_str) {
            Some(normalized) => normalized,
            None => String::from_str(url_str),
        }
    }
}

} // verus!
