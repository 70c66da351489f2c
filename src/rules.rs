//! The rewrite rules on plain values: which scheme, host, query and path a
//! URL is given.
use vstd::prelude::*;
use vstd::string::StrSliceExecFns;

verus! {

/// Host names that stand for another host, with the host they stand for.
pub open spec fn host_alias(host: Seq<char>) -> Option<Seq<char>> {
    if host == "twitter.com"@ || host == "www.twitter.com"@ || host == "mobile.twitter.com"@ {
        Some("x.com"@)
    } else if host == "www.reddit.com"@ || host == "old.reddit.com"@ || host
        == "new.reddit.com"@ {
        Some("reddit.com"@)
    } else {
        None
    }
}

/// The path with every trailing `/` removed.
pub open spec fn trim_slashes(path: Seq<char>) -> Seq<char>
    decreases path.len(),
{
    if path.len() > 0 && path.last() == '/' {
        trim_slashes(path.drop_last())
    } else {
        path
    }
}

/// The path that rule five sets, if it sets one: a path of more than one
/// character that ends in `/` loses its trailing slashes.
pub open spec fn trimmed_path(path: Seq<char>) -> Option<Seq<char>> {
    if path.len() > 1 && path.last() == '/' {
        Some(trim_slashes(path))
    } else {
        None
    }
}

/// The query keys that carry tracking data rather than name a resource.
pub open spec fn tracking_names() -> Seq<Seq<char>> {
    seq![
        "utm_source"@,
        "utm_medium"@,
        "utm_campaign"@,
        "utm_term"@,
        "utm_content"@,
        "fbclid"@,
        "gclid"@,
        "msclkid"@,
        "mc_cid"@,
        "mc_eid"@,
        "ref"@,
        "referrer"@,
        "source"@,
        "campaign"@,
        "s"@,
        "_ga"@,
        "_gid"@,
        "igshid"@,
        "ncid"@,
    ]
}

/// Whether a query key is a tracking parameter (exact, case-sensitive).
pub open spec fn is_tracking(key: Seq<char>) -> bool {
    tracking_names().contains(key)
}

/// The pairs whose key is no tracking parameter, in their order.
pub open spec fn kept_pairs(pairs: Seq<(Seq<char>, Seq<char>)>) -> Seq<(Seq<char>, Seq<char>)>
    decreases pairs.len(),
{
    if pairs.len() == 0 {
        seq![]
    } else {
        let rest = kept_pairs(pairs.drop_last());
        if is_tracking(pairs.last().0) {
            rest
        } else {
            rest.push(pairs.last())
        }
    }
}

/// `key=value`.
pub open spec fn pair_text(pair: (Seq<char>, Seq<char>)) -> Seq<char> {
    pair.0 + "="@ + pair.1
}

/// The pairs as `key=value`, joined by `&`.
pub open spec fn joined(pairs: Seq<(Seq<char>, Seq<char>)>) -> Seq<char>
    decreases pairs.len(),
{
    if pairs.len() == 0 {
        seq![]
    } else if pairs.len() == 1 {
        pair_text(pairs[0])
    } else {
        joined(pairs.drop_last()) + "&"@ + pair_text(pairs.last())
    }
}

/// Rule three: the query that remains once the tracking pairs are dropped;
/// `None` where no pair remains.
pub open spec fn cleaned_query(pairs: Seq<(Seq<char>, Seq<char>)>) -> Option<Seq<char>> {
    let kept = kept_pairs(pairs);
    if kept.len() == 0 {
        None
    } else {
        Some(joined(kept))
    }
}

/// A trimmed path ends in no slash.
pub proof fn lemma_trim_slashes_ends(path: Seq<char>)
    ensures
        trim_slashes(path).len() == 0 || trim_slashes(path).last() != '/',
    decreases path.len(),
{
    if path.len() > 0 && path.last() == '/' {
        lemma_trim_slashes_ends(path.drop_last());
    }
}

/// Dropping the tracking pairs a second time drops nothing more.
pub proof fn lemma_kept_pairs_settled(pairs: Seq<(Seq<char>, Seq<char>)>)
    ensures
        kept_pairs(kept_pairs(pairs)) == kept_pairs(pairs),
    decreases pairs.len(),
{
    if pairs.len() > 0 {
        let rest = kept_pairs(pairs.drop_last());
        lemma_kept_pairs_settled(pairs.drop_last());
        if !is_tracking(pairs.last().0) {
            assert(rest.push(pairs.last()).drop_last() =~= rest);
        }
    }
}

/// Each rule's decision, made again on what it produced, changes nothing:
/// `https` is not `http`, a canonical host is no alias, the tracking pairs
/// are gone from the kept pairs, and a trimmed path ends in no slash.
pub proof fn lemma_rule_decisions_settled(
    host: Seq<char>,
    pairs: Seq<(Seq<char>, Seq<char>)>,
    path: Seq<char>,
)
    ensures
        "https"@ != "http"@,
        host_alias(host) is Some ==> host_alias(host_alias(host).unwrap()) is None,
        kept_pairs(kept_pairs(pairs)) == kept_pairs(pairs),
        trimmed_path(path) is Some ==> trimmed_path(trimmed_path(path).unwrap()) is None,
{
    reveal_strlit("https");
    reveal_strlit("http");
    assert("https"@.len() != "http"@.len());
    reveal_strlit("x.com");
    reveal_strlit("reddit.com");
    reveal_strlit("twitter.com");
    reveal_strlit("www.twitter.com");
    reveal_strlit("mobile.twitter.com");
    reveal_strlit("www.reddit.com");
    reveal_strlit("old.reddit.com");
    reveal_strlit("new.reddit.com");
    assert("x.com"@.len() == 5);
    assert("reddit.com"@.len() == 10);
    assert("reddit.com"@ != "twitter.com"@) by {
        assert("reddit.com"@[0] != "twitter.com"@[0]);
    }
    assert("reddit.com"@ != "www.reddit.com"@);
    assert("reddit.com"@ != "old.reddit.com"@);
    assert("reddit.com"@ != "new.reddit.com"@);
    assert("reddit.com"@ != "www.twitter.com"@);
    assert("reddit.com"@ != "mobile.twitter.com"@);
    assert("x.com"@ != "twitter.com"@);
    assert("x.com"@ != "www.twitter.com"@);
    assert("x.com"@ != "mobile.twitter.com"@);
    assert("x.com"@ != "www.reddit.com"@);
    assert("x.com"@ != "old.reddit.com"@);
    assert("x.com"@ != "new.reddit.com"@);
    lemma_kept_pairs_settled(pairs);
    lemma_trim_slashes_ends(path);
}

/// Whether two strings hold the same characters.
pub fn same_text(a: &str, b: &str) -> (r: bool)
    ensures
        r == (a@ == b@),
{
    let n = a.unicode_len();
    if n != b.unicode_len() {
        return false;
    }
    let mut i: usize = 0;
    while i < n
        invariant
            n == a@.len(),
            n == b@.len(),
            i <= n,
            a@.subrange(0, i as int) == b@.subrange(0, i as int),
        decreases n - i,
    {
        if a.get_char(i) != b.get_char(i) {
            return false;
        }
        assert(a@.subrange(0, i + 1) =~= a@.subrange(0, i as int).push(a@[i as int]));
        assert(b@.subrange(0, i + 1) =~= b@.subrange(0, i as int).push(b@[i as int]));
        i = i + 1;
    }
    assert(a@ =~= a@.subrange(0, n as int));
    assert(b@ =~= b@.subrange(0, n as int));
    true
}

/// Rule one: the scheme `http` becomes `https`; `None` leaves the scheme.
pub fn upgraded_scheme(scheme: &str) -> (r: Option<&'static str>)
    ensures
        r.is_some() == (scheme@ == "http"@),
        r.is_some() ==> r.unwrap()@ == "https"@,
{
    if same_text(scheme, "http") {
        Some("https")
    } else {
        None
    }
}

/// Rule two: the canonical host for a known alias; `None` for any other host.
pub fn canonical_host(host: &str) -> (r: Option<&'static str>)
    ensures
        r.is_some() == host_alias(host@).is_some(),
        r.is_some() ==> r.unwrap()@ == host_alias(host@).unwrap(),
{
    if same_text(host, "twitter.com") || same_text(host, "www.twitter.com") || same_text(
        host,
        "mobile.twitter.com",
    ) {
        Some("x.com")
    } else if same_text(host, "www.reddit.com") || same_text(host, "old.reddit.com") || same_text(
        host,
        "new.reddit.com",
    ) {
        Some("reddit.com")
    } else {
        None
    }
}

/// Rule five: the path to set, if the path is longer than `/` and ends in a
/// slash.
pub fn path_without_trailing_slash(path: &str) -> (r: Option<&str>)
    ensures
        r.is_some() == trimmed_path(path@).is_some(),
        r.is_some() ==> r.unwrap()@ == trimmed_path(path@).unwrap(),
{
    let n = path.unicode_len();
    if n <= 1 || path.get_char(n - 1) != '/' {
        return None;
    }
    let mut k: usize = n;
    assert(path@.subrange(0, n as int) =~= path@);
    while k > 0 && path.get_char(k - 1) == '/'
        invariant
            n == path@.len(),
            k <= n,
            k < n ==> path@[k as int] == '/',
            trim_slashes(path@.subrange(0, k as int)) == trim_slashes(path@),
        decreases k,
    {
        assert(path@.subrange(0, k - 1) =~= path@.subrange(0, k as int).drop_last());
        k = k - 1;
    }
    assert(trim_slashes(path@.subrange(0, k as int)) == path@.subrange(0, k as int));
    Some(path.substring_char(0, k))
}

} // verus!
