//! Where a request is sent when it does not reach the canonical origin:
//! plain HTTP goes to HTTPS, and a leading `www.` is dropped from the host.

use crate::text::str_chars;
use vstd::prelude::*;

verus! {

/// The host names the `www.` subdomain.
pub open spec fn has_www_prefix(host: Seq<char>) -> bool {
    host.len() >= 4 && host.take(4) == "www."@
}

/// The host without a leading `www.`.
pub open spec fn strip_www(host: Seq<char>) -> Seq<char> {
    if has_www_prefix(host) {
        host.skip(4)
    } else {
        host
    }
}

/// The HTTPS URL of the canonical origin for this host and path.
pub open spec fn https_location_text(host: Seq<char>, path_and_query: Seq<char>) -> Seq<char> {
    "https://"@ + strip_www(host) + path_and_query
}

/// Whether the host starts with `www.`.
pub fn starts_with_www(host: &str) -> (r: bool)
    ensures
        r == has_www_prefix(host@),
{
    proof {
        reveal_strlit("www.");
    }
    let chars = str_chars(host);
    if chars.len() < 4 {
        return false;
    }
    let r = chars[0] == 'w' && chars[1] == 'w' && chars[2] == 'w' && chars[3] == '.';
    proof {
        let head = host@.take(4);
        assert(head[0] == chars@[0] && head[1] == chars@[1] && head[2] == chars@[2] && head[3]
            == chars@[3]);
        if r {
            assert(head =~= "www."@);
        }
        if head == "www."@ {
            assert(head[0] == 'w' && head[1] == 'w' && head[2] == 'w' && head[3] == '.');
        }
    }
    r
}

/// The host without a leading `www.`.
pub fn host_without_www(host: &str) -> (r: String)
    ensures
        r@ == strip_www(host@),
{
    let chars = str_chars(host);
    let www = starts_with_www(host);
    let start: usize = if www {
        4
    } else {
        0
    };
    let mut r = String::new();
    let mut k: usize = start;
    while k < chars.len()
        invariant
            chars@ == host@,
            start <= k <= chars@.len(),
            start == (if www { 4usize } else { 0usize }),
            www == has_www_prefix(host@),
            r@ == host@.subrange(start as int, k as int),
        decreases chars@.len() - k,
    {
        crate::text::push_char(&mut r, chars[k]);
        assert(host@.subrange(start as int, k + 1) =~= host@.subrange(start as int, k as int).push(
            chars@[k as int],
        ));
        k = k + 1;
    }
    assert(host@.subrange(start as int, host@.len() as int) =~= strip_www(host@));
    r
}

/// The location that the plain-HTTP port redirects every request to: the
/// same path and query on HTTPS, on the host without `www.`.
pub fn https_location(host: &str, path_and_query: &str) -> (r: String)
    ensures
        r@ == https_location_text(host@, path_and_query@),
{
    let bare = host_without_www(host);
    let mut r = String::from_str("https://");
    r.append(bare.as_str());
    r.append(path_and_query);
    r
}

/// The permanent redirect that the application answers a `www.` host
/// with: the same path and query on the host without `www.`; `None` for
/// any other host, which is served.
pub fn www_redirect(host: &str, path_and_query: &str) -> (r: Option<String>)
    ensures
        r is Some <==> has_www_prefix(host@),
        r matches Some(l) ==> l@ == https_location_text(host@, path_and_query@),
{
    if starts_with_www(host) {
        Some(https_location(host, path_and_query))
    } else {
        None
    }
}

/// A redirect keeps the request's path and query exactly as they were,
/// whatever the host: the location is the HTTPS origin of the host,
/// without a leading `www.`, followed by the path and query unchanged.
/// Adding `www.` in front of a host that has none leads to the same place.
pub proof fn lemma_https_location_keeps_path_and_query(
    host: Seq<char>,
    path_and_query: Seq<char>,
)
    ensures
        https_location_text(host, path_and_query) == https_location_text(host, Seq::<char>::empty())
            + path_and_query,
        https_location_text(host, Seq::<char>::empty()) == "https://"@ + (if host.len() >= 4
            && host.take(4) == "www."@ {
            host.skip(4)
        } else {
            host
        }),
        !(host.len() >= 4 && host.take(4) == "www."@) ==> https_location_text(
            "www."@ + host,
            path_and_query,
        ) == https_location_text(host, path_and_query),
{
    reveal_strlit("www.");
    let www = "www."@ + host;
    assert(www.len() >= 4);
    assert(www.take(4) =~= "www."@);
    assert(www.skip(4) =~= host);
    assert(https_location_text(host, Seq::<char>::empty()) + path_and_query =~= https_location_text(
        host,
        path_and_query,
    ));
}

/// Only a host that starts with `www.` is redirected, and it is sent to the
/// same host without that prefix, keeping the path and query.
pub proof fn lemma_www_redirect_only_for_www(host: Seq<char>, path_and_query: Seq<char>)
    ensures
        has_www_prefix(host) <==> (host.len() >= 4 && host.take(4) == "www."@),
        has_www_prefix(host) ==> https_location_text(host, path_and_query) == "https://"@
            + host.skip(4) + path_and_query,
        !has_www_prefix(host) ==> https_location_text(host, path_and_query) == "https://"@ + host
            + path_and_query,
{
}

} // verus!
