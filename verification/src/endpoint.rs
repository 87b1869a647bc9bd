//! Endpoint descriptors and URL normalization.
//!
//! An endpoint's identity is its normalized URL: the `http://` or `https://`
//! scheme prefix and a trailing `/graphql` are stripped for comparison, while
//! the full URL is retained for requests.

use vstd::prelude::*;

verus! {

/// `s` with the prefix `p` removed if it is present, otherwise `s` itself.
pub open spec fn spec_strip_prefix(s: Seq<char>, p: Seq<char>) -> Seq<char> {
    if p.is_prefix_of(s) {
        s.skip(p.len() as int)
    } else {
        s
    }
}

/// `s` with the suffix `p` removed if it is present, otherwise `s` itself.
pub open spec fn spec_strip_suffix(s: Seq<char>, p: Seq<char>) -> Seq<char> {
    if p.is_suffix_of(s) {
        s.take(s.len() - p.len())
    } else {
        s
    }
}

/// The normalized form of an endpoint URL: the `http://` prefix, then the
/// `https://` prefix, then a trailing `/graphql` are stripped in that order.
pub open spec fn spec_normalized_url(s: Seq<char>) -> Seq<char> {
    spec_strip_suffix(
        spec_strip_prefix(spec_strip_prefix(s, "http://"@), "https://"@),
        "/graphql"@,
    )
}

/// Whether `p` is a prefix of `s`, by character comparison.
pub fn str_has_prefix(s: &str, p: &str) -> (b: bool)
    ensures
        b == p@.is_prefix_of(s@),
{
    let sn = s.unicode_len();
    let pn = p.unicode_len();
    if pn > sn {
        return false;
    }
    let mut i: usize = 0;
    while i < pn
        invariant
            i <= pn <= sn,
            pn == p@.len(),
            sn == s@.len(),
            forall|k: int| 0 <= k < i ==> p@[k] == s@[k],
        decreases pn - i,
    {
        if s.get_char(i) != p.get_char(i) {
            assert(!p@.is_prefix_of(s@)) by {
                assert(s@.subrange(0, p@.len() as int)[i as int] == s@[i as int]);
            }
            return false;
        }
        i += 1;
    }
    assert(p@ =~= s@.subrange(0, p@.len() as int));
    true
}

/// Whether `p` is a suffix of `s`, by character comparison.
pub fn str_has_suffix(s: &str, p: &str) -> (b: bool)
    ensures
        b == p@.is_suffix_of(s@),
{
    let sn = s.unicode_len();
    let pn = p.unicode_len();
    if pn > sn {
        return false;
    }
    let off = sn - pn;
    let mut i: usize = 0;
    while i < pn
        invariant
            i <= pn <= sn,
            pn == p@.len(),
            sn == s@.len(),
            off == sn - pn,
            forall|k: int| 0 <= k < i ==> p@[k] == s@[off + k],
        decreases pn - i,
    {
        if s.get_char(off + i) != p.get_char(i) {
            assert(!p@.is_suffix_of(s@)) by {
                assert(s@.subrange(s@.len() - p@.len(), s@.len() as int)[i as int] == s@[off as int
                    + i as int]);
            }
            return false;
        }
        i += 1;
    }
    assert(p@ =~= s@.subrange(s@.len() - p@.len(), s@.len() as int));
    true
}

/// Strips the scheme prefix and a trailing `/graphql` from an endpoint URL,
/// yielding the form used for endpoint identity comparisons.
pub fn normalize_url(s: &str) -> (r: String)
    ensures
        r@ == spec_normalized_url(s@),
{
    let mut cur: &str = s;
    if str_has_prefix(cur, "http://") {
        let n = "http://".unicode_len();
        cur = cur.substring_char(n, cur.unicode_len());
    }
    assert(cur@ == spec_strip_prefix(s@, "http://"@));
    if str_has_prefix(cur, "https://") {
        let n = "https://".unicode_len();
        cur = cur.substring_char(n, cur.unicode_len());
    }
    if str_has_suffix(cur, "/graphql") {
        let n = "/graphql".unicode_len();
        cur = cur.substring_char(0, cur.unicode_len() - n);
    }
    String::from_str(cur)
}

/// An endpoint: the full URL used for requests plus the normalized form used
/// as its identity.
#[derive(Debug, Clone)]
pub struct Endpoint {
    /// The URL requests are sent to, exactly as configured.
    pub query_url: String,
    /// The normalized URL: scheme and trailing `/graphql` stripped.
    pub normalized: String,
}

impl Endpoint {
    /// The normalized field is exactly the normalization of the query URL.
    pub open spec fn wf(self) -> bool {
        self.normalized@ == spec_normalized_url(self.query_url@)
    }

    /// Builds the descriptor for a configured address.
    pub fn resolve(address: &str) -> (r: Endpoint)
        ensures
            r.wf(),
            r.query_url@ == address@,
    {
        Endpoint { query_url: String::from_str(address), normalized: normalize_url(address) }
    }
}

/// Whether two URLs denote the same endpoint: their normalized forms agree.
pub fn same_endpoint(a: &str, b: &str) -> (r: bool)
    ensures
        r == (spec_normalized_url(a@) == spec_normalized_url(b@)),
{
    let na = normalize_url(a);
    let nb = normalize_url(b);
    na == nb
}

} // verus!
