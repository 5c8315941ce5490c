use vstd::prelude::*;

use crate::error::ProxyError;

verus! {

/// The canonical serialization of the URL that `s` parses to, or `None` when
/// `s` is not a URL.
pub uninterp spec fn url_serialization(s: Seq<char>) -> Option<Seq<char>>;

/// Relies on `url::Url::parse` and `Url::as_str`: whether the text parses, and
/// the serialization of what it parses to, depend on the text alone.
#[verifier::external_body]
fn parse_url(s: &str) -> (r: Option<String>)
    ensures
        r is Some <==> url_serialization(s@) is Some,
        r matches Some(k) ==> url_serialization(s@) == Some(k@),
{
    url::Url::parse(s).ok().map(|u| u.as_str().to_string())
}

/// The cache key of an origin: its canonical URL form, when it is a URL.
pub open spec fn key_of(origin: Seq<char>) -> Option<Seq<char>> {
    url_serialization(origin)
}

/// Derives the cache key from the configured origin URL.
pub fn cache_key(origin: &str) -> (r: Result<String, ProxyError>)
    ensures
        match key_of(origin@) {
            Some(k) => r matches Ok(x) && x@ == k,
            None => r == Err::<String, ProxyError>(ProxyError::InvalidOriginUrl),
        },
{
    match parse_url(origin) {
        Some(k) => Ok(k),
        None => Err(ProxyError::InvalidOriginUrl),
    }
}

/// Normalization is deterministic: every derivation of a key from the same
/// origin text yields the same key.
pub proof fn lemma_key_deterministic(origin: Seq<char>, first: Seq<char>, second: Seq<char>)
    requires
        key_of(origin) == Some(first),
        key_of(origin) == Some(second),
    ensures
        first == second,
{
}

} // verus!
