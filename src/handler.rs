use vstd::prelude::*;

use crate::error::ProxyError;
use crate::key::{cache_key, key_of};

verus! {

/// HTTP status of a successful reply, from cache or freshly fetched.
pub const STATUS_OK: u16 = 200;

/// HTTP status when the configured origin is not a URL.
pub const STATUS_BAD_REQUEST: u16 = 400;

/// HTTP status when the origin could not be fetched.
pub const STATUS_BAD_GATEWAY: u16 = 502;

/// Whether a reply was served from cache or fetched from the origin.
#[derive(Clone, Copy, Debug, PartialEq, Eq, Structural)]
pub enum CacheStatus {
    Hit,
    Miss,
}

impl CacheStatus {
    /// The value of the cache-status response header.
    pub fn header_value(&self) -> (r: &'static str)
        ensures
            r@ == (match self {
                CacheStatus::Hit => "HIT"@,
                CacheStatus::Miss => "MISS"@,
            }),
    {
        proof {
            reveal_strlit("HIT");
            reveal_strlit("MISS");
        }
        match self {
            CacheStatus::Hit => "HIT",
            CacheStatus::Miss => "MISS",
        }
    }
}

/// The reply sent to the client. `cache` is `None` on an error reply, where
/// no cache decision was reached.
#[derive(Debug)]
pub struct Reply {
    pub status: u16,
    pub cache: Option<CacheStatus>,
    pub body: String,
}

pub struct ReplyView {
    pub status: u16,
    pub cache: Option<CacheStatus>,
    pub body: Seq<char>,
}

impl View for Reply {
    type V = ReplyView;

    open spec fn view(&self) -> ReplyView {
        ReplyView { status: self.status, cache: self.cache, body: self.body@ }
    }
}

/// The next thing the handler asks its caller to do.
#[derive(Debug)]
pub enum Step {
    /// Read the cache store under `key`.
    ReadStore { key: String },
    /// Fetch the origin; `key` is where the result will be cached.
    FetchOrigin { key: String },
    /// Write `value` under `key` with the given time-to-live (best effort:
    /// the outcome is ignored), then send `reply`.
    WriteThenRespond { key: String, value: String, ttl_seconds: u64, reply: Reply },
    /// Send `reply`; the request is over.
    Respond { reply: Reply },
}

pub enum StepView {
    ReadStore { key: Seq<char> },
    FetchOrigin { key: Seq<char> },
    WriteThenRespond { key: Seq<char>, value: Seq<char>, ttl_seconds: u64, reply: ReplyView },
    Respond { reply: ReplyView },
}

impl View for Step {
    type V = StepView;

    open spec fn view(&self) -> StepView {
        match self {
            Step::ReadStore { key } => StepView::ReadStore { key: key@ },
            Step::FetchOrigin { key } => StepView::FetchOrigin { key: key@ },
            Step::WriteThenRespond { key, value, ttl_seconds, reply } => StepView::WriteThenRespond {
                key: key@,
                value: value@,
                ttl_seconds: *ttl_seconds,
                reply: reply@,
            },
            Step::Respond { reply } => StepView::Respond { reply: reply@ },
        }
    }
}

/// An error reply: the given status, no cache status, an empty body.
pub open spec fn error_reply(status: u16) -> ReplyView {
    ReplyView { status, cache: None, body: Seq::empty() }
}

/// A successful reply carrying `body`.
pub open spec fn ok_reply(cache: CacheStatus, body: Seq<char>) -> ReplyView {
    ReplyView { status: STATUS_OK, cache: Some(cache), body }
}

/// First step of a request: derive the key, or reject a malformed origin
/// without touching the store or the origin.
pub open spec fn begin_spec(origin: Seq<char>) -> StepView {
    match key_of(origin) {
        Some(key) => StepView::ReadStore { key },
        None => StepView::Respond { reply: error_reply(STATUS_BAD_REQUEST) },
    }
}

/// After the store read: a hit is served at once; a miss goes to the origin.
pub open spec fn after_lookup_spec(key: Seq<char>, found: Option<Seq<char>>) -> StepView {
    match found {
        Some(v) => StepView::Respond { reply: ok_reply(CacheStatus::Hit, v) },
        None => StepView::FetchOrigin { key },
    }
}

/// After the fetch: a body is cached and served; a failure is a bad gateway
/// and leaves the store alone.
pub open spec fn after_fetch_spec(key: Seq<char>, body: Option<Seq<char>>, ttl_seconds: u64) -> StepView {
    match body {
        Some(b) => StepView::WriteThenRespond {
            key,
            value: b,
            ttl_seconds,
            reply: ok_reply(CacheStatus::Miss, b),
        },
        None => StepView::Respond { reply: error_reply(STATUS_BAD_GATEWAY) },
    }
}

/// The value a store read yielded; a backend failure counts as absent.
pub open spec fn found_of(lookup: Result<Option<String>, ProxyError>) -> Option<Seq<char>> {
    match lookup {
        Ok(Some(v)) => Some(v@),
        _ => None,
    }
}

/// The body a fetch yielded, if it succeeded.
pub open spec fn body_of(fetched: Result<String, ProxyError>) -> Option<Seq<char>> {
    match fetched {
        Ok(b) => Some(b@),
        Err(_) => None,
    }
}

pub(crate) fn error_response(status: u16) -> (r: Reply)
    ensures
        r@ == error_reply(status),
{
    Reply { status, cache: None, body: String::new() }
}

/// Starts a request for the configured origin.
pub fn begin(origin: &str) -> (r: Step)
    ensures
        r@ == begin_spec(origin@),
{
    match cache_key(origin) {
        Ok(key) => Step::ReadStore { key },
        Err(_) => Step::Respond { reply: error_response(STATUS_BAD_REQUEST) },
    }
}

/// Continues a request once the store read under `key` has come back.
pub fn after_lookup(key: String, lookup: Result<Option<String>, ProxyError>) -> (r: Step)
    ensures
        r@ == after_lookup_spec(key@, found_of(lookup)),
{
    match lookup {
        Ok(Some(v)) => Step::Respond { reply: Reply { status: STATUS_OK, cache: Some(CacheStatus::Hit), body: v } },
        _ => Step::FetchOrigin { key },
    }
}

/// Continues a request once the origin fetch has come back.
pub fn after_fetch(key: String, fetched: Result<String, ProxyError>, ttl_seconds: u64) -> (r: Step)
    ensures
        r@ == after_fetch_spec(key@, body_of(fetched), ttl_seconds),
{
    match fetched {
        Ok(b) => {
            let reply = Reply { status: STATUS_OK, cache: Some(CacheStatus::Miss), body: b.clone() };
            Step::WriteThenRespond { key, value: b, ttl_seconds, reply }
        },
        Err(_) => Step::Respond { reply: error_response(STATUS_BAD_GATEWAY) },
    }
}

} // verus!
