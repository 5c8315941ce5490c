use vstd::prelude::*;

use crate::error::ProxyError;
use crate::handler::{
    after_fetch, after_fetch_spec, after_lookup, after_lookup_spec, begin, begin_spec, body_of,
    error_reply, error_response, Reply, ReplyView, Step, StepView,
};
use crate::store::{MemoryStore, StoreModel};

verus! {

/// What one request does against an in-process store: the reply, the store
/// afterwards, and whether the store and the origin were consulted.
pub struct Exchange {
    pub reply: ReplyView,
    pub store: StoreModel,
    pub store_read: bool,
    pub upstream_called: bool,
}

/// The steps of a request before the origin is fetched: the first step,
/// followed by the store read when one is asked for.
pub open spec fn until_fetch(store: StoreModel, origin: Seq<char>, now_ms: u64) -> StepView {
    match begin_spec(origin) {
        StepView::ReadStore { key } => after_lookup_spec(key, store.lookup(key, now_ms)),
        other => other,
    }
}

/// One whole request against an in-process store read and written at
/// `now_ms`, where `fetched` is what the origin would yield if it were asked.
/// The arms that yield status 0 stand for steps the handler never takes at
/// that point.
pub open spec fn serve(
    store: StoreModel,
    origin: Seq<char>,
    now_ms: u64,
    fetched: Option<Seq<char>>,
) -> Exchange {
    let store_read = begin_spec(origin) is ReadStore;
    match until_fetch(store, origin, now_ms) {
        StepView::FetchOrigin { key } => match after_fetch_spec(key, fetched, store.ttl_seconds) {
            StepView::WriteThenRespond { key, value, reply, .. } => Exchange {
                reply,
                store: store.store(key, value, now_ms),
                store_read,
                upstream_called: true,
            },
            StepView::Respond { reply } => Exchange { reply, store, store_read, upstream_called: true },
            _ => Exchange { reply: error_reply(0), store, store_read, upstream_called: true },
        },
        StepView::Respond { reply } => Exchange { reply, store, store_read, upstream_called: false },
        _ => Exchange { reply: error_reply(0), store, store_read, upstream_called: false },
    }
}

/// Runs a request against an in-process store up to the origin fetch: the
/// result is either the final reply or `FetchOrigin`.
pub fn start_with_memory(store: &MemoryStore, origin: &str, now_ms: u64) -> (r: Step)
    requires
        store.wf(),
    ensures
        r@ == until_fetch(store@, origin@, now_ms),
{
    match begin(origin) {
        Step::ReadStore { key } => {
            let found = store.get(&key, now_ms);
            after_lookup(key, Ok(found))
        },
        other => other,
    }
}

/// Completes a request whose origin fetch under `key` returned `fetched`:
/// a body is written to the store at `now_ms` and served as a miss.
pub fn finish_with_memory(
    store: &mut MemoryStore,
    key: String,
    fetched: Result<String, ProxyError>,
    now_ms: u64,
) -> (r: Reply)
    requires
        old(store).wf(),
    ensures
        final(store).wf(),
        match after_fetch_spec(key@, body_of(fetched), old(store)@.ttl_seconds) {
            StepView::WriteThenRespond { key, value, reply, .. } => {
                &&& r@ == reply
                &&& final(store)@ == old(store)@.store(key, value, now_ms)
            },
            StepView::Respond { reply } => r@ == reply && final(store)@ == old(store)@,
            _ => false,
        },
{
    let ttl = store.ttl_seconds();
    match after_fetch(key, fetched, ttl) {
        Step::WriteThenRespond { key, value, reply, .. } => {
            store.set(key, value, now_ms);
            reply
        },
        Step::Respond { reply } => reply,
        Step::ReadStore { .. } | Step::FetchOrigin { .. } => error_response(0),
    }
}

} // verus!
