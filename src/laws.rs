use vstd::prelude::*;

use crate::handler::{error_reply, ok_reply, CacheStatus, STATUS_BAD_GATEWAY, STATUS_BAD_REQUEST};
use crate::key::key_of;
use crate::memory::serve;
use crate::store::{is_fresh, Stamped, StoreModel};

verus! {

/// A malformed origin is answered with 400, without reading or writing the
/// store and without calling the origin.
pub proof fn lemma_invalid_origin_rejected(
    store: StoreModel,
    origin: Seq<char>,
    now_ms: u64,
    fetched: Option<Seq<char>>,
)
    requires
        key_of(origin) is None,
    ensures
        serve(store, origin, now_ms, fetched).reply == error_reply(STATUS_BAD_REQUEST),
        !serve(store, origin, now_ms, fetched).store_read,
        !serve(store, origin, now_ms, fetched).upstream_called,
        serve(store, origin, now_ms, fetched).store == store,
{
}

/// The first request against an empty store is a miss: the origin's body is
/// served and the store then holds it under the request's key.
pub proof fn lemma_first_request_misses(
    ttl_seconds: u64,
    origin: Seq<char>,
    now_ms: u64,
    body: Seq<char>,
)
    requires
        key_of(origin) is Some,
    ensures
        serve(StoreModel::empty(ttl_seconds), origin, now_ms, Some(body)).reply == ok_reply(
            CacheStatus::Miss,
            body,
        ),
        serve(StoreModel::empty(ttl_seconds), origin, now_ms, Some(body)).upstream_called,
        serve(StoreModel::empty(ttl_seconds), origin, now_ms, Some(body)).store.entries.contains_key(
            key_of(origin)->0,
        ),
        serve(StoreModel::empty(ttl_seconds), origin, now_ms, Some(body)).store.entries[key_of(
            origin,
        )->0].value == body,
{
}

/// A request that follows a miss within the time-to-live is a hit with the
/// same body, and does not call the origin or change the store.
pub proof fn lemma_repeat_within_ttl_hits(
    store: StoreModel,
    origin: Seq<char>,
    first_ms: u64,
    second_ms: u64,
    body: Seq<char>,
    fetched: Option<Seq<char>>,
)
    requires
        serve(store, origin, first_ms, Some(body)).upstream_called,
        first_ms <= second_ms,
        second_ms - first_ms < store.ttl_seconds * 1000,
    ensures
        ({
            let after = serve(store, origin, first_ms, Some(body)).store;
            &&& serve(after, origin, second_ms, fetched).reply == ok_reply(CacheStatus::Hit, body)
            &&& !serve(after, origin, second_ms, fetched).upstream_called
            &&& serve(after, origin, second_ms, fetched).store == after
        }),
{
}

/// A request that comes once the time-to-live has run out is a miss again:
/// the origin is called and its new body is stored with a fresh clock.
pub proof fn lemma_expired_entry_refetched(
    store: StoreModel,
    origin: Seq<char>,
    first_ms: u64,
    second_ms: u64,
    body: Seq<char>,
    new_body: Seq<char>,
)
    requires
        serve(store, origin, first_ms, Some(body)).upstream_called,
        !is_fresh(first_ms, second_ms, store.ttl_seconds),
    ensures
        ({
            let after = serve(store, origin, first_ms, Some(body)).store;
            let again = serve(after, origin, second_ms, Some(new_body));
            &&& again.reply == ok_reply(CacheStatus::Miss, new_body)
            &&& again.upstream_called
            &&& again.store.entries[key_of(origin)->0] == Stamped {
                value: new_body,
                stored_at_ms: second_ms,
            }
        }),
{
}

/// Two requests that both missed race to write their bodies: whichever write
/// lands last is what the key holds, whole, never a mix of the two.
pub proof fn lemma_racing_misses_leave_one_value(
    store: StoreModel,
    origin: Seq<char>,
    first_ms: u64,
    second_ms: u64,
    first_body: Seq<char>,
    second_body: Seq<char>,
)
    requires
        serve(store, origin, first_ms, Some(first_body)).upstream_called,
        serve(store, origin, second_ms, Some(second_body)).upstream_called,
    ensures
        ({
            let key = key_of(origin)->0;
            &&& serve(store, origin, first_ms, Some(first_body)).store.store(
                key,
                second_body,
                second_ms,
            ).entries[key] == Stamped { value: second_body, stored_at_ms: second_ms }
            &&& serve(store, origin, second_ms, Some(second_body)).store.store(
                key,
                first_body,
                first_ms,
            ).entries[key] == Stamped { value: first_body, stored_at_ms: first_ms }
        }),
{
}

/// After the flush-all operation the store is empty, and a request that was
/// a hit before it is a miss that calls the origin.
pub proof fn lemma_flush_turns_hit_into_miss(
    store: StoreModel,
    origin: Seq<char>,
    now_ms: u64,
    fetched: Option<Seq<char>>,
)
    requires
        serve(store, origin, now_ms, fetched).reply.cache == Some(CacheStatus::Hit),
    ensures
        store.cleared().entries.is_empty(),
        serve(store.cleared(), origin, now_ms, fetched).upstream_called,
        serve(store.cleared(), origin, now_ms, fetched).reply.cache != Some(CacheStatus::Hit),
{
}

/// A failed origin fetch is answered with 502 and leaves the store exactly
/// as it was, whatever it held for the key.
pub proof fn lemma_upstream_failure_keeps_store(store: StoreModel, origin: Seq<char>, now_ms: u64)
    ensures
        serve(store, origin, now_ms, None).store == store,
        serve(store, origin, now_ms, None).upstream_called ==> serve(
            store,
            origin,
            now_ms,
            None,
        ).reply == error_reply(STATUS_BAD_GATEWAY),
{
}

} // verus!
