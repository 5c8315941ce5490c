use vstd::prelude::*;

verus! {

/// A cached value together with the time at which it was written.
pub struct Stamped {
    pub value: Seq<char>,
    pub stored_at_ms: u64,
}

/// The abstract content of a store: one stamped value per key, and the
/// time-to-live that applies to every entry.
pub struct StoreModel {
    pub entries: Map<Seq<char>, Stamped>,
    pub ttl_seconds: u64,
}

/// Milliseconds elapsed between `from` and `to`; a clock read that goes
/// backwards counts as no time at all.
pub open spec fn age_ms(from: u64, to: u64) -> int {
    if to >= from {
        to - from
    } else {
        0
    }
}

/// Whether an entry written at `stored_at_ms` is still live at `now_ms`.
pub open spec fn is_fresh(stored_at_ms: u64, now_ms: u64, ttl_seconds: u64) -> bool {
    age_ms(stored_at_ms, now_ms) < ttl_seconds * 1000
}

impl StoreModel {
    /// A store that holds nothing.
    pub open spec fn empty(ttl_seconds: u64) -> StoreModel {
        StoreModel { entries: Map::empty(), ttl_seconds }
    }

    /// What a read of `key` at `now_ms` sees: the value, when present and fresh.
    pub open spec fn lookup(self, key: Seq<char>, now_ms: u64) -> Option<Seq<char>> {
        if self.entries.contains_key(key) && is_fresh(
            self.entries[key].stored_at_ms,
            now_ms,
            self.ttl_seconds,
        ) {
            Some(self.entries[key].value)
        } else {
            None
        }
    }

    /// The store after writing `value` under `key` at `now_ms` (last write wins).
    pub open spec fn store(self, key: Seq<char>, value: Seq<char>, now_ms: u64) -> StoreModel {
        StoreModel {
            entries: self.entries.insert(key, Stamped { value, stored_at_ms: now_ms }),
            ttl_seconds: self.ttl_seconds,
        }
    }

    /// The store after the flush-all operation.
    pub open spec fn cleared(self) -> StoreModel {
        StoreModel::empty(self.ttl_seconds)
    }
}

struct Entry {
    key: String,
    value: String,
    stored_at_ms: u64,
}

impl Entry {
    spec fn stamp(&self) -> Stamped {
        Stamped { value: self.value@, stored_at_ms: self.stored_at_ms }
    }
}

/// An in-process cache store with lazy expiration: an expired entry is
/// reported as absent but stays in memory until it is overwritten or the
/// store is flushed.
pub struct MemoryStore {
    entries: Vec<Entry>,
    ttl_seconds: u64,
    model: Ghost<Map<Seq<char>, Stamped>>,
}

impl View for MemoryStore {
    type V = StoreModel;

    closed spec fn view(&self) -> StoreModel {
        StoreModel { entries: self.model@, ttl_seconds: self.ttl_seconds }
    }
}

impl MemoryStore {
    /// The entries vector holds each key once, and agrees with the model.
    pub closed spec fn wf(&self) -> bool {
        &&& forall|i: int, j: int|
            0 <= i < j < self.entries@.len() ==> self.entries@[i].key@
                != self.entries@[j].key@
        &&& forall|i: int|
            0 <= i < self.entries@.len() ==> {
                &&& self.model@.contains_key(#[trigger] self.entries@[i].key@)
                &&& self.model@[self.entries@[i].key@] == self.entries@[i].stamp()
            }
        &&& forall|k: Seq<char>|
            #[trigger] self.model@.contains_key(k) ==> exists|i: int|
                0 <= i < self.entries@.len() && self.entries@[i].key@ == k
    }

    /// An empty store whose entries live for `ttl_seconds`.
    pub fn new(ttl_seconds: u64) -> (r: MemoryStore)
        ensures
            r.wf(),
            r@ == StoreModel::empty(ttl_seconds),
    {
        MemoryStore { entries: Vec::new(), ttl_seconds, model: Ghost(Map::empty()) }
    }

    /// The time-to-live that applies to every entry.
    pub fn ttl_seconds(&self) -> (r: u64)
        ensures
            r == self@.ttl_seconds,
    {
        self.ttl_seconds
    }

    /// The position of `key` in the entries vector, if it is there.
    fn find(&self, key: &String) -> (r: Option<usize>)
        requires
            self.wf(),
        ensures
            r matches Some(i) ==> i < self.entries@.len() && self.entries@[i as int].key@ == key@,
            r is None ==> !self.model@.contains_key(key@),
    {
        let mut i: usize = 0;
        while i < self.entries.len()
            invariant
                self.wf(),
                i <= self.entries@.len(),
                forall|j: int| 0 <= j < i ==> self.entries@[j].key@ != key@,
            decreases self.entries@.len() - i,
        {
            if self.entries[i].key == *key {
                return Some(i);
            }
            i = i + 1;
        }
        None
    }

    /// Reads `key` at time `now_ms`: the value if present and not expired.
    pub fn get(&self, key: &String, now_ms: u64) -> (r: Option<String>)
        requires
            self.wf(),
        ensures
            match self@.lookup(key@, now_ms) {
                Some(v) => r matches Some(x) && x@ == v,
                None => r is None,
            },
    {
        match self.find(key) {
            None => None,
            Some(i) => {
                let e = &self.entries[i];
                let age: u64 = if now_ms >= e.stored_at_ms {
                    now_ms - e.stored_at_ms
                } else {
                    0
                };
                let ttl = self.ttl_seconds;
                assert((age / 1000 < ttl) <==> (age < ttl * 1000)) by (nonlinear_arith);
                if age / 1000 < ttl {
                    Some(e.value.clone())
                } else {
                    None
                }
            },
        }
    }

    /// Writes `value` under `key` at time `now_ms`, replacing any earlier
    /// entry and restarting its expiration clock.
    pub fn set(&mut self, key: String, value: String, now_ms: u64)
        requires
            old(self).wf(),
        ensures
            final(self).wf(),
            final(self)@ == old(self)@.store(key@, value@, now_ms),
    {
        let ghost k = key@;
        let ghost stamp = Stamped { value: value@, stored_at_ms: now_ms };
        let ghost pre = self.entries@;
        let pos: usize;
        match self.find(&key) {
            Some(i) => {
                self.entries.set(i, Entry { key, value, stored_at_ms: now_ms });
                pos = i;
            },
            None => {
                self.entries.push(Entry { key, value, stored_at_ms: now_ms });
                pos = self.entries.len() - 1;
                assert forall|i: int| 0 <= i < pre.len() implies pre[i].key@ != k by {
                    assert(self.model@.contains_key(pre[i].key@));
                }
            },
        }
        self.model = Ghost(self.model@.insert(k, stamp));
        assert(self.entries@[pos as int].key@ == k);
        assert forall|kk: Seq<char>| #[trigger] self.model@.contains_key(kk) implies exists|i: int|
            0 <= i < self.entries@.len() && self.entries@[i].key@ == kk by {
            if kk == k {
                assert(self.entries@[pos as int].key@ == kk);
            } else {
                let j: int = choose|j: int| 0 <= j < pre.len() && pre[j].key@ == kk;
                assert(self.entries@[j].key@ == kk);
            }
        }
    }

    /// Removes every entry.
    pub fn clear_all(&mut self)
        requires
            old(self).wf(),
        ensures
            final(self).wf(),
            final(self)@ == old(self)@.cleared(),
    {
        self.entries = Vec::new();
        self.model = Ghost(Map::empty());
    }
}

} // verus!
