//! Memoization cache: a generic, time-boxed, single-flight cache keyed on
//! full structural equality of the request value.
//!
//! Only successful outcomes are ever stored (`finish_flight` is the only way
//! a value enters), an entry is served only while its time-to-live has not
//! elapsed, and the flight set realizes single-flight deduplication: while a
//! key is in flight, no second caller is told to start the underlying call.
//! The caller supplies the clock as a plain millisecond value and performs
//! the underlying call itself; every decision is made and proved here.

use vstd::prelude::*;
use vstd::laws_eq::obeys_view_eq;

verus! {

/// The time-to-live of a cache entry, in milliseconds.
pub const CACHE_TTL_MILLIS: u64 = 60000;

/// One stored entry: a key, the successful value computed for it, and the
/// moment the computation completed.
pub struct CacheEntry<K, V> {
    pub key: K,
    pub value: V,
    pub created_at: u64,
}

/// Whether an entry may still be served at `now` under time-to-live `ttl`.
pub open spec fn spec_entry_fresh<K, V>(e: CacheEntry<K, V>, ttl: u64, now: u64) -> bool {
    e.created_at <= now && now < e.created_at + ttl
}

/// What one caller is told to do for its key.
#[derive(Clone, Copy, PartialEq, Eq, Structural, Debug)]
pub enum CacheDecision {
    /// A fresh entry exists; serve it, call nothing.
    Hit,
    /// No fresh entry and nobody is computing one: start the underlying
    /// call, after registering the flight.
    Lead,
    /// Somebody else is already computing this key: wait for that flight's
    /// result instead of starting a second call.
    Follow,
}

/// The time-boxed, single-flight memoization cache.
pub struct MemoCache<K, V> {
    store: Vec<CacheEntry<K, V>>,
    pending: Vec<K>,
    ttl_millis: u64,
}

impl<K: PartialEq + View, V> MemoCache<K, V> {
    /// The stored entries, as a mathematical sequence.
    pub closed spec fn entries(&self) -> Seq<CacheEntry<K, V>> {
        self.store@
    }

    /// The keys currently in flight, as a mathematical sequence.
    pub closed spec fn flights(&self) -> Seq<K> {
        self.pending@
    }

    /// The configured time-to-live, in milliseconds.
    pub closed spec fn ttl(&self) -> u64 {
        self.ttl_millis
    }

    /// Well-formedness: no two entries share a key, no two flights share a
    /// key.  Keys are compared over their models.
    pub open spec fn wf(&self) -> bool {
        &&& forall|i: int, j: int|
            0 <= i < j < self.entries().len() ==> self.entries()[i].key@ != self.entries()[j].key@
        &&& forall|i: int, j: int|
            0 <= i < j < self.flights().len() ==> self.flights()[i]@ != self.flights()[j]@
    }

    /// Whether some entry for `kv` may be served at `now`.
    pub open spec fn has_fresh(&self, kv: K::V, now: u64) -> bool {
        exists|i: int|
            0 <= i < self.entries().len() && self.entries()[i].key@ == kv && spec_entry_fresh(
                self.entries()[i],
                self.ttl(),
                now,
            )
    }

    /// The position of the servable entry for `kv` at `now` (meaningful only
    /// under `has_fresh`; unique under `wf`).
    pub open spec fn fresh_index(&self, kv: K::V, now: u64) -> int {
        choose|i: int|
            0 <= i < self.entries().len() && self.entries()[i].key@ == kv && spec_entry_fresh(
                self.entries()[i],
                self.ttl(),
                now,
            )
    }

    /// What a lookup of `kv` at `now` is served: the fresh entry's value, or
    /// nothing.  No stale entry is ever served.
    pub open spec fn served(&self, kv: K::V, now: u64) -> Option<V> {
        if self.has_fresh(kv, now) {
            Some(self.entries()[self.fresh_index(kv, now)].value)
        } else {
            None
        }
    }

    /// Whether a flight for `kv` is underway.
    pub open spec fn in_flight(&self, kv: K::V) -> bool {
        exists|i: int| 0 <= i < self.flights().len() && self.flights()[i]@ == kv
    }

    /// The decision one caller receives for `kv` at `now`.
    pub open spec fn spec_decision(&self, kv: K::V, now: u64) -> CacheDecision {
        if self.has_fresh(kv, now) {
            CacheDecision::Hit
        } else if self.in_flight(kv) {
            CacheDecision::Follow
        } else {
            CacheDecision::Lead
        }
    }

    /// An empty cache with the given time-to-live.
    pub fn new(ttl_millis: u64) -> (c: Self)
        ensures
            c.wf(),
            c.ttl() == ttl_millis,
            c.entries() == Seq::<CacheEntry<K, V>>::empty(),
            c.flights() == Seq::<K>::empty(),
    {
        let c = MemoCache { store: Vec::new(), pending: Vec::new(), ttl_millis };
        proof {
            assert(c.entries() =~= Seq::<CacheEntry<K, V>>::empty());
            assert(c.flights() =~= Seq::<K>::empty());
        }
        c
    }

    /// Serves the fresh entry for `key`, when there is one.  Never serves a
    /// stale entry.
    pub fn lookup(&self, key: &K, now: u64) -> (r: Option<&V>)
        requires
            self.wf(),
            obeys_view_eq::<K>(),
        ensures
            match r {
                Some(v) => self.served(key@, now) == Some(*v),
                None => self.served(key@, now) is None,
            },
    {
        let mut i: usize = 0;
        while i < self.store.len()
            invariant
                self.wf(),
                obeys_view_eq::<K>(),
                i <= self.entries().len(),
                forall|j: int| 0 <= j < i ==> self.entries()[j].key@ != key@,
            decreases self.store.len() - i,
        {
            proof {
                reveal(obeys_view_eq);
            }
            let e = &self.store[i];
            if e.key == *key {
                if e.created_at <= now && now - e.created_at < self.ttl_millis {
                    proof {
                        self.lemma_served_at(key@, now, i as int);
                    }
                    return Some(&e.value);
                } else {
                    proof {
                        assert forall|j: int|
                            0 <= j < self.entries().len() && self.entries()[j].key@ == key@
                                implies !spec_entry_fresh(
                                self.entries()[j],
                                self.ttl(),
                                now,
                            ) by {
                            assert(j == i as int);
                        }
                    }
                    return None;
                }
            }
            i = i + 1;
        }
        None
    }

    /// Whether `key` is in flight right now.
    pub fn is_in_flight(&self, key: &K) -> (r: bool)
        requires
            obeys_view_eq::<K>(),
        ensures
            r == self.in_flight(key@),
    {
        let mut i: usize = 0;
        while i < self.pending.len()
            invariant
                obeys_view_eq::<K>(),
                i <= self.flights().len(),
                forall|j: int| 0 <= j < i ==> self.flights()[j]@ != key@,
            decreases self.pending.len() - i,
        {
            proof {
                reveal(obeys_view_eq);
            }
            if self.pending[i] == *key {
                return true;
            }
            i = i + 1;
        }
        false
    }

    /// The decision for `key` at `now`: serve the fresh entry, follow an
    /// underway flight, or lead a new one.
    pub fn probe(&self, key: &K, now: u64) -> (d: CacheDecision)
        requires
            self.wf(),
            obeys_view_eq::<K>(),
        ensures
            d == self.spec_decision(key@, now),
    {
        match self.lookup(key, now) {
            Some(_) => CacheDecision::Hit,
            None => {
                if self.is_in_flight(key) {
                    CacheDecision::Follow
                } else {
                    CacheDecision::Lead
                }
            },
        }
    }

    /// Registers that the caller is starting the underlying call for `key`.
    pub fn begin_flight(&mut self, key: K)
        requires
            old(self).wf(),
            obeys_view_eq::<K>(),
            !old(self).in_flight(key@),
        ensures
            final(self).wf(),
            final(self).ttl() == old(self).ttl(),
            final(self).entries() == old(self).entries(),
            final(self).flights() == old(self).flights().push(key),
            forall|kv: K::V|
                final(self).in_flight(kv) <==> (old(self).in_flight(kv) || kv == key@),
    {
        let ghost key_view = key@;
        self.pending.push(key);
        proof {
            let n = old(self).flights().len() as int;
            assert(self.flights()[n]@ == key_view);
            assert forall|kv: K::V|
                self.in_flight(kv) <==> (old(self).in_flight(kv) || kv == key_view) by {
                if self.in_flight(kv) {
                    let i = choose|i: int|
                        0 <= i < self.flights().len() && self.flights()[i]@ == kv;
                    if i < n {
                        assert(old(self).flights()[i]@ == kv);
                    }
                }
                if old(self).in_flight(kv) {
                    let i = choose|i: int|
                        0 <= i < old(self).flights().len() && old(self).flights()[i]@ == kv;
                    assert(self.flights()[i]@ == kv);
                }
            }
            assert forall|a: int, b: int|
                0 <= a < b < self.entries().len() implies self.entries()[a].key@
                != self.entries()[b].key@ by {
                assert(self.entries()[a] == old(self).entries()[a]);
                assert(self.entries()[b] == old(self).entries()[b]);
            }
        }
    }

    /// Removes `key` from the flight set without storing anything: the
    /// underlying call failed, so nothing is cached and the next caller
    /// recomputes.
    pub fn cancel_flight(&mut self, key: &K)
        requires
            old(self).wf(),
            obeys_view_eq::<K>(),
        ensures
            final(self).wf(),
            final(self).ttl() == old(self).ttl(),
            final(self).entries() == old(self).entries(),
            forall|kv: K::V|
                final(self).in_flight(kv) <==> (old(self).in_flight(kv) && kv != key@),
    {
        match self.find_flight(key) {
            Some(i) => {
                let ghost before = self.flights();
                self.pending.remove(i);
                proof {
                    self.lemma_flights_after_remove(before, i as int, key@);
                }
            },
            None => {
                proof {
                    assert forall|kv: K::V|
                        self.in_flight(kv) <==> (old(self).in_flight(kv) && kv != key@) by {
                        if self.in_flight(kv) && kv == key@ {
                            let i = choose|i: int|
                                0 <= i < self.flights().len() && self.flights()[i]@ == kv;
                            assert(false);
                        }
                    }
                }
            },
        }
        proof {
            assert forall|a: int, b: int|
                0 <= a < b < self.entries().len() implies self.entries()[a].key@
                != self.entries()[b].key@ by {
                assert(self.entries()[a] == old(self).entries()[a]);
                assert(self.entries()[b] == old(self).entries()[b]);
            }
        }
    }

    /// Stores the successful value computed for `key` and closes its flight:
    /// the entry is servable for exactly one time-to-live from `now`, and
    /// every other key's view of the cache is untouched.
    pub fn finish_flight(&mut self, key: K, value: V, now: u64)
        requires
            old(self).wf(),
            obeys_view_eq::<K>(),
        ensures
            final(self).wf(),
            final(self).ttl() == old(self).ttl(),
            forall|kv: K::V|
                final(self).in_flight(kv) <==> (old(self).in_flight(kv) && kv != key@),
            forall|kv: K::V, t: u64|
                final(self).served(kv, t) == if kv == key@ {
                    if now <= t && t < now + old(self).ttl() {
                        Some(value)
                    } else {
                        None::<V>
                    }
                } else {
                    old(self).served(kv, t)
                },
    {
        self.cancel_flight(&key);
        self.store_value(key, value, now);
    }

    fn find_flight(&self, key: &K) -> (r: Option<usize>)
        requires
            obeys_view_eq::<K>(),
        ensures
            match r {
                Some(i) => i < self.flights().len() && self.flights()[i as int]@ == key@,
                None => forall|j: int|
                    0 <= j < self.flights().len() ==> self.flights()[j]@ != key@,
            },
    {
        let mut i: usize = 0;
        while i < self.pending.len()
            invariant
                obeys_view_eq::<K>(),
                i <= self.flights().len(),
                forall|j: int| 0 <= j < i ==> self.flights()[j]@ != key@,
            decreases self.pending.len() - i,
        {
            proof {
                reveal(obeys_view_eq);
            }
            if self.pending[i] == *key {
                return Some(i);
            }
            i = i + 1;
        }
        None
    }

    fn find_entry(&self, key: &K) -> (r: Option<usize>)
        requires
            obeys_view_eq::<K>(),
        ensures
            match r {
                Some(i) => i < self.entries().len() && self.entries()[i as int].key@ == key@,
                None => forall|j: int|
                    0 <= j < self.entries().len() ==> self.entries()[j].key@ != key@,
            },
    {
        let mut i: usize = 0;
        while i < self.store.len()
            invariant
                obeys_view_eq::<K>(),
                i <= self.entries().len(),
                forall|j: int| 0 <= j < i ==> self.entries()[j].key@ != key@,
            decreases self.store.len() - i,
        {
            proof {
                reveal(obeys_view_eq);
            }
            if self.store[i].key == *key {
                return Some(i);
            }
            i = i + 1;
        }
        None
    }

    /// Inserts `(key, value, now)` into the store, displacing the previous
    /// entry for the key when one exists.
    fn store_value(&mut self, key: K, value: V, now: u64)
        requires
            old(self).wf(),
            obeys_view_eq::<K>(),
        ensures
            final(self).wf(),
            final(self).ttl() == old(self).ttl(),
            final(self).flights() == old(self).flights(),
            forall|kv: K::V, t: u64|
                final(self).served(kv, t) == if kv == key@ {
                    if now <= t && t < now + old(self).ttl() {
                        Some(value)
                    } else {
                        None::<V>
                    }
                } else {
                    old(self).served(kv, t)
                },
    {
        let ghost key_view = key@;
        match self.find_entry(&key) {
            Some(i) => {
                let ghost before = self.entries();
                self.store.remove(i);
                proof {
                    self.lemma_entries_after_remove(before, i as int, key_view, old(self));
                }
            },
            None => {
                proof {
                    assert(forall|j: int|
                        0 <= j < self.entries().len() ==> self.entries()[j].key@ != key_view);
                }
            },
        }
        let ghost mid = *self;
        self.store.push(CacheEntry { key, value, created_at: now });
        proof {
            self.lemma_served_after_push(mid, old(self), key_view, value, now);
            assert forall|a: int, b: int|
                0 <= a < b < self.flights().len() implies self.flights()[a]@
                != self.flights()[b]@ by {
                assert(self.flights()[a] == old(self).flights()[a]);
                assert(self.flights()[b] == old(self).flights()[b]);
            }
        }
    }

    /// Helper: when entry `i` matches `kv` and is fresh at `now`, the cache
    /// serves exactly that entry's value.
    proof fn lemma_served_at(&self, kv: K::V, now: u64, i: int)
        requires
            self.wf(),
            0 <= i < self.entries().len(),
            self.entries()[i].key@ == kv,
            spec_entry_fresh(self.entries()[i], self.ttl(), now),
        ensures
            self.served(kv, now) == Some(self.entries()[i].value),
    {
        assert(self.has_fresh(kv, now));
        let j = self.fresh_index(kv, now);
        assert(0 <= j < self.entries().len() && self.entries()[j].key@ == kv);
        assert(j == i);
    }

    proof fn lemma_flights_after_remove(&self, before: Seq<K>, i: int, kv: K::V)
        requires
            0 <= i < before.len(),
            before[i]@ == kv,
            forall|a: int, b: int| 0 <= a < b < before.len() ==> before[a]@ != before[b]@,
            self.flights() == before.remove(i),
        ensures
            forall|a: int, b: int|
                0 <= a < b < self.flights().len() ==> self.flights()[a]@ != self.flights()[b]@,
            forall|kv2: K::V|
                self.in_flight(kv2) <==> ((exists|j: int|
                    0 <= j < before.len() && before[j]@ == kv2) && kv2 != kv),
    {
        assert forall|a: int, b: int|
            0 <= a < b < self.flights().len() implies self.flights()[a]@
            != self.flights()[b]@ by {
            let a0 = if a < i {
                a
            } else {
                a + 1
            };
            let b0 = if b < i {
                b
            } else {
                b + 1
            };
            assert(self.flights()[a] == before[a0]);
            assert(self.flights()[b] == before[b0]);
        }
        assert forall|kv2: K::V|
            self.in_flight(kv2) <==> ((exists|j: int|
                0 <= j < before.len() && before[j]@ == kv2) && kv2 != kv) by {
            if self.in_flight(kv2) {
                let a = choose|a: int|
                    0 <= a < self.flights().len() && self.flights()[a]@ == kv2;
                let a0 = if a < i {
                    a
                } else {
                    a + 1
                };
                assert(self.flights()[a] == before[a0]);
                assert(before[a0]@ == kv2);
                if a0 != i {
                    if a0 < i {
                        assert(before[a0]@ != before[i]@);
                    } else {
                        assert(before[i]@ != before[a0]@);
                    }
                }
            }
            if (exists|j: int| 0 <= j < before.len() && before[j]@ == kv2) && kv2 != kv {
                let j = choose|j: int| 0 <= j < before.len() && before[j]@ == kv2;
                assert(j != i);
                let a = if j < i {
                    j
                } else {
                    j - 1
                };
                assert(self.flights()[a] == before[j]);
                assert(self.in_flight(kv2));
            }
        }
    }

    proof fn lemma_entries_after_remove(
        &self,
        before: Seq<CacheEntry<K, V>>,
        i: int,
        kv: K::V,
        orig: &Self,
    )
        requires
            0 <= i < before.len(),
            before[i].key@ == kv,
            forall|a: int, b: int| 0 <= a < b < before.len() ==> before[a].key@ != before[b].key@,
            self.entries() == before.remove(i),
            orig.entries() == before,
            orig.ttl() == self.ttl(),
        ensures
            forall|a: int, b: int|
                0 <= a < b < self.entries().len() ==> self.entries()[a].key@
                    != self.entries()[b].key@,
            forall|j: int| 0 <= j < self.entries().len() ==> self.entries()[j].key@ != kv,
            forall|kv2: K::V, t: u64|
                kv2 != kv ==> self.served(kv2, t) == orig.served(kv2, t),
    {
        assert forall|a: int, b: int|
            0 <= a < b < self.entries().len() implies self.entries()[a].key@
            != self.entries()[b].key@ by {
            let a0 = if a < i {
                a
            } else {
                a + 1
            };
            let b0 = if b < i {
                b
            } else {
                b + 1
            };
            assert(self.entries()[a] == before[a0]);
            assert(self.entries()[b] == before[b0]);
        }
        assert forall|j: int| 0 <= j < self.entries().len() implies self.entries()[j].key@
            != kv by {
            let j0 = if j < i {
                j
            } else {
                j + 1
            };
            assert(self.entries()[j] == before[j0]);
            if j0 < i {
                assert(before[j0].key@ != before[i].key@);
            } else if j0 > i {
                assert(before[i].key@ != before[j0].key@);
            }
        }
        assert forall|kv2: K::V, t: u64| kv2 != kv implies self.served(kv2, t) == orig.served(
            kv2,
            t,
        ) by {
            if self.has_fresh(kv2, t) {
                let a = self.fresh_index(kv2, t);
                let a0 = if a < i {
                    a
                } else {
                    a + 1
                };
                assert(self.entries()[a] == before[a0]);
                assert(orig.has_fresh(kv2, t));
                let b0 = orig.fresh_index(kv2, t);
                assert(orig.entries()[b0].key@ == kv2);
                if a0 < b0 {
                    assert(before[a0].key@ != before[b0].key@);
                } else if b0 < a0 {
                    assert(before[b0].key@ != before[a0].key@);
                }
                assert(b0 == a0);
            }
            if orig.has_fresh(kv2, t) {
                let b0 = orig.fresh_index(kv2, t);
                assert(before[b0].key@ == kv2);
                assert(b0 != i);
                let a = if b0 < i {
                    b0
                } else {
                    b0 - 1
                };
                assert(self.entries()[a] == before[b0]);
                assert(self.has_fresh(kv2, t));
            }
        }
    }

    proof fn lemma_served_after_push(
        &self,
        mid: Self,
        orig: &Self,
        kv: K::V,
        value: V,
        now: u64,
    )
        requires
            forall|a: int, b: int|
                0 <= a < b < mid.entries().len() ==> mid.entries()[a].key@
                    != mid.entries()[b].key@,
            forall|j: int| 0 <= j < mid.entries().len() ==> mid.entries()[j].key@ != kv,
            forall|kv2: K::V, t: u64|
                kv2 != kv ==> mid.served(kv2, t) == orig.served(kv2, t),
            mid.ttl() == orig.ttl(),
            self.ttl() == mid.ttl(),
            self.entries().len() == mid.entries().len() + 1,
            self.entries()[mid.entries().len() as int].key@ == kv,
            self.entries()[mid.entries().len() as int].value == value,
            self.entries()[mid.entries().len() as int].created_at == now,
            forall|j: int| 0 <= j < mid.entries().len() ==> self.entries()[j] == mid.entries()[j],
        ensures
            forall|a: int, b: int|
                0 <= a < b < self.entries().len() ==> self.entries()[a].key@
                    != self.entries()[b].key@,
            forall|kv2: K::V, t: u64|
                self.served(kv2, t) == if kv2 == kv {
                    if now <= t && t < now + orig.ttl() {
                        Some(value)
                    } else {
                        None::<V>
                    }
                } else {
                    orig.served(kv2, t)
                },
    {
        let n = mid.entries().len() as int;
        assert forall|a: int, b: int|
            0 <= a < b < self.entries().len() implies self.entries()[a].key@
            != self.entries()[b].key@ by {
            if b < n {
                assert(self.entries()[a] == mid.entries()[a]);
                assert(self.entries()[b] == mid.entries()[b]);
            } else {
                assert(self.entries()[a] == mid.entries()[a]);
                assert(mid.entries()[a].key@ != kv);
            }
        }
        assert forall|kv2: K::V, t: u64|
            self.served(kv2, t) == (if kv2 == kv {
                if now <= t && t < now + orig.ttl() {
                    Some(value)
                } else {
                    None::<V>
                }
            } else {
                orig.served(kv2, t)
            }) by {
            if kv2 == kv {
                if now <= t && t < now + orig.ttl() {
                    assert(spec_entry_fresh(self.entries()[n], self.ttl(), t));
                    assert(self.has_fresh(kv2, t));
                    let j = self.fresh_index(kv2, t);
                    assert(self.entries()[j].key@ == kv2);
                    if j < n {
                        assert(self.entries()[j] == mid.entries()[j]);
                        assert(mid.entries()[j].key@ != kv);
                    }
                    assert(j == n);
                } else {
                    if self.has_fresh(kv2, t) {
                        let j = self.fresh_index(kv2, t);
                        if j < n {
                            assert(self.entries()[j] == mid.entries()[j]);
                            assert(mid.entries()[j].key@ != kv);
                        }
                        assert(j == n);
                        assert(false);
                    }
                }
            } else {
                if self.has_fresh(kv2, t) {
                    let j = self.fresh_index(kv2, t);
                    assert(self.entries()[j].key@ == kv2);
                    assert(j != n);
                    assert(self.entries()[j] == mid.entries()[j]);
                    assert(mid.has_fresh(kv2, t));
                    let j2 = mid.fresh_index(kv2, t);
                    if j2 < j {
                        assert(mid.entries()[j2].key@ != mid.entries()[j].key@);
                    } else if j < j2 {
                        assert(mid.entries()[j].key@ != mid.entries()[j2].key@);
                    }
                    assert(j2 == j);
                    assert(mid.served(kv2, t) == Some(mid.entries()[j2].value));
                }
                if mid.has_fresh(kv2, t) {
                    let j2 = mid.fresh_index(kv2, t);
                    assert(self.entries()[j2] == mid.entries()[j2]);
                    assert(self.has_fresh(kv2, t));
                }
            }
        }
    }
}

/// Identical results: any two lookups of the same key that are served at
/// all, at any two moments, are served the same value — the cache never
/// holds two entries for one key.
pub proof fn lemma_served_agrees<K: PartialEq + View, V>(
    c: MemoCache<K, V>,
    kv: K::V,
    t1: u64,
    t2: u64,
)
    requires
        c.wf(),
        c.has_fresh(kv, t1),
        c.has_fresh(kv, t2),
    ensures
        c.served(kv, t1) == c.served(kv, t2),
{
    let i1 = c.fresh_index(kv, t1);
    let i2 = c.fresh_index(kv, t2);
    assert(c.entries()[i1].key@ == kv);
    assert(c.entries()[i2].key@ == kv);
    if i1 < i2 {
        assert(c.entries()[i1].key@ != c.entries()[i2].key@);
    } else if i2 < i1 {
        assert(c.entries()[i2].key@ != c.entries()[i1].key@);
    }
    assert(i1 == i2);
}

/// The time-to-live window: an entry stored at `created` is served, with
/// exactly its stored value, at every moment from `created` to the end of
/// the time-to-live — so every equal request in that window is a hit and
/// starts no call of its own.
pub proof fn lemma_ttl_window<K: PartialEq + View, V>(
    c: MemoCache<K, V>,
    kv: K::V,
    value: V,
    created: u64,
    i: int,
    t: u64,
)
    requires
        c.wf(),
        0 <= i < c.entries().len(),
        c.entries()[i].key@ == kv,
        c.entries()[i].value == value,
        c.entries()[i].created_at == created,
        created <= t,
        t < created + c.ttl(),
    ensures
        c.served(kv, t) == Some(value),
        c.spec_decision(kv, t) == CacheDecision::Hit,
{
    assert(spec_entry_fresh(c.entries()[i], c.ttl(), t));
    assert(c.has_fresh(kv, t));
    let j = c.fresh_index(kv, t);
    assert(c.entries()[j].key@ == kv);
    if i < j {
        assert(c.entries()[i].key@ != c.entries()[j].key@);
    } else if j < i {
        assert(c.entries()[j].key@ != c.entries()[i].key@);
    }
    assert(j == i);
}

/// Single-flight: while a key is in flight, no caller of that key is told
/// to lead a second call; it is served the entry or told to follow the
/// flight already underway.
pub proof fn lemma_no_second_lead<K: PartialEq + View, V>(c: MemoCache<K, V>, kv: K::V, now: u64)
    requires
        c.in_flight(kv),
    ensures
        c.spec_decision(kv, now) != CacheDecision::Lead,
{
}

} // verus!
