//! The store: a bounded map from keys to values, and the operations that
//! the `umoka` commands perform on it.

use micro_moka::unsync::Cache;
use vstd::prelude::*;

use crate::cache::{
    cache_capacity, cache_contains_key, cache_entries, cache_entry_count, cache_get, cache_insert,
    cache_invalidate_all, cache_remove, insert_outcome, insertion_fits, new_cache, slot_limit,
};
use crate::laws::law_put_stays_bounded;
use crate::value::StoredValue;

verus! {

/// The capacity of the store that the plugin keeps.
pub const DEFAULT_MAX_CAPACITY: u64 = 1024;

/// `a + b`, held at the bounds of `i64` where it would leave them.
pub open spec fn saturating_sum(a: i64, b: i64) -> i64 {
    if a + b > i64::MAX {
        i64::MAX
    } else if a + b < i64::MIN {
        i64::MIN
    } else {
        (a + b) as i64
    }
}

/// Adds `b` to `a`, saturating at the bounds of `i64` (as `i64::saturating_add`).
pub fn saturating_add(a: i64, b: i64) -> (r: i64)
    ensures
        r == saturating_sum(a, b),
{
    if b > 0 && a > i64::MAX - b {
        i64::MAX
    } else if b < 0 && a < i64::MIN - b {
        i64::MIN
    } else {
        a + b
    }
}

/// What `put_if_absent(key, value)` does to a store that held `old` with
/// capacity `cap`: a present key keeps its value and is reported with it;
/// a missing key is stored as `insert_outcome` says and `value` is reported.
pub open spec fn put_if_absent_outcome(
    old: Map<Seq<char>, StoredValue>,
    cap: nat,
    key: Seq<char>,
    value: StoredValue,
    r: (bool, StoredValue),
    new: Map<Seq<char>, StoredValue>,
) -> bool {
    if old.contains_key(key) {
        r == (false, old[key]) && new == old
    } else {
        r == (true, value) && insert_outcome(old, cap, key, value, new)
    }
}

/// What `get_or_put(key, value)` does to a store that held `old` with
/// capacity `cap`: a present key's value is returned and nothing changes;
/// a missing key is stored as `insert_outcome` says and `value` returned.
pub open spec fn get_or_put_outcome(
    old: Map<Seq<char>, StoredValue>,
    cap: nat,
    key: Seq<char>,
    value: StoredValue,
    r: StoredValue,
    new: Map<Seq<char>, StoredValue>,
) -> bool {
    if old.contains_key(key) {
        r == old[key] && new == old
    } else {
        r == value && insert_outcome(old, cap, key, value, new)
    }
}

/// What `incr(key, delta, span)` does to a store that held `old` with
/// capacity `cap`: an integer `n` under the key becomes the saturated sum
/// `n + delta`, which is returned; a missing key gets `delta`, stored as
/// `insert_outcome` says; any other value stays, and the call fails.
pub open spec fn incr_outcome(
    old: Map<Seq<char>, StoredValue>,
    cap: nat,
    key: Seq<char>,
    delta: i64,
    span: nu_protocol::Span,
    r: Result<i64, &'static str>,
    new: Map<Seq<char>, StoredValue>,
) -> bool {
    if !old.contains_key(key) {
        r == Ok::<i64, &'static str>(delta) && insert_outcome(
            old,
            cap,
            key,
            StoredValue::Int { val: delta, span },
            new,
        )
    } else if old[key] is Int {
        let n = saturating_sum(old[key]->val, delta);
        r == Ok::<i64, &'static str>(n) && new == old.insert(key, StoredValue::Int { val: n, span })
    } else {
        r == Err::<i64, &'static str>("Value is not an integer") && new == old
    }
}

/// The figures that `umoka stats` reports.
#[derive(Debug, Clone, Copy, PartialEq, Eq)]
pub struct StoreStats {
    pub entry_count: i64,
    pub max_capacity: i64,
}

/// A bounded in-memory `key -> value` store.
pub struct Store {
    cache: Cache<String, StoredValue>,
    max_capacity: u64,
}

impl View for Store {
    type V = Map<Seq<char>, StoredValue>;

    /// The entries of the store, by key.
    closed spec fn view(&self) -> Map<Seq<char>, StoredValue> {
        cache_entries(self.cache)
    }
}

impl Store {
    /// The number of entries the store was made to hold at most.
    pub closed spec fn capacity(&self) -> nat {
        self.max_capacity as nat
    }

    /// The store's invariant: the cache has the store's capacity, and holds
    /// finitely many entries, no more than that capacity and no more than
    /// micro-moka can find slots for.
    #[verifier::type_invariant]
    spec fn inv(self) -> bool {
        &&& cache_capacity(self.cache) == self.max_capacity
        &&& cache_entries(self.cache).dom().finite()
        &&& cache_entries(self.cache).len() <= self.max_capacity
        &&& cache_entries(self.cache).len() <= slot_limit()
    }

    /// An empty store that holds at most `max_capacity` entries.
    pub fn new(max_capacity: u64) -> (s: Self)
        ensures
            s@ == Map::<Seq<char>, StoredValue>::empty(),
            s.capacity() == max_capacity,
    {
        let s = Store { cache: new_cache(max_capacity), max_capacity };
        assert(s@ =~= Map::<Seq<char>, StoredValue>::empty());
        s
    }

    /// Whether a value can be stored under `key` without micro-moka running
    /// out of slots, as the operations that may store one need.
    pub fn can_store(&self, key: &str) -> (r: bool)
        ensures
            r == insertion_fits(self@, self.capacity(), key@),
    {
        proof {
            use_type_invariant(self);
        }
        let count = cache_entry_count(&self.cache);
        cache_contains_key(&self.cache, key) || count < 2147483646 || count >= self.max_capacity
    }

    /// Moves the cache out of the store, leaving an empty cache of the same
    /// capacity in its place, so that the invariant holds while the cache
    /// is worked on.
    fn take_cache(&mut self) -> (c: Cache<String, StoredValue>)
        ensures
            c == old(self).cache,
            final(self).max_capacity == old(self).max_capacity,
    {
        let mut c = new_cache(self.max_capacity);
        std::mem::swap(&mut c, &mut self.cache);
        c
    }

    /// Stores `value` under `key`, as micro-moka inserts it.
    pub fn put(&mut self, key: String, value: StoredValue)
        requires
            insertion_fits(old(self)@, old(self).capacity(), key@),
        ensures
            final(self).capacity() == old(self).capacity(),
            insert_outcome(old(self)@, old(self).capacity(), key@, value, final(self)@),
    {
        proof {
            use_type_invariant(&*self);
        }
        let mut cache = self.take_cache();
        cache_insert(&mut cache, key, value);
        proof {
            law_put_stays_bounded(
                cache_entries(old(self).cache),
                old(self).max_capacity as nat,
                key@,
                value,
                cache_entries(cache),
            );
        }
        self.cache = cache;
    }

    /// Stores `value` under `key` unless the key is already present.
    /// Returns whether it stored, and the value now under the key (the
    /// one that was there, or `value`).
    pub fn put_if_absent(&mut self, key: String, value: StoredValue) -> (r: (bool, StoredValue))
        requires
            insertion_fits(old(self)@, old(self).capacity(), key@),
        ensures
            final(self).capacity() == old(self).capacity(),
            put_if_absent_outcome(old(self)@, old(self).capacity(), key@, value, r, final(self)@),
    {
        proof {
            use_type_invariant(&*self);
        }
        let mut cache = self.take_cache();
        let r = match cache_get(&mut cache, key.as_str()) {
            Some(existing) => (false, existing.clone()),
            None => {
                cache_insert(&mut cache, key, value.clone());
                proof {
                    law_put_stays_bounded(
                        cache_entries(old(self).cache),
                        old(self).max_capacity as nat,
                        key@,
                        value,
                        cache_entries(cache),
                    );
                }
                (true, value)
            },
        };
        self.cache = cache;
        r
    }

    /// The value under `key` if there is one; else stores `value` under it
    /// and returns `value`.
    pub fn get_or_put(&mut self, key: String, value: StoredValue) -> (r: StoredValue)
        requires
            insertion_fits(old(self)@, old(self).capacity(), key@),
        ensures
            final(self).capacity() == old(self).capacity(),
            get_or_put_outcome(old(self)@, old(self).capacity(), key@, value, r, final(self)@),
    {
        proof {
            use_type_invariant(&*self);
        }
        let mut cache = self.take_cache();
        let r = match cache_get(&mut cache, key.as_str()) {
            Some(existing) => existing.clone(),
            None => {
                cache_insert(&mut cache, key, value.clone());
                proof {
                    law_put_stays_bounded(
                        cache_entries(old(self).cache),
                        old(self).max_capacity as nat,
                        key@,
                        value,
                        cache_entries(cache),
                    );
                }
                value
            },
        };
        self.cache = cache;
        r
    }

    /// The value under `key`, if any.
    pub fn get(&mut self, key: &str) -> (r: Option<StoredValue>)
        ensures
            final(self).capacity() == old(self).capacity(),
            final(self)@ == old(self)@,
            r == old(self)@.get(key@),
    {
        proof {
            use_type_invariant(&*self);
        }
        let mut cache = self.take_cache();
        let r = match cache_get(&mut cache, key) {
            Some(v) => Some(v.clone()),
            None => None,
        };
        self.cache = cache;
        r
    }

    /// Removes the entry under `key` and returns its value, if there was one.
    pub fn take(&mut self, key: &str) -> (r: Option<StoredValue>)
        ensures
            final(self).capacity() == old(self).capacity(),
            final(self)@ == old(self)@.remove(key@),
            r == old(self)@.get(key@),
    {
        proof {
            use_type_invariant(&*self);
        }
        let mut cache = self.take_cache();
        let r = cache_remove(&mut cache, key);
        self.cache = cache;
        r
    }

    /// Removes the entry under `key`; returns whether there was one.
    pub fn delete(&mut self, key: &str) -> (r: bool)
        ensures
            final(self).capacity() == old(self).capacity(),
            final(self)@ == old(self)@.remove(key@),
            r == old(self)@.contains_key(key@),
    {
        self.take(key).is_some()
    }

    /// Whether an entry is held under `key`.
    pub fn has(&mut self, key: &str) -> (r: bool)
        ensures
            final(self).capacity() == old(self).capacity(),
            final(self)@ == old(self)@,
            r == old(self)@.contains_key(key@),
    {
        cache_contains_key(&self.cache, key)
    }

    /// Removes every entry.
    pub fn clear(&mut self)
        ensures
            final(self).capacity() == old(self).capacity(),
            final(self)@ == Map::<Seq<char>, StoredValue>::empty(),
    {
        proof {
            use_type_invariant(&*self);
        }
        let mut cache = self.take_cache();
        cache_invalidate_all(&mut cache);
        assert(cache_entries(cache) =~= Map::<Seq<char>, StoredValue>::empty());
        self.cache = cache;
    }

    /// The number of entries held and the capacity, as `i64`s.
    pub fn stats(&mut self) -> (r: StoreStats)
        ensures
            final(self)@ == old(self)@,
            final(self).capacity() == old(self).capacity(),
            r.entry_count == old(self)@.len(),
            r.entry_count <= old(self).capacity(),
            r.max_capacity == #[verifier::truncate] (old(self).capacity() as i64),
    {
        proof {
            use_type_invariant(&*self);
        }
        let entry_count = cache_entry_count(&self.cache);
        StoreStats { entry_count: entry_count as i64, max_capacity: #[verifier::truncate] (self.max_capacity as i64) }
    }

    /// Adds `delta` to the integer under `key` (saturating at the bounds of
    /// `i64`), or stores `delta` there if the key is missing, and returns
    /// the new integer. A value that is not an integer is left as it is,
    /// and the call fails.
    pub fn incr(&mut self, key: String, delta: i64, span: nu_protocol::Span) -> (r: Result<i64, &'static str>)
        requires
            insertion_fits(old(self)@, old(self).capacity(), key@),
        ensures
            final(self).capacity() == old(self).capacity(),
            incr_outcome(old(self)@, old(self).capacity(), key@, delta, span, r, final(self)@),
    {
        proof {
            use_type_invariant(&*self);
        }
        let mut cache = self.take_cache();
        let current: Option<Option<i64>> = match cache_get(&mut cache, key.as_str()) {
            Some(StoredValue::Int { val, .. }) => Some(Some(*val)),
            Some(_) => Some(None),
            None => None,
        };
        let next: i64 = match current {
            Some(Some(val)) => saturating_add(val, delta),
            Some(None) => {
                self.cache = cache;
                return Err("Value is not an integer");
            },
            None => delta,
        };
        let value = StoredValue::Int { val: next, span };
        cache_insert(&mut cache, key, value);
        proof {
            law_put_stays_bounded(
                cache_entries(old(self).cache),
                old(self).max_capacity as nat,
                key@,
                value,
                cache_entries(cache),
            );
        }
        self.cache = cache;
        Ok(next)
    }
}

} // verus!
