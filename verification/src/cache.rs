//! The micro-moka cache that holds the entries, as Verus sees it: a finite
//! map from keys to values, and the capacity it was made with.

use micro_moka::unsync::Cache;
use vstd::prelude::*;

use crate::value::StoredValue;

verus! {

/// micro-moka's single-threaded cache.
#[verifier::external_type_specification]
#[verifier::external_body]
#[verifier::reject_recursive_types(K)]
#[verifier::reject_recursive_types(V)]
#[verifier::reject_recursive_types(S)]
pub struct ExCache<K, V, S>(Cache<K, V, S>);

/// The entries that a cache holds, by key.
pub uninterp spec fn cache_entries(cache: Cache<String, StoredValue>) -> Map<Seq<char>, StoredValue>;

/// The number of entries that a cache was made to hold at most.
pub uninterp spec fn cache_capacity(cache: Cache<String, StoredValue>) -> nat;

/// `Cache::new`: an empty cache bounded by `max_capacity` entries.
#[verifier::external_body]
pub(crate) fn new_cache(max_capacity: u64) -> (c: Cache<String, StoredValue>)
    ensures
        cache_entries(c).is_empty(),
        cache_capacity(c) == max_capacity,
{
    Cache::new(max_capacity)
}


/// The number of resident entries below which micro-moka can always find a
/// slot for one more (its slab holds fewer than 2^31 - 2 slots).
pub open spec fn slot_limit() -> nat {
    2147483646
}

/// Whether micro-moka can insert under `key` into a cache holding `entries`
/// with capacity `cap` without asking its slab for a slot at or beyond
/// `slot_limit`: the key is present (its value is replaced in place), or
/// fewer than `slot_limit` entries are held, or the cache is full (an
/// eviction frees a slot first, or a cache of capacity zero admits nothing).
pub open spec fn insertion_fits(entries: Map<Seq<char>, StoredValue>, cap: nat, key: Seq<char>) -> bool {
    entries.contains_key(key) || entries.len() < slot_limit() || entries.len() >= cap
}

/// What `Cache::insert(key, value)` makes of a cache that held `old` and was
/// made with capacity `cap`: a present key takes the new value; a new key is
/// admitted while there is room; a cache of capacity zero admits nothing;
/// a full cache first evicts one resident entry (SIEVE's sweep always finds
/// one; which one depends on the access history, which this model leaves
/// open).
pub open spec fn insert_outcome(
    old: Map<Seq<char>, StoredValue>,
    cap: nat,
    key: Seq<char>,
    value: StoredValue,
    new: Map<Seq<char>, StoredValue>,
) -> bool {
    if old.contains_key(key) || old.len() < cap {
        new == old.insert(key, value)
    } else if cap == 0 {
        new == old
    } else {
        exists|victim: Seq<char>|
            #[trigger] old.contains_key(victim) && new == old.remove(victim).insert(key, value)
    }
}

/// `Cache::insert`: stores `value` under `key` as `insert_outcome` says.
/// The slab of the cache panics when asked for a fresh slot at
/// `slot_limit`, so the call is made only where `insertion_fits`.
#[verifier::external_body]
pub(crate) fn cache_insert(cache: &mut Cache<String, StoredValue>, key: String, value: StoredValue)
    requires
        insertion_fits(cache_entries(*old(cache)), cache_capacity(*old(cache)), key@),
    ensures
        cache_capacity(*final(cache)) == cache_capacity(*old(cache)),
        insert_outcome(
            cache_entries(*old(cache)),
            cache_capacity(*old(cache)),
            key@,
            value,
            cache_entries(*final(cache)),
        ),
{
    cache.insert(key, value)
}

/// `Cache::get`: the value under `key`, if any. The call marks the entry as
/// recently used for the eviction policy, which leaves the entries as they are.
#[verifier::external_body]
pub(crate) fn cache_get<'a>(cache: &'a mut Cache<String, StoredValue>, key: &str) -> (r: Option<&'a StoredValue>)
    ensures
        cache_entries(*final(cache)) == cache_entries(*old(cache)),
        cache_capacity(*final(cache)) == cache_capacity(*old(cache)),
        match r {
            Some(v) => cache_entries(*old(cache)).contains_key(key@) && *v == cache_entries(*old(cache))[key@],
            None => !cache_entries(*old(cache)).contains_key(key@),
        },
{
    cache.get(key)
}

/// `Cache::remove`: takes the entry under `key` out of the cache and returns
/// its value, if there was one.
#[verifier::external_body]
pub(crate) fn cache_remove(cache: &mut Cache<String, StoredValue>, key: &str) -> (r: Option<StoredValue>)
    ensures
        cache_entries(*final(cache)) == cache_entries(*old(cache)).remove(key@),
        cache_capacity(*final(cache)) == cache_capacity(*old(cache)),
        match r {
            Some(v) => cache_entries(*old(cache)).contains_key(key@) && v == cache_entries(*old(cache))[key@],
            None => !cache_entries(*old(cache)).contains_key(key@),
        },
{
    cache.remove(key)
}

/// `Cache::contains_key`: whether an entry is held under `key`.
#[verifier::external_body]
pub(crate) fn cache_contains_key(cache: &Cache<String, StoredValue>, key: &str) -> (r: bool)
    ensures
        r == cache_entries(*cache).contains_key(key@),
{
    cache.contains_key(key)
}

/// `Cache::invalidate_all`: drops every entry.
#[verifier::external_body]
pub(crate) fn cache_invalidate_all(cache: &mut Cache<String, StoredValue>)
    ensures
        cache_entries(*final(cache)).is_empty(),
        cache_capacity(*final(cache)) == cache_capacity(*old(cache)),
{
    cache.invalidate_all()
}

/// `Cache::entry_count`: the number of entries held.
#[verifier::external_body]
pub(crate) fn cache_entry_count(cache: &Cache<String, StoredValue>) -> (r: u64)
    ensures
        r == cache_entries(*cache).len(),
{
    cache.entry_count()
}

} // verus!
