//! What holds of the store across calls, stated over the relations that
//! the operations' contracts use.

use vstd::prelude::*;

use crate::cache::{insert_outcome, insertion_fits, slot_limit};
use crate::commands::value_input;
use crate::store::{get_or_put_outcome, incr_outcome, put_if_absent_outcome, saturating_sum};
use crate::value::StoredValue;

verus! {

/// A store of nonzero capacity gives back, under a key, the value that
/// was last put there.
pub proof fn law_put_then_get(
    old: Map<Seq<char>, StoredValue>,
    cap: nat,
    key: Seq<char>,
    value: StoredValue,
    new: Map<Seq<char>, StoredValue>,
)
    requires
        insert_outcome(old, cap, key, value, new),
        cap > 0,
    ensures
        new.get(key) == Some(value),
{
}

/// A store of capacity zero keeps nothing that is put into it.
pub proof fn law_zero_capacity_keeps_nothing(
    old: Map<Seq<char>, StoredValue>,
    key: Seq<char>,
    value: StoredValue,
    new: Map<Seq<char>, StoredValue>,
)
    requires
        old.len() == 0,
        old.dom().finite(),
        insert_outcome(old, 0, key, value, new),
    ensures
        new == old,
        !new.contains_key(key),
{
    assert(!old.contains_key(key));
}

/// A put leaves every other key as it was while the key is present or the
/// store has room.
pub proof fn law_put_spares_others_with_room(
    old: Map<Seq<char>, StoredValue>,
    cap: nat,
    key: Seq<char>,
    value: StoredValue,
    new: Map<Seq<char>, StoredValue>,
    other: Seq<char>,
)
    requires
        insert_outcome(old, cap, key, value, new),
        old.contains_key(key) || old.len() < cap,
        other != key,
    ensures
        new.get(other) == old.get(other),
{
}

/// Every entry of `old` under a key other than `key` and `victim` is
/// still held in `new`.
pub open spec fn keeps_all_but(
    old: Map<Seq<char>, StoredValue>,
    new: Map<Seq<char>, StoredValue>,
    key: Seq<char>,
    victim: Seq<char>,
) -> bool {
    forall|k: Seq<char>| k != key && k != victim && #[trigger] old.contains_key(k) ==> new.contains_key(k)
}

/// A put adds no key but its own, changes no value but its own key's, and
/// drops at most one other entry: the one it evicts from a full store.
pub proof fn law_put_evicts_at_most_one(
    old: Map<Seq<char>, StoredValue>,
    cap: nat,
    key: Seq<char>,
    value: StoredValue,
    new: Map<Seq<char>, StoredValue>,
)
    requires
        insert_outcome(old, cap, key, value, new),
    ensures
        forall|k: Seq<char>|
            k != key && #[trigger] new.contains_key(k) ==> old.contains_key(k) && new[k] == old[k],
        exists|victim: Seq<char>| #[trigger] keeps_all_but(old, new, key, victim),
{
    if old.contains_key(key) || old.len() < cap {
        assert(keeps_all_but(old, new, key, key));
    } else if cap == 0 {
        assert(keeps_all_but(old, new, key, key));
    } else {
        let victim = choose|victim: Seq<char>|
            #[trigger] old.contains_key(victim) && new == old.remove(victim).insert(key, value);
        assert(keeps_all_but(old, new, key, victim));
    }
}

/// A put never takes the store beyond its capacity, nor beyond the slots
/// that the cache can find, and keeps it finite.
pub proof fn law_put_stays_bounded(
    old: Map<Seq<char>, StoredValue>,
    cap: nat,
    key: Seq<char>,
    value: StoredValue,
    new: Map<Seq<char>, StoredValue>,
)
    requires
        old.dom().finite(),
        old.len() <= cap,
        old.len() <= slot_limit(),
        insertion_fits(old, cap, key),
        insert_outcome(old, cap, key, value, new),
    ensures
        new.dom().finite(),
        new.len() <= cap,
        new.len() <= slot_limit(),
{
    if old.contains_key(key) || old.len() < cap {
    } else if cap == 0 {
    } else {
        let victim = choose|victim: Seq<char>|
            #[trigger] old.contains_key(victim) && new == old.remove(victim).insert(key, value);
        assert(old.remove(victim).len() == old.len() - 1);
    }
}

/// Put, get, take: a store of nonzero capacity gives back the value put,
/// `take` returns it, and afterwards the key is gone.
pub proof fn law_put_take_roundtrip(
    s0: Map<Seq<char>, StoredValue>,
    cap: nat,
    key: Seq<char>,
    value: StoredValue,
    s1: Map<Seq<char>, StoredValue>,
    s2: Map<Seq<char>, StoredValue>,
)
    requires
        insert_outcome(s0, cap, key, value, s1),
        cap > 0,
        s2 == s1.remove(key),
    ensures
        s1.get(key) == Some(value),
        s2.get(key) == None::<StoredValue>,
{
}

/// `take` undoes a `put` of a new key into a store with room: it returns
/// the value put and leaves the entries as they were before.
pub proof fn law_take_undoes_put(
    s0: Map<Seq<char>, StoredValue>,
    cap: nat,
    key: Seq<char>,
    value: StoredValue,
    s1: Map<Seq<char>, StoredValue>,
    s2: Map<Seq<char>, StoredValue>,
)
    requires
        !s0.contains_key(key),
        s0.len() < cap,
        insert_outcome(s0, cap, key, value, s1),
        s2 == s1.remove(key),
    ensures
        s1.get(key) == Some(value),
        s2 == s0,
{
    assert(s2 =~= s0);
}

/// A second `put_if_absent` on a key reports, as already present, the value
/// that the first one left there, and changes nothing.
pub proof fn law_put_if_absent_keeps_first(
    s0: Map<Seq<char>, StoredValue>,
    cap: nat,
    key: Seq<char>,
    first: StoredValue,
    r1: (bool, StoredValue),
    s1: Map<Seq<char>, StoredValue>,
    second: StoredValue,
    r2: (bool, StoredValue),
    s2: Map<Seq<char>, StoredValue>,
)
    requires
        cap > 0,
        put_if_absent_outcome(s0, cap, key, first, r1, s1),
        put_if_absent_outcome(s1, cap, key, second, r2, s2),
    ensures
        r2 == (false, r1.1),
        s2 == s1,
        r1.0 == !s0.contains_key(key),
{
}

/// A second `get_or_put` on a key returns what the first one returned, and
/// changes nothing.
pub proof fn law_get_or_put_keeps_first(
    s0: Map<Seq<char>, StoredValue>,
    cap: nat,
    key: Seq<char>,
    first: StoredValue,
    r1: StoredValue,
    s1: Map<Seq<char>, StoredValue>,
    second: StoredValue,
    r2: StoredValue,
    s2: Map<Seq<char>, StoredValue>,
)
    requires
        cap > 0,
        get_or_put_outcome(s0, cap, key, first, r1, s1),
        get_or_put_outcome(s1, cap, key, second, r2, s2),
    ensures
        r2 == r1,
        s2 == s1,
{
}

/// Increments add up: after an `incr` that returned `n`, the next `incr`
/// by `delta` on a store of nonzero capacity returns `n + delta`, saturated.
pub proof fn law_incr_accumulates(
    s0: Map<Seq<char>, StoredValue>,
    cap: nat,
    key: Seq<char>,
    first: i64,
    span1: nu_protocol::Span,
    n: i64,
    s1: Map<Seq<char>, StoredValue>,
    delta: i64,
    span2: nu_protocol::Span,
    r2: Result<i64, &'static str>,
    s2: Map<Seq<char>, StoredValue>,
)
    requires
        cap > 0,
        incr_outcome(s0, cap, key, first, span1, Ok(n), s1),
        incr_outcome(s1, cap, key, delta, span2, r2, s2),
    ensures
        r2 == Ok::<i64, &'static str>(saturating_sum(n, delta)),
        s2.get(key) == Some(StoredValue::Int { val: saturating_sum(n, delta), span: span2 }),
{
}

/// An `incr` on a value that is not an integer fails and changes nothing.
pub proof fn law_incr_rejects_non_integer(
    s0: Map<Seq<char>, StoredValue>,
    cap: nat,
    key: Seq<char>,
    delta: i64,
    span: nu_protocol::Span,
    r: Result<i64, &'static str>,
    s1: Map<Seq<char>, StoredValue>,
)
    requires
        s0.contains_key(key),
        !(s0[key] is Int),
        incr_outcome(s0, cap, key, delta, span, r, s1),
    ensures
        r is Err,
        s1 == s0,
{
}

/// A command that takes a value accepts exactly one source of it: the
/// pipeline input (when it is not `nothing`) or the positional value.
pub proof fn law_value_input_exactly_one(input: StoredValue, positional: Option<StoredValue>)
    ensures
        value_input(input, positional) is Ok <==> (input is Nothing) == (positional is Some),
        value_input(input, positional) matches Ok(v) ==> (if positional is Some {
            v == positional->0
        } else {
            v == input
        }),
{
}

/// A second entry can join the store under `key` without evicting
/// anything: the key is held already, or there is room.
pub open spec fn no_eviction(old: Map<Seq<char>, StoredValue>, cap: nat, key: Seq<char>) -> bool {
    old.contains_key(key) || old.len() < cap
}

/// `new` is what one call of the store's operations can leave of `old`
/// without touching `key` and without evicting: a read (`get`, `has`,
/// `stats`) changes nothing; `take` or `delete` removes another key; `put`,
/// `put_if_absent`, `get_or_put` or `incr` on another key that is held or
/// finds room.
pub open spec fn spares_key(
    old: Map<Seq<char>, StoredValue>,
    cap: nat,
    new: Map<Seq<char>, StoredValue>,
    key: Seq<char>,
) -> bool {
    ||| new == old
    ||| exists|j: Seq<char>| j != key && new == #[trigger] old.remove(j)
    ||| exists|j: Seq<char>, x: StoredValue|
        j != key && no_eviction(old, cap, j) && #[trigger] insert_outcome(old, cap, j, x, new)
    ||| exists|j: Seq<char>, x: StoredValue, r: (bool, StoredValue)|
        j != key && no_eviction(old, cap, j) && #[trigger] put_if_absent_outcome(old, cap, j, x, r, new)
    ||| exists|j: Seq<char>, x: StoredValue, r: StoredValue|
        j != key && no_eviction(old, cap, j) && #[trigger] get_or_put_outcome(old, cap, j, x, r, new)
    ||| exists|j: Seq<char>, d: i64, sp: nu_protocol::Span, r: Result<i64, &'static str>|
        j != key && no_eviction(old, cap, j) && #[trigger] incr_outcome(old, cap, j, d, sp, r, new)
}

/// One call that spares `key` leaves its value where it was.
pub proof fn law_spared_key_stays(
    old: Map<Seq<char>, StoredValue>,
    cap: nat,
    new: Map<Seq<char>, StoredValue>,
    key: Seq<char>,
)
    requires
        spares_key(old, cap, new, key),
    ensures
        new.get(key) == old.get(key),
{
    if new == old {
    } else if exists|j: Seq<char>| j != key && new == #[trigger] old.remove(j) {
    } else if exists|j: Seq<char>, x: StoredValue|
        j != key && no_eviction(old, cap, j) && #[trigger] insert_outcome(old, cap, j, x, new) {
    } else if exists|j: Seq<char>, x: StoredValue, r: (bool, StoredValue)|
        j != key && no_eviction(old, cap, j) && #[trigger] put_if_absent_outcome(old, cap, j, x, r, new) {
    } else if exists|j: Seq<char>, x: StoredValue, r: StoredValue|
        j != key && no_eviction(old, cap, j) && #[trigger] get_or_put_outcome(old, cap, j, x, r, new) {
    } else {
        let (j, d, sp, r) = choose|j: Seq<char>, d: i64, sp: nu_protocol::Span, r: Result<i64, &'static str>|
            j != key && no_eviction(old, cap, j) && #[trigger] incr_outcome(old, cap, j, d, sp, r, new);
        assert(incr_outcome(old, cap, j, d, sp, r, new));
    }
}

/// Entries do not expire: once a value is under `key`, it stays there
/// through any run of calls that spare the key (none of `take` or `delete`
/// of it, `clear`, a store under it, or an insertion that evicts), however
/// long the run and however much time passes.
pub proof fn law_entries_do_not_expire(
    states: Seq<Map<Seq<char>, StoredValue>>,
    cap: nat,
    key: Seq<char>,
    value: StoredValue,
)
    requires
        states.len() > 0,
        states[0].get(key) == Some(value),
        forall|i: int| 0 <= i < states.len() - 1 ==> spares_key(#[trigger] states[i], cap, states[i + 1], key),
    ensures
        states.last().get(key) == Some(value),
    decreases states.len(),
{
    if states.len() > 1 {
        let prefix = states.drop_last();
        assert forall|i: int| 0 <= i < prefix.len() - 1 implies spares_key(#[trigger] prefix[i], cap, prefix[i + 1], key) by {
            assert(prefix[i] == states[i]);
            assert(prefix[i + 1] == states[i + 1]);
        }
        law_entries_do_not_expire(prefix, cap, key, value);
        let n = states.len() - 1;
        assert(spares_key(states[n - 1], cap, states[n], key));
        law_spared_key_stays(states[n - 1], cap, states[n], key);
    }
}

/// `get_or_put` returns what `put_if_absent` reports as the value now under
/// the key, and leaves the same entries behind: both admit exactly the
/// same outcomes.
pub proof fn law_get_or_put_matches_put_if_absent(
    old: Map<Seq<char>, StoredValue>,
    cap: nat,
    key: Seq<char>,
    value: StoredValue,
    r: StoredValue,
    new: Map<Seq<char>, StoredValue>,
)
    ensures
        get_or_put_outcome(old, cap, key, value, r, new) <==> put_if_absent_outcome(
            old,
            cap,
            key,
            value,
            (!old.contains_key(key), r),
            new,
        ),
{
}

/// Where no eviction can happen, `get_or_put` and `put_if_absent` on the
/// same store leave the same entries, and `get_or_put` returns the value
/// that `put_if_absent` reports.
pub proof fn law_get_or_put_agrees_with_put_if_absent(
    old: Map<Seq<char>, StoredValue>,
    cap: nat,
    key: Seq<char>,
    value: StoredValue,
    r1: StoredValue,
    new1: Map<Seq<char>, StoredValue>,
    r2: (bool, StoredValue),
    new2: Map<Seq<char>, StoredValue>,
)
    requires
        no_eviction(old, cap, key),
        get_or_put_outcome(old, cap, key, value, r1, new1),
        put_if_absent_outcome(old, cap, key, value, r2, new2),
    ensures
        r1 == r2.1,
        new1 == new2,
{
}

/// The saturated sum is the arithmetic sum wherever that fits in an `i64`,
/// and the nearest bound of `i64` where it does not.
pub proof fn law_saturating_sum_is_clamped_sum(a: i64, b: i64)
    ensures
        i64::MIN <= a + b <= i64::MAX ==> saturating_sum(a, b) == a + b,
        a + b > i64::MAX ==> saturating_sum(a, b) == i64::MAX,
        a + b < i64::MIN ==> saturating_sum(a, b) == i64::MIN,
{
}

/// `incr` adds: on an integer `n` under the key, it returns and stores
/// `n + delta` whenever that sum fits in an `i64`, and the bound it passes
/// otherwise; on a missing key of a store with room it returns and stores
/// `delta`.
pub proof fn law_incr_adds_delta(
    s0: Map<Seq<char>, StoredValue>,
    cap: nat,
    key: Seq<char>,
    delta: i64,
    span: nu_protocol::Span,
    r: Result<i64, &'static str>,
    s1: Map<Seq<char>, StoredValue>,
)
    requires
        incr_outcome(s0, cap, key, delta, span, r, s1),
    ensures
        s0.contains_key(key) && s0[key] is Int ==> {
            let n = s0[key]->val;
            &&& i64::MIN <= n + delta <= i64::MAX ==> r == Ok::<i64, &'static str>((n + delta) as i64)
                && s1.get(key) == Some(StoredValue::Int { val: (n + delta) as i64, span })
            &&& n + delta > i64::MAX ==> r == Ok::<i64, &'static str>(i64::MAX)
            &&& n + delta < i64::MIN ==> r == Ok::<i64, &'static str>(i64::MIN)
        },
        !s0.contains_key(key) && cap > 0 ==> r == Ok::<i64, &'static str>(delta) && s1.get(key) == Some(
            StoredValue::Int { val: delta, span },
        ),
{
    if s0.contains_key(key) && s0[key] is Int {
        law_saturating_sum_is_clamped_sum(s0[key]->val, delta);
    }
}

/// On a key that is missing from a store of nonzero capacity,
/// `get_or_put` stores the given value itself under the key and returns it.
pub proof fn law_get_or_put_stores_given_value(
    old: Map<Seq<char>, StoredValue>,
    cap: nat,
    key: Seq<char>,
    value: StoredValue,
    r: StoredValue,
    new: Map<Seq<char>, StoredValue>,
)
    requires
        !old.contains_key(key),
        cap > 0,
        get_or_put_outcome(old, cap, key, value, r, new),
    ensures
        r == value,
        new.get(key) == Some(value),
{
}

/// On a key that is missing from a store of nonzero capacity,
/// `put_if_absent` stores the given value itself under the key and reports
/// it as inserted; on a present key it reports the value held and changes
/// nothing.
pub proof fn law_put_if_absent_stores_given_value(
    old: Map<Seq<char>, StoredValue>,
    cap: nat,
    key: Seq<char>,
    value: StoredValue,
    r: (bool, StoredValue),
    new: Map<Seq<char>, StoredValue>,
)
    requires
        put_if_absent_outcome(old, cap, key, value, r, new),
    ensures
        !old.contains_key(key) && cap > 0 ==> r == (true, value) && new.get(key) == Some(value),
        old.contains_key(key) ==> r == (false, old[key]) && new == old,
{
}

} // verus!
