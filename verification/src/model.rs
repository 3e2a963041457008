//! The mathematical model of the store.
//!
//! A store is modelled as a finite map from keys (sequences of characters)
//! to slot models. A slot model records the latest written value, if any,
//! and the sequence of senders of the waiters currently registered for the
//! key, in registration order. The spec functions below describe how each
//! store operation transforms that map; the executable operations promise
//! exactly these transformations.

use vstd::prelude::*;

use std::sync::mpsc::SyncSender;

verus! {

/// The model of one per-key slot: the latest written value (absent if the
/// key has never been written) and the registered waiters' senders, in
/// registration order.
#[verifier::reject_recursive_types(T)]
pub struct SlotModel<T> {
    pub value: Option<T>,
    pub waiters: Seq<SyncSender<T>>,
}

/// What a read returns: the slot's value if the key is present, absent
/// otherwise. A key that was only ever waited on is present with an absent
/// value, so it still reads as absent.
pub open spec fn read_of<T>(m: Map<Seq<char>, SlotModel<T>>, k: Seq<char>) -> Option<T> {
    if m.dom().contains(k) {
        m[k].value
    } else {
        None
    }
}

/// The senders of the waiters registered for `k`, in registration order.
pub open spec fn waiters_of<T>(m: Map<Seq<char>, SlotModel<T>>, k: Seq<char>) -> Seq<
    SyncSender<T>,
> {
    if m.dom().contains(k) {
        m[k].waiters
    } else {
        Seq::empty()
    }
}

/// The store after a write of `v` at `k`: the slot holds `v` and, since a
/// write attempts a delivery to each registered waiter and then discards
/// them as a unit, no waiters remain.
pub open spec fn written<T>(
    m: Map<Seq<char>, SlotModel<T>>,
    k: Seq<char>,
    v: T,
) -> Map<Seq<char>, SlotModel<T>> {
    m.insert(k, SlotModel { value: Some(v), waiters: Seq::empty() })
}

/// The store after the waiter with sender `w` is registered at `k`: the
/// stored value is untouched (a registration never reads or changes it),
/// the prior waiters are kept, and `w` is appended after them; the slot is
/// created on demand.
pub open spec fn registered<T>(
    m: Map<Seq<char>, SlotModel<T>>,
    k: Seq<char>,
    w: SyncSender<T>,
) -> Map<Seq<char>, SlotModel<T>> {
    m.insert(k, SlotModel { value: read_of(m, k), waiters: waiters_of(m, k).push(w) })
}

/// The store after the waiters of `k` are abandoned without a delivery:
/// the value is kept, the registrations are discarded. A store without a
/// slot for `k` is unchanged.
pub open spec fn abandoned<T>(
    m: Map<Seq<char>, SlotModel<T>>,
    k: Seq<char>,
) -> Map<Seq<char>, SlotModel<T>> {
    if m.dom().contains(k) {
        m.insert(k, SlotModel { value: m[k].value, waiters: Seq::empty() })
    } else {
        m
    }
}

} // verus!
