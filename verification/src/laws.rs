//! The store's general laws, proved over the model of `crate::model`.
//!
//! Every operation of [`crate::ThreadUnsafe`] promises exactly one model
//! transformation (`written`, `registered`, `abandoned`) or observation
//! (`read_of`), so each law below carries over to any sequence of store
//! operations.

use vstd::prelude::*;

use std::sync::mpsc::SyncSender;

use crate::model::{abandoned, read_of, registered, waiters_of, written, SlotModel};

verus! {

/// Read after write: after a value `v1` and then a distinct value `v2`
/// are written at `k`, a read at `k` returns `v2` — the latest write wins.
pub proof fn lemma_read_after_write<T>(
    m: Map<Seq<char>, SlotModel<T>>,
    k: Seq<char>,
    v1: T,
    v2: T,
)
    requires
        v1 != v2,
    ensures
        read_of(written(written(m, k, v1), k, v2), k) == Some(v2),
{
}

/// Unknown key: a store in which no key has ever been given a slot reads
/// as absent for every key.
pub proof fn lemma_fresh_store_reads_absent<T>(k: Seq<char>)
    ensures
        read_of(Map::<Seq<char>, SlotModel<T>>::empty(), k) == None::<T>,
{
}

/// Unknown key, preserved: a key that reads as absent still reads as
/// absent after a write at any other key and after a waiter registration
/// at any key — only a write at the key itself can make it read a value.
pub proof fn lemma_absent_key_stays_absent<T>(
    m: Map<Seq<char>, SlotModel<T>>,
    k: Seq<char>,
    k2: Seq<char>,
    v: T,
    w: SyncSender<T>,
)
    requires
        read_of(m, k) == None::<T>,
        k2 != k,
    ensures
        read_of(written(m, k2, v), k) == None::<T>,
        read_of(registered(m, k2, w), k) == None::<T>,
        read_of(registered(m, k, w), k) == None::<T>,
{
}

/// Independent keys: a write at one key leaves what every other key reads
/// unchanged.
pub proof fn lemma_independent_keys<T>(
    m: Map<Seq<char>, SlotModel<T>>,
    k1: Seq<char>,
    k2: Seq<char>,
    v: T,
)
    requires
        k1 != k2,
    ensures
        read_of(written(m, k2, v), k1) == read_of(m, k1),
{
}

/// Read during a pending wait: registering a waiter changes what no key
/// reads — a blocked wait leaves the prior stored value visible to readers
/// until the write that fulfils it occurs.
pub proof fn lemma_register_preserves_reads<T>(
    m: Map<Seq<char>, SlotModel<T>>,
    k: Seq<char>,
    w: SyncSender<T>,
    k2: Seq<char>,
)
    ensures
        read_of(registered(m, k, w), k2) == read_of(m, k2),
{
}

/// Broadcast bookkeeping: a registration appends its sender after the
/// prior waiters of its key, which are all kept, and registers nothing at
/// any other key; a write discards every waiter of its key as a unit — so
/// the waiters a write delivers to are exactly the registrations made for
/// that key since the previous write, in registration order.
pub proof fn lemma_waiter_bookkeeping<T>(
    m: Map<Seq<char>, SlotModel<T>>,
    k: Seq<char>,
    k2: Seq<char>,
    v: T,
    w: SyncSender<T>,
)
    ensures
        waiters_of(registered(m, k, w), k) == waiters_of(m, k).push(w),
        k2 != k ==> waiters_of(registered(m, k, w), k2) == waiters_of(m, k2),
        waiters_of(written(m, k, v), k) == Seq::<SyncSender<T>>::empty(),
{
}

/// Abandonment: clearing a key's waiters removes every registration for
/// it while keeping what every key reads — the blocked waiters observe a
/// closed channel, not a value, and readers are unaffected.
pub proof fn lemma_abandon_preserves_reads<T>(
    m: Map<Seq<char>, SlotModel<T>>,
    k: Seq<char>,
    k2: Seq<char>,
)
    ensures
        read_of(abandoned(m, k), k2) == read_of(m, k2),
        waiters_of(abandoned(m, k), k) == Seq::<SyncSender<T>>::empty(),
{
}

} // verus!
