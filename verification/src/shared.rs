//! The shared store.
//!
//! `ThreadSafe` puts the single-owner store behind vstd's verified
//! reader-writer lock and a reference-counted handle, so any number of
//! callers can read, write and wait concurrently. Every operation keeps
//! its critical section short; in particular a wait releases the lock
//! before blocking, so writes from other callers can always acquire it to
//! deliver the awaited value.
//!
//! No operation here can promise what it returns or leaves behind: between
//! any two uses of a handle, other holders of clones of it may have run
//! writes, reads and waits of their own. What each locked section does to
//! the store it found is exactly what the corresponding `ThreadUnsafe`
//! operation promises.

use vstd::prelude::*;

use vstd::rwlock::{RwLock, RwLockPredicate};

use std::sync::mpsc::{Receiver, RecvError, SendError};
use std::sync::Arc;

use crate::channel::receive_value;
use crate::store::ThreadUnsafe;
use crate::PriceHolder;

verus! {

/// The lock predicate: any state of the underlying store is admissible,
/// since every `ThreadUnsafe` operation keeps the store well formed on
/// its own.
pub struct AnyStore;

impl<T> RwLockPredicate<ThreadUnsafe<T>> for AnyStore {
    open spec fn inv(self, v: ThreadUnsafe<T>) -> bool {
        true
    }
}

/// The shared "latest value with blocking wait" store: a cheaply cloneable
/// handle; all clones refer to the same underlying store.
#[derive(Clone)]
#[verifier::reject_recursive_types(T)]
pub struct ThreadSafe<T> {
    inner: Arc<RwLock<ThreadUnsafe<T>, AnyStore>>,
}

impl<T> ThreadSafe<T> {
    /// A fresh shared store with no keys. Clone the returned handle to
    /// hand the same store to other callers.
    pub fn new() -> Self {
        ThreadSafe { inner: Arc::new(RwLock::new(ThreadUnsafe::new(), Ghost(AnyStore))) }
    }
}

impl<T> Default for ThreadSafe<T> {
    fn default() -> Self {
        Self::new()
    }
}

impl<T> ThreadSafe<T> where T: Copy {
    /// The registration half of a wait, on its own: lock, register a fresh
    /// waiter for `symbol`, unlock, and hand back the receiving half. The
    /// caller may block on it later, or drop it to abandon the wait.
    pub fn price_receiver(&self, symbol: String) -> Receiver<T> {
        let (mut store, handle) = self.inner.acquire_write();
        let receiver = store.price_receiver(symbol);
        handle.release_write(store);
        receiver
    }

    /// Abandon every waiter currently registered for `symbol`: each of
    /// their blocked waits returns the channel-closed error.
    pub fn clear_waiters(&self, symbol: String) {
        let (mut store, handle) = self.inner.acquire_write();
        store.clear_waiters(symbol);
        handle.release_write(store);
    }
}

impl<T> PriceHolder<T> for ThreadSafe<T> where T: Copy {
    /// Lock, delegate to the single-owner write, unlock. The delivery
    /// outcome refers to the waiters that were registered when the lock
    /// was acquired: which waiters those are depends on the other holders
    /// of this store, but a reported delivery failure always carries the
    /// value this call wrote.
    fn put_price(&mut self, symbol: String, value: T) -> (r: Result<(), SendError<T>>)
        ensures
            r matches Err(e) ==> e.0 == value,
    {
        let (mut store, handle) = self.inner.acquire_write();
        let r = store.put_price(symbol, value);
        handle.release_write(store);
        r
    }

    /// Lock for reading, delegate, unlock. Returns the value of the most
    /// recent write that completed before this read acquired the lock.
    fn get_price(&self, symbol: String) -> Option<T> {
        let handle = self.inner.acquire_read();
        let r = handle.borrow().get_price(symbol);
        handle.release_read();
        r
    }

    /// The two-phase wait. First, under the lock, only the registration:
    /// create or find the slot and register a fresh waiter. Then — with the
    /// lock released, so that another caller's `put_price` can acquire it
    /// and deliver — block on the receiving half until a later write's
    /// value arrives, or until the registration is abandoned, which
    /// surfaces as the channel-closed error. Holding the lock across the
    /// blocking receive would deadlock every waiter, so this split is
    /// load-bearing.
    fn next_price(&mut self, symbol: String) -> Result<T, RecvError> {
        let (mut store, handle) = self.inner.acquire_write();
        let receiver = store.price_receiver(symbol);
        handle.release_write(store);
        receive_value(receiver)
    }
}

} // verus!
