//! A concurrent, in-memory "latest value with blocking wait" store.
//!
//! Each key tracks the most recently written value. Callers may read the
//! current value without blocking, or block until the *next* write for the
//! key arrives. Two variants implement the same interface: [`ThreadUnsafe`],
//! which assumes a single owner, and [`ThreadSafe`], which wraps the former
//! behind a verified reader-writer lock and a shared, cloneable handle.

use vstd::prelude::*;

pub mod channel;
pub mod laws;
pub mod model;
mod slot;
pub mod shared;
pub mod store;

pub use shared::ThreadSafe;
pub use store::ThreadUnsafe;

use std::sync::mpsc::{RecvError, SendError};

verus! {

/// The common interface of the two store variants.
///
/// The trait itself promises nothing beyond the signatures: what each
/// operation does to the store is stated on the implementations. The
/// single-owner [`ThreadUnsafe`] pins every operation down against its map
/// model; the shared [`ThreadSafe`] cannot, since other holders of the same
/// handle may run between any two of its calls.
pub trait PriceHolder<T>: Sized {
    /// Store `value` as the latest value for `symbol` and deliver it to
    /// every waiter currently registered for that key.
    fn put_price(&mut self, symbol: String, value: T) -> Result<(), SendError<T>>;

    /// Return the latest value written for `symbol`, if any. Never blocks.
    fn get_price(&self, symbol: String) -> Option<T>;

    /// Block until the next write for `symbol`, and return the value it
    /// stores; return an error if the registration is abandoned without a
    /// delivery.
    fn next_price(&mut self, symbol: String) -> Result<T, RecvError>;
}

} // verus!
