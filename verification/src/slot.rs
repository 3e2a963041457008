//! Per-key state: the latest written value and the registered waiters.

use vstd::prelude::*;

use std::sync::mpsc::{SendError, SyncSender};

use crate::channel::send_value;
use crate::model::SlotModel;

verus! {

/// One key's slot. `value` is the latest written value, absent while the
/// key has only ever been waited on. `waiters` holds the sending half of
/// each registered waiter's one-shot notification channel, in registration
/// order; it is emptied as a unit by every write and by an abandonment.
#[verifier::reject_recursive_types(T)]
pub struct Price<T> {
    pub value: Option<T>,
    pub waiters: Vec<SyncSender<T>>,
}

impl<T> View for Price<T> {
    type V = SlotModel<T>;

    open spec fn view(&self) -> SlotModel<T> {
        SlotModel { value: self.value, waiters: self.waiters@ }
    }
}

impl<T> Price<T> where T: Copy {
    /// A slot for a key that has only been waited on so far: no value yet.
    pub(crate) fn new() -> (p: Self)
        ensures
            p@ == (SlotModel::<T> { value: None, waiters: Seq::empty() }),
    {
        Price { value: None, waiters: Vec::new() }
    }

    /// A slot created by a first write: it holds that value and no waiters.
    pub(crate) fn from(value: T) -> (p: Self)
        ensures
            p@ == (SlotModel::<T> { value: Some(value), waiters: Seq::empty() }),
    {
        Price { value: Some(value), waiters: Vec::new() }
    }

    /// Register one more waiter: its sender is appended after the prior
    /// waiters, which are kept untouched, as is the stored value.
    pub(crate) fn add_waiter(&mut self, waiter: SyncSender<T>)
        ensures
            final(self)@ == (SlotModel {
                value: old(self)@.value,
                waiters: old(self)@.waiters.push(waiter),
            }),
    {
        self.waiters.push(waiter);
    }

    /// Overwrite the stored value and deliver it to every registered
    /// waiter; afterwards no waiter remains registered.
    pub(crate) fn update_price(&mut self, value: T) -> (r: Result<(), SendError<T>>)
        ensures
            final(self)@ == (SlotModel { value: Some(value), waiters: Seq::empty() }),
            old(self)@.waiters.len() == 0 ==> r is Ok,
            r matches Err(e) ==> e.0 == value && old(self)@.waiters.len() > 0,
    {
        self.value = Some(value);
        self.notify_waiters(value)
    }

    /// Attempt to deliver `value` to every registered waiter, then discard
    /// all registrations as a unit. A delivery fails exactly when that
    /// waiter's receiving half was abandoned; one failed delivery does not
    /// stop the remaining deliveries, and a single error (the last failure)
    /// is reported to the writer.
    pub(crate) fn notify_waiters(&mut self, value: T) -> (r: Result<(), SendError<T>>)
        ensures
            final(self)@ == (SlotModel { value: old(self)@.value, waiters: Seq::empty() }),
            old(self)@.waiters.len() == 0 ==> r is Ok,
            r matches Err(e) ==> e.0 == value && old(self)@.waiters.len() > 0,
    {
        let ghost orig = *self;
        let mut delivery_error: Option<SendError<T>> = None;
        let n = self.waiters.len();
        let mut i: usize = 0;
        while i < n
            invariant
                i <= n,
                *self == orig,
                n == self.waiters@.len(),
                delivery_error matches Some(e) ==> e.0 == value && n > 0,
            decreases n - i,
        {
            let outcome = send_value(&self.waiters[i], value);
            if let Err(e) = outcome {
                delivery_error = Some(e);
            }
            i += 1;
        }
        self.waiters = Vec::new();
        match delivery_error {
            None => Ok(()),
            Some(e) => Err(e),
        }
    }

    /// Abandon every registered waiter without a delivery: their receiving
    /// halves will observe a closed channel. The stored value is kept.
    pub(crate) fn clear_waiters(&mut self)
        ensures
            final(self)@ == (SlotModel { value: old(self)@.value, waiters: Seq::empty() }),
    {
        self.waiters = Vec::new();
    }
}

} // verus!
