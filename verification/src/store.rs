//! The single-owner store.
//!
//! `ThreadUnsafe` owns a list of key/slot pairs, searched by key equality;
//! a key occurs at most once because an entry is only pushed when no entry
//! with that key exists. Its view is the map model of `crate::model`, and
//! every operation promises the model transformation stated there.

use vstd::prelude::*;

use std::sync::mpsc::{Receiver, RecvError, SendError, SyncSender};

use crate::channel::{notify_channel, receive_value};
use crate::model::{abandoned, read_of, registered, waiters_of, written, SlotModel};
use crate::slot::Price;
use crate::PriceHolder;

verus! {

/// The single-owner "latest value with blocking wait" store. It assumes
/// exclusive ownership: one logical owner issues its operations, either
/// from a single thread or from behind an external lock such as the one
/// [`crate::ThreadSafe`] provides.
#[verifier::reject_recursive_types(T)]
pub struct ThreadUnsafe<T> {
    slots: Vec<(String, Price<T>)>,
}

/// The slot of the first entry with key `k`, if any entry has that key.
pub(crate) open spec fn slot_at<T>(s: Seq<(String, Price<T>)>, k: Seq<char>) -> Option<Price<T>>
    decreases s.len(),
{
    if s.len() == 0 {
        None
    } else if s[0].0@ == k {
        Some(s[0].1)
    } else {
        slot_at(s.drop_first(), k)
    }
}

impl<T> View for ThreadUnsafe<T> {
    type V = Map<Seq<char>, SlotModel<T>>;

    closed spec fn view(&self) -> Map<Seq<char>, SlotModel<T>> {
        Map::new(
            |k: Seq<char>| slot_at(self.slots@, k) is Some,
            |k: Seq<char>| (slot_at(self.slots@, k)->Some_0)@,
        )
    }
}

/// If no entry of `s` has key `k`, there is no slot for `k`.
proof fn lemma_slot_at_no_match<T>(s: Seq<(String, Price<T>)>, k: Seq<char>)
    requires
        forall|j: int| 0 <= j < s.len() ==> s[j].0@ != k,
    ensures
        slot_at(s, k) is None,
    decreases s.len(),
{
    if s.len() > 0 {
        assert(s[0].0@ != k);
        assert forall|j: int| 0 <= j < s.drop_first().len() implies s.drop_first()[j].0@ != k by {
            assert(s.drop_first()[j] == s[j + 1]);
        }
        lemma_slot_at_no_match(s.drop_first(), k);
    }
}

/// If the first entry with key `k` stands at index `i`, the slot for `k`
/// is that entry's slot.
proof fn lemma_slot_at_first_match<T>(s: Seq<(String, Price<T>)>, k: Seq<char>, i: int)
    requires
        0 <= i < s.len(),
        s[i].0@ == k,
        forall|j: int| 0 <= j < i ==> s[j].0@ != k,
    ensures
        slot_at(s, k) == Some(s[i].1),
    decreases i,
{
    if i > 0 {
        assert(s[0].0@ != k);
        assert(s.drop_first()[i - 1] == s[i]);
        assert forall|j: int| 0 <= j < i - 1 implies s.drop_first()[j].0@ != k by {
            assert(s.drop_first()[j] == s[j + 1]);
        }
        lemma_slot_at_first_match(s.drop_first(), k, i - 1);
    }
}

/// Appending an entry leaves every existing slot in place and creates a
/// slot only for a key that had none.
proof fn lemma_slot_at_push<T>(s: Seq<(String, Price<T>)>, e: (String, Price<T>), k: Seq<char>)
    ensures
        slot_at(s.push(e), k) == (if slot_at(s, k) is Some {
            slot_at(s, k)
        } else if e.0@ == k {
            Some(e.1)
        } else {
            None::<Price<T>>
        }),
    decreases s.len(),
{
    if s.len() == 0 {
        assert(s.push(e)[0] == e);
        assert(s.push(e).drop_first() =~= Seq::<(String, Price<T>)>::empty());
        assert(slot_at(Seq::<(String, Price<T>)>::empty(), k) is None);
    } else {
        assert(s.push(e)[0] == s[0]);
        assert(s.push(e).drop_first() =~= s.drop_first().push(e));
        lemma_slot_at_push(s.drop_first(), e, k);
    }
}

/// Replacing the slot of the first entry with key `s[i].0@` changes the
/// slot of exactly that key and of no other.
proof fn lemma_slot_at_update<T>(s: Seq<(String, Price<T>)>, i: int, p: Price<T>, k2: Seq<char>)
    requires
        0 <= i < s.len(),
        forall|j: int| 0 <= j < i ==> s[j].0@ != s[i].0@,
    ensures
        slot_at(s.update(i, (s[i].0, p)), k2) == (if k2 == s[i].0@ {
            Some(p)
        } else {
            slot_at(s, k2)
        }),
    decreases i,
{
    let s2 = s.update(i, (s[i].0, p));
    if i == 0 {
        assert(s2[0] == (s[0].0, p));
        if k2 != s[0].0@ {
            assert(s2.drop_first() =~= s.drop_first());
        }
    } else {
        assert(s2[0] == s[0]);
        assert(s[0].0@ != s[i].0@);
        assert(s.drop_first()[i - 1] == s[i]);
        assert forall|j: int| 0 <= j < i - 1 implies (#[trigger] s.drop_first()[j]).0@
            != s.drop_first()[i - 1].0@ by {
            assert(s.drop_first()[j] == s[j + 1]);
        }
        lemma_slot_at_update(s.drop_first(), i - 1, p, k2);
        assert(s2.drop_first() =~= s.drop_first().update(i - 1, (s.drop_first()[i - 1].0, p)));
    }
}

/// If the slots of `post` are those of `pre` with the slot of `k` replaced
/// by `p`, the view of `post` is the view of `pre` with `k` bound to `p`'s
/// model.
proof fn lemma_view_insert<T>(pre: ThreadUnsafe<T>, post: ThreadUnsafe<T>, k: Seq<char>, p: Price<T>)
    requires
        forall|k2: Seq<char>| #![auto] slot_at(post.slots@, k2) == (if k2 == k {
            Some(p)
        } else {
            slot_at(pre.slots@, k2)
        }),
    ensures
        post@ == pre@.insert(k, p@),
{
    broadcast use vstd::set::group_set_axioms, vstd::map::group_map_axioms;

    assert forall|k2: Seq<char>| #![auto] post@.dom().contains(k2) == pre@.insert(
        k,
        p@,
    ).dom().contains(k2) by {
        assert(slot_at(post.slots@, k2) == (if k2 == k {
            Some(p)
        } else {
            slot_at(pre.slots@, k2)
        }));
    }
    assert forall|k2: Seq<char>| post@.dom().contains(k2) implies post@[k2] == pre@.insert(
        k,
        p@,
    )[k2] by {
        assert(slot_at(post.slots@, k2) == (if k2 == k {
            Some(p)
        } else {
            slot_at(pre.slots@, k2)
        }));
    }
    assert(post@ =~= pre@.insert(k, p@));
}

impl<T> ThreadUnsafe<T> {
    /// An empty store: no key has a slot, so every key reads as absent.
    pub fn new() -> (s: Self)
        ensures
            s@ == Map::<Seq<char>, SlotModel<T>>::empty(),
    {
        let s = ThreadUnsafe { slots: Vec::new() };
        proof {
            broadcast use vstd::set::group_set_axioms, vstd::map::group_map_axioms;

            assert forall|k: Seq<char>| !(#[trigger] slot_at(s.slots@, k) is Some) by {
                lemma_slot_at_no_match(s.slots@, k);
            }
            assert(s@ =~= Map::<Seq<char>, SlotModel<T>>::empty());
        }
        s
    }
}

impl<T> Default for ThreadUnsafe<T> {
    fn default() -> (s: Self)
        ensures
            s@ == Map::<Seq<char>, SlotModel<T>>::empty(),
    {
        Self::new()
    }
}

impl<T> ThreadUnsafe<T> where T: Copy {
    /// The index of the first entry with key `symbol`, if any.
    fn find_slot(&self, symbol: &String) -> (r: Option<usize>)
        ensures
            match r {
                Some(i) => i < self.slots@.len() && self.slots@[i as int].0@ == symbol@ && (forall|
                    j: int,
                |
                    0 <= j < i ==> self.slots@[j].0@ != symbol@),
                None => forall|j: int| 0 <= j < self.slots@.len() ==> self.slots@[j].0@ != symbol@,
            },
    {
        let n = self.slots.len();
        let mut i: usize = 0;
        while i < n
            invariant
                i <= n,
                n == self.slots@.len(),
                forall|j: int| 0 <= j < i ==> self.slots@[j].0@ != symbol@,
            decreases n - i,
        {
            if self.slots[i].0 == *symbol {
                return Some(i);
            }
            i += 1;
        }
        None
    }

    /// The registration half of a wait: create the key's slot if it has
    /// none, append the sending half of a fresh one-shot notification
    /// channel after the key's prior waiters — which are all kept — and
    /// hand back the receiving half. The stored value is not read: the
    /// receiver will only ever observe a value from a later write.
    pub fn price_receiver(&mut self, symbol: String) -> (r: Receiver<T>)
        ensures
            exists|w: SyncSender<T>| final(self)@ == registered(old(self)@, symbol@, w),
    {
        let (sender, receiver) = notify_channel();
        let ghost gsender = sender;
        match self.find_slot(&symbol) {
            Some(i) => {
                let ghost s0 = self.slots@;
                let (key, mut price) = self.slots.remove(i);
                price.add_waiter(sender);
                let ghost gprice = price;
                self.slots.insert(i, (key, price));
                proof {
                    lemma_slot_at_first_match(s0, symbol@, i as int);
                    broadcast use vstd::set::group_set_axioms, vstd::map::group_map_axioms;

                    assert(old(self)@.dom().contains(symbol@));
                    assert(old(self)@[symbol@] == s0[i as int].1@);
                    assert(self.slots@ =~= s0.update(i as int, (s0[i as int].0, gprice)));
                    assert forall|k2: Seq<char>| #![auto] slot_at(self.slots@, k2) == (if k2
                        == symbol@ {
                        Some(gprice)
                    } else {
                        slot_at(old(self).slots@, k2)
                    }) by {
                        lemma_slot_at_update(s0, i as int, gprice, k2);
                    }
                    lemma_view_insert(*old(self), *self, symbol@, gprice);
                    assert(self@ == registered(old(self)@, symbol@, gsender));
                }
            },
            None => {
                let mut price = Price::new();
                price.add_waiter(sender);
                let ghost gprice = price;
                let ghost s0 = self.slots@;
                self.slots.push((symbol, price));
                proof {
                    lemma_slot_at_no_match(s0, symbol@);
                    broadcast use vstd::set::group_set_axioms, vstd::map::group_map_axioms;

                    assert(!old(self)@.dom().contains(symbol@));
                    assert forall|k2: Seq<char>| #![auto] slot_at(self.slots@, k2) == (if k2
                        == symbol@ {
                        Some(gprice)
                    } else {
                        slot_at(old(self).slots@, k2)
                    }) by {
                        lemma_slot_at_push(s0, (symbol, gprice), k2);
                    }
                    lemma_view_insert(*old(self), *self, symbol@, gprice);
                    assert(self@ == registered(old(self)@, symbol@, gsender));
                }
            },
        }
        receiver
    }

    /// Abandon every waiter currently registered for `symbol` without a
    /// delivery: each of their blocked `next_price` calls will return the
    /// channel-closed error instead of hanging. The stored value is kept;
    /// a key without a slot is left without one.
    pub fn clear_waiters(&mut self, symbol: String)
        ensures
            final(self)@ == abandoned(old(self)@, symbol@),
    {
        match self.find_slot(&symbol) {
            Some(i) => {
                let ghost s0 = self.slots@;
                let (key, mut price) = self.slots.remove(i);
                price.clear_waiters();
                let ghost gprice = price;
                self.slots.insert(i, (key, price));
                proof {
                    lemma_slot_at_first_match(s0, symbol@, i as int);
                    assert(self.slots@ =~= s0.update(i as int, (s0[i as int].0, gprice)));
                    assert forall|k2: Seq<char>| #![auto] slot_at(self.slots@, k2) == (if k2
                        == symbol@ {
                        Some(gprice)
                    } else {
                        slot_at(old(self).slots@, k2)
                    }) by {
                        lemma_slot_at_update(s0, i as int, gprice, k2);
                    }
                    lemma_view_insert(*old(self), *self, symbol@, gprice);
                }
            },
            None => {
                proof {
                    lemma_slot_at_no_match(self.slots@, symbol@);
                    broadcast use vstd::set::group_set_axioms, vstd::map::group_map_axioms;

                    assert(!old(self)@.dom().contains(symbol@));
                }
            },
        }
    }
}

impl<T> PriceHolder<T> for ThreadUnsafe<T> where T: Copy {
    /// Store `value` as the latest value for `symbol`, deliver it to every
    /// registered waiter, and discard the registrations as a unit. The
    /// write succeeds whenever no waiter is registered; it reports a
    /// delivery failure, carrying the written value, exactly when some
    /// waiter had abandoned its receiving half — delivery is still
    /// attempted to every other waiter first.
    fn put_price(&mut self, symbol: String, value: T) -> (r: Result<(), SendError<T>>)
        ensures
            final(self)@ == written(old(self)@, symbol@, value),
            waiters_of(old(self)@, symbol@).len() == 0 ==> r is Ok,
            r matches Err(e) ==> e.0 == value && waiters_of(old(self)@, symbol@).len() > 0,
    {
        match self.find_slot(&symbol) {
            Some(i) => {
                let ghost s0 = self.slots@;
                let (key, mut price) = self.slots.remove(i);
                let r = price.update_price(value);
                let ghost gprice = price;
                self.slots.insert(i, (key, price));
                proof {
                    lemma_slot_at_first_match(s0, symbol@, i as int);
                    broadcast use vstd::set::group_set_axioms, vstd::map::group_map_axioms;

                    assert(old(self)@[symbol@] == s0[i as int].1@);
                    assert(self.slots@ =~= s0.update(i as int, (s0[i as int].0, gprice)));
                    assert forall|k2: Seq<char>| #![auto] slot_at(self.slots@, k2) == (if k2
                        == symbol@ {
                        Some(gprice)
                    } else {
                        slot_at(old(self).slots@, k2)
                    }) by {
                        lemma_slot_at_update(s0, i as int, gprice, k2);
                    }
                    lemma_view_insert(*old(self), *self, symbol@, gprice);
                }
                r
            },
            None => {
                let ghost s0 = self.slots@;
                let price = Price::from(value);
                let ghost gprice = price;
                self.slots.push((symbol, price));
                proof {
                    lemma_slot_at_no_match(s0, symbol@);
                    broadcast use vstd::set::group_set_axioms, vstd::map::group_map_axioms;

                    assert(!old(self)@.dom().contains(symbol@));
                    assert forall|k2: Seq<char>| #![auto] slot_at(self.slots@, k2) == (if k2
                        == symbol@ {
                        Some(gprice)
                    } else {
                        slot_at(old(self).slots@, k2)
                    }) by {
                        lemma_slot_at_push(s0, (symbol, gprice), k2);
                    }
                    lemma_view_insert(*old(self), *self, symbol@, gprice);
                }
                Ok(())
            },
        }
    }

    /// Return the latest value written for `symbol`: absent if the key has
    /// no slot or its slot has never been written. Never blocks and never
    /// changes the store — in particular, pending waiters keep reading the
    /// prior value while a wait is outstanding.
    fn get_price(&self, symbol: String) -> (r: Option<T>)
        ensures
            r == read_of(self@, symbol@),
    {
        match self.find_slot(&symbol) {
            Some(i) => {
                proof {
                    lemma_slot_at_first_match(self.slots@, symbol@, i as int);
                    broadcast use vstd::set::group_set_axioms, vstd::map::group_map_axioms;

                    assert(self@.dom().contains(symbol@));
                    assert(self@[symbol@] == self.slots@[i as int].1@);
                }
                self.slots[i].1.value
            },
            None => {
                proof {
                    lemma_slot_at_no_match(self.slots@, symbol@);
                    broadcast use vstd::set::group_set_axioms, vstd::map::group_map_axioms;

                    assert(!self@.dom().contains(symbol@));
                }
                None
            },
        }
    }

    /// Register a fresh waiter for `symbol` and block until a later write
    /// delivers its value — the value already stored, if any, is never
    /// returned. An error is returned exactly when the registration is
    /// abandoned (the slot's waiters are cleared) without a delivery;
    /// which of the two happens depends on the owner's later operations,
    /// so only the registration itself is promised here.
    fn next_price(&mut self, symbol: String) -> (r: Result<T, RecvError>)
        ensures
            exists|w: SyncSender<T>| final(self)@ == registered(old(self)@, symbol@, w),
    {
        let receiver = self.price_receiver(symbol);
        receive_value(receiver)
    }
}

} // verus!
