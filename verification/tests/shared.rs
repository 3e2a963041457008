//! Tests of the shared store. Everything here runs single-threaded: the
//! one-shot notification channels buffer one value, so a registration, a
//! fulfilling write and the receive can be issued in sequence from one
//! thread.

use std::sync::mpsc::RecvError;

use price_holder::{PriceHolder, ThreadSafe};

#[test]
fn shared_put_and_get() {
    let mut ph = ThreadSafe::new();

    ph.put_price("symbol".to_string(), 1u32).unwrap();
    assert_eq!(ph.get_price("symbol".to_string()).unwrap(), 1);

    ph.put_price("symbol".to_string(), 2).unwrap();
    assert_eq!(ph.get_price("symbol".to_string()).unwrap(), 2);

    assert!(ph.get_price("not_a_symbol".to_string()).is_none());
}

#[test]
fn shared_default_is_empty() {
    let ph: ThreadSafe<u32> = Default::default();
    assert!(ph.get_price("symbol".to_string()).is_none());
}

#[test]
fn shared_clones_observe_one_store() {
    let mut ph = ThreadSafe::new();
    let mut ph2 = ph.clone();

    ph.put_price("symbol".to_string(), 1u64).unwrap();
    assert_eq!(ph2.get_price("symbol".to_string()).unwrap(), 1);

    ph2.put_price("symbol".to_string(), 2).unwrap();
    assert_eq!(ph.get_price("symbol".to_string()).unwrap(), 2);
}

#[test]
fn shared_wait_delivers_next_value() {
    let mut ph = ThreadSafe::new();

    ph.put_price("symbol".to_string(), 1u64).unwrap();

    let rx = ph.price_receiver("symbol".to_string());
    ph.put_price("symbol".to_string(), 2).unwrap();

    assert_eq!(rx.recv().unwrap(), 2);
}

#[test]
fn shared_broadcast_to_all_waiters() {
    let ph = ThreadSafe::new();

    let rx1 = ph.price_receiver("symbol".to_string());
    let rx2 = ph.price_receiver("symbol".to_string());

    let mut writer = ph.clone();
    writer.put_price("symbol".to_string(), 100u64).unwrap();

    assert_eq!(rx1.recv().unwrap(), 100);
    assert_eq!(rx2.recv().unwrap(), 100);
}

#[test]
fn shared_abandoned_waiter_surfaces_closed_error() {
    let ph: ThreadSafe<u64> = ThreadSafe::new();

    let rx = ph.price_receiver("symbol".to_string());
    ph.clear_waiters("symbol".to_string());

    assert_eq!(rx.recv().unwrap_err(), RecvError);
}
