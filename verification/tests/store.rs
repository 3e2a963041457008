//! Tests of the single-owner store.

use std::sync::mpsc::RecvError;

use price_holder::{PriceHolder, ThreadUnsafe};

#[test]
fn put_and_get_price() {
    let mut ph = ThreadUnsafe::new();

    ph.put_price("symbol".to_string(), 1u32).unwrap();
    assert_eq!(ph.get_price("symbol".to_string()).unwrap(), 1);

    ph.put_price("symbol".to_string(), 2).unwrap();
    assert_eq!(ph.get_price("symbol".to_string()).unwrap(), 2);

    ph.put_price("another_symbol".to_string(), 3).unwrap();
    assert_eq!(ph.get_price("another_symbol".to_string()).unwrap(), 3);

    assert!(ph.get_price("not_a_symbol".to_string()).is_none());
}

#[test]
fn test_thread_unsafe_channel_closed() {
    let mut ph: ThreadUnsafe<u64> = ThreadUnsafe::new();

    let rx = ph.price_receiver("symbol".to_string());

    ph.clear_waiters("symbol".to_string());
    assert_eq!(rx.recv().unwrap_err(), RecvError);
}

#[test]
fn default_store_is_empty() {
    let ph: ThreadUnsafe<u32> = Default::default();
    assert!(ph.get_price("symbol".to_string()).is_none());
}

#[test]
fn unknown_key_reads_absent() {
    let ph: ThreadUnsafe<u32> = ThreadUnsafe::new();
    assert!(ph.get_price("symbol".to_string()).is_none());
}

#[test]
fn waited_on_key_still_reads_absent() {
    let mut ph: ThreadUnsafe<u32> = ThreadUnsafe::new();
    let _rx = ph.price_receiver("symbol".to_string());
    assert!(ph.get_price("symbol".to_string()).is_none());
}

#[test]
fn independent_keys() {
    let mut ph = ThreadUnsafe::new();

    ph.put_price("a".to_string(), 1u64).unwrap();
    ph.put_price("b".to_string(), 2).unwrap();

    assert_eq!(ph.get_price("a".to_string()).unwrap(), 1);
    assert_eq!(ph.get_price("b".to_string()).unwrap(), 2);
}

#[test]
fn wait_delivers_next_value_not_current() {
    let mut ph = ThreadUnsafe::new();

    ph.put_price("symbol".to_string(), 1u64).unwrap();

    // Registered after the write of 1: the waiter must see the next write.
    let rx = ph.price_receiver("symbol".to_string());
    ph.put_price("symbol".to_string(), 2).unwrap();

    assert_eq!(rx.recv().unwrap(), 2);
}

#[test]
fn broadcast_to_all_waiters() {
    let mut ph = ThreadUnsafe::new();

    let rx1 = ph.price_receiver("symbol".to_string());
    let rx2 = ph.price_receiver("symbol".to_string());
    let rx3 = ph.price_receiver("symbol".to_string());

    ph.put_price("symbol".to_string(), 100u64).unwrap();

    assert_eq!(rx1.recv().unwrap(), 100);
    assert_eq!(rx2.recv().unwrap(), 100);
    assert_eq!(rx3.recv().unwrap(), 100);
}

#[test]
fn sequential_rendezvous() {
    let mut ph = ThreadUnsafe::new();

    for p in 1u64..=4 {
        ph.put_price("symbol".to_string(), p).unwrap();
        let rx = ph.price_receiver("symbol".to_string());
        ph.put_price("symbol".to_string(), p + 1).unwrap();
        // Each wait yields exactly the value written right after it was
        // issued, never the one already stored.
        assert_eq!(rx.recv().unwrap(), p + 1);
    }
}

#[test]
fn read_during_pending_wait() {
    let mut ph = ThreadUnsafe::new();

    ph.put_price("symbol".to_string(), 1u64).unwrap();
    let rx = ph.price_receiver("symbol".to_string());

    for _ in 0..10 {
        assert_eq!(ph.get_price("symbol".to_string()).unwrap(), 1);
    }

    ph.put_price("symbol".to_string(), 2).unwrap();
    assert_eq!(ph.get_price("symbol".to_string()).unwrap(), 2);
    assert_eq!(rx.recv().unwrap(), 2);
}

#[test]
fn delivery_failure_is_reported_but_does_not_starve_live_waiters() {
    let mut ph = ThreadUnsafe::new();

    let rx1 = ph.price_receiver("symbol".to_string());
    let rx2 = ph.price_receiver("symbol".to_string());
    drop(rx1);

    // The abandoned waiter makes the write report a delivery failure that
    // carries the written value; the live waiter is still served.
    let err = ph.put_price("symbol".to_string(), 7u64).unwrap_err();
    assert_eq!(err.0, 7);
    assert_eq!(rx2.recv().unwrap(), 7);

    // The failed delivery did not corrupt the slot: the value is stored
    // and the waiters are cleared, so the next write succeeds.
    assert_eq!(ph.get_price("symbol".to_string()).unwrap(), 7);
    assert!(ph.put_price("symbol".to_string(), 8).is_ok());
}
