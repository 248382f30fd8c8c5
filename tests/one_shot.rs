use std::cell::Cell;

use turtle_relay::once::OneShot;

#[test]
fn run_twice_calls_once() {
    let count = Cell::new(0u32);
    let mut slot = OneShot::new(|| count.set(count.get() + 1));
    assert!(!slot.is_spent());
    slot.run();
    slot.run();
    assert_eq!(count.get(), 1);
    assert!(slot.is_spent());
}

#[test]
fn take_hands_out_once() {
    let mut slot = OneShot::new(7u8);
    assert_eq!(slot.take(), Some(7));
    assert_eq!(slot.take(), None);
}

#[test]
fn spent_slot_runs_nothing() {
    let mut slot: OneShot<fn()> = OneShot::spent();
    assert!(slot.is_spent());
    slot.run();
    assert!(slot.take().is_none());
}
