use nativeconfig::lock::{held, LockPoisoned};
use std::sync::{Mutex, PoisonError};

#[test]
fn a_held_lock_is_passed_on() {
    let cell = Mutex::new(String::from("kept"));
    let mut guard = held(cell.lock()).unwrap();
    assert_eq!(*guard, "kept");
    guard.push_str("-written");
    drop(guard);
    assert_eq!(*cell.lock().unwrap(), "kept-written");
}

#[test]
fn a_poisoned_lock_is_an_error() {
    let cell = Mutex::new(7u32);
    let guard = cell.lock().unwrap();
    let outcome = held(Err(PoisonError::new(guard)));
    assert_eq!(outcome.err(), Some(LockPoisoned));
}

#[test]
fn a_poisoned_lock_gives_up_its_guard() {
    let cell = Mutex::new(7u32);
    let guard = cell.lock().unwrap();
    assert!(held(Err(PoisonError::new(guard))).is_err());
    assert_eq!(*cell.try_lock().unwrap(), 7);
}
