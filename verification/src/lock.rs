//! What a poisoned lock means to this library.
//!
//! The host keeps each configuration value behind a lock of its own and
//! takes that lock before it reads or writes the value. A lock is poisoned
//! once a thread has panicked while holding it. The value behind it is then
//! neither read nor written again: [`held`] turns the poison into an error
//! and gives up the guard that came with it.

use std::sync::PoisonError;
use vstd::prelude::*;

verus! {

/// `std::sync::PoisonError`, which taking a lock returns once a thread has
/// panicked while it held that lock. Declared without its fields; nothing
/// is claimed of it.
#[verifier::external_type_specification]
#[verifier::external_body]
#[verifier::reject_recursive_types(T)]
pub struct ExPoisonError<T>(PoisonError<T>);

/// A thread panicked while it held the lock of the value asked for.
#[derive(Debug, Clone, Copy, PartialEq, Eq)]
pub struct LockPoisoned;

/// Decides what an attempt to take a lock is worth. A lock that came back
/// held is passed on as it is; a poisoned one is an error, and the guard
/// inside the poison error is given up, so that nothing is read or written
/// behind a lock whose holder panicked.
pub fn held<G>(outcome: Result<G, PoisonError<G>>) -> (guard: Result<G, LockPoisoned>)
    ensures
        match outcome {
            Ok(taken) => guard == Ok::<G, LockPoisoned>(taken),
            Err(_) => guard == Err::<G, LockPoisoned>(LockPoisoned),
        },
{
    match outcome {
        Ok(taken) => Ok(taken),
        Err(_) => Err(LockPoisoned),
    }
}

} // verus!
