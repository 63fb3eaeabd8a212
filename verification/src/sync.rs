//! The lock that guards a pool's queue.
//!
//! What a lock holds at the moment it is taken depends on what other threads
//! did before, so nothing is claimed of it here. The functions that work on
//! the queue take it as an argument and are verified for every queue.

use vstd::prelude::*;
use std::sync::Mutex;
use std::sync::MutexGuard;

verus! {

/// Trusted. `std::sync::Mutex`, carried through as an opaque value.
#[verifier::external_type_specification]
#[verifier::external_body]
#[verifier::reject_recursive_types(T)]
pub struct ExMutex<T: ?Sized>(Mutex<T>);

/// Trusted. `std::sync::MutexGuard`, carried through as an opaque value.
#[verifier::external_type_specification]
#[verifier::external_body]
#[verifier::reject_recursive_types(T)]
pub struct ExMutexGuard<'a, T: ?Sized + 'a>(MutexGuard<'a, T>);

/// Trusted. Calls `Mutex::new`, which makes an unlocked lock around `value`.
/// No claim is made.
#[verifier::external_body]
pub(crate) fn new_mutex<T>(value: T) -> (lock: Mutex<T>) {
    Mutex::new(value)
}

/// Trusted. Calls `Mutex::lock`, which waits until the calling thread holds
/// the lock and fails if a thread panicked while holding it. The failure is
/// returned as `None`. No claim is made of which of the two happens.
#[verifier::external_body]
pub(crate) fn lock<'a, T>(lock: &'a Mutex<T>) -> (guard: Option<MutexGuard<'a, T>>) {
    match lock.lock() {
        Ok(guard) => Some(guard),
        Err(_) => None,
    }
}

/// Trusted. Calls `Mutex::is_poisoned`, which says whether a thread panicked
/// while holding the lock. No claim is made.
#[verifier::external_body]
pub(crate) fn is_poisoned<T>(lock: &Mutex<T>) -> (poisoned: bool) {
    lock.is_poisoned()
}

/// Trusted. Dereferences the guard (`Deref::deref`) to the value the lock
/// protects. No claim is made of that value.
#[verifier::external_body]
pub(crate) fn guarded<'a, 'b, T>(guard: &'a MutexGuard<'b, T>) -> (value: &'a T) {
    &**guard
}

/// Trusted. Dereferences the guard (`DerefMut::deref_mut`) to the value the
/// lock protects, for the holder to change. No claim is made of that value.
#[verifier::external_body]
pub(crate) fn guarded_mut<'a, 'b, T>(guard: &'a mut MutexGuard<'b, T>) -> (value: &'a mut T) {
    &mut **guard
}

} // verus!
