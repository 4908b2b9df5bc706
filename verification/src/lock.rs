//! The lock that keeps calls into the engine apart.
//!
//! The engine keeps its models in process-wide state and must not be entered
//! twice at once. Every call into it is therefore made while a `CallLock` of
//! the issuing context is alive.

use vstd::prelude::*;

verus! {

/// Trusted declaration of `lock_api::Mutex`, the type behind
/// `parking_lot::Mutex`. Nothing is claimed of what a value holds.
#[verifier::external_type_specification]
#[verifier::external_body]
#[verifier::reject_recursive_types(R)]
#[verifier::reject_recursive_types(T)]
pub struct ExMutex<R, T: ?Sized>(parking_lot::lock_api::Mutex<R, T>);

/// Trusted declaration of `parking_lot::RawMutex`. Nothing is claimed of
/// what a value holds.
#[verifier::external_type_specification]
#[verifier::external_body]
pub struct ExRawMutex(parking_lot::RawMutex);

/// Proof that the holder has locked a context's mutex. The mutex is unlocked
/// when this value is dropped.
///
/// Trusted: the field is a `parking_lot::MutexGuard`, whose own declaration
/// needs a trait of that crate as a bound. Nothing is claimed of what a value
/// holds.
#[verifier::external_body]
pub struct CallLock<'a> {
    guard: parking_lot::MutexGuard<'a, bool>,
}

/// Makes an unlocked mutex.
///
/// Trusted: the body calls `parking_lot::Mutex::new`. Nothing is claimed of
/// the result.
#[verifier::external_body]
pub(crate) fn new_mutex() -> parking_lot::Mutex<bool> {
    parking_lot::Mutex::new(false)
}

/// Locks `mutex`, waiting until no other `CallLock` of it is alive.
///
/// Trusted: the body calls `parking_lot::Mutex::lock`. Nothing is claimed of
/// the result. The call does not return while another `CallLock` of the same
/// mutex is alive, so a thread that still holds one must drop it first.
#[verifier::external_body]
pub(crate) fn acquire<'a>(mutex: &'a parking_lot::Mutex<bool>) -> CallLock<'a> {
    CallLock { guard: mutex.lock() }
}

/// Whether some `CallLock` of `mutex` is alive at the moment of the call.
///
/// Trusted: the body calls `parking_lot::Mutex::is_locked`. Nothing is
/// claimed of the result, which another thread can make stale at any time.
#[verifier::external_body]
pub(crate) fn is_held(mutex: &parking_lot::Mutex<bool>) -> bool {
    mutex.is_locked()
}

} // verus!
