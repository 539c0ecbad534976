//! Trusted declarations of the standard library's blocking primitives and
//! clock types, with one wrapper per standard function.
//!
//! Verus gives no specification to `std::sync::Mutex`, `std::sync::Condvar`
//! or `std::time::Instant`, so they are declared here as opaque types and
//! reached only through the wrappers below. Nothing is
//! promised about the value behind a lock: another thread may change it
//! between two acquisitions, so every contract about the protected data is
//! stated on the verified code that runs while the lock is held.

use vstd::prelude::*;

verus! {

#[verifier::external_type_specification]
#[verifier::external_body]
#[verifier::reject_recursive_types(T)]
pub struct ExMutex<T: ?Sized>(std::sync::Mutex<T>);

#[verifier::external_type_specification]
#[verifier::external_body]
#[verifier::reject_recursive_types(T)]
pub struct ExMutexGuard<'a, T: ?Sized + 'a>(std::sync::MutexGuard<'a, T>);

#[verifier::external_type_specification]
#[verifier::external_body]
pub struct ExCondvar(std::sync::Condvar);

#[verifier::external_type_specification]
#[verifier::external_body]
pub struct ExInstant(std::time::Instant);

/// Relies on `Mutex::new`: makes a new lock holding `value`.
#[verifier::external_body]
pub(crate) fn mutex_new<T>(value: T) -> std::sync::Mutex<T> {
    std::sync::Mutex::new(value)
}

/// Relies on `Mutex::lock`: blocks until the lock is held, then hands out
/// the guard. A poisoned lock is recovered with `PoisonError::into_inner`
/// rather than unwinding, so this call never panics.
#[verifier::external_body]
pub(crate) fn mutex_lock<'a, T>(mutex: &'a std::sync::Mutex<T>) -> std::sync::MutexGuard<'a, T>
    opens_invariants none
    no_unwind
{
    match mutex.lock() {
        Ok(guard) => guard,
        Err(poisoned) => poisoned.into_inner(),
    }
}

/// Relies on `core::mem::replace` through the guard's `DerefMut`: stores
/// `value` behind the held lock and hands back what was there. The data
/// behind the lock is shared between threads, so nothing is promised of the
/// returned value; the verified caller states its contracts over whatever
/// comes back.
#[verifier::external_body]
pub(crate) fn guard_replace<'a, T>(
    guard: &mut std::sync::MutexGuard<'a, T>,
    value: T,
) -> T
    opens_invariants none
    no_unwind
{
    core::mem::replace(&mut **guard, value)
}

/// Relies on `Condvar::new`: makes a fresh condition variable.
#[verifier::external_body]
pub(crate) fn condvar_new() -> std::sync::Condvar {
    std::sync::Condvar::new()
}

/// Relies on `Condvar::notify_all`: wakes every thread blocked on the
/// condition variable. Never panics.
#[verifier::external_body]
pub(crate) fn condvar_notify_all(condvar: &std::sync::Condvar)
    opens_invariants none
    no_unwind
{
    condvar.notify_all();
}

/// Relies on `Instant::now`: reads the monotonic clock. The result depends
/// on when the call runs, so nothing is promised of it.
#[verifier::external_body]
pub(crate) fn instant_now() -> std::time::Instant {
    std::time::Instant::now()
}

/// Relies on `Instant::checked_add`: the point in time `duration` after
/// `instant`, or `None` when that point cannot be represented.
#[verifier::external_body]
pub(crate) fn instant_after(
    instant: &std::time::Instant,
    duration: &core::time::Duration,
) -> Option<std::time::Instant> {
    instant.checked_add(*duration)
}

/// Relies on `Instant::checked_duration_since`: the time from `earlier`
/// until `instant`, or `None` when `earlier` is the later of the two.
#[verifier::external_body]
pub(crate) fn instant_since(
    instant: &std::time::Instant,
    earlier: &std::time::Instant,
) -> Option<core::time::Duration> {
    instant.checked_duration_since(*earlier)
}

/// Relies on `Duration::is_zero`: true exactly when the duration spans no
/// time at all.
#[verifier::external_body]
pub(crate) fn duration_is_zero(duration: &core::time::Duration) -> bool {
    duration.is_zero()
}

} // verus!
