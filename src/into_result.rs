//! The conversion of a value into a success or a failure.

use std::sync::{Mutex, MutexGuard, TryLockError};
use vstd::prelude::*;

verus! {

/// Tells whether a value holds something to bind, or a failure, by representing it as
/// a `Result`.
///
/// Implemented for `Option` (with `()` as the failure) and for `Result` (as it is).
/// A type of the caller's own takes part by saying, in `converts_to`, which outcomes
/// converting a value of it may give.
pub trait IntoResult: Sized {
    /// What a success binds.
    type Value;

    /// What a failure hands to the handler.
    type Error;

    /// Holds when `r` is an outcome that converting `self` may give.
    ///
    /// For a conversion that depends on `self` alone it holds of one outcome only; for
    /// one that acquires a resource it may hold of several. An impl that does not say
    /// admits every outcome.
    open spec fn converts_to(self, r: Result<Self::Value, Self::Error>) -> bool {
        true
    }

    /// Represents the value as a `Result`.
    fn into_result(self) -> (r: Result<Self::Value, Self::Error>)
        ensures
            self.converts_to(r),
    ;
}

/// A present value is a success; an absent one, a failure that carries `()`.
impl<T> IntoResult for Option<T> {
    type Value = T;

    type Error = ();

    open spec fn converts_to(self, r: Result<T, ()>) -> bool {
        r == match self {
            Some(v) => Ok::<T, ()>(v),
            None => Err(()),
        }
    }

    fn into_result(self) -> (r: Result<T, ()>) {
        self.ok_or(())
    }
}

/// A `Result` is its own outcome.
impl<T, E> IntoResult for Result<T, E> {
    type Value = T;

    type Error = E;

    open spec fn converts_to(self, r: Result<T, E>) -> bool {
        r == self
    }

    fn into_result(self) -> (r: Result<T, E>) {
        self
    }
}

/// std's mutual-exclusion lock, carried through unopened.
#[verifier::external_type_specification]
#[verifier::external_body]
#[verifier::reject_recursive_types(T)]
pub struct ExMutex<T: ?Sized>(Mutex<T>);

/// The scoped access that acquiring a `Mutex` hands out.
#[verifier::external_type_specification]
#[verifier::external_body]
#[verifier::reject_recursive_types(T)]
pub struct ExMutexGuard<'a, T: ?Sized + 'a>(MutexGuard<'a, T>);

/// Why an attempt to acquire a lock failed: another holder has it (`WouldBlock`), or
/// its last holder panicked (`Poisoned`, which still carries the access).
#[verifier::external_type_specification]
#[verifier::external_body]
#[verifier::reject_recursive_types(T)]
pub struct ExTryLockError<T>(TryLockError<T>);

/// Relies on std's `Mutex::try_lock`: a single attempt that does not block. It gives the
/// access when the lock is free, `Err(WouldBlock)` when it is held, and
/// `Err(Poisoned)` when its last holder panicked. Which comes depends on the lock's
/// state and history, so nothing is stated of the outcome.
pub assume_specification<T: ?Sized>[ Mutex::<T>::try_lock ](m: &Mutex<T>) -> std::sync::TryLockResult<
    MutexGuard<'_, T>,
>;

/// Converting a reference to a lock makes one attempt to acquire it, without waiting:
/// the access on success; on contention or poisoning, the error that says which. The
/// outcome depends on the lock's state, not on the reference.
impl<'a, T> IntoResult for &'a Mutex<T> {
    type Value = MutexGuard<'a, T>;

    type Error = TryLockError<MutexGuard<'a, T>>;

    open spec fn converts_to(
        self,
        r: Result<MutexGuard<'a, T>, TryLockError<MutexGuard<'a, T>>>,
    ) -> bool {
        true
    }

    fn into_result(self) -> (r: Result<MutexGuard<'a, T>, TryLockError<MutexGuard<'a, T>>>) {
        self.try_lock()
    }
}

} // verus!
