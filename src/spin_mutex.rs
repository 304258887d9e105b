//! The same non-poisoning lock over a spin lock, for hosts without an
//! operating-system mutex. A spin lock has no poisoning to recover from.
use spin::mutex::{Mutex as SpinLock, MutexGuard as SpinLockGuard};
use vstd::prelude::*;

verus! {

#[verifier::external_type_specification]
#[verifier::external_body]
#[verifier::reject_recursive_types(T)]
#[verifier::reject_recursive_types(R)]
pub struct ExSpinMutex<T: ?Sized, R>(SpinLock<T, R>);

#[verifier::external_type_specification]
#[verifier::external_body]
#[verifier::reject_recursive_types(T)]
#[verifier::reject_recursive_types(R)]
pub struct ExSpinMutexGuard<'a, T: 'a + ?Sized, R>(SpinLockGuard<'a, T, R>);

#[verifier::external_type_specification]
#[verifier::external_body]
pub struct ExSpin(spin::Spin);

/// Relies on `spin::Mutex::new`: a new unlocked spin lock around `value`.
pub assume_specification<T, R>[ SpinLock::<T, R>::new ](value: T) -> SpinLock<T, R>;

/// Relies on `spin::Mutex::try_lock`: the guard if the lock was free, `None`
/// if it is held; it never spins.
pub assume_specification<T: ?Sized, R>[ SpinLock::<T, R>::try_lock ](
    m: &SpinLock<T, R>,
) -> Option<SpinLockGuard<'_, T, R>>;

/// Relies on `spin::Mutex::lock`: spins until the lock is held.
#[verifier::external_body]
fn spin_lock<T: ?Sized>(m: &SpinLock<T>) -> SpinLockGuard<'_, T> {
    m.lock()
}

/// Relies on `spin::MutexGuard`'s `Deref`: the value the lock protects.
#[verifier::external_body]
fn spin_guarded<'b, T: ?Sized>(g: &'b SpinLockGuard<'_, T>) -> &'b T {
    core::ops::Deref::deref(g)
}

/// Relies on `spin::MutexGuard`'s `DerefMut`: the value the lock protects.
#[verifier::external_body]
fn spin_guarded_mut<'b, T: ?Sized>(g: &'b mut SpinLockGuard<'_, T>) -> &'b mut T {
    core::ops::DerefMut::deref_mut(g)
}

/// `spin::Mutex` with the interface of `std::sync::Mutex`.
#[verifier::reject_recursive_types(T)]
pub struct Mutex<T: ?Sized>(SpinLock<T>);

/// Like `std::sync::MutexGuard`.
#[must_use]
#[verifier::reject_recursive_types(T)]
pub struct MutexGuard<'a, T: ?Sized + 'a>(SpinLockGuard<'a, T>);

/// Like `std::sync::TryLockError`: the lock is held by someone else.
#[derive(Debug)]
pub struct TryLockError(());

/// Like `std::sync::TryLockResult`.
pub type TryLockResult<T> = Result<T, TryLockError>;

impl<T> Mutex<T> {
    /// Like `std::sync::Mutex::new`.
    pub fn new(t: T) -> Mutex<T> {
        Mutex(SpinLock::new(t))
    }
}

impl<T: ?Sized> Mutex<T> {
    /// Like `std::sync::Mutex::lock`: spins until the lock is held.
    pub fn lock(&self) -> MutexGuard<'_, T> {
        MutexGuard(spin_lock(&self.0))
    }

    /// Like `std::sync::Mutex::try_lock`: fails exactly when the spin lock
    /// hands out no guard, that is, while another holder has it.
    pub fn try_lock(&self) -> TryLockResult<MutexGuard<'_, T>> {
        match self.0.try_lock() {
            Some(guard) => Ok(MutexGuard(guard)),
            None => Err(TryLockError(())),
        }
    }
}

impl<'a, T: ?Sized> core::ops::Deref for MutexGuard<'a, T> {
    type Target = T;

    fn deref(&self) -> &T {
        spin_guarded(&self.0)
    }
}

impl<'a, T: ?Sized> core::ops::DerefMut for MutexGuard<'a, T> {
    fn deref_mut(&mut self) -> &mut T {
        spin_guarded_mut(&mut self.0)
    }
}

} // verus!
