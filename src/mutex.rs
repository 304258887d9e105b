//! A mutual-exclusion lock that does not poison: a holder that panics leaves
//! the lock usable for the next one.
use vstd::prelude::*;

verus! {

#[verifier::external_type_specification]
#[verifier::external_body]
#[verifier::reject_recursive_types(T)]
pub struct ExStdMutex<T: ?Sized>(std::sync::Mutex<T>);

#[verifier::external_type_specification]
#[verifier::external_body]
#[verifier::reject_recursive_types(T)]
pub struct ExStdMutexGuard<'a, T: ?Sized + 'a>(std::sync::MutexGuard<'a, T>);

#[verifier::external_type_specification]
#[verifier::external_body]
#[verifier::reject_recursive_types(T)]
pub struct ExPoisonError<T>(std::sync::PoisonError<T>);

/// Relies on `std::sync::Mutex::new`: a new unlocked mutex around `t`.
pub assume_specification<T>[ std::sync::Mutex::<T>::new ](t: T) -> std::sync::Mutex<T>;

/// Relies on `std::sync::Mutex::lock`: blocks until the lock is held, then
/// reports whether an earlier holder panicked.
pub assume_specification<T: ?Sized>[ std::sync::Mutex::<T>::lock ](
    m: &std::sync::Mutex<T>,
) -> std::sync::LockResult<std::sync::MutexGuard<'_, T>>;

/// Relies on `std::sync::PoisonError::into_inner`: the guard that a poisoned
/// lock still hands out.
pub assume_specification<T>[ std::sync::PoisonError::<T>::into_inner ](
    e: std::sync::PoisonError<T>,
) -> T;

/// Relies on `std::sync::MutexGuard`'s `Deref`: the value the lock protects.
#[verifier::external_body]
fn std_guarded<'b, T: ?Sized>(g: &'b std::sync::MutexGuard<'_, T>) -> &'b T {
    core::ops::Deref::deref(g)
}

/// Relies on `std::sync::MutexGuard`'s `DerefMut`: the value the lock
/// protects; it only follows a pointer, so it does not panic.
#[verifier::external_body]
fn std_guarded_mut<'b, T: ?Sized>(g: &'b mut std::sync::MutexGuard<'_, T>) -> &'b mut T
    opens_invariants none
    no_unwind
{
    core::ops::DerefMut::deref_mut(g)
}

/// What one attempt to take a lock without waiting came to.
#[verifier::reject_recursive_types(G)]
pub enum Attempt<G> {
    /// The lock was free and is now held.
    Acquired(G),
    /// The lock was free and is now held, but an earlier holder panicked.
    Poisoned(std::sync::PoisonError<G>),
    /// Another holder has the lock.
    WouldBlock,
}

/// Relies on `std::sync::Mutex::try_lock`, which never waits; its three
/// outcomes are told apart, nothing else.
#[verifier::external_body]
fn std_try_lock<T: ?Sized>(m: &std::sync::Mutex<T>) -> Attempt<std::sync::MutexGuard<'_, T>> {
    match m.try_lock() {
        Ok(g) => Attempt::Acquired(g),
        Err(std::sync::TryLockError::Poisoned(e)) => Attempt::Poisoned(e),
        Err(std::sync::TryLockError::WouldBlock) => Attempt::WouldBlock,
    }
}

/// Like `std::sync::Mutex`, except that it does not poison itself.
#[verifier::reject_recursive_types(T)]
pub struct Mutex<T: ?Sized>(std::sync::Mutex<T>);

/// Like `std::sync::MutexGuard`.
#[must_use]
#[verifier::reject_recursive_types(T)]
pub struct MutexGuard<'a, T: ?Sized + 'a>(std::sync::MutexGuard<'a, T>);

/// Like `std::sync::TryLockError`: the lock is held by someone else.
#[derive(Debug)]
pub struct TryLockError(());

/// Like `std::sync::TryLockResult`.
pub type TryLockResult<T> = Result<T, TryLockError>;

impl<T> Mutex<T> {
    /// Like `std::sync::Mutex::new`.
    pub fn new(t: T) -> Mutex<T> {
        Mutex(std::sync::Mutex::new(t))
    }
}

impl<T: ?Sized> Mutex<T> {
    /// Like `std::sync::Mutex::lock`; a poisoned lock is taken all the same.
    pub fn lock<'a>(&'a self) -> MutexGuard<'a, T> {
        match self.0.lock() {
            Ok(g) => MutexGuard(g),
            Err(e) => MutexGuard(e.into_inner()),
        }
    }

    /// Like `std::sync::Mutex::try_lock`; fails only while another holder has
    /// the lock.
    pub fn try_lock<'a>(&'a self) -> TryLockResult<MutexGuard<'a, T>> {
        settle(std_try_lock(&self.0))
    }
}

impl<'a, T: ?Sized> core::ops::Deref for MutexGuard<'a, T> {
    type Target = T;

    fn deref(&self) -> &T {
        std_guarded(&self.0)
    }
}

impl<'a, T: ?Sized> core::ops::DerefMut for MutexGuard<'a, T> {
    fn deref_mut(&mut self) -> &mut T {
        self.protected_mut()
    }
}

impl<'a, T: ?Sized> MutexGuard<'a, T> {
    /// What `deref_mut` returns, for callers that must not unwind.
    pub(crate) fn protected_mut(&mut self) -> &mut T
        opens_invariants none
        no_unwind
    {
        std_guarded_mut(&mut self.0)
    }
}

/// The result of an attempt to take the lock: a poisoned lock counts as taken,
/// so the attempt fails exactly when another holder has the lock.
pub fn settle<'a, T: ?Sized>(a: Attempt<std::sync::MutexGuard<'a, T>>) -> (r: TryLockResult<
    MutexGuard<'a, T>,
>)
    ensures
        r is Err <==> a is WouldBlock,
{
    match a {
        Attempt::Acquired(g) => Ok(MutexGuard(g)),
        Attempt::Poisoned(e) => Ok(MutexGuard(e.into_inner())),
        Attempt::WouldBlock => Err(TryLockError(())),
    }
}

} // verus!
