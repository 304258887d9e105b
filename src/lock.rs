//! The lock facade: reads that never block over a shared versioned slot, and
//! writes serialised by a mutex.
use core::ops::{Deref, DerefMut};
use std::sync::Arc;

use smr_swap::{LocalReader, ReadGuard, ReaderFactory};
use vstd::prelude::*;

use crate::mutex::{Mutex, MutexGuard, TryLockResult};
use crate::pending::Pending;
use crate::smr::{pinned, Slot};

verus! {

/// A lock whose reads never block and whose writes are serialised by a mutex.
///
/// Clones share one slot; each clone reads through its own reader handle.
#[verifier::reject_recursive_types(T)]
pub struct LfrLock<T: 'static> {
    swap: Arc<Mutex<Slot<T>>>,
    local: LocalReader<T>,
}

impl<T: 'static> LfrLock<T> {
    /// The shared slot, behind its write mutex, that this lock stands on.
    pub closed spec fn slot(self) -> Mutex<Slot<T>> {
        *self.swap
    }

    /// A new lock holding `initial`.
    pub fn new(initial: T) -> Self {
        let swap = Slot::new(initial);
        let local = swap.local_reader();
        LfrLock { swap: Arc::new(Mutex::new(swap)), local }
    }

    /// Publishes `new_value`, waiting for other writers first. The version it
    /// replaces is freed once no reader can see it.
    pub fn store(&self, new_value: T) {
        let mut guard = self.swap.lock();
        guard.deref_mut().publish(new_value);
    }

    /// Publishes `new_value` and returns a clone of the version it replaced,
    /// waiting for other writers first.
    pub fn swap(&self, new_value: T) -> (r: T)
        where
            T: Clone,
        ensures
            exists|v: T| cloned(v, r),
    {
        let mut guard = self.swap.lock();
        guard.deref_mut().swap(new_value)
    }

    /// Publishes what `f` returns on the live version, waiting for other
    /// writers first; no other write comes between the read and the publish.
    pub fn update<F>(&self, f: F)
        where
            F: FnOnce(&T) -> T,
        requires
            forall|v: &T| f.requires((v,)),
    {
        let mut guard = self.swap.lock();
        guard.deref_mut().update(f);
    }

    /// Like `update`, then, with the write mutex still held, a guard on the
    /// value published.
    pub fn update_and_fetch<F>(&self, f: F) -> ReadGuard<'_, T>
        where
            F: FnOnce(&T) -> T,
        requires
            forall|v: &T| f.requires((v,)),
    {
        let mut guard = self.swap.lock();
        guard.deref_mut().update(f);
        self.local.load()
    }

    /// Takes the write mutex, reads, then does as `update`: the guard pins
    /// the version that `f` was given.
    pub fn fetch_and_update<F>(&self, f: F) -> ReadGuard<'_, T>
        where
            F: FnOnce(&T) -> T,
        requires
            forall|v: &T| f.requires((v,)),
    {
        let mut guard = self.swap.lock();
        let old_guard = self.local.load();
        guard.deref_mut().update(f);
        old_guard
    }

    /// What `f` returns on the live version. Never blocks.
    pub fn map<F, U>(&self, f: F) -> (r: U)
        where
            F: FnOnce(&T) -> U,
        requires
            forall|v: &T| f.requires((v,)),
        ensures
            exists|v: &T| f.ensures((v,), r),
    {
        let guard = self.local.load();
        let v = pinned(&guard);
        let r = f(v);
        assert(f.ensures((v,), r));
        r
    }

    /// A guard on the live version if `f` accepts it, else `None`. Never
    /// blocks, and never changes the value.
    pub fn filter<F>(&self, f: F) -> (r: Option<ReadGuard<'_, T>>)
        where
            F: FnOnce(&T) -> bool,
        requires
            forall|v: &T| f.requires((v,)),
        ensures
            exists|v: &T| #[trigger] f.ensures((v,), r is Some),
    {
        let guard = self.local.load();
        let v = pinned(&guard);
        let ghost seen = *v;
        let keep = f(v);
        let r = if keep {
            Some(guard)
        } else {
            None
        };
        assert(f.ensures((&seen,), r is Some));
        r
    }

    /// A clone of the live version. Never blocks.
    pub fn get(&self) -> (r: T)
        where
            T: Clone,
        ensures
            exists|v: T| cloned(v, r),
    {
        let guard = self.local.load();
        let v = pinned(&guard);
        let r = v.clone();
        assert(cloned(*v, r));
        r
    }

    /// A guard on the live version. Never blocks.
    pub fn read(&self) -> ReadGuard<'_, T> {
        self.local.load()
    }

    /// Waits for other writers, then hands out a working copy of the live
    /// version; it is published when the guard is dropped.
    pub fn write(&self) -> (r: WriteGuard<'_, T>)
        where
            T: Clone,
        ensures
            r.is_pending(),
            cloned(r.live(), r.value()),
    {
        WriteGuard::new(self)
    }

    /// Like `write`, but without waiting: `None` while another writer holds
    /// the write mutex.
    pub fn try_write(&self) -> (r: Option<WriteGuard<'_, T>>)
        where
            T: Clone,
        ensures
            r matches Some(g) ==> g.is_pending() && cloned(g.live(), g.value()),
    {
        WriteGuard::attempted(self.swap.try_lock())
    }

    /// The live version in debug form, `LfrLock { data: .. }`, read under a
    /// transient pin.
    pub fn debug_string(&self) -> (r: String)
        where
            T: core::fmt::Debug,
        ensures
            exists|d: Seq<char>| r@ == "LfrLock { data: "@ + d + " }"@,
    {
        let guard = self.local.load();
        let data = debug_text(pinned(&guard));
        let mut r = String::from_str("LfrLock { data: ");
        r.append(data.as_str());
        r.append(" }");
        proof {
            reveal_strlit("LfrLock { data: ");
            reveal_strlit(" }");
            assert(r@ == "LfrLock { data: "@ + data@ + " }"@);
        }
        r
    }

    /// A factory of further locks on the same slot, which can be shared
    /// across threads.
    pub fn factory(&self) -> (r: LfrLockFactory<T>)
        ensures
            r.slot() == self.slot(),
    {
        LfrLockFactory { swap: self.swap.clone(), reader: self.local.reader_factory() }
    }
}

impl<T: Default + 'static> Default for LfrLock<T> {
    /// A new lock holding `T`'s default value.
    fn default() -> Self {
        Self::new(T::default())
    }
}

impl<T: 'static> From<T> for LfrLock<T> {
    /// A new lock holding `value`.
    fn from(value: T) -> Self {
        Self::new(value)
    }
}

impl<T: 'static> vstd::std_specs::convert::FromSpecImpl<T> for LfrLock<T> {
    /// A lock is no plain value, so `from` is specified by nothing more than
    /// `new`.
    open spec fn obeys_from_spec() -> bool {
        false
    }

    open spec fn from_spec(v: T) -> Self {
        arbitrary()
    }
}

impl<T: 'static> Clone for LfrLock<T> {
    /// Another lock on the same slot, with a newly registered reader handle.
    fn clone(&self) -> (r: Self)
        ensures
            r.slot() == self.slot(),
    {
        LfrLock { swap: self.swap.clone(), local: self.local.clone() }
    }
}

/// Makes locks on one shared slot, each with a newly registered reader
/// handle; it can be cloned and shared across threads.
#[verifier::reject_recursive_types(T)]
pub struct LfrLockFactory<T: 'static> {
    swap: Arc<Mutex<Slot<T>>>,
    reader: ReaderFactory<T>,
}

impl<T: 'static> LfrLockFactory<T> {
    /// The shared slot, behind its write mutex, that the locks made stand on.
    pub closed spec fn slot(self) -> Mutex<Slot<T>> {
        *self.swap
    }

    /// A factory of locks on a new slot holding `initial`.
    pub fn new(initial: T) -> Self {
        let swap = Slot::new(initial);
        let reader = swap.reader_factory();
        LfrLockFactory { swap: Arc::new(Mutex::new(swap)), reader }
    }

    /// A new lock on the shared slot, for the current thread.
    pub fn create(&self) -> (r: LfrLock<T>)
        ensures
            r.slot() == self.slot(),
    {
        LfrLock { swap: self.swap.clone(), local: self.reader.local_reader() }
    }
}

impl<T: 'static> Clone for LfrLockFactory<T> {
    /// Another factory on the same slot.
    fn clone(&self) -> (r: Self)
        ensures
            r.slot() == self.slot(),
    {
        LfrLockFactory { swap: self.swap.clone(), reader: self.reader.clone() }
    }
}

/// Relies on `format!` and `T`'s `Debug`: the debug text of `data`.
#[verifier::external_body]
fn debug_text<T: core::fmt::Debug>(data: &T) -> String {
    format!("{:?}", data)
}

/// Exclusive write access: holds the write mutex and a working copy of the
/// value, which is published when the guard is dropped.
#[verifier::reject_recursive_types(T)]
pub struct WriteGuard<'a, T: 'static> {
    swap_guard: MutexGuard<'a, Slot<T>>,
    data: Pending<T>,
    live: Ghost<T>,
}

impl<'a, T: 'static> WriteGuard<'a, T> {
    /// Whether the working copy is still held, that is, not yet published.
    pub closed spec fn is_pending(self) -> bool {
        self.data.is_pending()
    }

    /// The working copy.
    pub closed spec fn value(self) -> T {
        self.data.value()
    }

    /// The live version of the slot whose write mutex the guard holds: the
    /// one found on taking the mutex, and once the guard is dropped, the one
    /// it published.
    pub closed spec fn live(self) -> T {
        self.live@
    }

    fn new(lock: &'a LfrLock<T>) -> (r: Self)
        where
            T: Clone,
        ensures
            r.is_pending(),
            cloned(r.live(), r.value()),
    {
        Self::holding(lock.swap.lock())
    }

    /// A guard if the attempt to take the write mutex succeeded: `None`
    /// exactly when it failed.
    fn attempted(attempt: TryLockResult<MutexGuard<'a, Slot<T>>>) -> (r: Option<Self>)
        where
            T: Clone,
        ensures
            r is None <==> attempt is Err,
            r matches Some(g) ==> g.is_pending() && cloned(g.live(), g.value()),
    {
        match attempt {
            Ok(swap_guard) => Some(Self::holding(swap_guard)),
            Err(_) => None,
        }
    }

    /// A guard that holds `swap_guard` and a clone of the version live under
    /// it.
    fn holding(swap_guard: MutexGuard<'a, Slot<T>>) -> (r: Self)
        where
            T: Clone,
        ensures
            r.is_pending(),
            cloned(r.live(), r.value()),
    {
        let slot = swap_guard.deref();
        let ghost live = slot.live();
        let data = slot.get().clone();
        WriteGuard { swap_guard, data: Pending::new(data), live: Ghost(live) }
    }
}

impl<'a, T: 'static> Deref for WriteGuard<'a, T> {
    type Target = T;

    /// The working copy; once it is published, the live version, which is
    /// the same value.
    fn deref(&self) -> (r: &T)
        ensures
            self.is_pending() ==> *r == self.value(),
    {
        match &self.data {
            Pending::Pending(v) => v,
            Pending::Committed => self.swap_guard.deref().get(),
        }
    }
}

impl<'a, T: 'static + Clone> DerefMut for WriteGuard<'a, T> {
    /// The working copy, to change in place; once it is published, a fresh
    /// copy of the live version.
    fn deref_mut(&mut self) -> (r: &mut T)
        ensures
            old(self).is_pending() ==> *r == old(self).value(),
            final(self).is_pending(),
            final(self).value() == *final(r),
            final(self).live() == old(self).live(),
    {
        if !self.data.is_pending_exec() {
            let fresh = self.swap_guard.deref().get().clone();
            self.data = Pending::new(fresh);
        }
        self.data.get_mut()
    }
}

impl<'a, T: 'static> Drop for WriteGuard<'a, T> {
    /// Publishes the working copy, once: it becomes the live version, and
    /// afterwards the guard holds none.
    fn drop(&mut self)
        ensures
            !final(self).is_pending(),
            old(self).is_pending() ==> final(self).live() == old(self).value(),
            !old(self).is_pending() ==> final(self).live() == old(self).live(),
        opens_invariants none
        no_unwind
    {
        if let Some(v) = self.data.take() {
            let slot = self.swap_guard.protected_mut();
            slot.publish(v);
            self.live = Ghost(slot.live());
        }
    }
}

} // verus!
