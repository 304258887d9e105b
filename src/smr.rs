//! The versioned swap slot and its epoch-based reclamation, as the `smr_swap`
//! crate provides them: the types, and what the library relies on of the
//! calls it makes.
use smr_swap::{LocalReader, ReaderFactory, SmrSwap};
use vstd::prelude::*;

verus! {

#[verifier::external_type_specification]
#[verifier::external_body]
#[verifier::reject_recursive_types(T)]
pub struct ExSmrSwap<T: 'static, const RP: bool>(smr_swap::SmrSwap<T, RP>);

#[verifier::external_type_specification]
#[verifier::external_body]
#[verifier::reject_recursive_types(T)]
pub struct ExLocalReader<T: 'static, const RP: bool>(smr_swap::LocalReader<T, RP>);

#[verifier::external_type_specification]
#[verifier::external_body]
#[verifier::reject_recursive_types(T)]
pub struct ExReaderFactory<T: 'static, const RP: bool>(smr_swap::ReaderFactory<T, RP>);

#[verifier::external_type_specification]
#[verifier::external_body]
#[verifier::reject_recursive_types(T)]
pub struct ExReadGuard<'a, T: 'static, const RP: bool>(smr_swap::ReadGuard<'a, T, RP>);

/// Relies on `smr_swap::SmrSwap::new`: a new slot whose live version is
/// `initial`.
pub assume_specification<T: 'static>[ smr_swap::SmrSwap::<T, false>::new ](initial: T) -> smr_swap::SmrSwap<T, false>;

/// Relies on `smr_swap::SmrSwap::local_reader`: a newly registered reader
/// handle on the slot.
pub assume_specification<T: 'static, const RP: bool>[ smr_swap::SmrSwap::<T, RP>::local_reader ](
    s: &smr_swap::SmrSwap<T, RP>,
) -> smr_swap::LocalReader<T, RP>;

/// Relies on `smr_swap::SmrSwap::reader_factory`: a shareable maker of reader
/// handles on the slot.
pub assume_specification<T: 'static, const RP: bool>[ smr_swap::SmrSwap::<T, RP>::reader_factory ](
    s: &smr_swap::SmrSwap<T, RP>,
) -> smr_swap::ReaderFactory<T, RP>;

/// Relies on `smr_swap::LocalReader::load`: pins this reader and hands out
/// the live version for as long as the guard lives. Never blocks.
pub assume_specification<T: 'static, const RP: bool>[ smr_swap::LocalReader::<T, RP>::load ](
    r: &smr_swap::LocalReader<T, RP>,
) -> smr_swap::ReadGuard<'_, T, RP>;

/// Relies on `smr_swap::LocalReader::reader_factory`: a shareable maker of
/// reader handles on the same slot.
pub assume_specification<T: 'static, const RP: bool>[ smr_swap::LocalReader::<T, RP>::reader_factory ](
    r: &smr_swap::LocalReader<T, RP>,
) -> smr_swap::ReaderFactory<T, RP>;

/// Relies on `smr_swap::LocalReader`'s `Clone`: a newly registered reader
/// handle on the same slot.
pub assume_specification<T: 'static, const RP: bool>[ <smr_swap::LocalReader<T, RP> as Clone>::clone ](
    r: &smr_swap::LocalReader<T, RP>,
) -> smr_swap::LocalReader<T, RP>;

/// Relies on `smr_swap::ReaderFactory::local_reader`: a newly registered
/// reader handle on the slot.
pub assume_specification<T: 'static, const RP: bool>[ smr_swap::ReaderFactory::<T, RP>::local_reader ](
    f: &smr_swap::ReaderFactory<T, RP>,
) -> smr_swap::LocalReader<T, RP>;

/// Relies on `smr_swap::ReaderFactory`'s `Clone`: another maker on the same
/// slot.
pub assume_specification<T: 'static, const RP: bool>[ <smr_swap::ReaderFactory<T, RP> as Clone>::clone ](
    f: &smr_swap::ReaderFactory<T, RP>,
) -> smr_swap::ReaderFactory<T, RP>;

/// Relies on `smr_swap::ReadGuard`'s `Deref`: the version the guard pins.
#[verifier::external_body]
pub(crate) fn pinned<'b, T: 'static>(g: &'b smr_swap::ReadGuard<'_, T>) -> &'b T {
    core::ops::Deref::deref(g)
}

/// The writer's side of a versioned slot: the slot itself, and as a model
/// the version that is live. Whoever holds it exclusively is the only writer,
/// so the model changes only through the methods below.
#[verifier::reject_recursive_types(T)]
pub struct Slot<T: 'static> {
    swap: SmrSwap<T>,
    live: Ghost<T>,
}

impl<T: 'static> Slot<T> {
    /// The live version.
    pub closed spec fn live(self) -> T {
        self.live@
    }

    /// A new slot whose live version is `initial`.
    pub fn new(initial: T) -> (r: Self)
        ensures
            r.live() == initial,
    {
        let ghost first = initial;
        Slot { swap: SmrSwap::new(initial), live: Ghost(first) }
    }

    /// A newly registered reader handle on the slot.
    pub fn local_reader(&self) -> LocalReader<T> {
        self.swap.local_reader()
    }

    /// A shareable maker of reader handles on the slot.
    pub fn reader_factory(&self) -> ReaderFactory<T> {
        self.swap.reader_factory()
    }

    /// Relies on `smr_swap::SmrSwap::get`: the live version, seen by the
    /// writer without pinning.
    #[verifier::external_body]
    pub(crate) fn get(&self) -> (r: &T)
        ensures
            *r == self.live(),
    {
        self.swap.get()
    }

    /// Relies on `smr_swap::SmrSwap::store`: `new_value` becomes the live
    /// version and the one it replaces is retired. It has no panic of its
    /// own; the retired versions it frees run `T`'s destructor.
    #[verifier::external_body]
    pub(crate) fn publish(&mut self, new_value: T)
        ensures
            final(self).live() == new_value,
        opens_invariants none
        no_unwind
    {
        self.swap.store(new_value)
    }

    /// Relies on `smr_swap::SmrSwap::swap`: clones the live version, then
    /// publishes `new_value` in its place and returns the clone.
    #[verifier::external_body]
    pub(crate) fn swap(&mut self, new_value: T) -> (r: T)
        where
            T: Clone,
        ensures
            cloned(old(self).live(), r),
            final(self).live() == new_value,
    {
        self.swap.swap(new_value)
    }

    /// Relies on `smr_swap::SmrSwap::update`: calls `f` once on the live
    /// version and publishes what it returns.
    #[verifier::external_body]
    pub(crate) fn update<F>(&mut self, f: F)
        where
            F: FnOnce(&T) -> T,
        requires
            forall|v: &T| f.requires((v,)),
        ensures
            f.ensures((&old(self).live(),), final(self).live()),
    {
        self.swap.update(f)
    }
}

} // verus!
