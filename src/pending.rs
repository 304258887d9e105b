//! A cell that holds a value until it is taken out, exactly once.
use vstd::prelude::*;

verus! {

/// The working copy of a write in progress: `Pending` until it has been
/// committed, `Committed` ever after.
pub enum Pending<T> {
    Pending(T),
    Committed,
}

impl<T> Pending<T> {
    /// A cell holding `value`, not yet committed.
    pub fn new(value: T) -> (r: Self)
        ensures
            r == Pending::Pending(value),
    {
        Pending::Pending(value)
    }

    /// Whether the value is still held.
    pub open spec fn is_pending(&self) -> bool {
        match self {
            Pending::Pending(_) => true,
            Pending::Committed => false,
        }
    }

    /// The value held; meaningful only while pending.
    pub open spec fn value(&self) -> T
        recommends
            self.is_pending(),
    {
        self->Pending_0
    }

    /// Whether the value is still held.
    pub fn is_pending_exec(&self) -> (r: bool)
        ensures
            r == self.is_pending(),
    {
        match self {
            Pending::Pending(_) => true,
            Pending::Committed => false,
        }
    }

    /// A shared view of the held value.
    pub fn get(&self) -> (r: &T)
        requires
            self.is_pending(),
        ensures
            *r == self.value(),
    {
        match self {
            Pending::Pending(v) => v,
            Pending::Committed => unreached(),
        }
    }

    /// An exclusive view of the held value, through which it can be changed.
    pub fn get_mut(&mut self) -> (r: &mut T)
        requires
            old(self).is_pending(),
        ensures
            *r == old(self).value(),
            *final(self) == Pending::Pending(*final(r)),
        no_unwind
    {
        match self {
            Pending::Pending(v) => v,
            Pending::Committed => unreached(),
        }
    }

    /// Takes the value out: the first time, the value held; ever after,
    /// nothing. The cell is committed afterwards either way.
    pub fn take(&mut self) -> (r: Option<T>)
        ensures
            !final(self).is_pending(),
            old(self).is_pending() ==> r == Some(old(self).value()),
            !old(self).is_pending() ==> r is None,
        opens_invariants none
        no_unwind
    {
        let mut out = Pending::Committed;
        core::mem::swap(self, &mut out);
        match out {
            Pending::Pending(v) => Some(v),
            Pending::Committed => None,
        }
    }
}

} // verus!
