//! The single slot that holds the backend child this host started.
//!
//! Whoever takes the child out owns it alone: a second take finds the slot
//! empty, so no child is signalled twice.

use vstd::prelude::*;

verus! {

pub struct TrackedSlot<C> {
    child: Option<C>,
}

impl<C> View for TrackedSlot<C> {
    type V = Option<C>;

    closed spec fn view(&self) -> Option<C> {
        self.child
    }
}

impl<C> TrackedSlot<C> {
    pub fn new() -> (r: Self)
        ensures
            r@.is_none(),
    {
        TrackedSlot { child: None }
    }

    pub fn is_held(&self) -> (r: bool)
        ensures
            r == self@.is_some(),
    {
        self.child.is_some()
    }

    /// Stores `c` when the slot is empty; otherwise leaves the slot as it is and
    /// hands `c` back, since only one child may be tracked.
    pub fn install(&mut self, c: C) -> (r: Option<C>)
        ensures
            old(self)@.is_none() ==> final(self)@ == Some(c) && r.is_none(),
            old(self)@.is_some() ==> final(self)@ == old(self)@ && r == Some(c),
    {
        if self.child.is_none() {
            self.child = Some(c);
            None
        } else {
            Some(c)
        }
    }

    /// Empties the slot and returns what it held.
    pub fn take(&mut self) -> (r: Option<C>)
        ensures
            r == old(self)@,
            final(self)@.is_none(),
    {
        self.child.take()
    }
}

} // verus!
