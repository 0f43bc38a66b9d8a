//! Change-tracked values: a value plus a flag that is set on every write and
//! cleared when the value has been pushed to the backend, so the synchronizer
//! can skip unchanged fields cheaply.

use vstd::prelude::*;

verus! {

/// A value whose writes are remembered until the next successful push.
#[derive(Clone, Copy, Debug)]
pub struct SyncVar<T> {
    /// The current value.
    pub value: T,
    /// Whether the value changed since it was last pushed.
    pub dirty: bool,
}

impl<T> SyncVar<T> {
    /// A value that counts as already pushed.
    pub fn new(value: T) -> (v: SyncVar<T>)
        ensures
            v.value == value,
            !v.dirty,
    {
        SyncVar { value, dirty: false }
    }

    /// Writes the value and remembers the change for the next push.
    pub fn set(&mut self, value: T)
        ensures
            final(self).value == value,
            final(self).dirty,
    {
        self.value = value;
        self.dirty = true;
    }

    /// Writes the value without signalling a change: for state pulled back
    /// from the backend, which must not trigger a push of its own.
    pub fn set_silent(&mut self, value: T)
        ensures
            final(self).value == value,
            final(self).dirty == old(self).dirty,
    {
        self.value = value;
    }

    /// The current value.
    pub fn get(&self) -> (v: &T)
        ensures
            *v == self.value,
    {
        &self.value
    }

    /// Whether the value still waits to be pushed.
    pub fn need_sync(&self) -> (r: bool)
        ensures
            r == self.dirty,
    {
        self.dirty
    }

    /// Marks the value as pushed.
    pub fn mark_synced(&mut self)
        ensures
            final(self).value == old(self).value,
            !final(self).dirty,
    {
        self.dirty = false;
    }
}

} // verus!
