//! A cell that moves values in and out of an optional slot.

use vstd::prelude::*;

verus! {

/// A slot that a value can be moved into and out of; a plainly owned
/// stand-in for shared-cell idioms.
pub struct MoveCell<T> {
    /// The current contents of the cell.
    pub value: Option<T>,
}

impl<T> MoveCell<T> {
    /// Create a cell with no contained value.
    pub fn new() -> (r: MoveCell<T>)
        ensures
            r.value is None,
    {
        MoveCell { value: None }
    }

    /// Create a cell holding `val`.
    pub fn with(val: T) -> (r: MoveCell<T>)
        ensures
            r.value == Some(val),
    {
        MoveCell { value: Some(val) }
    }

    /// Create a cell around the given optional value.
    pub fn from(opt: Option<T>) -> (r: MoveCell<T>)
        ensures
            r.value == opt,
    {
        MoveCell { value: opt }
    }

    /// Place a value into the cell, returning the previous value, if any.
    pub fn put(&mut self, val: T) -> (r: Option<T>)
        ensures
            r == old(self).value,
            final(self).value == Some(val),
    {
        let prev = self.value.take();
        self.value = Some(val);
        prev
    }

    /// Take the value out of the cell, leaving nothing in its place.
    pub fn take(&mut self) -> (r: Option<T>)
        ensures
            r == old(self).value,
            final(self).value is None,
    {
        self.value.take()
    }

    /// Get a clone of the cell's value, leaving the value in place.
    pub fn clone_inner(&self) -> (r: Option<T>) where T: Clone
        ensures
            r is Some <==> self.value is Some,
    {
        match &self.value {
            Some(v) => Some(v.clone()),
            None => None,
        }
    }

    /// Whether the cell currently holds a value.
    pub fn has_value(&self) -> (r: bool)
        ensures
            r == (self.value is Some),
    {
        self.value.is_some()
    }
}

} // verus!
