//! Cells for long-lived shared values: each is filled once at start-up and
//! read or changed in place afterwards.
use vstd::prelude::*;

verus! {

/// A cell that holds one long-lived value once start-up has filled it.
pub struct Resource<T> {
    value: Option<T>,
}

impl<T> View for Resource<T> {
    type V = Option<T>;

    closed spec fn view(&self) -> Option<T> {
        self.value
    }
}

impl<T> Resource<T> {
    /// An empty cell, waiting for start-up to fill it.
    pub fn new() -> (r: Self)
        ensures
            r@ is None,
    {
        Resource { value: None }
    }

    /// Whether start-up has filled the cell.
    pub fn is_present(&self) -> (r: bool)
        ensures
            r == (self@ is Some),
    {
        self.value.is_some()
    }

    /// Fills an empty cell with `value`.
    pub fn init_once(&mut self, value: T)
        requires
            old(self)@ is None,
        ensures
            final(self)@ == Some(value),
    {
        self.value = Some(value);
    }

    /// Shared access to the value of a filled cell.
    pub fn get(&self) -> (r: &T)
        requires
            self@ is Some,
        ensures
            *r == self@->Some_0,
    {
        self.value.as_ref().unwrap()
    }

    /// Exclusive access to the value of a filled cell; what is written
    /// through the reference is what the cell then holds.
    pub fn get_mut(&mut self) -> (r: &mut T)
        requires
            old(self)@ is Some,
        ensures
            *r == old(self)@->Some_0,
            final(self)@ == Some(*final(r)),
    {
        self.value.as_mut().unwrap()
    }
}

} // verus!
