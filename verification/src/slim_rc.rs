//! Shared ownership of a value.

use vstd::prelude::*;

verus! {

/// A pointer to a value that its clones share, counted by the standard
/// library.
pub struct Rc<T> {
    pub object: std::rc::Rc<T>,
}

impl<T> View for Rc<T> {
    type V = T;

    open spec fn view(&self) -> T {
        *self.object
    }
}

impl<T> Rc<T> {
    /// A pointer to a new value.
    pub fn new(value: T) -> (r: Self)
        ensures
            r@ == value,
    {
        Self { object: std::rc::Rc::new(value) }
    }

    /// The value behind the pointer.
    pub fn get(&self) -> (r: &T)
        ensures
            *r == self@,
    {
        &self.object
    }
}

} // verus!
