//! The canonical objects of the small numbers.

use crate::object::PettyObject;
use crate::state::{small_int_object, INT_BASE, INT_COUNT};
use vstd::prelude::*;

verus! {

/// The handles of the canonical objects of the numbers `0` to `255`.
pub struct PreAllocated {
    ints: Vec<PettyObject>,
}

impl PreAllocated {
    /// Whether the table holds one handle for each small number, in order.
    pub closed spec fn wf(&self) -> bool {
        &&& self.ints@.len() == INT_COUNT
        &&& forall|i: int| 0 <= i < INT_COUNT ==> #[trigger] self.ints@[i] == small_int_object(i as i128)
    }

    /// The table of the canonical small numbers.
    pub fn new() -> (p: Self)
        ensures
            p.wf(),
    {
        let mut ints: Vec<PettyObject> = Vec::new();
        let mut i: usize = 0;
        while i < INT_COUNT
            invariant
                i <= INT_COUNT,
                ints@.len() == i,
                forall|k: int| 0 <= k < i ==> #[trigger] ints@[k] == small_int_object(k as i128),
            decreases INT_COUNT - i,
        {
            ints.push(PettyObject(INT_BASE + i));
            i += 1;
        }
        Self { ints }
    }

    /// The canonical object of the number `number`, if it has one.
    #[inline]
    pub fn get(&self, number: usize) -> (r: Option<PettyObject>)
        requires
            self.wf(),
        ensures
            r == (if number < INT_COUNT {
                Some(small_int_object(number as i128))
            } else {
                None
            }),
    {
        if number < self.ints.len() {
            Some(self.ints[number])
        } else {
            None
        }
    }
}

} // verus!
