//! The counter type and its methods.

use crate::builtins::native_arity;
use crate::builtins::number::fit;
use crate::builtins::text::{nat_text, usize_to_string};
use crate::error::RuntimeError;
use crate::machine::Vm;
use crate::object::{
    NativeFn, ObjectModel, PettyObject, PettyObjectType, PtyInt, PtyOption, PtyRange, PtyStr,
};
use crate::state::{none_object, steps_to, Step, VmView, NONE_SLOT};
use crate::strings::str_eq;
use vstd::prelude::*;
use vstd::string::StringExecFns;

verus! {

/// The method of the counter type that a key names.
pub open spec fn range_method(key: Seq<char>) -> Option<NativeFn> {
    if key == "__iter__"@ || key == "iter"@ {
        Some(NativeFn::RangeIter)
    } else if key == "__next__"@ || key == "next"@ {
        Some(NativeFn::RangeNext)
    } else if key == "__repr__"@ {
        Some(NativeFn::RangeRepr)
    } else if key == "sum"@ {
        Some(NativeFn::RangeSum)
    } else {
        None
    }
}

/// Whether a runtime function is a method of the counter type, or the
/// function that makes a counter.
pub open spec fn is_range_fn(f: NativeFn) -> bool {
    f == NativeFn::RangeNew || f == NativeFn::RangeIter || f == NativeFn::RangeNext || f
        == NativeFn::RangeRepr || f == NativeFn::RangeSum
}

/// How a counter in a slot shows itself.
pub open spec fn range_text(slot: usize) -> Seq<char> {
    "range at "@ + nat_text(slot as nat)
}

/// The value that a counter moves on to, if it stays within its bound.
pub open spec fn range_step(end: i128, step: i128, current: i128) -> Option<i128> {
    match fit(current + step) {
        Some(next) => if next <= end {
            Some(next)
        } else {
            None
        },
        None => None,
    }
}

/// The values that a counter still gives, added to `acc`, and the value at
/// which the counter stops. The sum fails with a numeric domain error where
/// it leaves the number type, and with a loop limit error where the counter
/// does not move upwards.
pub open spec fn range_drain(end: i128, step: i128, current: i128, acc: i128) -> Result<
    (i128, i128),
    RuntimeError,
>
    decreases end - current,
{
    if step <= 0 {
        Err(RuntimeError::LoopLimit)
    } else {
        match range_step(end, step, current) {
            None => Ok((current, acc)),
            Some(next) => match fit(acc + current) {
                None => Err(RuntimeError::NumericDomain),
                Some(total) => range_drain(end, step, next, total),
            },
        }
    }
}

/// What a method of the counter type does.
///
/// The function that makes a counter takes its bound and gives a new counter
/// that starts at zero and moves by one. `__next__` gives a present option
/// of the current value and moves the counter on, as long as the value it
/// moves on to stays within the bound; else it gives the absent option and
/// leaves the counter where it is. `sum` gives the sum of the values that
/// are left and leaves the counter at its end.
pub open spec fn call_range(st: VmView, f: NativeFn, args: Seq<PettyObject>) -> Step<PettyObject>
    recommends
        is_range_fn(f),
        native_arity(f) == Some(args.len()),
{
    if f == NativeFn::RangeNew {
        match st.int_of(args[0]) {
            None => Err(RuntimeError::CapabilityMismatch),
            Some(end) => st.new_object(ObjectModel::Range { end, step: 1, current: 0 }),
        }
    } else {
        match st.get(args[0]) {
            Some(ObjectModel::Range { end, step, current }) => if f == NativeFn::RangeIter {
                Ok((args[0], st))
            } else if f == NativeFn::RangeRepr {
                st.str_result(range_text(args[0].0))
            } else if f == NativeFn::RangeNext {
                match range_step(end, step, current) {
                    None => Ok((none_object(), st)),
                    Some(next) => {
                        let st1 = st.store(args[0], ObjectModel::Range { end, step, current: next });
                        st1.allocate(ObjectModel::Int(current)).new_object(
                            ObjectModel::Opt(Some(st1.next_object())),
                        )
                    },
                }
            } else {
                match range_drain(end, step, current, 0) {
                    Err(e) => Err(e),
                    Ok((last, total)) => st.store(
                        args[0],
                        ObjectModel::Range { end, step, current: last },
                    ).new_object(ObjectModel::Int(total)),
                }
            },
            _ => Err(RuntimeError::CapabilityMismatch),
        }
    }
}

impl PtyRange {
    /// The method that a key names, if the counter type has it.
    pub fn get_item(key: &str) -> (r: Option<NativeFn>)
        ensures
            r == range_method(key@),
    {
        if str_eq(key, "__iter__") || str_eq(key, "iter") {
            Some(NativeFn::RangeIter)
        } else if str_eq(key, "__next__") || str_eq(key, "next") {
            Some(NativeFn::RangeNext)
        } else if str_eq(key, "__repr__") {
            Some(NativeFn::RangeRepr)
        } else if str_eq(key, "sum") {
            Some(NativeFn::RangeSum)
        } else {
            None
        }
    }

    /// Moves the counter on and gives the value it had, as long as the value
    /// it moves on to stays within the bound.
    #[inline]
    pub fn next(&mut self) -> (r: Option<i128>)
        ensures
            final(self).end == old(self).end,
            final(self).step == old(self).step,
            match range_step(old(self).end, old(self).step, old(self).current) {
                Some(next) => r == Some(old(self).current) && final(self).current == next,
                None => r.is_none() && final(self).current == old(self).current,
            },
    {
        match self.current.checked_add(self.step) {
            Some(next) => {
                if next <= self.end {
                    let prev = self.current;
                    self.current = next;
                    Some(prev)
                } else {
                    None
                }
            },
            None => None,
        }
    }
}

/// A counter that starts at zero and moves by one up to a bound.
pub fn range(end: PtyInt) -> (r: PtyRange)
    ensures
        r.end == end.0,
        r.step == 1,
        r.current == 0,
{
    PtyRange { end: end.0, current: 0, step: 1 }
}

/// How a counter in a slot shows itself.
pub fn __repr__(slot: usize) -> (r: PtyStr)
    ensures
        r.0@ == range_text(slot),
{
    let digits = usize_to_string(slot);
    PtyStr("range at ".to_owned().concat(digits.as_str()))
}

/// The sum of the values that a counter still gives; the counter is left at
/// its end.
pub fn sum(this: &mut PtyRange) -> (r: Result<PtyInt, RuntimeError>)
    ensures
        final(this).end == old(this).end,
        final(this).step == old(this).step,
        match range_drain(old(this).end, old(this).step, old(this).current, 0) {
            Ok((last, total)) => r == Ok::<PtyInt, RuntimeError>(PtyInt(total))
                && final(this).current == last,
            Err(e) => r == Err::<PtyInt, RuntimeError>(e),
        },
{
    if this.step <= 0 {
        return Err(RuntimeError::LoopLimit);
    }
    let mut total: i128 = 0;
    loop
        invariant
            this.end == old(this).end,
            this.step == old(this).step,
            this.step > 0,
            range_drain(old(this).end, old(this).step, old(this).current, 0) == range_drain(
                this.end,
                this.step,
                this.current,
                total,
            ),
        decreases this.end - this.current,
    {
        let ghost before = this.current;
        match this.next() {
            None => {
                return Ok(PtyInt(total));
            },
            Some(value) => {
                match total.checked_add(value) {
                    Some(t) => {
                        total = t;
                    },
                    None => {
                        return Err(RuntimeError::NumericDomain);
                    },
                }
            },
        }
    }
}

impl Vm {
    /// Runs a method of the counter type.
    pub fn call_range(&mut self, f: NativeFn, args: &Vec<PettyObject>) -> (r: Result<
        PettyObject,
        RuntimeError,
    >)
        requires
            old(self).wf(),
            is_range_fn(f),
            native_arity(f) == Some(args@.len()),
        ensures
            final(self).wf(),
            steps_to(old(self)@, r, final(self)@, call_range(old(self)@, f, args@)),
    {
        match f {
            NativeFn::RangeNew => {
                match self.as_int(args[0]) {
                    Some(end) => Ok(self.allocate(PettyObjectType::Range(range(end)))),
                    None => Err(RuntimeError::CapabilityMismatch),
                }
            },
            _ => {
                let mut this = match self.get(args[0]) {
                    Some(PettyObjectType::Range(r)) => *r,
                    _ => {
                        return Err(RuntimeError::CapabilityMismatch);
                    },
                };
                match f {
                    NativeFn::RangeIter => Ok(args[0]),
                    NativeFn::RangeRepr => self.new_str(__repr__(args[0].0)),
                    NativeFn::RangeNext => {
                        match this.next() {
                            None => Ok(PettyObject(NONE_SLOT)),
                            Some(value) => {
                                self.store(args[0], PettyObjectType::Range(this));
                                let n = self.allocate(PettyObjectType::Int(PtyInt(value)));
                                Ok(self.allocate(PettyObjectType::Opt(PtyOption(Some(n)))))
                            },
                        }
                    },
                    _ => {
                        match sum(&mut this) {
                            Err(e) => Err(e),
                            Ok(total) => {
                                self.store(args[0], PettyObjectType::Range(this));
                                Ok(self.allocate(PettyObjectType::Int(total)))
                            },
                        }
                    },
                }
            },
        }
    }
}

} // verus!
