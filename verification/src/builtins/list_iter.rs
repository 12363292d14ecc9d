//! The cursor over a list and its methods.

use crate::builtins::native_arity;
use crate::builtins::text::{nat_text, usize_to_string};
use crate::error::RuntimeError;
use crate::machine::Vm;
use crate::object::{
    NativeFn, ObjectModel, PettyObject, PettyObjectType, PtyInt, PtyListIter, PtyOption, PtyStr,
};
use crate::state::{bump, seq_get, steps_to, Step, VmView};
use crate::strings::str_eq;
use vstd::prelude::*;
use vstd::string::StringExecFns;

verus! {

/// The method of the list cursor that a key names.
pub open spec fn iter_method(key: Seq<char>) -> Option<NativeFn> {
    if key == "__next__"@ {
        Some(NativeFn::IterNext)
    } else if key == "__iter__"@ || key == "iter"@ {
        Some(NativeFn::IterIter)
    } else if key == "__repr__"@ {
        Some(NativeFn::IterRepr)
    } else if key == "__len__"@ || key == "len"@ {
        Some(NativeFn::IterLen)
    } else {
        None
    }
}

/// Whether a runtime function is a method of the list cursor.
pub open spec fn is_iter_fn(f: NativeFn) -> bool {
    f == NativeFn::IterNext || f == NativeFn::IterIter || f == NativeFn::IterRepr || f
        == NativeFn::IterLen
}

/// How a list cursor in a slot shows itself.
pub open spec fn iter_text(slot: usize) -> Seq<char> {
    "iterator at "@ + nat_text(slot as nat)
}

/// What a method of the list cursor does.
///
/// `__next__` gives an option of the item under the cursor, present as long
/// as the list has one there, and moves the cursor on by one in either case;
/// `__iter__` gives the cursor itself; `__len__` gives the number of items
/// not yet passed, and fails with a numeric domain error once the cursor has
/// left the list.
pub open spec fn call_iter(st: VmView, f: NativeFn, args: Seq<PettyObject>) -> Step<PettyObject>
    recommends
        is_iter_fn(f),
        native_arity(f) == Some(args.len()),
{
    match st.get(args[0]) {
        Some(ObjectModel::ListIter(list, cursor)) => if f == NativeFn::IterIter {
            Ok((args[0], st))
        } else if f == NativeFn::IterRepr {
            st.str_result(iter_text(args[0].0))
        } else {
            match st.list_of(list) {
                None => Err(RuntimeError::CapabilityMismatch),
                Some(items) => if f == NativeFn::IterLen {
                    if cursor <= items.len() {
                        st.new_object(ObjectModel::Int((items.len() - cursor) as i128))
                    } else {
                        Err(RuntimeError::NumericDomain)
                    }
                } else {
                    st.store(args[0], ObjectModel::ListIter(list, bump(cursor))).opt_result(
                        seq_get(items, cursor),
                    )
                },
            }
        },
        _ => Err(RuntimeError::CapabilityMismatch),
    }
}

impl PtyListIter {
    /// The method that a key names, if the list cursor has it.
    pub fn get_item(key: &str) -> (r: Option<NativeFn>)
        ensures
            r == iter_method(key@),
    {
        if str_eq(key, "__next__") {
            Some(NativeFn::IterNext)
        } else if str_eq(key, "__iter__") || str_eq(key, "iter") {
            Some(NativeFn::IterIter)
        } else if str_eq(key, "__repr__") {
            Some(NativeFn::IterRepr)
        } else if str_eq(key, "__len__") || str_eq(key, "len") {
            Some(NativeFn::IterLen)
        } else {
            None
        }
    }
}

/// How a list cursor in a slot shows itself.
pub fn __repr__(slot: usize) -> (r: PtyStr)
    ensures
        r.0@ == iter_text(slot),
{
    let digits = usize_to_string(slot);
    PtyStr("iterator at ".to_owned().concat(digits.as_str()))
}

/// The cursor moved on by one.
pub fn advance(this: PtyListIter) -> (r: PtyListIter)
    ensures
        r.0 == this.0,
        r.1 == bump(this.1),
{
    if this.1 < usize::MAX {
        PtyListIter(this.0, this.1 + 1)
    } else {
        this
    }
}

impl Vm {
    /// Runs a method of the list cursor.
    pub fn call_iter(&mut self, f: NativeFn, args: &Vec<PettyObject>) -> (r: Result<
        PettyObject,
        RuntimeError,
    >)
        requires
            old(self).wf(),
            is_iter_fn(f),
            native_arity(f) == Some(args@.len()),
        ensures
            final(self).wf(),
            steps_to(old(self)@, r, final(self)@, call_iter(old(self)@, f, args@)),
    {
        let this = match self.get(args[0]) {
            Some(PettyObjectType::ListIter(it)) => *it,
            _ => {
                return Err(RuntimeError::CapabilityMismatch);
            },
        };
        match f {
            NativeFn::IterIter => Ok(args[0]),
            NativeFn::IterRepr => self.new_str(__repr__(args[0].0)),
            _ => {
                let items = match self.as_list(this.0) {
                    Some(l) => l,
                    None => {
                        return Err(RuntimeError::CapabilityMismatch);
                    },
                };
                match f {
                    NativeFn::IterLen => {
                        if this.1 <= items.0.len() {
                            let left = PtyInt((items.0.len() - this.1) as i128);
                            Ok(self.allocate(PettyObjectType::Int(left)))
                        } else {
                            Err(RuntimeError::NumericDomain)
                        }
                    },
                    _ => {
                        let next = if this.1 < items.0.len() {
                            Some(items.0[this.1])
                        } else {
                            None
                        };
                        self.store(args[0], PettyObjectType::ListIter(advance(this)));
                        PtyOption::new(self, next)
                    },
                }
            },
        }
    }
}

} // verus!
