//! The list type and its methods.

use crate::builtins::native_arity;
use crate::error::RuntimeError;
use crate::machine::{clamp, copy_handles, Vm};
use crate::object::{
    NativeFn, ObjectModel, PettyObject, PettyObjectType, PtyBool, PtyInt, PtyList, PtyListIter,
};
use crate::state::{clamp_index, seq_get, steps_to, Step, VmView};
use crate::strings::str_eq;
use vstd::prelude::*;

verus! {

/// The method of the list type that a key names.
pub open spec fn list_method(key: Seq<char>) -> Option<NativeFn> {
    if key == "len"@ {
        Some(NativeFn::ListLen)
    } else if key == "push"@ {
        Some(NativeFn::ListPush)
    } else if key == "get"@ || key == "__get_index__"@ {
        Some(NativeFn::ListGet)
    } else if key == "set"@ || key == "__set_index__"@ {
        Some(NativeFn::ListSet)
    } else if key == "contains"@ {
        Some(NativeFn::ListContains)
    } else if key == "find"@ {
        Some(NativeFn::ListFind)
    } else if key == "__repr__"@ {
        Some(NativeFn::ListRepr)
    } else if key == "__add__"@ {
        Some(NativeFn::ListAdd)
    } else if key == "__mul__"@ {
        Some(NativeFn::ListMul)
    } else if key == "__bool__"@ {
        Some(NativeFn::ListBool)
    } else if key == "__iter__"@ || key == "iter"@ {
        Some(NativeFn::ListIter)
    } else if key == "__is_eq__"@ {
        Some(NativeFn::ListIsEq)
    } else {
        None
    }
}

/// A sequence of items written `n` times in a row.
pub open spec fn repeat_items(items: Seq<PettyObject>, n: nat) -> Seq<PettyObject>
    decreases n,
{
    if n == 0 {
        Seq::<PettyObject>::empty()
    } else {
        repeat_items(items, (n - 1) as nat) + items
    }
}

/// Whether a runtime function is a method of the list type that needs no
/// call back into the machine.
pub open spec fn is_list_fn(f: NativeFn) -> bool {
    f == NativeFn::ListLen || f == NativeFn::ListBool || f == NativeFn::ListIter || f
        == NativeFn::ListPush || f == NativeFn::ListGet || f == NativeFn::ListSet || f
        == NativeFn::ListAdd || f == NativeFn::ListMul
}

/// What a method of the list type does.
///
/// `len` gives a new number; `push` appends to the list in place and gives
/// the null object; `get` gives an option of the item at a position; `set`
/// replaces the item at a position in place, and fails with a numeric domain
/// error where the list has no such position; `__add__` and `__mul__` give a
/// new list; `__iter__` gives a new cursor at the start of the list. An
/// argument of another type than the method needs is a capability mismatch.
pub open spec fn call_list(st: VmView, f: NativeFn, args: Seq<PettyObject>) -> Step<PettyObject>
    recommends
        is_list_fn(f),
        native_arity(f) == Some(args.len()),
{
    match st.list_of(args[0]) {
        None => Err(RuntimeError::CapabilityMismatch),
        Some(items) => if f == NativeFn::ListLen {
            st.new_object(ObjectModel::Int(items.len() as i128))
        } else if f == NativeFn::ListBool {
            st.bool_result(items.len() != 0)
        } else if f == NativeFn::ListIter {
            st.new_object(ObjectModel::ListIter(args[0], 0))
        } else if f == NativeFn::ListPush {
            Ok(
                (
                    crate::state::null_object(),
                    st.store(args[0], ObjectModel::List(items.push(args[1]))),
                ),
            )
        } else if f == NativeFn::ListAdd {
            match st.list_of(args[1]) {
                None => Err(RuntimeError::CapabilityMismatch),
                Some(other) => st.new_object(ObjectModel::List(items + other)),
            }
        } else {
            match st.int_of(args[1]) {
                None => Err(RuntimeError::CapabilityMismatch),
                Some(n) => {
                    let i = clamp_index(n);
                    if f == NativeFn::ListGet {
                        st.opt_result(seq_get(items, i))
                    } else if f == NativeFn::ListMul {
                        st.new_object(ObjectModel::List(repeat_items(items, i as nat)))
                    } else if i < items.len() {
                        Ok(
                            (
                                crate::state::null_object(),
                                st.store(args[0], ObjectModel::List(items.update(i as int, args[2]))),
                            ),
                        )
                    } else {
                        Err(RuntimeError::NumericDomain)
                    }
                },
            }
        },
    }
}

impl PtyList {
    /// The method that a key names, if the list type has it.
    pub fn get_item(key: &str) -> (r: Option<NativeFn>)
        ensures
            r == list_method(key@),
    {
        if str_eq(key, "len") {
            Some(NativeFn::ListLen)
        } else if str_eq(key, "push") {
            Some(NativeFn::ListPush)
        } else if str_eq(key, "get") || str_eq(key, "__get_index__") {
            Some(NativeFn::ListGet)
        } else if str_eq(key, "set") || str_eq(key, "__set_index__") {
            Some(NativeFn::ListSet)
        } else if str_eq(key, "contains") {
            Some(NativeFn::ListContains)
        } else if str_eq(key, "find") {
            Some(NativeFn::ListFind)
        } else if str_eq(key, "__repr__") {
            Some(NativeFn::ListRepr)
        } else if str_eq(key, "__add__") {
            Some(NativeFn::ListAdd)
        } else if str_eq(key, "__mul__") {
            Some(NativeFn::ListMul)
        } else if str_eq(key, "__bool__") {
            Some(NativeFn::ListBool)
        } else if str_eq(key, "__iter__") || str_eq(key, "iter") {
            Some(NativeFn::ListIter)
        } else if str_eq(key, "__is_eq__") {
            Some(NativeFn::ListIsEq)
        } else {
            None
        }
    }
}

/// How many items a list holds.
pub fn len(this: &PtyList) -> (r: PtyInt)
    ensures
        r.0 == this.0@.len(),
{
    PtyInt(this.0.len() as i128)
}

/// The item at a position of a list, if the list has the position.
pub fn get(this: &PtyList, index: PtyInt) -> (r: Option<PettyObject>)
    ensures
        r == seq_get(this.0@, clamp_index(index.0)),
{
    let i = clamp(index.0);
    if i < this.0.len() {
        Some(this.0[i])
    } else {
        None
    }
}

/// Whether a list holds an item.
pub fn __bool__(this: &PtyList) -> (r: PtyBool)
    ensures
        r.0 == (this.0@.len() != 0),
{
    PtyBool(this.0.len() != 0)
}

/// The items of two lists, one list after the other.
pub fn __add__(lhs: &PtyList, rhs: &PtyList) -> (r: PtyList)
    ensures
        r.0@ == lhs.0@ + rhs.0@,
{
    let mut out = copy_handles(&lhs.0);
    let mut i: usize = 0;
    while i < rhs.0.len()
        invariant
            i <= rhs.0@.len(),
            out@ == lhs.0@ + rhs.0@.take(i as int),
        decreases rhs.0@.len() - i,
    {
        out.push(rhs.0[i]);
        assert(rhs.0@.take(i + 1) =~= rhs.0@.take(i as int).push(rhs.0@[i as int]));
        assert(out@ =~= lhs.0@ + rhs.0@.take(i + 1));
        i += 1;
    }
    assert(rhs.0@.take(rhs.0@.len() as int) =~= rhs.0@);
    PtyList(out)
}

/// The items of a list, `times` times in a row.
pub fn __mul__(lhs: &PtyList, times: usize) -> (r: PtyList)
    ensures
        r.0@ == repeat_items(lhs.0@, times as nat),
{
    let mut out: Vec<PettyObject> = Vec::new();
    let mut round: usize = 0;
    while round < times
        invariant
            round <= times,
            out@ == repeat_items(lhs.0@, round as nat),
        decreases times - round,
    {
        let ghost before = out@;
        let mut i: usize = 0;
        while i < lhs.0.len()
            invariant
                i <= lhs.0@.len(),
                out@ == before + lhs.0@.take(i as int),
            decreases lhs.0@.len() - i,
        {
            out.push(lhs.0[i]);
            assert(lhs.0@.take(i + 1) =~= lhs.0@.take(i as int).push(lhs.0@[i as int]));
            assert(out@ =~= before + lhs.0@.take(i + 1));
            i += 1;
        }
        assert(lhs.0@.take(lhs.0@.len() as int) =~= lhs.0@);
        round += 1;
    }
    PtyList(out)
}

/// A cursor at the start of a list.
pub fn __iter__(this: PettyObject) -> (r: PtyListIter)
    ensures
        r.0 == this,
        r.1 == 0,
{
    PtyListIter(this, 0)
}

/// What a method of the list type computes before the arena changes.
pub enum ListOutcome {
    Number(PtyInt),
    Truth(PtyBool),
    Cursor(PtyListIter),
    Item(Option<PettyObject>),
    Fresh(PtyList),
    Replace(PtyList),
}

impl Vm {
    /// Runs a method of the list type.
    pub fn call_list(&mut self, f: NativeFn, args: &Vec<PettyObject>) -> (r: Result<
        PettyObject,
        RuntimeError,
    >)
        requires
            old(self).wf(),
            is_list_fn(f),
            native_arity(f) == Some(args@.len()),
        ensures
            final(self).wf(),
            steps_to(old(self)@, r, final(self)@, call_list(old(self)@, f, args@)),
    {
        let this = match self.as_list(args[0]) {
            Some(l) => l,
            None => {
                return Err(RuntimeError::CapabilityMismatch);
            },
        };
        let outcome = match f {
            NativeFn::ListLen => ListOutcome::Number(len(this)),
            NativeFn::ListBool => ListOutcome::Truth(__bool__(this)),
            NativeFn::ListIter => ListOutcome::Cursor(__iter__(args[0])),
            NativeFn::ListPush => {
                let mut items = copy_handles(&this.0);
                items.push(args[1]);
                ListOutcome::Replace(PtyList(items))
            },
            NativeFn::ListAdd => {
                match self.as_list(args[1]) {
                    Some(other) => ListOutcome::Fresh(__add__(this, other)),
                    None => {
                        return Err(RuntimeError::CapabilityMismatch);
                    },
                }
            },
            _ => {
                let n = match self.as_int(args[1]) {
                    Some(n) => n,
                    None => {
                        return Err(RuntimeError::CapabilityMismatch);
                    },
                };
                match f {
                    NativeFn::ListGet => ListOutcome::Item(get(this, n)),
                    NativeFn::ListMul => ListOutcome::Fresh(__mul__(this, clamp(n.0))),
                    _ => {
                        let i = clamp(n.0);
                        if i < this.0.len() {
                            let mut items = copy_handles(&this.0);
                            items.set(i, args[2]);
                            ListOutcome::Replace(PtyList(items))
                        } else {
                            return Err(RuntimeError::NumericDomain);
                        }
                    },
                }
            },
        };
        match outcome {
            ListOutcome::Number(n) => Ok(self.allocate(PettyObjectType::Int(n))),
            ListOutcome::Truth(b) => Ok(PtyBool::new(b.0)),
            ListOutcome::Cursor(c) => Ok(self.allocate(PettyObjectType::ListIter(c))),
            ListOutcome::Item(v) => crate::object::PtyOption::new(self, v),
            ListOutcome::Fresh(l) => Ok(self.allocate(PettyObjectType::List(l))),
            ListOutcome::Replace(l) => {
                self.store(args[0], PettyObjectType::List(l));
                Ok(PettyObject(crate::state::NULL_SLOT))
            },
        }
    }
}

} // verus!
