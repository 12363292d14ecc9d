//! The null object and its methods.

use crate::builtins::native_arity;
use crate::error::RuntimeError;
use crate::machine::Vm;
use crate::object::{NativeFn, ObjectModel, PettyObject, PettyObjectType, PtyBool, PtyNull};
use crate::state::{null_str_object, steps_to, Step, VmView, NULL_STR_SLOT};
use crate::strings::str_eq;
use vstd::prelude::*;

verus! {

/// The method of the null object that a key names.
pub open spec fn null_method(key: Seq<char>) -> Option<NativeFn> {
    if key == "__bool__"@ {
        Some(NativeFn::NullBool)
    } else if key == "__repr__"@ {
        Some(NativeFn::NullRepr)
    } else {
        None
    }
}

impl PtyNull {
    /// The method that a key names, if the null object has it.
    pub fn get_item(key: &str) -> (r: Option<NativeFn>)
        ensures
            r == null_method(key@),
    {
        if str_eq(key, "__bool__") {
            Some(NativeFn::NullBool)
        } else if str_eq(key, "__repr__") {
            Some(NativeFn::NullRepr)
        } else {
            None
        }
    }
}

/// The truth value of the null object: false.
pub fn __bool__(_self: PtyNull) -> (r: PtyBool)
    ensures
        !r.0,
{
    PtyBool(false)
}


/// Whether a runtime function is a method of the null object.
pub open spec fn is_null_fn(f: NativeFn) -> bool {
    f == NativeFn::NullBool || f == NativeFn::NullRepr
}

/// What a method of the null object does: its truth value is false, and it
/// shows itself as the canonical string `null`. A receiver that is not the
/// null object is a capability mismatch.
pub open spec fn call_null(st: VmView, f: NativeFn, args: Seq<PettyObject>) -> Step<PettyObject>
    recommends
        is_null_fn(f),
        native_arity(f) == Some(args.len()),
{
    match st.get(args[0]) {
        Some(ObjectModel::Null) => if f == NativeFn::NullBool {
            st.bool_result(false)
        } else {
            Ok((null_str_object(), st))
        },
        _ => Err(RuntimeError::CapabilityMismatch),
    }
}

/// The canonical string that the null object shows itself as.
pub fn __repr__(_self: PtyNull) -> (r: PettyObject)
    ensures
        r == null_str_object(),
{
    PettyObject(NULL_STR_SLOT)
}

impl Vm {
    /// Runs a method of the null object.
    pub fn call_null(&mut self, f: NativeFn, args: &Vec<PettyObject>) -> (r: Result<
        PettyObject,
        RuntimeError,
    >)
        requires
            old(self).wf(),
            is_null_fn(f),
            native_arity(f) == Some(args@.len()),
        ensures
            final(self).wf(),
            steps_to(old(self)@, r, final(self)@, call_null(old(self)@, f, args@)),
    {
        match self.get(args[0]) {
            Some(PettyObjectType::Null(n)) => {
                match f {
                    NativeFn::NullBool => Ok(PtyBool::new(__bool__(*n).0)),
                    _ => Ok(__repr__(*n)),
                }
            },
            _ => Err(RuntimeError::CapabilityMismatch),
        }
    }
}

} // verus!
