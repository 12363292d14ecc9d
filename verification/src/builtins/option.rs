//! The option type and its methods.

use crate::builtins::native_arity;
use crate::error::RuntimeError;
use crate::machine::Vm;
use crate::object::{NativeFn, ObjectModel, PettyObject, PettyObjectType, PtyBool, PtyOption};
use crate::state::{steps_to, Step, VmView};
use crate::strings::str_eq;
use vstd::prelude::*;

verus! {

/// The method of the option type that a key names.
pub open spec fn option_method(key: Seq<char>) -> Option<NativeFn> {
    if key == "unwrap"@ {
        Some(NativeFn::OptUnwrap)
    } else if key == "is_some"@ {
        Some(NativeFn::OptIsSome)
    } else if key == "is_none"@ {
        Some(NativeFn::OptIsNone)
    } else if key == "__repr__"@ {
        Some(NativeFn::OptRepr)
    } else {
        None
    }
}

/// Whether a runtime function is a method of the option type that needs no
/// call back into the machine, or the function that makes a present option.
pub open spec fn is_opt_fn(f: NativeFn) -> bool {
    f == NativeFn::OptUnwrap || f == NativeFn::OptIsSome || f == NativeFn::OptIsNone || f
        == NativeFn::OptSome
}

/// What a method of the option type does.
///
/// `unwrap` gives the object of a present option, and is a capability
/// mismatch on the absent one; the function that makes a present option
/// takes any object and gives a new option of it.
pub open spec fn call_opt(st: VmView, f: NativeFn, args: Seq<PettyObject>) -> Step<PettyObject>
    recommends
        is_opt_fn(f),
        native_arity(f) == Some(args.len()),
{
    if f == NativeFn::OptSome {
        st.new_object(ObjectModel::Opt(Some(args[0])))
    } else {
        match st.get(args[0]) {
            Some(ObjectModel::Opt(v)) => if f == NativeFn::OptUnwrap {
                match v {
                    Some(o) => Ok((o, st)),
                    None => Err(RuntimeError::CapabilityMismatch),
                }
            } else if f == NativeFn::OptIsSome {
                st.bool_result(v.is_some())
            } else {
                st.bool_result(v.is_none())
            },
            _ => Err(RuntimeError::CapabilityMismatch),
        }
    }
}

impl PtyOption {
    /// The method that a key names, if the option type has it.
    pub fn get_item(key: &str) -> (r: Option<NativeFn>)
        ensures
            r == option_method(key@),
    {
        if str_eq(key, "unwrap") {
            Some(NativeFn::OptUnwrap)
        } else if str_eq(key, "is_some") {
            Some(NativeFn::OptIsSome)
        } else if str_eq(key, "is_none") {
            Some(NativeFn::OptIsNone)
        } else if str_eq(key, "__repr__") {
            Some(NativeFn::OptRepr)
        } else {
            None
        }
    }
}

/// The object of a present option; an error on the absent one.
pub fn unwrap(opt: PtyOption) -> (r: Result<PettyObject, RuntimeError>)
    ensures
        r == match opt.0 {
            Some(o) => Ok::<PettyObject, RuntimeError>(o),
            None => Err::<PettyObject, RuntimeError>(RuntimeError::CapabilityMismatch),
        },
{
    match opt.0 {
        Some(o) => Ok(o),
        None => Err(RuntimeError::CapabilityMismatch),
    }
}

/// Whether an option is present.
pub fn is_some(self_: &PtyOption) -> (r: PtyBool)
    ensures
        r.0 == self_.0.is_some(),
{
    PtyBool(self_.0.is_some())
}

/// Whether an option is absent.
pub fn is_none(self_: &PtyOption) -> (r: PtyBool)
    ensures
        r.0 == self_.0.is_none(),
{
    PtyBool(self_.0.is_none())
}

/// The present option of an object.
pub fn some(obj: PettyObject) -> (r: PtyOption)
    ensures
        r.0 == Some(obj),
{
    PtyOption(Some(obj))
}

impl Vm {
    /// Runs a method of the option type.
    pub fn call_opt(&mut self, f: NativeFn, args: &Vec<PettyObject>) -> (r: Result<
        PettyObject,
        RuntimeError,
    >)
        requires
            old(self).wf(),
            is_opt_fn(f),
            native_arity(f) == Some(args@.len()),
        ensures
            final(self).wf(),
            steps_to(old(self)@, r, final(self)@, call_opt(old(self)@, f, args@)),
    {
        match f {
            NativeFn::OptSome => Ok(self.allocate(PettyObjectType::Opt(some(args[0])))),
            _ => {
                let this = match self.get(args[0]) {
                    Some(PettyObjectType::Opt(o)) => *o,
                    _ => {
                        return Err(RuntimeError::CapabilityMismatch);
                    },
                };
                match f {
                    NativeFn::OptUnwrap => unwrap(this),
                    NativeFn::OptIsSome => Ok(PtyBool::new(is_some(&this).0)),
                    _ => Ok(PtyBool::new(is_none(&this).0)),
                }
            },
        }
    }
}

} // verus!
