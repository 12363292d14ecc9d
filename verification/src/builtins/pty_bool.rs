//! The truth values and their methods.

use crate::builtins::native_arity;
use crate::error::RuntimeError;
use crate::machine::Vm;
use crate::object::{NativeFn, PettyObject, PtyBool, PtyStr};
use crate::state::{steps_to, Step, VmView};
use crate::strings::str_eq;
use vstd::prelude::*;

verus! {

/// The method of the truth values that a key names.
pub open spec fn bool_method(key: Seq<char>) -> Option<NativeFn> {
    if key == "__bool__"@ {
        Some(NativeFn::BoolBool)
    } else if key == "__not__"@ {
        Some(NativeFn::BoolNot)
    } else if key == "__and__"@ {
        Some(NativeFn::BoolAnd)
    } else if key == "__or__"@ {
        Some(NativeFn::BoolOr)
    } else if key == "__repr__"@ {
        Some(NativeFn::BoolRepr)
    } else {
        None
    }
}

/// How a truth value is written.
pub open spec fn bool_text(b: bool) -> Seq<char> {
    if b {
        "true"@
    } else {
        "false"@
    }
}

impl PtyBool {
    /// The method that a key names, if the truth values have it.
    pub fn get_item(key: &str) -> (r: Option<NativeFn>)
        ensures
            r == bool_method(key@),
    {
        if str_eq(key, "__bool__") {
            Some(NativeFn::BoolBool)
        } else if str_eq(key, "__not__") {
            Some(NativeFn::BoolNot)
        } else if str_eq(key, "__and__") {
            Some(NativeFn::BoolAnd)
        } else if str_eq(key, "__or__") {
            Some(NativeFn::BoolOr)
        } else if str_eq(key, "__repr__") {
            Some(NativeFn::BoolRepr)
        } else {
            None
        }
    }
}

/// The truth value itself.
pub fn __bool__(self_: PtyBool) -> (r: PtyBool)
    ensures
        r.0 == self_.0,
{
    self_
}

/// The opposite truth value.
pub fn __not__(self_: PtyBool) -> (r: PtyBool)
    ensures
        r.0 == !self_.0,
{
    PtyBool(!self_.0)
}

/// Whether both truth values are true.
pub fn __and__(lhs: PtyBool, rhs: PtyBool) -> (r: PtyBool)
    ensures
        r.0 == (lhs.0 && rhs.0),
{
    PtyBool(lhs.0 && rhs.0)
}

/// Whether one of the truth values is true.
pub fn __or__(lhs: PtyBool, rhs: PtyBool) -> (r: PtyBool)
    ensures
        r.0 == (lhs.0 || rhs.0),
{
    PtyBool(lhs.0 || rhs.0)
}

/// The truth value written out: `true` or `false`.
pub fn __repr__(self_: PtyBool) -> (r: PtyStr)
    ensures
        r.0@ == bool_text(self_.0),
{
    if self_.0 {
        PtyStr("true".to_owned())
    } else {
        PtyStr("false".to_owned())
    }
}


/// Whether a runtime function is a method of the truth values.
pub open spec fn is_bool_fn(f: NativeFn) -> bool {
    f == NativeFn::BoolBool || f == NativeFn::BoolNot || f == NativeFn::BoolRepr || f
        == NativeFn::BoolAnd || f == NativeFn::BoolOr
}

/// What a method of the truth values does. An argument that is no truth
/// value is a capability mismatch.
pub open spec fn call_bool(st: VmView, f: NativeFn, args: Seq<PettyObject>) -> Step<PettyObject>
    recommends
        is_bool_fn(f),
        native_arity(f) == Some(args.len()),
{
    match st.bool_of(args[0]) {
        None => Err(RuntimeError::CapabilityMismatch),
        Some(a) => if f == NativeFn::BoolBool {
            Ok((args[0], st))
        } else if f == NativeFn::BoolNot {
            st.bool_result(!a)
        } else if f == NativeFn::BoolRepr {
            st.str_result(bool_text(a))
        } else {
            match st.bool_of(args[1]) {
                None => Err(RuntimeError::CapabilityMismatch),
                Some(b) => if f == NativeFn::BoolAnd {
                    st.bool_result(a && b)
                } else {
                    st.bool_result(a || b)
                },
            }
        },
    }
}

impl Vm {
    /// Runs a method of the truth values.
    pub fn call_bool(&mut self, f: NativeFn, args: &Vec<PettyObject>) -> (r: Result<
        PettyObject,
        RuntimeError,
    >)
        requires
            old(self).wf(),
            is_bool_fn(f),
            native_arity(f) == Some(args@.len()),
        ensures
            final(self).wf(),
            steps_to(old(self)@, r, final(self)@, call_bool(old(self)@, f, args@)),
    {
        let a = match self.as_bool(args[0]) {
            Some(a) => a,
            None => {
                return Err(RuntimeError::CapabilityMismatch);
            },
        };
        match f {
            NativeFn::BoolBool => Ok(args[0]),
            NativeFn::BoolNot => Ok(PtyBool::new(__not__(a).0)),
            NativeFn::BoolRepr => self.new_str(__repr__(a)),
            _ => {
                let b = match self.as_bool(args[1]) {
                    Some(b) => b,
                    None => {
                        return Err(RuntimeError::CapabilityMismatch);
                    },
                };
                match f {
                    NativeFn::BoolAnd => Ok(PtyBool::new(__and__(a, b).0)),
                    _ => Ok(PtyBool::new(__or__(a, b).0)),
                }
            },
        }
    }
}

} // verus!
