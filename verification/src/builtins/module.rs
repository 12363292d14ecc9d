//! Modules and class instances: how they show themselves.

use crate::builtins::native_arity;
use crate::builtins::text::{nat_text, usize_to_string};
use crate::error::RuntimeError;
use crate::machine::Vm;
use crate::object::{Module, NativeFn, ObjectModel, PettyObject, PettyObjectType, PtyStr};
use crate::state::{steps_to, Step, VmView};
use vstd::prelude::*;
use vstd::string::StringExecFns;

verus! {

/// Whether a runtime function shows a module or a class instance.
pub open spec fn is_show_fn(f: NativeFn) -> bool {
    f == NativeFn::InstanceRepr || f == NativeFn::ModuleRepr
}

/// How a class instance in a slot shows itself, unless its class decides.
pub open spec fn instance_text(slot: usize) -> Seq<char> {
    "Petty Class Instance at "@ + nat_text(slot as nat)
}

/// How a module shows itself.
pub open spec fn module_text(name: Seq<char>) -> Seq<char> {
    "Module("@ + name + ")"@
}

/// What the functions do that show a module or a class instance: each gives
/// a new string. A receiver of another type is a capability mismatch.
pub open spec fn call_show(st: VmView, f: NativeFn, args: Seq<PettyObject>) -> Step<PettyObject>
    recommends
        is_show_fn(f),
        native_arity(f) == Some(args.len()),
{
    match st.get(args[0]) {
        Some(ObjectModel::Instance(_)) => if f == NativeFn::InstanceRepr {
            st.str_result(instance_text(args[0].0))
        } else {
            Err(RuntimeError::CapabilityMismatch)
        },
        Some(ObjectModel::Module { name, .. }) => if f == NativeFn::ModuleRepr {
            st.str_result(module_text(name))
        } else {
            Err(RuntimeError::CapabilityMismatch)
        },
        _ => Err(RuntimeError::CapabilityMismatch),
    }
}

impl Module {
    /// How the module shows itself.
    pub fn describe(&self) -> (r: PtyStr)
        ensures
            r.0@ == module_text(self.name@),
    {
        let s = "Module(".to_owned().concat(self.name.as_str()).concat(")");
        assert(s@ =~= module_text(self.name@));
        PtyStr(s)
    }
}

/// How a class instance in a slot shows itself.
pub fn __repr__(slot: usize) -> (r: PtyStr)
    ensures
        r.0@ == instance_text(slot),
{
    let digits = usize_to_string(slot);
    PtyStr("Petty Class Instance at ".to_owned().concat(digits.as_str()))
}

impl Vm {
    /// Runs a function that shows a module or a class instance.
    pub fn call_show(&mut self, f: NativeFn, args: &Vec<PettyObject>) -> (r: Result<
        PettyObject,
        RuntimeError,
    >)
        requires
            old(self).wf(),
            is_show_fn(f),
            native_arity(f) == Some(args@.len()),
        ensures
            final(self).wf(),
            steps_to(old(self)@, r, final(self)@, call_show(old(self)@, f, args@)),
    {
        let text = match self.get(args[0]) {
            Some(PettyObjectType::Instance(_)) => {
                match f {
                    NativeFn::InstanceRepr => __repr__(args[0].0),
                    _ => {
                        return Err(RuntimeError::CapabilityMismatch);
                    },
                }
            },
            Some(PettyObjectType::Module(m)) => {
                match f {
                    NativeFn::ModuleRepr => m.describe(),
                    _ => {
                        return Err(RuntimeError::CapabilityMismatch);
                    },
                }
            },
            _ => {
                return Err(RuntimeError::CapabilityMismatch);
            },
        };
        self.new_str(text)
    }
}

} // verus!
