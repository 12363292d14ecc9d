//! A tree-walking runtime for a small dynamically-typed scripting language.
//!
//! Every runtime object lives in an arena owned by the machine and is named
//! by a handle; operators, method calls and control flow all go through one
//! dispatch protocol of attribute lookup followed by invocation.

pub mod ast;
pub mod builtins;
pub mod describe;
pub mod dict;
pub mod error;
pub mod evaluate;
pub mod field_dict;
pub mod laws;
pub mod machine;
pub mod object;
pub mod parser;
pub mod preallocated;
pub mod semantics;
pub mod shared;
pub mod slim_rc;
pub mod state;
pub mod strings;
pub mod walk;

use crate::ast::Node;
use crate::builtins::{builtins_loaded, load_builtins};
use crate::error::RuntimeError;
use crate::evaluate::steps_to_seq;
use crate::machine::{initial_state, state_with_limits, Vm, DEFAULT_DEPTH_LIMIT};
use crate::object::PettyObject;
use crate::semantics::run;
use vstd::prelude::*;

verus! {

/// Runs a program on a new machine with the runtime's names bound, and
/// gives the machine back with the outcome: one object per statement of a
/// block, or the one object of any other node.
pub fn run_virtual_machine(ast: &Node) -> (r: (Vm, Result<Vec<PettyObject>, RuntimeError>))
    ensures
        r.0.wf(),
        steps_to_seq(
            builtins_loaded(initial_state()),
            r.1,
            r.0@,
            run(builtins_loaded(initial_state()), *ast, DEFAULT_DEPTH_LIMIT as nat),
        ),
{
    let mut vm = Vm::new();
    load_builtins(&mut vm);
    let result = vm.run(ast);
    (vm, result)
}

/// Runs a program as `run_virtual_machine` does, on a machine with budgets
/// of the caller's choice: how deep evaluation may nest, and how many
/// rounds one loop may run.
pub fn run_with_limits(ast: &Node, depth_limit: usize, loop_limit: usize) -> (r: (
    Vm,
    Result<Vec<PettyObject>, RuntimeError>,
))
    ensures
        r.0.wf(),
        steps_to_seq(
            builtins_loaded(state_with_limits(depth_limit, loop_limit)),
            r.1,
            r.0@,
            run(
                builtins_loaded(state_with_limits(depth_limit, loop_limit)),
                *ast,
                depth_limit as nat,
            ),
        ),
{
    let mut vm = Vm::with_limits(depth_limit, loop_limit);
    load_builtins(&mut vm);
    let result = vm.run(ast);
    (vm, result)
}

} // verus!
