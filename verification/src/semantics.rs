//! What programs mean: evaluation as a function from a state of the machine
//! and a node to a result and a new state.
//!
//! A step that fails gives its error and no state: every error ends the
//! program, and what the machine holds after one is not part of what a
//! program means.
//!
//! Every function here takes a depth budget. Evaluating a node and calling
//! an object each use one unit of it for whatever they nest; a budget of
//! zero ends evaluation with a recursion limit error. Loops take their
//! budget of rounds from the state.

use crate::ast::{bin_op_method, unary_op_method, BinOp, Literal, Node, UnaryOp};
use crate::builtins::list::{is_list_fn, list_method};
use crate::builtins::list_iter::{call_iter, is_iter_fn, iter_method};
use crate::builtins::module::{call_show, is_show_fn};
use crate::builtins::native_arity;
use crate::builtins::null::{call_null, is_null_fn, null_method};
use crate::builtins::number::{call_int, int_method, is_int_fn};
use crate::builtins::option::{call_opt, is_opt_fn, option_method};
use crate::builtins::pty_bool::{bool_method, call_bool, is_bool_fn};
use crate::builtins::range::{call_range, is_range_fn, range_method};
use crate::builtins::string::{call_str, format_segments, is_str_fn, str_method};
use crate::error::RuntimeError;
use crate::object::{NativeFn, ObjectModel, PettyObject};
use crate::state::{
    native_object, null_after, null_object, small_int_object, Signal, Step, VmView, INT_COUNT,
};
use std::sync::Arc;
use vstd::prelude::*;

verus! {

/// The handle of the method that a method table gives, or the error of a
/// key that the table does not know.
pub open spec fn method_object(f: Option<NativeFn>) -> Result<PettyObject, RuntimeError> {
    match f {
        Some(f) => Ok(native_object(f)),
        None => Err(RuntimeError::UnresolvedName),
    }
}

/// Attribute lookup: the object that `key` names on the object `o`.
///
/// The runtime's own types look the key up in their method table. A class
/// instance looks in its fields first and shows itself by default; a module
/// looks in its table. A key that the object does not know is an unresolved
/// name, and so is any key on a function, a class or a frame. A handle
/// outside the arena is a capability mismatch.
pub open spec fn get_item(st: VmView, o: PettyObject, key: Seq<char>) -> Result<
    PettyObject,
    RuntimeError,
> {
    match st.get(o) {
        None => Err(RuntimeError::CapabilityMismatch),
        Some(m) => match m {
            ObjectModel::Null => method_object(null_method(key)),
            ObjectModel::Bool(_) => method_object(bool_method(key)),
            ObjectModel::Int(_) => method_object(int_method(key)),
            ObjectModel::Str(_) => method_object(str_method(key)),
            ObjectModel::List(_) => method_object(list_method(key)),
            ObjectModel::ListIter(_, _) => method_object(iter_method(key)),
            ObjectModel::Opt(_) => method_object(option_method(key)),
            ObjectModel::Range { .. } => method_object(range_method(key)),
            ObjectModel::Instance(fields) => if fields.contains_key(key) {
                Ok(fields[key])
            } else if key == "__repr__"@ {
                Ok(native_object(NativeFn::InstanceRepr))
            } else {
                Err(RuntimeError::UnresolvedName)
            },
            ObjectModel::Module { dict, .. } => if dict.contains_key(key) {
                Ok(dict[key])
            } else {
                Err(RuntimeError::UnresolvedName)
            },
            _ => Err(RuntimeError::UnresolvedName),
        },
    }
}

/// The state in which a function body starts: the frames that the function
/// closes over are pushed on the caller's, then one fresh frame.
pub open spec fn enter(st: VmView, captured: Seq<PettyObject>) -> VmView {
    st.with_scopes(st.scopes + captured).new_scope()
}

/// The state after the parameters from position `i` on were bound to the
/// arguments at the same positions.
pub open spec fn bind_params(st: VmView, params: Seq<String>, args: Seq<PettyObject>, i: nat) -> VmView
    decreases params.len() - i,
{
    if i >= params.len() || i >= args.len() {
        st
    } else {
        bind_params(st.write(params[i as int]@, args[i as int]), params, args, i + 1)
    }
}

/// What a call gives when its body is done, and the state it leaves: the
/// object that the body returned, or the null object; no pending signal; and
/// the innermost `n` frames popped.
pub open spec fn leave(st: VmView, n: nat) -> (PettyObject, VmView) {
    let ret = match st.signal {
        Signal::Return(v) => v,
        _ => null_object(),
    };
    let kept = if n <= st.scopes.len() {
        st.scopes.take(st.scopes.len() - n)
    } else {
        Seq::<PettyObject>::empty()
    };
    (ret, st.with_signal(Signal::Normal).with_scopes(kept))
}

/// The fields of a new instance: each field name from position `i` on bound
/// to the argument at its position, on top of `m`.
pub open spec fn field_table(
    fields: Seq<String>,
    args: Seq<PettyObject>,
    i: nat,
    m: Map<Seq<char>, PettyObject>,
) -> Map<Seq<char>, PettyObject>
    decreases fields.len() - i,
{
    if i >= fields.len() || i >= args.len() {
        m
    } else {
        field_table(fields, args, i + 1, m.insert(fields[i as int]@, args[i as int]))
    }
}

/// The table of a new instance after its methods from position `i` on were
/// installed: for each method definition one new function object that closes
/// over the frames in scope now, bound under the method's name. A node that
/// is no function definition is a capability mismatch.
pub open spec fn method_table(
    st: VmView,
    methods: Seq<Node>,
    i: nat,
    m: Map<Seq<char>, PettyObject>,
) -> Step<Map<Seq<char>, PettyObject>>
    decreases methods.len() - i,
{
    if i >= methods.len() {
        Ok((m, st))
    } else {
        match methods[i as int] {
            Node::FuncDef(name, params, body) => method_table(
                st.allocate(
                    ObjectModel::Function { params: params@, body: body@, scopes: st.scopes },
                ),
                methods,
                i + 1,
                m.insert(name@, st.next_object()),
            ),
            _ => Err(RuntimeError::CapabilityMismatch),
        }
    }
}

/// Instantiating a class: a new instance whose table holds the field values
/// and one fresh closure per method.
pub open spec fn instantiate(
    st: VmView,
    fields: Seq<String>,
    methods: Seq<Node>,
    args: Seq<PettyObject>,
) -> Step<PettyObject> {
    match method_table(st, methods, 0, field_table(fields, args, 0, Map::empty())) {
        Err(e) => Err(e),
        Ok((m, st1)) => st1.new_object(ObjectModel::Instance(m)),
    }
}

/// Invocation: what calling the object `f` with `args` does.
///
/// A function or a class called with a number of arguments other than its
/// number of parameters or fields is an arity mismatch, and so is a runtime
/// function with a fixed number of arguments; nothing is padded or cut. A
/// function runs its body in its own frames and gives what the body
/// returned, else the null object. A class gives a new instance. An
/// instance hands the call on to its `__call__` field, with itself as the
/// first argument. Any other object is a capability mismatch.
pub open spec fn call(st: VmView, f: PettyObject, args: Seq<PettyObject>, depth: nat) -> Step<
    PettyObject,
>
    decreases depth, 0nat, 0nat,
{
    match st.get(f) {
        Some(ObjectModel::Function { params, body, scopes }) => if params.len() != args.len() {
            Err(RuntimeError::ArityMismatch)
        } else if depth == 0 {
            Err(RuntimeError::RecursionLimit)
        } else {
            match exec_nodes(
                bind_params(enter(st, scopes), params, args, 0),
                body,
                0,
                (depth - 1) as nat,
            ) {
                Err(e) => Err(e),
                Ok((_, st1)) => Ok(leave(st1, scopes.len() + 1)),
            }
        },
        Some(ObjectModel::Class { fields, methods }) => if fields.len() != args.len() {
            Err(RuntimeError::ArityMismatch)
        } else {
            instantiate(st, fields, methods, args)
        },
        Some(ObjectModel::Native(nf)) => if native_arity(nf).is_some() && native_arity(nf) != Some(
            args.len(),
        ) {
            Err(RuntimeError::ArityMismatch)
        } else if depth == 0 {
            Err(RuntimeError::RecursionLimit)
        } else {
            call_native(st, nf, args, (depth - 1) as nat)
        },
        Some(ObjectModel::Instance(_)) => match get_item(st, f, "__call__"@) {
            Err(e) => Err(e),
            Ok(g) => if depth == 0 {
                Err(RuntimeError::RecursionLimit)
            } else {
                call(st, g, seq![f] + args, (depth - 1) as nat)
            },
        },
        _ => Err(RuntimeError::CapabilityMismatch),
    }
}

/// A method call: the method is looked up on the receiver and called with
/// the receiver as its first argument.
pub open spec fn call_method(
    st: VmView,
    recv: PettyObject,
    name: Seq<char>,
    args: Seq<PettyObject>,
    depth: nat,
) -> Step<PettyObject>
    decreases depth, 1nat, 0nat,
{
    match get_item(st, recv, name) {
        Err(e) => Err(e),
        Ok(f) => call(st, f, seq![recv] + args, depth),
    }
}

/// The truth value of an object: what its `__bool__` method gives, which
/// must be a truth value.
pub open spec fn truthy(st: VmView, o: PettyObject, depth: nat) -> Step<bool>
    decreases depth, 2nat, 0nat,
{
    match call_method(st, o, "__bool__"@, Seq::empty(), depth) {
        Err(e) => Err(e),
        Ok((r, st1)) => match st1.bool_of(r) {
            Some(b) => Ok((b, st1)),
            None => Err(RuntimeError::CapabilityMismatch),
        },
    }
}

/// The text that an object shows itself as: what its `__repr__` method
/// gives, which must be a string.
pub open spec fn repr(st: VmView, o: PettyObject, depth: nat) -> Step<Seq<char>>
    decreases depth, 2nat, 0nat,
{
    match call_method(st, o, "__repr__"@, Seq::empty(), depth) {
        Err(e) => Err(e),
        Ok((r, st1)) => match st1.text_of(r) {
            Some(s) => Ok((s, st1)),
            None => Err(RuntimeError::CapabilityMismatch),
        },
    }
}

/// Equality of two objects. Objects of different dynamic types are unequal,
/// and nothing is called to find that out; objects of one type are compared
/// by the `__is_eq__` method of the first, which must give a truth value.
pub open spec fn values_equal(st: VmView, a: PettyObject, b: PettyObject, depth: nat) -> Step<bool>
    decreases depth, 2nat, 0nat,
{
    match (st.get(a), st.get(b)) {
        (Some(x), Some(y)) => if x.kind() != y.kind() {
            Ok((false, st))
        } else {
            match call_method(st, a, "__is_eq__"@, seq![b], depth) {
                Err(e) => Err(e),
                Ok((r, st1)) => match st1.bool_of(r) {
                    Some(e) => Ok((e, st1)),
                    None => Err(RuntimeError::CapabilityMismatch),
                },
            }
        },
        _ => Err(RuntimeError::CapabilityMismatch),
    }
}

/// Executing the statements of a sequence from position `i` on, one after
/// the other, until the sequence ends or a signal is pending. The result is
/// the signal at the end.
pub open spec fn exec_nodes(st: VmView, nodes: Seq<Node>, i: nat, depth: nat) -> Step<Signal>
    decreases depth, 3nat, nodes.len() - i,
{
    if i >= nodes.len() || st.signal != Signal::Normal {
        Ok((st.signal, st))
    } else {
        match eval(st, nodes[i as int], depth) {
            Err(e) => Err(e),
            Ok((_, st1)) => exec_nodes(st1, nodes, i + 1, depth),
        }
    }
}

/// Evaluating the nodes of a sequence from position `i` on, from left to
/// right, and appending their results to `acc`.
pub open spec fn eval_list(
    st: VmView,
    nodes: Seq<Node>,
    i: nat,
    acc: Seq<PettyObject>,
    depth: nat,
) -> Step<Seq<PettyObject>>
    decreases depth, 3nat, nodes.len() - i,
{
    if i >= nodes.len() {
        Ok((acc, st))
    } else {
        match eval(st, nodes[i as int], depth) {
            Err(e) => Err(e),
            Ok((v, st1)) => eval_list(st1, nodes, i + 1, acc.push(v), depth),
        }
    }
}

/// The rounds of a `while` loop. Each round evaluates the condition, takes
/// its truth value, and executes the body if it is true. A pending return
/// ends the loop and stays pending; a pending break ends the loop and is
/// used up. A loop that is out of rounds is a loop limit error.
pub open spec fn while_rounds(st: VmView, cond: Node, body: Seq<Node>, rounds: nat, depth: nat) -> Step<
    (),
>
    decreases depth, 4nat, rounds,
{
    match st.signal {
        Signal::Return(_) => Ok(((), st)),
        Signal::Break => Ok(((), st.with_signal(Signal::Normal))),
        Signal::Normal => if rounds == 0 {
            Err(RuntimeError::LoopLimit)
        } else {
            match eval(st, cond, depth) {
                Err(e) => Err(e),
                Ok((c, st1)) => match truthy(st1, c, depth) {
                    Err(e) => Err(e),
                    Ok((b, st2)) => if !b {
                        Ok(((), st2))
                    } else {
                        match exec_nodes(st2, body, 0, depth) {
                            Err(e) => Err(e),
                            Ok((_, st3)) => while_rounds(st3, cond, body, (rounds - 1) as nat, depth),
                        }
                    },
                },
            }
        },
    }
}

/// The rounds of a `for` loop over the iterator `it`, whose `__next__`
/// method is `next`. Each round calls `next` once; its result must be an
/// option. On the absent option the loop ends, and `next` is not called
/// again; on a present one the loop variable is bound to its object and the
/// body is executed. A return from the body ends the loop and stays pending;
/// a break ends the loop and is used up.
pub open spec fn for_rounds(
    st: VmView,
    target: Seq<char>,
    it: PettyObject,
    next: PettyObject,
    body: Seq<Node>,
    rounds: nat,
    depth: nat,
) -> Step<()>
    decreases depth, 4nat, rounds,
{
    if rounds == 0 {
        Err(RuntimeError::LoopLimit)
    } else {
        match call(st, next, seq![it], depth) {
            Err(e) => Err(e),
            Ok((item, st1)) => match st1.get(item) {
                Some(ObjectModel::Opt(None)) => Ok(((), st1)),
                Some(ObjectModel::Opt(Some(v))) => match exec_nodes(
                    st1.write(target, v),
                    body,
                    0,
                    depth,
                ) {
                    Err(e) => Err(e),
                    Ok((signal, st2)) => match signal {
                        Signal::Normal => for_rounds(
                            st2,
                            target,
                            it,
                            next,
                            body,
                            (rounds - 1) as nat,
                            depth,
                        ),
                        Signal::Break => Ok(((), st2.with_signal(Signal::Normal))),
                        Signal::Return(_) => Ok(((), st2)),
                    },
                },
                _ => Err(RuntimeError::CapabilityMismatch),
            },
        }
    }
}

/// The position of the first item from position `i` on that equals `obj`.
pub open spec fn find_from(
    st: VmView,
    items: Seq<PettyObject>,
    i: nat,
    obj: PettyObject,
    depth: nat,
) -> Step<Option<usize>>
    decreases depth, 3nat, items.len() - i,
{
    if i >= items.len() {
        Ok((None, st))
    } else {
        match values_equal(st, obj, items[i as int], depth) {
            Err(e) => Err(e),
            Ok((e, st1)) => if e {
                Ok((Some(i as usize), st1))
            } else {
                find_from(st1, items, i + 1, obj, depth)
            },
        }
    }
}

/// The texts that the items from position `i` on show themselves as,
/// appended to `acc`, with `sep` before each but the first of all.
pub open spec fn repr_items(
    st: VmView,
    items: Seq<PettyObject>,
    i: nat,
    sep: Seq<char>,
    acc: Seq<char>,
    depth: nat,
) -> Step<Seq<char>>
    decreases depth, 3nat, items.len() - i,
{
    if i >= items.len() {
        Ok((acc, st))
    } else {
        match repr(st, items[i as int], depth) {
            Err(e) => Err(e),
            Ok((text, st1)) => repr_items(
                st1,
                items,
                i + 1,
                sep,
                if i == 0 {
                    acc + text
                } else {
                    acc + sep + text
                },
                depth,
            ),
        }
    }
}

/// Whether the items of two sequences of one length are equal pair by pair,
/// from position `i` on.
pub open spec fn all_equal_from(
    st: VmView,
    xs: Seq<PettyObject>,
    ys: Seq<PettyObject>,
    i: nat,
    depth: nat,
) -> Step<bool>
    decreases depth, 3nat, xs.len() - i,
{
    if i >= xs.len() || i >= ys.len() {
        Ok((true, st))
    } else {
        match values_equal(st, xs[i as int], ys[i as int], depth) {
            Err(e) => Err(e),
            Ok((e, st1)) => if !e {
                Ok((false, st1))
            } else {
                all_equal_from(st1, xs, ys, i + 1, depth)
            },
        }
    }
}

/// The text of a format: the segments from position `i` on appended to
/// `acc`, each but the first of all behind the text that the argument at
/// its position shows itself as. A segment without an argument is an arity
/// mismatch.
pub open spec fn format_from(
    st: VmView,
    segments: Seq<Seq<char>>,
    args: Seq<PettyObject>,
    i: nat,
    acc: Seq<char>,
    depth: nat,
) -> Step<Seq<char>>
    decreases depth, 3nat, segments.len() - i,
{
    if i >= segments.len() {
        Ok((acc, st))
    } else if i == 0 {
        format_from(st, segments, args, 1, acc + segments[0], depth)
    } else if i >= args.len() {
        Err(RuntimeError::ArityMismatch)
    } else {
        match repr(st, args[i as int], depth) {
            Err(e) => Err(e),
            Ok((text, st1)) => format_from(
                st1,
                segments,
                args,
                i + 1,
                acc + text + segments[i as int],
                depth,
            ),
        }
    }
}

/// What the runtime functions do that call back into the machine.
///
/// `contains` and `find` of a list compare an object with the items that
/// the list holds when the call starts; `__repr__` of a list shows these
/// items between brackets, with a comma and a space between them;
/// `__is_eq__` of two lists compares their items pair by pair. `__repr__` of
/// an option shows the object of a present option, and `None`. `format`
/// fills the pairs of braces of a string by its further arguments. `print`
/// adds one line to the output, made of what its arguments show themselves
/// as. The three assertions fail with an assertion error where they do not
/// hold.
pub open spec fn call_back(st: VmView, f: NativeFn, args: Seq<PettyObject>, depth: nat) -> Step<
    PettyObject,
>
    decreases depth, 4nat, 0nat,
{
    if f == NativeFn::ListContains || f == NativeFn::ListFind {
        match st.list_of(args[0]) {
            None => Err(RuntimeError::CapabilityMismatch),
            Some(items) => match find_from(st, items, 0, args[1], depth) {
                Err(e) => Err(e),
                Ok((found, st1)) => if f == NativeFn::ListContains {
                    st1.bool_result(found.is_some())
                } else {
                    st1.index_result(found)
                },
            },
        }
    } else if f == NativeFn::ListRepr {
        match st.list_of(args[0]) {
            None => Err(RuntimeError::CapabilityMismatch),
            Some(items) => match repr_items(st, items, 0, ", "@, "["@, depth) {
                Err(e) => Err(e),
                Ok((text, st1)) => st1.str_result(text + "]"@),
            },
        }
    } else if f == NativeFn::ListIsEq {
        match (st.list_of(args[0]), st.list_of(args[1])) {
            (Some(xs), Some(ys)) => if xs.len() != ys.len() {
                st.bool_result(false)
            } else {
                match all_equal_from(st, xs, ys, 0, depth) {
                    Err(e) => Err(e),
                    Ok((e, st1)) => st1.bool_result(e),
                }
            },
            _ => Err(RuntimeError::CapabilityMismatch),
        }
    } else if f == NativeFn::OptRepr {
        match st.get(args[0]) {
            Some(ObjectModel::Opt(Some(v))) => match repr(st, v, depth) {
                Err(e) => Err(e),
                Ok((text, st1)) => st1.str_result(text),
            },
            Some(ObjectModel::Opt(None)) => st.str_result("None"@),
            _ => Err(RuntimeError::CapabilityMismatch),
        }
    } else if f == NativeFn::StrFormat {
        if args.len() == 0 {
            Err(RuntimeError::ArityMismatch)
        } else {
            match st.text_of(args[0]) {
                None => Err(RuntimeError::CapabilityMismatch),
                Some(format) => match format_from(
                    st,
                    format_segments(format),
                    args,
                    0,
                    Seq::empty(),
                    depth,
                ) {
                    Err(e) => Err(e),
                    Ok((text, st1)) => st1.str_result(text),
                },
            }
        }
    } else if f == NativeFn::Print {
        match repr_items(st, args, 0, Seq::empty(), Seq::empty(), depth) {
            Err(e) => Err(e),
            Ok((line, st1)) => Ok((null_object(), st1.print(line))),
        }
    } else if f == NativeFn::Repr {
        match repr(st, args[0], depth) {
            Err(e) => Err(e),
            Ok((text, st1)) => st1.str_result(text),
        }
    } else if f == NativeFn::TestAssert {
        match truthy(st, args[0], depth) {
            Err(e) => Err(e),
            Ok((b, st1)) => if b {
                st1.null_result()
            } else {
                Err(RuntimeError::AssertionFailed)
            },
        }
    } else {
        match values_equal(st, args[0], args[1], depth) {
            Err(e) => Err(e),
            Ok((e, st1)) => if e == (f == NativeFn::TestAssertEq) {
                st1.null_result()
            } else {
                Err(RuntimeError::AssertionFailed)
            },
        }
    }
}

/// Whether a runtime function calls back into the machine.
pub open spec fn is_call_back_fn(f: NativeFn) -> bool {
    f == NativeFn::ListContains || f == NativeFn::ListFind || f == NativeFn::ListRepr || f
        == NativeFn::ListIsEq || f == NativeFn::OptRepr || f == NativeFn::StrFormat || f
        == NativeFn::Print || f == NativeFn::Repr || f == NativeFn::TestAssert || f
        == NativeFn::TestAssertEq || f == NativeFn::TestAssertNe
}

/// What a runtime function does, given as many arguments as it takes.
pub open spec fn call_native(st: VmView, f: NativeFn, args: Seq<PettyObject>, depth: nat) -> Step<
    PettyObject,
>
    decreases depth, 5nat, 0nat,
{
    if is_int_fn(f) {
        call_int(st, f, args)
    } else if is_bool_fn(f) {
        call_bool(st, f, args)
    } else if is_null_fn(f) {
        call_null(st, f, args)
    } else if is_str_fn(f) {
        call_str(st, f, args)
    } else if is_list_fn(f) {
        crate::builtins::list::call_list(st, f, args)
    } else if is_iter_fn(f) {
        call_iter(st, f, args)
    } else if is_opt_fn(f) {
        call_opt(st, f, args)
    } else if is_range_fn(f) {
        call_range(st, f, args)
    } else if is_show_fn(f) {
        call_show(st, f, args)
    } else {
        call_back(st, f, args, depth)
    }
}

/// The arguments that a method call starts with: the receiver, unless it is
/// a module.
pub open spec fn receiver_args(st: VmView, recv: PettyObject) -> Seq<PettyObject> {
    match st.get(recv) {
        Some(ObjectModel::Module { .. }) => Seq::empty(),
        _ => seq![recv],
    }
}

/// Applying a binary operator to two objects. Every operator but member
/// access is a method call on the left operand with the right one as
/// argument, under the name of the operator, and gives what the method
/// gives. Equality of objects of different dynamic types is the one
/// exception: it is false, and nothing is called.
pub open spec fn apply_bin_op(st: VmView, op: BinOp, a: PettyObject, b: PettyObject, depth: nat) -> Step<
    PettyObject,
>
    decreases depth, 5nat, 0nat,
{
    if op == BinOp::GetItem {
        Err(RuntimeError::CapabilityMismatch)
    } else if op == BinOp::IsEq && differ_in_kind(st, a, b) {
        st.bool_result(false)
    } else {
        call_method(st, a, bin_op_method(op), seq![b], depth)
    }
}

/// Whether two handles name objects of different dynamic types.
pub open spec fn differ_in_kind(st: VmView, a: PettyObject, b: PettyObject) -> bool {
    match (st.get(a), st.get(b)) {
        (Some(x), Some(y)) => x.kind() != y.kind(),
        _ => false,
    }
}

/// A binary expression: both operands are evaluated, the left one first,
/// then the operator is applied.
pub open spec fn bin_expr(st: VmView, op: BinOp, lhs: Node, rhs: Node, depth: nat) -> Step<
    PettyObject,
>
    decreases depth, 6nat, 0nat,
{
    match eval(st, lhs, depth) {
        Err(e) => Err(e),
        Ok((a, st1)) => match eval(st1, rhs, depth) {
            Err(e) => Err(e),
            Ok((b, st2)) => apply_bin_op(st2, op, a, b, depth),
        },
    }
}

/// A unary expression: the operand is evaluated, then the operator's method
/// is called on it. The unary plus has no method.
pub open spec fn unary_expr(st: VmView, op: UnaryOp, expr: Node, depth: nat) -> Step<PettyObject>
    decreases depth, 6nat, 0nat,
{
    match eval(st, expr, depth) {
        Err(e) => Err(e),
        Ok((v, st1)) => if op == UnaryOp::Plus {
            Err(RuntimeError::UnresolvedName)
        } else {
            call_method(st1, v, unary_op_method(op), Seq::empty(), depth)
        },
    }
}

/// Member access. The left side is evaluated; a name on the right is looked
/// up on it, and a call on the right is a method call, whose arguments are
/// evaluated after the method was looked up.
pub open spec fn member(st: VmView, left: Node, right: Node, depth: nat) -> Step<PettyObject>
    decreases depth, 6nat, 0nat,
{
    match eval(st, left, depth) {
        Err(e) => Err(e),
        Ok((recv, st1)) => match right {
            Node::Ident(name) => match get_item(st1, recv, name@) {
                Err(e) => Err(e),
                Ok(v) => Ok((v, st1)),
            },
            Node::FuncCall(name, args) => match get_item(st1, recv, name@) {
                Err(e) => Err(e),
                Ok(f) => match eval_list(st1, args@, 0, receiver_args(st1, recv), depth) {
                    Err(e) => Err(e),
                    Ok((items, st2)) => call(st2, f, items, depth),
                },
            },
            _ => Err(RuntimeError::CapabilityMismatch),
        },
    }
}

/// A call by name: the name is read, the arguments are evaluated from left
/// to right, and the object is called.
pub open spec fn func_call(st: VmView, name: Seq<char>, args: Seq<Node>, depth: nat) -> Step<
    PettyObject,
>
    decreases depth, 6nat, 0nat,
{
    match st.read(name) {
        None => Err(RuntimeError::UnresolvedName),
        Some(f) => match eval_list(st, args, 0, Seq::empty(), depth) {
            Err(e) => Err(e),
            Ok((items, st1)) => call(st1, f, items, depth),
        },
    }
}

/// A literal. A number from 0 to 255 gives its canonical object; a literal
/// with a fraction is a numeric domain error; every other literal gives a
/// new object, but for `null`, `true` and `false`.
pub open spec fn create_literal(st: VmView, literal: Literal, depth: nat) -> Step<PettyObject>
    decreases depth, 6nat, 0nat,
{
    match literal {
        Literal::Int(i) => if 0 <= i < INT_COUNT {
            Ok((small_int_object(i), st))
        } else {
            st.new_object(ObjectModel::Int(i))
        },
        Literal::Float(_) => Err(RuntimeError::NumericDomain),
        Literal::Null => st.null_result(),
        Literal::Bool(b) => st.bool_result(b),
        Literal::String(s) => st.str_result(s@),
        Literal::List(nodes) => match eval_list(st, nodes@, 0, Seq::empty(), depth) {
            Err(e) => Err(e),
            Ok((items, st1)) => st1.new_object(ObjectModel::List(items)),
        },
    }
}

/// A conditional: the condition is evaluated and its truth value taken;
/// then the block is executed, or else the alternative evaluated.
pub open spec fn if_statement(
    st: VmView,
    condition: Node,
    block: Seq<Node>,
    or_else: Option<Arc<Node>>,
    depth: nat,
) -> Step<PettyObject>
    decreases depth, 6nat, 0nat,
{
    match eval(st, condition, depth) {
        Err(e) => Err(e),
        Ok((c, st1)) => match truthy(st1, c, depth) {
            Err(e) => Err(e),
            Ok((b, st2)) => if b {
                null_after(exec_nodes(st2, block, 0, depth))
            } else {
                match or_else {
                    Some(node) => null_after(eval(st2, *node, depth)),
                    None => st2.null_result(),
                }
            },
        },
    }
}

/// A `for` loop: the source is evaluated and asked for an iterator by
/// `__iter__`; the iterator's `__next__` method is looked up once; then the
/// rounds run.
pub open spec fn for_loop(st: VmView, target: Seq<char>, iter: Node, body: Seq<Node>, depth: nat) -> Step<
    PettyObject,
>
    decreases depth, 6nat, 0nat,
{
    match eval(st, iter, depth) {
        Err(e) => Err(e),
        Ok((source, st1)) => match call_method(st1, source, "__iter__"@, Seq::empty(), depth) {
            Err(e) => Err(e),
            Ok((it, st2)) => match get_item(st2, it, "__next__"@) {
                Err(e) => Err(e),
                Ok(next) => null_after(
                    for_rounds(st2, target, it, next, body, st2.loop_limit as nat, depth),
                ),
            },
        },
    }
}

/// Reading an item by index: the index is evaluated, the name is read, and
/// `__get_index__` is called on the object with the index.
pub open spec fn get_item_index(st: VmView, ident: Seq<char>, expr: Node, depth: nat) -> Step<
    PettyObject,
>
    decreases depth, 6nat, 0nat,
{
    match eval(st, expr, depth) {
        Err(e) => Err(e),
        Ok((value, st1)) => match st1.read(ident) {
            None => Err(RuntimeError::UnresolvedName),
            Some(object) => call_method(st1, object, "__get_index__"@, seq![value], depth),
        },
    }
}

/// Writing an item by index: the index and the value are evaluated, the name
/// is read, and `__set_index__` is called on the object with both.
pub open spec fn set_item_index(
    st: VmView,
    ident: Seq<char>,
    index: Node,
    expr: Node,
    depth: nat,
) -> Step<PettyObject>
    decreases depth, 6nat, 0nat,
{
    match eval(st, index, depth) {
        Err(e) => Err(e),
        Ok((i, st1)) => match eval(st1, expr, depth) {
            Err(e) => Err(e),
            Ok((value, st2)) => match st2.read(ident) {
                None => Err(RuntimeError::UnresolvedName),
                Some(object) => null_after(
                    call_method(st2, object, "__set_index__"@, seq![i, value], depth),
                ),
            },
        },
    }
}

/// The state after a new function object that closes over the frames in
/// scope was bound to a name.
pub open spec fn func_def(st: VmView, name: Seq<char>, params: Seq<String>, body: Seq<Node>) -> VmView {
    st.allocate(ObjectModel::Function { params, body, scopes: st.scopes }).write(
        name,
        st.next_object(),
    )
}

/// The state after a new class object was bound to a name.
pub open spec fn class_def(st: VmView, name: Seq<char>, fields: Seq<String>, methods: Seq<Node>) -> VmView {
    st.allocate(ObjectModel::Class { fields, methods }).write(name, st.next_object())
}

/// Evaluating a node.
///
/// An expression gives its value. A statement gives the null object and
/// changes the state: an assignment binds a name in the innermost frame, a
/// definition binds a new function or class object and does not run its
/// body, `return` and `break` raise their signal.
pub open spec fn eval(st: VmView, node: Node, depth: nat) -> Step<PettyObject>
    decreases depth, 0nat, 0nat,
{
    if depth == 0 {
        Err(RuntimeError::RecursionLimit)
    } else {
        let d = (depth - 1) as nat;
        match node {
            Node::Globals(nodes) => null_after(exec_nodes(st, nodes@, 0, d)),
            Node::Block(nodes) => null_after(exec_nodes(st, nodes@, 0, d)),
            Node::SetEq(name, expr) => match eval(st, *expr, d) {
                Err(e) => Err(e),
                Ok((v, st1)) => Ok((null_object(), st1.write(name@, v))),
            },
            Node::BinExpr(op, nodes) => if op == BinOp::GetItem {
                member(st, nodes.0, nodes.1, d)
            } else {
                bin_expr(st, op, nodes.0, nodes.1, d)
            },
            Node::Literal(literal) => create_literal(st, literal, d),
            Node::Ident(ident) => match st.read(ident@) {
                Some(o) => Ok((o, st)),
                None => Err(RuntimeError::UnresolvedName),
            },
            Node::FuncCall(name, args) => func_call(st, name@, args@, d),
            Node::FuncDef(name, params, body) => Ok(
                (null_object(), func_def(st, name@, params@, body@)),
            ),
            Node::ReturnState(expr) => match eval(st, *expr, d) {
                Err(e) => Err(e),
                Ok((v, st1)) => Ok((null_object(), st1.with_signal(Signal::Return(v)))),
            },
            Node::BreakState => Ok((null_object(), st.with_signal(Signal::Break))),
            Node::UnaryOp(op, expr) => unary_expr(st, op, *expr, d),
            Node::IfState(condition, block, or_else) => if_statement(
                st,
                *condition,
                block@,
                or_else,
                d,
            ),
            Node::WhileLoop(condition, block) => null_after(
                while_rounds(st, *condition, block@, st.loop_limit as nat, d),
            ),
            Node::ForLoop(target, iter, block) => for_loop(st, target@, *iter, block@, d),
            Node::ClassDef(name, fields, methods) => Ok(
                (null_object(), class_def(st, name@, fields@, methods@)),
            ),
            Node::Closure(params, body) => st.new_object(
                ObjectModel::Function { params: params@, body: body@, scopes: st.scopes },
            ),
            Node::GetItemIndex(ident, expr) => get_item_index(st, ident@, *expr, d),
            Node::SetItemIndex(ident, index, expr) => set_item_index(st, ident@, *index, *expr, d),
            Node::Empty => st.null_result(),
        }
    }
}

/// Running a program: a block gives one object per statement, evaluated in
/// order; any other node gives its one object.
pub open spec fn run(st: VmView, tree: Node, depth: nat) -> Step<Seq<PettyObject>> {
    match tree {
        Node::Block(nodes) => eval_list(st, nodes@, 0, Seq::empty(), depth),
        Node::Globals(nodes) => eval_list(st, nodes@, 0, Seq::empty(), depth),
        node => match eval(st, node, depth) {
            Err(e) => Err(e),
            Ok((v, st1)) => Ok((seq![v], st1)),
        },
    }
}

} // verus!
