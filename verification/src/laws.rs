//! Laws of the machine: what holds of every state and every program.

use crate::ast::{bin_op_has_method, bin_op_method, BinOp, Node};
use crate::builtins::native_arity;
use crate::error::RuntimeError;
use crate::object::{ObjectModel, PettyObject};
use crate::builtins::list_iter::call_iter;
use crate::machine::{lemma_allocate_wf, lemma_store_wf};
use crate::object::NativeFn;
use crate::semantics::{
    apply_bin_op, bind_params, call, call_method, call_native, differ_in_kind, enter,
    exec_nodes, for_rounds, instantiate, method_table, values_equal,
};
use crate::state::{
    bool_object, native_index, native_object, none_object, Signal, VmView, NATIVE_BASE, NONE_SLOT,
};
use vstd::prelude::*;

verus! {

/// The number of arguments that an object is declared to take: the number
/// of parameters of a function, of fields of a class, and of arguments of a
/// runtime function that takes a fixed number of them.
pub open spec fn declared_arity(st: VmView, f: PettyObject) -> Option<nat> {
    match st.get(f) {
        Some(ObjectModel::Function { params, .. }) => Some(params.len()),
        Some(ObjectModel::Class { fields, .. }) => Some(fields.len()),
        Some(ObjectModel::Native(nf)) => native_arity(nf),
        _ => None,
    }
}

/// A call with a number of arguments other than the declared one fails with
/// an arity mismatch, in every state and with every depth budget: no
/// argument is dropped and none is made up.
pub proof fn law_arity_mismatch(st: VmView, f: PettyObject, args: Seq<PettyObject>, depth: nat)
    requires
        declared_arity(st, f).is_some(),
        declared_arity(st, f) != Some(args.len()),
    ensures
        call(st, f, args, depth) == Err::<(PettyObject, VmView), RuntimeError>(
            RuntimeError::ArityMismatch,
        ),
{
}

/// A call that succeeds was given exactly as many arguments as declared.
pub proof fn law_call_arity(st: VmView, f: PettyObject, args: Seq<PettyObject>, depth: nat)
    requires
        call(st, f, args, depth).is_ok(),
        declared_arity(st, f).is_some(),
    ensures
        declared_arity(st, f) == Some(args.len()),
{
}

/// Reading the local frames gives the same in two states whose stacks are
/// the same and whose arenas agree on every frame of the stack.
pub proof fn lemma_read_scopes_agree(st: VmView, st2: VmView, key: Seq<char>, n: nat)
    requires
        st2.scopes == st.scopes,
        forall|i: int| 0 <= i < st.scopes.len() ==> st.get(#[trigger] st.scopes[i]) == st2.get(st.scopes[i]),
    ensures
        st2.read_scopes(key, n) == st.read_scopes(key, n),
    decreases n,
{
    if n == 0 || n > st.scopes.len() {
    } else {
        assert(st.get(st.scopes[n - 1]) == st2.get(st.scopes[n - 1]));
        lemma_read_scopes_agree(st, st2, key, (n - 1) as nat);
    }
}

/// A name that was just bound reads as the object it was bound to.
pub proof fn law_write_read(st: VmView, key: Seq<char>, value: PettyObject)
    requires
        st.wf(),
    ensures
        st.write(key, value).read(key) == Some(value),
{
    let st2 = st.write(key, value);
    if st.scopes.len() > 0 {
        let top = st.scopes.last();
        assert(st.is_frame(st.scopes[st.scopes.len() - 1]));
        assert(st2.scopes == st.scopes);
        assert(st2.get(st2.scopes[st2.scopes.len() - 1]) matches Some(ObjectModel::Frame(m))
            && m.contains_key(key) && m[key] == value);
    } else {
        assert(st2.read_scopes(key, 0) is None);
    }
}

/// Shadowing. A name bound in a fresh nested frame reads, in that frame, as
/// the new object; and once the frame is popped, every name reads as it did
/// before the frame was pushed, the shadowed one too.
pub proof fn law_shadowing(st: VmView, key: Seq<char>, value: PettyObject, other: Seq<char>)
    requires
        st.wf(),
    ensures
        st.new_scope().write(key, value).read(key) == Some(value),
        st.new_scope().write(key, value).drop_scope().read(other) == st.read(other),
        st.new_scope().write(key, value).drop_scope().scopes == st.scopes,
        st.new_scope().write(key, value).drop_scope().globals == st.globals,
{
    let st1 = st.new_scope();
    let frame = st.next_object();
    assert(st1.scopes.last() == frame);
    assert(st1.is_frame(frame));
    let st2 = st1.write(key, value);
    assert(st2.scopes == st1.scopes);
    assert(st2.get(st2.scopes[st2.scopes.len() - 1]) matches Some(ObjectModel::Frame(m))
        && m.contains_key(key) && m[key] == value);
    let st3 = st2.drop_scope();
    assert(st3.scopes =~= st.scopes);
    assert forall|i: int| 0 <= i < st.scopes.len() implies st.get(#[trigger] st.scopes[i])
        == st3.get(st.scopes[i]) by {
        assert(st.is_frame(st.scopes[i]));
    }
    lemma_read_scopes_agree(st, st3, other, st.scopes.len());
}

/// Equality of objects of different dynamic types is false, and nothing is
/// called to find that out: the state stays as it is, and the answer comes
/// with every depth budget, also with none, where any call would fail.
pub proof fn law_mismatched_equality(st: VmView, a: PettyObject, b: PettyObject, depth: nat)
    requires
        st.get(a).is_some(),
        st.get(b).is_some(),
        st.get(a).unwrap().kind() != st.get(b).unwrap().kind(),
    ensures
        values_equal(st, a, b, depth) == Ok::<(bool, VmView), RuntimeError>((false, st)),
        apply_bin_op(st, BinOp::IsEq, a, b, depth) == Ok::<(PettyObject, VmView), RuntimeError>(
            (bool_object(false), st),
        ),
{
}

/// Operators are method calls. Every binary operator but member access is
/// looked up by its name on the left operand and called with the left
/// operand first and the right one second, and the expression gives what
/// the method gave, whatever it is. The one case that is left out is
/// equality of objects of different dynamic types.
pub proof fn law_operators_dispatch(st: VmView, op: BinOp, a: PettyObject, b: PettyObject, depth: nat)
    requires
        bin_op_has_method(op),
        !(op == BinOp::IsEq && differ_in_kind(st, a, b)),
    ensures
        apply_bin_op(st, op, a, b, depth) == call_method(st, a, bin_op_method(op), seq![b], depth),
        call_method(st, a, bin_op_method(op), seq![b], depth) == (match crate::semantics::get_item(
            st,
            a,
            bin_op_method(op),
        ) {
            Err(e) => Err(e),
            Ok(f) => call(st, f, seq![a, b], depth),
        }),
{
    assert(seq![a] + seq![b] =~= seq![a, b]);
}

/// Every operator that is a method call has a name of its own: no name is
/// empty, and no two operators share one.
pub proof fn law_operator_names(op: BinOp, other: BinOp)
    requires
        bin_op_has_method(op),
        bin_op_has_method(other),
        op != other,
    ensures
        bin_op_method(op).len() > 0,
        bin_op_method(op) != bin_op_method(other),
{
    reveal_strlit("__add__");
    reveal_strlit("__sub__");
    reveal_strlit("__mul__");
    reveal_strlit("__div__");
    reveal_strlit("__is_eq__");
    reveal_strlit("__not_eq__");
    reveal_strlit("__lt__");
    reveal_strlit("__gt__");
    reveal_strlit("__lt_eq__");
    reveal_strlit("__gt_eq__");
    reveal_strlit("__mod__");
    reveal_strlit("__and__");
    reveal_strlit("__or__");
    let x = bin_op_method(op);
    let y = bin_op_method(other);
    if x.len() == y.len() {
        assert(x[2] != y[2] || x[3] != y[3]);
    }
}

/// While a signal is pending, no further statement of a sequence is
/// executed: a return unwinds every block up to the call it belongs to.
pub proof fn law_pending_signal(st: VmView, nodes: Seq<Node>, i: nat, depth: nat)
    requires
        st.signal != Signal::Normal,
    ensures
        exec_nodes(st, nodes, i, depth) == Ok::<(Signal, VmView), RuntimeError>((st.signal, st)),
{
}

/// Binding a name keeps the invariant of the machine.
pub proof fn lemma_write_wf(st: VmView, key: Seq<char>, value: PettyObject)
    requires
        st.wf(),
    ensures
        st.write(key, value).wf(),
        st.write(key, value).scopes == st.scopes,
        st.write(key, value).signal == st.signal,
        st.write(key, value).heap.len() == st.heap.len(),
        forall|o: PettyObject|
            !st.is_frame(o) ==> #[trigger] st.write(key, value).get(o) == st.get(o),
{
    if st.scopes.len() > 0 {
        let top = st.scopes.last();
        assert(st.is_frame(st.scopes[st.scopes.len() - 1]));
        let m = st.heap[top.0 as int]->Frame_0;
        lemma_store_wf(st, top, ObjectModel::Frame(m.insert(key, value)));
    } else {
        let st2 = st.write(key, value);
        assert forall|k: int| 0 <= k < st2.scopes.len() implies st2.is_frame(
            #[trigger] st2.scopes[k],
        ) by {
            assert(st.is_frame(st.scopes[k]));
        }
        assert forall|h: int| 0 <= h < st2.heap.len() implies st2.closed(#[trigger] st2.heap[h]) by {
            assert(st.closed(st.heap[h]));
        }
    }
}

/// The state after a `for` loop with an empty body has used up a list
/// cursor.
pub open spec fn exhausted(st: VmView, it: PettyObject, list: PettyObject, items: Seq<PettyObject>) -> bool {
    &&& st.wf()
    &&& st.get(it) == Some(ObjectModel::ListIter(list, (items.len() + 1) as usize))
    &&& st.list_of(list) == Some(items)
    &&& st.signal == Signal::Normal
}

/// Exhaustion. A `for` loop with an empty body over a cursor on a list of
/// `N` items, of which the cursor has passed `c`, ends without error. Each
/// call of the cursor's `__next__` moves the cursor on by one, and the loop
/// leaves it at `N + 1`: `__next__` was called once for each of the `N - c`
/// items that were left and once more for the absent option, and not again
/// after that. The arena must have room for the options that the calls
/// make.
pub proof fn law_for_exhausts_list(
    st: VmView,
    target: Seq<char>,
    it: PettyObject,
    list: PettyObject,
    items: Seq<PettyObject>,
    cursor: usize,
    rounds: nat,
    depth: nat,
)
    requires
        st.wf(),
        st.signal == Signal::Normal,
        st.get(it) == Some(ObjectModel::ListIter(list, cursor)),
        st.list_of(list) == Some(items),
        cursor <= items.len(),
        items.len() < usize::MAX,
        st.heap.len() + (items.len() - cursor) <= usize::MAX,
        rounds > items.len() - cursor,
        depth >= 1,
    ensures
        for_rounds(
            st,
            target,
            it,
            native_object(NativeFn::IterNext),
            Seq::empty(),
            rounds,
            depth,
        ) matches Ok((_, after)) && exhausted(after, it, list, items),
    decreases items.len() - cursor,
{
    let next = native_object(NativeFn::IterNext);
    let args = seq![it];
    assert(st.heap[NATIVE_BASE + native_index(NativeFn::IterNext)] == ObjectModel::Native(
        NativeFn::IterNext,
    ));
    assert(st.get(next) == Some(ObjectModel::Native(NativeFn::IterNext)));
    assert(args.len() == 1);
    assert(args[0] == it);
    let moved = st.store(it, ObjectModel::ListIter(list, (cursor + 1) as usize));
    lemma_store_wf(st, it, ObjectModel::ListIter(list, (cursor + 1) as usize));
    assert(moved.list_of(list) == Some(items));
    assert(call_native(st, NativeFn::IterNext, args, (depth - 1) as nat) == call_iter(
        st,
        NativeFn::IterNext,
        args,
    ));
    if cursor < items.len() {
        let v = items[cursor as int];
        let item = moved.next_object();
        let st1 = moved.allocate(ObjectModel::Opt(Some(v)));
        lemma_allocate_wf(moved, ObjectModel::Opt(Some(v)));
        assert(call(st, next, args, depth) == Ok::<(PettyObject, VmView), RuntimeError>(
            (item, st1),
        ));
        assert(st1.get(item) == Some(ObjectModel::Opt(Some(v))));
        let st2 = st1.write(target, v);
        lemma_write_wf(st1, target, v);
        assert(!st1.is_frame(it));
        assert(!st1.is_frame(list));
        assert(st2.get(it) == st1.get(it));
        assert(st2.get(list) == st1.get(list));
        assert(exec_nodes(st2, Seq::<Node>::empty(), 0, depth) == Ok::<
            (Signal, VmView),
            RuntimeError,
        >((st2.signal, st2)));
        law_for_exhausts_list(
            st2,
            target,
            it,
            list,
            items,
            (cursor + 1) as usize,
            (rounds - 1) as nat,
            depth,
        );
    } else {
        assert(moved.heap[NONE_SLOT as int] == ObjectModel::Opt(None));
        assert(moved.get(none_object()) == Some(ObjectModel::Opt(None)));
        assert(call(st, next, args, depth) == Ok::<(PettyObject, VmView), RuntimeError>(
            (none_object(), moved),
        ));
    }
}

/// Whether an object is one of the arguments of a call.
pub open spec fn is_argument(args: Seq<PettyObject>, o: PettyObject) -> bool {
    exists|k: int| 0 <= k < args.len() && #[trigger] args[k] == o
}

/// Whether a handle names a function object that was made after the state
/// `before` and that closes over the frames `scopes`.
pub open spec fn fresh_closure(before: VmView, after: VmView, o: PettyObject, scopes: Seq<PettyObject>) -> bool {
    &&& before.heap.len() <= o.0 < after.heap.len()
    &&& after.heap[o.0 as int] matches ObjectModel::Function { scopes: s, .. } && s == scopes
}

/// Installing the methods of a class into a table changes the table under
/// the names of the methods only, and binds each of these names to a
/// function object that was made for this table and that closes over the
/// frames in scope now. Objects that were there before stay as they are.
pub proof fn lemma_method_table(
    st: VmView,
    methods: Seq<Node>,
    i: nat,
    m: Map<Seq<char>, PettyObject>,
    start: VmView,
)
    requires
        method_table(st, methods, i, m).is_ok(),
        method_table(st, methods, i, m).unwrap().1.heap.len() <= usize::MAX,
        st.scopes == start.scopes,
        start.heap.len() <= st.heap.len(),
        forall|h: int| 0 <= h < start.heap.len() ==> st.heap[h] == start.heap[h],
    ensures
        ({
            let (table, after) = method_table(st, methods, i, m).unwrap();
            &&& after.scopes == start.scopes
            &&& after.globals == st.globals
            &&& after.heap.len() >= st.heap.len()
            &&& forall|h: int| 0 <= h < start.heap.len() ==> after.heap[h] == start.heap[h]
            &&& forall|key: Seq<char>| #[trigger]
                table.contains_key(key) ==> (m.contains_key(key) && table[key] == m[key])
                    || fresh_closure(start, after, table[key], start.scopes)
            &&& forall|key: Seq<char>| m.contains_key(key) ==> #[trigger] table.contains_key(key)
            &&& forall|k: int|
                i <= k < methods.len() ==> table.contains_key(method_name(#[trigger] methods[k]))
                    && fresh_closure(
                    start,
                    after,
                    table[method_name(methods[k])],
                    start.scopes,
                )
        }),
    decreases methods.len() - i,
{
    if i < methods.len() {
        match methods[i as int] {
            Node::FuncDef(name, params, body) => {
                let made = st.next_object();
                let st1 = st.allocate(
                    ObjectModel::Function { params: params@, body: body@, scopes: st.scopes },
                );
                let m1 = m.insert(name@, made);
                lemma_method_table_keeps(st1, methods, i + 1, m1, st.heap.len() as int);
                lemma_method_table(st1, methods, i + 1, m1, start);
                let (table, after) = method_table(st1, methods, i + 1, m1).unwrap();
                assert(made.0 == st.heap.len());
                assert(after.heap[made.0 as int] == st1.heap[made.0 as int]);
                assert(table.contains_key(name@));
                assert forall|k: int| i <= k < methods.len() implies table.contains_key(
                    method_name(#[trigger] methods[k]),
                ) && fresh_closure(start, after, table[method_name(methods[k])], start.scopes) by {
                    if k == i {
                        assert(method_name(methods[k]) == name@);
                        if m1.contains_key(name@) && table[name@] == m1[name@] {
                            assert(fresh_closure(start, after, table[name@], start.scopes));
                        }
                    }
                }
                assert forall|key: Seq<char>| #[trigger] table.contains_key(key) implies (
                m.contains_key(key) && table[key] == m[key]) || fresh_closure(
                    start,
                    after,
                    table[key],
                    start.scopes,
                ) by {
                    if m1.contains_key(key) && table[key] == m1[key] {
                        if key == name@ {
                            assert(fresh_closure(start, after, table[key], start.scopes));
                        }
                    }
                }
            },
            _ => {},
        }
    }
}

/// The name that a method definition binds; the empty text for a node that
/// is no function definition.
pub open spec fn method_name(n: Node) -> Seq<char> {
    match n {
        Node::FuncDef(name, _, _) => name@,
        _ => Seq::empty(),
    }
}

/// Installing methods leaves every object that is there as it is.
pub proof fn lemma_method_table_keeps(
    st: VmView,
    methods: Seq<Node>,
    i: nat,
    m: Map<Seq<char>, PettyObject>,
    h: int,
)
    requires
        method_table(st, methods, i, m).is_ok(),
        0 <= h < st.heap.len(),
    ensures
        method_table(st, methods, i, m).unwrap().1.heap.len() >= st.heap.len(),
        method_table(st, methods, i, m).unwrap().1.heap[h] == st.heap[h],
    decreases methods.len() - i,
{
    if i < methods.len() {
        match methods[i as int] {
            Node::FuncDef(name, params, body) => {
                let st1 = st.allocate(
                    ObjectModel::Function { params: params@, body: body@, scopes: st.scopes },
                );
                lemma_method_table_keeps(st1, methods, i + 1, m.insert(name@, st.next_object()), h);
            },
            _ => {},
        }
    }
}

/// Instances own their methods. Making an instance of a class gives a new
/// object whose table binds every name either to an argument of the call
/// or to a function object that was made by this call and that closes over
/// the frames in scope at the call, not at the definition of the class. So
/// no method object is shared with an instance that was there before.
pub proof fn law_instance_methods(
    st: VmView,
    fields: Seq<String>,
    methods: Seq<Node>,
    args: Seq<PettyObject>,
    key: Seq<char>,
)
    requires
        instantiate(st, fields, methods, args).is_ok(),
        instantiate(st, fields, methods, args).unwrap().1.heap.len() <= usize::MAX,
    ensures
        ({
            let (instance, after) = instantiate(st, fields, methods, args).unwrap();
            &&& instance.0 >= st.heap.len()
            &&& after.get(instance) matches Some(ObjectModel::Instance(table)) && (
            table.contains_key(key) ==> is_argument(args, table[key]) || fresh_closure(
                st,
                after,
                table[key],
                st.scopes,
            ))
        }),
{
    let m = crate::semantics::field_table(fields, args, 0, Map::empty());
    lemma_field_table(fields, args, 0, Map::empty());
    lemma_method_table(st, methods, 0, m, st);
    let (table, st1) = method_table(st, methods, 0, m).unwrap();
    let after = st1.allocate(ObjectModel::Instance(table));
    assert(st1.next_object().0 == st1.heap.len());
    assert(after.get(st1.next_object()) == Some(ObjectModel::Instance(table)));
    if table.contains_key(key) {
        if m.contains_key(key) && table[key] == m[key] {
        } else {
            assert(fresh_closure(st, st1, table[key], st.scopes));
            assert(fresh_closure(st, after, table[key], st.scopes));
        }
    }
}

/// The table of fields binds names to arguments of the call, or as the
/// table did that it was built on.
pub proof fn lemma_field_table(
    fields: Seq<String>,
    args: Seq<PettyObject>,
    i: nat,
    m: Map<Seq<char>, PettyObject>,
)
    ensures
        forall|key: Seq<char>| #[trigger]
            crate::semantics::field_table(fields, args, i, m).contains_key(key) ==> (
            m.contains_key(key) && crate::semantics::field_table(fields, args, i, m)[key]
                == m[key]) || is_argument(
                args,
                crate::semantics::field_table(fields, args, i, m)[key],
            ),
    decreases fields.len() - i,
{
    if i >= fields.len() || i >= args.len() {
    } else {
        let m1 = m.insert(fields[i as int]@, args[i as int]);
        lemma_field_table(fields, args, i + 1, m1);
        let t = crate::semantics::field_table(fields, args, i + 1, m1);
        assert(t == crate::semantics::field_table(fields, args, i, m));
        assert forall|key: Seq<char>| #[trigger] t.contains_key(key) implies (m.contains_key(key)
            && t[key] == m[key]) || is_argument(args, t[key]) by {
            if m1.contains_key(key) && t[key] == m1[key] {
                if key == fields[i as int]@ {
                    assert(args[i as int] == t[key]);
                }
            }
        }
    }
}

/// Two instances of one class share no method. Where a class is
/// instantiated twice, the second time in any state that has kept the first
/// instance, each method name is bound in the two instances to two
/// different function objects, each made by its own instantiation.
pub proof fn law_instances_share_no_method(
    st: VmView,
    mid: VmView,
    fields: Seq<String>,
    methods: Seq<Node>,
    first: Seq<PettyObject>,
    second: Seq<PettyObject>,
    k: int,
)
    requires
        instantiate(st, fields, methods, first).is_ok(),
        instantiate(mid, fields, methods, second).is_ok(),
        instantiate(mid, fields, methods, second).unwrap().1.heap.len() <= usize::MAX,
        instantiate(st, fields, methods, first).unwrap().1.heap.len() <= mid.heap.len(),
        mid.get(instantiate(st, fields, methods, first).unwrap().0) == instantiate(
            st,
            fields,
            methods,
            first,
        ).unwrap().1.get(instantiate(st, fields, methods, first).unwrap().0),
        0 <= k < methods.len(),
    ensures
        ({
            let (one, _) = instantiate(st, fields, methods, first).unwrap();
            let (two, after) = instantiate(mid, fields, methods, second).unwrap();
            let name = method_name(methods[k]);
            &&& one != two
            &&& crate::semantics::get_item(after, one, name).is_ok()
            &&& crate::semantics::get_item(after, two, name).is_ok()
            &&& crate::semantics::get_item(after, one, name).unwrap()
                != crate::semantics::get_item(after, two, name).unwrap()
            &&& fresh_closure(
                mid,
                after,
                crate::semantics::get_item(after, two, name).unwrap(),
                mid.scopes,
            )
        }),
{
    let (one, st1) = instantiate(st, fields, methods, first).unwrap();
    let (two, after) = instantiate(mid, fields, methods, second).unwrap();
    let name = method_name(methods[k]);
    // the first instance
    let m1 = crate::semantics::field_table(fields, first, 0, Map::empty());
    let (table1, made1) = method_table(st, methods, 0, m1).unwrap();
    lemma_method_table_keeps_len(st, methods, 0, m1);
    lemma_method_table_keeps_len(
        mid,
        methods,
        0,
        crate::semantics::field_table(fields, second, 0, Map::empty()),
    );
    assert(st1 == made1.allocate(ObjectModel::Instance(table1)));
    assert(st1.heap.len() <= mid.heap.len());
    assert(st1.heap.len() <= usize::MAX);
    assert(made1.heap.len() <= usize::MAX);
    lemma_method_table(st, methods, 0, m1, st);
    assert(table1.contains_key(method_name(methods[k])));
    assert(fresh_closure(st, made1, table1[name], st.scopes));
    assert(one.0 == made1.heap.len());
    assert(st1.get(one) == Some(ObjectModel::Instance(table1)));
    // the second instance
    let m2 = crate::semantics::field_table(fields, second, 0, Map::empty());
    let (table2, made2) = method_table(mid, methods, 0, m2).unwrap();
    lemma_method_table_keeps_len(mid, methods, 0, m2);
    lemma_method_table(mid, methods, 0, m2, mid);
    assert(table2.contains_key(method_name(methods[k])));
    assert(fresh_closure(mid, made2, table2[name], mid.scopes));
    assert(two.0 == made2.heap.len());
    assert(after.get(two) == Some(ObjectModel::Instance(table2)));
    lemma_method_table_keeps(mid, methods, 0, m2, one.0 as int);
    assert(after.get(one) == Some(ObjectModel::Instance(table1)));
}

/// Installing methods never makes the arena smaller.
pub proof fn lemma_method_table_keeps_len(
    st: VmView,
    methods: Seq<Node>,
    i: nat,
    m: Map<Seq<char>, PettyObject>,
)
    requires
        method_table(st, methods, i, m).is_ok(),
    ensures
        method_table(st, methods, i, m).unwrap().1.heap.len() >= st.heap.len(),
    decreases methods.len() - i,
{
    if i < methods.len() {
        match methods[i as int] {
            Node::FuncDef(name, params, body) => {
                let st1 = st.allocate(
                    ObjectModel::Function { params: params@, body: body@, scopes: st.scopes },
                );
                lemma_method_table_keeps_len(st1, methods, i + 1, m.insert(name@, st.next_object()));
            },
            _ => {},
        }
    }
}

/// Whether a name is one of the parameters of a function.
pub open spec fn is_param(params: Seq<String>, key: Seq<char>) -> bool {
    exists|j: int| 0 <= j < params.len() && (#[trigger] params[j])@ == key
}

/// Reading the first `n` local frames gives the same in two states whose
/// stacks agree on these frames and whose arenas agree on them.
pub proof fn lemma_read_scopes_prefix(a: VmView, b: VmView, key: Seq<char>, n: nat)
    requires
        n <= a.scopes.len(),
        n <= b.scopes.len(),
        forall|i: int| 0 <= i < n ==> #[trigger] a.scopes[i] == b.scopes[i],
        forall|i: int| 0 <= i < n ==> a.get(#[trigger] a.scopes[i]) == b.get(a.scopes[i]),
    ensures
        a.read_scopes(key, n) == b.read_scopes(key, n),
    decreases n,
{
    if n > 0 {
        assert(a.scopes[n - 1] == b.scopes[n - 1]);
        assert(a.get(a.scopes[n - 1]) == b.get(a.scopes[n - 1]));
        lemma_read_scopes_prefix(a, b, key, (n - 1) as nat);
    }
}

/// Binding parameters changes the innermost frame alone, and binds only
/// names of parameters in it.
pub proof fn lemma_bind_params_frame(
    st: VmView,
    params: Seq<String>,
    args: Seq<PettyObject>,
    i: nat,
    frame: PettyObject,
)
    requires
        st.scopes.len() > 0,
        st.scopes.last() == frame,
        st.is_frame(frame),
    ensures
        ({
            let after = bind_params(st, params, args, i);
            &&& after.scopes == st.scopes
            &&& after.globals == st.globals
            &&& after.heap.len() == st.heap.len()
            &&& forall|o: PettyObject| o != frame ==> #[trigger] after.get(o) == st.get(o)
            &&& after.heap[frame.0 as int] is Frame
            &&& forall|key: Seq<char>| #[trigger]
                after.heap[frame.0 as int]->Frame_0.contains_key(key)
                    ==> st.heap[frame.0 as int]->Frame_0.contains_key(key) || is_param(
                    params,
                    key,
                )
        }),
    decreases params.len() - i,
{
    if i >= params.len() || i >= args.len() {
    } else {
        let st1 = st.write(params[i as int]@, args[i as int]);
        assert(st1.scopes == st.scopes);
        assert(st1.is_frame(frame));
        lemma_bind_params_frame(st1, params, args, i + 1, frame);
        let after = bind_params(st1, params, args, i + 1);
        assert forall|o: PettyObject| o != frame implies #[trigger] after.get(o) == st.get(o) by {
            assert(after.get(o) == st1.get(o));
        }
        assert forall|key: Seq<char>| #[trigger]
            after.heap[frame.0 as int]->Frame_0.contains_key(key) implies st.heap[frame.0 as int]->Frame_0.contains_key(
            key,
        ) || is_param(params, key) by {
            if st1.heap[frame.0 as int]->Frame_0.contains_key(key) {
                if key == params[i as int]@ {
                    assert(params[i as int]@ == key);
                }
            }
        }
    }
}

/// Closures share frames. Where the body of a function starts, the fresh
/// frame of the call binds nothing but parameters, and every other name
/// reads as it does through the frames of the caller and the frames that
/// the function closes over, as these frames are at the call. A binding
/// that was changed in such a frame after the function was made is read as
/// it is now: the function holds the frame, and no copy of what it held.
pub proof fn law_closure_shares_frames(
    st: VmView,
    params: Seq<String>,
    args: Seq<PettyObject>,
    captured: Seq<PettyObject>,
    key: Seq<char>,
)
    requires
        st.wf(),
        st.all_frames(captured),
        st.heap.len() + 1 <= usize::MAX,
        !is_param(params, key),
    ensures
        bind_params(enter(st, captured), params, args, 0).read(key) == st.with_scopes(
            st.scopes + captured,
        ).read(key),
        forall|j: int|
            0 <= j < captured.len() ==> bind_params(enter(st, captured), params, args, 0).get(
                #[trigger] captured[j],
            ) == st.get(captured[j]),
{
    let outer = st.with_scopes(st.scopes + captured);
    let frame = outer.next_object();
    let entered = enter(st, captured);
    assert(entered.scopes.last() == frame);
    assert(entered.is_frame(frame));
    lemma_bind_params_frame(entered, params, args, 0, frame);
    let body = bind_params(entered, params, args, 0);
    let n = outer.scopes.len();
    assert(body.scopes.len() == n + 1);
    assert forall|i: int| 0 <= i < n implies #[trigger] outer.scopes[i] == body.scopes[i]
        && outer.get(outer.scopes[i]) == body.get(outer.scopes[i]) by {
        if i < st.scopes.len() {
            assert(st.is_frame(st.scopes[i]));
        } else {
            assert(st.is_frame(captured[i - st.scopes.len()]));
        }
        assert(outer.scopes[i] != frame);
        assert(entered.get(outer.scopes[i]) == outer.get(outer.scopes[i]));
    }
    lemma_read_scopes_prefix(outer, body, key, n);
    assert(!body.heap[frame.0 as int]->Frame_0.contains_key(key)) by {
        assert(entered.heap[frame.0 as int] == ObjectModel::Frame(Map::empty()));
    }
    assert(body.read_scopes(key, n + 1) == body.read_scopes(key, n));
    assert forall|j: int| 0 <= j < captured.len() implies body.get(#[trigger] captured[j])
        == st.get(captured[j]) by {
        assert(st.is_frame(captured[j]));
        assert(captured[j] != frame);
        assert(entered.get(captured[j]) == st.get(captured[j]));
    }
}

/// What the rounds of a `for` loop do with the iterator: how often they
/// call `__next__`, how many of these calls give a present item, and
/// whether the last call gave the absent one.
pub struct Asked {
    pub calls: nat,
    pub presents: nat,
    pub absent: bool,
}

/// The calls of `__next__` that the rounds of a `for` loop make: one at the
/// start of each round, and none after the round that ends the loop.
pub open spec fn asked(
    st: VmView,
    target: Seq<char>,
    it: PettyObject,
    next: PettyObject,
    body: Seq<Node>,
    rounds: nat,
    depth: nat,
) -> Asked
    decreases rounds,
{
    if rounds == 0 {
        Asked { calls: 0, presents: 0, absent: false }
    } else {
        match call(st, next, seq![it], depth) {
            Err(_) => Asked { calls: 1, presents: 0, absent: false },
            Ok((item, st1)) => match st1.get(item) {
                Some(ObjectModel::Opt(None)) => Asked { calls: 1, presents: 0, absent: true },
                Some(ObjectModel::Opt(Some(v))) => match exec_nodes(
                    st1.write(target, v),
                    body,
                    0,
                    depth,
                ) {
                    Ok((Signal::Normal, st2)) => {
                        let rest = asked(st2, target, it, next, body, (rounds - 1) as nat, depth);
                        Asked {
                            calls: rest.calls + 1,
                            presents: rest.presents + 1,
                            absent: rest.absent,
                        }
                    },
                    _ => Asked { calls: 1, presents: 1, absent: false },
                },
                _ => Asked { calls: 1, presents: 0, absent: false },
            },
        }
    }
}

/// Exhaustion, for every iterator and every body. A `for` loop that ends
/// without error calls `__next__` once per round. Where the loop runs to
/// the absent item, the iterator was asked exactly once more than it gave
/// items: `N` calls that gave a present item, then one that gave the absent
/// one, and none after it. Where a `break` or a `return` ends the loop, the
/// iterator was asked exactly as often as it gave items.
pub proof fn law_for_asks_once_per_round(
    st: VmView,
    target: Seq<char>,
    it: PettyObject,
    next: PettyObject,
    body: Seq<Node>,
    rounds: nat,
    depth: nat,
)
    requires
        for_rounds(st, target, it, next, body, rounds, depth).is_ok(),
    ensures
        ({
            let a = asked(st, target, it, next, body, rounds, depth);
            a.calls == a.presents + (if a.absent {
                1nat
            } else {
                0nat
            })
        }),
        asked(st, target, it, next, body, rounds, depth).calls <= rounds,
    decreases rounds,
{
    if rounds > 0 {
        match call(st, next, seq![it], depth) {
            Err(_) => {},
            Ok((item, st1)) => match st1.get(item) {
                Some(ObjectModel::Opt(Some(v))) => match exec_nodes(
                    st1.write(target, v),
                    body,
                    0,
                    depth,
                ) {
                    Ok((Signal::Normal, st2)) => {
                        law_for_asks_once_per_round(
                            st2,
                            target,
                            it,
                            next,
                            body,
                            (rounds - 1) as nat,
                            depth,
                        );
                    },
                    _ => {},
                },
                _ => {},
            },
        }
    }
}

} // verus!
