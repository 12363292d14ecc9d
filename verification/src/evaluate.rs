//! The evaluator: attribute lookup, invocation, and the walk over the tree.

use crate::ast::Node;
use crate::dict::Dict;
use crate::error::RuntimeError;
use crate::machine::{copy_handles, Vm};
use crate::object::{
    NativeFn, ObjectModel, PettyClass, PettyClassInstance, PettyFunction, PettyObject,
    PettyObjectType, PtyBool, PtyInt, PtyList, PtyListIter, PtyNull, PtyOption, PtyRange, PtyStr,
};
use crate::semantics::{
    bind_params, call, call_method, class_def, enter, eval_list, exec_nodes, field_table,
    for_rounds, func_def, get_item, instantiate, leave, method_object, method_table, repr, truthy,
    values_equal, while_rounds,
};
use crate::shared::share;
use crate::state::{steps_to, Signal, Step, VmView, NULL_SLOT};
use crate::strings::str_eq;
use std::sync::Arc;
use vstd::prelude::*;

verus! {

/// Whether an executed step that gives a sequence of handles is the one
/// that the model describes.
pub open spec fn steps_to_seq(
    before: VmView,
    r: Result<Vec<PettyObject>, RuntimeError>,
    after: VmView,
    step: Step<Seq<PettyObject>>,
) -> bool {
    &&& before.carried_to(after)
    &&& match step {
        Ok((v, st)) => r.is_ok() && r.unwrap()@ == v && after == st && after.scopes
            == before.scopes,
        Err(e) => r.is_err() && r.unwrap_err() == e,
    }
}

/// Whether an executed step that gives a text is the one that the model
/// describes.
pub open spec fn steps_to_text(
    before: VmView,
    r: Result<String, RuntimeError>,
    after: VmView,
    step: Step<Seq<char>>,
) -> bool {
    &&& before.carried_to(after)
    &&& match step {
        Ok((v, st)) => r.is_ok() && r.unwrap()@ == v && after == st && after.scopes
            == before.scopes,
        Err(e) => r.is_err() && r.unwrap_err() == e,
    }
}

/// Binding parameters leaves the stack of local frames as it is.
pub proof fn lemma_bind_params_scopes(st: VmView, params: Seq<String>, args: Seq<PettyObject>, i: nat)
    ensures
        bind_params(st, params, args, i).scopes == st.scopes,
    decreases params.len() - i,
{
    if i >= params.len() || i >= args.len() {
    } else {
        lemma_bind_params_scopes(st.write(params[i as int]@, args[i as int]), params, args, i + 1);
    }
}

/// The handle of the method that a method table gives.
pub fn method(f: Option<NativeFn>) -> (r: Result<PettyObject, RuntimeError>)
    ensures
        r == method_object(f),
{
    match f {
        Some(f) => Ok(f.object()),
        None => Err(RuntimeError::UnresolvedName),
    }
}

/// The arguments of a method call: the receiver, then the arguments that
/// were written.
pub fn with_receiver(recv: PettyObject, args: &Vec<PettyObject>) -> (items: Vec<PettyObject>)
    ensures
        items@ == seq![recv] + args@,
{
    let mut items: Vec<PettyObject> = Vec::new();
    items.push(recv);
    let mut i: usize = 0;
    while i < args.len()
        invariant
            i <= args@.len(),
            items@ == seq![recv] + args@.take(i as int),
        decreases args@.len() - i,
    {
        items.push(args[i]);
        assert(args@.take(i + 1) =~= args@.take(i as int).push(args@[i as int]));
        assert(items@ =~= seq![recv] + args@.take(i + 1));
        i += 1;
    }
    assert(args@.take(args@.len() as int) =~= args@);
    items
}

/// What a call has to know of the object that is called.
pub enum Callee {
    Function(Arc<Vec<String>>, Arc<Vec<Node>>, Vec<PettyObject>),
    Class(Arc<Vec<String>>, Arc<Vec<Node>>),
    Native(NativeFn),
    Instance,
    Other,
}

impl PettyObject {
    /// Attribute lookup: the object that `key` names on this object.
    pub fn get_item(self, vm: &Vm, key: &str) -> (r: Result<PettyObject, RuntimeError>)
        ensures
            r == get_item(vm@, self, key@),
    {
        match vm.get(self) {
            None => Err(RuntimeError::CapabilityMismatch),
            Some(obj) => match obj {
                PettyObjectType::Null(_) => method(PtyNull::get_item(key)),
                PettyObjectType::Bool(_) => method(PtyBool::get_item(key)),
                PettyObjectType::Int(_) => method(PtyInt::get_item(key)),
                PettyObjectType::Str(_) => method(PtyStr::get_item(key)),
                PettyObjectType::List(_) => method(PtyList::get_item(key)),
                PettyObjectType::ListIter(_) => method(PtyListIter::get_item(key)),
                PettyObjectType::Opt(_) => method(PtyOption::get_item(key)),
                PettyObjectType::Range(_) => method(PtyRange::get_item(key)),
                PettyObjectType::Instance(instance) => {
                    match instance.fields.get(key) {
                        Some(o) => Ok(o),
                        None => {
                            if str_eq(key, "__repr__") {
                                Ok(NativeFn::InstanceRepr.object())
                            } else {
                                Err(RuntimeError::UnresolvedName)
                            }
                        },
                    }
                },
                PettyObjectType::Module(module) => {
                    match module.dict.get(key) {
                        Some(o) => Ok(o),
                        None => Err(RuntimeError::UnresolvedName),
                    }
                },
                _ => Err(RuntimeError::UnresolvedName),
            },
        }
    }

    /// What a call has to know of this object.
    pub fn callee(self, vm: &Vm) -> (c: Callee)
        ensures
            match vm@.get(self) {
                Some(ObjectModel::Function { params, body, scopes }) => c matches Callee::Function(
                    p,
                    b,
                    s,
                ) && p@ == params && b@ == body && s@ == scopes,
                Some(ObjectModel::Class { fields, methods }) => c matches Callee::Class(f, m) && f@
                    == fields && m@ == methods,
                Some(ObjectModel::Native(nf)) => c == Callee::Native(nf),
                Some(ObjectModel::Instance(_)) => c is Instance,
                _ => c is Other,
            },
    {
        match vm.get(self) {
            Some(PettyObjectType::Function(func)) => Callee::Function(
                share(&func.args),
                share(&func.block),
                copy_handles(&func.scopes),
            ),
            Some(PettyObjectType::Class(class)) => Callee::Class(
                share(&class.fields),
                share(&class.methods),
            ),
            Some(PettyObjectType::Native(f)) => Callee::Native(f.0),
            Some(PettyObjectType::Instance(_)) => Callee::Instance,
            _ => Callee::Other,
        }
    }

    /// Invocation: calls this object with `args`.
    pub fn call(self, vm: &mut Vm, args: &Vec<PettyObject>, depth: usize) -> (r: Result<
        PettyObject,
        RuntimeError,
    >)
        requires
            old(vm).wf(),
        ensures
            final(vm).wf(),
            steps_to(old(vm)@, r, final(vm)@, call(old(vm)@, self, args@, depth as nat)),
        decreases depth, 0nat, 0nat,
    {
        match self.callee(vm) {
            Callee::Function(params, body, captured) => {
                let p: &Vec<String> = &params;
                let b: &Vec<Node> = &body;
                if p.len() != args.len() {
                    return Err(RuntimeError::ArityMismatch);
                }
                if depth == 0 {
                    return Err(RuntimeError::RecursionLimit);
                }
                assert(vm@.closed(vm@.heap[self.0 as int]));
                vm.enter(&captured);
                let ghost entered = vm@;
                vm.bind_params(p, args);
                proof {
                    lemma_bind_params_scopes(entered, p@, args@, 0);
                }
                match vm.execute_nodes(b, depth - 1) {
                    Err(e) => Err(e),
                    Ok(_) => {
                        assert(vm@.scopes =~= (old(vm)@.scopes + captured@).push(
                            old(vm)@.next_object(),
                        ));
                        let r = vm.leave(captured.len());
                        assert(vm@.scopes =~= old(vm)@.scopes);
                        Ok(r)
                    },
                }
            },
            Callee::Class(fields, methods) => {
                let f: &Vec<String> = &fields;
                let m: &Vec<Node> = &methods;
                if f.len() != args.len() {
                    return Err(RuntimeError::ArityMismatch);
                }
                vm.instantiate(f, m, args)
            },
            Callee::Native(nf) => {
                match nf.arity() {
                    Some(n) => {
                        if n != args.len() {
                            return Err(RuntimeError::ArityMismatch);
                        }
                    },
                    None => {},
                }
                if depth == 0 {
                    return Err(RuntimeError::RecursionLimit);
                }
                vm.call_native(nf, args, depth - 1)
            },
            Callee::Instance => {
                match self.get_item(vm, "__call__") {
                    Err(e) => Err(e),
                    Ok(g) => {
                        if depth == 0 {
                            return Err(RuntimeError::RecursionLimit);
                        }
                        let items = with_receiver(self, args);
                        g.call(vm, &items, depth - 1)
                    },
                }
            },
            Callee::Other => Err(RuntimeError::CapabilityMismatch),
        }
    }

    /// A method call: looks the method up on this object and calls it with
    /// this object as the first argument, before `args`.
    pub fn call_method(self, vm: &mut Vm, func: &str, args: &Vec<PettyObject>, depth: usize) -> (r:
        Result<PettyObject, RuntimeError>)
        requires
            old(vm).wf(),
        ensures
            final(vm).wf(),
            steps_to(
                old(vm)@,
                r,
                final(vm)@,
                call_method(old(vm)@, self, func@, args@, depth as nat),
            ),
        decreases depth, 1nat, 0nat,
    {
        match self.get_item(vm, func) {
            Err(e) => Err(e),
            Ok(f) => {
                let items = with_receiver(self, args);
                f.call(vm, &items, depth)
            },
        }
    }

    /// Puts an object into the arena of a machine and gives its handle.
    pub fn new(vm: &mut Vm, object: PettyObjectType) -> (o: PettyObject)
        requires
            old(vm).wf(),
            old(vm)@.closed(object@),
        ensures
            final(vm).wf(),
            o == old(vm)@.next_object(),
            final(vm)@ == old(vm)@.allocate(object@),
            old(vm)@.carried_to(final(vm)@),
    {
        vm.allocate(object)
    }

    /// What the `__repr__` method of this object gives, if it is a string.
    #[inline]
    pub fn repr(self, vm: &mut Vm, depth: usize) -> (r: Result<Option<String>, RuntimeError>)
        requires
            old(vm).wf(),
        ensures
            final(vm).wf(),
            old(vm)@.carried_to(final(vm)@),
            match call_method(old(vm)@, self, "__repr__"@, Seq::empty(), depth as nat) {
                Err(e) => r is Err && r.unwrap_err() == e,
                Ok((o, st)) => r is Ok && final(vm)@ == st && st.scopes == old(vm)@.scopes
                    && match st.text_of(o) {
                    Some(s) => r.unwrap() is Some && r.unwrap().unwrap()@ == s,
                    None => r.unwrap() is None,
                },
            },
        decreases depth, 1nat, 1nat,
    {
        let none: Vec<PettyObject> = Vec::new();
        assert(none@ =~= Seq::<PettyObject>::empty());
        match self.call_method(vm, "__repr__", &none, depth) {
            Err(e) => Err(e),
            Ok(r) => match vm.as_str(r) {
                Some(s) => Ok(Some(s.0.clone())),
                None => Ok(None),
            },
        }
    }

    /// The text that this object shows itself as.
    #[inline]
    pub fn force_repr(self, vm: &mut Vm, depth: usize) -> (r: Result<String, RuntimeError>)
        requires
            old(vm).wf(),
        ensures
            final(vm).wf(),
            steps_to_text(old(vm)@, r, final(vm)@, repr(old(vm)@, self, depth as nat)),
        decreases depth, 2nat, 0nat,
    {
        match self.repr(vm, depth) {
            Err(e) => Err(e),
            Ok(Some(text)) => Ok(text),
            Ok(None) => Err(RuntimeError::CapabilityMismatch),
        }
    }
}

impl Vm {
    /// Pushes the frames that a function closes over, then one fresh frame.
    pub fn enter(&mut self, captured: &Vec<PettyObject>)
        requires
            old(self).wf(),
            old(self)@.all_frames(captured@),
        ensures
            final(self).wf(),
            final(self)@ == enter(old(self)@, captured@),
            old(self)@.carried_to(final(self)@),
    {
        let mut i: usize = 0;
        while i < captured.len()
            invariant
                i <= captured@.len(),
                self.wf(),
                old(self).wf(),
                self@ == old(self)@.with_scopes(old(self)@.scopes + captured@.take(i as int)),
                old(self)@.all_frames(captured@),
            decreases captured@.len() - i,
        {
            self.scopes.push(captured[i]);
            proof {
                assert(captured@.take(i + 1) =~= captured@.take(i as int).push(captured@[i as int]));
                assert(self@.scopes =~= old(self)@.scopes + captured@.take(i + 1));
                assert(old(self)@.is_frame(captured@[i as int]));
                assert forall|k: int| 0 <= k < self@.scopes.len() implies self@.is_frame(
                    #[trigger] self@.scopes[k],
                ) by {
                    if k < old(self)@.scopes.len() {
                        assert(old(self)@.is_frame(old(self)@.scopes[k]));
                    } else {
                        assert(old(self)@.is_frame(captured@[k - old(self)@.scopes.len()]));
                    }
                }
            }
            i += 1;
        }
        assert(captured@.take(captured@.len() as int) =~= captured@);
        self.new_scope();
    }

    /// Binds each parameter to the argument at its position.
    pub fn bind_params(&mut self, params: &Vec<String>, args: &Vec<PettyObject>)
        requires
            old(self).wf(),
        ensures
            final(self).wf(),
            final(self)@ == bind_params(old(self)@, params@, args@, 0),
            old(self)@.carried_to(final(self)@),
    {
        let mut i: usize = 0;
        while i < params.len() && i < args.len()
            invariant
                self.wf(),
                old(self)@.carried_to(self@),
                bind_params(old(self)@, params@, args@, 0) == bind_params(
                    self@,
                    params@,
                    args@,
                    i as nat,
                ),
            decreases params@.len() - i,
        {
            self.write(params[i].clone(), args[i]);
            i += 1;
        }
    }

    /// Ends a call: gives what the body returned, or the null object, clears
    /// the pending signal, and pops the frame of the call and the `n` frames
    /// that the function closes over.
    pub fn leave(&mut self, n: usize) -> (r: PettyObject)
        requires
            old(self).wf(),
        ensures
            final(self).wf(),
            (r, final(self)@) == leave(old(self)@, n as nat + 1),
            old(self)@.carried_to(final(self)@),
    {
        let ret = match self.signal {
            Signal::Return(v) => v,
            _ => PettyObject(NULL_SLOT),
        };
        self.signal = Signal::Normal;
        let len = self.scopes.len();
        if n < len {
            self.scopes.truncate(len - n - 1);
        } else {
            self.scopes.truncate(0);
        }
        proof {
            let (_, st) = leave(old(self)@, n as nat + 1);
            assert(self@.scopes =~= st.scopes);
            assert forall|k: int| 0 <= k < self@.scopes.len() implies self@.is_frame(
                #[trigger] self@.scopes[k],
            ) by {
                assert(old(self)@.is_frame(old(self)@.scopes[k]));
            }
            assert forall|h: int| 0 <= h < self@.heap.len() implies self@.closed(
                #[trigger] self@.heap[h],
            ) by {
                assert(old(self)@.closed(old(self)@.heap[h]));
            }
        }
        ret
    }

    /// Makes an instance of a class: its table holds the field values and
    /// one fresh closure per method.
    pub fn instantiate(
        &mut self,
        fields: &Vec<String>,
        methods: &Vec<Node>,
        args: &Vec<PettyObject>,
    ) -> (r: Result<PettyObject, RuntimeError>)
        requires
            old(self).wf(),
        ensures
            final(self).wf(),
            steps_to(
                old(self)@,
                r,
                final(self)@,
                instantiate(old(self)@, fields@, methods@, args@),
            ),
    {
        let mut table = Dict::new();
        let mut i: usize = 0;
        while i < fields.len() && i < args.len()
            invariant
                field_table(fields@, args@, 0, Map::empty()) == field_table(
                    fields@,
                    args@,
                    i as nat,
                    table@,
                ),
            decreases fields@.len() - i,
        {
            table.insert(fields[i].clone(), args[i]);
            i += 1;
        }
        let mut j: usize = 0;
        while j < methods.len()
            invariant
                j <= methods@.len(),
                self.wf(),
                self@.scopes == old(self)@.scopes,
                old(self)@.carried_to(self@),
                method_table(
                    old(self)@,
                    methods@,
                    0,
                    field_table(fields@, args@, 0, Map::empty()),
                ) == method_table(self@, methods@, j as nat, table@),
            decreases methods@.len() - j,
        {
            match &methods[j] {
                Node::FuncDef(name, params, body) => {
                    let function = self.closure(share(params), share(body));
                    table.insert(name.clone(), function);
                },
                _ => {
                    return Err(RuntimeError::CapabilityMismatch);
                },
            }
            j += 1;
        }
        Ok(self.allocate(PettyObjectType::Instance(PettyClassInstance::new(table))))
    }

    /// A new function object that closes over the frames in scope.
    pub fn closure(&mut self, args: Arc<Vec<String>>, block: Arc<Vec<Node>>) -> (o: PettyObject)
        requires
            old(self).wf(),
        ensures
            final(self).wf(),
            o == old(self)@.next_object(),
            final(self)@ == old(self)@.allocate(
                ObjectModel::Function { params: args@, body: block@, scopes: old(self)@.scopes },
            ),
            old(self)@.carried_to(final(self)@),
    {
        let scopes = copy_handles(&self.scopes);
        self.allocate(PettyObjectType::Function(PettyFunction::new(args, block, scopes)))
    }

    /// Binds a new function object to a name.
    pub fn func_def(&mut self, name: String, args: Arc<Vec<String>>, block: Arc<Vec<Node>>)
        requires
            old(self).wf(),
        ensures
            final(self).wf(),
            final(self)@ == func_def(old(self)@, name@, args@, block@),
            old(self)@.carried_to(final(self)@),
            final(self)@.scopes == old(self)@.scopes,
    {
        let function = self.closure(args, block);
        self.write(name, function);
    }

    /// Binds a new class object to a name.
    pub fn class_def(&mut self, name: String, fields: Arc<Vec<String>>, methods: Arc<Vec<Node>>)
        requires
            old(self).wf(),
        ensures
            final(self).wf(),
            final(self)@ == class_def(old(self)@, name@, fields@, methods@),
            old(self)@.carried_to(final(self)@),
            final(self)@.scopes == old(self)@.scopes,
    {
        let class = self.allocate(PettyObjectType::Class(PettyClass::new(fields, methods)));
        self.write(name, class);
    }

    /// The truth value of an object.
    pub fn truthy(&mut self, o: PettyObject, depth: usize) -> (r: Result<bool, RuntimeError>)
        requires
            old(self).wf(),
        ensures
            final(self).wf(),
            steps_to(old(self)@, r, final(self)@, truthy(old(self)@, o, depth as nat)),
        decreases depth, 2nat, 0nat,
    {
        let none: Vec<PettyObject> = Vec::new();
        assert(none@ =~= Seq::<PettyObject>::empty());
        match o.call_method(self, "__bool__", &none, depth) {
            Err(e) => Err(e),
            Ok(r) => match self.as_bool(r) {
                Some(b) => Ok(b.0),
                None => Err(RuntimeError::CapabilityMismatch),
            },
        }
    }

    /// Whether two objects are equal.
    pub fn values_equal(&mut self, a: PettyObject, b: PettyObject, depth: usize) -> (r: Result<
        bool,
        RuntimeError,
    >)
        requires
            old(self).wf(),
        ensures
            final(self).wf(),
            steps_to(old(self)@, r, final(self)@, values_equal(old(self)@, a, b, depth as nat)),
        decreases depth, 2nat, 0nat,
    {
        let same = match (self.get(a), self.get(b)) {
            (Some(x), Some(y)) => x.kind() == y.kind(),
            _ => {
                return Err(RuntimeError::CapabilityMismatch);
            },
        };
        if !same {
            return Ok(false);
        }
        let mut other: Vec<PettyObject> = Vec::new();
        other.push(b);
        assert(other@ =~= seq![b]);
        match a.call_method(self, "__is_eq__", &other, depth) {
            Err(e) => Err(e),
            Ok(r) => match self.as_bool(r) {
                Some(e) => Ok(e.0),
                None => Err(RuntimeError::CapabilityMismatch),
            },
        }
    }

    /// Executes the statements of a sequence, one after the other, until the
    /// sequence ends or a signal is pending, and gives the signal at the end.
    pub fn execute_nodes(&mut self, nodes: &Vec<Node>, depth: usize) -> (r: Result<
        Signal,
        RuntimeError,
    >)
        requires
            old(self).wf(),
        ensures
            final(self).wf(),
            steps_to(old(self)@, r, final(self)@, exec_nodes(old(self)@, nodes@, 0, depth as nat)),
        decreases depth, 3nat, nodes@.len(),
    {
        let mut i: usize = 0;
        while i < nodes.len() && self.signal == Signal::Normal
            invariant
                i <= nodes@.len(),
                self.wf(),
                self@.scopes == old(self)@.scopes,
                old(self)@.carried_to(self@),
                exec_nodes(old(self)@, nodes@, 0, depth as nat) == exec_nodes(
                    self@,
                    nodes@,
                    i as nat,
                    depth as nat,
                ),
            decreases nodes@.len() - i,
        {
            match self.evaluate(&nodes[i], depth) {
                Err(e) => {
                    return Err(e);
                },
                Ok(_) => {},
            }
            i += 1;
        }
        Ok(self.signal)
    }

    /// Evaluates the nodes of a sequence from left to right and appends
    /// their results to `acc`.
    pub fn evaluate_onto(&mut self, items: &Vec<Node>, acc: Vec<PettyObject>, depth: usize) -> (r:
        Result<Vec<PettyObject>, RuntimeError>)
        requires
            old(self).wf(),
        ensures
            final(self).wf(),
            steps_to_seq(
                old(self)@,
                r,
                final(self)@,
                eval_list(old(self)@, items@, 0, acc@, depth as nat),
            ),
        decreases depth, 3nat, items@.len(),
    {
        let mut out = acc;
        let mut i: usize = 0;
        while i < items.len()
            invariant
                i <= items@.len(),
                self.wf(),
                self@.scopes == old(self)@.scopes,
                old(self)@.carried_to(self@),
                eval_list(old(self)@, items@, 0, acc@, depth as nat) == eval_list(
                    self@,
                    items@,
                    i as nat,
                    out@,
                    depth as nat,
                ),
            decreases items@.len() - i,
        {
            match self.evaluate(&items[i], depth) {
                Err(e) => {
                    return Err(e);
                },
                Ok(v) => {
                    out.push(v);
                },
            }
            i += 1;
        }
        Ok(out)
    }

    /// Evaluates the nodes of a sequence from left to right.
    pub fn evaluate_list(&mut self, items: &Vec<Node>, depth: usize) -> (r: Result<
        Vec<PettyObject>,
        RuntimeError,
    >)
        requires
            old(self).wf(),
        ensures
            final(self).wf(),
            steps_to_seq(
                old(self)@,
                r,
                final(self)@,
                eval_list(old(self)@, items@, 0, Seq::empty(), depth as nat),
            ),
        decreases depth, 4nat, 0nat,
    {
        let acc: Vec<PettyObject> = Vec::new();
        assert(acc@ =~= Seq::<PettyObject>::empty());
        self.evaluate_onto(items, acc, depth)
    }

    /// Runs a `while` loop.
    pub fn while_loop(&mut self, condition: &Node, block: &Vec<Node>, depth: usize) -> (r: Result<
        (),
        RuntimeError,
    >)
        requires
            old(self).wf(),
        ensures
            final(self).wf(),
            steps_to(
                old(self)@,
                r,
                final(self)@,
                while_rounds(old(self)@, *condition, block@, old(self)@.loop_limit as nat, depth as nat),
            ),
        decreases depth, 4nat, old(self).loop_limit,
    {
        let mut rounds: usize = self.loop_limit;
        loop
            invariant
                self.wf(),
                self@.scopes == old(self)@.scopes,
                old(self)@.carried_to(self@),
                while_rounds(
                    old(self)@,
                    *condition,
                    block@,
                    old(self)@.loop_limit as nat,
                    depth as nat,
                ) == while_rounds(self@, *condition, block@, rounds as nat, depth as nat),
            decreases rounds,
        {
            match self.signal {
                Signal::Return(_) => {
                    return Ok(());
                },
                Signal::Break => {
                    let ghost before = *self;
                    self.signal = Signal::Normal;
                    proof {
                        self.lemma_signal_wf(before);
                    }
                    return Ok(());
                },
                Signal::Normal => {},
            }
            if rounds == 0 {
                return Err(RuntimeError::LoopLimit);
            }
            let c = match self.evaluate(condition, depth) {
                Err(e) => {
                    return Err(e);
                },
                Ok(c) => c,
            };
            let b = match self.truthy(c, depth) {
                Err(e) => {
                    return Err(e);
                },
                Ok(b) => b,
            };
            if !b {
                return Ok(());
            }
            match self.execute_nodes(block, depth) {
                Err(e) => {
                    return Err(e);
                },
                Ok(_) => {},
            }
            rounds -= 1;
        }
    }

    /// Runs the rounds of a `for` loop over an iterator whose `__next__`
    /// method was looked up.
    pub fn for_rounds(
        &mut self,
        target: &String,
        it: PettyObject,
        next: PettyObject,
        block: &Vec<Node>,
        depth: usize,
    ) -> (r: Result<(), RuntimeError>)
        requires
            old(self).wf(),
        ensures
            final(self).wf(),
            steps_to(
                old(self)@,
                r,
                final(self)@,
                for_rounds(
                    old(self)@,
                    target@,
                    it,
                    next,
                    block@,
                    old(self)@.loop_limit as nat,
                    depth as nat,
                ),
            ),
        decreases depth, 4nat, old(self).loop_limit,
    {
        let mut rounds: usize = self.loop_limit;
        let mut receiver: Vec<PettyObject> = Vec::new();
        receiver.push(it);
        assert(receiver@ =~= seq![it]);
        loop
            invariant
                self.wf(),
                self@.scopes == old(self)@.scopes,
                old(self)@.carried_to(self@),
                receiver@ == seq![it],
                for_rounds(
                    old(self)@,
                    target@,
                    it,
                    next,
                    block@,
                    old(self)@.loop_limit as nat,
                    depth as nat,
                ) == for_rounds(self@, target@, it, next, block@, rounds as nat, depth as nat),
            decreases rounds,
        {
            if rounds == 0 {
                return Err(RuntimeError::LoopLimit);
            }
            let item = match next.call(self, &receiver, depth) {
                Err(e) => {
                    return Err(e);
                },
                Ok(item) => item,
            };
            let value = match self.get(item) {
                Some(PettyObjectType::Opt(o)) => {
                    match o.0 {
                        Some(v) => v,
                        None => {
                            return Ok(());
                        },
                    }
                },
                _ => {
                    return Err(RuntimeError::CapabilityMismatch);
                },
            };
            self.write(target.clone(), value);
            match self.execute_nodes(block, depth) {
                Err(e) => {
                    return Err(e);
                },
                Ok(signal) => {
                    match signal {
                        Signal::Normal => {},
                        Signal::Break => {
                            let ghost before = *self;
                            self.signal = Signal::Normal;
                            proof {
                                self.lemma_signal_wf(before);
                            }
                            return Ok(());
                        },
                        Signal::Return(_) => {
                            return Ok(());
                        },
                    }
                },
            }
            rounds -= 1;
        }
    }

    /// Changing the pending signal keeps the invariant.
    pub proof fn lemma_signal_wf(&self, before: Vm)
        requires
            before.wf(),
            self.heap == before.heap,
            self.scopes == before.scopes,
            self.preallocated == before.preallocated,
        ensures
            self.wf(),
    {
        assert forall|k: int| 0 <= k < self@.scopes.len() implies self@.is_frame(
            #[trigger] self@.scopes[k],
        ) by {
            assert(before@.is_frame(before@.scopes[k]));
        }
        assert forall|h: int| 0 <= h < self@.heap.len() implies self@.closed(
            #[trigger] self@.heap[h],
        ) by {
            assert(before@.closed(before@.heap[h]));
        }
    }
}

} // verus!
