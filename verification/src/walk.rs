//! The walk over the syntax tree.

use crate::ast::{BinOp, Literal, Node, UnaryOp};
use crate::error::RuntimeError;
use crate::evaluate::steps_to_seq;
use crate::machine::Vm;
use crate::object::{PettyObject, PettyObjectType, PtyBool, PtyInt, PtyStr};
use crate::semantics::{
    apply_bin_op, bin_expr, create_literal, eval, for_loop, func_call, get_item_index,
    if_statement, member, receiver_args, run, set_item_index, unary_expr,
};
use crate::shared::share;
use crate::state::{steps_to, Signal, INT_COUNT, NULL_SLOT};
use std::sync::Arc;
use vstd::prelude::*;

verus! {

impl Vm {
    /// Applies a binary operator to two objects.
    pub fn apply_bin_op(&mut self, op: BinOp, a: PettyObject, b: PettyObject, depth: usize) -> (r:
        Result<PettyObject, RuntimeError>)
        requires
            old(self).wf(),
        ensures
            final(self).wf(),
            steps_to(old(self)@, r, final(self)@, apply_bin_op(old(self)@, op, a, b, depth as nat)),
        decreases depth, 5nat, 0nat,
    {
        match op {
            BinOp::GetItem => {
                return Err(RuntimeError::CapabilityMismatch);
            },
            BinOp::IsEq => {
                let differ = match (self.get(a), self.get(b)) {
                    (Some(x), Some(y)) => x.kind() != y.kind(),
                    _ => false,
                };
                if differ {
                    return Ok(PtyBool::new(false));
                }
            },
            _ => {},
        }
        let mut other: Vec<PettyObject> = Vec::new();
        other.push(b);
        assert(other@ =~= seq![b]);
        a.call_method(self, op.into_petty_function(), &other, depth)
    }

    /// Evaluates a binary expression: both operands, the left one first,
    /// then the operator.
    pub fn bin_expr(&mut self, op: BinOp, lhs: &Node, rhs: &Node, depth: usize) -> (r: Result<
        PettyObject,
        RuntimeError,
    >)
        requires
            old(self).wf(),
        ensures
            final(self).wf(),
            steps_to(old(self)@, r, final(self)@, bin_expr(old(self)@, op, *lhs, *rhs, depth as nat)),
        decreases depth, 6nat, 0nat,
    {
        let a = match self.evaluate(lhs, depth) {
            Err(e) => {
                return Err(e);
            },
            Ok(a) => a,
        };
        let b = match self.evaluate(rhs, depth) {
            Err(e) => {
                return Err(e);
            },
            Ok(b) => b,
        };
        self.apply_bin_op(op, a, b, depth)
    }

    /// Evaluates a unary expression: the operand, then the operator's
    /// method on it.
    pub fn unary_expr(&mut self, op: UnaryOp, expr: &Node, depth: usize) -> (r: Result<
        PettyObject,
        RuntimeError,
    >)
        requires
            old(self).wf(),
        ensures
            final(self).wf(),
            steps_to(old(self)@, r, final(self)@, unary_expr(old(self)@, op, *expr, depth as nat)),
        decreases depth, 6nat, 0nat,
    {
        let inner = match self.evaluate(expr, depth) {
            Err(e) => {
                return Err(e);
            },
            Ok(v) => v,
        };
        match op {
            UnaryOp::Plus => Err(RuntimeError::UnresolvedName),
            _ => {
                let none: Vec<PettyObject> = Vec::new();
                assert(none@ =~= Seq::<PettyObject>::empty());
                inner.call_method(self, op.into_petty_function(), &none, depth)
            },
        }
    }

    /// Evaluates a member access: an attribute fetch where the right side
    /// is a name, a method call where it is a call.
    pub fn get_item(&mut self, left: &Node, right: &Node, depth: usize) -> (r: Result<
        PettyObject,
        RuntimeError,
    >)
        requires
            old(self).wf(),
        ensures
            final(self).wf(),
            steps_to(old(self)@, r, final(self)@, member(old(self)@, *left, *right, depth as nat)),
        decreases depth, 6nat, 0nat,
    {
        let recv = match self.evaluate(left, depth) {
            Err(e) => {
                return Err(e);
            },
            Ok(v) => v,
        };
        match right {
            Node::Ident(ident) => recv.get_item(self, ident.as_str()),
            Node::FuncCall(name, args) => {
                let function = match recv.get_item(self, name.as_str()) {
                    Err(e) => {
                        return Err(e);
                    },
                    Ok(f) => f,
                };
                let mut items: Vec<PettyObject> = Vec::new();
                let is_module = match self.get(recv) {
                    Some(PettyObjectType::Module(_)) => true,
                    _ => false,
                };
                if !is_module {
                    items.push(recv);
                }
                assert(items@ =~= receiver_args(self@, recv));
                let nodes: &Vec<Node> = args;
                match self.evaluate_onto(nodes, items, depth) {
                    Err(e) => Err(e),
                    Ok(items) => function.call(self, &items, depth),
                }
            },
            _ => Err(RuntimeError::CapabilityMismatch),
        }
    }

    /// Evaluates a call by name.
    pub fn func_call(&mut self, name: &str, args: &Vec<Node>, depth: usize) -> (r: Result<
        PettyObject,
        RuntimeError,
    >)
        requires
            old(self).wf(),
        ensures
            final(self).wf(),
            steps_to(old(self)@, r, final(self)@, func_call(old(self)@, name@, args@, depth as nat)),
        decreases depth, 6nat, 0nat,
    {
        let function = match self.read(name) {
            Err(e) => {
                return Err(e);
            },
            Ok(f) => f,
        };
        match self.evaluate_list(args, depth) {
            Err(e) => Err(e),
            Ok(items) => function.call(self, &items, depth),
        }
    }

    /// Evaluates a literal.
    pub fn create_literal(&mut self, literal: &Literal, depth: usize) -> (r: Result<
        PettyObject,
        RuntimeError,
    >)
        requires
            old(self).wf(),
        ensures
            final(self).wf(),
            steps_to(old(self)@, r, final(self)@, create_literal(old(self)@, *literal, depth as nat)),
        decreases depth, 6nat, 0nat,
    {
        match literal {
            Literal::Int(i) => {
                if 0 <= *i && *i < INT_COUNT as i128 {
                    match self.preallocated.get(*i as usize) {
                        Some(o) => Ok(o),
                        None => Err(RuntimeError::CapabilityMismatch),
                    }
                } else {
                    Ok(self.allocate(PettyObjectType::Int(PtyInt(*i))))
                }
            },
            Literal::Float(_) => Err(RuntimeError::NumericDomain),
            Literal::Null => Ok(PettyObject(NULL_SLOT)),
            Literal::Bool(b) => Ok(PtyBool::new(*b)),
            Literal::String(s) => self.new_str(PtyStr(s.clone())),
            Literal::List(list) => {
                let nodes: &Vec<Node> = list;
                match self.evaluate_list(nodes, depth) {
                    Err(e) => Err(e),
                    Ok(items) => self.new_list(items),
                }
            },
        }
    }

    /// Evaluates a conditional.
    pub fn if_statement(
        &mut self,
        condition: &Node,
        block: &Vec<Node>,
        or_else: &Option<Arc<Node>>,
        depth: usize,
    ) -> (r: Result<PettyObject, RuntimeError>)
        requires
            old(self).wf(),
        ensures
            final(self).wf(),
            steps_to(
                old(self)@,
                r,
                final(self)@,
                if_statement(old(self)@, *condition, block@, *or_else, depth as nat),
            ),
        decreases depth, 6nat, 0nat,
    {
        let c = match self.evaluate(condition, depth) {
            Err(e) => {
                return Err(e);
            },
            Ok(c) => c,
        };
        let b = match self.truthy(c, depth) {
            Err(e) => {
                return Err(e);
            },
            Ok(b) => b,
        };
        if b {
            match self.execute_nodes(block, depth) {
                Err(e) => Err(e),
                Ok(_) => Ok(PettyObject(NULL_SLOT)),
            }
        } else {
            match or_else {
                Some(node) => {
                    let n: &Node = node;
                    match self.evaluate(n, depth) {
                        Err(e) => Err(e),
                        Ok(_) => Ok(PettyObject(NULL_SLOT)),
                    }
                },
                None => Ok(PettyObject(NULL_SLOT)),
            }
        }
    }

    /// Evaluates a `for` loop.
    pub fn for_loop(&mut self, target: &String, iter: &Node, block: &Vec<Node>, depth: usize) -> (r:
        Result<PettyObject, RuntimeError>)
        requires
            old(self).wf(),
        ensures
            final(self).wf(),
            steps_to(
                old(self)@,
                r,
                final(self)@,
                for_loop(old(self)@, target@, *iter, block@, depth as nat),
            ),
        decreases depth, 6nat, 0nat,
    {
        let source = match self.evaluate(iter, depth) {
            Err(e) => {
                return Err(e);
            },
            Ok(v) => v,
        };
        let none: Vec<PettyObject> = Vec::new();
        assert(none@ =~= Seq::<PettyObject>::empty());
        let it = match source.call_method(self, "__iter__", &none, depth) {
            Err(e) => {
                return Err(e);
            },
            Ok(v) => v,
        };
        let next = match it.get_item(self, "__next__") {
            Err(e) => {
                return Err(e);
            },
            Ok(v) => v,
        };
        match self.for_rounds(target, it, next, block, depth) {
            Err(e) => Err(e),
            Ok(_) => Ok(PettyObject(NULL_SLOT)),
        }
    }

    /// Evaluates the reading of an item by index.
    pub fn get_item_index(&mut self, ident: &String, expr: &Node, depth: usize) -> (r: Result<
        PettyObject,
        RuntimeError,
    >)
        requires
            old(self).wf(),
        ensures
            final(self).wf(),
            steps_to(
                old(self)@,
                r,
                final(self)@,
                get_item_index(old(self)@, ident@, *expr, depth as nat),
            ),
        decreases depth, 6nat, 0nat,
    {
        let value = match self.evaluate(expr, depth) {
            Err(e) => {
                return Err(e);
            },
            Ok(v) => v,
        };
        let object = match self.read(ident.as_str()) {
            Err(e) => {
                return Err(e);
            },
            Ok(o) => o,
        };
        let mut rest: Vec<PettyObject> = Vec::new();
        rest.push(value);
        assert(rest@ =~= seq![value]);
        object.call_method(self, "__get_index__", &rest, depth)
    }

    /// Evaluates the writing of an item by index.
    pub fn set_item_index(&mut self, ident: &String, index: &Node, expr: &Node, depth: usize) -> (r:
        Result<PettyObject, RuntimeError>)
        requires
            old(self).wf(),
        ensures
            final(self).wf(),
            steps_to(
                old(self)@,
                r,
                final(self)@,
                set_item_index(old(self)@, ident@, *index, *expr, depth as nat),
            ),
        decreases depth, 6nat, 0nat,
    {
        let i = match self.evaluate(index, depth) {
            Err(e) => {
                return Err(e);
            },
            Ok(v) => v,
        };
        let value = match self.evaluate(expr, depth) {
            Err(e) => {
                return Err(e);
            },
            Ok(v) => v,
        };
        let object = match self.read(ident.as_str()) {
            Err(e) => {
                return Err(e);
            },
            Ok(o) => o,
        };
        let mut rest: Vec<PettyObject> = Vec::new();
        rest.push(i);
        rest.push(value);
        assert(rest@ =~= seq![i, value]);
        match object.call_method(self, "__set_index__", &rest, depth) {
            Err(e) => Err(e),
            Ok(_) => Ok(PettyObject(NULL_SLOT)),
        }
    }

    /// Evaluates an assignment: the right side, then the binding of the
    /// name in the innermost frame.
    pub fn set_eq(&mut self, name: String, expr: &Node, depth: usize) -> (r: Result<
        PettyObject,
        RuntimeError,
    >)
        requires
            old(self).wf(),
        ensures
            final(self).wf(),
            steps_to(old(self)@, r, final(self)@, match eval(old(self)@, *expr, depth as nat) {
                Err(e) => Err(e),
                Ok((v, st1)) => Ok((crate::state::null_object(), st1.write(name@, v))),
            }),
        decreases depth, 6nat, 0nat,
    {
        match self.evaluate(expr, depth) {
            Err(e) => Err(e),
            Ok(value) => {
                self.write(name, value);
                Ok(PettyObject(NULL_SLOT))
            },
        }
    }

    /// Evaluates a node.
    pub fn evaluate(&mut self, node: &Node, depth: usize) -> (r: Result<PettyObject, RuntimeError>)
        requires
            old(self).wf(),
        ensures
            final(self).wf(),
            steps_to(old(self)@, r, final(self)@, eval(old(self)@, *node, depth as nat)),
        decreases depth, 0nat, 0nat,
    {
        if depth == 0 {
            return Err(RuntimeError::RecursionLimit);
        }
        let d = depth - 1;
        match node {
            Node::Globals(nodes) | Node::Block(nodes) => {
                let items: &Vec<Node> = nodes;
                match self.execute_nodes(items, d) {
                    Err(e) => Err(e),
                    Ok(_) => Ok(PettyObject(NULL_SLOT)),
                }
            },
            Node::SetEq(name, expr) => {
                let e: &Node = expr;
                self.set_eq(name.clone(), e, d)
            },
            Node::BinExpr(op, nodes) => {
                let pair: &(Node, Node) = nodes;
                match op {
                    BinOp::GetItem => self.get_item(&pair.0, &pair.1, d),
                    _ => self.bin_expr(*op, &pair.0, &pair.1, d),
                }
            },
            Node::Literal(literal) => self.create_literal(literal, d),
            Node::Ident(ident) => self.read(ident.as_str()),
            Node::FuncCall(name, args) => {
                let items: &Vec<Node> = args;
                self.func_call(name.as_str(), items, d)
            },
            Node::FuncDef(name, args, block) => {
                self.func_def(name.clone(), share(args), share(block));
                Ok(PettyObject(NULL_SLOT))
            },
            Node::ReturnState(expr) => {
                let e: &Node = expr;
                match self.evaluate(e, d) {
                    Err(e) => Err(e),
                    Ok(v) => {
                        let ghost before = *self;
                        self.signal = Signal::Return(v);
                        proof {
                            self.lemma_signal_wf(before);
                        }
                        Ok(PettyObject(NULL_SLOT))
                    },
                }
            },
            Node::BreakState => {
                self.signal = Signal::Break;
                proof {
                    self.lemma_signal_wf(*old(self));
                }
                Ok(PettyObject(NULL_SLOT))
            },
            Node::UnaryOp(op, expr) => {
                let e: &Node = expr;
                self.unary_expr(*op, e, d)
            },
            Node::IfState(condition, block, or_else) => {
                let c: &Node = condition;
                let b: &Vec<Node> = block;
                self.if_statement(c, b, or_else, d)
            },
            Node::WhileLoop(condition, block) => {
                let c: &Node = condition;
                let b: &Vec<Node> = block;
                match self.while_loop(c, b, d) {
                    Err(e) => Err(e),
                    Ok(_) => Ok(PettyObject(NULL_SLOT)),
                }
            },
            Node::ForLoop(target, iter, block) => {
                let i: &Node = iter;
                let b: &Vec<Node> = block;
                self.for_loop(target, i, b, d)
            },
            Node::ClassDef(name, fields, methods) => {
                self.class_def(name.clone(), share(fields), share(methods));
                Ok(PettyObject(NULL_SLOT))
            },
            Node::Closure(params, body) => Ok(self.closure(share(params), share(body))),
            Node::GetItemIndex(ident, expr) => {
                let e: &Node = expr;
                self.get_item_index(ident, e, d)
            },
            Node::SetItemIndex(ident, index, expr) => {
                let i: &Node = index;
                let e: &Node = expr;
                self.set_item_index(ident, i, e, d)
            },
            Node::Empty => Ok(PettyObject(NULL_SLOT)),
        }
    }

    /// Runs a program with the machine's depth budget: a block gives one
    /// object per statement, any other node its one object.
    pub fn run(&mut self, tree: &Node) -> (r: Result<Vec<PettyObject>, RuntimeError>)
        requires
            old(self).wf(),
        ensures
            final(self).wf(),
            steps_to_seq(
                old(self)@,
                r,
                final(self)@,
                run(old(self)@, *tree, old(self).depth_limit as nat),
            ),
    {
        let depth = self.depth_limit;
        match tree {
            Node::Block(nodes) | Node::Globals(nodes) => {
                let items: &Vec<Node> = nodes;
                self.evaluate_list(items, depth)
            },
            node => {
                match self.evaluate(node, depth) {
                    Err(e) => Err(e),
                    Ok(v) => {
                        let mut out: Vec<PettyObject> = Vec::new();
                        out.push(v);
                        assert(out@ =~= seq![v]);
                        Ok(out)
                    },
                }
            },
        }
    }
}

} // verus!
