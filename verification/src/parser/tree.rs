//! The syntax tree as a mathematical value, and what it means for a tree
//! of nodes to stand for it.

use crate::ast::{names, BinOp, Literal, Node, UnaryOp};
use vstd::prelude::*;

verus! {

/// A syntax tree whose names and texts are sequences of characters.
pub enum Tree {
    Int(i128),
    Float(Seq<char>),
    Str(Seq<char>),
    List(Seq<Tree>),
    Null,
    Bool(bool),
    Block(Seq<Tree>),
    Globals(Seq<Tree>),
    Closure(Seq<Seq<char>>, Seq<Tree>),
    BinExpr(BinOp, Box<Tree>, Box<Tree>),
    UnaryOp(UnaryOp, Box<Tree>),
    Ident(Seq<char>),
    FuncCall(Seq<char>, Seq<Tree>),
    IfState(Box<Tree>, Seq<Tree>, Option<Box<Tree>>),
    WhileLoop(Box<Tree>, Seq<Tree>),
    ForLoop(Seq<char>, Box<Tree>, Seq<Tree>),
    ReturnState(Box<Tree>),
    BreakState,
    FuncDef(Seq<char>, Seq<Seq<char>>, Seq<Tree>),
    ClassDef(Seq<char>, Seq<Seq<char>>, Seq<Tree>),
    SetEq(Seq<char>, Box<Tree>),
    GetItemIndex(Seq<char>, Box<Tree>),
    SetItemIndex(Seq<char>, Box<Tree>, Box<Tree>),
}

/// Whether a node stands for a tree: the same shape, the same operators and
/// numbers, and names and texts with the same characters.
pub open spec fn represents(n: Node, t: Tree) -> bool
    decreases t,
{
    match t {
        Tree::Int(i) => n matches Node::Literal(Literal::Int(x)) && x == i,
        Tree::Float(s) => n matches Node::Literal(Literal::Float(x)) && x@ == s,
        Tree::Str(s) => n matches Node::Literal(Literal::String(x)) && x@ == s,
        Tree::List(ts) => n matches Node::Literal(Literal::List(xs)) && represents_all(xs@, ts),
        Tree::Null => n matches Node::Literal(Literal::Null),
        Tree::Bool(b) => n matches Node::Literal(Literal::Bool(x)) && x == b,
        Tree::Block(ts) => n matches Node::Block(xs) && represents_all(xs@, ts),
        Tree::Globals(ts) => n matches Node::Globals(xs) && represents_all(xs@, ts),
        Tree::Closure(ps, ts) => n matches Node::Closure(params, xs) && names(params@) == ps
            && represents_all(xs@, ts),
        Tree::BinExpr(op, a, b) => n matches Node::BinExpr(o, pair) && o == op && represents(
            pair.0,
            *a,
        ) && represents(pair.1, *b),
        Tree::UnaryOp(op, a) => n matches Node::UnaryOp(o, x) && o == op && represents(*x, *a),
        Tree::Ident(s) => n matches Node::Ident(x) && x@ == s,
        Tree::FuncCall(s, ts) => n matches Node::FuncCall(x, xs) && x@ == s && represents_all(
            xs@,
            ts,
        ),
        Tree::IfState(c, ts, e) => n matches Node::IfState(x, xs, y) && represents(*x, *c)
            && represents_all(xs@, ts) && (match e {
            Some(alternative) => y matches Some(z) && represents(*z, *alternative),
            None => y is None,
        }),
        Tree::WhileLoop(c, ts) => n matches Node::WhileLoop(x, xs) && represents(*x, *c)
            && represents_all(xs@, ts),
        Tree::ForLoop(s, c, ts) => n matches Node::ForLoop(x, y, xs) && x@ == s && represents(
            *y,
            *c,
        ) && represents_all(xs@, ts),
        Tree::ReturnState(a) => n matches Node::ReturnState(x) && represents(*x, *a),
        Tree::BreakState => n matches Node::BreakState,
        Tree::FuncDef(s, ps, ts) => n matches Node::FuncDef(x, params, xs) && x@ == s && names(
            params@,
        ) == ps && represents_all(xs@, ts),
        Tree::ClassDef(s, ps, ts) => n matches Node::ClassDef(x, params, xs) && x@ == s && names(
            params@,
        ) == ps && represents_all(xs@, ts),
        Tree::SetEq(s, a) => n matches Node::SetEq(x, y) && x@ == s && represents(*y, *a),
        Tree::GetItemIndex(s, a) => n matches Node::GetItemIndex(x, y) && x@ == s && represents(
            *y,
            *a,
        ),
        Tree::SetItemIndex(s, a, b) => n matches Node::SetItemIndex(x, y, z) && x@ == s
            && represents(*y, *a) && represents(*z, *b),
    }
}

/// Whether the nodes of a sequence stand for the trees of another, one by
/// one.
pub open spec fn represents_all(ns: Seq<Node>, ts: Seq<Tree>) -> bool
    decreases ts,
{
    ns.len() == ts.len() && forall|i: int|
        0 <= i < ts.len() ==> represents(#[trigger] ns[i], ts[i])
}

/// Appending a node that stands for a tree to nodes that stand for trees
/// gives nodes that stand for the trees with that tree appended.
pub proof fn lemma_represents_push(ns: Seq<Node>, ts: Seq<Tree>, n: Node, t: Tree)
    requires
        represents_all(ns, ts),
        represents(n, t),
    ensures
        represents_all(ns.push(n), ts.push(t)),
{
    assert forall|i: int| 0 <= i < ts.push(t).len() implies represents(
        #[trigger] ns.push(n)[i],
        ts.push(t)[i],
    ) by {
        if i < ts.len() {
            assert(represents(ns[i], ts[i]));
        }
    }
}

} // verus!
