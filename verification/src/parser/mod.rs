//! The parser: from the text of a program to its syntax tree.

pub mod bin_expr;
pub mod grammar;
pub mod lexer;
pub mod statements;
pub mod tree;
pub mod values;

use crate::ast::Node;
use crate::error::PettyParseError;
use crate::parser::bin_expr::{
    block_node, indexed, name_result, node_expr, node_parsed, nodes_parsed, too_deep_at,
};
use crate::parser::lexer::{
    chars_of, eat_comments, mismatch_at, spar, type_hinted, Fault, Span,
};
use crate::parser::statements::{cut_fault, statement_at};
use crate::parser::tree::{lemma_represents_push, represents, represents_all, Tree};
use std::sync::Arc;
use vstd::prelude::*;

verus! {

/// How deep the constructs of a program may nest.
pub const DEFAULT_PARSE_DEPTH: usize = 200;

/// Parses a program: nodes, as many as there are, and nothing behind them.
pub fn parse(input: &str) -> (r: Result<Node, Fault>)
    ensures
        match grammar::program(input@, DEFAULT_PARSE_DEPTH as nat) {
            Ok(tree) => r is Ok && represents(r.unwrap(), tree),
            Err(f) => r is Err && r.unwrap_err() == f,
        },
{
    let chars = chars_of(input);
    match nodes(&chars, Span { pos: 0, end: chars.len() }, DEFAULT_PARSE_DEPTH) {
        Err(f) => Err(f),
        Ok((list, rest)) => {
            if rest.length() == 0 {
                Ok(Node::Globals(Arc::new(list)))
            } else {
                Err(mismatch_at(rest))
            }
        },
    }
}

/// Parses nodes, as many as there are.
pub fn nodes(chars: &Vec<char>, span: Span, depth: usize) -> (r: Result<(Vec<Node>, Span), Fault>)
    requires
        span.wf(chars@),
    ensures
        nodes_parsed(r, grammar::nodes_from(chars@, span, Seq::empty(), depth as nat)),
        r is Ok ==> r.unwrap().1.wf(chars@),
    decreases depth, 40nat, span.len(),
{
    let mut out: Vec<Node> = Vec::new();
    let mut cur = span;
    let ghost mut trees = Seq::<Tree>::empty();
    loop
        invariant
            cur.wf(chars@),
            represents_all(out@, trees),
            grammar::nodes_from(chars@, span, Seq::empty(), depth as nat) == grammar::nodes_from(
                chars@,
                cur,
                trees,
                depth as nat,
            ),
        decreases cur.len(),
    {
        match node(chars, cur, depth) {
            Err(f) => {
                if f.fatal {
                    return Err(f);
                } else {
                    return Ok((out, cur));
                }
            },
            Ok((item, rest)) => {
                if rest.length() < cur.length() {
                    proof {
                        let tree = grammar::node(chars@, cur, depth as nat).unwrap().0;
                        lemma_represents_push(out@, trees, item, tree);
                        trees = trees.push(tree);
                    }
                    out.push(item);
                    cur = rest;
                } else {
                    return Err(mismatch_at(cur));
                }
            },
        }
    }
}

/// The node at the start of the input, among the kinds of nodes in their
/// order.
pub open spec fn node_at_spec(chars: Seq<char>, s: Span, depth: nat) -> lexer::Parse<Tree> {
    match grammar::statement(chars, s, depth) {
        Ok(v) => Ok(v),
        Err(f) => if f.fatal {
            Err(f)
        } else {
            match grammar::block(chars, s, depth) {
                Ok((trees, rest)) => Ok((Tree::Block(trees), rest)),
                Err(f) => if f.fatal {
                    Err(f)
                } else {
                    match grammar::terminated_expr(chars, s, depth) {
                        Ok(v) => Ok(v),
                        Err(f) => if f.fatal {
                            Err(f)
                        } else {
                            Err(lexer::mismatch(s))
                        },
                    }
                },
            }
        },
    }
}

/// Parses the node at the start of the input.
#[verifier::rlimit(40)]
pub fn node_at(chars: &Vec<char>, s: Span, depth: usize) -> (r: Result<(Node, Span), Fault>)
    requires
        s.wf(chars@),
    ensures
        node_parsed(r, node_at_spec(chars@, s, depth as nat)),
        r is Ok ==> r.unwrap().1.wf(chars@),
    decreases depth, 38nat, 1nat,
{
    match statement_at(chars, s, depth) {
        Ok(v) => {
            return Ok(v);
        },
        Err(f) => {
            if f.fatal {
                return Err(f);
            }
        },
    }
    match block(chars, s, depth) {
        Ok((body, rest)) => {
            let ghost trees = grammar::block(chars@, s, depth as nat).unwrap().0;
            return Ok((block_node(body, Ghost(trees)), rest));
        },
        Err(f) => {
            if f.fatal {
                return Err(f);
            }
        },
    }
    match terminated_expr(chars, s, depth) {
        Ok(v) => Ok(v),
        Err(f) => {
            if f.fatal {
                Err(f)
            } else {
                Err(mismatch_at(s))
            }
        },
    }
}

/// Parses one node: a statement, a block, or an expression that a
/// semicolon ends.
#[inline]
pub fn node(chars: &Vec<char>, span: Span, depth: usize) -> (r: Result<(Node, Span), Fault>)
    requires
        span.wf(chars@),
    ensures
        node_parsed(r, grammar::node(chars@, span, depth as nat)),
        r is Ok ==> r.unwrap().1.wf(chars@),
    decreases depth, 39nat, 0nat,
{
    let s = eat_comments(chars, span);
    match name_result(node_at(chars, s, depth), PettyParseError::Node, s) {
        Err(f) => Err(f),
        Ok((item, rest)) => Ok((item, eat_comments(chars, rest))),
    }
}

/// The expression at the start of the input and the semicolon behind it.
pub open spec fn ended_expr_spec(chars: Seq<char>, span: Span, depth: nat) -> lexer::Parse<Tree> {
    let expr = match grammar::set_equals(chars, span, depth) {
        Ok(v) => Ok(v),
        Err(f) => if f.fatal {
            Err(f)
        } else {
            match grammar::set_item_index(chars, span, depth) {
                Ok(v) => Ok(v),
                Err(f) => if f.fatal {
                    Err(f)
                } else {
                    match grammar::bin_expr(chars, span, depth) {
                        Ok(v) => Ok(v),
                        Err(f) => if f.fatal {
                            Err(f)
                        } else {
                            Err(lexer::mismatch(span))
                        },
                    }
                },
            }
        },
    };
    match expr {
        Err(f) => Err(f),
        Ok((tree, rest)) => match lexer::cut(lexer::spar_spec(chars, rest, ';')) {
            Err(f) => Err(f),
            Ok((_, after)) => Ok((tree, after)),
        },
    }
}

/// Parses the expression at the start of the input and the semicolon
/// behind it.
#[verifier::rlimit(40)]
pub fn ended_expr(chars: &Vec<char>, span: Span, depth: usize) -> (r: Result<(Node, Span), Fault>)
    requires
        span.wf(chars@),
    ensures
        node_parsed(r, ended_expr_spec(chars@, span, depth as nat)),
        r is Ok ==> r.unwrap().1.wf(chars@),
    decreases depth, 36nat, 0nat,
{
    let mut found: Option<(Node, Span)> = None;
    match set_equals(chars, span, depth) {
        Ok(v) => {
            found = Some(v);
        },
        Err(f) => {
            if f.fatal {
                return Err(f);
            }
        },
    }
    if found.is_none() {
        match set_item_index(chars, span, depth) {
            Ok(v) => {
                found = Some(v);
            },
            Err(f) => {
                if f.fatal {
                    return Err(f);
                }
            },
        }
    }
    if found.is_none() {
        match node_expr(chars, span, depth) {
            Ok(v) => {
                found = Some(v);
            },
            Err(f) => {
                if f.fatal {
                    return Err(f);
                } else {
                    return Err(mismatch_at(span));
                }
            },
        }
    }
    match found {
        None => Err(mismatch_at(span)),
        Some((item, rest)) => match spar(chars, rest, ';') {
            Err(f) => Err(cut_fault(f)),
            Ok((_, after)) => Ok((item, after)),
        },
    }
}

/// Parses an expression that a semicolon ends.
pub fn terminated_expr(chars: &Vec<char>, span: Span, depth: usize) -> (r: Result<
    (Node, Span),
    Fault,
>)
    requires
        span.wf(chars@),
    ensures
        node_parsed(r, grammar::terminated_expr(chars@, span, depth as nat)),
        r is Ok ==> r.unwrap().1.wf(chars@),
    decreases depth, 37nat, 0nat,
{
    name_result(ended_expr(chars, span, depth), PettyParseError::TermExpr, span)
}

/// Parses an assignment.
pub fn set_equals(chars: &Vec<char>, span: Span, depth: usize) -> (r: Result<(Node, Span), Fault>)
    requires
        span.wf(chars@),
    ensures
        node_parsed(r, grammar::set_equals(chars@, span, depth as nat)),
        r is Ok ==> r.unwrap().1.wf(chars@),
    decreases depth, 21nat, 0nat,
{
    let (name, s1) = match type_hinted(chars, span) {
        Err(f) => {
            return Err(f);
        },
        Ok(v) => v,
    };
    let s2 = match spar(chars, s1, '=') {
        Err(f) => {
            return Err(f);
        },
        Ok((_, s2)) => s2,
    };
    match node_expr(chars, s2, depth) {
        Err(f) => Err(f),
        Ok((value, s3)) => Ok((Node::SetEq(name, Arc::new(value)), s3)),
    }
}

/// Parses an assignment to an item.
pub fn set_item_index(chars: &Vec<char>, span: Span, depth: usize) -> (r: Result<
    (Node, Span),
    Fault,
>)
    requires
        span.wf(chars@),
    ensures
        node_parsed(r, grammar::set_item_index(chars@, span, depth as nat)),
        r is Ok ==> r.unwrap().1.wf(chars@),
    decreases depth, 21nat, 0nat,
{
    let ((name, index), s1) = match indexed(chars, span, depth) {
        Err(f) => {
            return Err(f);
        },
        Ok(v) => v,
    };
    let s2 = match spar(chars, s1, '=') {
        Err(f) => {
            return Err(f);
        },
        Ok((_, s2)) => s2,
    };
    match node_expr(chars, s2, depth) {
        Err(f) => Err(f),
        Ok((value, s3)) => Ok((Node::SetItemIndex(name, Arc::new(index), Arc::new(value)), s3)),
    }
}

/// Parses a block: nodes between braces.
pub fn block(chars: &Vec<char>, span: Span, depth: usize) -> (r: Result<(Vec<Node>, Span), Fault>)
    requires
        span.wf(chars@),
    ensures
        nodes_parsed(r, grammar::block(chars@, span, depth as nat)),
        r is Ok ==> r.unwrap().1.wf(chars@),
    decreases depth, 20nat, 0nat,
{
    let inner = match spar(chars, span, '{') {
        Err(f) => {
            return Err(f);
        },
        Ok((_, inner)) => inner,
    };
    if depth == 0 {
        return Err(too_deep_at(inner));
    }
    match nodes(chars, inner, depth - 1) {
        Err(f) => Err(f),
        Ok((body, rest)) => match spar(chars, rest, '}') {
            Err(f) => Err(f),
            Ok((_, after)) => Ok((body, after)),
        },
    }
}

} // verus!
