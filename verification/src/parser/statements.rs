//! The parsers of statements.

use crate::ast::Node;
use crate::parser::bin_expr::{
    node_expr, node_parsed, nodes_parsed, null_node, return_node, too_deep_at,
};
use crate::parser::grammar;
use crate::parser::lexer::{chars_of, keyword_name, mismatch_at, sp_ident, spar, Fault, Span};
use crate::parser::tree::{lemma_represents_push, represents, represents_all, Tree};
use crate::parser::values::params_in;
use crate::parser::{block, DEFAULT_PARSE_DEPTH};
use std::sync::Arc;
use vstd::prelude::*;

verus! {

/// Makes a fault fatal.
pub fn cut_fault(f: Fault) -> (r: Fault)
    ensures
        r == (Fault { fatal: true, ..f }),
{
    Fault { fatal: true, kind: f.kind, at: f.at }
}

/// Parses a statement.
#[verifier::rlimit(40)]
pub fn statement_at(chars: &Vec<char>, span: Span, depth: usize) -> (r: Result<(Node, Span), Fault>)
    requires
        span.wf(chars@),
    ensures
        node_parsed(r, grammar::statement(chars@, span, depth as nat)),
        r is Ok ==> r.unwrap().1.wf(chars@),
    decreases depth, 38nat, 0nat,
{
    match if_statement(chars, span, depth) {
        Ok(v) => {
            return Ok(v);
        },
        Err(f) => {
            if f.fatal {
                return Err(f);
            }
        },
    }
    match while_statement(chars, span, depth) {
        Ok(v) => {
            return Ok(v);
        },
        Err(f) => {
            if f.fatal {
                return Err(f);
            }
        },
    }
    match for_loop(chars, span, depth) {
        Ok(v) => {
            return Ok(v);
        },
        Err(f) => {
            if f.fatal {
                return Err(f);
            }
        },
    }
    match break_statement(chars, span) {
        Ok(v) => {
            return Ok(v);
        },
        Err(f) => {
            if f.fatal {
                return Err(f);
            }
        },
    }
    match return_statement(chars, span, depth) {
        Ok(v) => {
            return Ok(v);
        },
        Err(f) => {
            if f.fatal {
                return Err(f);
            }
        },
    }
    match function_def(chars, span, depth) {
        Ok(v) => {
            return Ok(v);
        },
        Err(f) => {
            if f.fatal {
                return Err(f);
            }
        },
    }
    match class_def(chars, span, depth) {
        Ok(v) => Ok(v),
        Err(f) => {
            if f.fatal {
                Err(f)
            } else {
                Err(mismatch_at(span))
            }
        },
    }
}

/// Parses a conditional that starts with `if`.
pub fn if_statement(chars: &Vec<char>, span: Span, depth: usize) -> (r: Result<(Node, Span), Fault>)
    requires
        span.wf(chars@),
    ensures
        node_parsed(r, grammar::if_segment(chars@, span, "if"@, depth as nat)),
        r is Ok ==> r.unwrap().1.wf(chars@),
    decreases depth, 37nat, 1nat,
{
    if_segment(chars, span, "if", depth)
}

/// Parses a conditional behind its keyword, `if` or `elif`.
#[verifier::rlimit(40)]
pub fn if_segment(chars: &Vec<char>, span: Span, keyword: &str, depth: usize) -> (r: Result<
    (Node, Span),
    Fault,
>)
    requires
        span.wf(chars@),
    ensures
        node_parsed(r, grammar::if_segment(chars@, span, keyword@, depth as nat)),
        r is Ok ==> r.unwrap().1.wf(chars@),
    decreases depth, 37nat, 0nat,
{
    let s1 = match keyword_name(chars, span, keyword) {
        Err(f) => {
            return Err(f);
        },
        Ok((_, s1)) => s1,
    };
    let (condition, s2) = match node_expr(chars, s1, depth) {
        Err(f) => {
            return Err(cut_fault(f));
        },
        Ok(v) => v,
    };
    let (body, s3) = match block(chars, s2, depth) {
        Err(f) => {
            return Err(cut_fault(f));
        },
        Ok(v) => v,
    };
    match or_else_segment(chars, s3, depth) {
        Ok((alternative, s4)) => Ok(
            (Node::IfState(Arc::new(condition), Arc::new(body), Some(Arc::new(alternative))), s4),
        ),
        Err(f) => {
            if f.fatal {
                Err(f)
            } else {
                Ok((Node::IfState(Arc::new(condition), Arc::new(body), None), s3))
            }
        },
    }
}

/// Parses the alternative of a conditional.
pub fn or_else_segment(chars: &Vec<char>, span: Span, depth: usize) -> (r: Result<
    (Node, Span),
    Fault,
>)
    requires
        span.wf(chars@),
    ensures
        node_parsed(r, grammar::or_else_segment(chars@, span, depth as nat)),
        r is Ok ==> r.unwrap().1.wf(chars@),
    decreases depth, 36nat, 0nat,
{
    let chained = if depth == 0 {
        match keyword_name(chars, span, "elif") {
            Err(f) => Err(f),
            Ok((_, rest)) => Err(too_deep_at(rest)),
        }
    } else {
        if_segment(chars, span, "elif", depth - 1)
    };
    match chained {
        Ok(v) => {
            return Ok(v);
        },
        Err(f) => {
            if f.fatal {
                return Err(f);
            }
        },
    }
    let s1 = match keyword_name(chars, span, "else") {
        Err(_) => {
            return Err(mismatch_at(span));
        },
        Ok((_, s1)) => s1,
    };
    match block(chars, s1, depth) {
        Err(f) => {
            if f.fatal {
                Err(f)
            } else {
                Err(mismatch_at(span))
            }
        },
        Ok((body, s2)) => Ok((Node::Block(Arc::new(body)), s2)),
    }
}

/// Parses a `while` loop.
pub fn while_statement(chars: &Vec<char>, span: Span, depth: usize) -> (r: Result<
    (Node, Span),
    Fault,
>)
    requires
        span.wf(chars@),
    ensures
        node_parsed(r, grammar::while_statement(chars@, span, depth as nat)),
        r is Ok ==> r.unwrap().1.wf(chars@),
    decreases depth, 35nat, 0nat,
{
    let s1 = match keyword_name(chars, span, "while") {
        Err(f) => {
            return Err(f);
        },
        Ok((_, s1)) => s1,
    };
    let (condition, s2) = match node_expr(chars, s1, depth) {
        Err(f) => {
            return Err(cut_fault(f));
        },
        Ok(v) => v,
    };
    match block(chars, s2, depth) {
        Err(f) => Err(cut_fault(f)),
        Ok((body, s3)) => Ok((Node::WhileLoop(Arc::new(condition), Arc::new(body)), s3)),
    }
}

/// Parses a `for` loop.
#[verifier::rlimit(40)]
pub fn for_loop(chars: &Vec<char>, span: Span, depth: usize) -> (r: Result<(Node, Span), Fault>)
    requires
        span.wf(chars@),
    ensures
        node_parsed(r, grammar::for_statement(chars@, span, depth as nat)),
        r is Ok ==> r.unwrap().1.wf(chars@),
    decreases depth, 35nat, 0nat,
{
    let s1 = match keyword_name(chars, span, "for") {
        Err(f) => {
            return Err(f);
        },
        Ok((_, s1)) => s1,
    };
    let (target, s2) = match sp_ident(chars, s1) {
        Err(f) => {
            return Err(cut_fault(f));
        },
        Ok(v) => v,
    };
    let s3 = match spar(chars, s2, ':') {
        Err(f) => {
            return Err(cut_fault(f));
        },
        Ok((_, s3)) => s3,
    };
    let (source, s4) = match node_expr(chars, s3, depth) {
        Err(f) => {
            return Err(cut_fault(f));
        },
        Ok(v) => v,
    };
    match block(chars, s4, depth) {
        Err(f) => Err(cut_fault(f)),
        Ok((body, s5)) => Ok((Node::ForLoop(target, Arc::new(source), Arc::new(body)), s5)),
    }
}

/// Parses a `break`.
pub fn break_statement(chars: &Vec<char>, span: Span) -> (r: Result<(Node, Span), Fault>)
    requires
        span.wf(chars@),
    ensures
        node_parsed(r, grammar::break_statement(chars@, span)),
        r is Ok ==> r.unwrap().1.wf(chars@),
{
    let s1 = match keyword_name(chars, span, "break") {
        Err(f) => {
            return Err(f);
        },
        Ok((_, s1)) => s1,
    };
    match spar(chars, s1, ';') {
        Err(f) => Err(cut_fault(f)),
        Ok((_, s2)) => Ok((Node::BreakState, s2)),
    }
}

/// Parses a `return`.
#[verifier::rlimit(40)]
pub fn return_statement(chars: &Vec<char>, span: Span, depth: usize) -> (r: Result<
    (Node, Span),
    Fault,
>)
    requires
        span.wf(chars@),
    ensures
        node_parsed(r, grammar::return_statement(chars@, span, depth as nat)),
        r is Ok ==> r.unwrap().1.wf(chars@),
    decreases depth, 35nat, 0nat,
{
    let s1 = match keyword_name(chars, span, "return") {
        Err(f) => {
            return Err(f);
        },
        Ok((_, s1)) => s1,
    };
    let (value, s2) = match returned(chars, s1, depth) {
        Err(f) => {
            return Err(f);
        },
        Ok(v) => v,
    };
    match spar(chars, s2, ';') {
        Err(f) => Err(cut_fault(f)),
        Ok((_, s3)) => {
            let ghost tree = returned_spec(chars@, s1, depth as nat).unwrap().0;
            Ok((return_node(value, Ghost(tree)), s3))
        },
    }
}

/// What a `return` gives: the expression behind a space or a line break,
/// if there is one, else the null literal.
pub open spec fn returned_spec(chars: Seq<char>, s1: Span, depth: nat) -> crate::parser::lexer::Parse<
    Tree,
> {
    if s1.pos < s1.end <= chars.len() && (chars[s1.pos as int] == ' ' || chars[s1.pos as int]
        == '\n') {
        match grammar::bin_expr(chars, s1.skip(1), depth) {
            Ok(v) => Ok(v),
            Err(f) => if f.fatal {
                Err(f)
            } else {
                Ok((Tree::Null, s1))
            },
        }
    } else {
        Ok((Tree::Null, s1))
    }
}

/// Parses what a `return` gives.
pub fn returned(chars: &Vec<char>, s1: Span, depth: usize) -> (r: Result<(Node, Span), Fault>)
    requires
        s1.wf(chars@),
    ensures
        node_parsed(r, returned_spec(chars@, s1, depth as nat)),
        r is Ok ==> r.unwrap().1.wf(chars@),
    decreases depth, 34nat, 0nat,
{
    if s1.pos < s1.end && (chars[s1.pos] == ' ' || chars[s1.pos] == '\n') {
        match node_expr(chars, Span { pos: s1.pos + 1, end: s1.end }, depth) {
            Ok(v) => Ok(v),
            Err(f) => {
                if f.fatal {
                    Err(f)
                } else {
                    Ok((null_node(), s1))
                }
            },
        }
    } else {
        Ok((null_node(), s1))
    }
}

/// Parses the definition of a function.
pub fn function_def(chars: &Vec<char>, span: Span, depth: usize) -> (r: Result<(Node, Span), Fault>)
    requires
        span.wf(chars@),
    ensures
        node_parsed(r, grammar::function_def(chars@, span, depth as nat)),
        r is Ok ==> r.unwrap().1.wf(chars@),
    decreases depth, 34nat, 0nat,
{
    let s1 = match keyword_name(chars, span, "fn") {
        Err(f) => {
            return Err(f);
        },
        Ok((_, s1)) => s1,
    };
    let (name, s2) = match sp_ident(chars, s1) {
        Err(f) => {
            return Err(cut_fault(f));
        },
        Ok(v) => v,
    };
    let (params, s3) = match params_in(chars, s2, '(', ')') {
        Err(f) => {
            return Err(cut_fault(f));
        },
        Ok(v) => v,
    };
    match block(chars, s3, depth) {
        Err(f) => Err(cut_fault(f)),
        Ok((body, s4)) => Ok((Node::FuncDef(name, Arc::new(params), Arc::new(body)), s4)),
    }
}

/// Parses the function definitions of a class body, as many as there are.
pub fn methods(chars: &Vec<char>, span: Span, depth: usize) -> (r: Result<(Vec<Node>, Span), Fault>)
    requires
        span.wf(chars@),
    ensures
        nodes_parsed(r, grammar::methods_from(chars@, span, Seq::empty(), depth as nat)),
        r is Ok ==> r.unwrap().1.wf(chars@),
    decreases depth, 36nat, span.len(),
{
    let mut out: Vec<Node> = Vec::new();
    let mut cur = span;
    let ghost mut trees = Seq::<Tree>::empty();
    loop
        invariant
            cur.wf(chars@),
            represents_all(out@, trees),
            grammar::methods_from(chars@, span, Seq::empty(), depth as nat)
                == grammar::methods_from(chars@, cur, trees, depth as nat),
        decreases cur.len(),
    {
        match function_def(chars, cur, depth) {
            Err(f) => {
                if f.fatal {
                    return Err(f);
                } else {
                    return Ok((out, cur));
                }
            },
            Ok((node, rest)) => {
                if rest.length() < cur.length() {
                    proof {
                        let tree = grammar::function_def(chars@, cur, depth as nat).unwrap().0;
                        lemma_represents_push(out@, trees, node, tree);
                        trees = trees.push(tree);
                    }
                    out.push(node);
                    cur = rest;
                } else {
                    return Err(mismatch_at(cur));
                }
            },
        }
    }
}

/// Parses the definition of a class.
#[verifier::rlimit(40)]
pub fn class_def(chars: &Vec<char>, span: Span, depth: usize) -> (r: Result<(Node, Span), Fault>)
    requires
        span.wf(chars@),
    ensures
        node_parsed(r, grammar::class_def(chars@, span, depth as nat)),
        r is Ok ==> r.unwrap().1.wf(chars@),
    decreases depth, 37nat, 0nat,
{
    let s1 = match keyword_name(chars, span, "class") {
        Err(f) => {
            return Err(f);
        },
        Ok((_, s1)) => s1,
    };
    let (name, s2) = match sp_ident(chars, s1) {
        Err(f) => {
            return Err(cut_fault(f));
        },
        Ok(v) => v,
    };
    let (fields, s3) = match params_in(chars, s2, '(', ')') {
        Err(f) => {
            return Err(cut_fault(f));
        },
        Ok(v) => v,
    };
    match spar(chars, s3, ';') {
        Ok((_, s4)) => {
            let none: Vec<Node> = Vec::new();
            assert(represents_all(none@, Seq::<Tree>::empty()));
            return Ok((Node::ClassDef(name, Arc::new(fields), Arc::new(none)), s4));
        },
        Err(_) => {},
    }
    let s4 = match spar(chars, s3, '{') {
        Err(f) => {
            return Err(cut_fault(f));
        },
        Ok((_, s4)) => s4,
    };
    let (body, s5) = match methods(chars, s4, depth) {
        Err(f) => {
            return Err(cut_fault(f));
        },
        Ok(v) => v,
    };
    match spar(chars, s5, '}') {
        Err(f) => Err(cut_fault(f)),
        Ok((_, s6)) => Ok((Node::ClassDef(name, Arc::new(fields), Arc::new(body)), s6)),
    }
}

/// Parses a statement at the start of a text and gives what is left of the
/// text with it.
pub fn statement(input: &str) -> (r: Result<(Span, Node), Fault>)
    ensures
        match grammar::statement(
            input@,
            Span { pos: 0, end: input@.len() as usize },
            DEFAULT_PARSE_DEPTH as nat,
        ) {
            Ok((tree, rest)) => r is Ok && r.unwrap().0 == rest && represents(r.unwrap().1, tree),
            Err(f) => r is Err && r.unwrap_err() == f,
        },
{
    let chars = chars_of(input);
    match statement_at(&chars, Span { pos: 0, end: chars.len() }, DEFAULT_PARSE_DEPTH) {
        Ok((node, rest)) => Ok((rest, node)),
        Err(f) => Err(f),
    }
}

} // verus!
