//! The parsers of expressions.

use crate::ast::{names, BinOp, Literal, Node, UnaryOp};
use crate::error::PettyParseError;
use crate::parser::grammar;
use crate::parser::grammar::too_deep;
use crate::parser::lexer::{
    chars_of, eat_comments, keyword_name, mismatch_at, name_fault, named_fault, one_char, sp_ident,
    spar, Fault, FaultKind, Parse, Span,
};
use crate::parser::tree::{lemma_represents_push, represents, represents_all, Tree};
use crate::parser::values::{
    binop, boolean, float, integer, optional_comma, params_in, string, unary_op,
};
use crate::parser::{block, DEFAULT_PARSE_DEPTH};
use std::sync::Arc;
use vstd::prelude::*;

verus! {

/// Whether an executed parser that gives a node did what the grammar says.
pub open spec fn node_parsed(r: Result<(Node, Span), Fault>, s: Parse<Tree>) -> bool {
    match s {
        Ok((tree, rest)) => r is Ok && represents(r.unwrap().0, tree) && r.unwrap().1 == rest,
        Err(f) => r is Err && r.unwrap_err() == f,
    }
}

/// Whether an executed parser that gives nodes did what the grammar says.
pub open spec fn nodes_parsed(r: Result<(Vec<Node>, Span), Fault>, s: Parse<Seq<Tree>>) -> bool {
    match s {
        Ok((trees, rest)) => r is Ok && represents_all(r.unwrap().0@, trees) && r.unwrap().1
            == rest,
        Err(f) => r is Err && r.unwrap_err() == f,
    }
}

/// Gives the faults of an outcome their name.
pub fn name_result<T>(r: Result<(T, Span), Fault>, kind: PettyParseError, at: Span) -> (out: Result<
    (T, Span),
    Fault,
>)
    ensures
        out == (match r {
            Ok(v) => Ok::<(T, Span), Fault>(v),
            Err(f) => Err::<(T, Span), Fault>(named_fault(f, kind, at)),
        }),
{
    match r {
        Ok(v) => Ok(v),
        Err(f) => Err(name_fault(f, kind, at)),
    }
}

/// The fault of nesting beyond the depth budget.
pub fn too_deep_at(at: Span) -> (f: Fault)
    ensures
        f == too_deep(at),
{
    Fault { fatal: true, kind: FaultKind::TooDeep, at }
}

/// Parses an expression.
#[inline]
pub fn node_expr(chars: &Vec<char>, span: Span, depth: usize) -> (r: Result<(Node, Span), Fault>)
    requires
        span.wf(chars@),
    ensures
        node_parsed(r, grammar::bin_expr(chars@, span, depth as nat)),
        r is Ok ==> r.unwrap().1.wf(chars@),
    decreases depth, 19nat, 0nat,
{
    name_result(binary(chars, span, 3, depth), PettyParseError::Expr, span)
}

/// Parses an expression of one level of precedence: operands of the next
/// level with operators of this level between them, grouped from the left.
pub fn binary(chars: &Vec<char>, span: Span, level: u8, depth: usize) -> (r: Result<
    (Node, Span),
    Fault,
>)
    requires
        span.wf(chars@),
        level <= 3,
    ensures
        node_parsed(r, grammar::binary(chars@, span, level as nat, depth as nat)),
        r is Ok ==> r.unwrap().1.wf(chars@),
    decreases depth, 12 + 2 * level, 0nat,
{
    let (first, rest) = match operand(chars, span, level, depth) {
        Err(f) => {
            return Err(f);
        },
        Ok(v) => v,
    };
    let mut acc = first;
    let mut cur = rest;
    let ghost mut tree = grammar::operand(chars@, span, level as nat, depth as nat).unwrap().0;
    loop
        invariant
            cur.wf(chars@),
            level <= 3,
            represents(acc, tree),
            grammar::binary(chars@, span, level as nat, depth as nat) == grammar::binary_rest(
                chars@,
                cur,
                level as nat,
                tree,
                depth as nat,
            ),
        decreases cur.len(),
    {
        let (op, s1) = match binop(chars, cur, level) {
            Err(_) => {
                return Ok((acc, cur));
            },
            Ok(v) => v,
        };
        match operand(chars, s1, level, depth) {
            Err(f) => {
                if f.fatal {
                    return Err(f);
                } else {
                    return Ok((acc, cur));
                }
            },
            Ok((rhs, s2)) => {
                if s2.length() < cur.length() {
                    proof {
                        let right = grammar::operand(
                            chars@,
                            s1,
                            level as nat,
                            depth as nat,
                        ).unwrap().0;
                        tree = Tree::BinExpr(op, Box::new(tree), Box::new(right));
                    }
                    acc = Node::BinExpr(op, Arc::new((acc, rhs)));
                    cur = s2;
                } else {
                    return Err(mismatch_at(cur));
                }
            },
        }
    }
}

/// Parses an operand of one level of precedence.
pub fn operand(chars: &Vec<char>, span: Span, level: u8, depth: usize) -> (r: Result<
    (Node, Span),
    Fault,
>)
    requires
        span.wf(chars@),
        level <= 3,
    ensures
        node_parsed(r, grammar::operand(chars@, span, level as nat, depth as nat)),
        r is Ok ==> r.unwrap().1.wf(chars@),
    decreases depth, 10 + 2 * level, 1nat,
{
    if level == 0 {
        get_item(chars, span, depth)
    } else {
        binary(chars, span, level - 1, depth)
    }
}

/// Parses a chain of member accesses.
pub fn get_item(chars: &Vec<char>, span: Span, depth: usize) -> (r: Result<(Node, Span), Fault>)
    requires
        span.wf(chars@),
    ensures
        node_parsed(r, grammar::get_item(chars@, span, depth as nat)),
        r is Ok ==> r.unwrap().1.wf(chars@),
    decreases depth, 10nat, 0nat,
{
    let (first, rest) = match factor(chars, span, depth) {
        Err(f) => {
            return Err(f);
        },
        Ok(v) => v,
    };
    let mut acc = first;
    let mut cur = rest;
    let ghost mut tree = grammar::factor(chars@, span, depth as nat).unwrap().0;
    loop
        invariant
            cur.wf(chars@),
            represents(acc, tree),
            grammar::get_item(chars@, span, depth as nat) == grammar::get_item_rest(
                chars@,
                cur,
                tree,
                depth as nat,
            ),
        decreases cur.len(),
    {
        let s1 = match spar(chars, cur, '.') {
            Err(_) => {
                return Ok((acc, cur));
            },
            Ok((_, s1)) => s1,
        };
        match get_item_suffix(chars, s1, depth) {
            Err(f) => {
                if f.fatal {
                    return Err(f);
                } else {
                    return Ok((acc, cur));
                }
            },
            Ok((rhs, s2)) => {
                if s2.length() < cur.length() {
                    proof {
                        let right = grammar::get_item_suffix(chars@, s1, depth as nat).unwrap().0;
                        tree = Tree::BinExpr(BinOp::GetItem, Box::new(tree), Box::new(right));
                    }
                    acc = Node::BinExpr(BinOp::GetItem, Arc::new((acc, rhs)));
                    cur = s2;
                } else {
                    return Err(mismatch_at(cur));
                }
            },
        }
    }
}

/// Parses what can stand behind a point: a call or a name.
pub fn get_item_suffix(chars: &Vec<char>, span: Span, depth: usize) -> (r: Result<
    (Node, Span),
    Fault,
>)
    requires
        span.wf(chars@),
    ensures
        node_parsed(r, grammar::get_item_suffix(chars@, span, depth as nat)),
        r is Ok ==> r.unwrap().1.wf(chars@),
    decreases depth, 4nat, 0nat,
{
    match function_call(chars, span, depth) {
        Ok(v) => Ok(v),
        Err(f) => {
            if f.fatal {
                Err(f)
            } else {
                match sp_ident(chars, span) {
                    Ok((name, rest)) => Ok((Node::Ident(name), rest)),
                    Err(_) => Err(mismatch_at(span)),
                }
            }
        },
    }
}

/// Parses a factor: an expression between round brackets, a value, or a
/// unary expression.
#[verifier::rlimit(40)]
pub fn factor(chars: &Vec<char>, span: Span, depth: usize) -> (r: Result<(Node, Span), Fault>)
    requires
        span.wf(chars@),
    ensures
        node_parsed(r, grammar::factor(chars@, span, depth as nat)),
        r is Ok ==> r.unwrap().1.wf(chars@),
    decreases depth, 8nat, 0nat,
{
    match paren_bin_expr(chars, span, depth) {
        Ok(v) => {
            return Ok(v);
        },
        Err(f) => {
            if f.fatal {
                return Err(f);
            }
        },
    }
    match node_value(chars, span, depth) {
        Ok(v) => {
            return Ok(v);
        },
        Err(f) => {
            if f.fatal {
                return Err(f);
            }
        },
    }
    match unary_expr(chars, span, depth) {
        Ok(v) => Ok(v),
        Err(f) => {
            if f.fatal {
                Err(f)
            } else {
                Err(mismatch_at(span))
            }
        },
    }
}

/// Parses an expression between round brackets.
pub fn paren_bin_expr(chars: &Vec<char>, span: Span, depth: usize) -> (r: Result<
    (Node, Span),
    Fault,
>)
    requires
        span.wf(chars@),
    ensures
        node_parsed(r, grammar::paren_bin_expr(chars@, span, depth as nat)),
        r is Ok ==> r.unwrap().1.wf(chars@),
    decreases depth, 7nat, 0nat,
{
    let s1 = match spar(chars, span, '(') {
        Err(f) => {
            return Err(f);
        },
        Ok((_, s1)) => s1,
    };
    if depth == 0 {
        return Err(too_deep_at(s1));
    }
    match node_expr(chars, s1, depth - 1) {
        Err(f) => Err(f),
        Ok((node, s2)) => match spar(chars, s2, ')') {
            Err(f) => Err(f),
            Ok((_, s3)) => Ok((node, s3)),
        },
    }
}

/// Parses a value: a unary expression, a plain value, or a closure.
#[verifier::rlimit(40)]
pub fn node_value(chars: &Vec<char>, span: Span, depth: usize) -> (r: Result<(Node, Span), Fault>)
    requires
        span.wf(chars@),
    ensures
        node_parsed(r, grammar::node_value(chars@, span, depth as nat)),
        r is Ok ==> r.unwrap().1.wf(chars@),
    decreases depth, 6nat, 0nat,
{
    match unary_expr(chars, span, depth) {
        Ok(v) => {
            return Ok(v);
        },
        Err(f) => {
            if f.fatal {
                return Err(f);
            }
        },
    }
    match node_value_raw(chars, span, depth) {
        Ok(v) => {
            return Ok(v);
        },
        Err(f) => {
            if f.fatal {
                return Err(f);
            }
        },
    }
    match closure(chars, span, depth) {
        Ok(v) => Ok(v),
        Err(f) => {
            if f.fatal {
                Err(f)
            } else {
                Err(mismatch_at(span))
            }
        },
    }
}

/// Parses a unary expression.
pub fn unary_expr(chars: &Vec<char>, span: Span, depth: usize) -> (r: Result<(Node, Span), Fault>)
    requires
        span.wf(chars@),
    ensures
        node_parsed(r, grammar::unary_expr(chars@, span, depth as nat)),
        r is Ok ==> r.unwrap().1.wf(chars@),
    decreases depth, 5nat, 0nat,
{
    let (op, s1) = match unary_op(chars, span) {
        Err(f) => {
            return Err(f);
        },
        Ok(v) => v,
    };
    if depth == 0 {
        return Err(too_deep_at(s1));
    }
    match node_value(chars, s1, depth - 1) {
        Ok((node, s2)) => {
            return Ok((Node::UnaryOp(op, Arc::new(node)), s2));
        },
        Err(f) => {
            if f.fatal {
                return Err(f);
            }
        },
    }
    match node_expr(chars, s1, depth - 1) {
        Ok((node, s2)) => Ok((Node::UnaryOp(op, Arc::new(node)), s2)),
        Err(f) => {
            if f.fatal {
                Err(f)
            } else {
                Err(mismatch_at(s1))
            }
        },
    }
}

/// Parses a plain value: a literal, a call, an item read by index, or a
/// name.
#[verifier::rlimit(40)]
pub fn node_value_raw(chars: &Vec<char>, span: Span, depth: usize) -> (r: Result<
    (Node, Span),
    Fault,
>)
    requires
        span.wf(chars@),
    ensures
        node_parsed(r, grammar::node_value_raw(chars@, span, depth as nat)),
        r is Ok ==> r.unwrap().1.wf(chars@),
    decreases depth, 4nat, 0nat,
{
    match literal(chars, span, depth) {
        Ok(v) => {
            return Ok(v);
        },
        Err(f) => {
            if f.fatal {
                return Err(f);
            }
        },
    }
    match function_call(chars, span, depth) {
        Ok(v) => {
            return Ok(v);
        },
        Err(f) => {
            if f.fatal {
                return Err(f);
            }
        },
    }
    match indexed(chars, span, depth) {
        Ok(((name, index), rest)) => {
            return Ok((Node::GetItemIndex(name, Arc::new(index)), rest));
        },
        Err(f) => {
            if f.fatal {
                return Err(f);
            }
        },
    }
    match sp_ident(chars, span) {
        Ok((name, rest)) => Ok((Node::Ident(name), rest)),
        Err(_) => Err(mismatch_at(span)),
    }
}

/// Whether an executed parser that gives a name and an index did what the
/// grammar says.
pub open spec fn indexed_parsed(
    r: Result<((String, Node), Span), Fault>,
    s: Parse<(Seq<char>, Tree)>,
) -> bool {
    match s {
        Ok(((name, tree), rest)) => r is Ok && r.unwrap().0.0@ == name && represents(
            r.unwrap().0.1,
            tree,
        ) && r.unwrap().1 == rest,
        Err(f) => r is Err && r.unwrap_err() == f,
    }
}

/// Parses a name and an index between square brackets behind it.
pub fn indexed(chars: &Vec<char>, span: Span, depth: usize) -> (r: Result<
    ((String, Node), Span),
    Fault,
>)
    requires
        span.wf(chars@),
    ensures
        indexed_parsed(r, grammar::indexed(chars@, span, depth as nat)),
        r is Ok ==> r.unwrap().1.wf(chars@),
    decreases depth, 3nat, 0nat,
{
    let (name, s1) = match sp_ident(chars, span) {
        Err(f) => {
            return Err(f);
        },
        Ok(v) => v,
    };
    let s2 = match spar(chars, s1, '[') {
        Err(f) => {
            return Err(f);
        },
        Ok((_, s2)) => s2,
    };
    if depth == 0 {
        return Err(too_deep_at(s2));
    }
    match node_expr(chars, s2, depth - 1) {
        Err(f) => Err(f),
        Ok((index, s3)) => match spar(chars, s3, ']') {
            Err(f) => Err(f),
            Ok((_, s4)) => Ok(((name, index), s4)),
        },
    }
}

/// Parses a closure: the parameters between two bars, and a block.
#[verifier::rlimit(40)]
pub fn closure(chars: &Vec<char>, span: Span, depth: usize) -> (r: Result<(Node, Span), Fault>)
    requires
        span.wf(chars@),
    ensures
        node_parsed(r, grammar::closure(chars@, span, depth as nat)),
        r is Ok ==> r.unwrap().1.wf(chars@),
    decreases depth, 4nat, 0nat,
{
    let (params, s1) = match params_in(chars, span, '|', '|') {
        Err(f) => {
            return Err(f);
        },
        Ok(v) => v,
    };
    if depth == 0 {
        return Err(too_deep_at(s1));
    }
    match block(chars, s1, depth - 1) {
        Err(f) => Err(f),
        Ok((body, s2)) => {
            let ghost names = grammar::params_between(chars@, span, '|', '|').unwrap().0;
            let ghost trees = grammar::block(chars@, s1, (depth - 1) as nat).unwrap().0;
            Ok((closure_node(params, body, Ghost(names), Ghost(trees)), s2))
        },
    }
}

/// The node of a closure.
pub fn closure_node(
    params: Vec<String>,
    body: Vec<Node>,
    Ghost(ps): Ghost<Seq<Seq<char>>>,
    Ghost(ts): Ghost<Seq<Tree>>,
) -> (n: Node)
    requires
        names(params@) == ps,
        represents_all(body@, ts),
    ensures
        represents(n, Tree::Closure(ps, ts)),
{
    Node::Closure(Arc::new(params), Arc::new(body))
}

/// The node of a block.
pub fn block_node(body: Vec<Node>, Ghost(ts): Ghost<Seq<Tree>>) -> (n: Node)
    requires
        represents_all(body@, ts),
    ensures
        represents(n, Tree::Block(ts)),
{
    Node::Block(Arc::new(body))
}

/// The node of a `return`.
pub fn return_node(value: Node, Ghost(t): Ghost<Tree>) -> (n: Node)
    requires
        represents(value, t),
    ensures
        represents(n, Tree::ReturnState(Box::new(t))),
{
    Node::ReturnState(Arc::new(value))
}

/// The node of the null literal.
pub fn null_node() -> (n: Node)
    ensures
        represents(n, Tree::Null),
{
    Node::Literal(Literal::Null)
}

/// Parses expressions with commas between them, as many as there are. With
/// `spaced`, white space and comments before an expression do not count to
/// it.
pub fn exprs(chars: &Vec<char>, span: Span, spaced: bool, depth: usize) -> (r: Result<
    (Vec<Node>, Span),
    Fault,
>)
    requires
        span.wf(chars@),
    ensures
        nodes_parsed(r, grammar::exprs(chars@, span, spaced, depth as nat)),
        r is Ok ==> r.unwrap().1.wf(chars@),
    decreases depth, 42nat, 0nat,
{
    let mut out: Vec<Node> = Vec::new();
    let start = if spaced {
        eat_comments(chars, span)
    } else {
        span
    };
    let mut cur = span;
    let ghost mut trees = Seq::<Tree>::empty();
    match node_expr(chars, start, depth) {
        Err(f) => {
            if f.fatal {
                return Err(f);
            } else {
                return Ok((out, span));
            }
        },
        Ok((node, rest)) => {
            proof {
                let first = grammar::bin_expr(chars@, start, depth as nat).unwrap().0;
                lemma_represents_push(out@, trees, node, first);
                trees = trees.push(first);
                assert(trees =~= seq![first]);
            }
            out.push(node);
            cur = rest;
        },
    }
    loop
        invariant
            cur.wf(chars@),
            represents_all(out@, trees),
            grammar::exprs(chars@, span, spaced, depth as nat) == grammar::exprs_rest(
                chars@,
                cur,
                trees,
                spaced,
                depth as nat,
            ),
        decreases cur.len(),
    {
        let s1 = match spar(chars, cur, ',') {
            Err(_) => {
                return Ok((out, cur));
            },
            Ok((_, s1)) => s1,
        };
        let from = if spaced {
            eat_comments(chars, s1)
        } else {
            s1
        };
        match node_expr(chars, from, depth) {
            Err(f) => {
                if f.fatal {
                    return Err(f);
                } else {
                    return Ok((out, cur));
                }
            },
            Ok((node, s2)) => {
                if s2.length() < cur.length() {
                    proof {
                        let tree = grammar::bin_expr(chars@, from, depth as nat).unwrap().0;
                        lemma_represents_push(out@, trees, node, tree);
                        trees = trees.push(tree);
                    }
                    out.push(node);
                    cur = s2;
                } else {
                    return Err(mismatch_at(cur));
                }
            },
        }
    }
}

/// Parses a call: a name and the arguments between round brackets.
pub fn function_call(chars: &Vec<char>, span: Span, depth: usize) -> (r: Result<
    (Node, Span),
    Fault,
>)
    requires
        span.wf(chars@),
    ensures
        node_parsed(r, grammar::function_call(chars@, span, depth as nat)),
        r is Ok ==> r.unwrap().1.wf(chars@),
    decreases depth, 3nat, 0nat,
{
    let (name, s1) = match sp_ident(chars, span) {
        Err(f) => {
            return Err(f);
        },
        Ok(v) => v,
    };
    let s2 = match spar(chars, s1, '(') {
        Err(f) => {
            return Err(f);
        },
        Ok((_, s2)) => s2,
    };
    if depth == 0 {
        return Err(too_deep_at(s2));
    }
    match exprs(chars, eat_comments(chars, s2), true, depth - 1) {
        Err(f) => Err(f),
        Ok((args, s3)) => match spar(chars, s3, ')') {
            Err(f) => Err(Fault { fatal: true, kind: f.kind, at: f.at }),
            Ok((_, s4)) => Ok((Node::FuncCall(name, Arc::new(args)), s4)),
        },
    }
}

/// Parses a list literal.
pub fn list(chars: &Vec<char>, span: Span, depth: usize) -> (r: Result<(Vec<Node>, Span), Fault>)
    requires
        span.wf(chars@),
    ensures
        nodes_parsed(r, grammar::list(chars@, span, depth as nat)),
        r is Ok ==> r.unwrap().1.wf(chars@),
    decreases depth, 2nat, 0nat,
{
    let s1 = match one_char(chars, span, '[') {
        Err(f) => {
            return Err(f);
        },
        Ok((_, s1)) => s1,
    };
    if depth == 0 {
        return Err(too_deep_at(s1));
    }
    match exprs(chars, s1, false, depth - 1) {
        Err(f) => Err(f),
        Ok((items, s2)) => {
            let s3 = optional_comma(chars, s2);
            match spar(chars, s3, ']') {
                Err(f) => Err(Fault { fatal: true, kind: f.kind, at: f.at }),
                Ok((_, s4)) => Ok((items, s4)),
            }
        },
    }
}

/// Parses a literal.
pub fn literal(chars: &Vec<char>, span: Span, depth: usize) -> (r: Result<(Node, Span), Fault>)
    requires
        span.wf(chars@),
    ensures
        node_parsed(r, grammar::literal(chars@, span, depth as nat)),
        r is Ok ==> r.unwrap().1.wf(chars@),
    decreases depth, 3nat, 0nat,
{
    let s = eat_comments(chars, span);
    name_result(literal_at(chars, s, depth), PettyParseError::Literal, s)
}

/// The literal at the start of the input, among the kinds of literals in
/// their order.
pub open spec fn literal_at_spec(chars: Seq<char>, s: Span, depth: nat) -> Parse<Tree> {
    match grammar::boolean_spec(chars, s) {
        Ok((b, rest)) => Ok((Tree::Bool(b), rest)),
        Err(_) => match grammar::float_spec(chars, s) {
            Ok((text, rest)) => Ok((Tree::Float(text), rest)),
            Err(_) => match grammar::int_spec(chars, s) {
                Ok((i, rest)) => Ok((Tree::Int(i), rest)),
                Err(_) => match grammar::string_spec(chars, s) {
                    Ok((text, rest)) => Ok((Tree::Str(text), rest)),
                    Err(f) => if f.fatal {
                        Err(f)
                    } else {
                        match grammar::list(chars, s, depth) {
                            Ok((items, rest)) => Ok((Tree::List(items), rest)),
                            Err(f) => if f.fatal {
                                Err(f)
                            } else {
                                match crate::parser::lexer::keyword_spec(chars, s, "null"@) {
                                    Ok((_, rest)) => Ok((Tree::Null, rest)),
                                    Err(_) => Err(crate::parser::lexer::mismatch(s)),
                                }
                            },
                        }
                    },
                },
            },
        },
    }
}

/// Parses the literal at the start of the input.
#[verifier::rlimit(40)]
pub fn literal_at(chars: &Vec<char>, s: Span, depth: usize) -> (r: Result<(Node, Span), Fault>)
    requires
        s.wf(chars@),
    ensures
        node_parsed(r, literal_at_spec(chars@, s, depth as nat)),
        r is Ok ==> r.unwrap().1.wf(chars@),
    decreases depth, 2nat, 1nat,
{
    match boolean(chars, s) {
        Ok((b, rest)) => {
            return Ok((Node::Literal(Literal::Bool(b)), rest));
        },
        Err(_) => {},
    }
    match float(chars, s) {
        Ok((text, rest)) => {
            return Ok((Node::Literal(Literal::Float(text)), rest));
        },
        Err(_) => {},
    }
    match integer(chars, s) {
        Ok((i, rest)) => {
            return Ok((Node::Literal(Literal::Int(i)), rest));
        },
        Err(_) => {},
    }
    match string(chars, s) {
        Ok((text, rest)) => {
            return Ok((Node::Literal(Literal::String(text)), rest));
        },
        Err(f) => {
            if f.fatal {
                return Err(f);
            }
        },
    }
    match list(chars, s, depth) {
        Ok((items, rest)) => {
            return Ok((Node::Literal(Literal::List(Arc::new(items))), rest));
        },
        Err(f) => {
            if f.fatal {
                return Err(f);
            }
        },
    }
    match keyword_name(chars, s, "null") {
        Ok((_, rest)) => Ok((Node::Literal(Literal::Null), rest)),
        Err(_) => Err(mismatch_at(s)),
    }
}

/// Parses an expression at the start of a text and gives what is left of
/// the text with it.
pub fn bin_expr(input: &str) -> (r: Result<(Span, Node), Fault>)
    ensures
        match grammar::bin_expr(
            input@,
            Span { pos: 0, end: input@.len() as usize },
            DEFAULT_PARSE_DEPTH as nat,
        ) {
            Ok((tree, rest)) => r is Ok && r.unwrap().0 == rest && represents(r.unwrap().1, tree),
            Err(f) => r is Err && r.unwrap_err() == f,
        },
{
    let chars = chars_of(input);
    match node_expr(&chars, Span { pos: 0, end: chars.len() }, DEFAULT_PARSE_DEPTH) {
        Ok((node, rest)) => Ok((rest, node)),
        Err(f) => Err(f),
    }
}

} // verus!
