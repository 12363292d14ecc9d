//! The text form of a syntax tree.

use crate::ast::{BinOp, Literal, Node, UnaryOp};
use crate::builtins::text::{int_text, int_to_string};
use vstd::prelude::*;
use vstd::string::StringExecFns;

verus! {

/// What the `Debug` form of a string slice is: the text between double
/// quotes, with the characters escaped that need it.
pub uninterp spec fn quoted_text(s: Seq<char>) -> Seq<char>;

/// Formats a string slice with `Debug`; the result is a function of the
/// text alone.
#[verifier::external_body]
fn quote(s: &str) -> (r: String)
    ensures
        r@ == quoted_text(s@),
{
    format!("{:?}", s)
}

/// The name of a binary operator.
pub open spec fn bin_op_name(op: BinOp) -> Seq<char> {
    match op {
        BinOp::Add => "Add"@,
        BinOp::Sub => "Sub"@,
        BinOp::Mul => "Mul"@,
        BinOp::Div => "Div"@,
        BinOp::Mod => "Mod"@,
        BinOp::And => "And"@,
        BinOp::Or => "Or"@,
        BinOp::LT => "LT"@,
        BinOp::GT => "GT"@,
        BinOp::LTEq => "LTEq"@,
        BinOp::GTEq => "GTEq"@,
        BinOp::IsEq => "IsEq"@,
        BinOp::NotEq => "NotEq"@,
        BinOp::GetItem => "GetItem"@,
    }
}

/// The name of a unary operator.
pub open spec fn unary_op_name(op: UnaryOp) -> Seq<char> {
    match op {
        UnaryOp::Not => "Not"@,
        UnaryOp::Neg => "Neg"@,
        UnaryOp::Plus => "Plus"@,
    }
}

/// The quoted names from position `i` on, with a comma and a space before
/// each but the first of all.
pub open spec fn names_text(v: Seq<String>, i: nat) -> Seq<char>
    decreases v.len() - i,
{
    if i >= v.len() {
        Seq::<char>::empty()
    } else if i == 0 {
        quoted_text(v[0]@) + names_text(v, 1)
    } else {
        ", "@ + quoted_text(v[i as int]@) + names_text(v, i + 1)
    }
}

/// A list of quoted names between square brackets.
pub open spec fn name_list_text(v: Seq<String>) -> Seq<char> {
    "["@ + names_text(v, 0) + "]"@
}

/// The texts of the nodes from position `i` on, with a comma and a space
/// before each but the first of all.
pub open spec fn nodes_text(v: Vec<Node>, i: nat) -> Seq<char>
    decreases v, v.len() - i,
    when true
    via nodes_text_decreases
{
    if i >= v.len() {
        Seq::<char>::empty()
    } else if i == 0 {
        node_text(v[0]) + nodes_text(v, 1)
    } else {
        ", "@ + node_text(v[i as int]) + nodes_text(v, i + 1)
    }
}

#[via_fn]
proof fn nodes_text_decreases(v: Vec<Node>, i: nat) {
    broadcast use vstd::std_specs::vec::axiom_vec_index_decreases;

    if i < v.len() {
        assert(decreases_to!(v => v[i as int]));
        assert(decreases_to!(v => v[0]));
    }
}

/// A list of nodes between square brackets.
pub open spec fn node_list_text(v: Vec<Node>) -> Seq<char>
    decreases v, v.len() + 1,
{
    "["@ + nodes_text(v, 0) + "]"@
}

/// The text form of a node: the name of its kind and, between braces, its
/// parts by name; a list between square brackets; a literal as it is
/// written, a string between single quotes.
pub open spec fn node_text(n: Node) -> Seq<char>
    decreases n,
{
    match n {
        Node::Literal(Literal::Int(i)) => int_text(i as int),
        Node::Literal(Literal::Float(s)) => s@,
        Node::Literal(Literal::String(s)) => "'"@ + s@ + "'"@,
        Node::Literal(Literal::List(items)) => node_list_text(*items),
        Node::Literal(Literal::Null) => "null"@,
        Node::Literal(Literal::Bool(b)) => if b {
            "true"@
        } else {
            "false"@
        },
        Node::Block(nodes) => node_list_text(*nodes),
        Node::Globals(nodes) => node_list_text(*nodes),
        Node::Closure(args, body) => "closure { args: "@ + name_list_text(args@) + ", body: "@
            + node_list_text(*body) + " }"@,
        Node::BinExpr(op, nodes) => "expr { op: "@ + bin_op_name(op) + ", left: "@ + node_text(
            nodes.0,
        ) + ", right: "@ + node_text(nodes.1) + " }"@,
        Node::UnaryOp(op, node) => "unary_expr { op: "@ + unary_op_name(op) + ", inner: "@
            + node_text(*node) + " }"@,
        Node::Ident(ident) => "Ident("@ + quoted_text(ident@) + ")"@,
        Node::FuncCall(name, args) => "func_call { name: "@ + quoted_text(name@) + ", args: "@
            + node_list_text(*args) + " }"@,
        Node::IfState(condition, body, or_else) => "if { condition: "@ + node_text(*condition)
            + ", body: "@ + node_list_text(*body) + ", or_else: ["@ + (match or_else {
            Some(node) => node_text(*node),
            None => Seq::<char>::empty(),
        }) + "] }"@,
        Node::WhileLoop(condition, body) => "while { condition: "@ + node_text(*condition)
            + ", body: "@ + node_list_text(*body) + " }"@,
        Node::ForLoop(target, iter, body) => "for_loop { target: "@ + quoted_text(target@)
            + ", iter: "@ + node_text(*iter) + ", body: "@ + node_list_text(*body) + " }"@,
        Node::ReturnState(expr) => "return("@ + node_text(*expr) + ")"@,
        Node::BreakState => "break"@,
        Node::FuncDef(name, args, body) => "func_def { name: "@ + quoted_text(name@) + ", args: "@
            + name_list_text(args@) + ", body: "@ + node_list_text(*body) + " }"@,
        Node::ClassDef(name, fields, functions) => "class { name: "@ + quoted_text(name@)
            + ", fields: "@ + name_list_text(fields@) + ", functions: "@ + node_list_text(
            *functions,
        ) + " }"@,
        Node::Empty => "empty"@,
        Node::SetEq(ident, expr) => "set_eq { left: "@ + quoted_text(ident@) + ", right: "@
            + node_text(*expr) + " }"@,
        Node::GetItemIndex(ident, expr) => "get_index { ident: "@ + quoted_text(ident@)
            + ", expr: "@ + node_text(*expr) + " }"@,
        Node::SetItemIndex(ident, index, expr) => "set_index { ident: "@ + quoted_text(ident@)
            + ", index: "@ + node_text(*index) + ", expr: "@ + node_text(*expr) + " }"@,
    }
}

impl BinOp {
    /// The name of the operator.
    pub fn name(self) -> (r: &'static str)
        ensures
            r@ == bin_op_name(self),
    {
        match self {
            BinOp::Add => "Add",
            BinOp::Sub => "Sub",
            BinOp::Mul => "Mul",
            BinOp::Div => "Div",
            BinOp::Mod => "Mod",
            BinOp::And => "And",
            BinOp::Or => "Or",
            BinOp::LT => "LT",
            BinOp::GT => "GT",
            BinOp::LTEq => "LTEq",
            BinOp::GTEq => "GTEq",
            BinOp::IsEq => "IsEq",
            BinOp::NotEq => "NotEq",
            BinOp::GetItem => "GetItem",
        }
    }
}

impl UnaryOp {
    /// The name of the operator.
    pub fn name(self) -> (r: &'static str)
        ensures
            r@ == unary_op_name(self),
    {
        match self {
            UnaryOp::Not => "Not",
            UnaryOp::Neg => "Neg",
            UnaryOp::Plus => "Plus",
        }
    }
}

/// The text of a list of names.
pub fn name_list(v: &Vec<String>) -> (r: String)
    ensures
        r@ == name_list_text(v@),
{
    let mut out = "[".to_owned();
    let mut i: usize = 0;
    while i < v.len()
        invariant
            i <= v@.len(),
            "["@ + names_text(v@, 0) == out@ + names_text(v@, i as nat),
        decreases v@.len() - i,
    {
        let ghost before = out@;
        if i != 0 {
            out.append(", ");
        }
        let q = quote(v[i].as_str());
        out.append(q.as_str());
        proof {
            let rest = names_text(v@, (i + 1) as nat);
            if i == 0 {
                assert(before + (q@ + rest) =~= out@ + rest);
            } else {
                assert(before + (", "@ + q@ + rest) =~= out@ + rest);
            }
        }
        i += 1;
    }
    assert(out@ + names_text(v@, v@.len()) =~= out@);
    out.append("]");
    out
}

/// The text of a list of nodes.
pub fn node_list(v: &Vec<Node>) -> (r: String)
    ensures
        r@ == node_list_text(*v),
    decreases v,
{
    let mut out = "[".to_owned();
    let mut i: usize = 0;
    while i < v.len()
        invariant
            i <= v@.len(),
            "["@ + nodes_text(*v, 0) == out@ + nodes_text(*v, i as nat),
        decreases v@.len() - i,
    {
        let ghost before = out@;
        if i != 0 {
            out.append(", ");
        }
        proof {
            broadcast use vstd::std_specs::vec::axiom_vec_index_decreases;

            assert(decreases_to!(*v => v[i as int]));
        }
        let t = v[i].text();
        out.append(t.as_str());
        proof {
            let rest = nodes_text(*v, (i + 1) as nat);
            if i == 0 {
                assert(before + (t@ + rest) =~= out@ + rest);
            } else {
                assert(before + (", "@ + t@ + rest) =~= out@ + rest);
            }
        }
        i += 1;
    }
    assert(out@ + nodes_text(*v, v@.len()) =~= out@);
    out.append("]");
    out
}

impl Node {
    /// The text form of the node.
    pub fn text(&self) -> (r: String)
        ensures
            r@ == node_text(*self),
        decreases self,
    {
        match self {
            Node::Literal(literal) => match literal {
                Literal::Int(i) => int_to_string(*i),
                Literal::Float(s) => s.clone(),
                Literal::String(s) => "'".to_owned().concat(s.as_str()).concat("'"),
                Literal::List(items) => {
                    let v: &Vec<Node> = items;
                    node_list(v)
                },
                Literal::Null => "null".to_owned(),
                Literal::Bool(b) => if *b {
                    "true".to_owned()
                } else {
                    "false".to_owned()
                },
            },
            Node::Block(nodes) | Node::Globals(nodes) => {
                let v: &Vec<Node> = nodes;
                node_list(v)
            },
            Node::Closure(args, body) => {
                let a: &Vec<String> = args;
                let b: &Vec<Node> = body;
                "closure { args: ".to_owned().concat(name_list(a).as_str()).concat(
                    ", body: ",
                ).concat(node_list(b).as_str()).concat(" }")
            },
            Node::BinExpr(op, nodes) => {
                let pair: &(Node, Node) = nodes;
                "expr { op: ".to_owned().concat(op.name()).concat(", left: ").concat(
                    pair.0.text().as_str(),
                ).concat(", right: ").concat(pair.1.text().as_str()).concat(" }")
            },
            Node::UnaryOp(op, node) => {
                let inner: &Node = node;
                "unary_expr { op: ".to_owned().concat(op.name()).concat(", inner: ").concat(
                    inner.text().as_str(),
                ).concat(" }")
            },
            Node::Ident(ident) => "Ident(".to_owned().concat(quote(ident.as_str()).as_str()).concat(
                ")",
            ),
            Node::FuncCall(name, args) => {
                let v: &Vec<Node> = args;
                "func_call { name: ".to_owned().concat(quote(name.as_str()).as_str()).concat(
                    ", args: ",
                ).concat(node_list(v).as_str()).concat(" }")
            },
            Node::IfState(condition, body, or_else) => {
                let c: &Node = condition;
                let b: &Vec<Node> = body;
                let alternative = match or_else {
                    Some(node) => {
                        let n: &Node = node;
                        n.text()
                    },
                    None => String::new(),
                };
                "if { condition: ".to_owned().concat(c.text().as_str()).concat(", body: ").concat(
                    node_list(b).as_str(),
                ).concat(", or_else: [").concat(alternative.as_str()).concat("] }")
            },
            Node::WhileLoop(condition, body) => {
                let c: &Node = condition;
                let b: &Vec<Node> = body;
                "while { condition: ".to_owned().concat(c.text().as_str()).concat(
                    ", body: ",
                ).concat(node_list(b).as_str()).concat(" }")
            },
            Node::ForLoop(target, iter, body) => {
                let it: &Node = iter;
                let b: &Vec<Node> = body;
                "for_loop { target: ".to_owned().concat(quote(target.as_str()).as_str()).concat(
                    ", iter: ",
                ).concat(it.text().as_str()).concat(", body: ").concat(
                    node_list(b).as_str(),
                ).concat(" }")
            },
            Node::ReturnState(expr) => {
                let e: &Node = expr;
                "return(".to_owned().concat(e.text().as_str()).concat(")")
            },
            Node::BreakState => "break".to_owned(),
            Node::FuncDef(name, args, body) => {
                let a: &Vec<String> = args;
                let b: &Vec<Node> = body;
                "func_def { name: ".to_owned().concat(quote(name.as_str()).as_str()).concat(
                    ", args: ",
                ).concat(name_list(a).as_str()).concat(", body: ").concat(
                    node_list(b).as_str(),
                ).concat(" }")
            },
            Node::ClassDef(name, fields, functions) => {
                let a: &Vec<String> = fields;
                let b: &Vec<Node> = functions;
                "class { name: ".to_owned().concat(quote(name.as_str()).as_str()).concat(
                    ", fields: ",
                ).concat(name_list(a).as_str()).concat(", functions: ").concat(
                    node_list(b).as_str(),
                ).concat(" }")
            },
            Node::Empty => "empty".to_owned(),
            Node::SetEq(ident, expr) => {
                let e: &Node = expr;
                "set_eq { left: ".to_owned().concat(quote(ident.as_str()).as_str()).concat(
                    ", right: ",
                ).concat(e.text().as_str()).concat(" }")
            },
            Node::GetItemIndex(ident, expr) => {
                let e: &Node = expr;
                "get_index { ident: ".to_owned().concat(quote(ident.as_str()).as_str()).concat(
                    ", expr: ",
                ).concat(e.text().as_str()).concat(" }")
            },
            Node::SetItemIndex(ident, index, expr) => {
                let i: &Node = index;
                let e: &Node = expr;
                "set_index { ident: ".to_owned().concat(quote(ident.as_str()).as_str()).concat(
                    ", index: ",
                ).concat(i.text().as_str()).concat(", expr: ").concat(e.text().as_str()).concat(
                    " }",
                )
            },
        }
    }
}

} // verus!
