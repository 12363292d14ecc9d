//! The syntax tree that the evaluator walks.

use std::sync::Arc;
use vstd::prelude::*;

verus! {

/// One node of a program: an expression or a statement.
///
/// Children are held behind `Arc`, so that a function object can keep the
/// body it was defined with without copying it.
#[derive(PartialEq, Clone, Debug)]
pub enum Node {
    Literal(Literal),
    Block(Arc<Vec<Node>>),
    Globals(Arc<Vec<Node>>),
    Closure(Arc<Vec<String>>, Arc<Vec<Node>>),
    BinExpr(BinOp, Arc<(Node, Node)>),
    UnaryOp(UnaryOp, Arc<Node>),
    Ident(String),
    FuncCall(String, Arc<Vec<Node>>),
    IfState(Arc<Node>, Arc<Vec<Node>>, Option<Arc<Node>>),
    WhileLoop(Arc<Node>, Arc<Vec<Node>>),
    ForLoop(String, Arc<Node>, Arc<Vec<Node>>),
    ReturnState(Arc<Node>),
    BreakState,
    FuncDef(String, Arc<Vec<String>>, Arc<Vec<Node>>),
    ClassDef(String, Arc<Vec<String>>, Arc<Vec<Node>>),
    Empty,
    SetEq(String, Arc<Node>),
    GetItemIndex(String, Arc<Node>),
    SetItemIndex(String, Arc<Node>, Arc<Node>),
}

/// The binary operators of the language.
#[derive(Debug, Clone, Copy, PartialEq, Eq, Structural)]
pub enum BinOp {
    Add,
    Sub,
    Mul,
    Div,
    Mod,
    And,
    Or,
    LT,
    GT,
    LTEq,
    GTEq,
    IsEq,
    NotEq,
    GetItem,
}

/// The unary operators of the language.
#[derive(Debug, Clone, Copy, PartialEq, Eq, Structural)]
pub enum UnaryOp {
    Not,
    Neg,
    Plus,
}

/// A literal value written in the program.
///
/// A literal with a fraction is kept as the text it was written with; the
/// number type of this runtime holds whole numbers only.
#[derive(PartialEq, Clone, Debug)]
pub enum Literal {
    Int(i128),
    Float(String),
    String(String),
    List(Arc<Vec<Node>>),
    Null,
    Bool(bool),
}

/// The sign that a binary operator is written with.
pub open spec fn bin_op_symbol(op: BinOp) -> Seq<char> {
    match op {
        BinOp::Add => "+"@,
        BinOp::Sub => "-"@,
        BinOp::Mul => "*"@,
        BinOp::Div => "/"@,
        BinOp::Mod => "%"@,
        BinOp::LT => "<"@,
        BinOp::GT => ">"@,
        BinOp::LTEq => "<="@,
        BinOp::GTEq => ">="@,
        BinOp::IsEq => "=="@,
        BinOp::NotEq => "!="@,
        BinOp::And => "&&"@,
        BinOp::Or => "||"@,
        BinOp::GetItem => "."@,
    }
}

/// Whether a binary operator is dispatched under a method name. Member
/// access is the one that is not: it is no method call at all.
pub open spec fn bin_op_has_method(op: BinOp) -> bool {
    op != BinOp::GetItem
}

/// The method name under which a binary operator is looked up on its left
/// operand.
pub open spec fn bin_op_method(op: BinOp) -> Seq<char> {
    match op {
        BinOp::Add => "__add__"@,
        BinOp::Sub => "__sub__"@,
        BinOp::Mul => "__mul__"@,
        BinOp::Div => "__div__"@,
        BinOp::IsEq => "__is_eq__"@,
        BinOp::NotEq => "__not_eq__"@,
        BinOp::LT => "__lt__"@,
        BinOp::GT => "__gt__"@,
        BinOp::LTEq => "__lt_eq__"@,
        BinOp::GTEq => "__gt_eq__"@,
        BinOp::Mod => "__mod__"@,
        BinOp::And => "__and__"@,
        BinOp::Or => "__or__"@,
        _ => Seq::<char>::empty(),
    }
}

/// The method name under which a unary operator is looked up on its operand.
pub open spec fn unary_op_method(op: UnaryOp) -> Seq<char> {
    match op {
        UnaryOp::Neg => "__neg__"@,
        UnaryOp::Not => "__not__"@,
        UnaryOp::Plus => Seq::<char>::empty(),
    }
}

impl BinOp {
    /// The sign of the operator.
    pub fn symbol(self) -> (r: &'static str)
        ensures
            r@ == bin_op_symbol(self),
    {
        match self {
            BinOp::Add => "+",
            BinOp::Sub => "-",
            BinOp::Mul => "*",
            BinOp::Div => "/",
            BinOp::Mod => "%",
            BinOp::LT => "<",
            BinOp::GT => ">",
            BinOp::LTEq => "<=",
            BinOp::GTEq => ">=",
            BinOp::IsEq => "==",
            BinOp::NotEq => "!=",
            BinOp::And => "&&",
            BinOp::Or => "||",
            BinOp::GetItem => ".",
        }
    }

    /// The method name that implements the operator.
    #[must_use]
    #[inline]
    pub fn into_petty_function(self) -> (r: &'static str)
        requires
            bin_op_has_method(self),
        ensures
            r@ == bin_op_method(self),
    {
        match self {
            BinOp::Add => "__add__",
            BinOp::Sub => "__sub__",
            BinOp::Mul => "__mul__",
            BinOp::Div => "__div__",
            BinOp::IsEq => "__is_eq__",
            BinOp::NotEq => "__not_eq__",
            BinOp::LT => "__lt__",
            BinOp::GT => "__gt__",
            BinOp::LTEq => "__lt_eq__",
            BinOp::GTEq => "__gt_eq__",
            BinOp::Mod => "__mod__",
            BinOp::And => "__and__",
            _ => "__or__",
        }
    }
}

impl UnaryOp {
    /// The method name that implements the operator. The unary plus has none.
    #[must_use]
    #[inline]
    pub fn into_petty_function(self) -> (r: &'static str)
        requires
            self != UnaryOp::Plus,
        ensures
            r@ == unary_op_method(self),
    {
        match self {
            UnaryOp::Neg => "__neg__",
            _ => "__not__",
        }
    }
}

/// The texts of a sequence of strings.
pub open spec fn names(v: Seq<String>) -> Seq<Seq<char>> {
    v.map_values(|s: String| s@)
}

/// The texts of a sequence of string slices.
pub open spec fn slice_names(v: Seq<&str>) -> Seq<Seq<char>> {
    v.map_values(|s: &str| s@)
}

/// A shared sequence of owned names with the texts of the given slices.
pub fn vec_box_str(input: Vec<&str>) -> (r: Arc<Vec<String>>)
    ensures
        names(r@) == slice_names(input@),
{
    let mut out: Vec<String> = Vec::new();
    let mut i: usize = 0;
    while i < input.len()
        invariant
            i <= input@.len(),
            out@.len() == i,
            forall|k: int| 0 <= k < i ==> (#[trigger] out@[k])@ == input@[k]@,
        decreases input@.len() - i,
    {
        out.push(input[i].to_owned());
        i += 1;
    }
    assert(names(out@) =~= slice_names(input@));
    Arc::new(out)
}

impl Node {
    /// The node of a name.
    pub fn ident(string: &str) -> (r: Self)
        ensures
            r matches Node::Ident(s) && s@ == string@,
    {
        Node::Ident(string.to_owned())
    }

    /// The node of a unary expression.
    pub fn unary_expr(op: UnaryOp, node: Node) -> (r: Self)
        ensures
            r matches Node::UnaryOp(o, n) && o == op && *n == node,
    {
        Node::UnaryOp(op, Arc::new(node))
    }

    /// The node of a binary expression on two literals.
    pub fn literal_expr<L: Into<Literal>, R: Into<Literal>>(op: BinOp, left: L, right: R) -> (r: Self)
        ensures
            r matches Node::BinExpr(o, p) && o == op && (p.0 matches Node::Literal(l)
                && call_ensures(L::into, (left,), l)) && (p.1 matches Node::Literal(l)
                && call_ensures(R::into, (right,), l)),
    {
        Self::bin_expr(op, Node::literal(left), Node::literal(right))
    }

    /// The node of a binary expression.
    pub fn bin_expr(op: BinOp, left: Node, right: Node) -> (r: Self)
        ensures
            r matches Node::BinExpr(o, p) && o == op && p.0 == left && p.1 == right,
    {
        Node::BinExpr(op, Arc::new((left, right)))
    }

    /// The node of a call by name.
    pub fn func_call(name: &str, args: Vec<Node>) -> (r: Self)
        ensures
            r matches Node::FuncCall(n, a) && n@ == name@ && a@ == args@,
    {
        Node::FuncCall(name.to_owned(), Arc::new(args))
    }

    /// The node of a literal.
    pub fn literal<L: Into<Literal>>(literal: L) -> (r: Self)
        ensures
            r matches Node::Literal(l) && call_ensures(L::into, (literal,), l),
    {
        Node::Literal(literal.into())
    }

    /// The node of a block.
    pub fn block(nodes: Vec<Node>) -> (r: Self)
        ensures
            r matches Node::Block(b) && b@ == nodes@,
    {
        Node::Block(Arc::new(nodes))
    }

    /// The node of an assignment.
    pub fn set_eq(ident: &str, value: Node) -> (r: Self)
        ensures
            r matches Node::SetEq(n, v) && n@ == ident@ && *v == value,
    {
        Node::SetEq(ident.to_owned(), Arc::new(value))
    }

    /// The node of a class definition.
    pub fn class_def(name: &str, fields: Vec<&str>, methods: Vec<Node>) -> (r: Self)
        ensures
            r matches Node::ClassDef(n, f, m) && n@ == name@ && names(f@) == slice_names(fields@)
                && m@ == methods@,
    {
        Node::ClassDef(name.to_owned(), vec_box_str(fields), Arc::new(methods))
    }

    /// The node of a function definition.
    pub fn func_def(name: &str, params: Vec<&str>, block: Vec<Node>) -> (r: Self)
        ensures
            r matches Node::FuncDef(n, p, b) && n@ == name@ && names(p@) == slice_names(params@)
                && b@ == block@,
    {
        Node::FuncDef(name.to_owned(), vec_box_str(params), Arc::new(block))
    }

    /// The node of a conditional.
    pub fn if_state(condition: Node, block: Vec<Node>, or_else: Option<Node>) -> (r: Self)
        ensures
            r matches Node::IfState(c, b, e) && *c == condition && b@ == block@ && match or_else {
                Some(node) => e matches Some(n) && *n == node,
                None => e.is_none(),
            },
    {
        let alternative = match or_else {
            Some(node) => Some(Arc::new(node)),
            None => None,
        };
        Node::IfState(Arc::new(condition), Arc::new(block), alternative)
    }

    /// The node of a `while` loop.
    pub fn while_loop(condition: Node, block: Vec<Node>) -> (r: Self)
        ensures
            r matches Node::WhileLoop(c, b) && *c == condition && b@ == block@,
    {
        Node::WhileLoop(Arc::new(condition), Arc::new(block))
    }

    /// The node of a `for` loop.
    pub fn for_loop(target: &str, iter: Node, block: Vec<Node>) -> (r: Self)
        ensures
            r matches Node::ForLoop(t, i, b) && t@ == target@ && *i == iter && b@ == block@,
    {
        Node::ForLoop(target.to_owned(), Arc::new(iter), Arc::new(block))
    }

    /// The node of a closure.
    pub fn closure(args: Vec<&str>, body: Vec<Node>) -> (r: Self)
        ensures
            r matches Node::Closure(a, b) && names(a@) == slice_names(args@) && b@ == body@,
    {
        Node::Closure(vec_box_str(args), Arc::new(body))
    }
}

impl From<Literal> for Node {
    fn from(value: Literal) -> (r: Self)
        ensures
            r == Node::Literal(value),
    {
        Node::Literal(value)
    }
}

impl vstd::std_specs::convert::FromSpecImpl<Literal> for Node {
    open spec fn obeys_from_spec() -> bool {
        true
    }

    open spec fn from_spec(value: Literal) -> Self {
        Node::Literal(value)
    }
}

impl From<i128> for Literal {
    fn from(value: i128) -> (r: Self)
        ensures
            r == Literal::Int(value),
    {
        Literal::Int(value)
    }
}

impl vstd::std_specs::convert::FromSpecImpl<i128> for Literal {
    open spec fn obeys_from_spec() -> bool {
        true
    }

    open spec fn from_spec(value: i128) -> Self {
        Literal::Int(value)
    }
}

impl From<bool> for Literal {
    fn from(value: bool) -> (r: Self)
        ensures
            r == Literal::Bool(value),
    {
        Literal::Bool(value)
    }
}

impl vstd::std_specs::convert::FromSpecImpl<bool> for Literal {
    open spec fn obeys_from_spec() -> bool {
        true
    }

    open spec fn from_spec(value: bool) -> Self {
        Literal::Bool(value)
    }
}

impl<'a> From<&'a str> for Literal {
    fn from(value: &'a str) -> (r: Self)
        ensures
            r matches Literal::String(s) && s@ == value@,
    {
        Literal::String(value.to_owned())
    }
}

impl<'a> vstd::std_specs::convert::FromSpecImpl<&'a str> for Literal {
    open spec fn obeys_from_spec() -> bool {
        false
    }

    open spec fn from_spec(value: &'a str) -> Self {
        Literal::Null
    }
}

impl From<Vec<Node>> for Literal {
    fn from(value: Vec<Node>) -> (r: Self)
        ensures
            r matches Literal::List(l) && l@ == value@,
    {
        Literal::List(Arc::new(value))
    }
}

impl vstd::std_specs::convert::FromSpecImpl<Vec<Node>> for Literal {
    open spec fn obeys_from_spec() -> bool {
        false
    }

    open spec fn from_spec(value: Vec<Node>) -> Self {
        Literal::Null
    }
}

} // verus!
