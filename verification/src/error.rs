//! Error kinds of the parser and of the evaluator.

use vstd::prelude::*;

verus! {

/// What the parser failed to recognise at the position where it gave up.
#[derive(Debug, Clone, Copy, PartialEq, Eq, Structural)]
pub enum PettyParseError {
    Node,
    Expr,
    Ident,
    Literal,
    Float,
    FloatDigit,
    TermExpr,
    ExpectedIdentAfterDot,
}

/// The name of a parse error kind, as a sequence of characters.
pub open spec fn parse_error_name(e: PettyParseError) -> Seq<char> {
    match e {
        PettyParseError::Node => "Node"@,
        PettyParseError::Expr => "Expr"@,
        PettyParseError::Ident => "Ident"@,
        PettyParseError::Literal => "Literal"@,
        PettyParseError::Float => "Float"@,
        PettyParseError::FloatDigit => "FloatDigit"@,
        PettyParseError::TermExpr => "TermExpr"@,
        PettyParseError::ExpectedIdentAfterDot => "ExpectedIdentAfterDot"@,
    }
}

impl PettyParseError {
    /// The text shown for this error: the name of its kind.
    pub fn name(&self) -> (r: &'static str)
        ensures
            r@ == parse_error_name(*self),
    {
        match self {
            PettyParseError::Node => "Node",
            PettyParseError::Expr => "Expr",
            PettyParseError::Ident => "Ident",
            PettyParseError::Literal => "Literal",
            PettyParseError::Float => "Float",
            PettyParseError::FloatDigit => "FloatDigit",
            PettyParseError::TermExpr => "TermExpr",
            PettyParseError::ExpectedIdentAfterDot => "ExpectedIdentAfterDot",
        }
    }
}

/// The conditions that end an evaluation. None of them can be caught by the
/// running program.
#[derive(Debug, Clone, Copy, PartialEq, Eq, Structural)]
pub enum RuntimeError {
    /// An identifier or an attribute key was not found.
    UnresolvedName,
    /// A call passed a number of arguments other than the declared one.
    ArityMismatch,
    /// A name resolved, but the object is not of the shape the handler needs.
    CapabilityMismatch,
    /// Arithmetic left the domain of the number type, or divided by zero.
    NumericDomain,
    /// Evaluation nested deeper than the machine's depth budget.
    RecursionLimit,
    /// A loop ran for more rounds than the machine's loop budget.
    LoopLimit,
    /// An assertion of the running program did not hold.
    AssertionFailed,
}

/// The name of a runtime error kind.
pub open spec fn runtime_error_name(e: RuntimeError) -> Seq<char> {
    match e {
        RuntimeError::UnresolvedName => "UnresolvedName"@,
        RuntimeError::ArityMismatch => "ArityMismatch"@,
        RuntimeError::CapabilityMismatch => "CapabilityMismatch"@,
        RuntimeError::NumericDomain => "NumericDomain"@,
        RuntimeError::RecursionLimit => "RecursionLimit"@,
        RuntimeError::LoopLimit => "LoopLimit"@,
        RuntimeError::AssertionFailed => "AssertionFailed"@,
    }
}

impl RuntimeError {
    /// The text shown for this error: the name of its kind.
    pub fn name(&self) -> (r: &'static str)
        ensures
            r@ == runtime_error_name(*self),
    {
        match self {
            RuntimeError::UnresolvedName => "UnresolvedName",
            RuntimeError::ArityMismatch => "ArityMismatch",
            RuntimeError::CapabilityMismatch => "CapabilityMismatch",
            RuntimeError::NumericDomain => "NumericDomain",
            RuntimeError::RecursionLimit => "RecursionLimit",
            RuntimeError::LoopLimit => "LoopLimit",
            RuntimeError::AssertionFailed => "AssertionFailed",
        }
    }
}

} // verus!
