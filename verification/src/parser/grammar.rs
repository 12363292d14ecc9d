//! The grammar of the language, as functions from what is left of the
//! input to a tree and what is left behind it.
//!
//! Alternatives are tried in order, and the first that succeeds is taken.
//! A repetition takes as many items as there are, and ends with a fault
//! where an item leaves no less input than it found. Every parser that
//! nests another construct in itself uses one unit of the depth budget;
//! with no budget left, parsing ends with a fatal fault.

use crate::ast::{BinOp, UnaryOp};
use crate::error::PettyParseError;
use crate::parser::lexer::{
    char_spec, cut, digits_end, eat_comments_spec, keyword_spec, mismatch, named, quote_end,
    sp_ident_spec, spar_spec, starts_with, type_hinted_spec, Fault, FaultKind, Parse, Span,
};
use crate::parser::tree::Tree;
use vstd::prelude::*;

verus! {

/// The fault of nesting beyond the depth budget.
pub open spec fn too_deep(at: Span) -> Fault {
    Fault { fatal: true, kind: FaultKind::TooDeep, at }
}

/// Whether less input is left in `a` than in `b`.
pub open spec fn shorter(a: Span, b: Span) -> bool {
    a.len() < b.len()
}

/// The value of a decimal digit.
pub open spec fn digit_value(c: char) -> int {
    c as u32 - '0' as u32
}

/// The number that the digits from `pos` up to `stop` write, behind the
/// digits that wrote `acc`.
pub open spec fn digits_value(chars: Seq<char>, pos: nat, stop: nat, acc: int) -> int
    decreases stop - pos,
{
    if pos < stop <= chars.len() {
        digits_value(chars, pos + 1, stop, acc * 10 + digit_value(chars[pos as int]))
    } else {
        acc
    }
}

/// A whole number: one digit or more, as long as the number fits the
/// number type.
#[verifier::opaque]
pub open spec fn int_spec(chars: Seq<char>, span: Span) -> Parse<i128> {
    let stop = digits_end(chars, span.pos as nat, span.end as nat);
    let value = digits_value(chars, span.pos as nat, stop, 0);
    if span.pos < stop && span.end <= chars.len() && value <= i128::MAX {
        Ok((value as i128, Span { pos: stop as usize, end: span.end }))
    } else {
        Err(mismatch(span))
    }
}

/// A number with a fraction: an optional sign, digits, a point, and digits.
/// The result is the text that was read, from the start of the input.
#[verifier::opaque]
pub open spec fn float_spec(chars: Seq<char>, span: Span) -> Parse<Seq<char>> {
    let fault = Fault { fatal: false, kind: FaultKind::Petty(PettyParseError::Float), at: span };
    let signed = eat_comments_spec(chars, span);
    let unsigned = if signed.pos < signed.end <= chars.len() && (chars[signed.pos as int] == '+'
        || chars[signed.pos as int] == '-') {
        signed.skip(1)
    } else {
        signed
    };
    let whole = eat_comments_spec(chars, unsigned);
    let point = digits_end(chars, whole.pos as nat, whole.end as nat);
    if whole.pos < point < whole.end <= chars.len() && chars[point as int] == '.' {
        let stop = digits_end(chars, point + 1, whole.end as nat);
        if point + 1 < stop && span.pos <= stop {
            Ok(
                (
                    chars.subrange(span.pos as int, stop as int),
                    Span { pos: stop as usize, end: whole.end },
                ),
            )
        } else {
            Err(fault)
        }
    } else {
        Err(fault)
    }
}

/// A string: the characters between two double quotes. A string that is
/// not closed is a fatal fault.
#[verifier::opaque]
pub open spec fn string_spec(chars: Seq<char>, span: Span) -> Parse<Seq<char>> {
    match char_spec(chars, span, '"') {
        Err(f) => Err(f),
        Ok((_, inner)) => {
            let stop = quote_end(chars, inner.pos as nat, inner.end as nat);
            let rest = Span { pos: stop as usize, end: inner.end };
            match cut(char_spec(chars, rest, '"')) {
                Err(f) => Err(f),
                Ok((_, after)) => Ok((chars.subrange(inner.pos as int, stop as int), after)),
            }
        },
    }
}

/// A truth value: `true` or `false`.
#[verifier::opaque]
pub open spec fn boolean_spec(chars: Seq<char>, span: Span) -> Parse<bool> {
    if starts_with(chars, span, "true"@) {
        Ok((true, span.skip(4)))
    } else if starts_with(chars, span, "false"@) {
        Ok((false, span.skip(5)))
    } else {
        Err(mismatch(span))
    }
}

/// The binary operator at the start of the input, behind white space and
/// comments, among those of one level of precedence: level 0 binds
/// tightest.
#[verifier::opaque]
pub open spec fn binop_spec(chars: Seq<char>, span: Span, level: nat) -> Parse<BinOp> {
    let s = eat_comments_spec(chars, span);
    if level == 0 {
        if char_spec(chars, s, '*') is Ok {
            Ok((BinOp::Mul, s.skip(1)))
        } else if char_spec(chars, s, '/') is Ok {
            Ok((BinOp::Div, s.skip(1)))
        } else if char_spec(chars, s, '%') is Ok {
            Ok((BinOp::Mod, s.skip(1)))
        } else {
            Err(mismatch(s))
        }
    } else if level == 1 {
        if char_spec(chars, s, '+') is Ok {
            Ok((BinOp::Add, s.skip(1)))
        } else if char_spec(chars, s, '-') is Ok {
            Ok((BinOp::Sub, s.skip(1)))
        } else {
            Err(mismatch(s))
        }
    } else if level == 2 {
        if starts_with(chars, s, "<="@) {
            Ok((BinOp::LTEq, s.skip(2)))
        } else if starts_with(chars, s, ">="@) {
            Ok((BinOp::GTEq, s.skip(2)))
        } else if starts_with(chars, s, "<"@) {
            Ok((BinOp::LT, s.skip(1)))
        } else if starts_with(chars, s, ">"@) {
            Ok((BinOp::GT, s.skip(1)))
        } else if starts_with(chars, s, "=="@) {
            Ok((BinOp::IsEq, s.skip(2)))
        } else if starts_with(chars, s, "!="@) {
            Ok((BinOp::NotEq, s.skip(2)))
        } else {
            Err(mismatch(s))
        }
    } else {
        if starts_with(chars, s, "&&"@) {
            Ok((BinOp::And, s.skip(2)))
        } else if starts_with(chars, s, "||"@) {
            Ok((BinOp::Or, s.skip(2)))
        } else {
            Err(mismatch(s))
        }
    }
}

/// The unary operator at the start of the input, behind white space and
/// comments.
#[verifier::opaque]
pub open spec fn unary_op_spec(chars: Seq<char>, span: Span) -> Parse<UnaryOp> {
    let s = eat_comments_spec(chars, span);
    if char_spec(chars, s, '!') is Ok {
        Ok((UnaryOp::Not, s.skip(1)))
    } else if char_spec(chars, s, '+') is Ok {
        Ok((UnaryOp::Plus, s.skip(1)))
    } else if char_spec(chars, s, '-') is Ok {
        Ok((UnaryOp::Neg, s.skip(1)))
    } else {
        Err(mismatch(s))
    }
}

/// The names of a parameter list behind the first: each behind a comma.
pub open spec fn params_rest(chars: Seq<char>, span: Span, acc: Seq<Seq<char>>) -> Parse<
    Seq<Seq<char>>,
>
    decreases span.len(),
{
    match spar_spec(chars, span, ',') {
        Err(_) => Ok((acc, span)),
        Ok((_, behind)) => match type_hinted_spec(chars, behind) {
            Err(_) => Ok((acc, span)),
            Ok((name, rest)) => if shorter(rest, span) {
                params_rest(chars, rest, acc.push(name))
            } else {
                Err(mismatch(span))
            },
        },
    }
}

/// A parameter list: names with optional type hints, with commas between
/// them and an optional comma at the end.
#[verifier::opaque]
pub open spec fn params_spec(chars: Seq<char>, span: Span) -> Parse<Seq<Seq<char>>> {
    let listed = match type_hinted_spec(chars, span) {
        Err(_) => Ok((Seq::<Seq<char>>::empty(), span)),
        Ok((name, rest)) => params_rest(chars, rest, seq![name]),
    };
    match listed {
        Err(f) => Err(f),
        Ok((names, rest)) => match spar_spec(chars, rest, ',') {
            Err(_) => Ok((names, rest)),
            Ok((_, after)) => Ok((names, after)),
        },
    }
}

/// A parameter list between two signs.
#[verifier::opaque]
pub open spec fn params_between(chars: Seq<char>, span: Span, open: char, close: char) -> Parse<
    Seq<Seq<char>>,
> {
    match spar_spec(chars, span, open) {
        Err(f) => Err(f),
        Ok((_, inner)) => match params_spec(chars, inner) {
            Err(f) => Err(f),
            Ok((names, rest)) => match spar_spec(chars, rest, close) {
                Err(f) => Err(f),
                Ok((_, after)) => Ok((names, after)),
            },
        },
    }
}

/// The nodes of a sequence, as many as there are, behind those of `acc`.
pub open spec fn nodes_from(chars: Seq<char>, span: Span, acc: Seq<Tree>, depth: nat) -> Parse<
    Seq<Tree>,
>
    decreases depth, 40nat, span.len(),
{
    match node(chars, span, depth) {
        Err(f) => if f.fatal {
            Err(f)
        } else {
            Ok((acc, span))
        },
        Ok((tree, rest)) => if shorter(rest, span) {
            nodes_from(chars, rest, acc.push(tree), depth)
        } else {
            Err(mismatch(span))
        },
    }
}

/// One node: a statement, a block, or an expression that a semicolon ends.
/// White space and comments before and behind it are skipped.
pub open spec fn node(chars: Seq<char>, span: Span, depth: nat) -> Parse<Tree>
    decreases depth, 39nat, 0nat,
{
    let s = eat_comments_spec(chars, span);
    let found = match statement(chars, s, depth) {
        Ok(v) => Ok(v),
        Err(f) => if f.fatal {
            Err(f)
        } else {
            match block(chars, s, depth) {
                Ok((trees, rest)) => Ok((Tree::Block(trees), rest)),
                Err(f) => if f.fatal {
                    Err(f)
                } else {
                    match terminated_expr(chars, s, depth) {
                        Ok(v) => Ok(v),
                        Err(f) => if f.fatal {
                            Err(f)
                        } else {
                            Err(mismatch(s))
                        },
                    }
                },
            }
        },
    };
    match named(found, PettyParseError::Node, s) {
        Err(f) => Err(f),
        Ok((tree, rest)) => Ok((tree, eat_comments_spec(chars, rest))),
    }
}

/// A statement: a conditional, a loop, `break`, `return`, or the
/// definition of a function or a class.
pub open spec fn statement(chars: Seq<char>, span: Span, depth: nat) -> Parse<Tree>
    decreases depth, 38nat, 0nat,
{
    match if_segment(chars, span, "if"@, depth) {
        Ok(v) => Ok(v),
        Err(f) => if f.fatal {
            Err(f)
        } else {
            match while_statement(chars, span, depth) {
                Ok(v) => Ok(v),
                Err(f) => if f.fatal {
                    Err(f)
                } else {
                    match for_statement(chars, span, depth) {
                        Ok(v) => Ok(v),
                        Err(f) => if f.fatal {
                            Err(f)
                        } else {
                            match break_statement(chars, span) {
                                Ok(v) => Ok(v),
                                Err(f) => if f.fatal {
                                    Err(f)
                                } else {
                                    match return_statement(chars, span, depth) {
                                        Ok(v) => Ok(v),
                                        Err(f) => if f.fatal {
                                            Err(f)
                                        } else {
                                            match function_def(chars, span, depth) {
                                                Ok(v) => Ok(v),
                                                Err(f) => if f.fatal {
                                                    Err(f)
                                                } else {
                                                    match class_def(chars, span, depth) {
                                                        Ok(v) => Ok(v),
                                                        Err(f) => if f.fatal {
                                                            Err(f)
                                                        } else {
                                                            Err(mismatch(span))
                                                        },
                                                    }
                                                },
                                            }
                                        },
                                    }
                                },
                            }
                        },
                    }
                },
            }
        },
    }
}

/// An expression that a semicolon ends: an assignment, an assignment to an
/// item, or any other expression. A missing semicolon is a fatal fault.
pub open spec fn terminated_expr(chars: Seq<char>, span: Span, depth: nat) -> Parse<Tree>
    decreases depth, 37nat, 0nat,
{
    let expr = match set_equals(chars, span, depth) {
        Ok(v) => Ok(v),
        Err(f) => if f.fatal {
            Err(f)
        } else {
            match set_item_index(chars, span, depth) {
                Ok(v) => Ok(v),
                Err(f) => if f.fatal {
                    Err(f)
                } else {
                    match bin_expr(chars, span, depth) {
                        Ok(v) => Ok(v),
                        Err(f) => if f.fatal {
                            Err(f)
                        } else {
                            Err(mismatch(span))
                        },
                    }
                },
            }
        },
    };
    let ended = match expr {
        Err(f) => Err(f),
        Ok((tree, rest)) => match cut(spar_spec(chars, rest, ';')) {
            Err(f) => Err(f),
            Ok((_, after)) => Ok((tree, after)),
        },
    };
    named(ended, PettyParseError::TermExpr, span)
}

/// A conditional behind its keyword, `if` or `elif`: a condition, a block,
/// and an optional alternative. Behind the keyword every fault is fatal.
pub open spec fn if_segment(chars: Seq<char>, span: Span, keyword: Seq<char>, depth: nat) -> Parse<
    Tree,
>
    decreases depth, 37nat, 0nat,
{
    match keyword_spec(chars, span, keyword) {
        Err(f) => Err(f),
        Ok((_, s1)) => match cut(bin_expr(chars, s1, depth)) {
            Err(f) => Err(f),
            Ok((condition, s2)) => match cut(block(chars, s2, depth)) {
                Err(f) => Err(f),
                Ok((trees, s3)) => match or_else_segment(chars, s3, depth) {
                    Ok((alternative, s4)) => Ok(
                        (
                            Tree::IfState(
                                Box::new(condition),
                                trees,
                                Some(Box::new(alternative)),
                            ),
                            s4,
                        ),
                    ),
                    Err(f) => if f.fatal {
                        Err(f)
                    } else {
                        Ok((Tree::IfState(Box::new(condition), trees, None), s3))
                    },
                },
            },
        },
    }
}

/// The alternative of a conditional: `elif` with a conditional of its own,
/// or `else` with a block.
pub open spec fn or_else_segment(chars: Seq<char>, span: Span, depth: nat) -> Parse<Tree>
    decreases depth, 36nat, 0nat,
{
    let chained = if depth == 0 {
        match keyword_spec(chars, span, "elif"@) {
            Err(f) => Err(f),
            Ok((_, rest)) => Err(too_deep(rest)),
        }
    } else {
        if_segment(chars, span, "elif"@, (depth - 1) as nat)
    };
    match chained {
        Ok(v) => Ok(v),
        Err(f) => if f.fatal {
            Err(f)
        } else {
            match keyword_spec(chars, span, "else"@) {
                Err(_) => Err(mismatch(span)),
                Ok((_, s1)) => match block(chars, s1, depth) {
                    Err(f) => if f.fatal {
                        Err(f)
                    } else {
                        Err(mismatch(span))
                    },
                    Ok((trees, s2)) => Ok((Tree::Block(trees), s2)),
                },
            }
        },
    }
}

/// A `while` loop: the keyword, a condition and a block.
pub open spec fn while_statement(chars: Seq<char>, span: Span, depth: nat) -> Parse<Tree>
    decreases depth, 35nat, 0nat,
{
    match keyword_spec(chars, span, "while"@) {
        Err(f) => Err(f),
        Ok((_, s1)) => match cut(bin_expr(chars, s1, depth)) {
            Err(f) => Err(f),
            Ok((condition, s2)) => match cut(block(chars, s2, depth)) {
                Err(f) => Err(f),
                Ok((trees, s3)) => Ok((Tree::WhileLoop(Box::new(condition), trees), s3)),
            },
        },
    }
}

/// A `for` loop: the keyword, the loop variable, a colon, the source and a
/// block.
pub open spec fn for_statement(chars: Seq<char>, span: Span, depth: nat) -> Parse<Tree>
    decreases depth, 35nat, 0nat,
{
    match keyword_spec(chars, span, "for"@) {
        Err(f) => Err(f),
        Ok((_, s1)) => match cut(sp_ident_spec(chars, s1)) {
            Err(f) => Err(f),
            Ok((target, s2)) => match cut(spar_spec(chars, s2, ':')) {
                Err(f) => Err(f),
                Ok((_, s3)) => match cut(bin_expr(chars, s3, depth)) {
                    Err(f) => Err(f),
                    Ok((source, s4)) => match cut(block(chars, s4, depth)) {
                        Err(f) => Err(f),
                        Ok((trees, s5)) => Ok((Tree::ForLoop(target, Box::new(source), trees), s5)),
                    },
                },
            },
        },
    }
}

/// A `break`: the keyword and a semicolon.
pub open spec fn break_statement(chars: Seq<char>, span: Span) -> Parse<Tree> {
    match keyword_spec(chars, span, "break"@) {
        Err(f) => Err(f),
        Ok((_, s1)) => match cut(spar_spec(chars, s1, ';')) {
            Err(f) => Err(f),
            Ok((_, s2)) => Ok((Tree::BreakState, s2)),
        },
    }
}

/// A `return`: the keyword, an optional expression behind a space or a
/// line break, and a semicolon. Without an expression the null literal is
/// returned.
pub open spec fn return_statement(chars: Seq<char>, span: Span, depth: nat) -> Parse<Tree>
    decreases depth, 35nat, 0nat,
{
    match keyword_spec(chars, span, "return"@) {
        Err(f) => Err(f),
        Ok((_, s1)) => {
            let value = if s1.pos < s1.end <= chars.len() && (chars[s1.pos as int] == ' '
                || chars[s1.pos as int] == '\n') {
                match bin_expr(chars, s1.skip(1), depth) {
                    Ok(v) => Ok(v),
                    Err(f) => if f.fatal {
                        Err(f)
                    } else {
                        Ok((Tree::Null, s1))
                    },
                }
            } else {
                Ok((Tree::Null, s1))
            };
            match value {
                Err(f) => Err(f),
                Ok((tree, s2)) => match cut(spar_spec(chars, s2, ';')) {
                    Err(f) => Err(f),
                    Ok((_, s3)) => Ok((Tree::ReturnState(Box::new(tree)), s3)),
                },
            }
        },
    }
}

/// The definition of a function: the keyword, a name, the parameters
/// between round brackets, and a block.
pub open spec fn function_def(chars: Seq<char>, span: Span, depth: nat) -> Parse<Tree>
    decreases depth, 34nat, 0nat,
{
    match keyword_spec(chars, span, "fn"@) {
        Err(f) => Err(f),
        Ok((_, s1)) => match cut(sp_ident_spec(chars, s1)) {
            Err(f) => Err(f),
            Ok((name, s2)) => match cut(params_between(chars, s2, '(', ')')) {
                Err(f) => Err(f),
                Ok((params, s3)) => match cut(block(chars, s3, depth)) {
                    Err(f) => Err(f),
                    Ok((trees, s4)) => Ok((Tree::FuncDef(name, params, trees), s4)),
                },
            },
        },
    }
}

/// The function definitions of a class body, as many as there are.
pub open spec fn methods_from(chars: Seq<char>, span: Span, acc: Seq<Tree>, depth: nat) -> Parse<
    Seq<Tree>,
>
    decreases depth, 36nat, span.len(),
{
    match function_def(chars, span, depth) {
        Err(f) => if f.fatal {
            Err(f)
        } else {
            Ok((acc, span))
        },
        Ok((tree, rest)) => if shorter(rest, span) {
            methods_from(chars, rest, acc.push(tree), depth)
        } else {
            Err(mismatch(span))
        },
    }
}

/// The definition of a class: the keyword, a name, the fields between
/// round brackets, and a semicolon or the methods between braces.
pub open spec fn class_def(chars: Seq<char>, span: Span, depth: nat) -> Parse<Tree>
    decreases depth, 37nat, 0nat,
{
    match keyword_spec(chars, span, "class"@) {
        Err(f) => Err(f),
        Ok((_, s1)) => match cut(sp_ident_spec(chars, s1)) {
            Err(f) => Err(f),
            Ok((name, s2)) => match cut(params_between(chars, s2, '(', ')')) {
                Err(f) => Err(f),
                Ok((fields, s3)) => match spar_spec(chars, s3, ';') {
                    Ok((_, s4)) => Ok((Tree::ClassDef(name, fields, Seq::empty()), s4)),
                    Err(_) => match cut(spar_spec(chars, s3, '{')) {
                        Err(f) => Err(f),
                        Ok((_, s4)) => match cut(methods_from(chars, s4, Seq::empty(), depth)) {
                            Err(f) => Err(f),
                            Ok((methods, s5)) => match cut(spar_spec(chars, s5, '}')) {
                                Err(f) => Err(f),
                                Ok((_, s6)) => Ok((Tree::ClassDef(name, fields, methods), s6)),
                            },
                        },
                    },
                },
            },
        },
    }
}

/// A block: nodes between braces.
pub open spec fn block(chars: Seq<char>, span: Span, depth: nat) -> Parse<Seq<Tree>>
    decreases depth, 20nat, 0nat,
{
    match spar_spec(chars, span, '{') {
        Err(f) => Err(f),
        Ok((_, inner)) => if depth == 0 {
            Err(too_deep(inner))
        } else {
            match nodes_from(chars, inner, Seq::empty(), (depth - 1) as nat) {
                Err(f) => Err(f),
                Ok((trees, rest)) => match spar_spec(chars, rest, '}') {
                    Err(f) => Err(f),
                    Ok((_, after)) => Ok((trees, after)),
                },
            }
        },
    }
}

/// An assignment: a name with an optional type hint, an equals sign, and
/// an expression.
pub open spec fn set_equals(chars: Seq<char>, span: Span, depth: nat) -> Parse<Tree>
    decreases depth, 21nat, 0nat,
{
    match type_hinted_spec(chars, span) {
        Err(f) => Err(f),
        Ok((name, s1)) => match spar_spec(chars, s1, '=') {
            Err(f) => Err(f),
            Ok((_, s2)) => match bin_expr(chars, s2, depth) {
                Err(f) => Err(f),
                Ok((value, s3)) => Ok((Tree::SetEq(name, Box::new(value)), s3)),
            },
        },
    }
}

/// A name and an index between square brackets behind it.
pub open spec fn indexed(chars: Seq<char>, span: Span, depth: nat) -> Parse<(Seq<char>, Tree)>
    decreases depth, 3nat, 0nat,
{
    match sp_ident_spec(chars, span) {
        Err(f) => Err(f),
        Ok((name, s1)) => match spar_spec(chars, s1, '[') {
            Err(f) => Err(f),
            Ok((_, s2)) => if depth == 0 {
                Err(too_deep(s2))
            } else {
                match bin_expr(chars, s2, (depth - 1) as nat) {
                    Err(f) => Err(f),
                    Ok((index, s3)) => match spar_spec(chars, s3, ']') {
                        Err(f) => Err(f),
                        Ok((_, s4)) => Ok(((name, index), s4)),
                    },
                }
            },
        },
    }
}

/// An assignment to an item: a name, an index between square brackets, an
/// equals sign, and an expression.
pub open spec fn set_item_index(chars: Seq<char>, span: Span, depth: nat) -> Parse<Tree>
    decreases depth, 21nat, 0nat,
{
    match indexed(chars, span, depth) {
        Err(f) => Err(f),
        Ok(((name, index), s1)) => match spar_spec(chars, s1, '=') {
            Err(f) => Err(f),
            Ok((_, s2)) => match bin_expr(chars, s2, depth) {
                Err(f) => Err(f),
                Ok((value, s3)) => Ok(
                    (Tree::SetItemIndex(name, Box::new(index), Box::new(value)), s3),
                ),
            },
        },
    }
}

/// An expression.
pub open spec fn bin_expr(chars: Seq<char>, span: Span, depth: nat) -> Parse<Tree>
    decreases depth, 19nat, 0nat,
{
    named(binary(chars, span, 3, depth), PettyParseError::Expr, span)
}

/// An expression of one level of precedence: operands of the next level,
/// with operators of this level between them, grouped from the left.
pub open spec fn binary(chars: Seq<char>, span: Span, level: nat, depth: nat) -> Parse<Tree>
    decreases depth, 12 + 2 * level, 0nat,
{
    match operand(chars, span, level, depth) {
        Err(f) => Err(f),
        Ok((first, rest)) => binary_rest(chars, rest, level, first, depth),
    }
}

/// An operand of one level of precedence.
pub open spec fn operand(chars: Seq<char>, span: Span, level: nat, depth: nat) -> Parse<Tree>
    decreases depth, 10 + 2 * level, 1nat,
{
    if level == 0 {
        get_item(chars, span, depth)
    } else {
        binary(chars, span, (level - 1) as nat, depth)
    }
}

/// The operators and operands behind the first operand of a level, as many
/// as there are.
pub open spec fn binary_rest(chars: Seq<char>, span: Span, level: nat, acc: Tree, depth: nat) -> Parse<
    Tree,
>
    decreases depth, 11 + 2 * level, span.len(),
{
    match binop_spec(chars, span, level) {
        Err(_) => Ok((acc, span)),
        Ok((op, s1)) => match operand(chars, s1, level, depth) {
            Err(f) => if f.fatal {
                Err(f)
            } else {
                Ok((acc, span))
            },
            Ok((rhs, s2)) => if shorter(s2, span) {
                binary_rest(chars, s2, level, Tree::BinExpr(op, Box::new(acc), Box::new(rhs)), depth)
            } else {
                Err(mismatch(span))
            },
        },
    }
}

/// A chain of member accesses: a factor, and names or calls behind points.
pub open spec fn get_item(chars: Seq<char>, span: Span, depth: nat) -> Parse<Tree>
    decreases depth, 10nat, 0nat,
{
    match factor(chars, span, depth) {
        Err(f) => Err(f),
        Ok((first, rest)) => get_item_rest(chars, rest, first, depth),
    }
}

/// The member accesses behind the first factor, as many as there are.
pub open spec fn get_item_rest(chars: Seq<char>, span: Span, acc: Tree, depth: nat) -> Parse<Tree>
    decreases depth, 9nat, span.len(),
{
    match spar_spec(chars, span, '.') {
        Err(_) => Ok((acc, span)),
        Ok((_, s1)) => match get_item_suffix(chars, s1, depth) {
            Err(f) => if f.fatal {
                Err(f)
            } else {
                Ok((acc, span))
            },
            Ok((rhs, s2)) => if shorter(s2, span) {
                get_item_rest(
                    chars,
                    s2,
                    Tree::BinExpr(BinOp::GetItem, Box::new(acc), Box::new(rhs)),
                    depth,
                )
            } else {
                Err(mismatch(span))
            },
        },
    }
}

/// What can stand behind a point: a call or a name.
pub open spec fn get_item_suffix(chars: Seq<char>, span: Span, depth: nat) -> Parse<Tree>
    decreases depth, 4nat, 0nat,
{
    match function_call(chars, span, depth) {
        Ok(v) => Ok(v),
        Err(f) => if f.fatal {
            Err(f)
        } else {
            match sp_ident_spec(chars, span) {
                Ok((name, rest)) => Ok((Tree::Ident(name), rest)),
                Err(_) => Err(mismatch(span)),
            }
        },
    }
}

/// A factor: an expression between round brackets, a value, or a unary
/// expression.
pub open spec fn factor(chars: Seq<char>, span: Span, depth: nat) -> Parse<Tree>
    decreases depth, 8nat, 0nat,
{
    match paren_bin_expr(chars, span, depth) {
        Ok(v) => Ok(v),
        Err(f) => if f.fatal {
            Err(f)
        } else {
            match node_value(chars, span, depth) {
                Ok(v) => Ok(v),
                Err(f) => if f.fatal {
                    Err(f)
                } else {
                    match unary_expr(chars, span, depth) {
                        Ok(v) => Ok(v),
                        Err(f) => if f.fatal {
                            Err(f)
                        } else {
                            Err(mismatch(span))
                        },
                    }
                },
            }
        },
    }
}

/// An expression between round brackets.
pub open spec fn paren_bin_expr(chars: Seq<char>, span: Span, depth: nat) -> Parse<Tree>
    decreases depth, 7nat, 0nat,
{
    match spar_spec(chars, span, '(') {
        Err(f) => Err(f),
        Ok((_, s1)) => if depth == 0 {
            Err(too_deep(s1))
        } else {
            match bin_expr(chars, s1, (depth - 1) as nat) {
                Err(f) => Err(f),
                Ok((tree, s2)) => match spar_spec(chars, s2, ')') {
                    Err(f) => Err(f),
                    Ok((_, s3)) => Ok((tree, s3)),
                },
            }
        },
    }
}

/// A value: a unary expression, a plain value, or a closure.
pub open spec fn node_value(chars: Seq<char>, span: Span, depth: nat) -> Parse<Tree>
    decreases depth, 6nat, 0nat,
{
    match unary_expr(chars, span, depth) {
        Ok(v) => Ok(v),
        Err(f) => if f.fatal {
            Err(f)
        } else {
            match node_value_raw(chars, span, depth) {
                Ok(v) => Ok(v),
                Err(f) => if f.fatal {
                    Err(f)
                } else {
                    match closure(chars, span, depth) {
                        Ok(v) => Ok(v),
                        Err(f) => if f.fatal {
                            Err(f)
                        } else {
                            Err(mismatch(span))
                        },
                    }
                },
            }
        },
    }
}

/// A unary expression: an operator and a value or an expression.
pub open spec fn unary_expr(chars: Seq<char>, span: Span, depth: nat) -> Parse<Tree>
    decreases depth, 5nat, 0nat,
{
    match unary_op_spec(chars, span) {
        Err(f) => Err(f),
        Ok((op, s1)) => if depth == 0 {
            Err(too_deep(s1))
        } else {
            let d = (depth - 1) as nat;
            match node_value(chars, s1, d) {
                Ok((tree, s2)) => Ok((Tree::UnaryOp(op, Box::new(tree)), s2)),
                Err(f) => if f.fatal {
                    Err(f)
                } else {
                    match bin_expr(chars, s1, d) {
                        Ok((tree, s2)) => Ok((Tree::UnaryOp(op, Box::new(tree)), s2)),
                        Err(f) => if f.fatal {
                            Err(f)
                        } else {
                            Err(mismatch(s1))
                        },
                    }
                },
            }
        },
    }
}

/// A plain value: a literal, a call, an item read by index, or a name.
pub open spec fn node_value_raw(chars: Seq<char>, span: Span, depth: nat) -> Parse<Tree>
    decreases depth, 4nat, 0nat,
{
    match literal(chars, span, depth) {
        Ok(v) => Ok(v),
        Err(f) => if f.fatal {
            Err(f)
        } else {
            match function_call(chars, span, depth) {
                Ok(v) => Ok(v),
                Err(f) => if f.fatal {
                    Err(f)
                } else {
                    match indexed(chars, span, depth) {
                        Ok(((name, index), rest)) => Ok(
                            (Tree::GetItemIndex(name, Box::new(index)), rest),
                        ),
                        Err(f) => if f.fatal {
                            Err(f)
                        } else {
                            match sp_ident_spec(chars, span) {
                                Ok((name, rest)) => Ok((Tree::Ident(name), rest)),
                                Err(_) => Err(mismatch(span)),
                            }
                        },
                    }
                },
            }
        },
    }
}

/// A closure: the parameters between two bars, and a block.
pub open spec fn closure(chars: Seq<char>, span: Span, depth: nat) -> Parse<Tree>
    decreases depth, 4nat, 0nat,
{
    match params_between(chars, span, '|', '|') {
        Err(f) => Err(f),
        Ok((params, s1)) => if depth == 0 {
            Err(too_deep(s1))
        } else {
            match block(chars, s1, (depth - 1) as nat) {
                Err(f) => Err(f),
                Ok((trees, s2)) => Ok((Tree::Closure(params, trees), s2)),
            }
        },
    }
}

/// The expressions of a list behind the first, each behind a comma. With
/// `spaced`, white space and comments before an expression do not count to
/// it.
pub open spec fn exprs_rest(
    chars: Seq<char>,
    span: Span,
    acc: Seq<Tree>,
    spaced: bool,
    depth: nat,
) -> Parse<Seq<Tree>>
    decreases depth, 41nat, span.len(),
{
    match spar_spec(chars, span, ',') {
        Err(_) => Ok((acc, span)),
        Ok((_, s1)) => match bin_expr(
            chars,
            if spaced {
                eat_comments_spec(chars, s1)
            } else {
                s1
            },
            depth,
        ) {
            Err(f) => if f.fatal {
                Err(f)
            } else {
                Ok((acc, span))
            },
            Ok((tree, s2)) => if shorter(s2, span) {
                exprs_rest(chars, s2, acc.push(tree), spaced, depth)
            } else {
                Err(mismatch(span))
            },
        },
    }
}

/// Expressions with commas between them, as many as there are.
pub open spec fn exprs(chars: Seq<char>, span: Span, spaced: bool, depth: nat) -> Parse<Seq<Tree>>
    decreases depth, 42nat, 0nat,
{
    match bin_expr(
        chars,
        if spaced {
            eat_comments_spec(chars, span)
        } else {
            span
        },
        depth,
    ) {
        Err(f) => if f.fatal {
            Err(f)
        } else {
            Ok((Seq::empty(), span))
        },
        Ok((tree, rest)) => exprs_rest(chars, rest, seq![tree], spaced, depth),
    }
}

/// A call: a name and the arguments between round brackets. Behind the
/// arguments a missing bracket is a fatal fault.
pub open spec fn function_call(chars: Seq<char>, span: Span, depth: nat) -> Parse<Tree>
    decreases depth, 3nat, 0nat,
{
    match sp_ident_spec(chars, span) {
        Err(f) => Err(f),
        Ok((name, s1)) => match spar_spec(chars, s1, '(') {
            Err(f) => Err(f),
            Ok((_, s2)) => if depth == 0 {
                Err(too_deep(s2))
            } else {
                match exprs(chars, eat_comments_spec(chars, s2), true, (depth - 1) as nat) {
                    Err(f) => Err(f),
                    Ok((args, s3)) => match cut(spar_spec(chars, s3, ')')) {
                        Err(f) => Err(f),
                        Ok((_, s4)) => Ok((Tree::FuncCall(name, args), s4)),
                    },
                }
            },
        },
    }
}

/// A list literal: expressions between square brackets, with commas
/// between them and an optional comma at the end. A missing closing
/// bracket is a fatal fault.
pub open spec fn list(chars: Seq<char>, span: Span, depth: nat) -> Parse<Seq<Tree>>
    decreases depth, 2nat, 0nat,
{
    match char_spec(chars, span, '[') {
        Err(f) => Err(f),
        Ok((_, s1)) => if depth == 0 {
            Err(too_deep(s1))
        } else {
            match exprs(chars, s1, false, (depth - 1) as nat) {
                Err(f) => Err(f),
                Ok((items, s2)) => {
                    let s3 = match spar_spec(chars, s2, ',') {
                        Ok((_, s)) => s,
                        Err(_) => s2,
                    };
                    match cut(spar_spec(chars, s3, ']')) {
                        Err(f) => Err(f),
                        Ok((_, s4)) => Ok((items, s4)),
                    }
                },
            }
        },
    }
}

/// A literal behind white space and comments: a truth value, a number with
/// a fraction, a whole number, a string, a list, or `null`.
pub open spec fn literal(chars: Seq<char>, span: Span, depth: nat) -> Parse<Tree>
    decreases depth, 3nat, 0nat,
{
    let s = eat_comments_spec(chars, span);
    let found = match boolean_spec(chars, s) {
        Ok((b, rest)) => Ok((Tree::Bool(b), rest)),
        Err(_) => match float_spec(chars, s) {
            Ok((text, rest)) => Ok((Tree::Float(text), rest)),
            Err(_) => match int_spec(chars, s) {
                Ok((i, rest)) => Ok((Tree::Int(i), rest)),
                Err(_) => match string_spec(chars, s) {
                    Ok((text, rest)) => Ok((Tree::Str(text), rest)),
                    Err(f) => if f.fatal {
                        Err(f)
                    } else {
                        match list(chars, s, depth) {
                            Ok((items, rest)) => Ok((Tree::List(items), rest)),
                            Err(f) => if f.fatal {
                                Err(f)
                            } else {
                                match keyword_spec(chars, s, "null"@) {
                                    Ok((_, rest)) => Ok((Tree::Null, rest)),
                                    Err(_) => Err(mismatch(s)),
                                }
                            },
                        }
                    },
                },
            },
        },
    };
    named(found, PettyParseError::Literal, s)
}

/// A program: nodes, as many as there are, and nothing behind them.
pub open spec fn program(chars: Seq<char>, depth: nat) -> Result<Tree, Fault> {
    match nodes_from(
        chars,
        Span { pos: 0, end: chars.len() as usize },
        Seq::empty(),
        depth,
    ) {
        Err(f) => Err(f),
        Ok((trees, rest)) => if rest.len() == 0 {
            Ok(Tree::Globals(trees))
        } else {
            Err(mismatch(rest))
        },
    }
}

} // verus!
