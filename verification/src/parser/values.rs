//! The parsers of the lexical values: numbers, strings, truth values,
//! operators and parameter lists.

use crate::ast::{names, BinOp, UnaryOp};
use crate::error::PettyParseError;
use crate::parser::grammar::{
    binop_spec, boolean_spec, digit_value, digits_value, float_spec, int_spec, params_between,
    params_rest, params_spec, string_spec, unary_op_spec,
};
use crate::parser::lexer::{
    digits_end, eat_comments, is_digit, mismatch_at, one_char, scan_digits, scan_quote, spar,
    string_of, tag, text_parsed, type_hinted, type_hinted_spec, Fault, FaultKind, Parse, Span,
};
use vstd::prelude::*;

verus! {

/// Every character of a run of digits is a digit.
pub proof fn lemma_digits(chars: Seq<char>, pos: nat, end: nat, i: nat)
    requires
        pos <= i < digits_end(chars, pos, end),
    ensures
        is_digit(chars[i as int]),
        digits_end(chars, pos, end) <= end,
        end <= chars.len(),
    decreases end - pos,
{
    if pos < end <= chars.len() && is_digit(chars[pos as int]) {
        if i > pos {
            lemma_digits(chars, pos + 1, end, i);
        } else {
            lemma_digits_bound(chars, pos + 1, end);
        }
    }
}

/// A run of digits ends within the input.
pub proof fn lemma_digits_bound(chars: Seq<char>, pos: nat, end: nat)
    requires
        pos <= end,
    ensures
        pos <= digits_end(chars, pos, end) <= end,
    decreases end - pos,
{
    if pos < end <= chars.len() && is_digit(chars[pos as int]) {
        lemma_digits_bound(chars, pos + 1, end);
    }
}

/// More digits never make a number smaller.
pub proof fn lemma_digits_value_grows(chars: Seq<char>, pos: nat, stop: nat, acc: int)
    requires
        acc >= 0,
        forall|i: int| pos <= i < stop ==> is_digit(#[trigger] chars[i]),
    ensures
        digits_value(chars, pos, stop, acc) >= acc,
    decreases stop - pos,
{
    if pos < stop <= chars.len() {
        assert(is_digit(chars[pos as int]));
        lemma_digits_value_grows(chars, pos + 1, stop, acc * 10 + digit_value(chars[pos as int]));
    }
}

/// Parses a whole number.
#[inline]
pub fn integer(chars: &Vec<char>, span: Span) -> (r: Result<(i128, Span), Fault>)
    requires
        span.wf(chars@),
    ensures
        r == int_spec(chars@, span),
        r is Ok ==> r.unwrap().1.wf(chars@),
{
    reveal(int_spec);
    let stop = scan_digits(chars, span.pos, span.end);
    if stop == span.pos {
        return Err(mismatch_at(span));
    }
    let mut value: i128 = 0;
    let mut p = span.pos;
    proof {
        assert forall|i: int| span.pos <= i < stop implies is_digit(#[trigger] chars@[i]) by {
            lemma_digits(chars@, span.pos as nat, span.end as nat, i as nat);
        }
    }
    while p < stop
        invariant
            span.pos <= p <= stop <= span.end <= chars@.len(),
            span.pos < stop,
            stop == digits_end(chars@, span.pos as nat, span.end as nat),
            value >= 0,
            forall|i: int| span.pos <= i < stop ==> is_digit(#[trigger] chars@[i]),
            digits_value(chars@, span.pos as nat, stop as nat, 0) == digits_value(
                chars@,
                p as nat,
                stop as nat,
                value as int,
            ),
        decreases stop - p,
    {
        reveal(int_spec);
        assert(is_digit(chars@[p as int]));
        let d = (chars[p] as u32 - '0' as u32) as i128;
        let next = match value.checked_mul(10) {
            Some(v) => v.checked_add(d),
            None => None,
        };
        match next {
            Some(v) => {
                value = v;
            },
            None => {
                proof {
                    let grown = value * 10 + digit_value(chars@[p as int]);
                    assert(d == digit_value(chars@[p as int]));
                    assert(grown > i128::MAX);
                    assert(digits_value(chars@, p as nat, stop as nat, value as int)
                        == digits_value(chars@, (p + 1) as nat, stop as nat, grown));
                    lemma_digits_value_grows(chars@, (p + 1) as nat, stop as nat, grown);
                }
                return Err(mismatch_at(span));
            },
        }
        p += 1;
    }
    Ok((value, Span { pos: stop, end: span.end }))
}

/// Parses a number with a fraction and gives the text that was read.
pub fn float(chars: &Vec<char>, span: Span) -> (r: Result<(String, Span), Fault>)
    requires
        span.wf(chars@),
    ensures
        text_parsed(r, float_spec(chars@, span)),
        r is Ok ==> r.unwrap().1.wf(chars@),
{
    reveal(float_spec);
    let fault = Fault { fatal: false, kind: FaultKind::Petty(PettyParseError::Float), at: span };
    let signed = eat_comments(chars, span);
    let unsigned = if signed.pos < signed.end && (chars[signed.pos] == '+' || chars[signed.pos]
        == '-') {
        Span { pos: signed.pos + 1, end: signed.end }
    } else {
        signed
    };
    let whole = eat_comments(chars, unsigned);
    let point = scan_digits(chars, whole.pos, whole.end);
    if whole.pos < point && point < whole.end && chars[point] == '.' {
        let stop = scan_digits(chars, point + 1, whole.end);
        if point + 1 < stop {
            Ok((string_of(chars, span.pos, stop), Span { pos: stop, end: whole.end }))
        } else {
            Err(fault)
        }
    } else {
        Err(fault)
    }
}

/// Parses a string and gives the text between its quotes.
#[inline]
pub fn string(chars: &Vec<char>, span: Span) -> (r: Result<(String, Span), Fault>)
    requires
        span.wf(chars@),
    ensures
        text_parsed(r, string_spec(chars@, span)),
        r is Ok ==> r.unwrap().1.wf(chars@),
{
    reveal(string_spec);
    match one_char(chars, span, '"') {
        Err(f) => Err(f),
        Ok((_, inner)) => {
            let stop = scan_quote(chars, inner.pos, inner.end);
            let rest = Span { pos: stop, end: inner.end };
            match one_char(chars, rest, '"') {
                Err(f) => Err(Fault { fatal: true, kind: f.kind, at: f.at }),
                Ok((_, after)) => Ok((string_of(chars, inner.pos, stop), after)),
            }
        },
    }
}

/// Parses a truth value.
#[inline]
pub fn boolean(chars: &Vec<char>, span: Span) -> (r: Result<(bool, Span), Fault>)
    requires
        span.wf(chars@),
    ensures
        r == boolean_spec(chars@, span),
        r is Ok ==> r.unwrap().1.wf(chars@),
{
    reveal(boolean_spec);
    proof {
        reveal_strlit("true");
        reveal_strlit("false");
    }
    match tag(chars, span, "true") {
        Ok((_, rest)) => Ok((true, rest)),
        Err(_) => match tag(chars, span, "false") {
            Ok((_, rest)) => Ok((false, rest)),
            Err(_) => Err(mismatch_at(span)),
        },
    }
}

/// Whether the input starts with a text; if so, what is left behind it.
pub fn after_tag(chars: &Vec<char>, span: Span, text: &str) -> (r: Option<Span>)
    requires
        span.wf(chars@),
    ensures
        r.is_some() == crate::parser::lexer::starts_with(chars@, span, text@),
        r.is_some() ==> r.unwrap() == span.skip(text@.len()) && r.unwrap().wf(chars@),
{
    match tag(chars, span, text) {
        Ok((_, rest)) => Some(rest),
        Err(_) => None,
    }
}

/// Parses a binary operator of one level of precedence.
pub fn binop(chars: &Vec<char>, span: Span, level: u8) -> (r: Result<(BinOp, Span), Fault>)
    requires
        span.wf(chars@),
    ensures
        r == binop_spec(chars@, span, level as nat),
        r is Ok ==> r.unwrap().1.wf(chars@),
{
    reveal(binop_spec);
    let s = eat_comments(chars, span);
    proof {
        reveal_strlit("<=");
        reveal_strlit(">=");
        reveal_strlit("<");
        reveal_strlit(">");
        reveal_strlit("==");
        reveal_strlit("!=");
        reveal_strlit("&&");
        reveal_strlit("||");
    }
    if level == 0 {
        if one_char(chars, s, '*').is_ok() {
            Ok((BinOp::Mul, Span { pos: s.pos + 1, end: s.end }))
        } else if one_char(chars, s, '/').is_ok() {
            Ok((BinOp::Div, Span { pos: s.pos + 1, end: s.end }))
        } else if one_char(chars, s, '%').is_ok() {
            Ok((BinOp::Mod, Span { pos: s.pos + 1, end: s.end }))
        } else {
            Err(mismatch_at(s))
        }
    } else if level == 1 {
        if one_char(chars, s, '+').is_ok() {
            Ok((BinOp::Add, Span { pos: s.pos + 1, end: s.end }))
        } else if one_char(chars, s, '-').is_ok() {
            Ok((BinOp::Sub, Span { pos: s.pos + 1, end: s.end }))
        } else {
            Err(mismatch_at(s))
        }
    } else if level == 2 {
        match after_tag(chars, s, "<=") {
            Some(rest) => Ok((BinOp::LTEq, rest)),
            None => match after_tag(chars, s, ">=") {
                Some(rest) => Ok((BinOp::GTEq, rest)),
                None => match after_tag(chars, s, "<") {
                    Some(rest) => Ok((BinOp::LT, rest)),
                    None => match after_tag(chars, s, ">") {
                        Some(rest) => Ok((BinOp::GT, rest)),
                        None => match after_tag(chars, s, "==") {
                            Some(rest) => Ok((BinOp::IsEq, rest)),
                            None => match after_tag(chars, s, "!=") {
                                Some(rest) => Ok((BinOp::NotEq, rest)),
                                None => Err(mismatch_at(s)),
                            },
                        },
                    },
                },
            },
        }
    } else {
        match after_tag(chars, s, "&&") {
            Some(rest) => Ok((BinOp::And, rest)),
            None => match after_tag(chars, s, "||") {
                Some(rest) => Ok((BinOp::Or, rest)),
                None => Err(mismatch_at(s)),
            },
        }
    }
}

/// Parses a unary operator.
pub fn unary_op(chars: &Vec<char>, span: Span) -> (r: Result<(UnaryOp, Span), Fault>)
    requires
        span.wf(chars@),
    ensures
        r == unary_op_spec(chars@, span),
        r is Ok ==> r.unwrap().1.wf(chars@),
{
    reveal(unary_op_spec);
    let s = eat_comments(chars, span);
    if one_char(chars, s, '!').is_ok() {
        Ok((UnaryOp::Not, Span { pos: s.pos + 1, end: s.end }))
    } else if one_char(chars, s, '+').is_ok() {
        Ok((UnaryOp::Plus, Span { pos: s.pos + 1, end: s.end }))
    } else if one_char(chars, s, '-').is_ok() {
        Ok((UnaryOp::Neg, Span { pos: s.pos + 1, end: s.end }))
    } else {
        Err(mismatch_at(s))
    }
}

/// Whether an executed parser that gives names did what the grammar says.
pub open spec fn names_parsed(r: Result<(Vec<String>, Span), Fault>, s: Parse<Seq<Seq<char>>>) -> bool {
    match s {
        Ok((texts, rest)) => r is Ok && names(r.unwrap().0@) == texts && r.unwrap().1 == rest,
        Err(f) => r is Err && r.unwrap_err() == f,
    }
}

/// Skips a comma, if there is one.
pub fn optional_comma(chars: &Vec<char>, span: Span) -> (r: Span)
    requires
        span.wf(chars@),
    ensures
        r == (match crate::parser::lexer::spar_spec(chars@, span, ',') {
            Ok((_, after)) => after,
            Err(_) => span,
        }),
        r.wf(chars@),
{
    match spar(chars, span, ',') {
        Err(_) => span,
        Ok((_, after)) => after,
    }
}

/// Parses a parameter list.
pub fn params(chars: &Vec<char>, span: Span) -> (r: Result<(Vec<String>, Span), Fault>)
    requires
        span.wf(chars@),
    ensures
        names_parsed(r, params_spec(chars@, span)),
        r is Ok ==> r.unwrap().1.wf(chars@),
{
    reveal(params_spec);
    let mut out: Vec<String> = Vec::new();
    let mut cur = span;
    match type_hinted(chars, span) {
        Err(_) => {
            assert(names(out@) =~= Seq::<Seq<char>>::empty());
            return Ok((out, optional_comma(chars, span)));
        },
        Ok((name, rest)) => {
            assert(names(out@.push(name)) =~= seq![name@]);
            out.push(name);
            cur = rest;
        },
    }
    loop
        invariant
            cur.wf(chars@),
            type_hinted_spec(chars@, span) is Ok,
            params_rest(
                chars@,
                type_hinted_spec(chars@, span).unwrap().1,
                seq![type_hinted_spec(chars@, span).unwrap().0],
            ) == params_rest(chars@, cur, names(out@)),
        decreases cur.len(),
    {
        reveal(params_spec);
        let behind = match spar(chars, cur, ',') {
            Err(_) => {
                return Ok((out, optional_comma(chars, cur)));
            },
            Ok((_, behind)) => behind,
        };
        match type_hinted(chars, behind) {
            Err(_) => {
                return Ok((out, optional_comma(chars, cur)));
            },
            Ok((name, rest)) => {
                if rest.length() < cur.length() {
                    assert(names(out@.push(name)) =~= names(out@).push(name@));
                    out.push(name);
                    cur = rest;
                } else {
                    return Err(mismatch_at(cur));
                }
            },
        }
    }
}

/// Parses a parameter list between two signs.
pub fn params_in(chars: &Vec<char>, span: Span, open: char, close: char) -> (r: Result<
    (Vec<String>, Span),
    Fault,
>)
    requires
        span.wf(chars@),
    ensures
        names_parsed(r, params_between(chars@, span, open, close)),
        r is Ok ==> r.unwrap().1.wf(chars@),
{
    reveal(params_between);
    match spar(chars, span, open) {
        Err(f) => Err(f),
        Ok((_, inner)) => match params(chars, inner) {
            Err(f) => Err(f),
            Ok((list, rest)) => match spar(chars, rest, close) {
                Err(f) => Err(f),
                Ok((_, after)) => Ok((list, after)),
            },
        },
    }
}

} // verus!
