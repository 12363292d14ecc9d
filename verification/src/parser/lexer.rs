//! The lexical layer of the parser: white space, comments, names, numbers
//! and strings, on a program given as a sequence of characters.

use crate::error::PettyParseError;
use vstd::prelude::*;
use vstd::std_specs::iter::IteratorSpec;
use vstd::string::StrSliceExecFns;

verus! {

/// What is left of the input: the characters from `pos` up to `end`.
#[derive(Clone, Copy, PartialEq, Eq, Structural, Debug)]
pub struct Span {
    pub pos: usize,
    pub end: usize,
}

/// The kind of a fault: a mismatch of the grammar without a name of its
/// own, a named parse error, or nesting beyond the depth budget.
#[derive(Clone, Copy, PartialEq, Eq, Structural, Debug)]
pub enum FaultKind {
    Syntax,
    Petty(PettyParseError),
    TooDeep,
}

/// Why a parser did not succeed. A fault that is not fatal lets the
/// alternatives of the parser have their turn; a fatal one ends parsing.
#[derive(Clone, Copy, PartialEq, Eq, Structural, Debug)]
pub struct Fault {
    pub fatal: bool,
    pub kind: FaultKind,
    pub at: Span,
}

/// The outcome of a parser: a result and what is left of the input, or a
/// fault.
pub type Parse<T> = Result<(T, Span), Fault>;

impl Span {
    /// Whether the span lies within a text.
    pub open spec fn wf(self, chars: Seq<char>) -> bool {
        self.pos <= self.end <= chars.len()
    }

    /// How many characters are left.
    pub open spec fn len(self) -> nat {
        if self.pos <= self.end {
            (self.end - self.pos) as nat
        } else {
            0
        }
    }

    /// What is left behind the first `n` characters.
    pub open spec fn skip(self, n: nat) -> Span {
        Span { pos: (self.pos + n) as usize, end: self.end }
    }

    /// How many characters are left.
    pub fn length(self) -> (n: usize)
        ensures
            n == self.len(),
    {
        if self.pos <= self.end {
            self.end - self.pos
        } else {
            0
        }
    }
}

/// A fault that is not fatal and has no name.
pub open spec fn mismatch(at: Span) -> Fault {
    Fault { fatal: false, kind: FaultKind::Syntax, at }
}

/// The fault of a parser that was given a name for its faults: a fault
/// that is not fatal takes the name and the place where the parser
/// started; a fatal one keeps a name that it has, and else takes this one.
pub open spec fn named_fault(f: Fault, kind: PettyParseError, at: Span) -> Fault {
    if f.fatal && f.kind != FaultKind::Syntax {
        f
    } else {
        Fault { fatal: f.fatal, kind: FaultKind::Petty(kind), at }
    }
}

/// The outcome of a parser that was given a name for its faults.
pub open spec fn named<T>(r: Parse<T>, kind: PettyParseError, at: Span) -> Parse<T> {
    match r {
        Ok(v) => Ok(v),
        Err(f) => Err(named_fault(f, kind, at)),
    }
}

/// The outcome of a parser whose faults are all fatal.
pub open spec fn cut<T>(r: Parse<T>) -> Parse<T> {
    match r {
        Ok(v) => Ok(v),
        Err(f) => Err(Fault { fatal: true, ..f }),
    }
}

/// Gives a fault its name.
pub fn name_fault(f: Fault, kind: PettyParseError, at: Span) -> (r: Fault)
    ensures
        r == named_fault(f, kind, at),
{
    let keep = f.fatal && match f.kind {
        FaultKind::Syntax => false,
        _ => true,
    };
    if keep {
        f
    } else {
        Fault { fatal: f.fatal, kind: FaultKind::Petty(kind), at }
    }
}

/// A fault that is not fatal and has no name.
pub fn mismatch_at(at: Span) -> (r: Fault)
    ensures
        r == mismatch(at),
{
    Fault { fatal: false, kind: FaultKind::Syntax, at }
}

/// Whether a character is white space.
pub open spec fn is_space(c: char) -> bool {
    let n = c as u32;
    (0x9 <= n <= 0xd) || n == 0x20 || n == 0x85 || n == 0xa0 || n == 0x1680 || (0x2000 <= n
        <= 0x200a) || n == 0x2028 || n == 0x2029 || n == 0x202f || n == 0x205f || n == 0x3000
}

/// Whether a character can start a name.
pub open spec fn is_ident_start(c: char) -> bool {
    ('a' <= c <= 'z') || ('A' <= c <= 'Z') || c == '_'
}

/// Whether a character can stand in a name.
pub open spec fn is_ident_char_spec(c: char) -> bool {
    is_ident_start(c) || is_digit(c)
}

/// Whether a character is a decimal digit.
pub open spec fn is_digit(c: char) -> bool {
    '0' <= c <= '9'
}

/// Whether a character is white space.
pub fn space(c: char) -> (b: bool)
    ensures
        b == is_space(c),
{
    let n = c as u32;
    (0x9 <= n && n <= 0xd) || n == 0x20 || n == 0x85 || n == 0xa0 || n == 0x1680 || (0x2000 <= n
        && n <= 0x200a) || n == 0x2028 || n == 0x2029 || n == 0x202f || n == 0x205f || n == 0x3000
}

/// Whether a character can start a name.
pub fn ident_start(c: char) -> (b: bool)
    ensures
        b == is_ident_start(c),
{
    ('a' <= c && c <= 'z') || ('A' <= c && c <= 'Z') || c == '_'
}

/// Whether a character can stand in a name.
#[inline]
pub fn is_ident_char(c: char) -> (b: bool)
    ensures
        b == is_ident_char_spec(c),
{
    ident_start(c) || digit(c)
}

/// Whether a character is a decimal digit.
pub fn digit(c: char) -> (b: bool)
    ensures
        b == is_digit(c),
{
    '0' <= c && c <= '9'
}

/// The end of a text without the white space at its end, but not before
/// `pos`.
pub open spec fn trim_end(chars: Seq<char>, pos: nat, end: nat) -> nat
    decreases end,
{
    if pos < end <= chars.len() && is_space(chars[end - 1]) {
        trim_end(chars, pos, (end - 1) as nat)
    } else {
        end
    }
}

/// The position behind the white space and the comments that start at
/// `pos`.
pub open spec fn skip(chars: Seq<char>, pos: nat, end: nat) -> nat
    decreases end - pos, 1nat,
{
    if pos >= end || end > chars.len() {
        pos
    } else if is_space(chars[pos as int]) {
        skip(chars, pos + 1, end)
    } else if pos + 1 < end && chars[pos as int] == '/' && chars[pos as int + 1] == '/' {
        skip_line(chars, pos + 2, end)
    } else if pos + 1 < end && chars[pos as int] == '/' && chars[pos as int + 1] == '*' {
        skip_block(chars, pos + 2, end)
    } else {
        pos
    }
}

/// The position behind a comment that runs to the end of its line, and
/// behind what white space and comments follow it.
pub open spec fn skip_line(chars: Seq<char>, pos: nat, end: nat) -> nat
    decreases end - pos, 0nat,
{
    if pos >= end || end > chars.len() {
        end
    } else if chars[pos as int] == '\n' {
        skip(chars, pos + 1, end)
    } else {
        skip_line(chars, pos + 1, end)
    }
}

/// The position behind a comment that runs to its closing sign, and behind
/// what white space and comments follow it. A comment that is not closed
/// runs to the end.
pub open spec fn skip_block(chars: Seq<char>, pos: nat, end: nat) -> nat
    decreases end - pos, 0nat,
{
    if pos >= end || end > chars.len() {
        end
    } else if pos + 1 < end && chars[pos as int] == '*' && chars[pos as int + 1] == '/' {
        skip(chars, pos + 2, end)
    } else {
        skip_block(chars, pos + 1, end)
    }
}

/// What is left of the input without the white space and the comments at
/// its start, and without the white space at its end.
#[verifier::opaque]
pub open spec fn eat_comments_spec(chars: Seq<char>, span: Span) -> Span {
    let end = trim_end(chars, span.pos as nat, span.end as nat);
    Span { pos: skip(chars, span.pos as nat, end) as usize, end: end as usize }
}

/// Where the scan for white space and comments stands.
pub enum Scan {
    Code,
    Line,
    Block,
}

/// Drops the white space at the end of the input.
pub fn trim_tail(chars: &Vec<char>, span: Span) -> (end: usize)
    requires
        span.wf(chars@),
    ensures
        end == trim_end(chars@, span.pos as nat, span.end as nat),
        span.pos <= end <= span.end,
{
    let mut end = span.end;
    while span.pos < end && space(chars[end - 1])
        invariant
            span.pos <= end <= span.end <= chars@.len(),
            trim_end(chars@, span.pos as nat, span.end as nat) == trim_end(
                chars@,
                span.pos as nat,
                end as nat,
            ),
        decreases end,
    {
        end -= 1;
    }
    end
}

/// Drops the white space and the comments at the start of the input, and
/// the white space at its end.
pub fn eat_comments(chars: &Vec<char>, span: Span) -> (r: Span)
    requires
        span.wf(chars@),
    ensures
        r == eat_comments_spec(chars@, span),
        r.wf(chars@),
        span.pos <= r.pos,
        r.end <= span.end,
{
    reveal(eat_comments_spec);
    let end = trim_tail(chars, span);
    let mut pos = span.pos;
    let mut scan = Scan::Code;
    loop
        invariant
            span.pos <= pos <= end <= chars@.len(),
            end <= span.end,
            end == trim_end(chars@, span.pos as nat, span.end as nat),
            skip(chars@, span.pos as nat, end as nat) == (match scan {
                Scan::Code => skip(chars@, pos as nat, end as nat),
                Scan::Line => skip_line(chars@, pos as nat, end as nat),
                Scan::Block => skip_block(chars@, pos as nat, end as nat),
            }),
        decreases end - pos, (if scan is Code { 1nat } else { 0nat }),
    {
        reveal(eat_comments_spec);
        match scan {
            Scan::Code => {
                if pos >= end {
                    return Span { pos, end };
                } else if space(chars[pos]) {
                    pos += 1;
                } else if pos + 1 < end && chars[pos] == '/' && chars[pos + 1] == '/' {
                    pos += 2;
                    scan = Scan::Line;
                } else if pos + 1 < end && chars[pos] == '/' && chars[pos + 1] == '*' {
                    pos += 2;
                    scan = Scan::Block;
                } else {
                    return Span { pos, end };
                }
            },
            Scan::Line => {
                if pos >= end {
                    return Span { pos: end, end };
                } else if chars[pos] == '\n' {
                    pos += 1;
                    scan = Scan::Code;
                } else {
                    pos += 1;
                }
            },
            Scan::Block => {
                if pos >= end {
                    return Span { pos: end, end };
                } else if pos + 1 < end && chars[pos] == '*' && chars[pos + 1] == '/' {
                    pos += 2;
                    scan = Scan::Code;
                } else {
                    pos += 1;
                }
            },
        }
    }
}

/// Whether the input starts with a text.
pub open spec fn starts_with(chars: Seq<char>, span: Span, text: Seq<char>) -> bool {
    span.pos + text.len() <= span.end <= chars.len() && chars.subrange(
        span.pos as int,
        span.pos + text.len(),
    ) == text
}

/// Matching a text at the start of the input.
pub open spec fn tag_spec(chars: Seq<char>, span: Span, text: Seq<char>) -> Parse<()> {
    if starts_with(chars, span, text) {
        Ok(((), span.skip(text.len())))
    } else {
        Err(mismatch(span))
    }
}

/// Matching one character at the start of the input.
pub open spec fn char_spec(chars: Seq<char>, span: Span, ch: char) -> Parse<()> {
    if span.pos < span.end <= chars.len() && chars[span.pos as int] == ch {
        Ok(((), span.skip(1)))
    } else {
        Err(mismatch(span))
    }
}

/// Matching one character behind white space and comments.
pub open spec fn spar_spec(chars: Seq<char>, span: Span, ch: char) -> Parse<()> {
    char_spec(chars, eat_comments_spec(chars, span), ch)
}

/// Matching a keyword behind white space and comments: the text of the
/// keyword, not followed by a character that can stand in a name.
#[verifier::opaque]
pub open spec fn keyword_spec(chars: Seq<char>, span: Span, name: Seq<char>) -> Parse<()> {
    match tag_spec(chars, eat_comments_spec(chars, span), name) {
        Err(f) => Err(f),
        Ok((_, rest)) => if rest.pos < rest.end <= chars.len() && is_ident_char_spec(
            chars[rest.pos as int],
        ) {
            Err(mismatch(rest))
        } else {
            Ok(((), rest))
        },
    }
}

/// Matches a text at the start of the input.
pub fn tag(chars: &Vec<char>, span: Span, text: &str) -> (r: Result<((), Span), Fault>)
    requires
        span.wf(chars@),
    ensures
        r == tag_spec(chars@, span, text@),
        r is Ok ==> r.unwrap().1.wf(chars@),
{
    let n = text.unicode_len();
    if n > span.end - span.pos {
        return Err(mismatch_at(span));
    }
    let mut i: usize = 0;
    while i < n
        invariant
            i <= n,
            n == text@.len(),
            span.pos + n <= span.end <= chars@.len(),
            chars@.subrange(span.pos as int, span.pos + i) == text@.take(i as int),
        decreases n - i,
    {
        if chars[span.pos + i] != text.get_char(i) {
            proof {
                if starts_with(chars@, span, text@) {
                    assert(chars@.subrange(span.pos as int, span.pos + n)[i as int] == text@[i as int]);
                }
            }
            return Err(mismatch_at(span));
        }
        assert(chars@.subrange(span.pos as int, span.pos + i + 1) =~= chars@.subrange(
            span.pos as int,
            span.pos + i,
        ).push(chars@[span.pos + i]));
        assert(text@.take(i + 1) =~= text@.take(i as int).push(text@[i as int]));
        i += 1;
    }
    assert(text@.take(n as int) =~= text@);
    Ok(((), Span { pos: span.pos + n, end: span.end }))
}

/// Matches one character at the start of the input.
pub fn one_char(chars: &Vec<char>, span: Span, ch: char) -> (r: Result<((), Span), Fault>)
    requires
        span.wf(chars@),
    ensures
        r == char_spec(chars@, span, ch),
        r is Ok ==> r.unwrap().1.wf(chars@),
{
    if span.pos < span.end && chars[span.pos] == ch {
        Ok(((), Span { pos: span.pos + 1, end: span.end }))
    } else {
        Err(mismatch_at(span))
    }
}

/// Matches one character behind white space and comments.
#[inline]
pub fn spar(chars: &Vec<char>, span: Span, ch: char) -> (r: Result<((), Span), Fault>)
    requires
        span.wf(chars@),
    ensures
        r == spar_spec(chars@, span, ch),
        r is Ok ==> r.unwrap().1.wf(chars@),
{
    one_char(chars, eat_comments(chars, span), ch)
}

/// Matches a keyword behind white space and comments.
pub fn keyword_name(chars: &Vec<char>, span: Span, name: &str) -> (r: Result<((), Span), Fault>)
    requires
        span.wf(chars@),
    ensures
        r == keyword_spec(chars@, span, name@),
        r is Ok ==> r.unwrap().1.wf(chars@),
{
    reveal(keyword_spec);
    match tag(chars, eat_comments(chars, span), name) {
        Err(f) => Err(f),
        Ok((_, rest)) => {
            if rest.pos < rest.end && is_ident_char(chars[rest.pos]) {
                Err(mismatch_at(rest))
            } else {
                Ok(((), rest))
            }
        },
    }
}

/// The end of the run of name characters that starts at `pos`.
pub open spec fn ident_end(chars: Seq<char>, pos: nat, end: nat) -> nat
    decreases end - pos,
{
    if pos < end <= chars.len() && is_ident_char_spec(chars[pos as int]) {
        ident_end(chars, pos + 1, end)
    } else {
        pos
    }
}

/// The end of the run of digits that starts at `pos`.
pub open spec fn digits_end(chars: Seq<char>, pos: nat, end: nat) -> nat
    decreases end - pos,
{
    if pos < end <= chars.len() && is_digit(chars[pos as int]) {
        digits_end(chars, pos + 1, end)
    } else {
        pos
    }
}

/// The end of the run of characters other than the double quote that
/// starts at `pos`.
pub open spec fn quote_end(chars: Seq<char>, pos: nat, end: nat) -> nat
    decreases end - pos,
{
    if pos < end <= chars.len() && chars[pos as int] != '"' {
        quote_end(chars, pos + 1, end)
    } else {
        pos
    }
}

/// A name: a letter or an underscore, then letters, digits and underscores.
/// The result is the text of the name.
pub open spec fn ident_spec(chars: Seq<char>, span: Span) -> Parse<Seq<char>> {
    if span.pos < span.end <= chars.len() && is_ident_start(chars[span.pos as int]) {
        let stop = ident_end(chars, span.pos as nat, span.end as nat);
        Ok((chars.subrange(span.pos as int, stop as int), Span { pos: stop as usize, end: span.end }))
    } else {
        Err(Fault { fatal: false, kind: FaultKind::Petty(PettyParseError::Ident), at: span })
    }
}

/// A name behind white space and comments.
pub open spec fn sp_ident_spec(chars: Seq<char>, span: Span) -> Parse<Seq<char>> {
    ident_spec(chars, eat_comments_spec(chars, span))
}

/// A name with an optional type hint behind it: a colon and another name.
/// The result is the first name.
#[verifier::opaque]
pub open spec fn type_hinted_spec(chars: Seq<char>, span: Span) -> Parse<Seq<char>> {
    match sp_ident_spec(chars, span) {
        Err(f) => Err(mismatch(span)),
        Ok((name, rest)) => match spar_spec(chars, rest, ':') {
            Err(_) => Ok((name, rest)),
            Ok((_, behind)) => match sp_ident_spec(chars, behind) {
                Err(_) => Ok((name, rest)),
                Ok((_, after)) => Ok((name, after)),
            },
        },
    }
}

/// Calls `String::from_iter` on the characters of a part of a slice: the
/// string holds these characters.
#[verifier::external_body]
pub(crate) fn string_of(chars: &Vec<char>, from: usize, to: usize) -> (s: String)
    requires
        from <= to <= chars@.len(),
    ensures
        s@ == chars@.subrange(from as int, to as int),
{
    chars[from..to].iter().collect()
}

/// The characters of a string, in their order.
pub fn chars_of(s: &str) -> (chars: Vec<char>)
    ensures
        chars@ == s@,
{
    broadcast use vstd::string::axiom_spec_iter;
    broadcast use vstd::string::next_postcondition;

    let mut it = s.chars();
    let mut out: Vec<char> = Vec::new();
    assert(out@ + IteratorSpec::remaining(&it) =~= s@);
    loop
        invariant
            out@ + IteratorSpec::remaining(&it) == s@,
            IteratorSpec::decrease(&it) is Some,
            IteratorSpec::obeys_prophetic_iter_laws(&it),
        decreases IteratorSpec::decrease(&it)->0,
    {
        let ghost before = IteratorSpec::remaining(&it);
        match it.next() {
            Some(c) => {
                out.push(c);
                assert(before =~= seq![c] + IteratorSpec::remaining(&it));
                assert(out@ + IteratorSpec::remaining(&it) =~= s@);
            },
            None => {
                assert(out@ =~= s@);
                return out;
            },
        }
    }
}

/// The end of the run of name characters that starts at `pos`.
pub fn scan_ident(chars: &Vec<char>, pos: usize, end: usize) -> (stop: usize)
    requires
        pos <= end <= chars@.len(),
    ensures
        stop == ident_end(chars@, pos as nat, end as nat),
        pos <= stop <= end,
{
    let mut p = pos;
    while p < end && is_ident_char(chars[p])
        invariant
            pos <= p <= end <= chars@.len(),
            ident_end(chars@, pos as nat, end as nat) == ident_end(chars@, p as nat, end as nat),
        decreases end - p,
    {
        p += 1;
    }
    p
}

/// The end of the run of digits that starts at `pos`.
pub fn scan_digits(chars: &Vec<char>, pos: usize, end: usize) -> (stop: usize)
    requires
        pos <= end <= chars@.len(),
    ensures
        stop == digits_end(chars@, pos as nat, end as nat),
        pos <= stop <= end,
{
    let mut p = pos;
    while p < end && digit(chars[p])
        invariant
            pos <= p <= end <= chars@.len(),
            digits_end(chars@, pos as nat, end as nat) == digits_end(chars@, p as nat, end as nat),
        decreases end - p,
    {
        p += 1;
    }
    p
}

/// The end of the run of characters other than the double quote that
/// starts at `pos`.
pub fn scan_quote(chars: &Vec<char>, pos: usize, end: usize) -> (stop: usize)
    requires
        pos <= end <= chars@.len(),
    ensures
        stop == quote_end(chars@, pos as nat, end as nat),
        pos <= stop <= end,
{
    let mut p = pos;
    while p < end && chars[p] != '"'
        invariant
            pos <= p <= end <= chars@.len(),
            quote_end(chars@, pos as nat, end as nat) == quote_end(chars@, p as nat, end as nat),
        decreases end - p,
    {
        p += 1;
    }
    p
}

/// Whether an executed parser that gives a text did what the grammar says.
pub open spec fn text_parsed(r: Result<(String, Span), Fault>, s: Parse<Seq<char>>) -> bool {
    match s {
        Ok((text, rest)) => r is Ok && r.unwrap().0@ == text && r.unwrap().1 == rest,
        Err(f) => r is Err && r.unwrap_err() == f,
    }
}

/// Parses a name.
pub fn ident(chars: &Vec<char>, span: Span) -> (r: Result<(String, Span), Fault>)
    requires
        span.wf(chars@),
    ensures
        text_parsed(r, ident_spec(chars@, span)),
        r is Ok ==> r.unwrap().1.wf(chars@) && r.unwrap().1.pos > span.pos,
{
    if span.pos < span.end && ident_start(chars[span.pos]) {
        let stop = scan_ident(chars, span.pos + 1, span.end);
        assert(ident_end(chars@, span.pos as nat, span.end as nat) == stop);
        Ok((string_of(chars, span.pos, stop), Span { pos: stop, end: span.end }))
    } else {
        Err(Fault { fatal: false, kind: FaultKind::Petty(PettyParseError::Ident), at: span })
    }
}

/// Parses a name behind white space and comments.
pub fn sp_ident(chars: &Vec<char>, span: Span) -> (r: Result<(String, Span), Fault>)
    requires
        span.wf(chars@),
    ensures
        text_parsed(r, sp_ident_spec(chars@, span)),
        r is Ok ==> r.unwrap().1.wf(chars@),
{
    ident(chars, eat_comments(chars, span))
}

/// Parses a name with an optional type hint behind it.
pub fn type_hinted(chars: &Vec<char>, span: Span) -> (r: Result<(String, Span), Fault>)
    requires
        span.wf(chars@),
    ensures
        text_parsed(r, type_hinted_spec(chars@, span)),
        r is Ok ==> r.unwrap().1.wf(chars@),
{
    reveal(type_hinted_spec);
    match sp_ident(chars, span) {
        Err(_) => Err(mismatch_at(span)),
        Ok((name, rest)) => {
            match spar(chars, rest, ':') {
                Err(_) => Ok((name, rest)),
                Ok((_, behind)) => {
                    match sp_ident(chars, behind) {
                        Err(_) => Ok((name, rest)),
                        Ok((_, after)) => Ok((name, after)),
                    }
                },
            }
        },
    }
}

} // verus!
