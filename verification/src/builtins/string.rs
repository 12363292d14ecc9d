//! The string type and its methods.

use crate::builtins::native_arity;
use crate::error::RuntimeError;
use crate::machine::{clamp, Vm};
use crate::object::{NativeFn, PettyObject, PtyBool, PtyStr};
use crate::state::{clamp_index, steps_to, Step, VmView};
use crate::parser::lexer;
use crate::parser::lexer::{chars_of, is_space, space, string_of, trim_tail, Span};
use crate::strings::str_eq;
use vstd::prelude::*;
use vstd::string::StringExecFns;

verus! {

/// The method of the string type that a key names.
pub open spec fn str_method(key: Seq<char>) -> Option<NativeFn> {
    if key == "__repr__"@ {
        Some(NativeFn::StrRepr)
    } else if key == "__add__"@ {
        Some(NativeFn::StrAdd)
    } else if key == "__mul__"@ {
        Some(NativeFn::StrMul)
    } else if key == "__is_eq__"@ {
        Some(NativeFn::StrIsEq)
    } else if key == "__not_eq__"@ {
        Some(NativeFn::StrNotEq)
    } else if key == "upper"@ {
        Some(NativeFn::StrUpper)
    } else if key == "lower"@ {
        Some(NativeFn::StrLower)
    } else if key == "find"@ {
        Some(NativeFn::StrFind)
    } else if key == "trim"@ {
        Some(NativeFn::StrTrim)
    } else if key == "trim_start"@ || key == "trim_left"@ {
        Some(NativeFn::StrTrimStart)
    } else if key == "trim_end"@ || key == "trim_right"@ {
        Some(NativeFn::StrTrimEnd)
    } else if key == "trim_start_matches"@ || key == "trim_left_matches"@ {
        Some(NativeFn::StrTrimStartMatches)
    } else if key == "trim_end_matches"@ || key == "trim_right_matches"@ {
        Some(NativeFn::StrTrimEndMatches)
    } else if key == "format"@ {
        Some(NativeFn::StrFormat)
    } else {
        None
    }
}

/// A text written `n` times in a row.
pub open spec fn repeat_text(s: Seq<char>, n: nat) -> Seq<char>
    decreases n,
{
    if n == 0 {
        Seq::<char>::empty()
    } else {
        repeat_text(s, (n - 1) as nat) + s
    }
}

/// The position of the first character from `pos` on that is no white
/// space.
pub open spec fn space_run(s: Seq<char>, pos: nat) -> nat
    decreases s.len() - pos,
{
    if pos < s.len() && is_space(s[pos as int]) {
        space_run(s, pos + 1)
    } else {
        pos
    }
}

/// A text without the white space at its start.
pub open spec fn start_trimmed_text(s: Seq<char>) -> Seq<char> {
    s.subrange(space_run(s, 0) as int, s.len() as int)
}

/// A text without the white space at its end.
pub open spec fn end_trimmed_text(s: Seq<char>) -> Seq<char> {
    s.subrange(0, lexer::trim_end(s, 0, s.len()) as int)
}

/// A text without the white space at its ends.
pub open spec fn trimmed_text(s: Seq<char>) -> Seq<char> {
    let start = space_run(s, 0);
    if start >= s.len() {
        Seq::<char>::empty()
    } else {
        s.subrange(start as int, lexer::trim_end(s, start, s.len()) as int)
    }
}

/// Whether a pattern stands in a text at a position.
pub open spec fn stands_at(s: Seq<char>, pos: nat, pat: Seq<char>) -> bool {
    pos + pat.len() <= s.len() && s.subrange(pos as int, (pos + pat.len()) as int) == pat
}

/// The position behind the repetitions of a pattern that start at `pos`.
pub open spec fn strip_start(s: Seq<char>, pat: Seq<char>, pos: nat) -> nat
    decreases s.len() - pos,
{
    if pat.len() > 0 && stands_at(s, pos, pat) {
        strip_start(s, pat, pos + pat.len())
    } else {
        pos
    }
}

/// The position before the repetitions of a pattern that end at `end`.
pub open spec fn strip_end(s: Seq<char>, pat: Seq<char>, end: nat) -> nat
    decreases end,
{
    if pat.len() > 0 && pat.len() <= end && stands_at(s, (end - pat.len()) as nat, pat) {
        strip_end(s, pat, (end - pat.len()) as nat)
    } else {
        end
    }
}

/// The first position from `pos` on at which a pattern stands in a text.
pub open spec fn first_at(s: Seq<char>, pat: Seq<char>, pos: nat) -> Option<nat>
    decreases s.len() - pos,
{
    if stands_at(s, pos, pat) {
        Some(pos)
    } else if pos < s.len() {
        first_at(s, pat, pos + 1)
    } else {
        None
    }
}

/// How many bytes a character takes in a string.
pub open spec fn char_bytes(c: char) -> nat {
    let n = c as u32;
    if n < 0x80 {
        1
    } else if n < 0x800 {
        2
    } else if n < 0x10000 {
        3
    } else {
        4
    }
}

/// How many bytes the first `n` characters of a text take in a string.
pub open spec fn bytes_before(s: Seq<char>, n: nat) -> nat
    decreases n,
{
    if n == 0 || n > s.len() {
        0
    } else {
        bytes_before(s, (n - 1) as nat) + char_bytes(s[n - 1])
    }
}

/// Where a pattern first stands in a text, counted in the bytes of the
/// text before that place.
pub open spec fn found_at(s: Seq<char>, pat: Seq<char>) -> Option<usize> {
    match first_at(s, pat, 0) {
        Some(i) => Some(bytes_before(s, i) as usize),
        None => None,
    }
}

/// A text without the repetitions of a pattern at its start.
pub open spec fn start_stripped_text(s: Seq<char>, pat: Seq<char>) -> Seq<char> {
    s.subrange(strip_start(s, pat, 0) as int, s.len() as int)
}

/// A text without the repetitions of a pattern at its end.
pub open spec fn end_stripped_text(s: Seq<char>, pat: Seq<char>) -> Seq<char> {
    s.subrange(0, strip_end(s, pat, s.len()) as int)
}

/// The pieces of a text between its pairs of braces, from position `pos`
/// on; the piece under way started at `start`.
pub open spec fn split_from(s: Seq<char>, pos: nat, start: nat, acc: Seq<Seq<char>>) -> Seq<Seq<char>>
    decreases s.len() - pos,
{
    if pos + 1 < s.len() && s[pos as int] == '{' && s[pos as int + 1] == '}' && start <= pos {
        split_from(s, pos + 2, pos + 2, acc.push(s.subrange(start as int, pos as int)))
    } else if pos < s.len() {
        split_from(s, pos + 1, start, acc)
    } else if start <= s.len() {
        acc.push(s.subrange(start as int, s.len() as int))
    } else {
        acc
    }
}

/// The pieces that the pairs of braces cut a text into.
pub open spec fn format_segments(s: Seq<char>) -> Seq<Seq<char>> {
    split_from(s, 0, 0, Seq::empty())
}

/// The texts of a sequence of strings.
pub open spec fn texts(v: Seq<String>) -> Seq<Seq<char>> {
    v.map_values(|s: String| s@)
}

/// Whether a pattern stands in a text at a position.
pub fn matches_at(chars: &Vec<char>, pos: usize, pat: &Vec<char>) -> (b: bool)
    requires
        pos <= chars@.len(),
    ensures
        b == stands_at(chars@, pos as nat, pat@),
{
    let n = pat.len();
    if n > chars.len() - pos {
        return false;
    }
    assert(chars.len() <= usize::MAX);
    let mut i: usize = 0;
    while i < n
        invariant
            i <= n,
            n == pat@.len(),
            pos + n <= chars@.len() <= usize::MAX,
            chars@.subrange(pos as int, pos + i) == pat@.take(i as int),
        decreases n - i,
    {
        if chars[pos + i] != pat[i] {
            proof {
                if stands_at(chars@, pos as nat, pat@) {
                    assert(chars@.subrange(pos as int, pos + n)[i as int] == pat@[i as int]);
                }
            }
            return false;
        }
        assert(chars@.subrange(pos as int, pos + i + 1) =~= chars@.subrange(
            pos as int,
            pos + i,
        ).push(chars@[pos + i]));
        assert(pat@.take(i + 1) =~= pat@.take(i as int).push(pat@[i as int]));
        i += 1;
    }
    assert(pat@.take(n as int) =~= pat@);
    true
}

/// The position of the first character from `pos` on that is no white
/// space.
pub fn skip_spaces(chars: &Vec<char>, pos: usize) -> (r: usize)
    requires
        pos <= chars@.len(),
    ensures
        r == space_run(chars@, pos as nat),
        pos <= r <= chars@.len(),
{
    let mut p = pos;
    while p < chars.len() && space(chars[p])
        invariant
            pos <= p <= chars@.len(),
            space_run(chars@, pos as nat) == space_run(chars@, p as nat),
        decreases chars@.len() - p,
    {
        p += 1;
    }
    p
}

/// The pieces that the pairs of braces cut a text into.
pub fn split_braces(s: &str) -> (r: Vec<String>)
    ensures
        texts(r@) == format_segments(s@),
{
    let chars = chars_of(s);
    let mut out: Vec<String> = Vec::new();
    let mut pos: usize = 0;
    let mut start: usize = 0;
    assert(texts(out@) =~= Seq::<Seq<char>>::empty());
    while pos < chars.len()
        invariant
            start <= pos <= chars@.len(),
            chars@ == s@,
            format_segments(s@) == split_from(chars@, pos as nat, start as nat, texts(out@)),
        decreases chars@.len() - pos,
    {
        if pos + 1 < chars.len() && chars[pos] == '{' && chars[pos + 1] == '}' {
            let piece = string_of(&chars, start, pos);
            assert(texts(out@.push(piece)) =~= texts(out@).push(piece@));
            out.push(piece);
            pos += 2;
            start = pos;
        } else {
            pos += 1;
        }
    }
    let piece = string_of(&chars, start, chars.len());
    assert(texts(out@.push(piece)) =~= texts(out@).push(piece@));
    out.push(piece);
    out
}

/// What `str::to_uppercase` makes of a text.
pub uninterp spec fn uppercase_text(s: Seq<char>) -> Seq<char>;

/// What `str::to_lowercase` makes of a text.
pub uninterp spec fn lowercase_text(s: Seq<char>) -> Seq<char>;


/// Calls `str::to_uppercase`; the result is a function of the text alone.
#[verifier::external_body]
fn to_uppercase(s: &str) -> (r: String)
    ensures
        r@ == uppercase_text(s@),
{
    s.to_uppercase()
}

/// Calls `str::to_lowercase`; the result is a function of the text alone.
#[verifier::external_body]
fn to_lowercase(s: &str) -> (r: String)
    ensures
        r@ == lowercase_text(s@),
{
    s.to_lowercase()
}

/// Calls `str::find` with a string pattern: the place where the pattern
/// first stands in the text, counted in the bytes of the text before it.
#[verifier::external_body]
fn find_str(s: &str, pat: &str) -> (r: Option<usize>)
    ensures
        r == found_at(s@, pat@),
{
    s.find(pat)
}

impl PtyStr {
    /// The method that a key names, if the string type has it.
    pub fn get_item(key: &str) -> (r: Option<NativeFn>)
        ensures
            r == str_method(key@),
    {
        if str_eq(key, "__repr__") {
            Some(NativeFn::StrRepr)
        } else if str_eq(key, "__add__") {
            Some(NativeFn::StrAdd)
        } else if str_eq(key, "__mul__") {
            Some(NativeFn::StrMul)
        } else if str_eq(key, "__is_eq__") {
            Some(NativeFn::StrIsEq)
        } else if str_eq(key, "__not_eq__") {
            Some(NativeFn::StrNotEq)
        } else if str_eq(key, "upper") {
            Some(NativeFn::StrUpper)
        } else if str_eq(key, "lower") {
            Some(NativeFn::StrLower)
        } else if str_eq(key, "find") {
            Some(NativeFn::StrFind)
        } else if str_eq(key, "trim") {
            Some(NativeFn::StrTrim)
        } else if str_eq(key, "trim_start") || str_eq(key, "trim_left") {
            Some(NativeFn::StrTrimStart)
        } else if str_eq(key, "trim_end") || str_eq(key, "trim_right") {
            Some(NativeFn::StrTrimEnd)
        } else if str_eq(key, "trim_start_matches") || str_eq(key, "trim_left_matches") {
            Some(NativeFn::StrTrimStartMatches)
        } else if str_eq(key, "trim_end_matches") || str_eq(key, "trim_right_matches") {
            Some(NativeFn::StrTrimEndMatches)
        } else if str_eq(key, "format") {
            Some(NativeFn::StrFormat)
        } else {
            None
        }
    }
}

/// The string itself: a string shows itself as it is.
pub fn __repr__(self_: &PtyStr) -> (r: PtyStr)
    ensures
        r.0@ == self_.0@,
{
    PtyStr(self_.0.clone())
}

/// The two strings, one after the other.
pub fn __add__(lhs: &PtyStr, rhs: &PtyStr) -> (r: PtyStr)
    ensures
        r.0@ == lhs.0@ + rhs.0@,
{
    PtyStr(lhs.0.clone().concat(rhs.0.as_str()))
}

/// The string written `times` times in a row.
pub fn __mul__(lhs: &PtyStr, times: usize) -> (r: PtyStr)
    ensures
        r.0@ == repeat_text(lhs.0@, times as nat),
{
    let mut out = String::new();
    let mut i: usize = 0;
    while i < times
        invariant
            i <= times,
            out@ == repeat_text(lhs.0@, i as nat),
        decreases times - i,
    {
        out.append(lhs.0.as_str());
        i += 1;
    }
    PtyStr(out)
}

/// Whether two strings hold the same text.
pub fn __is_eq__(lhs: &PtyStr, rhs: &PtyStr) -> (r: PtyBool)
    ensures
        r.0 == (lhs.0@ == rhs.0@),
{
    PtyBool(str_eq(lhs.0.as_str(), rhs.0.as_str()))
}

/// Whether two strings hold different texts.
pub fn __not_eq__(lhs: &PtyStr, rhs: &PtyStr) -> (r: PtyBool)
    ensures
        r.0 == (lhs.0@ != rhs.0@),
{
    PtyBool(!str_eq(lhs.0.as_str(), rhs.0.as_str()))
}

/// The string in upper case.
pub fn upper(this: &PtyStr) -> (r: PtyStr)
    ensures
        r.0@ == uppercase_text(this.0@),
{
    PtyStr(to_uppercase(this.0.as_str()))
}

/// The string in lower case.
pub fn lower(this: &PtyStr) -> (r: PtyStr)
    ensures
        r.0@ == lowercase_text(this.0@),
{
    PtyStr(to_lowercase(this.0.as_str()))
}

/// The byte position of the first occurrence of `substr` in the string.
pub fn find(this: &PtyStr, substr: &PtyStr) -> (r: Option<usize>)
    ensures
        r == found_at(this.0@, substr.0@),
{
    find_str(this.0.as_str(), substr.0.as_str())
}

/// The string without white space at its ends.
pub fn trim(this: &PtyStr) -> (r: PtyStr)
    ensures
        r.0@ == trimmed_text(this.0@),
{
    let chars = chars_of(this.0.as_str());
    let start = skip_spaces(&chars, 0);
    if start >= chars.len() {
        PtyStr(String::new())
    } else {
        let end = trim_tail(&chars, Span { pos: start, end: chars.len() });
        PtyStr(string_of(&chars, start, end))
    }
}

/// The string without white space at its start.
pub fn trim_start(this: &PtyStr) -> (r: PtyStr)
    ensures
        r.0@ == start_trimmed_text(this.0@),
{
    let chars = chars_of(this.0.as_str());
    let start = skip_spaces(&chars, 0);
    PtyStr(string_of(&chars, start, chars.len()))
}

/// The string without white space at its end.
pub fn trim_end(this: &PtyStr) -> (r: PtyStr)
    ensures
        r.0@ == end_trimmed_text(this.0@),
{
    let chars = chars_of(this.0.as_str());
    let end = trim_tail(&chars, Span { pos: 0, end: chars.len() });
    PtyStr(string_of(&chars, 0, end))
}

/// The string without the repetitions of `pat` at its start.
pub fn trim_start_matches(this: &PtyStr, pat: &PtyStr) -> (r: PtyStr)
    ensures
        r.0@ == start_stripped_text(this.0@, pat.0@),
{
    let chars = chars_of(this.0.as_str());
    let pattern = chars_of(pat.0.as_str());
    assert(chars.len() <= usize::MAX);
    let mut pos: usize = 0;
    while pattern.len() > 0 && matches_at(&chars, pos, &pattern)
        invariant
            pos <= chars@.len() <= usize::MAX,
            strip_start(chars@, pattern@, 0) == strip_start(chars@, pattern@, pos as nat),
        decreases chars@.len() - pos,
    {
        pos += pattern.len();
    }
    PtyStr(string_of(&chars, pos, chars.len()))
}

/// The string without the repetitions of `pat` at its end.
pub fn trim_end_matches(this: &PtyStr, pat: &PtyStr) -> (r: PtyStr)
    ensures
        r.0@ == end_stripped_text(this.0@, pat.0@),
{
    let chars = chars_of(this.0.as_str());
    let pattern = chars_of(pat.0.as_str());
    let mut end: usize = chars.len();
    while pattern.len() > 0 && pattern.len() <= end && matches_at(
        &chars,
        end - pattern.len(),
        &pattern,
    )
        invariant
            end <= chars@.len(),
            strip_end(chars@, pattern@, chars@.len()) == strip_end(chars@, pattern@, end as nat),
        decreases end,
    {
        end -= pattern.len();
    }
    PtyStr(string_of(&chars, 0, end))
}


/// Whether a runtime function is a method of the string type that needs no
/// call back into the machine.
pub open spec fn is_str_fn(f: NativeFn) -> bool {
    str_fn_unary(f) || f == NativeFn::StrMul || str_fn_binary(f)
}

/// Whether a runtime function is a method of the string type that takes the
/// string alone.
pub open spec fn str_fn_unary(f: NativeFn) -> bool {
    f == NativeFn::StrRepr || f == NativeFn::StrUpper || f == NativeFn::StrLower || f
        == NativeFn::StrTrim || f == NativeFn::StrTrimStart || f == NativeFn::StrTrimEnd
}

/// Whether a runtime function is a method of the string type that takes a
/// second string.
pub open spec fn str_fn_binary(f: NativeFn) -> bool {
    f == NativeFn::StrAdd || f == NativeFn::StrIsEq || f == NativeFn::StrNotEq || f
        == NativeFn::StrFind || f
        == NativeFn::StrTrimStartMatches || f == NativeFn::StrTrimEndMatches
}

/// What a method of the string type does. An argument of another type than
/// the method needs is a capability mismatch.
pub open spec fn call_str(st: VmView, f: NativeFn, args: Seq<PettyObject>) -> Step<PettyObject>
    recommends
        is_str_fn(f),
        native_arity(f) == Some(args.len()),
{
    match st.text_of(args[0]) {
        None => Err(RuntimeError::CapabilityMismatch),
        Some(a) => if f == NativeFn::StrRepr {
            Ok((args[0], st))
        } else if f == NativeFn::StrUpper {
            st.str_result(uppercase_text(a))
        } else if f == NativeFn::StrLower {
            st.str_result(lowercase_text(a))
        } else if f == NativeFn::StrTrim {
            st.str_result(trimmed_text(a))
        } else if f == NativeFn::StrTrimStart {
            st.str_result(start_trimmed_text(a))
        } else if f == NativeFn::StrTrimEnd {
            st.str_result(end_trimmed_text(a))
        } else if f == NativeFn::StrMul {
            match st.int_of(args[1]) {
                None => Err(RuntimeError::CapabilityMismatch),
                Some(n) => st.str_result(repeat_text(a, clamp_index(n) as nat)),
            }
        } else {
            match st.text_of(args[1]) {
                None => Err(RuntimeError::CapabilityMismatch),
                Some(b) => if f == NativeFn::StrAdd {
                    st.str_result(a + b)
                } else if f == NativeFn::StrIsEq {
                    st.bool_result(a == b)
                } else if f == NativeFn::StrNotEq {
                    st.bool_result(a != b)
                } else if f == NativeFn::StrFind {
                    st.index_result(found_at(a, b))
                } else if f == NativeFn::StrTrimStartMatches {
                    st.str_result(start_stripped_text(a, b))
                } else {
                    st.str_result(end_stripped_text(a, b))
                },
            }
        },
    }
}

/// What a method of the string type computes from the string alone.
pub enum StrOutcome {
    Same,
    Text(PtyStr),
    Truth(PtyBool),
    Position(Option<usize>),
}

impl Vm {
    /// Runs a method of the string type.
    pub fn call_str(&mut self, f: NativeFn, args: &Vec<PettyObject>) -> (r: Result<
        PettyObject,
        RuntimeError,
    >)
        requires
            old(self).wf(),
            is_str_fn(f),
            native_arity(f) == Some(args@.len()),
        ensures
            final(self).wf(),
            steps_to(old(self)@, r, final(self)@, call_str(old(self)@, f, args@)),
    {
        let a = match self.as_str(args[0]) {
            Some(a) => a,
            None => {
                return Err(RuntimeError::CapabilityMismatch);
            },
        };
        let outcome = match f {
            NativeFn::StrRepr => StrOutcome::Same,
            NativeFn::StrUpper => StrOutcome::Text(upper(a)),
            NativeFn::StrLower => StrOutcome::Text(lower(a)),
            NativeFn::StrTrim => StrOutcome::Text(trim(a)),
            NativeFn::StrTrimStart => StrOutcome::Text(trim_start(a)),
            NativeFn::StrTrimEnd => StrOutcome::Text(trim_end(a)),
            NativeFn::StrMul => {
                match self.as_int(args[1]) {
                    Some(n) => StrOutcome::Text(__mul__(a, clamp(n.0))),
                    None => {
                        return Err(RuntimeError::CapabilityMismatch);
                    },
                }
            },
            _ => {
                let b = match self.as_str(args[1]) {
                    Some(b) => b,
                    None => {
                        return Err(RuntimeError::CapabilityMismatch);
                    },
                };
                match f {
                    NativeFn::StrAdd => StrOutcome::Text(__add__(a, b)),
                    NativeFn::StrIsEq => StrOutcome::Truth(__is_eq__(a, b)),
                    NativeFn::StrNotEq => StrOutcome::Truth(__not_eq__(a, b)),
                    NativeFn::StrFind => StrOutcome::Position(find(a, b)),
                    NativeFn::StrTrimStartMatches => StrOutcome::Text(trim_start_matches(a, b)),
                    _ => StrOutcome::Text(trim_end_matches(a, b)),
                }
            },
        };
        match outcome {
            StrOutcome::Same => Ok(args[0]),
            StrOutcome::Text(s) => self.new_str(s),
            StrOutcome::Truth(b) => Ok(PtyBool::new(b.0)),
            StrOutcome::Position(p) => self.new_index(p),
        }
    }
}

} // verus!
