//! The number type and its methods.

use crate::builtins::text::{int_text, int_to_string};
use crate::builtins::native_arity;
use crate::error::RuntimeError;
use crate::machine::Vm;
use crate::object::{NativeFn, PettyObject, PtyBool, PtyInt, PtyStr};
use crate::state::{steps_to, Step, VmView};
use crate::strings::str_eq;
use vstd::prelude::*;

verus! {

/// A whole number if it fits the number type.
pub open spec fn fit(v: int) -> Option<i128> {
    if i128::MIN <= v <= i128::MAX {
        Some(v as i128)
    } else {
        None
    }
}

/// The distance of a whole number from zero.
pub open spec fn abs_int(x: int) -> int {
    if x < 0 {
        -x
    } else {
        x
    }
}

/// The quotient of a division, rounded towards zero.
pub open spec fn trunc_div(x: int, d: int) -> int
    recommends
        d != 0,
{
    if (x >= 0) == (d > 0) {
        abs_int(x) / abs_int(d)
    } else {
        -(abs_int(x) / abs_int(d))
    }
}

/// The remainder of a division that rounds towards zero: it has the sign of
/// the dividend.
pub open spec fn trunc_rem(x: int, d: int) -> int
    recommends
        d != 0,
{
    if x >= 0 {
        abs_int(x) % abs_int(d)
    } else {
        -(abs_int(x) % abs_int(d))
    }
}

/// The quotient of two numbers, if the divisor is not zero and the quotient
/// fits.
pub open spec fn int_div(x: i128, d: i128) -> Option<i128> {
    if d == 0 {
        None
    } else {
        fit(trunc_div(x as int, d as int))
    }
}

/// The remainder of two numbers, if the divisor is not zero and the quotient
/// fits.
pub open spec fn int_mod(x: i128, d: i128) -> Option<i128> {
    if d == 0 || (x == i128::MIN && d == -1) {
        None
    } else {
        fit(trunc_rem(x as int, d as int))
    }
}

/// A number, or the error of one that does not fit.
pub open spec fn number(v: Option<i128>) -> Result<PtyInt, RuntimeError> {
    match v {
        Some(i) => Ok(PtyInt(i)),
        None => Err(RuntimeError::NumericDomain),
    }
}

/// The method of the number type that a key names.
pub open spec fn int_method(key: Seq<char>) -> Option<NativeFn> {
    if key == "__add__"@ {
        Some(NativeFn::IntAdd)
    } else if key == "__sub__"@ {
        Some(NativeFn::IntSub)
    } else if key == "__mul__"@ {
        Some(NativeFn::IntMul)
    } else if key == "__div__"@ {
        Some(NativeFn::IntDiv)
    } else if key == "__mod__"@ {
        Some(NativeFn::IntMod)
    } else if key == "__is_eq__"@ {
        Some(NativeFn::IntIsEq)
    } else if key == "__not_eq__"@ {
        Some(NativeFn::IntNotEq)
    } else if key == "__lt__"@ {
        Some(NativeFn::IntLt)
    } else if key == "__gt__"@ {
        Some(NativeFn::IntGt)
    } else if key == "__lt_eq__"@ {
        Some(NativeFn::IntLtEq)
    } else if key == "__gt_eq__"@ {
        Some(NativeFn::IntGtEq)
    } else if key == "__bool__"@ {
        Some(NativeFn::IntBool)
    } else if key == "__neg__"@ {
        Some(NativeFn::IntNeg)
    } else if key == "__repr__"@ {
        Some(NativeFn::IntRepr)
    } else if key == "abs"@ {
        Some(NativeFn::IntAbs)
    } else {
        None
    }
}

impl PtyInt {
    /// The method that a key names, if the number type has it.
    pub fn get_item(key: &str) -> (r: Option<NativeFn>)
        ensures
            r == int_method(key@),
    {
        if str_eq(key, "__add__") {
            Some(NativeFn::IntAdd)
        } else if str_eq(key, "__sub__") {
            Some(NativeFn::IntSub)
        } else if str_eq(key, "__mul__") {
            Some(NativeFn::IntMul)
        } else if str_eq(key, "__div__") {
            Some(NativeFn::IntDiv)
        } else if str_eq(key, "__mod__") {
            Some(NativeFn::IntMod)
        } else if str_eq(key, "__is_eq__") {
            Some(NativeFn::IntIsEq)
        } else if str_eq(key, "__not_eq__") {
            Some(NativeFn::IntNotEq)
        } else if str_eq(key, "__lt__") {
            Some(NativeFn::IntLt)
        } else if str_eq(key, "__gt__") {
            Some(NativeFn::IntGt)
        } else if str_eq(key, "__lt_eq__") {
            Some(NativeFn::IntLtEq)
        } else if str_eq(key, "__gt_eq__") {
            Some(NativeFn::IntGtEq)
        } else if str_eq(key, "__bool__") {
            Some(NativeFn::IntBool)
        } else if str_eq(key, "__neg__") {
            Some(NativeFn::IntNeg)
        } else if str_eq(key, "__repr__") {
            Some(NativeFn::IntRepr)
        } else if str_eq(key, "abs") {
            Some(NativeFn::IntAbs)
        } else {
            None
        }
    }
}

/// Multiplying by minus one changes the sign, and zero divided by anything
/// leaves nothing.
pub proof fn lemma_signs(x: int, d: int)
    ensures
        x * -1 == -x,
        d * -1 == -d,
        d != 0 ==> 0int % abs_int(d) == 0 && 0int / abs_int(d) == 0,
{
    assert(x * -1 == -x) by (nonlinear_arith);
    assert(d * -1 == -d) by (nonlinear_arith);
    if d != 0 {
        let a = abs_int(d);
        assert(0int % a == 0 && 0int / a == 0) by (nonlinear_arith)
            requires
                a > 0,
        ;
    }
}

/// The sum of two numbers; an error if it does not fit.
pub fn __add__(lhs: PtyInt, rhs: PtyInt) -> (r: Result<PtyInt, RuntimeError>)
    ensures
        r == number(fit(lhs.0 + rhs.0)),
{
    match lhs.0.checked_add(rhs.0) {
        Some(v) => Ok(PtyInt(v)),
        None => Err(RuntimeError::NumericDomain),
    }
}

/// The difference of two numbers; an error if it does not fit.
pub fn __sub__(lhs: PtyInt, rhs: PtyInt) -> (r: Result<PtyInt, RuntimeError>)
    ensures
        r == number(fit(lhs.0 - rhs.0)),
{
    match lhs.0.checked_sub(rhs.0) {
        Some(v) => Ok(PtyInt(v)),
        None => Err(RuntimeError::NumericDomain),
    }
}

/// The product of two numbers; an error if it does not fit.
pub fn __mul__(lhs: PtyInt, rhs: PtyInt) -> (r: Result<PtyInt, RuntimeError>)
    ensures
        r == number(fit(lhs.0 * rhs.0)),
{
    match lhs.0.checked_mul(rhs.0) {
        Some(v) => Ok(PtyInt(v)),
        None => Err(RuntimeError::NumericDomain),
    }
}

/// The quotient of two numbers, rounded towards zero; an error if the
/// divisor is zero or the quotient does not fit.
pub fn __div__(lhs: PtyInt, rhs: PtyInt) -> (r: Result<PtyInt, RuntimeError>)
    ensures
        r == number(int_div(lhs.0, rhs.0)),
{
    proof {
        lemma_signs(lhs.0 as int, rhs.0 as int);
    }
    match lhs.0.checked_div(rhs.0) {
        Some(v) => Ok(PtyInt(v)),
        None => Err(RuntimeError::NumericDomain),
    }
}

/// The remainder of two numbers, with the sign of the dividend; an error if
/// the divisor is zero or the quotient does not fit.
pub fn __mod__(lhs: PtyInt, rhs: PtyInt) -> (r: Result<PtyInt, RuntimeError>)
    ensures
        r == number(int_mod(lhs.0, rhs.0)),
{
    proof {
        lemma_signs(lhs.0 as int, rhs.0 as int);
    }
    match lhs.0.checked_rem(rhs.0) {
        Some(v) => Ok(PtyInt(v)),
        None => Err(RuntimeError::NumericDomain),
    }
}

/// Whether two numbers are equal.
pub fn __is_eq__(lhs: PtyInt, rhs: PtyInt) -> (r: PtyBool)
    ensures
        r.0 == (lhs.0 == rhs.0),
{
    PtyBool(lhs.0 == rhs.0)
}

/// Whether two numbers differ.
pub fn __not_eq__(lhs: PtyInt, rhs: PtyInt) -> (r: PtyBool)
    ensures
        r.0 == (lhs.0 != rhs.0),
{
    PtyBool(lhs.0 != rhs.0)
}

/// Whether the first number is below the second.
pub fn __lt__(lhs: PtyInt, rhs: PtyInt) -> (r: PtyBool)
    ensures
        r.0 == (lhs.0 < rhs.0),
{
    PtyBool(lhs.0 < rhs.0)
}

/// Whether the first number is above the second.
pub fn __gt__(lhs: PtyInt, rhs: PtyInt) -> (r: PtyBool)
    ensures
        r.0 == (lhs.0 > rhs.0),
{
    PtyBool(lhs.0 > rhs.0)
}

/// Whether the first number is at most the second.
pub fn __lt_eq__(lhs: PtyInt, rhs: PtyInt) -> (r: PtyBool)
    ensures
        r.0 == (lhs.0 <= rhs.0),
{
    PtyBool(lhs.0 <= rhs.0)
}

/// Whether the first number is at least the second.
pub fn __gt_eq__(lhs: PtyInt, rhs: PtyInt) -> (r: PtyBool)
    ensures
        r.0 == (lhs.0 >= rhs.0),
{
    PtyBool(lhs.0 >= rhs.0)
}

/// The truth value of a number: every number but zero is true.
pub fn __bool__(lhs: PtyInt) -> (r: PtyBool)
    ensures
        r.0 == (lhs.0 != 0),
{
    PtyBool(lhs.0 != 0)
}

/// The negated truth value of a number: only zero gives true.
pub fn __not__(lhs: PtyInt) -> (r: PtyBool)
    ensures
        r.0 == (lhs.0 == 0),
{
    PtyBool(lhs.0 == 0)
}

/// The number with the opposite sign; an error if it does not fit.
pub fn __neg__(lhs: PtyInt) -> (r: Result<PtyInt, RuntimeError>)
    ensures
        r == number(fit(-lhs.0)),
{
    if lhs.0 == i128::MIN {
        Err(RuntimeError::NumericDomain)
    } else {
        Ok(PtyInt(-lhs.0))
    }
}

/// The number written in decimal.
pub fn __repr__(lhs: PtyInt) -> (r: PtyStr)
    ensures
        r.0@ == int_text(lhs.0 as int),
{
    PtyStr(int_to_string(lhs.0))
}

/// The distance of a number from zero; an error if it does not fit.
pub fn abs(self_: PtyInt) -> (r: Result<PtyInt, RuntimeError>)
    ensures
        r == number(fit(abs_int(self_.0 as int))),
{
    if self_.0 == i128::MIN {
        Err(RuntimeError::NumericDomain)
    } else if self_.0 < 0 {
        Ok(PtyInt(-self_.0))
    } else {
        Ok(PtyInt(self_.0))
    }
}


/// Whether a runtime function is a method of the number type.
pub open spec fn is_int_fn(f: NativeFn) -> bool {
    int_fn_unary(f) || int_fn_binary(f)
}

/// Whether a runtime function is a method of the number type that takes the
/// number alone.
pub open spec fn int_fn_unary(f: NativeFn) -> bool {
    f == NativeFn::IntBool || f == NativeFn::IntNeg || f == NativeFn::IntRepr || f
        == NativeFn::IntAbs
}

/// Whether a runtime function is a method of the number type that takes a
/// second number.
pub open spec fn int_fn_binary(f: NativeFn) -> bool {
    f == NativeFn::IntAdd || f == NativeFn::IntSub || f == NativeFn::IntMul || f
        == NativeFn::IntDiv || f == NativeFn::IntMod || f == NativeFn::IntIsEq || f
        == NativeFn::IntNotEq || f == NativeFn::IntLt || f == NativeFn::IntGt || f == NativeFn::IntLtEq || f
        == NativeFn::IntGtEq
}

/// What a method of the number type does, given the machine's state and the
/// arguments: the receiver and, for a binary method, a second number. An
/// argument that is no number is a capability mismatch.
pub open spec fn call_int(st: VmView, f: NativeFn, args: Seq<PettyObject>) -> Step<PettyObject>
    recommends
        is_int_fn(f),
        native_arity(f) == Some(args.len()),
{
    match st.int_of(args[0]) {
        None => Err(RuntimeError::CapabilityMismatch),
        Some(a) => if f == NativeFn::IntBool {
            st.bool_result(a != 0)
        } else if f == NativeFn::IntNeg {
            st.int_result(number(fit(-a)))
        } else if f == NativeFn::IntAbs {
            st.int_result(number(fit(abs_int(a as int))))
        } else if f == NativeFn::IntRepr {
            st.str_result(int_text(a as int))
        } else {
            match st.int_of(args[1]) {
                None => Err(RuntimeError::CapabilityMismatch),
                Some(b) => if f == NativeFn::IntAdd {
                    st.int_result(number(fit(a + b)))
                } else if f == NativeFn::IntSub {
                    st.int_result(number(fit(a - b)))
                } else if f == NativeFn::IntMul {
                    st.int_result(number(fit(a * b)))
                } else if f == NativeFn::IntDiv {
                    st.int_result(number(int_div(a, b)))
                } else if f == NativeFn::IntMod {
                    st.int_result(number(int_mod(a, b)))
                } else if f == NativeFn::IntIsEq {
                    st.bool_result(a == b)
                } else if f == NativeFn::IntNotEq {
                    st.bool_result(a != b)
                } else if f == NativeFn::IntLt {
                    st.bool_result(a < b)
                } else if f == NativeFn::IntGt {
                    st.bool_result(a > b)
                } else if f == NativeFn::IntLtEq {
                    st.bool_result(a <= b)
                } else {
                    st.bool_result(a >= b)
                },
            }
        },
    }
}

impl Vm {
    /// Runs a method of the number type.
    pub fn call_int(&mut self, f: NativeFn, args: &Vec<PettyObject>) -> (r: Result<
        PettyObject,
        RuntimeError,
    >)
        requires
            old(self).wf(),
            is_int_fn(f),
            native_arity(f) == Some(args@.len()),
        ensures
            final(self).wf(),
            steps_to(old(self)@, r, final(self)@, call_int(old(self)@, f, args@)),
    {
        let a = match self.as_int(args[0]) {
            Some(a) => a,
            None => {
                return Err(RuntimeError::CapabilityMismatch);
            },
        };
        match f {
            NativeFn::IntBool => Ok(PtyBool::new(__bool__(a).0)),
            NativeFn::IntNeg => self.new_int(__neg__(a)),
            NativeFn::IntAbs => self.new_int(abs(a)),
            NativeFn::IntRepr => self.new_str(__repr__(a)),
            _ => {
                let b = match self.as_int(args[1]) {
                    Some(b) => b,
                    None => {
                        return Err(RuntimeError::CapabilityMismatch);
                    },
                };
                match f {
                    NativeFn::IntAdd => self.new_int(__add__(a, b)),
                    NativeFn::IntSub => self.new_int(__sub__(a, b)),
                    NativeFn::IntMul => self.new_int(__mul__(a, b)),
                    NativeFn::IntDiv => self.new_int(__div__(a, b)),
                    NativeFn::IntMod => self.new_int(__mod__(a, b)),
                    NativeFn::IntIsEq => Ok(PtyBool::new(__is_eq__(a, b).0)),
                    NativeFn::IntNotEq => Ok(PtyBool::new(__not_eq__(a, b).0)),
                    NativeFn::IntLt => Ok(PtyBool::new(__lt__(a, b).0)),
                    NativeFn::IntGt => Ok(PtyBool::new(__gt__(a, b).0)),
                    NativeFn::IntLtEq => Ok(PtyBool::new(__lt_eq__(a, b).0)),
                    _ => Ok(PtyBool::new(__gt_eq__(a, b).0)),
                }
            },
        }
    }
}

} // verus!
