//! The dispatch over the runtime functions, and those of them that call
//! back into the machine.

use crate::builtins::list::is_list_fn;
use crate::builtins::list_iter::is_iter_fn;
use crate::builtins::module::is_show_fn;
use crate::builtins::native_arity;
use crate::builtins::null::is_null_fn;
use crate::builtins::number::is_int_fn;
use crate::builtins::option::is_opt_fn;
use crate::builtins::pty_bool::is_bool_fn;
use crate::builtins::range::is_range_fn;
use crate::builtins::string::{is_str_fn, split_braces, texts};
use crate::error::RuntimeError;
use crate::evaluate::steps_to_text;
use crate::machine::{copy_handles, Vm};
use crate::object::{NativeFn, PettyObject, PettyObjectType, PtyBool, PtyStr};
use crate::semantics::{
    all_equal_from, call_back, call_native, find_from, format_from, is_call_back_fn, repr_items,
};
use crate::state::{steps_to, NULL_SLOT};
use vstd::prelude::*;
use vstd::string::StringExecFns;

verus! {

impl Vm {
    /// The position of the first item that equals `obj`.
    pub fn find_from(&mut self, items: &Vec<PettyObject>, obj: PettyObject, depth: usize) -> (r:
        Result<Option<usize>, RuntimeError>)
        requires
            old(self).wf(),
        ensures
            final(self).wf(),
            steps_to(old(self)@, r, final(self)@, find_from(old(self)@, items@, 0, obj, depth as nat)),
        decreases depth, 3nat, items@.len(),
    {
        let mut i: usize = 0;
        while i < items.len()
            invariant
                i <= items@.len(),
                self.wf(),
                self@.scopes == old(self)@.scopes,
                old(self)@.carried_to(self@),
                find_from(old(self)@, items@, 0, obj, depth as nat) == find_from(
                    self@,
                    items@,
                    i as nat,
                    obj,
                    depth as nat,
                ),
            decreases items@.len() - i,
        {
            match self.values_equal(obj, items[i], depth) {
                Err(e) => {
                    return Err(e);
                },
                Ok(e) => {
                    if e {
                        return Ok(Some(i));
                    }
                },
            }
            i += 1;
        }
        Ok(None)
    }

    /// The texts that the items show themselves as, appended to `acc`, with
    /// `sep` before each but the first.
    pub fn repr_items(&mut self, items: &Vec<PettyObject>, sep: &str, acc: String, depth: usize) -> (r:
        Result<String, RuntimeError>)
        requires
            old(self).wf(),
        ensures
            final(self).wf(),
            steps_to_text(
                old(self)@,
                r,
                final(self)@,
                repr_items(old(self)@, items@, 0, sep@, acc@, depth as nat),
            ),
        decreases depth, 3nat, items@.len(),
    {
        let mut out = acc;
        let mut i: usize = 0;
        while i < items.len()
            invariant
                i <= items@.len(),
                self.wf(),
                self@.scopes == old(self)@.scopes,
                old(self)@.carried_to(self@),
                repr_items(old(self)@, items@, 0, sep@, acc@, depth as nat) == repr_items(
                    self@,
                    items@,
                    i as nat,
                    sep@,
                    out@,
                    depth as nat,
                ),
            decreases items@.len() - i,
        {
            match items[i].force_repr(self, depth) {
                Err(e) => {
                    return Err(e);
                },
                Ok(text) => {
                    if i != 0 {
                        out.append(sep);
                    }
                    out.append(text.as_str());
                },
            }
            i += 1;
        }
        Ok(out)
    }

    /// Whether the items of two sequences of one length are equal pair by
    /// pair.
    pub fn all_equal_from(&mut self, xs: &Vec<PettyObject>, ys: &Vec<PettyObject>, depth: usize) -> (r:
        Result<bool, RuntimeError>)
        requires
            old(self).wf(),
        ensures
            final(self).wf(),
            steps_to(
                old(self)@,
                r,
                final(self)@,
                all_equal_from(old(self)@, xs@, ys@, 0, depth as nat),
            ),
        decreases depth, 3nat, xs@.len(),
    {
        let mut i: usize = 0;
        while i < xs.len() && i < ys.len()
            invariant
                self.wf(),
                self@.scopes == old(self)@.scopes,
                old(self)@.carried_to(self@),
                all_equal_from(old(self)@, xs@, ys@, 0, depth as nat) == all_equal_from(
                    self@,
                    xs@,
                    ys@,
                    i as nat,
                    depth as nat,
                ),
            decreases xs@.len() - i,
        {
            match self.values_equal(xs[i], ys[i], depth) {
                Err(e) => {
                    return Err(e);
                },
                Ok(e) => {
                    if !e {
                        return Ok(false);
                    }
                },
            }
            i += 1;
        }
        Ok(true)
    }

    /// The text of a format: its segments, each but the first behind the
    /// text that the argument at its position shows itself as.
    pub fn format_from(&mut self, segments: &Vec<String>, args: &Vec<PettyObject>, depth: usize) -> (r:
        Result<String, RuntimeError>)
        requires
            old(self).wf(),
        ensures
            final(self).wf(),
            steps_to_text(
                old(self)@,
                r,
                final(self)@,
                format_from(old(self)@, texts(segments@), args@, 0, Seq::empty(), depth as nat),
            ),
        decreases depth, 3nat, segments@.len(),
    {
        let mut out = String::new();
        let mut i: usize = 0;
        while i < segments.len()
            invariant
                i <= segments@.len(),
                self.wf(),
                self@.scopes == old(self)@.scopes,
                old(self)@.carried_to(self@),
                texts(segments@).len() == segments@.len(),
                format_from(
                    old(self)@,
                    texts(segments@),
                    args@,
                    0,
                    Seq::empty(),
                    depth as nat,
                ) == format_from(self@, texts(segments@), args@, i as nat, out@, depth as nat),
            decreases segments@.len() - i,
        {
            assert(texts(segments@)[i as int] == segments@[i as int]@);
            if i != 0 {
                if i >= args.len() {
                    return Err(RuntimeError::ArityMismatch);
                }
                match args[i].force_repr(self, depth) {
                    Err(e) => {
                        return Err(e);
                    },
                    Ok(text) => {
                        out.append(text.as_str());
                    },
                }
            }
            out.append(segments[i].as_str());
            i += 1;
        }
        Ok(out)
    }

    /// Adds a line to the output.
    pub fn print_line(&mut self, line: String)
        requires
            old(self).wf(),
        ensures
            final(self).wf(),
            final(self)@ == old(self)@.print(line@),
            old(self)@.carried_to(final(self)@),
    {
        self.output.push(line);
        proof {
            assert(self@.output =~= old(self)@.output.push(line@));
            self.lemma_signal_wf(*old(self));
        }
    }

    /// Runs `contains` or `find` of a list: compares an object with the
    /// items that the list holds when the call starts.
    pub fn native_find(&mut self, f: NativeFn, args: &Vec<PettyObject>, depth: usize) -> (r: Result<
        PettyObject,
        RuntimeError,
    >)
        requires
            old(self).wf(),
            f == NativeFn::ListContains || f == NativeFn::ListFind,
            args@.len() == 2,
        ensures
            final(self).wf(),
            steps_to(old(self)@, r, final(self)@, call_back(old(self)@, f, args@, depth as nat)),
        decreases depth, 4nat, 0nat,
    {
        let items = match self.as_list(args[0]) {
            Some(l) => copy_handles(&l.0),
            None => {
                return Err(RuntimeError::CapabilityMismatch);
            },
        };
        match self.find_from(&items, args[1], depth) {
            Err(e) => Err(e),
            Ok(found) => {
                match f {
                    NativeFn::ListContains => Ok(PtyBool::new(found.is_some())),
                    _ => self.new_index(found),
                }
            },
        }
    }

    /// Runs `__repr__` of a list: its items between brackets.
    pub fn native_list_repr(&mut self, args: &Vec<PettyObject>, depth: usize) -> (r: Result<
        PettyObject,
        RuntimeError,
    >)
        requires
            old(self).wf(),
            args@.len() == 1,
        ensures
            final(self).wf(),
            steps_to(
                old(self)@,
                r,
                final(self)@,
                call_back(old(self)@, NativeFn::ListRepr, args@, depth as nat),
            ),
        decreases depth, 4nat, 0nat,
    {
        let items = match self.as_list(args[0]) {
            Some(l) => copy_handles(&l.0),
            None => {
                return Err(RuntimeError::CapabilityMismatch);
            },
        };
        match self.repr_items(&items, ", ", "[".to_owned(), depth) {
            Err(e) => Err(e),
            Ok(text) => self.new_str(PtyStr(text.concat("]"))),
        }
    }

    /// Runs `__is_eq__` of two lists: their items compared pair by pair.
    pub fn native_list_eq(&mut self, args: &Vec<PettyObject>, depth: usize) -> (r: Result<
        PettyObject,
        RuntimeError,
    >)
        requires
            old(self).wf(),
            args@.len() == 2,
        ensures
            final(self).wf(),
            steps_to(
                old(self)@,
                r,
                final(self)@,
                call_back(old(self)@, NativeFn::ListIsEq, args@, depth as nat),
            ),
        decreases depth, 4nat, 0nat,
    {
        let (xs, ys) = match (self.as_list(args[0]), self.as_list(args[1])) {
            (Some(x), Some(y)) => (copy_handles(&x.0), copy_handles(&y.0)),
            _ => {
                return Err(RuntimeError::CapabilityMismatch);
            },
        };
        if xs.len() != ys.len() {
            return Ok(PtyBool::new(false));
        }
        match self.all_equal_from(&xs, &ys, depth) {
            Err(e) => Err(e),
            Ok(e) => Ok(PtyBool::new(e)),
        }
    }

    /// Runs `__repr__` of an option.
    pub fn native_option_repr(&mut self, args: &Vec<PettyObject>, depth: usize) -> (r: Result<
        PettyObject,
        RuntimeError,
    >)
        requires
            old(self).wf(),
            args@.len() == 1,
        ensures
            final(self).wf(),
            steps_to(
                old(self)@,
                r,
                final(self)@,
                call_back(old(self)@, NativeFn::OptRepr, args@, depth as nat),
            ),
        decreases depth, 4nat, 0nat,
    {
        let inner = match self.get(args[0]) {
            Some(PettyObjectType::Opt(o)) => o.0,
            _ => {
                return Err(RuntimeError::CapabilityMismatch);
            },
        };
        match inner {
            Some(v) => match v.force_repr(self, depth) {
                Err(e) => Err(e),
                Ok(text) => self.new_str(PtyStr(text)),
            },
            None => self.new_str(PtyStr("None".to_owned())),
        }
    }

    /// Runs `format` of a string: fills its pairs of braces by the further
    /// arguments.
    pub fn str_format(&mut self, args: &Vec<PettyObject>, depth: usize) -> (r: Result<
        PettyObject,
        RuntimeError,
    >)
        requires
            old(self).wf(),
        ensures
            final(self).wf(),
            steps_to(
                old(self)@,
                r,
                final(self)@,
                call_back(old(self)@, NativeFn::StrFormat, args@, depth as nat),
            ),
        decreases depth, 4nat, 0nat,
    {
        if args.len() == 0 {
            return Err(RuntimeError::ArityMismatch);
        }
        let segments = match self.as_str(args[0]) {
            Some(s) => split_braces(s.0.as_str()),
            None => {
                return Err(RuntimeError::CapabilityMismatch);
            },
        };
        match self.format_from(&segments, args, depth) {
            Err(e) => Err(e),
            Ok(text) => self.new_str(PtyStr(text)),
        }
    }

    /// Runs `print`: adds one line to the output, made of what the arguments
    /// show themselves as.
    pub fn print(&mut self, args: &Vec<PettyObject>, depth: usize) -> (r: Result<
        PettyObject,
        RuntimeError,
    >)
        requires
            old(self).wf(),
        ensures
            final(self).wf(),
            steps_to(
                old(self)@,
                r,
                final(self)@,
                call_back(old(self)@, NativeFn::Print, args@, depth as nat),
            ),
        decreases depth, 4nat, 0nat,
    {
        proof {
            reveal_strlit("");
            assert(""@ =~= Seq::<char>::empty());
        }
        match self.repr_items(args, "", String::new(), depth) {
            Err(e) => Err(e),
            Ok(line) => {
                self.print_line(line);
                Ok(PettyObject(NULL_SLOT))
            },
        }
    }

    /// Runs `repr`: a new string of what an object shows itself as.
    pub fn repr(&mut self, args: &Vec<PettyObject>, depth: usize) -> (r: Result<
        PettyObject,
        RuntimeError,
    >)
        requires
            old(self).wf(),
            args@.len() == 1,
        ensures
            final(self).wf(),
            steps_to(
                old(self)@,
                r,
                final(self)@,
                call_back(old(self)@, NativeFn::Repr, args@, depth as nat),
            ),
        decreases depth, 4nat, 0nat,
    {
        match args[0].force_repr(self, depth) {
            Err(e) => Err(e),
            Ok(text) => self.new_str(PtyStr(text)),
        }
    }

    /// Runs an assertion of the running program: that an object is true,
    /// that two objects are equal, or that they are not.
    pub fn native_assert(&mut self, f: NativeFn, args: &Vec<PettyObject>, depth: usize) -> (r:
        Result<PettyObject, RuntimeError>)
        requires
            old(self).wf(),
            f == NativeFn::TestAssert || f == NativeFn::TestAssertEq || f
                == NativeFn::TestAssertNe,
            native_arity(f) == Some(args@.len()),
        ensures
            final(self).wf(),
            steps_to(old(self)@, r, final(self)@, call_back(old(self)@, f, args@, depth as nat)),
        decreases depth, 4nat, 0nat,
    {
        let holds = match f {
            NativeFn::TestAssert => self.truthy(args[0], depth),
            _ => {
                match self.values_equal(args[0], args[1], depth) {
                    Err(e) => Err(e),
                    Ok(e) => {
                        match f {
                            NativeFn::TestAssertEq => Ok(e),
                            _ => Ok(!e),
                        }
                    },
                }
            },
        };
        match holds {
            Err(e) => Err(e),
            Ok(true) => Ok(PettyObject(NULL_SLOT)),
            Ok(false) => Err(RuntimeError::AssertionFailed),
        }
    }

    /// Runs a runtime function that calls back into the machine.
    pub fn call_back(&mut self, f: NativeFn, args: &Vec<PettyObject>, depth: usize) -> (r: Result<
        PettyObject,
        RuntimeError,
    >)
        requires
            old(self).wf(),
            is_call_back_fn(f),
            native_arity(f).is_some() ==> native_arity(f) == Some(args@.len()),
        ensures
            final(self).wf(),
            steps_to(old(self)@, r, final(self)@, call_back(old(self)@, f, args@, depth as nat)),
        decreases depth, 4nat, 1nat,
    {
        match f {
            NativeFn::ListContains | NativeFn::ListFind => self.native_find(f, args, depth),
            NativeFn::ListRepr => self.native_list_repr(args, depth),
            NativeFn::ListIsEq => self.native_list_eq(args, depth),
            NativeFn::OptRepr => self.native_option_repr(args, depth),
            NativeFn::StrFormat => self.str_format(args, depth),
            NativeFn::Print => self.print(args, depth),
            NativeFn::Repr => self.repr(args, depth),
            _ => self.native_assert(f, args, depth),
        }
    }

    /// Runs a runtime function on as many arguments as it takes.
    pub fn call_native(&mut self, f: NativeFn, args: &Vec<PettyObject>, depth: usize) -> (r: Result<
        PettyObject,
        RuntimeError,
    >)
        requires
            old(self).wf(),
            native_arity(f).is_some() ==> native_arity(f) == Some(args@.len()),
        ensures
            final(self).wf(),
            steps_to(old(self)@, r, final(self)@, call_native(old(self)@, f, args@, depth as nat)),
        decreases depth, 5nat, 0nat,
    {
        match family(f) {
            Family::Int => self.call_int(f, args),
            Family::Bool => self.call_bool(f, args),
            Family::Null => self.call_null(f, args),
            Family::Str => self.call_str(f, args),
            Family::List => self.call_list(f, args),
            Family::Iter => self.call_iter(f, args),
            Family::Opt => self.call_opt(f, args),
            Family::Range => self.call_range(f, args),
            Family::Show => self.call_show(f, args),
            Family::CallBack => self.call_back(f, args, depth),
        }
    }
}

/// The groups of the runtime functions.
#[derive(Clone, Copy, PartialEq, Eq, Structural, Debug)]
pub enum Family {
    Int,
    Bool,
    Null,
    Str,
    List,
    Iter,
    Opt,
    Range,
    Show,
    CallBack,
}

/// The group of a runtime function.
pub open spec fn family_of(f: NativeFn) -> Family {
    if is_int_fn(f) {
        Family::Int
    } else if is_bool_fn(f) {
        Family::Bool
    } else if is_null_fn(f) {
        Family::Null
    } else if is_str_fn(f) {
        Family::Str
    } else if is_list_fn(f) {
        Family::List
    } else if is_iter_fn(f) {
        Family::Iter
    } else if is_opt_fn(f) {
        Family::Opt
    } else if is_range_fn(f) {
        Family::Range
    } else if is_show_fn(f) {
        Family::Show
    } else {
        Family::CallBack
    }
}

/// The group of a runtime function.
pub fn family(f: NativeFn) -> (g: Family)
    ensures
        g == family_of(f),
        g == Family::CallBack ==> is_call_back_fn(f),
{
    match f {
        NativeFn::IntAdd | NativeFn::IntSub | NativeFn::IntMul | NativeFn::IntDiv
        | NativeFn::IntMod | NativeFn::IntIsEq | NativeFn::IntLt | NativeFn::IntGt
        | NativeFn::IntLtEq | NativeFn::IntGtEq | NativeFn::IntBool | NativeFn::IntNeg
        | NativeFn::IntRepr | NativeFn::IntAbs | NativeFn::IntNotEq => Family::Int,
        NativeFn::BoolBool | NativeFn::BoolNot | NativeFn::BoolRepr | NativeFn::BoolAnd
        | NativeFn::BoolOr => Family::Bool,
        NativeFn::NullBool | NativeFn::NullRepr => Family::Null,
        NativeFn::StrRepr | NativeFn::StrUpper | NativeFn::StrLower | NativeFn::StrTrim
        | NativeFn::StrTrimStart | NativeFn::StrTrimEnd | NativeFn::StrMul | NativeFn::StrAdd
        | NativeFn::StrIsEq | NativeFn::StrFind | NativeFn::StrTrimStartMatches
        | NativeFn::StrTrimEndMatches | NativeFn::StrNotEq => Family::Str,
        NativeFn::ListLen | NativeFn::ListBool | NativeFn::ListIter | NativeFn::ListPush
        | NativeFn::ListGet | NativeFn::ListSet | NativeFn::ListAdd | NativeFn::ListMul => {
            Family::List
        },
        NativeFn::IterNext | NativeFn::IterIter | NativeFn::IterRepr | NativeFn::IterLen => {
            Family::Iter
        },
        NativeFn::OptUnwrap | NativeFn::OptIsSome | NativeFn::OptIsNone | NativeFn::OptSome => {
            Family::Opt
        },
        NativeFn::RangeNew | NativeFn::RangeIter | NativeFn::RangeNext | NativeFn::RangeRepr
        | NativeFn::RangeSum => Family::Range,
        NativeFn::InstanceRepr | NativeFn::ModuleRepr => Family::Show,
        _ => Family::CallBack,
    }
}

} // verus!
