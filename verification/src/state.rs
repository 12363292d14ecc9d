//! The mathematical model of the machine: the arena of objects, the global
//! frame, the stack of local frames, and the pending control-flow signal.

use crate::error::RuntimeError;
use crate::object::{NativeFn, ObjectModel, PettyObject, PettyObjectType, PtyInt};
use vstd::prelude::*;

verus! {

/// How the execution of a statement sequence is going on: normally, or on
/// its way out to the nearest function call or the nearest loop.
#[derive(Clone, Copy, PartialEq, Eq, Structural, Debug)]
pub enum Signal {
    Normal,
    Return(PettyObject),
    Break,
}

/// The slot of the null object.
pub const NULL_SLOT: usize = 0;

/// The slot of the truth value `false`.
pub const FALSE_SLOT: usize = 1;

/// The slot of the truth value `true`.
pub const TRUE_SLOT: usize = 2;

/// The slot of the absent option.
pub const NONE_SLOT: usize = 3;

/// The slot of the string that the null object shows itself as.
pub const NULL_STR_SLOT: usize = 4;

/// The slot of the canonical number 0; the canonical numbers up to
/// `INT_COUNT - 1` follow it.
pub const INT_BASE: usize = 5;

/// How many small numbers have a canonical object.
pub const INT_COUNT: usize = 256;

/// The slot of the first function that the runtime provides.
pub const NATIVE_BASE: usize = 261;

/// How many functions the runtime provides.
pub const NATIVE_COUNT: usize = 69;

/// The number of slots that every machine starts with.
pub const RESERVED: usize = 330;

/// The position of a runtime function among the runtime functions.
pub open spec fn native_index(f: NativeFn) -> nat {
    match f {
        NativeFn::IntAdd => 0,
        NativeFn::IntSub => 1,
        NativeFn::IntMul => 2,
        NativeFn::IntDiv => 3,
        NativeFn::IntMod => 4,
        NativeFn::IntIsEq => 5,
        NativeFn::IntLt => 6,
        NativeFn::IntGt => 7,
        NativeFn::IntLtEq => 8,
        NativeFn::IntGtEq => 9,
        NativeFn::IntBool => 10,
        NativeFn::IntNeg => 11,
        NativeFn::IntRepr => 12,
        NativeFn::IntAbs => 13,
        NativeFn::BoolBool => 14,
        NativeFn::BoolNot => 15,
        NativeFn::BoolAnd => 16,
        NativeFn::BoolOr => 17,
        NativeFn::BoolRepr => 18,
        NativeFn::NullBool => 19,
        NativeFn::NullRepr => 20,
        NativeFn::StrRepr => 21,
        NativeFn::StrAdd => 22,
        NativeFn::StrMul => 23,
        NativeFn::StrIsEq => 24,
        NativeFn::StrUpper => 25,
        NativeFn::StrLower => 26,
        NativeFn::StrFind => 27,
        NativeFn::StrTrim => 28,
        NativeFn::StrTrimStart => 29,
        NativeFn::StrTrimEnd => 30,
        NativeFn::StrTrimStartMatches => 31,
        NativeFn::StrTrimEndMatches => 32,
        NativeFn::StrFormat => 33,
        NativeFn::ListLen => 34,
        NativeFn::ListPush => 35,
        NativeFn::ListGet => 36,
        NativeFn::ListSet => 37,
        NativeFn::ListContains => 38,
        NativeFn::ListFind => 39,
        NativeFn::ListRepr => 40,
        NativeFn::ListAdd => 41,
        NativeFn::ListMul => 42,
        NativeFn::ListBool => 43,
        NativeFn::ListIter => 44,
        NativeFn::ListIsEq => 45,
        NativeFn::IterNext => 46,
        NativeFn::IterIter => 47,
        NativeFn::IterRepr => 48,
        NativeFn::IterLen => 49,
        NativeFn::OptUnwrap => 50,
        NativeFn::OptIsSome => 51,
        NativeFn::OptIsNone => 52,
        NativeFn::OptRepr => 53,
        NativeFn::OptSome => 54,
        NativeFn::RangeNew => 55,
        NativeFn::RangeIter => 56,
        NativeFn::RangeNext => 57,
        NativeFn::RangeRepr => 58,
        NativeFn::RangeSum => 59,
        NativeFn::InstanceRepr => 60,
        NativeFn::ModuleRepr => 61,
        NativeFn::Print => 62,
        NativeFn::Repr => 63,
        NativeFn::TestAssert => 64,
        NativeFn::TestAssertEq => 65,
        NativeFn::TestAssertNe => 66,
        NativeFn::IntNotEq => 67,
        NativeFn::StrNotEq => 68,
    }
}

/// The handle of the null object.
pub open spec fn null_object() -> PettyObject {
    PettyObject(NULL_SLOT)
}

/// The handle of the truth value `b`.
pub open spec fn bool_object(b: bool) -> PettyObject {
    if b {
        PettyObject(TRUE_SLOT)
    } else {
        PettyObject(FALSE_SLOT)
    }
}

/// The handle of the absent option.
pub open spec fn none_object() -> PettyObject {
    PettyObject(NONE_SLOT)
}

/// The handle of the string `null`.
pub open spec fn null_str_object() -> PettyObject {
    PettyObject(NULL_STR_SLOT)
}

/// The handle of the canonical object of a small number.
pub open spec fn small_int_object(i: i128) -> PettyObject
    recommends
        0 <= i < INT_COUNT,
{
    PettyObject((INT_BASE + i) as usize)
}

/// The handle of a runtime function.
pub open spec fn native_object(f: NativeFn) -> PettyObject {
    PettyObject((NATIVE_BASE + native_index(f)) as usize)
}

/// The models of the objects of an arena, slot by slot.
pub open spec fn heap_model(heap: Seq<PettyObjectType>) -> Seq<ObjectModel> {
    heap.map_values(|o: PettyObjectType| o@)
}

/// The state of a machine.
pub struct VmView {
    /// The objects, by slot.
    pub heap: Seq<ObjectModel>,
    /// The global frame.
    pub globals: Map<Seq<char>, PettyObject>,
    /// The local frames, outermost first, each by its handle.
    pub scopes: Seq<PettyObject>,
    /// The signal that the statement sequence under execution has raised.
    pub signal: Signal,
    /// The lines printed so far.
    pub output: Seq<Seq<char>>,
    /// How many rounds one loop may run.
    pub loop_limit: usize,
    /// How deep the evaluation of a program may nest.
    pub depth_limit: usize,
}

impl VmView {
    /// Whether a later state has kept what this one holds for good: the
    /// lines that were printed, in their order and at the start of the
    /// output, and the two budgets.
    pub open spec fn carried_to(self, after: VmView) -> bool {
        &&& after.depth_limit == self.depth_limit
        &&& after.loop_limit == self.loop_limit
        &&& after.output.len() >= self.output.len()
        &&& forall|i: int|
            0 <= i < self.output.len() ==> #[trigger] self.output[i] == after.output[i]
    }

    /// The object that a handle names, if the handle is in the arena.
    pub open spec fn get(self, o: PettyObject) -> Option<ObjectModel> {
        if o.0 < self.heap.len() {
            Some(self.heap[o.0 as int])
        } else {
            None
        }
    }

    /// Whether a handle names a frame.
    pub open spec fn is_frame(self, o: PettyObject) -> bool {
        o.0 < self.heap.len() && self.heap[o.0 as int] is Frame
    }

    /// The handle that the next new object gets.
    pub open spec fn next_object(self) -> PettyObject {
        PettyObject(self.heap.len() as usize)
    }

    /// The state after a new object was put into the arena.
    pub open spec fn allocate(self, m: ObjectModel) -> VmView {
        VmView { heap: self.heap.push(m), ..self }
    }

    /// The state after the object in slot `o` was replaced.
    pub open spec fn store(self, o: PettyObject, m: ObjectModel) -> VmView {
        VmView { heap: self.heap.update(o.0 as int, m), ..self }
    }

    /// The state with another pending signal.
    pub open spec fn with_signal(self, signal: Signal) -> VmView {
        VmView { signal, ..self }
    }

    /// The state with another stack of local frames.
    pub open spec fn with_scopes(self, scopes: Seq<PettyObject>) -> VmView {
        VmView { scopes, ..self }
    }

    /// The state after one more line was printed.
    pub open spec fn print(self, line: Seq<char>) -> VmView {
        VmView { output: self.output.push(line), ..self }
    }

    /// What `key` is bound to in the innermost of the first `n` local frames
    /// that binds it.
    pub open spec fn read_scopes(self, key: Seq<char>, n: nat) -> Option<PettyObject>
        decreases n,
    {
        if n == 0 || n > self.scopes.len() {
            None
        } else {
            match self.get(self.scopes[n - 1]) {
                Some(ObjectModel::Frame(m)) if m.contains_key(key) => Some(m[key]),
                _ => self.read_scopes(key, (n - 1) as nat),
            }
        }
    }

    /// What a name is bound to: the local frames are searched from the
    /// innermost to the outermost, then the global frame.
    pub open spec fn read(self, key: Seq<char>) -> Option<PettyObject> {
        match self.read_scopes(key, self.scopes.len()) {
            Some(o) => Some(o),
            None => if self.globals.contains_key(key) {
                Some(self.globals[key])
            } else {
                None
            },
        }
    }

    /// The state after a name was bound: in the innermost local frame if
    /// there is one, else in the global frame.
    pub open spec fn write(self, key: Seq<char>, value: PettyObject) -> VmView {
        if self.scopes.len() > 0 {
            let top = self.scopes.last();
            match self.get(top) {
                Some(ObjectModel::Frame(m)) => self.store(top, ObjectModel::Frame(m.insert(key, value))),
                _ => self,
            }
        } else {
            VmView { globals: self.globals.insert(key, value), ..self }
        }
    }

    /// The state after a fresh, empty local frame was pushed.
    pub open spec fn new_scope(self) -> VmView {
        let frame = self.next_object();
        self.allocate(ObjectModel::Frame(Map::empty())).with_scopes(self.scopes.push(frame))
    }

    /// The state after the innermost local frame was popped.
    pub open spec fn drop_scope(self) -> VmView {
        if self.scopes.len() > 0 {
            self.with_scopes(self.scopes.drop_last())
        } else {
            self
        }
    }

    /// Whether every handle of `frames` names a frame.
    pub open spec fn all_frames(self, frames: Seq<PettyObject>) -> bool {
        forall|i: int| 0 <= i < frames.len() ==> self.is_frame(#[trigger] frames[i])
    }

    /// Whether the frames that a function object closes over are frames.
    pub open spec fn closed(self, m: ObjectModel) -> bool {
        m matches ObjectModel::Function { scopes, .. } ==> self.all_frames(scopes)
    }

    /// Whether the slots that every machine starts with hold what they
    /// should: the null object, the truth values, the absent option, the
    /// canonical small numbers and the runtime functions.
    pub open spec fn reserved_ok(self) -> bool {
        &&& self.heap.len() >= RESERVED
        &&& self.heap[NULL_SLOT as int] == ObjectModel::Null
        &&& self.heap[FALSE_SLOT as int] == ObjectModel::Bool(false)
        &&& self.heap[TRUE_SLOT as int] == ObjectModel::Bool(true)
        &&& self.heap[NONE_SLOT as int] == ObjectModel::Opt(None)
        &&& self.heap[NULL_STR_SLOT as int] == ObjectModel::Str("null"@)
        &&& forall|i: int|
            0 <= i < INT_COUNT ==> #[trigger] self.heap[INT_BASE + i] == ObjectModel::Int(i as i128)
        &&& forall|f: NativeFn| #[trigger]
            self.heap[NATIVE_BASE + native_index(f)] == ObjectModel::Native(f)
    }

    /// The invariant of a machine: the reserved slots hold what they should,
    /// the arena fits the address space, every local frame on the stack is a
    /// frame, and so is every frame that a function object closes over.
    pub open spec fn wf(self) -> bool {
        &&& self.reserved_ok()
        &&& self.heap.len() <= usize::MAX
        &&& self.all_frames(self.scopes)
        &&& forall|h: int| 0 <= h < self.heap.len() ==> self.closed(#[trigger] self.heap[h])
    }
}


/// The outcome of one step of the machine: a result and the state after it,
/// or the error that ended evaluation.
pub type Step<T> = Result<(T, VmView), RuntimeError>;

impl VmView {
    /// The number that a handle names, if it names one.
    pub open spec fn int_of(self, o: PettyObject) -> Option<i128> {
        match self.get(o) {
            Some(ObjectModel::Int(i)) => Some(i),
            _ => None,
        }
    }

    /// The truth value that a handle names, if it names one.
    pub open spec fn bool_of(self, o: PettyObject) -> Option<bool> {
        match self.get(o) {
            Some(ObjectModel::Bool(b)) => Some(b),
            _ => None,
        }
    }

    /// The text of the string that a handle names, if it names one.
    pub open spec fn text_of(self, o: PettyObject) -> Option<Seq<char>> {
        match self.get(o) {
            Some(ObjectModel::Str(s)) => Some(s),
            _ => None,
        }
    }

    /// The items of the list that a handle names, if it names one.
    pub open spec fn list_of(self, o: PettyObject) -> Option<Seq<PettyObject>> {
        match self.get(o) {
            Some(ObjectModel::List(items)) => Some(items),
            _ => None,
        }
    }

    /// A step that puts a new object into the arena and gives its handle.
    pub open spec fn new_object(self, m: ObjectModel) -> Step<PettyObject> {
        Ok((self.next_object(), self.allocate(m)))
    }

    /// A step that gives the canonical object of a truth value.
    pub open spec fn bool_result(self, b: bool) -> Step<PettyObject> {
        Ok((bool_object(b), self))
    }

    /// A step that gives a new number, or the error of a number that does
    /// not fit.
    pub open spec fn int_result(self, v: Result<PtyInt, RuntimeError>) -> Step<PettyObject> {
        match v {
            Ok(i) => self.new_object(ObjectModel::Int(i.0)),
            Err(e) => Err(e),
        }
    }

    /// A step that gives a new string.
    pub open spec fn str_result(self, s: Seq<char>) -> Step<PettyObject> {
        self.new_object(ObjectModel::Str(s))
    }

    /// A step that gives an option: the canonical absent one, or a new
    /// present one.
    pub open spec fn opt_result(self, v: Option<PettyObject>) -> Step<PettyObject> {
        match v {
            Some(o) => self.new_object(ObjectModel::Opt(Some(o))),
            None => Ok((none_object(), self)),
        }
    }

    /// A step that gives a position as an option of a number: absent, or a
    /// new number in a new present option.
    pub open spec fn index_result(self, v: Option<usize>) -> Step<PettyObject> {
        match v {
            Some(i) => self.allocate(ObjectModel::Int(i as i128)).new_object(
                ObjectModel::Opt(Some(self.next_object())),
            ),
            None => Ok((none_object(), self)),
        }
    }

    /// A step that gives the null object and leaves the state as it is.
    pub open spec fn null_result(self) -> Step<PettyObject> {
        Ok((null_object(), self))
    }
}

/// A number as a position: a negative number counts as the first position,
/// and one beyond the address space as the last.
pub open spec fn clamp_index(n: i128) -> usize {
    if n < 0 {
        0
    } else if n > usize::MAX {
        usize::MAX
    } else {
        n as usize
    }
}

/// The item at a position of a sequence, if the position is in it.
pub open spec fn seq_get(items: Seq<PettyObject>, i: usize) -> Option<PettyObject> {
    if i < items.len() {
        Some(items[i as int])
    } else {
        None
    }
}

/// A counter moved on by one, as long as the address space allows.
pub open spec fn bump(c: usize) -> usize {
    if c < usize::MAX {
        (c + 1) as usize
    } else {
        c
    }
}

/// Whether an executed step is the one that the model describes: on success
/// the same result and the same state, with the stack of local frames as it
/// was before the step; on failure the same error. Either way the lines
/// printed before the step and the budgets are kept.
pub open spec fn steps_to<T>(
    before: VmView,
    r: Result<T, RuntimeError>,
    after: VmView,
    step: Step<T>,
) -> bool {
    &&& before.carried_to(after)
    &&& match step {
        Ok((v, st)) => r == Ok::<T, RuntimeError>(v) && after == st && after.scopes
            == before.scopes,
        Err(e) => r == Err::<T, RuntimeError>(e),
    }
}

/// The step that forgets the result of another and gives the null object.
pub open spec fn null_after<T>(step: Step<T>) -> Step<PettyObject> {
    match step {
        Ok((_, st)) => Ok((null_object(), st)),
        Err(e) => Err(e),
    }
}

} // verus!
