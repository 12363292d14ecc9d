//! The machine: its arena, its frames, and the operations on them.

use crate::dict::Dict;
use crate::error::RuntimeError;
use crate::object::{
    NativeFn, ObjectModel, PettyObject, PettyObjectType, PtyBool, PtyInt, PtyList, PtyNull,
    PtyOption, PtyStr, RawFunction,
};
use crate::preallocated::PreAllocated;
use crate::state::{
    bool_object, clamp_index, heap_model, native_index, native_object, steps_to, Signal, VmView,
    FALSE_SLOT, INT_BASE, INT_COUNT, NATIVE_BASE, NATIVE_COUNT, NONE_SLOT, NULL_SLOT,
    NULL_STR_SLOT, RESERVED, TRUE_SLOT,
};
use vstd::prelude::*;

verus! {

/// The evaluator of one thread of a running program.
pub struct Vm {
    /// The arena: every object of the program, by slot. An object stays in
    /// its slot for the life of the machine, so a handle never dangles.
    pub heap: Vec<PettyObjectType>,
    /// The canonical objects of the small numbers.
    pub preallocated: PreAllocated,
    /// The global frame.
    pub globals: Dict,
    /// The signal raised by the statement sequence under execution.
    pub signal: Signal,
    /// The local frames, outermost first.
    pub scopes: Vec<PettyObject>,
    /// The lines that the program has printed.
    pub output: Vec<String>,
    /// How many rounds one loop may run.
    pub loop_limit: usize,
    /// How deep evaluation may nest.
    pub depth_limit: usize,
}

/// The texts of printed lines.
pub open spec fn lines_model(lines: Seq<String>) -> Seq<Seq<char>> {
    lines.map_values(|s: String| s@)
}

impl View for Vm {
    type V = VmView;

    open spec fn view(&self) -> VmView {
        VmView {
            heap: heap_model(self.heap@),
            globals: self.globals@,
            scopes: self.scopes@,
            signal: self.signal,
            output: lines_model(self.output@),
            loop_limit: self.loop_limit,
            depth_limit: self.depth_limit,
        }
    }
}

/// The runtime function at a position among the runtime functions.
pub fn native_at(i: usize) -> (f: NativeFn)
    requires
        i < NATIVE_COUNT,
    ensures
        native_index(f) == i,
{
    match i {
        0 => NativeFn::IntAdd,
        1 => NativeFn::IntSub,
        2 => NativeFn::IntMul,
        3 => NativeFn::IntDiv,
        4 => NativeFn::IntMod,
        5 => NativeFn::IntIsEq,
        6 => NativeFn::IntLt,
        7 => NativeFn::IntGt,
        8 => NativeFn::IntLtEq,
        9 => NativeFn::IntGtEq,
        10 => NativeFn::IntBool,
        11 => NativeFn::IntNeg,
        12 => NativeFn::IntRepr,
        13 => NativeFn::IntAbs,
        14 => NativeFn::BoolBool,
        15 => NativeFn::BoolNot,
        16 => NativeFn::BoolAnd,
        17 => NativeFn::BoolOr,
        18 => NativeFn::BoolRepr,
        19 => NativeFn::NullBool,
        20 => NativeFn::NullRepr,
        21 => NativeFn::StrRepr,
        22 => NativeFn::StrAdd,
        23 => NativeFn::StrMul,
        24 => NativeFn::StrIsEq,
        25 => NativeFn::StrUpper,
        26 => NativeFn::StrLower,
        27 => NativeFn::StrFind,
        28 => NativeFn::StrTrim,
        29 => NativeFn::StrTrimStart,
        30 => NativeFn::StrTrimEnd,
        31 => NativeFn::StrTrimStartMatches,
        32 => NativeFn::StrTrimEndMatches,
        33 => NativeFn::StrFormat,
        34 => NativeFn::ListLen,
        35 => NativeFn::ListPush,
        36 => NativeFn::ListGet,
        37 => NativeFn::ListSet,
        38 => NativeFn::ListContains,
        39 => NativeFn::ListFind,
        40 => NativeFn::ListRepr,
        41 => NativeFn::ListAdd,
        42 => NativeFn::ListMul,
        43 => NativeFn::ListBool,
        44 => NativeFn::ListIter,
        45 => NativeFn::ListIsEq,
        46 => NativeFn::IterNext,
        47 => NativeFn::IterIter,
        48 => NativeFn::IterRepr,
        49 => NativeFn::IterLen,
        50 => NativeFn::OptUnwrap,
        51 => NativeFn::OptIsSome,
        52 => NativeFn::OptIsNone,
        53 => NativeFn::OptRepr,
        54 => NativeFn::OptSome,
        55 => NativeFn::RangeNew,
        56 => NativeFn::RangeIter,
        57 => NativeFn::RangeNext,
        58 => NativeFn::RangeRepr,
        59 => NativeFn::RangeSum,
        60 => NativeFn::InstanceRepr,
        61 => NativeFn::ModuleRepr,
        62 => NativeFn::Print,
        63 => NativeFn::Repr,
        64 => NativeFn::TestAssert,
        65 => NativeFn::TestAssertEq,
        66 => NativeFn::TestAssertNe,
        67 => NativeFn::IntNotEq,
        _ => NativeFn::StrNotEq,
    }
}

impl NativeFn {
    /// The handle of this runtime function.
    pub fn object(self) -> (o: PettyObject)
        ensures
            o == native_object(self),
    {
        let i: usize = match self {
            NativeFn::IntAdd => 0,
            NativeFn::IntSub => 1,
            NativeFn::IntMul => 2,
            NativeFn::IntDiv => 3,
            NativeFn::IntMod => 4,
            NativeFn::IntIsEq => 5,
            NativeFn::IntLt => 6,
            NativeFn::IntGt => 7,
            NativeFn::IntLtEq => 8,
            NativeFn::IntGtEq => 9,
            NativeFn::IntBool => 10,
            NativeFn::IntNeg => 11,
            NativeFn::IntRepr => 12,
            NativeFn::IntAbs => 13,
            NativeFn::BoolBool => 14,
            NativeFn::BoolNot => 15,
            NativeFn::BoolAnd => 16,
            NativeFn::BoolOr => 17,
            NativeFn::BoolRepr => 18,
            NativeFn::NullBool => 19,
            NativeFn::NullRepr => 20,
            NativeFn::StrRepr => 21,
            NativeFn::StrAdd => 22,
            NativeFn::StrMul => 23,
            NativeFn::StrIsEq => 24,
            NativeFn::StrUpper => 25,
            NativeFn::StrLower => 26,
            NativeFn::StrFind => 27,
            NativeFn::StrTrim => 28,
            NativeFn::StrTrimStart => 29,
            NativeFn::StrTrimEnd => 30,
            NativeFn::StrTrimStartMatches => 31,
            NativeFn::StrTrimEndMatches => 32,
            NativeFn::StrFormat => 33,
            NativeFn::ListLen => 34,
            NativeFn::ListPush => 35,
            NativeFn::ListGet => 36,
            NativeFn::ListSet => 37,
            NativeFn::ListContains => 38,
            NativeFn::ListFind => 39,
            NativeFn::ListRepr => 40,
            NativeFn::ListAdd => 41,
            NativeFn::ListMul => 42,
            NativeFn::ListBool => 43,
            NativeFn::ListIter => 44,
            NativeFn::ListIsEq => 45,
            NativeFn::IterNext => 46,
            NativeFn::IterIter => 47,
            NativeFn::IterRepr => 48,
            NativeFn::IterLen => 49,
            NativeFn::OptUnwrap => 50,
            NativeFn::OptIsSome => 51,
            NativeFn::OptIsNone => 52,
            NativeFn::OptRepr => 53,
            NativeFn::OptSome => 54,
            NativeFn::RangeNew => 55,
            NativeFn::RangeIter => 56,
            NativeFn::RangeNext => 57,
            NativeFn::RangeRepr => 58,
            NativeFn::RangeSum => 59,
            NativeFn::InstanceRepr => 60,
            NativeFn::ModuleRepr => 61,
            NativeFn::Print => 62,
            NativeFn::Repr => 63,
            NativeFn::TestAssert => 64,
            NativeFn::TestAssertEq => 65,
            NativeFn::TestAssertNe => 66,
            NativeFn::IntNotEq => 67,
            NativeFn::StrNotEq => 68,
        };
        PettyObject(NATIVE_BASE + i)
    }
}

impl PtyBool {
    /// The canonical object of a truth value.
    #[inline]
    pub fn new(bool: bool) -> (o: PettyObject)
        ensures
            o == bool_object(bool),
    {
        if bool {
            PettyObject(TRUE_SLOT)
        } else {
            PettyObject(FALSE_SLOT)
        }
    }
}

impl PtyOption {
    /// The object of an option: the canonical absent one, or a new present
    /// one.
    #[inline]
    pub fn new(vm: &mut Vm, inner: Option<PettyObject>) -> (r: Result<PettyObject, RuntimeError>)
        requires
            old(vm).wf(),
        ensures
            final(vm).wf(),
            steps_to(old(vm)@, r, final(vm)@, old(vm)@.opt_result(inner)),
    {
        match inner {
            Some(_) => Ok(vm.allocate(PettyObjectType::Opt(PtyOption(inner)))),
            None => Ok(PettyObject(NONE_SLOT)),
        }
    }
}

/// A number as a position: a negative number counts as the first position,
/// and one beyond the address space as the last.
pub fn clamp(n: i128) -> (r: usize)
    ensures
        r == clamp_index(n),
{
    if n < 0 {
        0
    } else if n > usize::MAX as i128 {
        usize::MAX
    } else {
        n as usize
    }
}

/// A copy of a sequence of handles.
pub fn copy_handles(v: &Vec<PettyObject>) -> (r: Vec<PettyObject>)
    ensures
        r@ == v@,
{
    let mut r: Vec<PettyObject> = Vec::new();
    let mut i: usize = 0;
    while i < v.len()
        invariant
            i <= v@.len(),
            r@ == v@.take(i as int),
        decreases v@.len() - i,
    {
        r.push(v[i]);
        assert(v@.take(i + 1) =~= v@.take(i as int).push(v@[i as int]));
        i += 1;
    }
    assert(v@.take(v@.len() as int) =~= v@);
    r
}

/// The default number of rounds that one loop may run.
pub const DEFAULT_LOOP_LIMIT: usize = 0xffff_ffff;

/// The default depth to which evaluation may nest.
pub const DEFAULT_DEPTH_LIMIT: usize = 400;

impl Vm {
    /// The invariant of the machine.
    pub open spec fn wf(&self) -> bool {
        &&& self@.wf()
        &&& self.preallocated.wf()
    }

    /// A machine with no local frame, an empty global frame, no pending
    /// signal and nothing printed. Its arena holds the reserved objects only.
    pub fn new() -> (vm: Self)
        ensures
            vm.wf(),
            vm@ == initial_state(),
    {
        let mut heap: Vec<PettyObjectType> = Vec::new();
        heap.push(PettyObjectType::Null(PtyNull));
        heap.push(PettyObjectType::Bool(PtyBool(false)));
        heap.push(PettyObjectType::Bool(PtyBool(true)));
        heap.push(PettyObjectType::Opt(PtyOption(None)));
        heap.push(PettyObjectType::Str(PtyStr("null".to_owned())));
        let mut i: usize = 0;
        while i < INT_COUNT
            invariant
                i <= INT_COUNT,
                heap@.len() == INT_BASE + i,
                heap@[NULL_SLOT as int]@ == ObjectModel::Null,
                heap@[FALSE_SLOT as int]@ == ObjectModel::Bool(false),
                heap@[TRUE_SLOT as int]@ == ObjectModel::Bool(true),
                heap@[NONE_SLOT as int]@ == ObjectModel::Opt(None),
                heap@[NULL_STR_SLOT as int]@ == ObjectModel::Str("null"@),
                forall|k: int| 0 <= k < i ==> (#[trigger] heap@[INT_BASE + k])@ == ObjectModel::Int(k as i128),
            decreases INT_COUNT - i,
        {
            heap.push(PettyObjectType::Int(PtyInt(i as i128)));
            i += 1;
        }
        let mut j: usize = 0;
        while j < NATIVE_COUNT
            invariant
                j <= NATIVE_COUNT,
                heap@.len() == NATIVE_BASE + j,
                heap@[NULL_SLOT as int]@ == ObjectModel::Null,
                heap@[FALSE_SLOT as int]@ == ObjectModel::Bool(false),
                heap@[TRUE_SLOT as int]@ == ObjectModel::Bool(true),
                heap@[NONE_SLOT as int]@ == ObjectModel::Opt(None),
                heap@[NULL_STR_SLOT as int]@ == ObjectModel::Str("null"@),
                forall|k: int| 0 <= k < INT_COUNT ==> (#[trigger] heap@[INT_BASE + k])@ == ObjectModel::Int(k as i128),
                forall|f: NativeFn| native_index(f) < j ==> (#[trigger] heap@[NATIVE_BASE + native_index(f)])@ == ObjectModel::Native(f),
            decreases NATIVE_COUNT - j,
        {
            heap.push(PettyObjectType::Native(RawFunction(native_at(j))));
            j += 1;
        }
        let vm = Vm {
            heap,
            preallocated: PreAllocated::new(),
            globals: Dict::new(),
            signal: Signal::Normal,
            scopes: Vec::new(),
            output: Vec::new(),
            loop_limit: DEFAULT_LOOP_LIMIT,
            depth_limit: DEFAULT_DEPTH_LIMIT,
        };
        proof {
            assert forall|h: int| 0 <= h < vm@.heap.len() implies vm@.closed(#[trigger] vm@.heap[h]) by {
                if h >= NATIVE_BASE {
                    let f = native_at_spec((h - NATIVE_BASE) as nat);
                    lemma_native_at_spec((h - NATIVE_BASE) as nat);
                    assert(vm.heap@[NATIVE_BASE + native_index(f)]@ == ObjectModel::Native(f));
                } else if h >= INT_BASE {
                    assert(vm.heap@[INT_BASE + (h - INT_BASE)]@ == ObjectModel::Int((h - INT_BASE) as i128));
                }
            }
            assert(vm@.scopes =~= Seq::<PettyObject>::empty());
            assert(vm@.output =~= Seq::<Seq<char>>::empty());
            assert forall|h: int| 0 <= h < RESERVED implies #[trigger] vm@.heap[h]
                == reserved_model(h) by {
                if h >= NATIVE_BASE {
                    let f = native_at_spec((h - NATIVE_BASE) as nat);
                    lemma_native_at_spec((h - NATIVE_BASE) as nat);
                    assert(vm.heap@[NATIVE_BASE + native_index(f)]@ == ObjectModel::Native(f));
                } else if h >= INT_BASE {
                    assert(vm.heap@[INT_BASE + (h - INT_BASE)]@ == ObjectModel::Int(
                        (h - INT_BASE) as i128,
                    ));
                }
            }
            assert(vm@.heap =~= initial_state().heap);
        }
        vm
    }

    /// A new machine with budgets of the caller's choice: how deep
    /// evaluation may nest, and how many rounds one loop may run.
    pub fn with_limits(depth_limit: usize, loop_limit: usize) -> (vm: Self)
        ensures
            vm.wf(),
            vm@ == state_with_limits(depth_limit, loop_limit),
    {
        let mut vm = Vm::new();
        vm.depth_limit = depth_limit;
        vm.loop_limit = loop_limit;
        proof {
            let before = initial_state();
            assert forall|h: int| 0 <= h < vm@.heap.len() implies vm@.closed(
                #[trigger] vm@.heap[h],
            ) by {
                assert(before.closed(before.heap[h]));
            }
        }
        vm
    }

    /// The object that a handle names, if the handle is in the arena.
    pub fn get(&self, o: PettyObject) -> (r: Option<&PettyObjectType>)
        ensures
            match r {
                Some(obj) => self@.get(o) == Some(obj@),
                None => self@.get(o).is_none(),
            },
    {
        if o.0 < self.heap.len() {
            Some(&self.heap[o.0])
        } else {
            None
        }
    }

    /// The number that a handle names, if it names one.
    pub fn as_int(&self, o: PettyObject) -> (r: Option<PtyInt>)
        ensures
            match r {
                Some(i) => self@.int_of(o) == Some(i.0),
                None => self@.int_of(o).is_none(),
            },
    {
        match self.get(o) {
            Some(PettyObjectType::Int(i)) => Some(*i),
            _ => None,
        }
    }

    /// The truth value that a handle names, if it names one.
    pub fn as_bool(&self, o: PettyObject) -> (r: Option<PtyBool>)
        ensures
            match r {
                Some(b) => self@.bool_of(o) == Some(b.0),
                None => self@.bool_of(o).is_none(),
            },
    {
        match self.get(o) {
            Some(PettyObjectType::Bool(b)) => Some(*b),
            _ => None,
        }
    }

    /// The string that a handle names, if it names one.
    pub fn as_str(&self, o: PettyObject) -> (r: Option<&PtyStr>)
        ensures
            match r {
                Some(s) => self@.text_of(o) == Some(s.0@),
                None => self@.text_of(o).is_none(),
            },
    {
        match self.get(o) {
            Some(PettyObjectType::Str(s)) => Some(s),
            _ => None,
        }
    }

    /// The items of the list that a handle names, if it names one.
    pub fn as_list(&self, o: PettyObject) -> (r: Option<&PtyList>)
        ensures
            match r {
                Some(l) => self@.list_of(o) == Some(l.0@),
                None => self@.list_of(o).is_none(),
            },
    {
        match self.get(o) {
            Some(PettyObjectType::List(l)) => Some(l),
            _ => None,
        }
    }

    /// Puts a new number into the arena.
    pub fn new_int(&mut self, v: Result<PtyInt, RuntimeError>) -> (r: Result<PettyObject, RuntimeError>)
        requires
            old(self).wf(),
        ensures
            final(self).wf(),
            steps_to(old(self)@, r, final(self)@, old(self)@.int_result(v)),
    {
        match v {
            Ok(i) => Ok(self.allocate(PettyObjectType::Int(i))),
            Err(e) => Err(e),
        }
    }

    /// Puts a new string into the arena.
    pub fn new_str(&mut self, s: PtyStr) -> (r: Result<PettyObject, RuntimeError>)
        requires
            old(self).wf(),
        ensures
            final(self).wf(),
            steps_to(old(self)@, r, final(self)@, old(self)@.str_result(s.0@)),
    {
        Ok(self.allocate(PettyObjectType::Str(s)))
    }

    /// Puts a position into the arena as an option of a number.
    pub fn new_index(&mut self, v: Option<usize>) -> (r: Result<PettyObject, RuntimeError>)
        requires
            old(self).wf(),
        ensures
            final(self).wf(),
            steps_to(old(self)@, r, final(self)@, old(self)@.index_result(v)),
    {
        match v {
            Some(i) => {
                let n = self.allocate(PettyObjectType::Int(PtyInt(i as i128)));
                Ok(self.allocate(PettyObjectType::Opt(PtyOption(Some(n)))))
            },
            None => Ok(PettyObject(NONE_SLOT)),
        }
    }

    /// Replaces a list, a cursor, a counter or a frame by another object of
    /// the same kind.
    pub fn store(&mut self, o: PettyObject, obj: PettyObjectType)
        requires
            old(self).wf(),
            o.0 < old(self)@.heap.len(),
            old(self)@.heap[o.0 as int].kind() == obj@.kind(),
            obj@ is List || obj@ is ListIter || obj@ is Range || obj@ is Frame,
        ensures
            final(self).wf(),
            final(self)@ == old(self)@.store(o, obj@),
            old(self)@.carried_to(final(self)@),
    {
        self.heap[o.0] = obj;
        proof {
            assert(self@.heap =~= old(self)@.heap.update(o.0 as int, obj@));
            lemma_store_wf(old(self)@, o, obj@);
        }
    }

    /// Puts a new list into the arena.
    pub fn new_list(&mut self, items: Vec<PettyObject>) -> (r: Result<PettyObject, RuntimeError>)
        requires
            old(self).wf(),
        ensures
            final(self).wf(),
            steps_to(old(self)@, r, final(self)@, old(self)@.new_object(ObjectModel::List(items@))),
    {
        Ok(self.allocate(PettyObjectType::List(PtyList(items))))
    }

    /// Puts a new object into the arena and returns its handle.
    pub fn allocate(&mut self, obj: PettyObjectType) -> (o: PettyObject)
        requires
            old(self).wf(),
            old(self)@.closed(obj@),
        ensures
            final(self).wf(),
            o == old(self)@.next_object(),
            final(self)@ == old(self)@.allocate(obj@),
            old(self)@.carried_to(final(self)@),
    {
        let o = PettyObject(self.heap.len());
        self.heap.push(obj);
        proof {
            assert(self@.heap =~= old(self)@.heap.push(obj@));
            assert(self.heap.len() <= usize::MAX);
            lemma_allocate_wf(old(self)@, obj@);
        }
        o
    }

    /// What a name is bound to: the local frames are searched from the
    /// innermost to the outermost, then the global frame. A name that is
    /// bound nowhere is an error.
    pub fn read(&self, key: &str) -> (r: Result<PettyObject, RuntimeError>)
        ensures
            r == match self@.read(key@) {
                Some(o) => Ok::<PettyObject, RuntimeError>(o),
                None => Err::<PettyObject, RuntimeError>(RuntimeError::UnresolvedName),
            },
    {
        let mut n: usize = self.scopes.len();
        while n > 0
            invariant
                n <= self.scopes@.len(),
                self@.read_scopes(key@, self.scopes@.len()) == self@.read_scopes(key@, n as nat),
            decreases n,
        {
            let frame = self.scopes[n - 1];
            if frame.0 < self.heap.len() {
                match &self.heap[frame.0] {
                    PettyObjectType::Frame(d) => {
                        match d.get(key) {
                            Some(o) => {
                                return Ok(o);
                            },
                            None => {},
                        }
                    },
                    _ => {},
                }
            }
            n -= 1;
        }
        match self.globals.get(key) {
            Some(o) => Ok(o),
            None => Err(RuntimeError::UnresolvedName),
        }
    }

    /// Binds a name: in the innermost local frame if there is one, else in
    /// the global frame.
    pub fn write(&mut self, key: String, value: PettyObject)
        requires
            old(self).wf(),
        ensures
            final(self).wf(),
            final(self)@ == old(self)@.write(key@, value),
            old(self)@.carried_to(final(self)@),
    {
        let n = self.scopes.len();
        if n > 0 {
            let top = self.scopes[n - 1];
            assert(old(self)@.is_frame(old(self)@.scopes[n - 1]));
            match &mut self.heap[top.0] {
                PettyObjectType::Frame(d) => {
                    d.insert(key, value);
                },
                _ => {},
            }
            proof {
                let m = old(self)@.heap[top.0 as int]->Frame_0;
                let frame = ObjectModel::Frame(m.insert(key@, value));
                assert(self@.heap =~= old(self)@.heap.update(top.0 as int, frame));
                lemma_store_wf(old(self)@, top, frame);
            }
        } else {
            self.globals.insert(key, value);
        }
    }

    /// Binds a name that the runtime provides.
    pub fn load_builtin(&mut self, name: &str, object: PettyObject)
        requires
            old(self).wf(),
        ensures
            final(self).wf(),
            final(self)@ == old(self)@.write(name@, object),
            old(self)@.carried_to(final(self)@),
    {
        self.write(name.to_owned(), object);
    }

    /// Pushes a fresh, empty local frame.
    pub fn new_scope(&mut self)
        requires
            old(self).wf(),
        ensures
            final(self).wf(),
            final(self)@ == old(self)@.new_scope(),
            old(self)@.carried_to(final(self)@),
    {
        let frame = self.allocate(PettyObjectType::Frame(Dict::new()));
        self.scopes.push(frame);
        proof {
            lemma_new_scope_wf(old(self)@);
        }
    }

    /// Pops the innermost local frame, if there is one.
    pub fn drop_scope(&mut self)
        requires
            old(self).wf(),
        ensures
            final(self).wf(),
            final(self)@ == old(self)@.drop_scope(),
            old(self)@.carried_to(final(self)@),
    {
        let _ = self.scopes.pop();
    }
}

/// The object that a machine starts with in a reserved slot.
pub open spec fn reserved_model(slot: int) -> ObjectModel {
    if slot == NULL_SLOT {
        ObjectModel::Null
    } else if slot == FALSE_SLOT {
        ObjectModel::Bool(false)
    } else if slot == TRUE_SLOT {
        ObjectModel::Bool(true)
    } else if slot == NONE_SLOT {
        ObjectModel::Opt(None)
    } else if slot == NULL_STR_SLOT {
        ObjectModel::Str("null"@)
    } else if slot < NATIVE_BASE {
        ObjectModel::Int((slot - INT_BASE) as i128)
    } else {
        ObjectModel::Native(native_at_spec((slot - NATIVE_BASE) as nat))
    }
}

/// The state of a new machine: the reserved objects, no frame, no binding,
/// no pending signal, nothing printed, and the default budget of rounds.
pub open spec fn initial_state() -> VmView {
    VmView {
        heap: Seq::new(RESERVED as nat, |slot: int| reserved_model(slot)),
        globals: Map::empty(),
        scopes: Seq::empty(),
        signal: Signal::Normal,
        output: Seq::empty(),
        loop_limit: DEFAULT_LOOP_LIMIT,
        depth_limit: DEFAULT_DEPTH_LIMIT,
    }
}

/// The state of a new machine with budgets of the caller's choice.
pub open spec fn state_with_limits(depth_limit: usize, loop_limit: usize) -> VmView {
    VmView { depth_limit, loop_limit, ..initial_state() }
}

/// The runtime function at a position among the runtime functions.
pub open spec fn native_at_spec(i: nat) -> NativeFn {
    choose|f: NativeFn| native_index(f) == i
}

/// Every position below the number of runtime functions is that of one.
pub proof fn lemma_native_at_spec(i: nat)
    requires
        i < NATIVE_COUNT,
    ensures
        native_index(native_at_spec(i)) == i,
{
    assert(exists|f: NativeFn| native_index(f) == i) by {
        lemma_native_index_onto(i);
    }
}

/// Every position below the number of runtime functions is that of one.
pub proof fn lemma_native_index_onto(i: nat)
    requires
        i < NATIVE_COUNT,
    ensures
        exists|f: NativeFn| native_index(f) == i,
{
    let fs = seq![
        NativeFn::IntAdd, NativeFn::IntSub, NativeFn::IntMul, NativeFn::IntDiv, NativeFn::IntMod,
        NativeFn::IntIsEq, NativeFn::IntLt, NativeFn::IntGt, NativeFn::IntLtEq, NativeFn::IntGtEq,
        NativeFn::IntBool, NativeFn::IntNeg, NativeFn::IntRepr, NativeFn::IntAbs, NativeFn::BoolBool,
        NativeFn::BoolNot, NativeFn::BoolAnd, NativeFn::BoolOr, NativeFn::BoolRepr, NativeFn::NullBool,
        NativeFn::NullRepr, NativeFn::StrRepr, NativeFn::StrAdd, NativeFn::StrMul, NativeFn::StrIsEq,
        NativeFn::StrUpper, NativeFn::StrLower, NativeFn::StrFind, NativeFn::StrTrim,
        NativeFn::StrTrimStart, NativeFn::StrTrimEnd, NativeFn::StrTrimStartMatches,
        NativeFn::StrTrimEndMatches, NativeFn::StrFormat, NativeFn::ListLen, NativeFn::ListPush,
        NativeFn::ListGet, NativeFn::ListSet, NativeFn::ListContains, NativeFn::ListFind,
        NativeFn::ListRepr, NativeFn::ListAdd, NativeFn::ListMul, NativeFn::ListBool,
        NativeFn::ListIter, NativeFn::ListIsEq, NativeFn::IterNext, NativeFn::IterIter,
        NativeFn::IterRepr, NativeFn::IterLen, NativeFn::OptUnwrap, NativeFn::OptIsSome,
        NativeFn::OptIsNone, NativeFn::OptRepr, NativeFn::OptSome, NativeFn::RangeNew,
        NativeFn::RangeIter, NativeFn::RangeNext, NativeFn::RangeRepr, NativeFn::RangeSum,
        NativeFn::InstanceRepr, NativeFn::ModuleRepr, NativeFn::Print, NativeFn::Repr,
        NativeFn::TestAssert, NativeFn::TestAssertEq, NativeFn::TestAssertNe, NativeFn::IntNotEq,
        NativeFn::StrNotEq
    ];
    assert(native_index(fs[i as int]) == i);
}

/// A new object that closes over frames only keeps the machine's invariant.
pub proof fn lemma_allocate_wf(st: VmView, m: ObjectModel)
    requires
        st.wf(),
        st.closed(m),
        st.heap.len() + 1 <= usize::MAX,
    ensures
        st.allocate(m).wf(),
{
    let st2 = st.allocate(m);
    assert forall|i: int| 0 <= i < INT_COUNT implies #[trigger] st2.heap[INT_BASE + i]
        == ObjectModel::Int(i as i128) by {
        assert(st.heap[INT_BASE + i] == ObjectModel::Int(i as i128));
    }
    assert forall|f: NativeFn| #[trigger]
        st2.heap[NATIVE_BASE + native_index(f)] == ObjectModel::Native(f) by {
        assert(st.heap[NATIVE_BASE + native_index(f)] == ObjectModel::Native(f));
    }
    lemma_frames_kept(st, st2);
}

/// Where one state has every frame of another, handles that named frames
/// still do, in the stack and in the function objects.
pub proof fn lemma_frames_kept(st: VmView, st2: VmView)
    requires
        st.wf(),
        st2.scopes == st.scopes,
        st2.heap.len() >= st.heap.len(),
        forall|o: PettyObject| #[trigger] st.is_frame(o) ==> st2.is_frame(o),
        forall|h: int|
            0 <= h < st.heap.len() && (#[trigger] st2.heap[h]) is Function ==> st2.heap[h]
                == st.heap[h],
        forall|h: int| st.heap.len() <= h < st2.heap.len() ==> st.closed(#[trigger] st2.heap[h]),
    ensures
        st2.all_frames(st2.scopes),
        forall|h: int| 0 <= h < st2.heap.len() ==> st2.closed(#[trigger] st2.heap[h]),
{
    assert forall|i: int| 0 <= i < st2.scopes.len() implies st2.is_frame(
        #[trigger] st2.scopes[i],
    ) by {
        assert(st.is_frame(st.scopes[i]));
    }
    assert forall|h: int| 0 <= h < st2.heap.len() implies st2.closed(#[trigger] st2.heap[h]) by {
        if st2.heap[h] is Function {
            let scopes = st2.heap[h]->Function_scopes;
            if h < st.heap.len() {
                assert(st.closed(st.heap[h]));
            } else {
                assert(st.closed(st2.heap[h]));
            }
            assert forall|j: int| 0 <= j < scopes.len() implies st2.is_frame(
                #[trigger] scopes[j],
            ) by {
                assert(st.is_frame(scopes[j]));
            }
        }
    }
}

/// Replacing an object by one of the same kind that is no function object
/// keeps the machine's invariant.
pub proof fn lemma_store_wf(st: VmView, o: PettyObject, m: ObjectModel)
    requires
        st.wf(),
        o.0 < st.heap.len(),
        st.heap[o.0 as int].kind() == m.kind(),
        m is List || m is ListIter || m is Range || m is Frame,
    ensures
        st.store(o, m).wf(),
{
    let st2 = st.store(o, m);
    assert forall|i: int| 0 <= i < INT_COUNT implies #[trigger] st2.heap[INT_BASE + i]
        == ObjectModel::Int(i as i128) by {
        assert(st.heap[INT_BASE + i] == ObjectModel::Int(i as i128));
    }
    assert forall|f: NativeFn| #[trigger]
        st2.heap[NATIVE_BASE + native_index(f)] == ObjectModel::Native(f) by {
        assert(st.heap[NATIVE_BASE + native_index(f)] == ObjectModel::Native(f));
    }
    lemma_frames_kept(st, st2);
}

/// Pushing a fresh frame keeps the machine's invariant.
pub proof fn lemma_new_scope_wf(st: VmView)
    requires
        st.wf(),
        st.heap.len() + 1 <= usize::MAX,
    ensures
        st.new_scope().wf(),
{
    let m = ObjectModel::Frame(Map::empty());
    lemma_allocate_wf(st, m);
    let st1 = st.allocate(m);
    let st2 = st.new_scope();
    assert forall|i: int| 0 <= i < st2.scopes.len() implies st2.is_frame(
        #[trigger] st2.scopes[i],
    ) by {
        if i < st.scopes.len() {
            assert(st1.is_frame(st1.scopes[i]));
        }
    }
    assert forall|h: int| 0 <= h < st2.heap.len() implies st2.closed(#[trigger] st2.heap[h]) by {
        assert(st1.closed(st1.heap[h]));
    }
}

} // verus!
