//! The object types that the runtime provides, and their methods.

pub mod list;
pub mod list_iter;
pub mod module;
pub mod native;
pub mod null;
pub mod number;
pub mod option;
pub mod pty_bool;
pub mod range;
pub mod string;
pub mod text;

use crate::dict::Dict;
use crate::machine::Vm;
use crate::object::{Module, NativeFn, ObjectModel, PettyObject, PettyObjectType};
use crate::state::{native_object, none_object, VmView, NONE_SLOT};
use vstd::prelude::*;

verus! {

/// How many arguments a runtime function takes, the receiver included.
/// `None` stands for any number.
pub open spec fn native_arity(f: NativeFn) -> Option<nat> {
    match f {
        NativeFn::IntAdd | NativeFn::IntSub | NativeFn::IntMul | NativeFn::IntDiv
        | NativeFn::IntMod | NativeFn::IntIsEq | NativeFn::IntLt | NativeFn::IntGt
        | NativeFn::IntLtEq | NativeFn::IntGtEq | NativeFn::IntNotEq => Some(2),
        NativeFn::IntBool | NativeFn::IntNeg | NativeFn::IntRepr | NativeFn::IntAbs => Some(1),
        NativeFn::BoolBool | NativeFn::BoolNot | NativeFn::BoolRepr => Some(1),
        NativeFn::BoolAnd | NativeFn::BoolOr => Some(2),
        NativeFn::NullBool | NativeFn::NullRepr => Some(1),
        NativeFn::StrRepr | NativeFn::StrUpper | NativeFn::StrLower | NativeFn::StrTrim
        | NativeFn::StrTrimStart | NativeFn::StrTrimEnd => Some(1),
        NativeFn::StrAdd | NativeFn::StrMul | NativeFn::StrIsEq | NativeFn::StrNotEq
        | NativeFn::StrFind
        | NativeFn::StrTrimStartMatches | NativeFn::StrTrimEndMatches => Some(2),
        NativeFn::StrFormat => None,
        NativeFn::ListLen | NativeFn::ListRepr | NativeFn::ListBool | NativeFn::ListIter => Some(1),
        NativeFn::ListPush | NativeFn::ListGet | NativeFn::ListContains | NativeFn::ListFind
        | NativeFn::ListAdd | NativeFn::ListMul | NativeFn::ListIsEq => Some(2),
        NativeFn::ListSet => Some(3),
        NativeFn::IterNext | NativeFn::IterIter | NativeFn::IterRepr | NativeFn::IterLen => Some(1),
        NativeFn::OptUnwrap | NativeFn::OptIsSome | NativeFn::OptIsNone | NativeFn::OptRepr
        | NativeFn::OptSome => Some(1),
        NativeFn::RangeNew | NativeFn::RangeIter | NativeFn::RangeNext | NativeFn::RangeRepr
        | NativeFn::RangeSum => Some(1),
        NativeFn::InstanceRepr | NativeFn::ModuleRepr | NativeFn::Repr => Some(1),
        NativeFn::Print => None,
        NativeFn::TestAssert => Some(1),
        NativeFn::TestAssertEq | NativeFn::TestAssertNe => Some(2),
    }
}

impl NativeFn {
    /// How many arguments the function takes, the receiver included, if the
    /// number is fixed.
    pub fn arity(self) -> (r: Option<usize>)
        ensures
            match r {
                Some(n) => native_arity(self) == Some(n as nat),
                None => native_arity(self).is_none(),
            },
    {
        match self {
            NativeFn::IntAdd | NativeFn::IntSub | NativeFn::IntMul | NativeFn::IntDiv
            | NativeFn::IntMod | NativeFn::IntIsEq | NativeFn::IntLt | NativeFn::IntGt
            | NativeFn::IntLtEq | NativeFn::IntGtEq | NativeFn::IntNotEq => Some(2),
            NativeFn::IntBool | NativeFn::IntNeg | NativeFn::IntRepr | NativeFn::IntAbs => Some(1),
            NativeFn::BoolBool | NativeFn::BoolNot | NativeFn::BoolRepr => Some(1),
            NativeFn::BoolAnd | NativeFn::BoolOr => Some(2),
            NativeFn::NullBool | NativeFn::NullRepr => Some(1),
            NativeFn::StrRepr | NativeFn::StrUpper | NativeFn::StrLower | NativeFn::StrTrim
            | NativeFn::StrTrimStart | NativeFn::StrTrimEnd => Some(1),
            NativeFn::StrAdd | NativeFn::StrMul | NativeFn::StrIsEq | NativeFn::StrNotEq
        | NativeFn::StrFind
            | NativeFn::StrTrimStartMatches | NativeFn::StrTrimEndMatches => Some(2),
            NativeFn::StrFormat => None,
            NativeFn::ListLen | NativeFn::ListRepr | NativeFn::ListBool | NativeFn::ListIter => Some(
                1,
            ),
            NativeFn::ListPush | NativeFn::ListGet | NativeFn::ListContains | NativeFn::ListFind
            | NativeFn::ListAdd | NativeFn::ListMul | NativeFn::ListIsEq => Some(2),
            NativeFn::ListSet => Some(3),
            NativeFn::IterNext | NativeFn::IterIter | NativeFn::IterRepr | NativeFn::IterLen => Some(
                1,
            ),
            NativeFn::OptUnwrap | NativeFn::OptIsSome | NativeFn::OptIsNone | NativeFn::OptRepr
            | NativeFn::OptSome => Some(1),
            NativeFn::RangeNew | NativeFn::RangeIter | NativeFn::RangeNext | NativeFn::RangeRepr
            | NativeFn::RangeSum => Some(1),
            NativeFn::InstanceRepr | NativeFn::ModuleRepr | NativeFn::Repr => Some(1),
            NativeFn::Print => None,
            NativeFn::TestAssert => Some(1),
            NativeFn::TestAssertEq | NativeFn::TestAssertNe => Some(2),
        }
    }
}

/// The table of the module of assertions.
pub open spec fn test_table() -> Map<Seq<char>, PettyObject> {
    Map::<Seq<char>, PettyObject>::empty().insert(
        "__repr__"@,
        native_object(NativeFn::ModuleRepr),
    ).insert("assert"@, native_object(NativeFn::TestAssert)).insert(
        "assert_eq"@,
        native_object(NativeFn::TestAssertEq),
    ).insert("assert_ne"@, native_object(NativeFn::TestAssertNe))
}

/// The table of the standard module: the module of assertions and the
/// module of time, by the handles they have.
pub open spec fn std_table(test: PettyObject, time: PettyObject) -> Map<Seq<char>, PettyObject> {
    Map::<Seq<char>, PettyObject>::empty().insert("test"@, test).insert("time"@, time)
}

/// The state after the module of assertions, the module of time, which is
/// empty and has no name, and the standard module that holds both were put
/// into the arena, in this order.
pub open spec fn with_std(st: VmView) -> VmView {
    st.allocate(ObjectModel::Module { name: "test"@, dict: test_table() }).allocate(
        ObjectModel::Module { name: Seq::empty(), dict: Map::empty() },
    ).allocate(
        ObjectModel::Module {
            name: "std"@,
            dict: std_table(st.next_object(), PettyObject((st.heap.len() + 1) as usize)),
        },
    )
}

/// The state after the names that the runtime provides were bound: `print`,
/// `repr`, `range`, `Some`, `None` and `std`.
pub open spec fn builtins_loaded(st: VmView) -> VmView {
    with_std(st).write("print"@, native_object(NativeFn::Print)).write(
        "repr"@,
        native_object(NativeFn::Repr),
    ).write("range"@, native_object(NativeFn::RangeNew)).write(
        "Some"@,
        native_object(NativeFn::OptSome),
    ).write("None"@, none_object()).write("std"@, std_object(st))
}

/// The handle that the standard module gets in a state: the third handle
/// that is free.
pub open spec fn std_object(st: VmView) -> PettyObject {
    PettyObject((st.heap.len() + 2) as usize)
}

/// Puts the standard module into the arena and gives its handle.
pub fn init(vm: &mut Vm) -> (std: PettyObject)
    requires
        old(vm).wf(),
    ensures
        final(vm).wf(),
        final(vm)@ == with_std(old(vm)@),
        std == std_object(old(vm)@),
        old(vm)@.carried_to(final(vm)@),
{
    let mut table = Dict::new();
    table.insert("__repr__".to_owned(), NativeFn::ModuleRepr.object());
    table.insert("assert".to_owned(), NativeFn::TestAssert.object());
    table.insert("assert_eq".to_owned(), NativeFn::TestAssertEq.object());
    table.insert("assert_ne".to_owned(), NativeFn::TestAssertNe.object());
    let test = vm.allocate(
        PettyObjectType::Module(Module { name: "test".to_owned(), dict: table }),
    );
    let time = vm.allocate(
        PettyObjectType::Module(Module { name: String::new(), dict: Dict::new() }),
    );
    let mut dict = Dict::new();
    dict.insert("test".to_owned(), test);
    dict.insert("time".to_owned(), time);
    vm.allocate(PettyObjectType::Module(Module { name: "std".to_owned(), dict }))
}

/// Binds the names that the runtime provides.
pub fn load_builtins(vm: &mut Vm)
    requires
        old(vm).wf(),
    ensures
        final(vm).wf(),
        final(vm)@ == builtins_loaded(old(vm)@),
        old(vm)@.carried_to(final(vm)@),
{
    let std = init(vm);
    vm.load_builtin("print", NativeFn::Print.object());
    vm.load_builtin("repr", NativeFn::Repr.object());
    vm.load_builtin("range", NativeFn::RangeNew.object());
    vm.load_builtin("Some", NativeFn::OptSome.object());
    vm.load_builtin("None", PettyObject(NONE_SLOT));
    vm.load_builtin("std", std);
}

} // verus!
