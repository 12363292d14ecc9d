//! Handles, the concrete object types, and their mathematical models.

use crate::ast::Node;
use crate::dict::Dict;
use std::sync::Arc;
use vstd::prelude::*;

verus! {

/// A handle to a runtime object: its index in the machine's arena.
///
/// Handles are the unit of data flow. Copying a handle shares the object;
/// two handles are equal exactly when they name the same object.
#[derive(Clone, Copy, PartialEq, Eq, Structural, Debug)]
pub struct PettyObject(pub usize);

/// The functions that the runtime itself provides.
#[derive(Clone, Copy, PartialEq, Eq, Structural, Debug)]
pub enum NativeFn {
    IntAdd,
    IntSub,
    IntMul,
    IntDiv,
    IntMod,
    IntIsEq,
    IntLt,
    IntGt,
    IntLtEq,
    IntGtEq,
    IntBool,
    IntNeg,
    IntRepr,
    IntAbs,
    BoolBool,
    BoolNot,
    BoolAnd,
    BoolOr,
    BoolRepr,
    NullBool,
    NullRepr,
    StrRepr,
    StrAdd,
    StrMul,
    StrIsEq,
    StrUpper,
    StrLower,
    StrFind,
    StrTrim,
    StrTrimStart,
    StrTrimEnd,
    StrTrimStartMatches,
    StrTrimEndMatches,
    StrFormat,
    ListLen,
    ListPush,
    ListGet,
    ListSet,
    ListContains,
    ListFind,
    ListRepr,
    ListAdd,
    ListMul,
    ListBool,
    ListIter,
    ListIsEq,
    IterNext,
    IterIter,
    IterRepr,
    IterLen,
    OptUnwrap,
    OptIsSome,
    OptIsNone,
    OptRepr,
    OptSome,
    RangeNew,
    RangeIter,
    RangeNext,
    RangeRepr,
    RangeSum,
    InstanceRepr,
    ModuleRepr,
    Print,
    Repr,
    TestAssert,
    TestAssertEq,
    TestAssertNe,
    IntNotEq,
    StrNotEq,
}

/// The null object.
#[derive(Clone, Copy, Debug)]
pub struct PtyNull;

/// A truth value.
#[derive(Clone, Copy, Debug)]
pub struct PtyBool(pub bool);

/// A whole number.
#[derive(Clone, Copy, Debug)]
pub struct PtyInt(pub i128);

/// A string.
#[derive(Clone, Debug)]
pub struct PtyStr(pub String);

/// A list of objects, shared by every handle to it.
#[derive(Clone, Debug)]
pub struct PtyList(pub Vec<PettyObject>);

/// A cursor over a list: the list, and how many items were asked for.
#[derive(Clone, Copy, Debug)]
pub struct PtyListIter(pub PettyObject, pub usize);

/// An object that is present or absent.
#[derive(Clone, Copy, Debug)]
pub struct PtyOption(pub Option<PettyObject>);

/// A counter that runs from its current value up to, and not including, a
/// bound.
#[derive(Clone, Copy, Debug)]
pub struct PtyRange {
    pub end: i128,
    pub step: i128,
    pub current: i128,
}

/// A function of the running program: its parameter names, its body, and the
/// frames that were in scope where it was defined. The frames are held by
/// handle, so the function sees later changes to them.
#[derive(Clone, Debug)]
pub struct PettyFunction {
    pub args: Arc<Vec<String>>,
    pub block: Arc<Vec<Node>>,
    pub scopes: Vec<PettyObject>,
}

/// A class of the running program: its field names and its method definitions.
#[derive(Clone, Debug)]
pub struct PettyClass {
    pub fields: Arc<Vec<String>>,
    pub methods: Arc<Vec<Node>>,
}

/// An instance of a class: its fields and its own method closures, by name.
pub struct PettyClassInstance {
    pub fields: Dict,
}

/// A function that the runtime provides.
#[derive(Clone, Copy, Debug)]
pub struct RawFunction(pub NativeFn);

/// A named table of objects.
pub struct Module {
    pub name: String,
    pub dict: Dict,
}

/// The concrete types that an object can have.
pub enum PettyObjectType {
    Null(PtyNull),
    Bool(PtyBool),
    Int(PtyInt),
    Str(PtyStr),
    List(PtyList),
    ListIter(PtyListIter),
    Opt(PtyOption),
    Range(PtyRange),
    Function(PettyFunction),
    Class(PettyClass),
    Instance(PettyClassInstance),
    Native(RawFunction),
    Module(Module),
    Frame(Dict),
}

/// What an object is, as a mathematical value.
pub enum ObjectModel {
    Null,
    Bool(bool),
    Int(i128),
    Str(Seq<char>),
    List(Seq<PettyObject>),
    ListIter(PettyObject, usize),
    Opt(Option<PettyObject>),
    Range { end: i128, step: i128, current: i128 },
    Function { params: Seq<String>, body: Seq<Node>, scopes: Seq<PettyObject> },
    Class { fields: Seq<String>, methods: Seq<Node> },
    Instance(Map<Seq<char>, PettyObject>),
    Native(NativeFn),
    Module { name: Seq<char>, dict: Map<Seq<char>, PettyObject> },
    Frame(Map<Seq<char>, PettyObject>),
}

/// The dynamic type of an object, without its contents.
#[derive(Clone, Copy, PartialEq, Eq, Structural, Debug)]
pub enum Kind {
    Null,
    Bool,
    Int,
    Str,
    List,
    ListIter,
    Opt,
    Range,
    Function,
    Class,
    Instance,
    Native,
    Module,
    Frame,
}

impl View for PettyObjectType {
    type V = ObjectModel;

    open spec fn view(&self) -> ObjectModel {
        match self {
            PettyObjectType::Null(_) => ObjectModel::Null,
            PettyObjectType::Bool(b) => ObjectModel::Bool(b.0),
            PettyObjectType::Int(i) => ObjectModel::Int(i.0),
            PettyObjectType::Str(s) => ObjectModel::Str(s.0@),
            PettyObjectType::List(l) => ObjectModel::List(l.0@),
            PettyObjectType::ListIter(it) => ObjectModel::ListIter(it.0, it.1),
            PettyObjectType::Opt(o) => ObjectModel::Opt(o.0),
            PettyObjectType::Range(r) => ObjectModel::Range {
                end: r.end,
                step: r.step,
                current: r.current,
            },
            PettyObjectType::Function(f) => ObjectModel::Function {
                params: f.args@,
                body: f.block@,
                scopes: f.scopes@,
            },
            PettyObjectType::Class(c) => ObjectModel::Class { fields: c.fields@, methods: c.methods@ },
            PettyObjectType::Instance(i) => ObjectModel::Instance(i.fields@),
            PettyObjectType::Native(f) => ObjectModel::Native(f.0),
            PettyObjectType::Module(m) => ObjectModel::Module { name: m.name@, dict: m.dict@ },
            PettyObjectType::Frame(d) => ObjectModel::Frame(d@),
        }
    }
}

impl ObjectModel {
    /// The dynamic type of the object.
    pub open spec fn kind(self) -> Kind {
        match self {
            ObjectModel::Null => Kind::Null,
            ObjectModel::Bool(_) => Kind::Bool,
            ObjectModel::Int(_) => Kind::Int,
            ObjectModel::Str(_) => Kind::Str,
            ObjectModel::List(_) => Kind::List,
            ObjectModel::ListIter(_, _) => Kind::ListIter,
            ObjectModel::Opt(_) => Kind::Opt,
            ObjectModel::Range { .. } => Kind::Range,
            ObjectModel::Function { .. } => Kind::Function,
            ObjectModel::Class { .. } => Kind::Class,
            ObjectModel::Instance(_) => Kind::Instance,
            ObjectModel::Native(_) => Kind::Native,
            ObjectModel::Module { .. } => Kind::Module,
            ObjectModel::Frame(_) => Kind::Frame,
        }
    }
}

impl PettyObjectType {
    /// The dynamic type of the object.
    pub fn kind(&self) -> (k: Kind)
        ensures
            k == self@.kind(),
    {
        match self {
            PettyObjectType::Null(_) => Kind::Null,
            PettyObjectType::Bool(_) => Kind::Bool,
            PettyObjectType::Int(_) => Kind::Int,
            PettyObjectType::Str(_) => Kind::Str,
            PettyObjectType::List(_) => Kind::List,
            PettyObjectType::ListIter(_) => Kind::ListIter,
            PettyObjectType::Opt(_) => Kind::Opt,
            PettyObjectType::Range(_) => Kind::Range,
            PettyObjectType::Function(_) => Kind::Function,
            PettyObjectType::Class(_) => Kind::Class,
            PettyObjectType::Instance(_) => Kind::Instance,
            PettyObjectType::Native(_) => Kind::Native,
            PettyObjectType::Module(_) => Kind::Module,
            PettyObjectType::Frame(_) => Kind::Frame,
        }
    }
}

impl PettyClass {
    /// A class with the given field names and method definitions.
    pub fn new(fields: Arc<Vec<String>>, methods: Arc<Vec<Node>>) -> (c: Self)
        ensures
            c.fields == fields,
            c.methods == methods,
    {
        Self { fields, methods }
    }
}

impl PettyClassInstance {
    /// An instance with the given fields.
    pub fn new(fields: Dict) -> (i: Self)
        ensures
            i.fields == fields,
    {
        Self { fields }
    }
}

impl PettyFunction {
    /// A function with the given parameters and body, closed over the frames
    /// `scopes`.
    pub fn new(args: Arc<Vec<String>>, block: Arc<Vec<Node>>, scopes: Vec<PettyObject>) -> (f: Self)
        ensures
            f.args == args,
            f.block == block,
            f.scopes == scopes,
    {
        Self { args, block, scopes }
    }
}

} // verus!
