use pettyscript::dict::{insert_ref, Dict};
use pettyscript::error::{PettyParseError, RuntimeError};
use pettyscript::field_dict::FieldDict;
use pettyscript::machine::Vm;
use pettyscript::object::{PettyObject, PettyObjectType, PtyInt};
use pettyscript::parser::lexer::FaultKind;
use pettyscript::parser::parse;
use pettyscript::preallocated::PreAllocated;
use pettyscript::slim_rc::Rc;

#[test]
fn dict_binds_and_rebinds() {
    let mut dict = Dict::new();
    assert_eq!(dict.get("a"), None);
    dict.insert("a".to_string(), PettyObject(1));
    dict.insert("b".to_string(), PettyObject(2));
    assert_eq!(dict.get("a"), Some(PettyObject(1)));
    insert_ref(&mut dict, &"a".to_string(), PettyObject(3));
    insert_ref(&mut dict, &"c".to_string(), PettyObject(4));
    assert_eq!(dict.get("a"), Some(PettyObject(3)));
    assert_eq!(dict.get("b"), Some(PettyObject(2)));
    assert_eq!(dict.get("c"), Some(PettyObject(4)));
    assert_eq!(dict.get("d"), None);
}

#[test]
fn plain_frames_shadow_and_restore() {
    let mut env = FieldDict::new();
    env.write("x".to_string(), PettyObject(1));
    env.new_scope();
    assert_eq!(env.read("x"), Ok(PettyObject(1)));
    env.write("x".to_string(), PettyObject(2));
    env.write("y".to_string(), PettyObject(3));
    env.new_scope();
    assert_eq!(env.read("x"), Ok(PettyObject(2)));
    env.drop_scope();
    assert_eq!(env.read("y"), Ok(PettyObject(3)));
    env.drop_scope();
    assert_eq!(env.read("x"), Ok(PettyObject(1)));
    assert_eq!(env.read("y"), Err(RuntimeError::UnresolvedName));
    env.drop_scope();
    assert_eq!(env.read("x"), Ok(PettyObject(1)));
}

#[test]
fn canonical_numbers_have_fixed_handles() {
    let table = PreAllocated::new();
    let vm = Vm::new();
    for number in [0usize, 1, 128, 255] {
        let handle = table.get(number).unwrap();
        match vm.get(handle) {
            Some(PettyObjectType::Int(i)) => assert_eq!(i.0, number as i128),
            _ => panic!("not a number"),
        }
    }
    assert_eq!(table.get(256), None);
}

#[test]
fn new_objects_get_the_next_handle() {
    let mut vm = Vm::new();
    let size = vm.heap.len();
    let a = PettyObject::new(&mut vm, PettyObjectType::Int(PtyInt(1000)));
    let b = PettyObject::new(&mut vm, PettyObjectType::Int(PtyInt(1000)));
    assert_eq!(a, PettyObject(size));
    assert_eq!(b, PettyObject(size + 1));
    assert_eq!(a.repr(&mut vm, 3), Ok(Some("1000".to_string())));
    assert_eq!(a.force_repr(&mut vm, 0), Err(RuntimeError::RecursionLimit));
}

#[test]
fn shared_pointer_holds_its_value() {
    let rc = Rc::new(41);
    assert_eq!(*rc.get() + 1, 42);
}

#[test]
fn errors_have_names() {
    assert_eq!(RuntimeError::ArityMismatch.name(), "ArityMismatch");
    assert_eq!(RuntimeError::UnresolvedName.name(), "UnresolvedName");
    assert_eq!(RuntimeError::CapabilityMismatch.name(), "CapabilityMismatch");
    assert_eq!(RuntimeError::NumericDomain.name(), "NumericDomain");
    assert_eq!(RuntimeError::RecursionLimit.name(), "RecursionLimit");
    assert_eq!(RuntimeError::LoopLimit.name(), "LoopLimit");
    assert_eq!(RuntimeError::AssertionFailed.name(), "AssertionFailed");
    assert_eq!(PettyParseError::Node.name(), "Node");
    assert_eq!(PettyParseError::TermExpr.name(), "TermExpr");
    assert_eq!(
        PettyParseError::ExpectedIdentAfterDot.name(),
        "ExpectedIdentAfterDot"
    );
}

#[test]
fn open_block_is_a_fatal_fault_of_the_node() {
    let fault = parse("fn f() { x = 1;").unwrap_err();
    assert!(fault.fatal);
    assert_eq!(fault.kind, FaultKind::Petty(PettyParseError::Node));
    assert_eq!(fault.at.pos, 0);
}
