use pettyscript::ast::{BinOp, Literal, Node, UnaryOp};
use pettyscript::error::RuntimeError;
use pettyscript::machine::Vm;
use pettyscript::object::{PettyObject, PettyObjectType};
use pettyscript::run_virtual_machine;
use pettyscript::state::Signal;
use std::sync::Arc;

fn int_of(vm: &Vm, o: PettyObject) -> i128 {
    match vm.get(o) {
        Some(PettyObjectType::Int(i)) => i.0,
        _ => panic!("not a number"),
    }
}

fn bool_of(vm: &Vm, o: PettyObject) -> bool {
    match vm.get(o) {
        Some(PettyObjectType::Bool(b)) => b.0,
        _ => panic!("not a truth value"),
    }
}

fn text_of(vm: &Vm, o: PettyObject) -> String {
    match vm.get(o) {
        Some(PettyObjectType::Str(s)) => s.0.clone(),
        _ => panic!("not a string"),
    }
}

fn ret(node: Node) -> Node {
    Node::ReturnState(Arc::new(node))
}

fn member(left: Node, right: Node) -> Node {
    Node::bin_expr(BinOp::GetItem, left, right)
}

fn run_ok(nodes: Vec<Node>) -> (Vm, Vec<PettyObject>) {
    let (vm, result) = run_virtual_machine(&Node::block(nodes));
    match result {
        Ok(values) => (vm, values),
        Err(e) => panic!("evaluation failed: {}", e.name()),
    }
}

fn run_err(nodes: Vec<Node>) -> RuntimeError {
    let (_, result) = run_virtual_machine(&Node::block(nodes));
    match result {
        Ok(_) => panic!("evaluation did not fail"),
        Err(e) => e,
    }
}

#[test]
fn sum_of_two_globals_is_seven() {
    let (vm, _) = run_ok(vec![
        Node::set_eq("a", Node::literal(3)),
        Node::set_eq("b", Node::literal(4)),
        Node::set_eq("c", Node::bin_expr(BinOp::Add, Node::ident("a"), Node::ident("b"))),
    ]);
    let c = vm.read("c").unwrap();
    assert_eq!(int_of(&vm, c), 7);
    assert!(vm.scopes.is_empty());
}

#[test]
fn class_instances_have_their_own_methods() {
    let sum = Node::func_def(
        "sum",
        vec!["self"],
        vec![ret(Node::bin_expr(
            BinOp::Add,
            member(Node::ident("self"), Node::ident("x")),
            member(Node::ident("self"), Node::ident("y")),
        ))],
    );
    let (vm, values) = run_ok(vec![
        Node::class_def("Point", vec!["x", "y"], vec![sum]),
        Node::set_eq(
            "p",
            Node::func_call("Point", vec![Node::literal(3), Node::literal(4)]),
        ),
        member(Node::ident("p"), Node::func_call("sum", vec![])),
        member(
            Node::func_call("Point", vec![Node::literal(1), Node::literal(1)]),
            Node::func_call("sum", vec![]),
        ),
        Node::set_eq(
            "q",
            Node::func_call("Point", vec![Node::literal(3), Node::literal(4)]),
        ),
        member(Node::ident("p"), Node::ident("sum")),
        member(Node::ident("q"), Node::ident("sum")),
    ]);
    assert_eq!(int_of(&vm, values[2]), 7);
    assert_eq!(int_of(&vm, values[3]), 2);
    assert_ne!(values[5], values[6]);
}

#[test]
fn closure_sees_later_assignment() {
    let (vm, values) = run_ok(vec![
        Node::set_eq("a", Node::literal(1)),
        Node::func_def("f", vec![], vec![ret(Node::ident("a"))]),
        Node::set_eq("a", Node::literal(2)),
        Node::func_call("f", vec![]),
    ]);
    assert_eq!(int_of(&vm, values[3]), 2);
}

#[test]
fn closure_shares_the_frame_it_was_defined_in() {
    let make = Node::func_def(
        "make",
        vec![],
        vec![
            Node::set_eq("x", Node::literal(1)),
            Node::func_def("get", vec![], vec![ret(Node::ident("x"))]),
            Node::set_eq("x", Node::literal(2)),
            ret(Node::ident("get")),
        ],
    );
    let (vm, values) = run_ok(vec![
        make,
        Node::set_eq("g", Node::func_call("make", vec![])),
        Node::func_call("g", vec![]),
    ]);
    assert_eq!(int_of(&vm, values[2]), 2);
}

#[test]
fn return_unwinds_nested_blocks() {
    let f = Node::func_def(
        "f",
        vec![],
        vec![
            Node::if_state(Node::literal(true), vec![ret(Node::literal(1))], None),
            ret(Node::literal(2)),
        ],
    );
    let (vm, values) = run_ok(vec![f, Node::func_call("f", vec![])]);
    assert_eq!(int_of(&vm, values[1]), 1);
    assert_eq!(vm.signal, Signal::Normal);
}

#[test]
fn function_without_return_gives_null() {
    let f = Node::func_def("f", vec![], vec![Node::set_eq("x", Node::literal(1))]);
    let (vm, values) = run_ok(vec![f, Node::func_call("f", vec![])]);
    assert!(matches!(vm.get(values[1]), Some(PettyObjectType::Null(_))));
}

#[test]
fn too_few_arguments_is_an_arity_mismatch() {
    let f = Node::func_def("f", vec!["a", "b"], vec![ret(Node::ident("a"))]);
    let e = run_err(vec![f, Node::func_call("f", vec![Node::literal(1)])]);
    assert_eq!(e, RuntimeError::ArityMismatch);
}

#[test]
fn too_many_arguments_is_an_arity_mismatch() {
    let f = Node::func_def("f", vec!["a"], vec![ret(Node::ident("a"))]);
    let e = run_err(vec![
        f,
        Node::func_call("f", vec![Node::literal(1), Node::literal(2)]),
    ]);
    assert_eq!(e, RuntimeError::ArityMismatch);
}

#[test]
fn class_with_wrong_field_count_is_an_arity_mismatch() {
    let e = run_err(vec![
        Node::class_def("Point", vec!["x", "y"], vec![]),
        Node::func_call("Point", vec![Node::literal(1)]),
    ]);
    assert_eq!(e, RuntimeError::ArityMismatch);
}

#[test]
fn runtime_function_with_wrong_count_is_an_arity_mismatch() {
    let e = run_err(vec![Node::func_call(
        "range",
        vec![Node::literal(1), Node::literal(2)],
    )]);
    assert_eq!(e, RuntimeError::ArityMismatch);
}

#[test]
fn unknown_name_is_unresolved() {
    assert_eq!(
        run_err(vec![Node::ident("nowhere")]),
        RuntimeError::UnresolvedName
    );
}

#[test]
fn unknown_attribute_is_unresolved() {
    let e = run_err(vec![member(Node::literal(1), Node::ident("nothing"))]);
    assert_eq!(e, RuntimeError::UnresolvedName);
}

#[test]
fn calling_a_number_is_a_capability_mismatch() {
    let e = run_err(vec![
        Node::set_eq("n", Node::literal(1)),
        Node::func_call("n", vec![]),
    ]);
    assert_eq!(e, RuntimeError::CapabilityMismatch);
}

#[test]
fn adding_a_string_to_a_number_is_a_capability_mismatch() {
    let e = run_err(vec![Node::literal_expr(BinOp::Add, 1, "one")]);
    assert_eq!(e, RuntimeError::CapabilityMismatch);
}

#[test]
fn division_by_zero_is_a_numeric_domain_error() {
    let e = run_err(vec![Node::literal_expr(BinOp::Div, 1, 0)]);
    assert_eq!(e, RuntimeError::NumericDomain);
}

#[test]
fn overflow_is_a_numeric_domain_error() {
    let e = run_err(vec![Node::literal_expr(BinOp::Add, i128::MAX, 1)]);
    assert_eq!(e, RuntimeError::NumericDomain);
}

#[test]
fn literal_with_a_fraction_is_a_numeric_domain_error() {
    let e = run_err(vec![Node::Literal(Literal::Float("1.5".to_string()))]);
    assert_eq!(e, RuntimeError::NumericDomain);
}

#[test]
fn endless_recursion_hits_the_recursion_limit() {
    let f = Node::func_def("f", vec![], vec![ret(Node::func_call("f", vec![]))]);
    let e = run_err(vec![f, Node::func_call("f", vec![])]);
    assert_eq!(e, RuntimeError::RecursionLimit);
}

#[test]
fn endless_loop_hits_the_loop_limit() {
    let mut vm = Vm::new();
    vm.loop_limit = 10;
    let program = Node::block(vec![Node::while_loop(Node::literal(true), vec![])]);
    assert_eq!(vm.run(&program), Err(RuntimeError::LoopLimit));
}

#[test]
fn arithmetic_gives_exact_values() {
    let (vm, values) = run_ok(vec![
        Node::literal_expr(BinOp::Sub, 10, 3),
        Node::literal_expr(BinOp::Mul, 6, 7),
        Node::literal_expr(BinOp::Div, 7, 2),
        Node::literal_expr(BinOp::Mod, 7, 3),
        Node::bin_expr(
            BinOp::Div,
            Node::unary_expr(UnaryOp::Neg, Node::literal(7)),
            Node::literal(2),
        ),
        Node::bin_expr(
            BinOp::Mod,
            Node::unary_expr(UnaryOp::Neg, Node::literal(7)),
            Node::literal(3),
        ),
        member(
            Node::unary_expr(UnaryOp::Neg, Node::literal(5)),
            Node::func_call("abs", vec![]),
        ),
    ]);
    assert_eq!(int_of(&vm, values[0]), 7);
    assert_eq!(int_of(&vm, values[1]), 42);
    assert_eq!(int_of(&vm, values[2]), 3);
    assert_eq!(int_of(&vm, values[3]), 1);
    assert_eq!(int_of(&vm, values[4]), -3);
    assert_eq!(int_of(&vm, values[5]), -1);
    assert_eq!(int_of(&vm, values[6]), 5);
}

#[test]
fn comparisons_give_truth_values() {
    let (vm, values) = run_ok(vec![
        Node::literal_expr(BinOp::LT, 1, 2),
        Node::literal_expr(BinOp::GT, 1, 2),
        Node::literal_expr(BinOp::LTEq, 2, 2),
        Node::literal_expr(BinOp::GTEq, 1, 2),
        Node::literal_expr(BinOp::IsEq, 2, 2),
        Node::literal_expr(BinOp::NotEq, 2, 2),
        Node::literal_expr(BinOp::And, true, false),
        Node::literal_expr(BinOp::Or, true, false),
        Node::unary_expr(UnaryOp::Not, Node::literal(true)),
    ]);
    let expected = [true, false, true, false, true, false, false, true, false];
    for (value, want) in values.iter().zip(expected) {
        assert_eq!(bool_of(&vm, *value), want);
    }
}

#[test]
fn equality_of_a_number_and_a_string_is_false() {
    let (vm, values) = run_ok(vec![Node::literal_expr(BinOp::IsEq, 1, "1")]);
    assert!(!bool_of(&vm, values[0]));
}

#[test]
fn inequality_is_the_method_of_the_left_operand() {
    let (vm, values) = run_ok(vec![
        Node::literal_expr(BinOp::NotEq, 1, 2),
        Node::literal_expr(BinOp::NotEq, "a", "a"),
        Node::literal_expr(BinOp::NotEq, "a", "b"),
    ]);
    assert!(bool_of(&vm, values[0]));
    assert!(!bool_of(&vm, values[1]));
    assert!(bool_of(&vm, values[2]));
    let e = run_err(vec![Node::literal_expr(BinOp::NotEq, 1, "1")]);
    assert_eq!(e, RuntimeError::CapabilityMismatch);
    let unequal = Node::func_def("__not_eq__", vec!["self", "other"], vec![ret(Node::literal(7))]);
    let (vm, values) = run_ok(vec![
        Node::class_def("Odd", vec![], vec![unequal]),
        Node::bin_expr(
            BinOp::NotEq,
            Node::func_call("Odd", vec![]),
            Node::literal(1),
        ),
    ]);
    assert_eq!(int_of(&vm, values[1]), 7);
}

#[test]
fn equality_gives_what_the_method_of_the_left_operand_gives() {
    let equal = Node::func_def("__is_eq__", vec!["self", "other"], vec![ret(Node::literal(1))]);
    let (vm, values) = run_ok(vec![
        Node::class_def("Same", vec![], vec![equal]),
        Node::set_eq("x", Node::func_call("Same", vec![])),
        Node::bin_expr(BinOp::IsEq, Node::ident("x"), Node::ident("x")),
        Node::bin_expr(BinOp::IsEq, Node::ident("x"), Node::literal(1)),
    ]);
    assert_eq!(int_of(&vm, values[2]), 1);
    assert!(!bool_of(&vm, values[3]));
    let e = run_err(vec![
        Node::class_def("Same", vec![], vec![Node::func_def(
            "__is_eq__",
            vec!["self", "other"],
            vec![ret(Node::literal(1))],
        )]),
        Node::set_eq("x", Node::func_call("Same", vec![])),
        Node::set_eq("l", Node::literal(vec![Node::ident("x")])),
        member(Node::ident("l"), Node::func_call("contains", vec![Node::ident("x")])),
    ]);
    assert_eq!(e, RuntimeError::CapabilityMismatch);
}

#[test]
fn equality_of_mismatched_types_calls_nothing() {
    let mut vm = Vm::new();
    let program = Node::block(vec![
        Node::set_eq("a", Node::literal(1000)),
        Node::set_eq("b", Node::literal("text")),
    ]);
    vm.run(&program).unwrap();
    let a = vm.read("a").unwrap();
    let b = vm.read("b").unwrap();
    let size = vm.heap.len();
    assert_eq!(vm.values_equal(a, b, 0), Ok(false));
    assert_eq!(vm.heap.len(), size);
    assert_eq!(vm.values_equal(a, a, 0), Err(RuntimeError::RecursionLimit));
}

#[test]
fn small_numbers_are_canonical() {
    let (_, values) = run_ok(vec![
        Node::literal(7),
        Node::literal(7),
        Node::literal(255),
        Node::literal(255),
        Node::literal(256),
        Node::literal(256),
    ]);
    assert_eq!(values[0], values[1]);
    assert_eq!(values[2], values[3]);
    assert_ne!(values[4], values[5]);
}

#[test]
fn parameter_shadows_a_global_until_the_call_returns() {
    let f = Node::func_def(
        "f",
        vec!["a"],
        vec![
            Node::set_eq("a", Node::literal_expr(BinOp::Add, 40, 2)),
            ret(Node::ident("a")),
        ],
    );
    let (vm, values) = run_ok(vec![
        Node::set_eq("a", Node::literal(1)),
        f,
        Node::func_call("f", vec![Node::literal(5)]),
        Node::ident("a"),
    ]);
    assert_eq!(int_of(&vm, values[2]), 42);
    assert_eq!(int_of(&vm, values[3]), 1);
    assert!(vm.scopes.is_empty());
}

#[test]
fn scopes_shadow_and_restore() {
    let mut vm = Vm::new();
    let one = vm.preallocated.get(1).unwrap();
    let two = vm.preallocated.get(2).unwrap();
    vm.write("x".to_string(), one);
    vm.new_scope();
    assert_eq!(vm.read("x"), Ok(one));
    vm.write("x".to_string(), two);
    assert_eq!(vm.read("x"), Ok(two));
    vm.drop_scope();
    assert_eq!(vm.read("x"), Ok(one));
    assert_eq!(vm.read("y"), Err(RuntimeError::UnresolvedName));
}

#[test]
fn while_loop_counts_to_ten() {
    let (vm, _) = run_ok(vec![
        Node::set_eq("i", Node::literal(0)),
        Node::while_loop(
            Node::bin_expr(BinOp::LT, Node::ident("i"), Node::literal(10)),
            vec![Node::set_eq(
                "i",
                Node::bin_expr(BinOp::Add, Node::ident("i"), Node::literal(1)),
            )],
        ),
    ]);
    let i = vm.read("i").unwrap();
    assert_eq!(int_of(&vm, i), 10);
}

#[test]
fn break_ends_the_nearest_loop_only() {
    let inner = Node::while_loop(
        Node::literal(true),
        vec![
            Node::set_eq(
                "n",
                Node::bin_expr(BinOp::Add, Node::ident("n"), Node::literal(1)),
            ),
            Node::BreakState,
            Node::set_eq("n", Node::literal(100)),
        ],
    );
    let (vm, _) = run_ok(vec![
        Node::set_eq("n", Node::literal(0)),
        Node::set_eq("i", Node::literal(0)),
        Node::while_loop(
            Node::bin_expr(BinOp::LT, Node::ident("i"), Node::literal(3)),
            vec![
                inner,
                Node::set_eq(
                    "i",
                    Node::bin_expr(BinOp::Add, Node::ident("i"), Node::literal(1)),
                ),
            ],
        ),
    ]);
    let n = vm.read("n").unwrap();
    let i = vm.read("i").unwrap();
    assert_eq!(int_of(&vm, n), 3);
    assert_eq!(int_of(&vm, i), 3);
    assert_eq!(vm.signal, Signal::Normal);
}

#[test]
fn for_loop_visits_every_item_once() {
    let list = Node::literal(vec![Node::literal(1), Node::literal(2), Node::literal(3)]);
    let (vm, _) = run_ok(vec![
        Node::set_eq("total", Node::literal(0)),
        Node::set_eq("it", member(list, Node::func_call("iter", vec![]))),
        Node::for_loop(
            "x",
            Node::ident("it"),
            vec![Node::set_eq(
                "total",
                Node::bin_expr(BinOp::Add, Node::ident("total"), Node::ident("x")),
            )],
        ),
    ]);
    let total = vm.read("total").unwrap();
    assert_eq!(int_of(&vm, total), 6);
    let it = vm.read("it").unwrap();
    match vm.get(it) {
        Some(PettyObjectType::ListIter(cursor)) => assert_eq!(cursor.1, 4),
        _ => panic!("not a cursor"),
    }
}

#[test]
fn for_loop_over_an_empty_list_asks_once() {
    let (vm, _) = run_ok(vec![
        Node::set_eq(
            "it",
            member(Node::literal(Vec::<Node>::new()), Node::func_call("iter", vec![])),
        ),
        Node::for_loop("x", Node::ident("it"), vec![]),
    ]);
    let it = vm.read("it").unwrap();
    match vm.get(it) {
        Some(PettyObjectType::ListIter(cursor)) => assert_eq!(cursor.1, 1),
        _ => panic!("not a cursor"),
    }
    assert_eq!(vm.read("x"), Err(RuntimeError::UnresolvedName));
}

#[test]
fn for_loop_over_a_range() {
    let (vm, values) = run_ok(vec![
        Node::set_eq("total", Node::literal(0)),
        Node::for_loop(
            "x",
            Node::func_call("range", vec![Node::literal(5)]),
            vec![Node::set_eq(
                "total",
                Node::bin_expr(BinOp::Add, Node::ident("total"), Node::ident("x")),
            )],
        ),
        Node::ident("total"),
        member(
            Node::func_call("range", vec![Node::literal(5)]),
            Node::func_call("sum", vec![]),
        ),
    ]);
    assert_eq!(int_of(&vm, values[2]), 10);
    assert_eq!(int_of(&vm, values[3]), 10);
}

#[test]
fn return_inside_a_for_loop_ends_the_function() {
    let f = Node::func_def(
        "first",
        vec!["items"],
        vec![
            Node::for_loop("x", Node::ident("items"), vec![ret(Node::ident("x"))]),
            ret(Node::literal(0)),
        ],
    );
    let (vm, values) = run_ok(vec![
        f,
        Node::func_call(
            "first",
            vec![Node::literal(vec![Node::literal(9), Node::literal(8)])],
        ),
    ]);
    assert_eq!(int_of(&vm, values[1]), 9);
}

#[test]
fn if_chain_takes_the_first_true_branch() {
    let chain = Node::if_state(
        Node::literal(false),
        vec![Node::set_eq("r", Node::literal(1))],
        Some(Node::if_state(
            Node::literal(0),
            vec![Node::set_eq("r", Node::literal(2))],
            Some(Node::block(vec![Node::set_eq("r", Node::literal(3))])),
        )),
    );
    let (vm, _) = run_ok(vec![chain]);
    let r = vm.read("r").unwrap();
    assert_eq!(int_of(&vm, r), 3);
}

#[test]
fn condition_without_truth_value_is_unresolved() {
    let e = run_err(vec![
        Node::func_def("f", vec![], vec![]),
        Node::if_state(Node::ident("f"), vec![], None),
    ]);
    assert_eq!(e, RuntimeError::UnresolvedName);
}

#[test]
fn list_methods() {
    let (vm, values) = run_ok(vec![
        Node::set_eq(
            "l",
            Node::literal(vec![Node::literal(1), Node::literal(2)]),
        ),
        member(Node::ident("l"), Node::func_call("push", vec![Node::literal(3)])),
        member(Node::ident("l"), Node::func_call("len", vec![])),
        Node::GetItemIndex("l".to_string(), Arc::new(Node::literal(2))),
        Node::SetItemIndex(
            "l".to_string(),
            Arc::new(Node::literal(0)),
            Arc::new(Node::literal(10)),
        ),
        Node::func_call("repr", vec![Node::ident("l")]),
        member(Node::ident("l"), Node::func_call("contains", vec![Node::literal(2)])),
        member(Node::ident("l"), Node::func_call("contains", vec![Node::literal(7)])),
        member(Node::ident("l"), Node::func_call("find", vec![Node::literal(3)])),
        Node::bin_expr(
            BinOp::IsEq,
            Node::ident("l"),
            Node::literal(vec![Node::literal(10), Node::literal(2), Node::literal(3)]),
        ),
        Node::func_call(
            "repr",
            vec![Node::bin_expr(
                BinOp::Mul,
                Node::literal(vec![Node::literal(1), Node::literal("a")]),
                Node::literal(2),
            )],
        ),
        Node::func_call(
            "repr",
            vec![Node::bin_expr(
                BinOp::Add,
                Node::ident("l"),
                Node::literal(vec![Node::literal(true)]),
            )],
        ),
    ]);
    assert_eq!(int_of(&vm, values[2]), 3);
    match vm.get(values[3]) {
        Some(PettyObjectType::Opt(o)) => assert_eq!(int_of(&vm, o.0.unwrap()), 3),
        _ => panic!("not an option"),
    }
    assert_eq!(text_of(&vm, values[5]), "[10, 2, 3]");
    assert!(bool_of(&vm, values[6]));
    assert!(!bool_of(&vm, values[7]));
    match vm.get(values[8]) {
        Some(PettyObjectType::Opt(o)) => assert_eq!(int_of(&vm, o.0.unwrap()), 2),
        _ => panic!("not an option"),
    }
    assert!(bool_of(&vm, values[9]));
    assert_eq!(text_of(&vm, values[10]), "[1, a, 1, a]");
    assert_eq!(text_of(&vm, values[11]), "[10, 2, 3, true]");
}

#[test]
fn setting_an_item_outside_the_list_fails() {
    let e = run_err(vec![
        Node::set_eq("l", Node::literal(vec![Node::literal(1)])),
        Node::SetItemIndex(
            "l".to_string(),
            Arc::new(Node::literal(5)),
            Arc::new(Node::literal(10)),
        ),
    ]);
    assert_eq!(e, RuntimeError::NumericDomain);
}

#[test]
fn string_methods_call_the_standard_library() {
    let call = |text: &str, method: &str, args: Vec<Node>| {
        Node::func_call(
            "repr",
            vec![member(Node::literal(text), Node::func_call(method, args))],
        )
    };
    let (vm, values) = run_ok(vec![
        call("Abc", "upper", vec![]),
        call("Abc", "lower", vec![]),
        call("  a b ", "trim", vec![]),
        call("  a b ", "trim_start", vec![]),
        call("  a b ", "trim_end", vec![]),
        call("xxabxx", "trim_start_matches", vec![Node::literal("x")]),
        call("xxabxx", "trim_end_matches", vec![Node::literal("x")]),
        call("h\u{e9}llo \u{4e16}\u{754c}!", "find", vec![Node::literal("\u{754c}")]),
        call("hello", "find", vec![Node::literal("")]),
        call("hello", "find", vec![Node::literal("ll")]),
        call("hello", "find", vec![Node::literal("z")]),
        Node::literal_expr(BinOp::Add, "ab", "cd"),
        Node::literal_expr(BinOp::Mul, "ab", 3),
        call("{} and {}!", "format", vec![Node::literal(1), Node::literal("two")]),
    ]);
    let texts: Vec<String> = values.iter().map(|v| text_of(&vm, *v)).collect();
    assert_eq!(
        texts,
        vec![
            "ABC", "abc", "a b", "a b ", "  a b", "abxx", "xxab", "10", "0", "2", "None", "abcd",
            "ababab",
            "1 and two!"
        ]
    );
}

#[test]
fn format_with_too_few_arguments_is_an_arity_mismatch() {
    let e = run_err(vec![member(
        Node::literal("{} {}"),
        Node::func_call("format", vec![Node::literal(1)]),
    )]);
    assert_eq!(e, RuntimeError::ArityMismatch);
}

#[test]
fn numbers_show_themselves_in_decimal() {
    let show = |n: i128| Node::func_call("repr", vec![Node::literal(n)]);
    let (vm, values) = run_ok(vec![
        show(0),
        show(7),
        show(1203),
        Node::func_call(
            "repr",
            vec![Node::unary_expr(UnaryOp::Neg, Node::literal(120))],
        ),
        show(i128::MAX),
        show(i128::MIN),
    ]);
    let texts: Vec<String> = values.iter().map(|v| text_of(&vm, *v)).collect();
    assert_eq!(
        texts,
        vec![
            "0".to_string(),
            "7".to_string(),
            "1203".to_string(),
            "-120".to_string(),
            i128::MAX.to_string(),
            i128::MIN.to_string()
        ]
    );
}

#[test]
fn print_adds_a_line_to_the_output() {
    let (vm, _) = run_ok(vec![
        Node::func_call("print", vec![Node::literal("a"), Node::literal(1), Node::literal(true)]),
        Node::func_call("print", vec![]),
        Node::func_call("print", vec![Node::Literal(Literal::Null), Node::ident("None")]),
    ]);
    assert_eq!(vm.output, vec!["a1true", "", "nullNone"]);
}

#[test]
fn options() {
    let (vm, values) = run_ok(vec![
        Node::set_eq("s", Node::func_call("Some", vec![Node::literal(5)])),
        member(Node::ident("s"), Node::func_call("unwrap", vec![])),
        member(Node::ident("s"), Node::func_call("is_some", vec![])),
        member(Node::ident("None"), Node::func_call("is_none", vec![])),
        Node::func_call("repr", vec![Node::ident("s")]),
    ]);
    assert_eq!(int_of(&vm, values[1]), 5);
    assert!(bool_of(&vm, values[2]));
    assert!(bool_of(&vm, values[3]));
    assert_eq!(text_of(&vm, values[4]), "5");
}

#[test]
fn unwrapping_the_absent_option_is_a_capability_mismatch() {
    let e = run_err(vec![member(
        Node::ident("None"),
        Node::func_call("unwrap", vec![]),
    )]);
    assert_eq!(e, RuntimeError::CapabilityMismatch);
}

#[test]
fn assertions_of_the_test_module() {
    let test = || member(Node::ident("std"), Node::ident("test"));
    let (_, _) = run_ok(vec![
        member(test(), Node::func_call("assert", vec![Node::literal(true)])),
        member(
            test(),
            Node::func_call("assert_eq", vec![Node::literal(2), Node::literal(2)]),
        ),
        member(
            test(),
            Node::func_call("assert_ne", vec![Node::literal(2), Node::literal("2")]),
        ),
    ]);
    let e = run_err(vec![member(
        test(),
        Node::func_call("assert_eq", vec![Node::literal(2), Node::literal(3)]),
    )]);
    assert_eq!(e, RuntimeError::AssertionFailed);
    let e = run_err(vec![member(
        test(),
        Node::func_call("assert", vec![Node::literal(0)]),
    )]);
    assert_eq!(e, RuntimeError::AssertionFailed);
}

#[test]
fn modules_and_instances_show_themselves() {
    let (vm, values) = run_ok(vec![
        Node::func_call("repr", vec![member(Node::ident("std"), Node::ident("test"))]),
        Node::class_def("Unit", vec![], vec![]),
        Node::set_eq("u", Node::func_call("Unit", vec![])),
        Node::func_call("repr", vec![Node::ident("u")]),
    ]);
    assert_eq!(text_of(&vm, values[0]), "Module(test)");
    let u = vm.read("u").unwrap();
    assert_eq!(
        text_of(&vm, values[3]),
        format!("Petty Class Instance at {}", u.0)
    );
}

#[test]
fn instance_with_a_call_method_can_be_called() {
    let call = Node::func_def(
        "__call__",
        vec!["self", "n"],
        vec![ret(Node::bin_expr(
            BinOp::Add,
            member(Node::ident("self"), Node::ident("base")),
            Node::ident("n"),
        ))],
    );
    let (vm, values) = run_ok(vec![
        Node::class_def("Adder", vec!["base"], vec![call]),
        Node::set_eq("add", Node::func_call("Adder", vec![Node::literal(10)])),
        Node::func_call("add", vec![Node::literal(5)]),
    ]);
    assert_eq!(int_of(&vm, values[2]), 15);
}

#[test]
fn user_class_takes_part_in_operators() {
    let add = Node::func_def(
        "__add__",
        vec!["self", "other"],
        vec![ret(Node::bin_expr(
            BinOp::Add,
            member(Node::ident("self"), Node::ident("v")),
            member(Node::ident("other"), Node::ident("v")),
        ))],
    );
    let (vm, values) = run_ok(vec![
        Node::class_def("Box", vec!["v"], vec![add]),
        Node::bin_expr(
            BinOp::Add,
            Node::func_call("Box", vec![Node::literal(1)]),
            Node::func_call("Box", vec![Node::literal(2)]),
        ),
    ]);
    assert_eq!(int_of(&vm, values[1]), 3);
}

#[test]
fn closures_are_values() {
    let (vm, values) = run_ok(vec![
        Node::set_eq(
            "twice",
            Node::closure(
                vec!["n"],
                vec![ret(Node::bin_expr(
                    BinOp::Mul,
                    Node::ident("n"),
                    Node::literal(2),
                ))],
            ),
        ),
        Node::func_call("twice", vec![Node::literal(21)]),
    ]);
    assert_eq!(int_of(&vm, values[1]), 42);
}

#[test]
fn lines_printed_before_an_error_are_kept() {
    let (vm, result) = run_virtual_machine(&Node::block(vec![
        Node::func_call("print", vec![Node::literal("first")]),
        Node::func_call("print", vec![Node::literal("second")]),
        Node::ident("nowhere"),
        Node::func_call("print", vec![Node::literal("third")]),
    ]));
    assert_eq!(result, Err(RuntimeError::UnresolvedName));
    assert_eq!(vm.output, vec!["first", "second"]);
    assert_eq!(vm.depth_limit, 400);
}

#[test]
fn budgets_can_be_chosen() {
    let f = Node::func_def(
        "down",
        vec!["n"],
        vec![
            Node::if_state(
                Node::bin_expr(BinOp::LT, Node::ident("n"), Node::literal(1)),
                vec![ret(Node::literal(0))],
                None,
            ),
            ret(Node::func_call(
                "down",
                vec![Node::bin_expr(BinOp::Sub, Node::ident("n"), Node::literal(1))],
            )),
        ],
    );
    let program = Node::block(vec![f, Node::func_call("down", vec![Node::literal(60)])]);
    let (_, tight) = pettyscript::run_with_limits(&program, 100, 10);
    assert_eq!(tight, Err(RuntimeError::RecursionLimit));
    let (vm, wide) = pettyscript::run_with_limits(&program, 1000, 10);
    assert_eq!(int_of(&vm, wide.unwrap()[1]), 0);
    let spin = Node::block(vec![Node::while_loop(Node::literal(true), vec![])]);
    let (_, spun) = pettyscript::run_with_limits(&spin, 100, 10);
    assert_eq!(spun, Err(RuntimeError::LoopLimit));
}

#[test]
fn the_module_of_time_is_bound_and_empty() {
    let e = run_err(vec![member(
        member(Node::ident("std"), Node::ident("time")),
        Node::ident("now"),
    )]);
    assert_eq!(e, RuntimeError::UnresolvedName);
}

#[test]
fn operator_names() {
    assert_eq!(BinOp::Add.into_petty_function(), "__add__");
    assert_eq!(BinOp::Sub.into_petty_function(), "__sub__");
    assert_eq!(BinOp::Mul.into_petty_function(), "__mul__");
    assert_eq!(BinOp::Div.into_petty_function(), "__div__");
    assert_eq!(BinOp::Mod.into_petty_function(), "__mod__");
    assert_eq!(BinOp::IsEq.into_petty_function(), "__is_eq__");
    assert_eq!(BinOp::NotEq.into_petty_function(), "__not_eq__");
    assert_eq!(BinOp::LT.into_petty_function(), "__lt__");
    assert_eq!(BinOp::GT.into_petty_function(), "__gt__");
    assert_eq!(BinOp::LTEq.into_petty_function(), "__lt_eq__");
    assert_eq!(BinOp::GTEq.into_petty_function(), "__gt_eq__");
    assert_eq!(BinOp::And.into_petty_function(), "__and__");
    assert_eq!(BinOp::Or.into_petty_function(), "__or__");
    assert_eq!(UnaryOp::Neg.into_petty_function(), "__neg__");
    assert_eq!(UnaryOp::Not.into_petty_function(), "__not__");
    assert_eq!(BinOp::NotEq.symbol(), "!=");
    assert_eq!(BinOp::GetItem.symbol(), ".");
}
