use pettyscript::ast::{BinOp, Literal, Node, UnaryOp};
use pettyscript::error::PettyParseError;
use pettyscript::parser::bin_expr::bin_expr;
use pettyscript::parser::lexer::{eat_comments, FaultKind, Span};
use pettyscript::parser::parse;
use pettyscript::parser::statements::statement;
use std::sync::Arc;

fn assert_expected(source: &str, expected: Vec<Node>) {
    let output = parse(source).unwrap();
    assert_eq!(output, Node::Globals(Arc::new(expected)));
}

fn float(text: &str) -> Node {
    Node::Literal(Literal::Float(text.to_string()))
}

#[test]
fn set_equals() {
    let source = "var = 10;";
    let expected = Node::set_eq("var", Node::literal(10));
    assert_expected(source, vec![expected]);
}

#[test]
fn set_equals_expr() {
    let source = "two_pi = pi() * 2;";
    let expected = Node::set_eq(
        "two_pi",
        Node::bin_expr(BinOp::Mul, Node::func_call("pi", vec![]), Node::literal(2)),
    );
    assert_expected(source, vec![expected]);
}

#[test]
fn bin_expr_order() {
    let source = "1 + 2 - 3 * 4 / 5 > 10 && true";
    let expected = Node::bin_expr(
        BinOp::And,
        Node::bin_expr(
            BinOp::GT,
            Node::bin_expr(
                BinOp::Sub,
                Node::literal_expr(BinOp::Add, 1, 2),
                Node::bin_expr(
                    BinOp::Div,
                    Node::literal_expr(BinOp::Mul, 3, 4),
                    Node::literal(5),
                ),
            ),
            Node::literal(10),
        ),
        Node::literal(true),
    );
    let output = bin_expr(source).unwrap().1;
    assert_eq!(output, expected);
}

#[test]
fn unary_expr() {
    let source = "--1 + !i";
    let expected = Node::bin_expr(
        BinOp::Add,
        Node::unary_expr(
            UnaryOp::Neg,
            Node::unary_expr(UnaryOp::Neg, Node::literal(1)),
        ),
        Node::unary_expr(UnaryOp::Not, Node::ident("i")),
    );
    let output = bin_expr(source).unwrap().1;
    assert_eq!(output, expected);
}

#[test]
fn line_comments() {
    let source = "//Hello!\none = 1;//Two\n//Comments\ntwo = 2;//End";
    let expected = vec![
        Node::set_eq("one", Node::literal(1)),
        Node::set_eq("two", Node::literal(2)),
    ];
    assert_expected(source, expected);
}

#[test]
fn multiline_comments() {
    let source = "/*Hello*/i = 0;/*1\n2\n3*/";
    let expected = Node::set_eq("i", Node::literal(0));
    assert_expected(source, vec![expected]);
}

#[test]
fn complex_expr() {
    let source = "condition = 1 - get_pi() < 10 / 3 && get_pi() == 3.141516;";
    let expected = Node::set_eq(
        "condition",
        Node::bin_expr(
            BinOp::And,
            Node::bin_expr(
                BinOp::LT,
                Node::bin_expr(
                    BinOp::Sub,
                    Node::literal(1),
                    Node::func_call("get_pi", vec![]),
                ),
                Node::bin_expr(BinOp::Div, Node::literal(10), Node::literal(3)),
            ),
            Node::bin_expr(
                BinOp::IsEq,
                Node::func_call("get_pi", vec![]),
                float("3.141516"),
            ),
        ),
    );
    assert_expected(source, vec![expected]);
}

#[test]
fn simple_function() {
    let source = r#"fn greet(name) { print("Hello " + name); }"#;
    let expected = Node::func_def(
        "greet",
        vec!["name"],
        vec![Node::func_call(
            "print",
            vec![Node::bin_expr(
                BinOp::Add,
                Node::literal("Hello "),
                Node::ident("name"),
            )],
        )],
    );
    assert_expected(source, vec![expected]);
}

#[test]
fn simple_class() {
    let source = "class Point(x, y);";
    let expected = Node::class_def("Point", vec!["x", "y"], vec![]);
    assert_expected(source, vec![expected]);
}

#[test]
fn class_methods() {
    let source = "
            class Point(x, y) {
                fn add(self, other) {
                    return Point(self.x + other.x, self.y + other.y);
                }
            }";
    let expected = Node::class_def(
        "Point",
        vec!["x", "y"],
        vec![Node::func_def(
            "add",
            vec!["self", "other"],
            vec![Node::ReturnState(Arc::new(Node::func_call(
                "Point",
                vec![
                    Node::bin_expr(
                        BinOp::Add,
                        Node::bin_expr(BinOp::GetItem, Node::ident("self"), Node::ident("x")),
                        Node::bin_expr(BinOp::GetItem, Node::ident("other"), Node::ident("x")),
                    ),
                    Node::bin_expr(
                        BinOp::Add,
                        Node::bin_expr(BinOp::GetItem, Node::ident("self"), Node::ident("y")),
                        Node::bin_expr(BinOp::GetItem, Node::ident("other"), Node::ident("y")),
                    ),
                ],
            )))],
        )],
    );
    assert_expected(source, vec![expected]);
}

#[test]
fn set_eq_type_hints() {
    let source = "num: int = 0;";
    let expected = Node::set_eq("num", Node::literal(0));
    assert_expected(source, vec![expected]);
    let source_err = "self.x: int = 0;";
    parse(source_err).unwrap_err();
}

#[test]
fn function_type_hints() {
    let source = "fn squared(num: int) {
            return num * num;
        }";
    let expected = Node::func_def(
        "squared",
        vec!["num"],
        vec![Node::ReturnState(Arc::new(Node::bin_expr(
            BinOp::Mul,
            Node::ident("num"),
            Node::ident("num"),
        )))],
    );
    assert_expected(source, vec![expected]);
}

#[test]
fn if_statement() {
    let source = "if true {}";
    let expected = Node::if_state(Node::literal(true), vec![], None);
    assert_expected(source, vec![expected]);
}

#[test]
fn if_chain() {
    let source = "if x { print(x); } elif y { print(y); } else { print(z); }";
    let expected = Node::if_state(
        Node::ident("x"),
        vec![Node::func_call("print", vec![Node::ident("x")])],
        Some(Node::if_state(
            Node::ident("y"),
            vec![Node::func_call("print", vec![Node::ident("y")])],
            Some(Node::block(vec![Node::func_call(
                "print",
                vec![Node::ident("z")],
            )])),
        )),
    );
    assert_expected(source, vec![expected]);
}

#[test]
fn list_literal() {
    let source = "[1, 2, 3];";
    let expected = Node::literal(vec![Node::literal(1), Node::literal(2), Node::literal(3)]);
    assert_expected(source, vec![expected]);
}

#[test]
fn list_literal_exprs() {
    let source = r#"[1+2, pi(), "Hello, World!"];"#;
    let expected = Node::literal(vec![
        Node::bin_expr(BinOp::Add, Node::literal(1), Node::literal(2)),
        Node::func_call("pi", vec![]),
        Node::literal("Hello, World!"),
    ]);
    assert_expected(source, vec![expected]);
}

#[test]
fn get_item() {
    let source = "[1, 2, 3].len;";
    let expected = Node::bin_expr(
        BinOp::GetItem,
        Node::literal(vec![Node::literal(1), Node::literal(2), Node::literal(3)]),
        Node::ident("len"),
    );
    assert_expected(source, vec![expected]);
}

#[test]
fn get_item_layered() {
    let source = "[1, 2, 3].len.abs().ans;";
    let expected = Node::bin_expr(
        BinOp::GetItem,
        Node::bin_expr(
            BinOp::GetItem,
            Node::bin_expr(
                BinOp::GetItem,
                Node::literal(vec![Node::literal(1), Node::literal(2), Node::literal(3)]),
                Node::ident("len"),
            ),
            Node::func_call("abs", vec![]),
        ),
        Node::ident("ans"),
    );
    assert_expected(source, vec![expected]);
}

#[test]
fn get_item_function() {
    let source = "1.max(2);";
    let expected = Node::bin_expr(
        BinOp::GetItem,
        Node::literal(1),
        Node::func_call("max", vec![Node::literal(2)]),
    );
    assert_expected(source, vec![expected]);
}

#[test]
fn get_item_precedence() {
    let source = "1 + 1.abs();";
    let expected = Node::bin_expr(
        BinOp::Add,
        Node::literal(1),
        Node::bin_expr(
            BinOp::GetItem,
            Node::literal(1),
            Node::func_call("abs", vec![]),
        ),
    );
    assert_expected(source, vec![expected]);
}

#[test]
fn closures() {
    let source = "|x, y| { return x + y; };";
    let expected = Node::closure(
        vec!["x", "y"],
        vec![Node::ReturnState(Arc::new(Node::bin_expr(
            BinOp::Add,
            Node::ident("x"),
            Node::ident("y"),
        )))],
    );
    assert_expected(source, vec![expected]);
}

#[test]
fn fail_get_item() {
    let source = "1.1;";
    parse(source).unwrap();
}

#[test]
fn number_with_a_fraction_keeps_its_text() {
    assert_expected("1.1;", vec![float("1.1")]);
    assert_expected("x = 12.50;", vec![Node::set_eq("x", float("12.50"))]);
}

#[test]
fn empty_program_has_no_nodes() {
    assert_expected("", vec![]);
}

#[test]
fn input_of_white_space_alone_is_refused() {
    let fault = parse("   ").unwrap_err();
    assert!(!fault.fatal);
    assert_eq!(fault.kind, FaultKind::Syntax);
    assert_eq!(fault.at, Span { pos: 0, end: 3 });
}

#[test]
fn missing_semicolon_is_a_fatal_fault_of_the_expression() {
    let fault = parse("x = 1").unwrap_err();
    assert!(fault.fatal);
    assert_eq!(fault.kind, FaultKind::Petty(PettyParseError::TermExpr));
    assert_eq!(fault.at.pos, 0);
}

#[test]
fn function_without_a_name_is_a_fatal_fault_of_the_name() {
    let fault = parse("x = 1; fn 123() {}").unwrap_err();
    assert!(fault.fatal);
    assert_eq!(fault.kind, FaultKind::Petty(PettyParseError::Ident));
    assert_eq!(fault.at.pos, 10);
}

#[test]
fn open_string_is_a_fatal_fault_of_the_literal() {
    let fault = parse("x = \"abc;").unwrap_err();
    assert!(fault.fatal);
    assert_eq!(fault.kind, FaultKind::Petty(PettyParseError::Literal));
    assert_eq!(fault.at.pos, 4);
}

#[test]
fn condition_without_expression_is_a_fatal_fault_of_the_expression() {
    let fault = parse("while { }").unwrap_err();
    assert!(fault.fatal);
    assert_eq!(fault.kind, FaultKind::Petty(PettyParseError::Expr));
}

#[test]
fn garbage_behind_the_program_is_refused() {
    let fault = parse("x = 1; )").unwrap_err();
    assert!(!fault.fatal);
    assert_eq!(fault.kind, FaultKind::Syntax);
    assert_eq!(fault.at.pos, 7);
}

#[test]
fn nesting_beyond_the_budget_is_refused() {
    let mut source = String::new();
    for _ in 0..300 {
        source.push('(');
    }
    source.push('1');
    for _ in 0..300 {
        source.push(')');
    }
    source.push(';');
    let fault = parse(&source).unwrap_err();
    assert!(fault.fatal);
    assert_eq!(fault.kind, FaultKind::TooDeep);
}

#[test]
fn number_beyond_the_number_type_is_refused() {
    assert!(parse("170141183460469231731687303715884105727;").is_ok());
    assert!(parse("170141183460469231731687303715884105728;").is_err());
}

#[test]
fn statements_parse_alone() {
    let (rest, node) = statement("break; x").unwrap();
    assert_eq!(node, Node::BreakState);
    assert_eq!(rest, Span { pos: 6, end: 8 });
    let (_, node) = statement("return;").unwrap();
    assert_eq!(
        node,
        Node::ReturnState(Arc::new(Node::Literal(Literal::Null)))
    );
    let (_, node) = statement("while i < 3 { i = i + 1; }").unwrap();
    assert_eq!(
        node,
        Node::while_loop(
            Node::bin_expr(BinOp::LT, Node::ident("i"), Node::literal(3)),
            vec![Node::set_eq(
                "i",
                Node::bin_expr(BinOp::Add, Node::ident("i"), Node::literal(1)),
            )],
        )
    );
}

#[test]
fn for_loop_and_index_statements() {
    let source = "for x: items { total = total + x; } l[0] = l[1];";
    let expected = vec![
        Node::for_loop(
            "x",
            Node::ident("items"),
            vec![Node::set_eq(
                "total",
                Node::bin_expr(BinOp::Add, Node::ident("total"), Node::ident("x")),
            )],
        ),
        Node::SetItemIndex(
            "l".to_string(),
            Arc::new(Node::literal(0)),
            Arc::new(Node::GetItemIndex("l".to_string(), Arc::new(Node::literal(1)))),
        ),
    ];
    assert_expected(source, expected);
}

#[test]
fn keywords_need_a_boundary() {
    assert_expected("iffy = 1;", vec![Node::set_eq("iffy", Node::literal(1))]);
    assert_expected("return_ = 1;", vec![Node::set_eq("return_", Node::literal(1))]);
    assert_expected("nullable;", vec![Node::ident("nullable")]);
    assert_expected("null;", vec![Node::Literal(Literal::Null)]);
}

#[test]
fn comments_and_white_space_are_skipped() {
    let chars: Vec<char> = "  // a\n /* b */ x  ".chars().collect();
    let span = eat_comments(&chars, Span { pos: 0, end: chars.len() });
    assert_eq!(span, Span { pos: 16, end: 17 });
    let chars: Vec<char> = "/* open".chars().collect();
    let span = eat_comments(&chars, Span { pos: 0, end: chars.len() });
    assert_eq!(span, Span { pos: 7, end: 7 });
    let chars: Vec<char> = "a // b".chars().collect();
    let span = eat_comments(&chars, Span { pos: 1, end: chars.len() });
    assert_eq!(span, Span { pos: 6, end: 6 });
}

#[test]
fn parsed_program_runs() {
    let source = "
        class Point(x, y) {
            fn sum(self) { return self.x + self.y; }
        }
        p = Point(3, 4);
        r = p.sum();
        s = Point(1, 1).sum();
        a = 1;
        fn f() { return a; }
        a = 2;
        t = f();
    ";
    let tree = parse(source).unwrap();
    let (vm, result) = pettyscript::run_virtual_machine(&tree);
    assert!(result.is_ok());
    let read = |name: &str| match vm.get(vm.read(name).unwrap()) {
        Some(pettyscript::object::PettyObjectType::Int(i)) => i.0,
        _ => panic!("not a number"),
    };
    assert_eq!(read("r"), 7);
    assert_eq!(read("s"), 2);
    assert_eq!(read("t"), 2);
}

#[test]
fn trees_have_a_text_form() {
    let text = |source: &str| match parse(source).unwrap() {
        Node::Globals(nodes) => nodes[0].text(),
        _ => panic!("not a program"),
    };
    assert_eq!(text("x = 10;"), r#"set_eq { left: "x", right: 10 }"#);
    assert_eq!(
        text("1 + f(a, \"b\");"),
        r#"expr { op: Add, left: 1, right: func_call { name: "f", args: [Ident("a"), 'b'] } }"#
    );
    assert_eq!(
        text("if !x { break; } else { return; }"),
        "if { condition: unary_expr { op: Not, inner: Ident(\"x\") }, body: [break], \
         or_else: [[return(null)]] }"
    );
    assert_eq!(
        text("fn f(a, b) { [true, 1.5]; }"),
        r#"func_def { name: "f", args: ["a", "b"], body: [[true, 1.5]] }"#
    );
    assert_eq!(
        text("class P(x); "),
        r#"class { name: "P", fields: ["x"], functions: [] }"#
    );
    assert_eq!(
        text("for i: l { l[0] = l[i]; }"),
        "for_loop { target: \"i\", iter: Ident(\"l\"), body: [set_index { ident: \"l\", \
         index: 0, expr: get_index { ident: \"l\", expr: Ident(\"i\") } }] }"
    );
    assert_eq!(
        text("while a.b { |x| {}; }"),
        "while { condition: expr { op: GetItem, left: Ident(\"a\"), right: Ident(\"b\") }, \
         body: [closure { args: [\"x\"], body: [] }] }"
    );
    assert_eq!(Node::ident("a\"b").text(), r#"Ident("a\"b")"#);
    assert_eq!(Node::Empty.text(), "empty");
    assert_eq!(parse("").unwrap().text(), "[]");
}
