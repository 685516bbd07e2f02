use alya::ast::{BinaryOp, Expr, Program, Stmt, UnaryOp};
use alya::lexer::Lexer;
use alya::parser::Parser;

fn parse_code(code: &str) -> Result<Program, String> {
    let mut lexer = Lexer::new(code);
    let tokens = lexer.tokenize()?;
    let mut parser = Parser::new(tokens);
    parser.parse()
}

fn num(text: &str) -> Expr {
    Expr::Number(text.to_string())
}

fn ident(name: &str) -> Expr {
    Expr::Identifier(name.to_string())
}

fn binary(left: Expr, op: BinaryOp, right: Expr) -> Expr {
    Expr::Binary { left: Box::new(left), op, right: Box::new(right) }
}

fn check_parse_let_and_assign() {
    let program = parse_code("let score = 100\nscore = score + 10").expect("Parse failed");
    assert_eq!(program.statements.len(), 2);
    assert_eq!(program.statements[0], Stmt::Let { name: "score".into(), value: num("100") });
    assert_eq!(
        program.statements[1],
        Stmt::Assign {
            name: "score".into(),
            value: binary(ident("score"), BinaryOp::Add, num("10")),
        }
    );
}

#[test]
fn tests_test_parse_let_and_assign() {
    check_parse_let_and_assign();
}

#[test]
fn stmt_test_parse_let_and_assign() {
    check_parse_let_and_assign();
}

#[test]
fn test_parse_binary_precedence() {
    let program = parse_code("say 1 + 2 * 3").expect("Parse failed");
    assert_eq!(program.statements.len(), 1);
    match &program.statements[0] {
        Stmt::Say(Expr::Binary { left, op, right }) => {
            assert_eq!(**left, num("1"));
            assert_eq!(*op, BinaryOp::Add);
            match &**right {
                Expr::Binary { left: rleft, op: rop, right: rright } => {
                    assert_eq!(**rleft, num("2"));
                    assert_eq!(*rop, BinaryOp::Multiply);
                    assert_eq!(**rright, num("3"));
                }
                other => panic!("Expected multiplication on right, got {:?}", other),
            }
        }
        other => panic!("Expected Say with Binary, got {:?}", other),
    }
}

#[test]
fn test_parse_parentheses_precedence() {
    let program = parse_code("say (1 + 2) * 3").expect("Parse failed");
    match &program.statements[0] {
        Stmt::Say(Expr::Binary { left, op, right }) => {
            assert_eq!(*op, BinaryOp::Multiply);
            assert_eq!(**right, num("3"));
            match &**left {
                Expr::Binary { left: lleft, op: lop, right: lright } => {
                    assert_eq!(**lleft, num("1"));
                    assert_eq!(*lop, BinaryOp::Add);
                    assert_eq!(**lright, num("2"));
                }
                other => panic!("Expected addition inside parens, got {:?}", other),
            }
        }
        other => panic!("Expected Say with Binary, got {:?}", other),
    }
}

#[test]
fn test_parse_unary_not_and_negate() {
    let program = parse_code("say -5\nsay not true").expect("Parse failed");
    assert_eq!(program.statements.len(), 2);
    match &program.statements[0] {
        Stmt::Say(Expr::Unary { op, expr }) => {
            assert_eq!(*op, UnaryOp::Negate);
            assert_eq!(**expr, num("5"));
        }
        other => panic!("Expected negate unary, got {:?}", other),
    }
    match &program.statements[1] {
        Stmt::Say(Expr::Unary { op, expr }) => {
            assert_eq!(*op, UnaryOp::Not);
            assert_eq!(**expr, num("1"));
        }
        other => panic!("Expected not unary, got {:?}", other),
    }
}

fn check_parse_if_else() {
    let code = "\nif x > 0\n    say \"positive\"\nelse\n    say \"non-positive\"\nend\n";
    let program = parse_code(code).expect("Parse failed");
    assert_eq!(program.statements.len(), 1);
    match &program.statements[0] {
        Stmt::If { condition, then_block, else_block } => {
            assert_eq!(*condition, binary(ident("x"), BinaryOp::Greater, num("0")));
            assert_eq!(then_block.len(), 1);
            assert_eq!(then_block[0], Stmt::Say(Expr::String("positive".into())));
            let else_stmts = else_block.as_ref().expect("Expected else block");
            assert_eq!(else_stmts.len(), 1);
            assert_eq!(else_stmts[0], Stmt::Say(Expr::String("non-positive".into())));
        }
        other => panic!("Expected If statement, got {:?}", other),
    }
}

#[test]
fn tests_test_parse_if_else() {
    check_parse_if_else();
}

#[test]
fn stmt_test_parse_if_else() {
    check_parse_if_else();
}

fn check_parse_while_loop() {
    let code = "\nwhile count < 5\n    say count\n    count = count + 1\nend\n";
    let program = parse_code(code).expect("Parse failed");
    assert_eq!(program.statements.len(), 1);
    match &program.statements[0] {
        Stmt::While { condition, body } => {
            assert_eq!(*condition, binary(ident("count"), BinaryOp::Less, num("5")));
            assert_eq!(body.len(), 2);
        }
        other => panic!("Expected While loop, got {:?}", other),
    }
}

#[test]
fn tests_test_parse_while_loop() {
    check_parse_while_loop();
}

#[test]
fn stmt_test_parse_while_loop() {
    check_parse_while_loop();
}

fn check_parse_repeat_loop() {
    let code = "\nrepeat\n    count += 1\n    if count >= 3\n        break\n    end\nend\n";
    let program = parse_code(code).expect("Parse failed");
    assert_eq!(program.statements.len(), 1);
    match &program.statements[0] {
        Stmt::Repeat { body } => {
            assert_eq!(body.len(), 2);
        }
        other => panic!("Expected Repeat loop, got {:?}", other),
    }
}

#[test]
fn tests_test_parse_repeat_loop() {
    check_parse_repeat_loop();
}

#[test]
fn stmt_test_parse_repeat_loop() {
    check_parse_repeat_loop();
}

fn check_parse_for_loop() {
    let code = "\nfor i in 1..10\n    say i\nend\n";
    let program = parse_code(code).expect("Parse failed");
    assert_eq!(program.statements.len(), 1);
    match &program.statements[0] {
        Stmt::For { var, start, end, body } => {
            assert_eq!(var, "i");
            assert_eq!(*start, num("1"));
            assert_eq!(*end, num("10"));
            assert_eq!(body.len(), 1);
        }
        other => panic!("Expected For loop, got {:?}", other),
    }
}

#[test]
fn tests_test_parse_for_loop() {
    check_parse_for_loop();
}

#[test]
fn stmt_test_parse_for_loop() {
    check_parse_for_loop();
}

fn check_parse_for_each_loop() {
    let code = "\nfor item in [1, 2, 3]\n    say item\nend\n";
    let program = parse_code(code).expect("Parse failed");
    assert_eq!(program.statements.len(), 1);
    match &program.statements[0] {
        Stmt::ForEach { var, iterable, body } => {
            assert_eq!(var, "item");
            assert_eq!(*iterable, Expr::Array(vec![num("1"), num("2"), num("3")]));
            assert_eq!(body.len(), 1);
        }
        other => panic!("Expected ForEach loop, got {:?}", other),
    }
}

#[test]
fn tests_test_parse_for_each_loop() {
    check_parse_for_each_loop();
}

#[test]
fn stmt_test_parse_for_each_loop() {
    check_parse_for_each_loop();
}

#[test]
fn tests_test_parse_function_and_call() {
    check_parse_function_and_call();
}

#[test]
fn stmt_test_parse_function_and_call() {
    check_parse_function_and_call();
}

fn check_parse_function_and_call() {
    let code = "\nfunction multiply(a, b)\n    return a * b\nend\n\nlet result = multiply(6, 7)\n";
    let program = parse_code(code).expect("Parse failed");
    assert_eq!(program.statements.len(), 2);
    assert_eq!(
        program.statements[0],
        Stmt::Function {
            name: "multiply".into(),
            params: vec!["a".into(), "b".into()],
            defaults: vec![None, None],
            body: vec![Stmt::Return(Some(binary(ident("a"), BinaryOp::Multiply, ident("b"))))],
        }
    );
    assert_eq!(
        program.statements[1],
        Stmt::Let {
            name: "result".into(),
            value: Expr::Call { name: "multiply".into(), args: vec![num("6"), num("7")] },
        }
    );
}

fn check_parse_unclosed_block_error() {
    let result = parse_code("if x > 0\nsay 1");
    assert!(result.is_err());
}

#[test]
fn tests_test_parse_unclosed_block_error() {
    check_parse_unclosed_block_error();
}

#[test]
fn stmt_test_parse_unclosed_block_error() {
    check_parse_unclosed_block_error();
}

#[test]
fn test_parse_compound_assignments() {
    let program = parse_code("x += 5\ny -= 3\nz *= 2\nw /= 4").expect("Parse failed");
    assert_eq!(program.statements.len(), 4);
    let expected = [
        ("x", BinaryOp::Add, "5"),
        ("y", BinaryOp::Subtract, "3"),
        ("z", BinaryOp::Multiply, "2"),
        ("w", BinaryOp::Divide, "4"),
    ];
    for (stmt, (name, op, value)) in program.statements.iter().zip(expected) {
        assert_eq!(
            *stmt,
            Stmt::Assign { name: name.into(), value: binary(ident(name), op, num(value)) }
        );
    }
}

#[test]
fn test_parse_elif_and_logical_symbols() {
    let code = "\nif a > 0 && b > 0\n    say \"both\"\nelif a > 0 || !c\n    say \"one or not c\"\nelse\n    say \"none\"\nend\n";
    let program = parse_code(code).expect("Parse failed");
    assert_eq!(program.statements.len(), 1);
    match &program.statements[0] {
        Stmt::If { condition, then_block: _, else_block } => {
            assert_eq!(
                *condition,
                binary(
                    binary(ident("a"), BinaryOp::Greater, num("0")),
                    BinaryOp::And,
                    binary(ident("b"), BinaryOp::Greater, num("0")),
                )
            );
            assert!(else_block.is_some());
        }
        other => panic!("Expected If, got {:?}", other),
    }
}

#[test]
fn test_parse_ask_expression() {
    let code = "let name = ask \"Your name: \"\nlet city = ask(\"City: \")\nlet general = ask";
    let program = parse_code(code).expect("Parse failed");
    assert_eq!(program.statements.len(), 3);
    assert_eq!(
        program.statements[0],
        Stmt::Let {
            name: "name".into(),
            value: Expr::Call { name: "ask".into(), args: vec![Expr::String("Your name: ".into())] },
        }
    );
}

fn check_parse_try_catch() {
    let code = "\ntry\n    let x = 10 / 0\ncatch err\n    say err\nend\n\ntry\n    say 42\ncatch\n    say \"error\"\nend\n";
    let program = parse_code(code).expect("Parse failed");
    assert_eq!(program.statements.len(), 2);
    match &program.statements[0] {
        Stmt::TryCatch { try_block, catch_var, catch_block, finally_block } => {
            assert_eq!(try_block.len(), 1);
            assert_eq!(catch_var.as_deref(), Some("err"));
            assert_eq!(catch_block.len(), 1);
            assert_eq!(*finally_block, None);
        }
        other => panic!("Expected TryCatch, got {:?}", other),
    }
    match &program.statements[1] {
        Stmt::TryCatch { try_block, catch_var, catch_block, finally_block } => {
            assert_eq!(try_block.len(), 1);
            assert_eq!(*catch_var, None);
            assert_eq!(catch_block.len(), 1);
            assert_eq!(*finally_block, None);
        }
        other => panic!("Expected TryCatch, got {:?}", other),
    }
}

#[test]
fn tests_test_parse_try_catch() {
    check_parse_try_catch();
}

#[test]
fn stmt_test_parse_try_catch() {
    check_parse_try_catch();
}

#[test]
fn test_parse_arrays() {
    let source = "let arr = [1, 2, 3]\nsay arr[0]\narr[1] = 42\nmatrix[0][1] = 99";
    let mut lexer = Lexer::new(source);
    let tokens = lexer.tokenize().expect("Failed to tokenize");
    let mut parser = Parser::new(tokens);
    let program = parser.parse().expect("Failed to parse");
    assert_eq!(program.statements.len(), 4);
    match &program.statements[0] {
        Stmt::Let { name, value } => {
            assert_eq!(name, "arr");
            match value {
                Expr::Array(elements) => {
                    assert_eq!(elements.len(), 3);
                    assert_eq!(elements[0], num("1"));
                    assert_eq!(elements[1], num("2"));
                    assert_eq!(elements[2], num("3"));
                }
                other => panic!("Expected Expr::Array, got {:?}", other),
            }
        }
        other => panic!("Expected Stmt::Let, got {:?}", other),
    }
    match &program.statements[1] {
        Stmt::Say(Expr::Index { array, index }) => {
            assert_eq!(**array, ident("arr"));
            assert_eq!(**index, num("0"));
        }
        other => panic!("Expected Stmt::Say(Expr::Index), got {:?}", other),
    }
    match &program.statements[2] {
        Stmt::IndexAssign { array, index, value } => {
            assert_eq!(*array, ident("arr"));
            assert_eq!(*index, num("1"));
            assert_eq!(*value, num("42"));
        }
        other => panic!("Expected Stmt::IndexAssign, got {:?}", other),
    }
    match &program.statements[3] {
        Stmt::IndexAssign { array, index, value } => {
            match array {
                Expr::Index { array: inner_array, index: inner_index } => {
                    assert_eq!(**inner_array, ident("matrix"));
                    assert_eq!(**inner_index, num("0"));
                }
                other => panic!("Expected Expr::Index, got {:?}", other),
            }
            assert_eq!(*index, num("1"));
            assert_eq!(*value, num("99"));
        }
        other => panic!("Expected Stmt::IndexAssign, got {:?}", other),
    }
}

#[test]
fn imports_test_parse_import() {
    let program = parse_code("import \"math_utils.alya\"\nsay 42").expect("Failed to parse");
    assert_eq!(program.statements.len(), 2);
    match &program.statements[0] {
        Stmt::Import { path, alias } => {
            assert_eq!(path, "math_utils.alya");
            assert_eq!(alias, &None);
        }
        other => panic!("Expected Stmt::Import, got {:?}", other),
    }
    let program_alias =
        parse_code("import \"math_utils.alya\" as math\nsay math::add(1, 2)").expect("Failed to parse");
    match &program_alias.statements[0] {
        Stmt::Import { path, alias } => {
            assert_eq!(path, "math_utils.alya");
            assert_eq!(alias, &Some("math".to_string()));
        }
        other => panic!("Expected Stmt::Import with alias, got {:?}", other),
    }
}

#[test]
fn test_parse_struct_and_field_access() {
    let source = "struct Point\n  x\n  y\nend\nlet p = Point { x: 10, y: 20 }\np.x = 99\nsay p.x";
    let program = parse_code(source).expect("Failed to parse");
    assert_eq!(program.statements.len(), 4);
    match &program.statements[0] {
        Stmt::StructDef { name, fields } => {
            assert_eq!(name, "Point");
            assert_eq!(fields, &["x", "y"]);
        }
        other => panic!("Expected Stmt::StructDef, got {:?}", other),
    }
    match &program.statements[1] {
        Stmt::Let { name, value } => {
            assert_eq!(name, "p");
            match value {
                Expr::StructInit { name: sname, fields } => {
                    assert_eq!(sname, "Point");
                    assert_eq!(fields.len(), 2);
                    assert_eq!(fields[0].0, "x");
                    assert_eq!(fields[1].0, "y");
                }
                other => panic!("Expected Expr::StructInit, got {:?}", other),
            }
        }
        other => panic!("Expected Stmt::Let, got {:?}", other),
    }
    match &program.statements[2] {
        Stmt::FieldAssign { object, field, value } => {
            assert_eq!(*object, ident("p"));
            assert_eq!(field, "x");
            assert_eq!(*value, num("99"));
        }
        other => panic!("Expected Stmt::FieldAssign, got {:?}", other),
    }
    match &program.statements[3] {
        Stmt::Say(Expr::FieldAccess { object, field }) => {
            assert_eq!(**object, ident("p"));
            assert_eq!(field, "x");
        }
        other => panic!("Expected Stmt::Say(FieldAccess), got {:?}", other),
    }
}

#[test]
fn test_parse_multi_let_single_value() {
    let program = parse_code("let idx, val = 0").expect("Parse failed");
    assert_eq!(program.statements.len(), 2);
    assert_eq!(program.statements[0], Stmt::Let { name: "idx".into(), value: num("0") });
    assert_eq!(program.statements[1], Stmt::Let { name: "val".into(), value: num("0") });
}

#[test]
fn test_parse_multi_let_multiple_values() {
    let program = parse_code("let idx, val = 0, 1").expect("Parse failed");
    assert_eq!(program.statements.len(), 2);
    assert_eq!(program.statements[0], Stmt::Let { name: "idx".into(), value: num("0") });
    assert_eq!(program.statements[1], Stmt::Let { name: "val".into(), value: num("1") });
}

#[test]
fn test_parse_multi_let_mismatch_error() {
    let result1 = parse_code("let a, b = 1, 2, 3");
    assert!(result1.is_err());
    assert!(result1.unwrap_err().contains("Mismatch in 'let' statement"));

    let result2 = parse_code("let a, b, c = 1, 2");
    assert!(result2.is_err());
    assert!(result2.unwrap_err().contains("Mismatch in 'let' statement"));
}

#[test]
fn test_parse_catch_parentheses_and_finally() {
    let code = "\ntry\n    throw \"error message\"\ncatch (e)\n    say e\nfinally\n    say \"cleanup\"\nend\n\ntry\n    say 1\nfinally\n    say 2\nend\n";
    let program = parse_code(code).expect("Parse failed");
    assert_eq!(program.statements.len(), 2);
    match &program.statements[0] {
        Stmt::TryCatch { try_block, catch_var, catch_block, finally_block } => {
            assert_eq!(try_block.len(), 1);
            assert!(matches!(&try_block[0], Stmt::Throw(Some(_))));
            assert_eq!(catch_var.as_deref(), Some("e"));
            assert_eq!(catch_block.len(), 1);
            assert_eq!(finally_block.as_ref().map(|b| b.len()), Some(1));
        }
        other => panic!("Expected TryCatch with finally, got {:?}", other),
    }
    match &program.statements[1] {
        Stmt::TryCatch { try_block, catch_var, catch_block, finally_block } => {
            assert_eq!(try_block.len(), 1);
            assert_eq!(*catch_var, None);
            assert_eq!(catch_block.len(), 0);
            assert_eq!(finally_block.as_ref().map(|b| b.len()), Some(1));
        }
        other => panic!("Expected TryCatch without catch, got {:?}", other),
    }
}

#[test]
fn test_parse_throw_statements() {
    let program = parse_code("\nthrow \"custom\"\nthrow\n").expect("Parse failed");
    assert_eq!(program.statements.len(), 2);
    match &program.statements[0] {
        Stmt::Throw(Some(expr)) => assert_eq!(*expr, Expr::String("custom".into())),
        other => panic!("Expected Stmt::Throw(Some), got {:?}", other),
    }
    match &program.statements[1] {
        Stmt::Throw(None) => {}
        other => panic!("Expected Stmt::Throw(None), got {:?}", other),
    }
}

#[test]
fn test_parse_when_enhanced() {
    let code = "\nwhen status\n    is 200, 201 then\n        say \"OK\"\n        let count = 1\n    is 400..499\n        say \"Client Error\"\n    is >= 500 then\n        say \"Server Error\"\n    else\n        say \"Unknown\"\nend\n";
    let program = parse_code(code).expect("Parse failed");
    assert_eq!(program.statements.len(), 1);
    match &program.statements[0] {
        Stmt::If { condition: _, then_block, else_block } => {
            assert_eq!(then_block.len(), 2);
            assert!(else_block.is_some());
        }
        other => panic!("Expected Stmt::If from desugared when, got {:?}", other),
    }
}

#[test]
fn parser_when_arms_become_nested_ifs() {
    let code = "when s\n  is 1, 2 then say 1\n  is 3..4\n    say 2\n  is >= 9 then say 3\n  else\n    say 4\nend";
    let program = parse_code(code).expect("Parse failed");
    let s = || ident("s");
    let expected = Stmt::If {
        condition: binary(
            binary(s(), BinaryOp::Equal, num("1")),
            BinaryOp::Or,
            binary(s(), BinaryOp::Equal, num("2")),
        ),
        then_block: vec![Stmt::Say(num("1"))],
        else_block: Some(vec![Stmt::If {
            condition: binary(
                binary(s(), BinaryOp::GreaterEqual, num("3")),
                BinaryOp::And,
                binary(s(), BinaryOp::LessEqual, num("4")),
            ),
            then_block: vec![Stmt::Say(num("2"))],
            else_block: Some(vec![Stmt::If {
                condition: binary(s(), BinaryOp::GreaterEqual, num("9")),
                then_block: vec![Stmt::Say(num("3"))],
                else_block: Some(vec![Stmt::Say(num("4"))]),
            }]),
        }]),
    };
    assert_eq!(program.statements, vec![expected]);
}

#[test]
fn parser_empty_when_is_refused() {
    let err = parse_code("when x\nend").unwrap_err();
    assert!(err.starts_with("Empty 'when' statement"));
}

#[test]
fn parser_else_if_chains() {
    let code = "if a\n say 1\nelse if b\n say 2\nelif c\n say 3\nend";
    let program = parse_code(code).expect("Parse failed");
    let expected = Stmt::If {
        condition: ident("a"),
        then_block: vec![Stmt::Say(num("1"))],
        else_block: Some(vec![Stmt::If {
            condition: ident("b"),
            then_block: vec![Stmt::Say(num("2"))],
            else_block: Some(vec![Stmt::If {
                condition: ident("c"),
                then_block: vec![Stmt::Say(num("3"))],
                else_block: None,
            }]),
        }]),
    };
    assert_eq!(program.statements, vec![expected]);
}

#[test]
fn parser_method_call_statement() {
    let program = parse_code("items.push(4, 5)\nitems.len()").expect("Parse failed");
    assert_eq!(
        program.statements,
        vec![
            Stmt::Expr(Expr::Call { name: "push".into(), args: vec![ident("items"), num("4"), num("5")] }),
            Stmt::Expr(Expr::Call { name: "len".into(), args: vec![ident("items")] }),
        ]
    );
}

#[test]
fn parser_assignment_to_method_call_is_refused() {
    let err = parse_code("items.first() = 3").unwrap_err();
    assert!(err.starts_with("Cannot assign to this expression"));
}

#[test]
fn parser_compound_assignment_to_element() {
    let program = parse_code("a[0] += 2").expect("Parse failed");
    let target = Expr::Index { array: Box::new(ident("a")), index: Box::new(num("0")) };
    assert_eq!(
        program.statements,
        vec![Stmt::IndexAssign {
            array: ident("a"),
            index: num("0"),
            value: binary(target, BinaryOp::Add, num("2")),
        }]
    );
}

#[test]
fn parser_qualified_function_names() {
    let program = parse_code("function m::f(x)\n return x\nend\nsay m::f(1)").expect("Parse failed");
    match &program.statements[0] {
        Stmt::Function { name, params, .. } => {
            assert_eq!(name, "m::f");
            assert_eq!(params, &vec!["x".to_string()]);
        }
        other => panic!("Expected Function, got {:?}", other),
    }
    assert_eq!(
        program.statements[1],
        Stmt::Say(Expr::Call { name: "m::f".into(), args: vec![num("1")] })
    );
}

#[test]
fn parser_string_interpolation() {
    let program = parse_code("say \"Hi {user.name}, {n} left {} {x\"").expect("Parse failed");
    let field = Expr::FieldAccess { object: Box::new(ident("user")), field: "name".into() };
    assert_eq!(
        program.statements,
        vec![Stmt::Say(Expr::InterpolatedString(vec![
            Expr::String("Hi ".into()),
            field,
            Expr::String(", ".into()),
            ident("n"),
            Expr::String(" left { {x".into()),
        ]))]
    );
}

#[test]
fn parser_plain_braces_stay_a_string() {
    let program = parse_code("say \"{}\"").expect("Parse failed");
    assert_eq!(program.statements, vec![Stmt::Say(Expr::String("{}".into()))]);
}

#[test]
fn parser_expected_end_message() {
    let err = parse_code("while x\n say 1").unwrap_err();
    assert_eq!(err, "Expected End, found Eof at line 2, column 7");
}

#[test]
fn parser_let_mismatch_message() {
    let err = parse_code("let a, b = 1, 2, 3").unwrap_err();
    assert_eq!(
        err,
        "Mismatch in 'let' statement: 2 variables defined but 3 values provided at line 1, column 5"
    );
}

#[test]
fn parser_unexpected_token_message() {
    let err = parse_code("say )").unwrap_err();
    assert_eq!(err, "Unexpected token RightParen at line 1, column 5");
}

#[test]
fn parser_struct_literal_and_map_free_program() {
    let program = parse_code("\n\n").expect("Parse failed");
    assert!(program.statements.is_empty());
}

#[test]
fn parser_return_without_value() {
    let program = parse_code("function f()\n return\nend").expect("Parse failed");
    assert_eq!(
        program.statements,
        vec![Stmt::Function {
            name: "f".into(),
            params: vec![],
            defaults: vec![],
            body: vec![Stmt::Return(None)],
        }]
    );
}

#[test]
fn parser_error_messages_name_the_failing_token() {
    let cases = [
        ("if x\n say 1", "Expected 'end' at line 2, column 7"),
        ("for 1 in x\nend", "Expected identifier after 'for' at line 1, column 5"),
        ("for i of x\nend", "Expected In, found Identifier at line 1, column 7"),
        ("import x", "Expected string literal after 'import' at line 1, column 8"),
        ("import \"m\" as 2", "Expected identifier after 'as' at line 1, column 15"),
        ("try\n say 1\nend", "Unexpected token End at line 3, column 1"),
        ("try\n say 1", "Expected 'catch' or 'finally' at line 2, column 7"),
        ("try\n say 1\ncatch (2)\nend", "Expected identifier in 'catch' at line 3, column 8"),
        ("when x\n say 1\nend", "Expected 'is' or 'else' in 'when' block at line 2, column 2"),
        ("struct 1\nend", "Expected struct name at line 1, column 8"),
        ("struct P\n 1\nend", "Expected field name or 'end' at line 2, column 2"),
        ("function (x)\nend", "Expected function name at line 1, column 10"),
        ("function f(1)\nend", "Expected parameter name at line 1, column 12"),
        ("function f x\nend", "Expected LeftParen, found Identifier at line 1, column 12"),
        ("say [1 2]", "Expected ',' or ']' after array element at line 1, column 8"),
        ("say P{1: 2}", "Expected field name in struct initialization at line 1, column 7"),
        ("say P{a 2}", "Expected ':' or '=' after field name at line 1, column 9"),
        ("say a.1", "Expected field name after '.' at line 1, column 7"),
        ("a.1 = 2", "Expected field name after '.' at line 1, column 3"),
        ("say m::1", "Expected identifier after '::' in name at line 1, column 8"),
        ("say (1", "Expected RightParen, found Eof at line 1, column 7"),
        ("say a[1", "Expected RightBracket, found Eof at line 1, column 8"),
        ("let = 1", "Expected identifier after 'let' at line 1, column 5"),
        ("let a 1", "Expected Assign, found Number at line 1, column 7"),
        ("let a, b, c = 1, 2", "Mismatch in 'let' statement: 3 variables defined but 2 values provided at line 1, column 5"),
    ];
    for (code, message) in cases {
        assert_eq!(parse_code(code).unwrap_err(), message, "for {:?}", code);
    }
}

#[test]
fn readme_sample_program_parses() {
    let code = r#"# Define custom data structures
struct Player
    name
    score
end

# First-class functions with expressive conditionals
function rank_player(p)
    if p.score >= 90
        return "Master"
    elif p.score >= 75
        return "Expert"
    else
        return "Challenger"
    end
end

# Collections, iteration, and string interpolation
let team = [
    Player { name: "Alice", score: 95 },
    Player { name: "Bob", score: 82 }
]

for member in team
    let tier = rank_player(member)
    say "Player {member.name} scored {member.score} pts -> [{tier}]"
end
"#;
    let program = parse_code(code).expect("Parse failed");
    assert_eq!(program.statements.len(), 4);
    assert_eq!(
        program.statements[0],
        Stmt::StructDef { name: "Player".into(), fields: vec!["name".into(), "score".into()] }
    );
    match &program.statements[2] {
        Stmt::Let { name, value: Expr::Array(items) } => {
            assert_eq!(name, "team");
            assert_eq!(items.len(), 2);
        }
        other => panic!("Expected Let of an array, got {:?}", other),
    }
    match &program.statements[3] {
        Stmt::ForEach { var, iterable, body } => {
            assert_eq!(var, "member");
            assert_eq!(iterable, &ident("team"));
            assert_eq!(body.len(), 2);
        }
        other => panic!("Expected ForEach, got {:?}", other),
    }
}

#[test]
fn parser_peek_token_looks_one_ahead() {
    let tokens = Lexer::new("say 1").tokenize().unwrap();
    let mut parser = Parser::new(tokens);
    assert_eq!(parser.peek_token().token_type, alya::lexer::TokenType::Number("1".into()));
    parser.advance();
    parser.advance();
    assert_eq!(parser.current_token().token_type, alya::lexer::TokenType::Eof);
    assert_eq!(parser.peek_token().token_type, alya::lexer::TokenType::Eof);
}

fn part_text(e: &Expr) -> String {
    fn dotted(e: &Expr) -> String {
        match e {
            Expr::Identifier(n) => n.clone(),
            Expr::FieldAccess { object, field } => format!("{}.{}", dotted(object), field),
            other => panic!("unexpected part {:?}", other),
        }
    }
    match e {
        Expr::String(t) => t.clone(),
        other => format!("{{{}}}", dotted(other)),
    }
}

#[test]
fn interpolation_parts_join_back_to_the_string() {
    for s in ["Hi {user.name}, {n} left {x", "{a}{b.c.d}", "x {y} {z", "{.a..b}!"] {
        let parts = alya::parser::expr::parse_interpolated_string(&s.to_string()).expect("placeholder");
        let joined: String = parts.iter().map(part_text).collect();
        assert_eq!(joined, s);
        for w in parts.windows(2) {
            assert!(!(matches!(w[0], Expr::String(_)) && matches!(w[1], Expr::String(_))));
        }
        assert!(parts.iter().all(|p| !matches!(p, Expr::String(t) if t.is_empty())));
    }
    assert!(alya::parser::expr::parse_interpolated_string(&"no {placeholder here".to_string()).is_none());
}

#[test]
fn test_parse_function_default_parameters() {
    let code = r#"
function greet(name, greeting = "Hello", punctuation = "!")
    say greeting
end

greet("Alya")
"#;
    let program = parse_code(code).expect("Parse failed");
    assert_eq!(program.statements.len(), 2);
    assert_eq!(
        program.statements[0],
        Stmt::Function {
            name: "greet".into(),
            params: vec!["name".into(), "greeting".into(), "punctuation".into()],
            defaults: vec![
                None,
                Some(Expr::String("Hello".into())),
                Some(Expr::String("!".into())),
            ],
            body: vec![Stmt::Say(ident("greeting"))],
        }
    );
    assert_eq!(
        program.statements[1],
        Stmt::Expr(Expr::Call {
            name: "greet".into(),
            args: vec![
                Expr::String("Alya".into()),
                Expr::String("Hello".into()),
                Expr::String("!".into()),
            ],
        })
    );
}

#[test]
fn parser_defaults_fill_calls_everywhere() {
    let code = "function f(a, b = 2, c = 3)\n return a\nend\nsay f(1) + f(1, 5)\nsay f()\nfunction g(x, y)\n return f(g(1))\nend";
    let program = parse_code(code).expect("Parse failed");
    let call = |args: Vec<Expr>| Expr::Call { name: "f".into(), args };
    assert_eq!(
        program.statements[1],
        Stmt::Say(binary(
            call(vec![num("1"), num("2"), num("3")]),
            BinaryOp::Add,
            call(vec![num("1"), num("5"), num("3")]),
        ))
    );
    // A missing argument without a default leaves the call as written.
    assert_eq!(program.statements[2], Stmt::Say(call(vec![])));
    match &program.statements[3] {
        Stmt::Function { body, .. } => assert_eq!(
            body[0],
            Stmt::Return(Some(call(vec![
                Expr::Call { name: "g".into(), args: vec![num("1")] },
                num("2"),
                num("3"),
            ])))
        ),
        other => panic!("Expected Function, got {:?}", other),
    }
}
