use jrust_transpiler_core::codegen::{convert_name, to_snake_case};
use jrust_transpiler_core::project::ProjectConfig;
use jrust_transpiler_core::{BinaryOp, Codegen, Expression, Lexer, Parser, Statement, TokenKind};

fn transpile(source: &str) -> String {
    let mut lexer = Lexer::new(source);
    let tokens = lexer.tokenize().expect("Lexer failed");
    let mut parser = Parser::new(tokens);
    let program = parser.parse().expect("Parser failed");
    let mut codegen = Codegen::new();
    codegen.generate(&program)
}

#[test]
fn casing_snake_inserts_underscores() {
    assert_eq!(to_snake_case("getValue"), "get_value");
    assert_eq!(to_snake_case("already_snake"), "already_snake");
    assert_eq!(to_snake_case("HTTPServer"), "http_server");
}

#[test]
fn casing_conversion_is_idempotent() {
    let once = convert_name("myVariableName");
    let twice = convert_name(&once);
    assert_eq!(once, "my_variable_name");
    assert_eq!(once, twice);

    let caps_once = convert_name("MAX_SIZE");
    let caps_twice = convert_name(&caps_once);
    assert_eq!(caps_once, "MAX_SIZE");
    assert_eq!(caps_once, caps_twice);
}

#[test]
fn tokenize_empty_input_yields_one_end_marker() {
    let mut lexer = Lexer::new("");
    let tokens = lexer.tokenize().unwrap();
    assert_eq!(tokens.len(), 1);
    assert_eq!(tokens[0].kind, TokenKind::Eof);
}

#[test]
fn tokenize_ends_with_exactly_one_end_marker() {
    let mut lexer = Lexer::new("let x: number = 1; print(x);");
    let tokens = lexer.tokenize().unwrap();
    assert_eq!(tokens.last().unwrap().kind, TokenKind::Eof);
    let eof_count = tokens.iter().filter(|t| t.kind == TokenKind::Eof).count();
    assert_eq!(eof_count, 1);
}

#[test]
fn lexer_reports_unexpected_character_with_position() {
    let mut lexer = Lexer::new("@");
    let err = lexer.tokenize().unwrap_err();
    assert_eq!(err, "Unexpected character '@' at line 1, column 1");
}

#[test]
fn lexer_reports_lone_pipe() {
    let mut lexer = Lexer::new("a | b");
    let err = lexer.tokenize().unwrap_err();
    assert_eq!(err, "Unexpected character '|' at line 1, column 3");
}

#[test]
fn lexer_reports_number_overflow() {
    let mut lexer = Lexer::new("99999999999");
    let err = lexer.tokenize().unwrap_err();
    assert_eq!(err, "Invalid number '99999999999' at line 1, column 1");
}

#[test]
fn lexer_reports_unterminated_string_start() {
    let mut lexer = Lexer::new("  \"abc");
    let err = lexer.tokenize().unwrap_err();
    assert_eq!(err, "Unterminated string at line 1, column 3");
}

#[test]
fn precedence_multiplication_binds_tighter() {
    let mut lexer = Lexer::new("5 + 3 * 2;");
    let tokens = lexer.tokenize().unwrap();
    let mut parser = Parser::new(tokens);
    let program = parser.parse().unwrap();
    assert_eq!(program.statements.len(), 1);
    match &program.statements[0] {
        Statement::ExpressionStmt(Expression::BinaryOp(left, op, right)) => {
            assert!(matches!(op, BinaryOp::Add));
            assert!(matches!(**left, Expression::NumberLiteral(5)));
            match &**right {
                Expression::BinaryOp(_, inner_op, _) => {
                    assert!(matches!(inner_op, BinaryOp::Multiply));
                }
                other => panic!("expected multiplication on the right, got {:?}", other),
            }
        }
        other => panic!("expected an addition expression statement, got {:?}", other),
    }
}

#[test]
fn precedence_output_has_no_parentheses() {
    let out = transpile("let result: number = 5 + 3 * 2;");
    assert!(out.contains("5 + 3 * 2"));
}

#[test]
fn struct_literal_disambiguation() {
    let mut lexer = Lexer::new("let p = Point { x: 1 };");
    let tokens = lexer.tokenize().unwrap();
    let mut parser = Parser::new(tokens);
    let program = parser.parse().unwrap();
    match &program.statements[0] {
        Statement::VariableDecl(decl) => {
            assert!(matches!(decl.value, Expression::StructLiteral { .. }));
        }
        other => panic!("expected a variable declaration, got {:?}", other),
    }
}

#[test]
fn if_block_is_not_a_struct_literal() {
    let mut lexer = Lexer::new("if x { print(1); }");
    let tokens = lexer.tokenize().unwrap();
    let mut parser = Parser::new(tokens);
    let program = parser.parse().unwrap();
    assert_eq!(program.statements.len(), 1);
    assert!(matches!(program.statements[0], Statement::IfElse(_)));
}

#[test]
fn concatenation_folds_into_one_format_call() {
    let out = transpile(r#"print("a" + "b" + "c");"#);
    assert!(out.contains(r#"format!("{}{}{}", "a", "b", "c")"#));
}

#[test]
fn array_sizing_policy() {
    let fixed = transpile("let a: number[number, 3] = [1,2,3];");
    assert!(fixed.contains("let mut a: [i32; 3] = [1, 2, 3];"));
    let growable = transpile("let b: number[] = [1,2,3];");
    assert!(growable.contains("let mut b: Vec<i32> = vec![1, 2, 3];"));
}

#[test]
fn end_to_end_function_and_call() {
    let out = transpile(
        "function add(a: number, b: number): number { return a + b; } print(add(2,3));",
    );
    assert!(out.starts_with("fn main() {"));
    assert!(out.contains("fn add(a: i32, b: i32) -> i32"));
    assert!(out.contains("return a + b;"));
    assert!(out.contains("add(2, 3)"));
}

#[test]
fn const_names_are_uppercased() {
    let out = transpile("const limit: number = 3;");
    assert!(out.contains("const LIMIT: i32 = 3;"));
}

#[test]
fn project_config_defaults() {
    let config = ProjectConfig::new("demo".to_string(), vec!["Someone".to_string()]);
    assert_eq!(config.package.name, "demo");
    assert_eq!(config.package.version, "0.0.1");
    assert_eq!(config.package.edition, "2021");
    assert_eq!(config.package.authors, vec!["Someone".to_string()]);
    assert_eq!(config.package.description.as_deref(), Some("A jRust project"));
}

#[test]
fn string_token_keeps_escaped_quote() {
    let mut lexer = Lexer::new("\"a\\\"b\"");
    let tokens = lexer.tokenize().unwrap();
    assert!(matches!(tokens[0].kind, TokenKind::StringLiteral(ref s) if s == "a\"b"));
}

#[test]
fn unknown_escape_passes_through() {
    let mut lexer = Lexer::new("\"a\\qb\"");
    let tokens = lexer.tokenize().unwrap();
    assert!(matches!(tokens[0].kind, TokenKind::StringLiteral(ref s) if s == "a\\qb"));
}

#[test]
fn comments_are_skipped_across_lines() {
    let mut lexer = Lexer::new("// first\nlet x: number = 1; // trailing\n// last");
    let tokens = lexer.tokenize().unwrap();
    assert_eq!(tokens[0].kind, TokenKind::Let);
    assert_eq!(tokens.last().unwrap().kind, TokenKind::Eof);
}

#[test]
fn negation_lowers_to_equality_with_false() {
    let mut lexer = Lexer::new("if !ok { print(1); }");
    let tokens = lexer.tokenize().unwrap();
    let mut parser = Parser::new(tokens);
    let program = parser.parse().unwrap();
    match &program.statements[0] {
        Statement::IfElse(stmt) => match &stmt.condition {
            Expression::BinaryOp(left, op, right) => {
                assert!(matches!(**left, Expression::Identifier(_)));
                assert!(matches!(op, BinaryOp::Equal));
                assert!(matches!(**right, Expression::BooleanLiteral(false)));
            }
            other => panic!("expected an equality test, got {:?}", other),
        },
        other => panic!("expected an if statement, got {:?}", other),
    }
    let out = transpile("if !ok { print(1); }");
    assert!(out.contains("if ok == false {"));
}

#[test]
fn method_translation_table() {
    let out = transpile("let u = name.toUpperCase();");
    assert!(out.contains("name.to_uppercase()"));
    let out2 = transpile("let l = xs.length;");
    assert!(out2.contains("xs.len() as i32"));
    let out3 = transpile("nums.push(4);");
    assert!(out3.contains("nums.push(4);"));
}
