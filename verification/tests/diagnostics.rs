use alya::diagnostics::{parse_error_location, render_error, Diagnostic};

fn check_parse_error_location() {
    let (msg, line, col) =
        parse_error_location("Expected identifier after 'let' at line 3, column 5");
    assert_eq!(msg, "Expected identifier after 'let'");
    assert_eq!(line, Some(3));
    assert_eq!(col, Some(5));

    let (msg, line, col) =
        parse_error_location("Unexpected character '&' at line 5, column 10. Did you mean '&&'?");
    assert_eq!(msg, "Unexpected character '&'. Did you mean '&&'?");
    assert_eq!(line, Some(5));
    assert_eq!(col, Some(10));

    let (msg, line, col) = parse_error_location("Unclosed comment starting at line 1, column 1");
    assert_eq!(msg, "Unclosed comment");
    assert_eq!(line, Some(1));
    assert_eq!(col, Some(1));

    let (msg, line, col) = parse_error_location("Expected 'end' at line 4");
    assert_eq!(msg, "Expected 'end'");
    assert_eq!(line, Some(4));
    assert_eq!(col, None);
}

fn check_render_diagnostic() {
    let source = "let a = 10\nlet = 20\nsay a\n";
    let diag = Diagnostic::new("test.alya", "Expected identifier after 'let'").with_location(2, 5);

    let rendered = diag.render(source);
    assert!(rendered.contains("error: Expected identifier after 'let'"));
    assert!(rendered.contains("--> test.alya:2:5"));
    assert!(rendered.contains("2 | let = 20"));
    assert!(rendered.contains("  |     ^"));
}

fn check_render_error_end_to_end() {
    let source = "let x = 10\nsay @bad\n";
    let err_msg = "Unexpected character '@' at line 2, column 5";
    let rendered = render_error("main.alya", source, err_msg);

    assert!(rendered.contains("error: Unexpected character '@'"));
    assert!(rendered.contains("--> main.alya:2:5"));
    assert!(rendered.contains("2 | say @bad"));
    assert!(rendered.contains("  |     ^"));
}

#[test]
fn diagnostics_test_parse_error_location() {
    check_parse_error_location();
}

#[test]
fn tests_test_parse_error_location() {
    check_parse_error_location();
}

#[test]
fn diagnostics_test_render_diagnostic() {
    check_render_diagnostic();
}

#[test]
fn tests_test_render_diagnostic() {
    check_render_diagnostic();
}

#[test]
fn diagnostics_test_render_error_end_to_end() {
    check_render_error_end_to_end();
}

#[test]
fn tests_test_render_error_end_to_end() {
    check_render_error_end_to_end();
}

#[test]
fn render_full_layout() {
    let source = "let a = 10\nlet = 20\nsay a\n";
    let diag = Diagnostic::new("test.alya", "Expected identifier after 'let'").with_location(2, 5);
    assert_eq!(
        diag.render(source),
        "error: Expected identifier after 'let'\n  --> test.alya:2:5\n   |\n 2 | let = 20\n   |     ^"
    );
}

#[test]
fn render_without_location() {
    let diag = Diagnostic::new("a.alya", "boom");
    assert_eq!(diag.render("x"), "error: boom\n  --> a.alya");
}

#[test]
fn render_line_beyond_source_has_no_snippet() {
    let diag = Diagnostic::new("a.alya", "boom").with_location(9, 1);
    assert_eq!(diag.render("x\n"), "error: boom\n  --> a.alya:9:1\n");
}

#[test]
fn render_underlines_whole_token_and_expands_tabs() {
    let source = "\tfoo_bar + 1";
    let diag = Diagnostic::new("t.alya", "bad").with_location(1, 2);
    assert_eq!(
        diag.render(source),
        "error: bad\n  --> t.alya:1:2\n   |\n 1 |     foo_bar + 1\n   |     ^^^^^^^"
    );
}

#[test]
fn render_length_widens_caret() {
    let source = "say x";
    let diag = Diagnostic::new("t.alya", "bad").with_location(1, 5).with_length(3);
    assert!(diag.render(source).ends_with("  |     ^^^"));
    let d0 = Diagnostic::new("t.alya", "bad").with_length(0);
    assert_eq!(d0.length, 1);
}

#[test]
fn render_line_only_and_wide_line_number() {
    let mut source = String::new();
    for _ in 0..11 {
        source.push_str("x\n");
    }
    let mut diag = Diagnostic::new("f", "m");
    diag.line = Some(11);
    assert_eq!(diag.render(&source), "error: m\n  --> f:11\n    |\n 11 | x\n");
}

#[test]
fn render_crlf_lines() {
    let diag = Diagnostic::new("f", "m").with_location(1, 1);
    assert_eq!(diag.render("ab\r\ncd"), "error: m\n  --> f:1:1\n   |\n 1 | ab\n   | ^^");
}

#[test]
fn parse_location_edge_cases() {
    assert_eq!(parse_error_location("no location"), ("no location".to_string(), None, None));
    assert_eq!(parse_error_location("x at line y"), ("x at line y".to_string(), None, None));
    assert_eq!(
        parse_error_location("x at line 99999999999999999999999"),
        ("x at line 99999999999999999999999".to_string(), None, None)
    );
    assert_eq!(
        parse_error_location("x at line 7, column z"),
        ("x, column z".to_string(), Some(7), None)
    );
    assert_eq!(
        parse_error_location("a starting at line 2 b at line 3"),
        ("a b at line 3".to_string(), Some(2), None)
    );
}

#[test]
fn parse_errors_are_placed_by_the_diagnostics() {
    let err = alya::parser::source::parse_source("while x\n say 1").unwrap_err();
    let (msg, line, col) = parse_error_location(&err);
    assert_eq!(msg, "Expected End, found Eof");
    assert_eq!(line, Some(2));
    assert_eq!(col, Some(7));
    let err = alya::parser::source::parse_source("let a, b = 1, 2, 3").unwrap_err();
    let (msg, line, col) = parse_error_location(&err);
    assert_eq!(msg, "Mismatch in 'let' statement: 2 variables defined but 3 values provided");
    assert_eq!((line, col), (Some(1), Some(5)));
}

#[test]
fn lex_errors_are_placed_by_the_diagnostics() {
    let err = alya::parser::source::parse_source("say 1\nsay \"open").unwrap_err();
    assert_eq!(parse_error_location(&err), ("Unterminated string".to_string(), Some(2), Some(5)));
    let err = alya::parser::source::parse_source("if a & b").unwrap_err();
    assert_eq!(
        parse_error_location(&err),
        ("Unexpected character '&'. Did you mean '&&'?".to_string(), Some(1), Some(6))
    );
    let err = alya::parser::source::parse_source("x = 1 ^ 2").unwrap_err();
    assert_eq!(parse_error_location(&err), ("Unexpected character '^'".to_string(), Some(1), Some(7)));
}

#[test]
fn render_matches_documented_example() {
    let source = "a\nb\n    let = 10\n";
    let diag = Diagnostic::new("file.alya", "Expected identifier after 'let'").with_location(3, 9);
    assert_eq!(
        diag.render(source),
        "error: Expected identifier after 'let'\n  --> file.alya:3:9\n   |\n 3 |     let = 10\n   |         ^"
    );
}

#[test]
fn render_error_renders_the_parsed_diagnostic() {
    let source = "let x = 1\nsay y\n";
    let msg = "Undefined name 'y' at line 2, column 5. Check the spelling";
    let mut diag = Diagnostic::new("f.alya", "Undefined name 'y'. Check the spelling");
    diag.line = Some(2);
    diag.column = Some(5);
    assert_eq!(render_error("f.alya", source, msg), diag.render(source));
    assert_eq!(
        parse_error_location(msg),
        ("Undefined name 'y'. Check the spelling".to_string(), Some(2), Some(5))
    );
}
