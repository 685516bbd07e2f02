use alya::lexer::{Lexer, Token, TokenType};

fn lex(source: &str) -> Result<Vec<Token>, String> {
    let mut lexer = Lexer::new(source);
    lexer.tokenize()
}

fn types(source: &str) -> Vec<TokenType> {
    lex(source).expect("Tokenization failed").into_iter().map(|t| t.token_type).collect()
}

/// The value of a number token, read from its source text.
fn number(t: &TokenType) -> f64 {
    match t {
        TokenType::Number(text) => text.parse::<f64>().expect("numeric literal"),
        other => panic!("Expected a number token, got {:?}", other),
    }
}

fn num(text: &str) -> TokenType {
    TokenType::Number(text.to_string())
}

#[test]
fn test_tokenize_numbers() {
    let tokens = lex("42 3.75 0 100").expect("Tokenization failed");
    assert_eq!(number(&tokens[0].token_type), 42.0);
    assert_eq!(number(&tokens[1].token_type), 3.75);
    assert_eq!(number(&tokens[2].token_type), 0.0);
    assert_eq!(number(&tokens[3].token_type), 100.0);
    assert_eq!(tokens[4].token_type, TokenType::Eof);
}

#[test]
fn test_tokenize_keywords() {
    let expected = vec![
        TokenType::Say,
        TokenType::Let,
        TokenType::If,
        TokenType::Else,
        TokenType::While,
        TokenType::For,
        TokenType::In,
        TokenType::Function,
        TokenType::End,
        TokenType::Return,
        TokenType::Break,
        TokenType::Continue,
        TokenType::Eof,
    ];
    assert_eq!(
        types("say let if else while for in function end return break continue"),
        expected
    );
}

#[test]
fn test_tokenize_identifiers() {
    let tokens = lex("my_var totalCount x1 _private").expect("Tokenization failed");
    assert_eq!(tokens[0].token_type, TokenType::Identifier("my_var".into()));
    assert_eq!(tokens[1].token_type, TokenType::Identifier("totalCount".into()));
    assert_eq!(tokens[2].token_type, TokenType::Identifier("x1".into()));
    assert_eq!(tokens[3].token_type, TokenType::Identifier("_private".into()));
}

#[test]
fn test_tokenize_operators() {
    let expected = vec![
        TokenType::Plus,
        TokenType::Minus,
        TokenType::Multiply,
        TokenType::Divide,
        TokenType::Modulo,
        TokenType::Equal,
        TokenType::NotEqual,
        TokenType::Less,
        TokenType::LessEqual,
        TokenType::Greater,
        TokenType::GreaterEqual,
        TokenType::And,
        TokenType::Or,
        TokenType::Not,
        TokenType::Assign,
        TokenType::Eof,
    ];
    assert_eq!(types("+ - * / % == != < <= > >= and or not ="), expected);
}

#[test]
fn test_tokenize_strings_and_escapes() {
    let tokens = lex(r#""Hello, World!" "Line1\nLine2\t\"quote\"""#).expect("Tokenization failed");
    assert_eq!(tokens[0].token_type, TokenType::String("Hello, World!".into()));
    assert_eq!(tokens[1].token_type, TokenType::String("Line1\nLine2\t\"quote\"".into()));
}

#[test]
fn test_tokenize_comments() {
    assert_eq!(
        types("# This is a comment\nsay 42 # inline comment\n"),
        vec![
            TokenType::Newline,
            TokenType::Say,
            num("42"),
            TokenType::Newline,
            TokenType::Eof,
        ]
    );
}

#[test]
fn test_tokenize_unexpected_character() {
    let result = lex("say @bad");
    assert!(result.is_err());
    assert!(result.unwrap_err().contains("Unexpected character '@'"));
}

#[test]
fn test_tokenize_slash_and_multiline_comments() {
    assert_eq!(
        types("// single line\nsay 10 /* inline multiline */ + 20\n"),
        vec![
            TokenType::Newline,
            TokenType::Say,
            num("10"),
            TokenType::Plus,
            num("20"),
            TokenType::Newline,
            TokenType::Eof,
        ]
    );
}

#[test]
fn test_tokenize_compound_and_logical_operators() {
    assert_eq!(
        types("+= -= *= /= && || ! elif"),
        vec![
            TokenType::PlusAssign,
            TokenType::MinusAssign,
            TokenType::MultiplyAssign,
            TokenType::DivideAssign,
            TokenType::And,
            TokenType::Or,
            TokenType::Not,
            TokenType::Elif,
            TokenType::Eof,
        ]
    );
}

#[test]
fn test_tokenize_brackets() {
    assert_eq!(
        types("[1, 2, 3] arr[0]"),
        vec![
            TokenType::LeftBracket,
            num("1"),
            TokenType::Comma,
            num("2"),
            TokenType::Comma,
            num("3"),
            TokenType::RightBracket,
            TokenType::Identifier("arr".into()),
            TokenType::LeftBracket,
            num("0"),
            TokenType::RightBracket,
            TokenType::Eof,
        ]
    );
}

#[test]
fn lexer_positions_are_line_and_column() {
    let tokens = lex("say 1\n  let x").expect("Tokenization failed");
    let positions: Vec<(usize, usize)> = tokens.iter().map(|t| (t.line, t.column)).collect();
    assert_eq!(positions, vec![(1, 1), (1, 5), (1, 6), (2, 3), (2, 7), (2, 8)]);
}

#[test]
fn lexer_output_ends_with_eof() {
    for source in ["", "\n\n", "say 1", "x = [1, 2]\n", "# only a comment"] {
        let tokens = lex(source).expect("Tokenization failed");
        assert_eq!(tokens.last().map(|t| t.token_type.clone()), Some(TokenType::Eof));
    }
}

#[test]
fn lexer_keywords_of_this_language() {
    assert_eq!(
        types("import as struct try catch finally throw when is then repeat ask true false"),
        vec![
            TokenType::Import,
            TokenType::As,
            TokenType::Struct,
            TokenType::Try,
            TokenType::Catch,
            TokenType::Finally,
            TokenType::Throw,
            TokenType::When,
            TokenType::Is,
            TokenType::Then,
            TokenType::Repeat,
            TokenType::Ask,
            TokenType::True,
            TokenType::False,
            TokenType::Eof,
        ]
    );
}

#[test]
fn lexer_single_ampersand_is_refused() {
    let err = lex("a & b").unwrap_err();
    assert_eq!(err, "Unexpected character '&' at line 1, column 3. Did you mean '&&'?");
}

#[test]
fn lexer_unclosed_block_comment() {
    let err = lex("say 1 /* never closed").unwrap_err();
    assert_eq!(err, "Unclosed multiline comment starting at line 1, column 7");
}

#[test]
fn lexer_punctuation() {
    assert_eq!(
        types("( ) { } : :: . .. ,"),
        vec![
            TokenType::LeftParen,
            TokenType::RightParen,
            TokenType::LeftBrace,
            TokenType::RightBrace,
            TokenType::Colon,
            TokenType::ColonColon,
            TokenType::Dot,
            TokenType::DotDot,
            TokenType::Comma,
            TokenType::Eof,
        ]
    );
}
