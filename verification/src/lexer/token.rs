use vstd::prelude::*;

verus! {

/// The kinds of token the lexer produces.
#[derive(Debug, Clone, PartialEq)]
pub enum TokenType {
    // Keywords
    Say,
    Let,
    If,
    Elif,
    Else,
    While,
    For,
    In,
    Function,
    End,
    Return,
    When,
    Is,
    Then,
    Repeat,
    Break,
    Continue,
    Ask,
    Import,
    As,
    Struct,
    Try,
    Catch,
    Finally,
    Throw,
    // Literals
    /// A numeric literal, holding its source text (`42`, `3.75`).
    Number(String),
    String(String),
    Identifier(String),
    True,
    False,
    // Operators
    Plus,
    Minus,
    Multiply,
    Divide,
    Modulo,
    Assign,
    PlusAssign,
    MinusAssign,
    MultiplyAssign,
    DivideAssign,
    Equal,
    NotEqual,
    Less,
    Greater,
    LessEqual,
    GreaterEqual,
    And,
    Or,
    Not,
    // Delimiters
    LeftParen,
    RightParen,
    LeftBrace,
    RightBrace,
    LeftBracket,
    RightBracket,
    Comma,
    Dot,
    DotDot,
    Colon,
    ColonColon,
    Newline,
    // Special
    Eof,
}

/// A token with the position of its first character (both counted from 1).
#[derive(Debug, Clone, PartialEq)]
pub struct Token {
    pub token_type: TokenType,
    pub line: usize,
    pub column: usize,
}

/// What a token type denotes: the payload of a literal or identifier as a
/// character sequence, every other kind as itself.
pub ghost enum Kind {
    Number(Seq<char>),
    Str(Seq<char>),
    Ident(Seq<char>),
    Other(TokenType),
}

impl View for TokenType {
    type V = Kind;

    open spec fn view(&self) -> Kind {
        match self {
            TokenType::Number(s) => Kind::Number(s@),
            TokenType::String(s) => Kind::Str(s@),
            TokenType::Identifier(s) => Kind::Ident(s@),
            _ => Kind::Other(*self),
        }
    }
}

/// A token as the specification sees it.
pub ghost struct TokenView {
    pub kind: Kind,
    pub line: nat,
    pub column: nat,
}

impl View for Token {
    type V = TokenView;

    open spec fn view(&self) -> TokenView {
        TokenView { kind: self.token_type@, line: self.line as nat, column: self.column as nat }
    }
}

/// The kind of token a word denotes: a keyword's own kind, otherwise an
/// identifier.
pub open spec fn word_kind(w: Seq<char>) -> Kind {
    if w == "say"@ { Kind::Other(TokenType::Say) }
    else if w == "let"@ { Kind::Other(TokenType::Let) }
    else if w == "if"@ { Kind::Other(TokenType::If) }
    else if w == "elif"@ { Kind::Other(TokenType::Elif) }
    else if w == "else"@ { Kind::Other(TokenType::Else) }
    else if w == "while"@ { Kind::Other(TokenType::While) }
    else if w == "for"@ { Kind::Other(TokenType::For) }
    else if w == "in"@ { Kind::Other(TokenType::In) }
    else if w == "function"@ { Kind::Other(TokenType::Function) }
    else if w == "end"@ { Kind::Other(TokenType::End) }
    else if w == "return"@ { Kind::Other(TokenType::Return) }
    else if w == "when"@ { Kind::Other(TokenType::When) }
    else if w == "is"@ { Kind::Other(TokenType::Is) }
    else if w == "then"@ { Kind::Other(TokenType::Then) }
    else if w == "repeat"@ { Kind::Other(TokenType::Repeat) }
    else if w == "break"@ { Kind::Other(TokenType::Break) }
    else if w == "continue"@ { Kind::Other(TokenType::Continue) }
    else if w == "ask"@ { Kind::Other(TokenType::Ask) }
    else if w == "import"@ { Kind::Other(TokenType::Import) }
    else if w == "as"@ { Kind::Other(TokenType::As) }
    else if w == "struct"@ { Kind::Other(TokenType::Struct) }
    else if w == "try"@ { Kind::Other(TokenType::Try) }
    else if w == "catch"@ { Kind::Other(TokenType::Catch) }
    else if w == "finally"@ { Kind::Other(TokenType::Finally) }
    else if w == "throw"@ { Kind::Other(TokenType::Throw) }
    else if w == "true"@ { Kind::Other(TokenType::True) }
    else if w == "false"@ { Kind::Other(TokenType::False) }
    else if w == "and"@ { Kind::Other(TokenType::And) }
    else if w == "or"@ { Kind::Other(TokenType::Or) }
    else if w == "not"@ { Kind::Other(TokenType::Not) }
    else { Kind::Ident(w) }
}

} // verus!
