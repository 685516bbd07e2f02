//! The parser: builds the syntax tree of a program from its tokens.

pub mod expr;
pub mod grammar;
pub mod imports;
pub mod source;
pub mod resolve;
pub mod stmt;
pub mod placeholders;
pub mod defaults;

use vstd::prelude::*;
use crate::lexer::{Token, TokenType};
use crate::lexer::token::Kind;
use crate::text::string_from_chars;
use crate::diagnostics::push_str;
use crate::lexer::location_text;
use crate::diagnostics::parser::{with_location, marker_free, space_at};

verus! {

/// Why parsing failed: the text of the message, and the index of the
/// token whose position the message reports.
pub type PErr = (Seq<char>, nat);

/// The message of the failure `e` over `tokens`: its text followed by the
/// line and column of its token (the text alone for an index past the
/// tokens, which the parser never reports).
pub open spec fn err_text(tokens: Seq<Token>, e: PErr) -> Seq<char> {
    if e.1 < tokens.len() {
        with_location(e.0, tokens[e.1 as int].line as nat, tokens[e.1 as int].column as nat)
    } else {
        e.0
    }
}

/// Whether `m` is the message of the failure `e` over `tokens`, reported
/// at one of the tokens with a text that holds no location marker.
pub open spec fn reports(tokens: Seq<Token>, e: PErr, m: Seq<char>) -> bool {
    &&& m == err_text(tokens, e)
    &&& e.1 < tokens.len()
    &&& marker_free(e.0)
}

/// The name of a token type as error messages show it.
pub open spec fn token_type_name(t: TokenType) -> Seq<char> {
    match t {
        TokenType::Number(_) => "Number"@,
        TokenType::String(_) => "String"@,
        TokenType::Identifier(_) => "Identifier"@,
        TokenType::Say => "Say"@,
        TokenType::Let => "Let"@,
        TokenType::If => "If"@,
        TokenType::Elif => "Elif"@,
        TokenType::Else => "Else"@,
        TokenType::While => "While"@,
        TokenType::For => "For"@,
        TokenType::In => "In"@,
        TokenType::Function => "Function"@,
        TokenType::End => "End"@,
        TokenType::Return => "Return"@,
        TokenType::When => "When"@,
        TokenType::Is => "Is"@,
        TokenType::Then => "Then"@,
        TokenType::Repeat => "Repeat"@,
        TokenType::Break => "Break"@,
        TokenType::Continue => "Continue"@,
        TokenType::Ask => "Ask"@,
        TokenType::Import => "Import"@,
        TokenType::As => "As"@,
        TokenType::Struct => "Struct"@,
        TokenType::Try => "Try"@,
        TokenType::Catch => "Catch"@,
        TokenType::Finally => "Finally"@,
        TokenType::Throw => "Throw"@,
        TokenType::True => "True"@,
        TokenType::False => "False"@,
        TokenType::Plus => "Plus"@,
        TokenType::Minus => "Minus"@,
        TokenType::Multiply => "Multiply"@,
        TokenType::Divide => "Divide"@,
        TokenType::Modulo => "Modulo"@,
        TokenType::Assign => "Assign"@,
        TokenType::PlusAssign => "PlusAssign"@,
        TokenType::MinusAssign => "MinusAssign"@,
        TokenType::MultiplyAssign => "MultiplyAssign"@,
        TokenType::DivideAssign => "DivideAssign"@,
        TokenType::Equal => "Equal"@,
        TokenType::NotEqual => "NotEqual"@,
        TokenType::Less => "Less"@,
        TokenType::Greater => "Greater"@,
        TokenType::LessEqual => "LessEqual"@,
        TokenType::GreaterEqual => "GreaterEqual"@,
        TokenType::And => "And"@,
        TokenType::Or => "Or"@,
        TokenType::Not => "Not"@,
        TokenType::LeftParen => "LeftParen"@,
        TokenType::RightParen => "RightParen"@,
        TokenType::LeftBrace => "LeftBrace"@,
        TokenType::RightBrace => "RightBrace"@,
        TokenType::LeftBracket => "LeftBracket"@,
        TokenType::RightBracket => "RightBracket"@,
        TokenType::Comma => "Comma"@,
        TokenType::Dot => "Dot"@,
        TokenType::DotDot => "DotDot"@,
        TokenType::Colon => "Colon"@,
        TokenType::ColonColon => "ColonColon"@,
        TokenType::Newline => "Newline"@,
        TokenType::Eof => "Eof"@,
    }
}

/// The name of a token of kind `k` as error messages show it.
pub open spec fn kind_name(k: Kind) -> Seq<char> {
    match k {
        Kind::Number(_) => "Number"@,
        Kind::Str(_) => "String"@,
        Kind::Ident(_) => "Identifier"@,
        Kind::Other(t) => token_type_name(t),
    }
}

/// The failure of expecting a token of type `k` at `p`.
pub open spec fn expected_err(t: Seq<Kind>, p: nat, k: TokenType) -> PErr {
    ("Expected "@ + token_type_name(k) + ", found "@ + kind_name(kind(t, p)), p)
}

/// The failure at `p` for a token that cannot start an expression.
pub open spec fn unexpected(t: Seq<Kind>, p: nat) -> PErr {
    ("Unexpected token "@ + kind_name(kind(t, p)), p)
}

/// A token name: a capital letter first, and no space.
pub open spec fn is_name(n: Seq<char>) -> bool {
    &&& n.len() > 0
    &&& 'A' <= n[0] <= 'Z'
    &&& forall|i: int| 0 <= i < n.len() ==> n[i] != ' '
}

/// Every token type's name is a name.
pub proof fn lemma_token_type_name(t: TokenType)
    ensures
        is_name(token_type_name(t)),
{
    match t {
        TokenType::Number(_) => {
            reveal_strlit("Number");
        },
        TokenType::String(_) => {
            reveal_strlit("String");
        },
        TokenType::Identifier(_) => {
            reveal_strlit("Identifier");
        },
        TokenType::Say => {
            reveal_strlit("Say");
        },
        TokenType::Let => {
            reveal_strlit("Let");
        },
        TokenType::If => {
            reveal_strlit("If");
        },
        TokenType::Elif => {
            reveal_strlit("Elif");
        },
        TokenType::Else => {
            reveal_strlit("Else");
        },
        TokenType::While => {
            reveal_strlit("While");
        },
        TokenType::For => {
            reveal_strlit("For");
        },
        TokenType::In => {
            reveal_strlit("In");
        },
        TokenType::Function => {
            reveal_strlit("Function");
        },
        TokenType::End => {
            reveal_strlit("End");
        },
        TokenType::Return => {
            reveal_strlit("Return");
        },
        TokenType::When => {
            reveal_strlit("When");
        },
        TokenType::Is => {
            reveal_strlit("Is");
        },
        TokenType::Then => {
            reveal_strlit("Then");
        },
        TokenType::Repeat => {
            reveal_strlit("Repeat");
        },
        TokenType::Break => {
            reveal_strlit("Break");
        },
        TokenType::Continue => {
            reveal_strlit("Continue");
        },
        TokenType::Ask => {
            reveal_strlit("Ask");
        },
        TokenType::Import => {
            reveal_strlit("Import");
        },
        TokenType::As => {
            reveal_strlit("As");
        },
        TokenType::Struct => {
            reveal_strlit("Struct");
        },
        TokenType::Try => {
            reveal_strlit("Try");
        },
        TokenType::Catch => {
            reveal_strlit("Catch");
        },
        TokenType::Finally => {
            reveal_strlit("Finally");
        },
        TokenType::Throw => {
            reveal_strlit("Throw");
        },
        TokenType::True => {
            reveal_strlit("True");
        },
        TokenType::False => {
            reveal_strlit("False");
        },
        TokenType::Plus => {
            reveal_strlit("Plus");
        },
        TokenType::Minus => {
            reveal_strlit("Minus");
        },
        TokenType::Multiply => {
            reveal_strlit("Multiply");
        },
        TokenType::Divide => {
            reveal_strlit("Divide");
        },
        TokenType::Modulo => {
            reveal_strlit("Modulo");
        },
        TokenType::Assign => {
            reveal_strlit("Assign");
        },
        TokenType::PlusAssign => {
            reveal_strlit("PlusAssign");
        },
        TokenType::MinusAssign => {
            reveal_strlit("MinusAssign");
        },
        TokenType::MultiplyAssign => {
            reveal_strlit("MultiplyAssign");
        },
        TokenType::DivideAssign => {
            reveal_strlit("DivideAssign");
        },
        TokenType::Equal => {
            reveal_strlit("Equal");
        },
        TokenType::NotEqual => {
            reveal_strlit("NotEqual");
        },
        TokenType::Less => {
            reveal_strlit("Less");
        },
        TokenType::Greater => {
            reveal_strlit("Greater");
        },
        TokenType::LessEqual => {
            reveal_strlit("LessEqual");
        },
        TokenType::GreaterEqual => {
            reveal_strlit("GreaterEqual");
        },
        TokenType::And => {
            reveal_strlit("And");
        },
        TokenType::Or => {
            reveal_strlit("Or");
        },
        TokenType::Not => {
            reveal_strlit("Not");
        },
        TokenType::LeftParen => {
            reveal_strlit("LeftParen");
        },
        TokenType::RightParen => {
            reveal_strlit("RightParen");
        },
        TokenType::LeftBrace => {
            reveal_strlit("LeftBrace");
        },
        TokenType::RightBrace => {
            reveal_strlit("RightBrace");
        },
        TokenType::LeftBracket => {
            reveal_strlit("LeftBracket");
        },
        TokenType::RightBracket => {
            reveal_strlit("RightBracket");
        },
        TokenType::Comma => {
            reveal_strlit("Comma");
        },
        TokenType::Dot => {
            reveal_strlit("Dot");
        },
        TokenType::DotDot => {
            reveal_strlit("DotDot");
        },
        TokenType::Colon => {
            reveal_strlit("Colon");
        },
        TokenType::ColonColon => {
            reveal_strlit("ColonColon");
        },
        TokenType::Newline => {
            reveal_strlit("Newline");
        },
        TokenType::Eof => {
            reveal_strlit("Eof");
        },
    }
}

/// Every token kind's name is a name.
pub proof fn lemma_kind_name(k: Kind)
    ensures
        is_name(kind_name(k)),
{
    match k {
        Kind::Number(_) => {
            reveal_strlit("Number");
        },
        Kind::Str(_) => {
            reveal_strlit("String");
        },
        Kind::Ident(_) => {
            reveal_strlit("Identifier");
        },
        Kind::Other(t) => {
            lemma_token_type_name(t);
        },
    }
}

/// The text of an expected-token failure holds no location marker.
pub proof fn lemma_expected_free(t: Seq<Kind>, p: nat, k: TokenType)
    ensures
        marker_free(expected_err(t, p, k).0),
{
    reveal_strlit("Expected ");
    reveal_strlit(", found ");
    reveal_strlit(" starting");
    lemma_token_type_name(k);
    lemma_kind_name(kind(t, p));
    let a = token_type_name(k);
    let b = kind_name(kind(t, p));
    let m = "Expected "@ + a + ", found "@ + b;
    assert(m == expected_err(t, p, k).0);
    let x = 9 + a.len();
    let y = x + 8;
    assert forall|i: int| !#[trigger] space_at(m, i) by {
        if space_at(m, i) {
            if i < 9 {
                assert(m[i] == "Expected "@[i]);
                if i == 8 {
                    assert(m[i + 1] == a[0]);
                } else {
                    assert(i + 1 < 9);
                    assert(m[i + 1] == "Expected "@[i + 1]);
                }
            } else if i < x {
                assert(m[i] == a[i - 9]);
            } else if i < y {
                assert(m[i] == ", found "@[i - x]);
                if i + 1 < y {
                    assert(m[i + 1] == ", found "@[i + 1 - x]);
                } else {
                    assert(m[i + 1] == b[0]);
                }
            } else {
                assert(m[i] == b[i - y]);
            }
        }
    }
    if m.len() >= 9 && m.skip(m.len() - 9) == " starting"@ {
        let w = m.skip(m.len() - 9);
        if b.len() >= 9 {
            assert(w[0] == b[b.len() - 9]);
        } else {
            let j = 9 - b.len();
            assert(w[j] == b[0]);
            assert(w[j] == " starting"@[j]);
        }
    }
}

/// The text of an unexpected-token failure holds no location marker.
pub proof fn lemma_unexpected_free(t: Seq<Kind>, p: nat)
    ensures
        marker_free(unexpected(t, p).0),
{
    reveal_strlit("Unexpected token ");
    reveal_strlit(" starting");
    lemma_kind_name(kind(t, p));
    let b = kind_name(kind(t, p));
    let m = "Unexpected token "@ + b;
    assert(m == unexpected(t, p).0);
    assert forall|i: int| !#[trigger] space_at(m, i) by {
        if space_at(m, i) {
            if i < 17 {
                assert(m[i] == "Unexpected token "@[i]);
                if i == 16 {
                    assert(m[i + 1] == b[0]);
                } else {
                    assert(m[i + 1] == "Unexpected token "@[i + 1]);
                }
            } else {
                assert(m[i] == b[i - 17]);
            }
        }
    }
    if m.len() >= 9 && m.skip(m.len() - 9) == " starting"@ {
        let w = m.skip(m.len() - 9);
        if b.len() >= 9 {
            assert(w[0] == b[b.len() - 9]);
        } else {
            let j = 9 - b.len();
            assert(w[j] == b[0]);
            assert(w[j] == " starting"@[j]);
        }
    }
}

/// A text with no space followed by `at` that does not end in `g` holds no
/// location marker.
proof fn lemma_free_text(m: Seq<char>)
    requires
        forall|i: int| !#[trigger] space_at(m, i),
        m.len() > 0,
        m.last() != 'g',
    ensures
        marker_free(m),
{
    reveal_strlit(" starting");
    if m.len() >= 9 && m.skip(m.len() - 9) == " starting"@ {
        assert(m.skip(m.len() - 9)[8] == m.last());
    }
}

/// The fixed texts of the parser's failures hold no location marker.
pub proof fn lemma_messages_free()
    ensures
        marker_free("Cannot assign to this expression"@),
        marker_free("Empty 'when' statement"@),
        marker_free("Expected ',' or ']' after array element"@),
        marker_free("Expected ':' or '=' after field name"@),
        marker_free("Expected 'catch' or 'finally'"@),
        marker_free("Expected 'end'"@),
        marker_free("Expected 'is' or 'else' in 'when' block"@),
        marker_free("Expected field name after '.'"@),
        marker_free("Expected field name in struct initialization"@),
        marker_free("Expected field name or 'end'"@),
        marker_free("Expected function name"@),
        marker_free("Expected identifier after '::' in name"@),
        marker_free("Expected identifier after 'as'"@),
        marker_free("Expected identifier after 'for'"@),
        marker_free("Expected identifier after 'let'"@),
        marker_free("Expected identifier in 'catch'"@),
        marker_free("Expected parameter name"@),
        marker_free("Expected string literal after 'import'"@),
        marker_free("Expected struct name"@),
{
    reveal_strlit("Cannot assign to this expression");
    lemma_free_text("Cannot assign to this expression"@);
    reveal_strlit("Empty 'when' statement");
    lemma_free_text("Empty 'when' statement"@);
    reveal_strlit("Expected ',' or ']' after array element");
    lemma_free_text("Expected ',' or ']' after array element"@);
    reveal_strlit("Expected ':' or '=' after field name");
    lemma_free_text("Expected ':' or '=' after field name"@);
    reveal_strlit("Expected 'catch' or 'finally'");
    lemma_free_text("Expected 'catch' or 'finally'"@);
    reveal_strlit("Expected 'end'");
    lemma_free_text("Expected 'end'"@);
    reveal_strlit("Expected 'is' or 'else' in 'when' block");
    lemma_free_text("Expected 'is' or 'else' in 'when' block"@);
    reveal_strlit("Expected field name after '.'");
    lemma_free_text("Expected field name after '.'"@);
    reveal_strlit("Expected field name in struct initialization");
    lemma_free_text("Expected field name in struct initialization"@);
    reveal_strlit("Expected field name or 'end'");
    lemma_free_text("Expected field name or 'end'"@);
    reveal_strlit("Expected function name");
    lemma_free_text("Expected function name"@);
    reveal_strlit("Expected identifier after '::' in name");
    lemma_free_text("Expected identifier after '::' in name"@);
    reveal_strlit("Expected identifier after 'as'");
    lemma_free_text("Expected identifier after 'as'"@);
    reveal_strlit("Expected identifier after 'for'");
    lemma_free_text("Expected identifier after 'for'"@);
    reveal_strlit("Expected identifier after 'let'");
    lemma_free_text("Expected identifier after 'let'"@);
    reveal_strlit("Expected identifier in 'catch'");
    lemma_free_text("Expected identifier in 'catch'"@);
    reveal_strlit("Expected parameter name");
    lemma_free_text("Expected parameter name"@);
    reveal_strlit("Expected string literal after 'import'");
    lemma_free_text("Expected string literal after 'import'"@);
    reveal_strlit("Expected struct name");
    lemma_free_text("Expected struct name"@);
}

/// The kind of token `i` of `t`.
pub open spec fn kind(t: Seq<Kind>, i: nat) -> Kind {
    t[i as int]
}

/// The kinds of the tokens of `v`.
pub open spec fn kinds(v: Seq<Token>) -> Seq<Kind> {
    v.map_values(|tk: Token| tk.token_type@)
}

/// Whether token `i` of `t` is of the payload-free type `k`.
pub open spec fn is(t: Seq<Kind>, i: nat, k: TokenType) -> bool {
    kind(t, i) == Kind::Other(k)
}

/// The position after `p`; the last token is never passed.
pub open spec fn adv(t: Seq<Kind>, p: nat) -> nat {
    if p + 1 < t.len() {
        p + 1
    } else {
        p
    }
}

/// The first position at or after `p` that does not hold a newline.
pub open spec fn skip_nl(t: Seq<Kind>, p: nat) -> nat
    decreases t.len() - p,
{
    if p + 1 < t.len() && is(t, p, TokenType::Newline) {
        skip_nl(t, p + 1)
    } else {
        p
    }
}

/// Token lists the parser accepts: non-empty and ending with `Eof`.
pub open spec fn well_terminated(t: Seq<Kind>) -> bool {
    t.len() > 0 && is(t, (t.len() - 1) as nat, TokenType::Eof)
}

pub proof fn lemma_skip_nl(t: Seq<Kind>, p: nat)
    requires
        p < t.len(),
    ensures
        p <= skip_nl(t, p) < t.len(),
        !(skip_nl(t, p) + 1 < t.len() && is(t, skip_nl(t, p), TokenType::Newline)),
    decreases t.len() - p,
{
    if p + 1 < t.len() && is(t, p, TokenType::Newline) {
        lemma_skip_nl(t, p + 1);
    }
}

/// A parser over a token list, positioned at one of its tokens.
pub struct Parser {
    pub tokens: Vec<Token>,
    pub position: usize,
}

impl Parser {
    /// The kinds of the tokens being parsed.
    pub open spec fn toks(&self) -> Seq<Kind> {
        kinds(self.tokens@)
    }

    /// The position of the current token.
    pub open spec fn pos(&self) -> nat {
        self.position as nat
    }

    /// The tokens end with `Eof` and the position is inside them.
    pub open spec fn wf(&self) -> bool {
        well_terminated(self.toks()) && self.position < self.tokens@.len()
    }

    /// A parser at the first of `tokens`, which must end with `Eof` as
    /// the lexer's output does.
    pub fn new(tokens: Vec<Token>) -> (p: Self)
        requires
            well_terminated(kinds(tokens@)),
        ensures
            p.wf(),
            p.tokens@ == tokens@,
            p.pos() == 0,
    {
        Parser { tokens, position: 0 }
    }

    /// The current token.
    pub fn current_token(&self) -> (t: &Token)
        requires
            self.wf(),
        ensures
            *t == self.tokens@[self.pos() as int],
    {
        &self.tokens[self.position]
    }

    /// The token after the current one, or the last token when the current
    /// one is the last.
    pub fn peek_token(&self) -> (t: &Token)
        requires
            self.wf(),
        ensures
            *t == self.tokens@[adv(self.toks(), self.pos()) as int],
    {
        if self.position < self.tokens.len() - 1 {
            &self.tokens[self.position + 1]
        } else {
            &self.tokens[self.position]
        }
    }

    /// Moves to the next token, never past the last.
    pub fn advance(&mut self)
        requires
            old(self).wf(),
        ensures
            final(self).wf(),
            final(self).tokens@ == old(self).tokens@,
            final(self).pos() == adv(old(self).toks(), old(self).pos()),
    {
        if self.position < self.tokens.len() - 1 {
            self.position = self.position + 1;
        }
    }

    /// Moves past newline tokens.
    pub fn skip_newlines(&mut self)
        requires
            old(self).wf(),
        ensures
            final(self).wf(),
            final(self).tokens@ == old(self).tokens@,
            final(self).pos() == skip_nl(old(self).toks(), old(self).pos()),
    {
        while self.position < self.tokens.len() - 1 && matches!(
            self.tokens[self.position].token_type,
            TokenType::Newline
        )
            invariant
                self.wf(),
                self.tokens@ == old(self).tokens@,
                skip_nl(old(self).toks(), old(self).position as nat) == skip_nl(
                    self.toks(),
                    self.position as nat,
                ),
            decreases self.toks().len() - self.position,
        {
            self.position = self.position + 1;
        }
        assert(!(self.position + 1 < self.toks().len() && is(
            self.toks(),
            self.position as nat,
            TokenType::Newline,
        )));
    }

    /// Whether the current token is of the payload-free type `k`.
    pub fn at(&self, k: &TokenType) -> (b: bool)
        requires
            self.wf(),
            k@ == Kind::Other(*k),
        ensures
            b == is(self.toks(), self.pos(), *k),
    {
        token_is(&self.tokens[self.position].token_type, k)
    }

    /// Moves past a token of type `expected`; fails if the current token
    /// is of another type.
    pub fn expect(&mut self, expected: TokenType) -> (r: Result<(), String>)
        requires
            old(self).wf(),
            expected@ == Kind::Other(expected),
        ensures
            final(self).wf(),
            final(self).tokens@ == old(self).tokens@,
            r is Ok <==> is(old(self).toks(), old(self).pos(), expected),
            r is Ok ==> final(self).pos() == adv(old(self).toks(), old(self).pos()),
            r is Err ==> final(self).pos() == old(self).pos(),
            r matches Err(m) ==> reports(
                old(self).tokens@,
                expected_err(old(self).toks(), old(self).pos(), expected),
                m@,
            ),
    {
        if !self.at(&expected) {
            let mut m: Vec<char> = Vec::new();
            push_str(&mut m, "Expected ");
            push_str(&mut m, token_name(&expected));
            push_str(&mut m, ", found ");
            push_str(&mut m, token_name(&self.current_token().token_type));
            let prefix = string_from_chars(m.as_slice());
            proof {
                assert(self.toks()[self.pos() as int] == self.tokens@[self.pos() as int].token_type@);
                lemma_expected_free(self.toks(), self.pos(), expected);
            }
            return Err(self.error_here(prefix.as_str()));
        }
        self.advance();
        Ok(())
    }

    /// `prefix` followed by the position of the current token.
    pub fn error_here(&self, prefix: &str) -> (m: String)
        requires
            self.wf(),
            marker_free(prefix@),
        ensures
            reports(self.tokens@, (prefix@, self.pos()), m@),
    {
        let t = self.current_token();
        location_text(prefix, t.line, t.column)
    }
}

/// The name of a token type as error messages show it.
pub fn token_name(t: &TokenType) -> (r: &'static str)
    ensures
        r@ == kind_name(t@),
{
    match t {
        TokenType::Number(_) => "Number",
        TokenType::String(_) => "String",
        TokenType::Identifier(_) => "Identifier",
        TokenType::Say => "Say",
        TokenType::Let => "Let",
        TokenType::If => "If",
        TokenType::Elif => "Elif",
        TokenType::Else => "Else",
        TokenType::While => "While",
        TokenType::For => "For",
        TokenType::In => "In",
        TokenType::Function => "Function",
        TokenType::End => "End",
        TokenType::Return => "Return",
        TokenType::When => "When",
        TokenType::Is => "Is",
        TokenType::Then => "Then",
        TokenType::Repeat => "Repeat",
        TokenType::Break => "Break",
        TokenType::Continue => "Continue",
        TokenType::Ask => "Ask",
        TokenType::Import => "Import",
        TokenType::As => "As",
        TokenType::Struct => "Struct",
        TokenType::Try => "Try",
        TokenType::Catch => "Catch",
        TokenType::Finally => "Finally",
        TokenType::Throw => "Throw",
        TokenType::True => "True",
        TokenType::False => "False",
        TokenType::Plus => "Plus",
        TokenType::Minus => "Minus",
        TokenType::Multiply => "Multiply",
        TokenType::Divide => "Divide",
        TokenType::Modulo => "Modulo",
        TokenType::Assign => "Assign",
        TokenType::PlusAssign => "PlusAssign",
        TokenType::MinusAssign => "MinusAssign",
        TokenType::MultiplyAssign => "MultiplyAssign",
        TokenType::DivideAssign => "DivideAssign",
        TokenType::Equal => "Equal",
        TokenType::NotEqual => "NotEqual",
        TokenType::Less => "Less",
        TokenType::Greater => "Greater",
        TokenType::LessEqual => "LessEqual",
        TokenType::GreaterEqual => "GreaterEqual",
        TokenType::And => "And",
        TokenType::Or => "Or",
        TokenType::Not => "Not",
        TokenType::LeftParen => "LeftParen",
        TokenType::RightParen => "RightParen",
        TokenType::LeftBrace => "LeftBrace",
        TokenType::RightBrace => "RightBrace",
        TokenType::LeftBracket => "LeftBracket",
        TokenType::RightBracket => "RightBracket",
        TokenType::Comma => "Comma",
        TokenType::Dot => "Dot",
        TokenType::DotDot => "DotDot",
        TokenType::Colon => "Colon",
        TokenType::ColonColon => "ColonColon",
        TokenType::Newline => "Newline",
        TokenType::Eof => "Eof",
    }
}

/// Whether `a` is the payload-free token type `b`.
pub fn token_is(a: &TokenType, b: &TokenType) -> (r: bool)
    requires
        b@ == Kind::Other(*b),
    ensures
        r == (a@ == Kind::Other(*b)),
{
    match (a, b) {
        (TokenType::Say, TokenType::Say) => true,
        (TokenType::Let, TokenType::Let) => true,
        (TokenType::If, TokenType::If) => true,
        (TokenType::Elif, TokenType::Elif) => true,
        (TokenType::Else, TokenType::Else) => true,
        (TokenType::While, TokenType::While) => true,
        (TokenType::For, TokenType::For) => true,
        (TokenType::In, TokenType::In) => true,
        (TokenType::Function, TokenType::Function) => true,
        (TokenType::End, TokenType::End) => true,
        (TokenType::Return, TokenType::Return) => true,
        (TokenType::When, TokenType::When) => true,
        (TokenType::Is, TokenType::Is) => true,
        (TokenType::Then, TokenType::Then) => true,
        (TokenType::Repeat, TokenType::Repeat) => true,
        (TokenType::Break, TokenType::Break) => true,
        (TokenType::Continue, TokenType::Continue) => true,
        (TokenType::Ask, TokenType::Ask) => true,
        (TokenType::Import, TokenType::Import) => true,
        (TokenType::As, TokenType::As) => true,
        (TokenType::Struct, TokenType::Struct) => true,
        (TokenType::Try, TokenType::Try) => true,
        (TokenType::Catch, TokenType::Catch) => true,
        (TokenType::Finally, TokenType::Finally) => true,
        (TokenType::Throw, TokenType::Throw) => true,
        (TokenType::True, TokenType::True) => true,
        (TokenType::False, TokenType::False) => true,
        (TokenType::Plus, TokenType::Plus) => true,
        (TokenType::Minus, TokenType::Minus) => true,
        (TokenType::Multiply, TokenType::Multiply) => true,
        (TokenType::Divide, TokenType::Divide) => true,
        (TokenType::Modulo, TokenType::Modulo) => true,
        (TokenType::Assign, TokenType::Assign) => true,
        (TokenType::PlusAssign, TokenType::PlusAssign) => true,
        (TokenType::MinusAssign, TokenType::MinusAssign) => true,
        (TokenType::MultiplyAssign, TokenType::MultiplyAssign) => true,
        (TokenType::DivideAssign, TokenType::DivideAssign) => true,
        (TokenType::Equal, TokenType::Equal) => true,
        (TokenType::NotEqual, TokenType::NotEqual) => true,
        (TokenType::Less, TokenType::Less) => true,
        (TokenType::Greater, TokenType::Greater) => true,
        (TokenType::LessEqual, TokenType::LessEqual) => true,
        (TokenType::GreaterEqual, TokenType::GreaterEqual) => true,
        (TokenType::And, TokenType::And) => true,
        (TokenType::Or, TokenType::Or) => true,
        (TokenType::Not, TokenType::Not) => true,
        (TokenType::LeftParen, TokenType::LeftParen) => true,
        (TokenType::RightParen, TokenType::RightParen) => true,
        (TokenType::LeftBrace, TokenType::LeftBrace) => true,
        (TokenType::RightBrace, TokenType::RightBrace) => true,
        (TokenType::LeftBracket, TokenType::LeftBracket) => true,
        (TokenType::RightBracket, TokenType::RightBracket) => true,
        (TokenType::Comma, TokenType::Comma) => true,
        (TokenType::Dot, TokenType::Dot) => true,
        (TokenType::DotDot, TokenType::DotDot) => true,
        (TokenType::Colon, TokenType::Colon) => true,
        (TokenType::ColonColon, TokenType::ColonColon) => true,
        (TokenType::Newline, TokenType::Newline) => true,
        (TokenType::Eof, TokenType::Eof) => true,
        _ => false,
    }
}

} // verus!
