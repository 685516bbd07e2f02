//! From source text to statements: lexing followed by parsing.

use vstd::prelude::*;
use crate::ast::{Program, StmtV, stmt_list_view};
use crate::lexer::{Lexer, Token, lex};
use crate::lexer::token::{Kind, TokenType, TokenView};
use crate::text::string_from_chars;
use crate::diagnostics::{push_chars, push_str};
use crate::text::chars_of;
use super::{Parser, kinds, well_terminated, err_text};
use crate::diagnostics::parser::{with_location, locatable, has_position, lemma_marker_free_round_trip};
use crate::lexer::messages::lemma_lex_errors_found;
use super::grammar::p_program;

verus! {

/// The kinds of lexed tokens.
pub open spec fn token_kinds(ts: Seq<TokenView>) -> Seq<Kind> {
    ts.map_values(|tv: TokenView| tv.kind)
}

/// Why a text could not be turned into statements: the lexer's message,
/// or the parser's.
pub ghost enum TextError {
    Lex(Seq<char>),
    Parse(Seq<char>),
}

/// What parsing the text `s` yields: the statements of the program, or the
/// message of the lexer or of the parser, which names the line and column
/// of the token where parsing failed.
pub open spec fn parse_text(s: Seq<char>) -> Result<Seq<StmtV>, TextError> {
    match lex(s) {
        Err(m) => Err(TextError::Lex(m)),
        Ok(ts) => match p_program(token_kinds(ts), 0) {
            Ok(v) => Ok(v),
            Err(e) => Err(TextError::Parse(
                if e.1 < ts.len() {
                    with_location(e.0, ts[e.1 as int].line, ts[e.1 as int].column)
                } else {
                    e.0
                },
            )),
        },
    }
}

/// Lexes and parses `source` as a whole program.
pub fn parse_source(source: &str) -> (r: Result<Program, String>)
    requires
        source@.len() < usize::MAX,
    ensures
        match parse_text(source@) {
            Ok(v) => r matches Ok(p) && p@ == v,
            Err(TextError::Lex(m)) => r matches Err(e) && e@ == m,
            Err(TextError::Parse(m)) => r matches Err(e) && e@ == m,
        },
        parse_text(source@) matches Err(TextError::Parse(m)) ==> locatable(m),
        r matches Err(e) ==> has_position(e@),
{
    proof {
        lemma_lex_errors_found(source@, 0);
    }
    let mut lexer = Lexer::new(source);
    let tokens = lexer.tokenize()?;
    proof {
        if let Ok(ts) = lex(source@) {
            assert(kinds(tokens@) =~= token_kinds(ts));
        }
        assert(kinds(tokens@).last() == tokens@.last().token_type@);
    }
    assert(well_terminated(kinds(tokens@)));
    let ghost tk = tokens@;
    let mut parser = Parser::new(tokens);
    let r = parser.parse();
    proof {
        lemma_parse_message(source@, tk);
        if let Err(e) = p_program(kinds(tk), 0) {
            let t = tk[e.1 as int];
            lemma_marker_free_round_trip(e.0, t.line as nat, t.column as nat);
        }
    }
    r
}

/// The parser's message over the lexed tokens `tk` of `s` is the one that
/// `parse_text` names.
proof fn lemma_parse_message(s: Seq<char>, tk: Seq<Token>)
    requires
        lex(s) matches Ok(ts) && tk.map_values(|t: Token| t@) == ts,
    ensures
        p_program(kinds(tk), 0) matches Err(e) ==> parse_text(s) == Err::<Seq<StmtV>, TextError>(
            TextError::Parse(err_text(tk, e)),
        ),
{
    let ts = lex(s)->Ok_0;
    assert(kinds(tk) =~= token_kinds(ts));
    if let Err(e) = p_program(kinds(tk), 0) {
        if e.1 < tk.len() {
            assert(ts[e.1 as int] == tk[e.1 as int]@);
        }
    }
}

/// The error for an imported module that does not lex.
pub open spec fn lexer_error_message(key: Seq<char>, m: Seq<char>) -> Seq<char> {
    "Lexer error in imported module '"@ + key + "': "@ + m
}

/// The error for an imported module that does not parse.
pub open spec fn parser_error_message(key: Seq<char>, m: Seq<char>) -> Seq<char> {
    "Parser error in imported module '"@ + key + "': "@ + m
}

/// `prefix` followed by the message `m`.
fn prefixed_message(prefix: &str, key: &str, m: &String) -> (r: String)
    ensures
        r@ == prefix@ + key@ + "': "@ + m@,
{
    let mut out: Vec<char> = Vec::new();
    push_str(&mut out, prefix);
    push_str(&mut out, key);
    push_str(&mut out, "': ");
    let mc = chars_of(m.as_str());
    push_chars(&mut out, &mc);
    string_from_chars(out.as_slice())
}

/// Lexes and parses the imported module `key` from its text `source`,
/// naming the module in the error when either fails.
pub fn load_module(key: &str, source: &str) -> (r: Result<Program, String>)
    requires
        source@.len() < usize::MAX,
    ensures
        match parse_text(source@) {
            Ok(v) => r matches Ok(p) && p@ == v,
            Err(TextError::Lex(m)) => r matches Err(e) && e@ == lexer_error_message(key@, m),
            Err(TextError::Parse(m)) => r matches Err(e) && e@ == parser_error_message(key@, m),
        },
{
    let mut lexer = Lexer::new(source);
    let tokens = match lexer.tokenize() {
        Ok(t) => t,
        Err(e) => {
            return Err(prefixed_message("Lexer error in imported module '", key, &e));
        },
    };
    proof {
        if let Ok(ts) = lex(source@) {
            assert(kinds(tokens@) =~= token_kinds(ts));
        }
        assert(kinds(tokens@).last() == tokens@.last().token_type@);
    }
    let ghost tk = tokens@;
    let mut parser = Parser::new(tokens);
    proof {
        lemma_parse_message(source@, tk);
    }
    match parser.parse() {
        Ok(p) => Ok(p),
        Err(e) => Err(prefixed_message("Parser error in imported module '", key, &e)),
    }
}

} // verus!
