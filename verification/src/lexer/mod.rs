//! The lexer: turns source text into a sequence of tokens, each tagged
//! with the line and column where it starts.

pub mod token;
pub mod messages;

pub use token::{Token, TokenType};

use vstd::prelude::*;
use crate::text::{
    chars_of, string_from_chars, decimal, push_decimal, is_alphanumeric, is_alphabetic,
    unicode_alphanumeric, unicode_alphabetic, is_ascii_digit,
};
use crate::diagnostics::{push_str, push_chars};
use token::{Kind, TokenView, word_kind};

verus! {

/// The line and column (both from 1) of offset `pos` in `s`: each newline
/// before `pos` starts a new line, every other character moves one column.
pub open spec fn line_col(s: Seq<char>, pos: nat) -> (nat, nat)
    decreases pos,
{
    if pos == 0 || pos > s.len() {
        (1, 1)
    } else {
        let (l, c) = line_col(s, (pos - 1) as nat);
        if s[pos - 1] == '\n' {
            (l + 1, 1)
        } else {
            (l, c + 1)
        }
    }
}

/// The number of newlines in `s`.
pub open spec fn newline_count(s: Seq<char>) -> nat
    decreases s.len(),
{
    if s.len() == 0 {
        0
    } else {
        newline_count(s.drop_last()) + if s.last() == '\n' {
            1nat
        } else {
            0nat
        }
    }
}

/// The characters of `s` after its last newline.
pub open spec fn last_line(s: Seq<char>) -> Seq<char>
    decreases s.len(),
{
    if s.len() == 0 {
        s
    } else if s.last() == '\n' {
        seq![]
    } else {
        last_line(s.drop_last()).push(s.last())
    }
}

/// The line of an offset is one more than the newlines before it, and its
/// column one more than the characters since the last of them.
pub proof fn lemma_line_col_counts(s: Seq<char>, pos: nat)
    requires
        pos <= s.len(),
    ensures
        line_col(s, pos) == (1 + newline_count(s.take(pos as int)), 1 + last_line(
            s.take(pos as int),
        ).len()),
    decreases pos,
{
    if pos > 0 {
        lemma_line_col_counts(s, (pos - 1) as nat);
        assert(s.take(pos as int).drop_last() =~= s.take(pos - 1));
        assert(s.take(pos as int).last() == s[pos - 1]);
    } else {
        assert(s.take(0) =~= Seq::<char>::empty());
    }
}

/// `msg` followed by the position of offset `pos` of `s`.
pub open spec fn located(msg: Seq<char>, s: Seq<char>, pos: nat) -> Seq<char> {
    msg + " at line "@ + decimal(line_col(s, pos).0) + ", column "@ + decimal(line_col(s, pos).1)
}

/// Characters that separate tokens without producing one.
pub open spec fn is_blank(c: char) -> bool {
    c == ' ' || c == '\t' || c == '\r'
}

/// The end of the run of blanks starting at `i`.
pub open spec fn blank_end(s: Seq<char>, i: nat) -> nat
    decreases s.len() - i,
{
    if i < s.len() && is_blank(s[i as int]) {
        blank_end(s, i + 1)
    } else {
        i
    }
}

/// The offset of the first newline at or after `i` (or the end of `s`).
pub open spec fn line_end(s: Seq<char>, i: nat) -> nat
    decreases s.len() - i,
{
    if i < s.len() && s[i as int] != '\n' {
        line_end(s, i + 1)
    } else {
        i
    }
}

/// The offset just after the first `*/` found scanning from `i`.
pub open spec fn block_comment_end(s: Seq<char>, i: nat) -> Option<nat>
    decreases s.len() - i,
{
    if i >= s.len() {
        None
    } else if s[i as int] == '*' && i + 1 < s.len() && s[i + 1 as int] == '/' {
        Some(i + 2)
    } else {
        block_comment_end(s, i + 1)
    }
}

/// Characters that continue an identifier.
pub open spec fn is_word_char(c: char) -> bool {
    unicode_alphanumeric(c) || c == '_'
}

/// The end of the identifier starting at `i`.
pub open spec fn word_end(s: Seq<char>, i: nat) -> nat
    decreases s.len() - i,
{
    if i < s.len() && is_word_char(s[i as int]) {
        word_end(s, i + 1)
    } else {
        i
    }
}

/// The end of the number whose digits continue at `i`; `has_dot` tells
/// whether a decimal point has been read already.
pub open spec fn number_end(s: Seq<char>, i: nat, has_dot: bool) -> nat
    decreases s.len() - i,
{
    if i < s.len() && is_ascii_digit(s[i as int]) {
        number_end(s, i + 1, has_dot)
    } else if i + 1 < s.len() && s[i as int] == '.' && !has_dot && is_ascii_digit(s[i + 1 as int]) {
        number_end(s, i + 1, true)
    } else {
        i
    }
}

/// The end of the number literal starting at `i`.
pub open spec fn number_literal_end(s: Seq<char>, i: nat) -> nat {
    if i < s.len() && s[i as int] == '.' {
        number_end(s, i + 1, true)
    } else {
        number_end(s, i, false)
    }
}

/// The character that the escape `\c` denotes in a quoted string.
pub open spec fn escaped(c: char) -> char {
    if c == 'n' {
        '\n'
    } else if c == 't' {
        '\t'
    } else if c == 'r' {
        '\r'
    } else if c == 'e' {
        '\x1b'
    } else {
        c
    }
}

/// The contents of the quoted string whose body continues at `i`, and the
/// offset after its closing quote; `start` is where its opening quote is.
pub open spec fn scan_string(s: Seq<char>, start: nat, i: nat) -> Result<(Seq<char>, nat), Seq<char>>
    decreases s.len() - i,
{
    if i >= s.len() {
        Err(located("Unterminated string starting"@, s, start))
    } else if s[i as int] == '"' {
        Ok((seq![], i + 1))
    } else if s[i as int] == '\\' {
        if i + 1 >= s.len() {
            Err(located("Unexpected end of string"@, s, i + 1))
        } else {
            match scan_string(s, start, i + 2) {
                Ok((r, e)) => Ok((seq![escaped(s[i + 1 as int])] + r, e)),
                Err(m) => Err(m),
            }
        }
    } else {
        match scan_string(s, start, i + 1) {
            Ok((r, e)) => Ok((seq![s[i as int]] + r, e)),
            Err(m) => Err(m),
        }
    }
}

/// What the escape `\c` stands for in a triple-quoted string: the escaped
/// character, or the backslash and `c` for escapes it does not know.
pub open spec fn triple_escaped(c: char) -> Seq<char> {
    if c == 'n' || c == 't' || c == 'r' || c == 'e' || c == '\\' || c == '"' || c == '{' || c
        == '}' {
        seq![escaped(c)]
    } else {
        seq!['\\', c]
    }
}

/// Whether a closing `"""` starts at `i`.
pub open spec fn triple_quote_at(s: Seq<char>, i: nat) -> bool {
    i + 2 < s.len() && s[i as int] == '"' && s[i + 1 as int] == '"' && s[i + 2 as int] == '"'
}

/// The contents of the triple-quoted string whose body continues at `i`,
/// and the offset after its closing quotes; `start` is where it opens.
pub open spec fn scan_triple(s: Seq<char>, start: nat, i: nat) -> Result<(Seq<char>, nat), Seq<char>>
    decreases s.len() - i,
{
    if i >= s.len() {
        Err(located("Unterminated multiline string starting"@, s, start))
    } else if triple_quote_at(s, i) {
        Ok((seq![], i + 3))
    } else if s[i as int] == '\r' {
        let next = if i + 1 < s.len() && s[i + 1 as int] == '\n' { i + 2 } else { i + 1 };
        match scan_triple(s, start, next) {
            Ok((r, e)) => Ok((seq!['\n'] + r, e)),
            Err(m) => Err(m),
        }
    } else if s[i as int] == '\\' {
        if i + 1 >= s.len() {
            Err(located("Unexpected end of string"@, s, i + 1))
        } else {
            match scan_triple(s, start, i + 2) {
                Ok((r, e)) => Ok((triple_escaped(s[i + 1 as int]) + r, e)),
                Err(m) => Err(m),
            }
        }
    } else {
        match scan_triple(s, start, i + 1) {
            Ok((r, e)) => Ok((seq![s[i as int]] + r, e)),
            Err(m) => Err(m),
        }
    }
}

/// Where the body of a triple-quoted string opening at `i` begins: after
/// the quotes and one line break right behind them.
pub open spec fn triple_body_start(s: Seq<char>, i: nat) -> nat {
    let j = i + 3;
    if j + 1 < s.len() && s[j as int] == '\r' && s[j + 1 as int] == '\n' {
        j + 2
    } else if j < s.len() && s[j as int] == '\n' {
        j + 1
    } else {
        j
    }
}

/// The contents of the raw string whose body continues at `i`, and the
/// offset after its closing backtick; `start` is where it opens.
pub open spec fn scan_raw(s: Seq<char>, start: nat, i: nat) -> Result<(Seq<char>, nat), Seq<char>>
    decreases s.len() - i,
{
    if i >= s.len() {
        Err(located("Unterminated raw string starting"@, s, start))
    } else if s[i as int] == '`' {
        Ok((seq![], i + 1))
    } else if s[i as int] == '\r' {
        let next = if i + 1 < s.len() && s[i + 1 as int] == '\n' { i + 2 } else { i + 1 };
        match scan_raw(s, start, next) {
            Ok((r, e)) => Ok((seq!['\n'] + r, e)),
            Err(m) => Err(m),
        }
    } else {
        match scan_raw(s, start, i + 1) {
            Ok((r, e)) => Ok((seq![s[i as int]] + r, e)),
            Err(m) => Err(m),
        }
    }
}

/// One step of the lexer at an offset.
pub ghost enum Step {
    /// Nothing is produced; scanning resumes at the offset.
    Skip(nat),
    /// A token of this kind is produced; scanning resumes at the offset.
    Emit(Kind, nat),
    /// Lexing stops with this message.
    Fail(Seq<char>),
}

/// The character at `i` if there is one.
pub open spec fn char_at(s: Seq<char>, i: nat) -> Option<char> {
    if i < s.len() {
        Some(s[i as int])
    } else {
        None
    }
}

/// An operator that is `one` alone, or `two` when followed by `=`.
pub open spec fn with_eq(s: Seq<char>, pos: nat, one: TokenType, two: TokenType) -> Step {
    if char_at(s, pos + 1) == Some('=') {
        Step::Emit(Kind::Other(two), pos + 2)
    } else {
        Step::Emit(Kind::Other(one), pos + 1)
    }
}

/// What the lexer does at offset `pos` (which is inside `s`).
pub open spec fn scan(s: Seq<char>, pos: nat) -> Step {
    let c = s[pos as int];
    let next = char_at(s, pos + 1);
    if is_blank(c) {
        Step::Skip(blank_end(s, pos))
    } else if c == '\n' {
        Step::Emit(Kind::Other(TokenType::Newline), pos + 1)
    } else if c == '#' {
        Step::Skip(line_end(s, pos))
    } else if c == '/' {
        if next == Some('/') {
            Step::Skip(line_end(s, pos))
        } else if next == Some('*') {
            match block_comment_end(s, pos) {
                Some(e) => Step::Skip(e),
                None => Step::Fail(located("Unclosed multiline comment starting"@, s, pos)),
            }
        } else {
            with_eq(s, pos, TokenType::Divide, TokenType::DivideAssign)
        }
    } else if c == '"' {
        if next == Some('"') && char_at(s, pos + 2) == Some('"') {
            match scan_triple(s, pos, triple_body_start(s, pos)) {
                Ok((r, e)) => Step::Emit(Kind::Str(r), e),
                Err(m) => Step::Fail(m),
            }
        } else {
            match scan_string(s, pos, pos + 1) {
                Ok((r, e)) => Step::Emit(Kind::Str(r), e),
                Err(m) => Step::Fail(m),
            }
        }
    } else if c == '`' {
        match scan_raw(s, pos, pos + 1) {
            Ok((r, e)) => Step::Emit(Kind::Str(r), e),
            Err(m) => Step::Fail(m),
        }
    } else if c == '+' {
        with_eq(s, pos, TokenType::Plus, TokenType::PlusAssign)
    } else if c == '-' {
        with_eq(s, pos, TokenType::Minus, TokenType::MinusAssign)
    } else if c == '*' {
        with_eq(s, pos, TokenType::Multiply, TokenType::MultiplyAssign)
    } else if c == '%' {
        Step::Emit(Kind::Other(TokenType::Modulo), pos + 1)
    } else if c == '(' {
        Step::Emit(Kind::Other(TokenType::LeftParen), pos + 1)
    } else if c == ')' {
        Step::Emit(Kind::Other(TokenType::RightParen), pos + 1)
    } else if c == '{' {
        Step::Emit(Kind::Other(TokenType::LeftBrace), pos + 1)
    } else if c == '}' {
        Step::Emit(Kind::Other(TokenType::RightBrace), pos + 1)
    } else if c == '[' {
        Step::Emit(Kind::Other(TokenType::LeftBracket), pos + 1)
    } else if c == ']' {
        Step::Emit(Kind::Other(TokenType::RightBracket), pos + 1)
    } else if c == ',' {
        Step::Emit(Kind::Other(TokenType::Comma), pos + 1)
    } else if c == '.' {
        if next == Some('.') {
            Step::Emit(Kind::Other(TokenType::DotDot), pos + 2)
        } else {
            Step::Emit(Kind::Other(TokenType::Dot), pos + 1)
        }
    } else if c == ':' {
        if next == Some(':') {
            Step::Emit(Kind::Other(TokenType::ColonColon), pos + 2)
        } else {
            Step::Emit(Kind::Other(TokenType::Colon), pos + 1)
        }
    } else if c == '=' {
        with_eq(s, pos, TokenType::Assign, TokenType::Equal)
    } else if c == '!' {
        with_eq(s, pos, TokenType::Not, TokenType::NotEqual)
    } else if c == '<' {
        with_eq(s, pos, TokenType::Less, TokenType::LessEqual)
    } else if c == '>' {
        with_eq(s, pos, TokenType::Greater, TokenType::GreaterEqual)
    } else if c == '&' {
        if next == Some('&') {
            Step::Emit(Kind::Other(TokenType::And), pos + 2)
        } else {
            Step::Fail(located("Unexpected character '&'"@, s, pos) + ". Did you mean '&&'?"@)
        }
    } else if c == '|' {
        if next == Some('|') {
            Step::Emit(Kind::Other(TokenType::Or), pos + 2)
        } else {
            Step::Fail(located("Unexpected character '|'"@, s, pos) + ". Did you mean '||'?"@)
        }
    } else if is_ascii_digit(c) {
        let e = number_literal_end(s, pos);
        Step::Emit(Kind::Number(s.subrange(pos as int, e as int)), e)
    } else if unicode_alphabetic(c) || c == '_' {
        let e = word_end(s, pos);
        Step::Emit(word_kind(s.subrange(pos as int, e as int)), e)
    } else {
        Step::Fail(located("Unexpected character '"@ + seq![c] + "'"@, s, pos))
    }
}

/// The token of `kind` that starts at offset `pos` of `s`.
pub open spec fn token_at(s: Seq<char>, kind: Kind, pos: nat) -> TokenView {
    TokenView { kind, line: line_col(s, pos).0, column: line_col(s, pos).1 }
}

/// The tokens of `s` from offset `pos` on, ending with `Eof`, or the message
/// of the first lexical error.
pub open spec fn lex_from(s: Seq<char>, pos: nat) -> Result<Seq<TokenView>, Seq<char>>
    decreases s.len() - pos,
{
    if pos >= s.len() {
        Ok(seq![token_at(s, Kind::Other(TokenType::Eof), s.len())])
    } else {
        proof {
            lemma_scan_progress(s, pos);
        }
        match scan(s, pos) {
            Step::Skip(e) => lex_from(s, e),
            Step::Emit(k, e) => match lex_from(s, e) {
                Ok(ts) => Ok(seq![token_at(s, k, pos)] + ts),
                Err(m) => Err(m),
            },
            Step::Fail(m) => Err(m),
        }
    }
}

/// The tokens of the whole of `s`.
pub open spec fn lex(s: Seq<char>) -> Result<Seq<TokenView>, Seq<char>> {
    lex_from(s, 0)
}

/// Whether `t` can stand inside a quoted string as it is: no quote and no
/// backslash.
pub open spec fn plain_text(t: Seq<char>) -> bool {
    forall|k: int| 0 <= k < t.len() ==> #[trigger] t[k] != '"' && t[k] != '\\'
}

/// Plain text inside a quoted string stands for itself.
proof fn lemma_scan_plain(s: Seq<char>, start: nat, i: nat, t: Seq<char>)
    requires
        plain_text(t),
        i + t.len() <= s.len(),
        s.subrange(i as int, i + t.len() as int) == t,
    ensures
        scan_string(s, start, i) == match scan_string(s, start, i + t.len()) {
            Ok((r, e)) => Ok((t + r, e)),
            Err(m) => Err(m),
        },
    decreases t.len(),
{
    if t.len() > 0 {
        assert(s[i as int] == t[0]);
        let rest = t.drop_first();
        assert(s.subrange(i + 1 as int, i + 1 + rest.len() as int) =~= rest);
        lemma_scan_plain(s, start, i + 1, rest);
        assert(seq![t[0]] + rest =~= t);
        match scan_string(s, start, i + t.len()) {
            Ok((r, e)) => {
                assert(seq![t[0]] + (rest + r) =~= t + r);
            },
            Err(m) => {},
        }
    } else {
        match scan_string(s, start, i) {
            Ok((r, e)) => {
                assert(t + r =~= r);
            },
            Err(m) => {},
        }
    }
}

/// The escapes of a quoted string: in `"a\cb"`, with `a` and `b` free of
/// quotes and backslashes, the escape `\c` stands for a line feed when `c`
/// is `n`, a tab when it is `t`, a carriage return when it is `r`, the
/// escape character U+001B when it is `e`, and for `c` itself when it is a
/// backslash or a quote; the source lexes to that string followed by the
/// end of input.
pub proof fn lemma_string_escapes(a: Seq<char>, c: char, b: Seq<char>, d: char)
    requires
        plain_text(a),
        plain_text(b),
        (c == 'n' && d == '\n') || (c == 't' && d == '\t') || (c == 'r' && d == '\r') || (c
            == 'e' && d == '\x1b') || (c == '\\' && d == '\\') || (c == '"' && d == '"'),
    ensures
        lex(seq!['"'] + a + seq!['\\', c] + b + seq!['"']) matches Ok(ts) && ts.len() == 2
            && ts[0].kind == Kind::Str(a + seq![d] + b) && ts[1].kind == Kind::Other(
            TokenType::Eof,
        ),
{
    let s = seq!['"'] + a + seq!['\\', c] + b + seq!['"'];
    let n: nat = s.len();
    let i1: int = 1 + a.len() as int;
    let i2: int = i1 + 2;
    let i3: int = i2 + b.len() as int;
    assert(s.subrange(1, i1) =~= a);
    assert(s.subrange(i2, i3) =~= b);
    assert(s[i3] == '"');
    assert(s[i1] == '\\');
    assert(s[i1 + 1] == c);
    lemma_scan_plain(s, 0, i2 as nat, b);
    assert(scan_string(s, 0, i3 as nat) == Ok::<(Seq<char>, nat), Seq<char>>((seq![], n)));
    assert(b + Seq::<char>::empty() =~= b);
    assert(scan_string(s, 0, i2 as nat) == Ok::<(Seq<char>, nat), Seq<char>>((b, n)));
    assert(scan_string(s, 0, i1 as nat) == Ok::<(Seq<char>, nat), Seq<char>>((seq![d] + b, n)));
    lemma_scan_plain(s, 0, 1, a);
    assert(a + (seq![d] + b) =~= a + seq![d] + b);
    assert(scan_string(s, 0, 1) == Ok::<(Seq<char>, nat), Seq<char>>((a + seq![d] + b, n)));
    assert(char_at(s, 1) != Some('"')) by {
        if a.len() > 0 {
            assert(s[1] == a[0]);
        }
    }
    assert(scan(s, 0) == Step::Emit(Kind::Str(a + seq![d] + b), n));
    assert(lex_from(s, n) == Ok::<Seq<TokenView>, Seq<char>>(seq![token_at(s, Kind::Other(TokenType::Eof), n)]));
    lemma_scan_progress(s, 0);
}

/// A successful lexing ends with an `Eof` token.
pub proof fn lemma_lex_ends_with_eof(s: Seq<char>, pos: nat)
    ensures
        lex_from(s, pos) matches Ok(ts) ==> ts.len() > 0 && ts.last().kind == Kind::Other(
            TokenType::Eof,
        ),
    decreases s.len() - pos,
{
    if pos < s.len() {
        lemma_scan_progress(s, pos);
        match scan(s, pos) {
            Step::Skip(e) => {
                lemma_lex_ends_with_eof(s, e);
            },
            Step::Emit(k, e) => {
                lemma_lex_ends_with_eof(s, e);
                if let Ok(rest) = lex_from(s, e) {
                    let ts = seq![token_at(s, k, pos)] + rest;
                    assert(ts.last() == rest.last());
                }
            },
            Step::Fail(_) => {},
        }
    }
}

pub proof fn lemma_blank_end(s: Seq<char>, i: nat)
    ensures
        i <= blank_end(s, i) <= (if i <= s.len() { s.len() } else { i }),
        i < s.len() && is_blank(s[i as int]) ==> blank_end(s, i) > i,
    decreases s.len() - i,
{
    if i < s.len() && is_blank(s[i as int]) {
        lemma_blank_end(s, i + 1);
    }
}

pub proof fn lemma_line_end(s: Seq<char>, i: nat)
    ensures
        i <= line_end(s, i) <= (if i <= s.len() { s.len() } else { i }),
        i < s.len() && s[i as int] != '\n' ==> line_end(s, i) > i,
    decreases s.len() - i,
{
    if i < s.len() && s[i as int] != '\n' {
        lemma_line_end(s, i + 1);
    }
}

pub proof fn lemma_block_comment_end(s: Seq<char>, i: nat)
    ensures
        block_comment_end(s, i) matches Some(e) ==> i + 2 <= e <= s.len(),
    decreases s.len() - i,
{
    if i < s.len() && !(s[i as int] == '*' && i + 1 < s.len() && s[i + 1 as int] == '/') {
        lemma_block_comment_end(s, i + 1);
    }
}

pub proof fn lemma_word_end(s: Seq<char>, i: nat)
    ensures
        i <= word_end(s, i) <= (if i <= s.len() { s.len() } else { i }),
        i < s.len() && is_word_char(s[i as int]) ==> word_end(s, i) > i,
    decreases s.len() - i,
{
    if i < s.len() && is_word_char(s[i as int]) {
        lemma_word_end(s, i + 1);
    }
}

pub proof fn lemma_number_end(s: Seq<char>, i: nat, has_dot: bool)
    ensures
        i <= number_end(s, i, has_dot) <= (if i <= s.len() { s.len() } else { i }),
        i < s.len() && is_ascii_digit(s[i as int]) ==> number_end(s, i, has_dot) > i,
    decreases s.len() - i,
{
    if i < s.len() && is_ascii_digit(s[i as int]) {
        lemma_number_end(s, i + 1, has_dot);
    } else if i + 1 < s.len() && s[i as int] == '.' && !has_dot && is_ascii_digit(s[i + 1 as int]) {
        lemma_number_end(s, i + 1, true);
    }
}

pub proof fn lemma_scan_string(s: Seq<char>, start: nat, i: nat)
    ensures
        scan_string(s, start, i) matches Ok((r, e)) ==> i < e <= s.len(),
    decreases s.len() - i,
{
    if i < s.len() && s[i as int] != '"' {
        if s[i as int] == '\\' {
            if i + 1 < s.len() {
                lemma_scan_string(s, start, i + 2);
            }
        } else {
            lemma_scan_string(s, start, i + 1);
        }
    }
}

pub proof fn lemma_scan_triple(s: Seq<char>, start: nat, i: nat)
    ensures
        scan_triple(s, start, i) matches Ok((r, e)) ==> i < e <= s.len(),
    decreases s.len() - i,
{
    if i < s.len() && !triple_quote_at(s, i) {
        if s[i as int] == '\r' {
            let next = if i + 1 < s.len() && s[i + 1 as int] == '\n' { i + 2 } else { i + 1 };
            lemma_scan_triple(s, start, next);
        } else if s[i as int] == '\\' {
            if i + 1 < s.len() {
                lemma_scan_triple(s, start, i + 2);
            }
        } else {
            lemma_scan_triple(s, start, i + 1);
        }
    }
}

pub proof fn lemma_scan_raw(s: Seq<char>, start: nat, i: nat)
    ensures
        scan_raw(s, start, i) matches Ok((r, e)) ==> i < e <= s.len(),
    decreases s.len() - i,
{
    if i < s.len() && s[i as int] != '`' {
        if s[i as int] == '\r' {
            let next = if i + 1 < s.len() && s[i + 1 as int] == '\n' { i + 2 } else { i + 1 };
            lemma_scan_raw(s, start, next);
        } else {
            lemma_scan_raw(s, start, i + 1);
        }
    }
}

/// Every step moves forward and stays inside the text.
pub proof fn lemma_scan_progress(s: Seq<char>, pos: nat)
    requires
        pos < s.len(),
    ensures
        scan(s, pos) matches Step::Skip(e) ==> pos < e <= s.len(),
        scan(s, pos) matches Step::Emit(_, e) ==> pos < e <= s.len(),
{
    lemma_blank_end(s, pos);
    lemma_line_end(s, pos);
    lemma_block_comment_end(s, pos);
    lemma_word_end(s, pos);
    lemma_number_end(s, pos, false);
    lemma_number_end(s, pos + 1, true);
    lemma_scan_string(s, pos, pos + 1);
    lemma_scan_triple(s, pos, triple_body_start(s, pos));
    lemma_scan_raw(s, pos, pos + 1);
    let c = s[pos as int];
    if c == '#' || c == '/' {
        if s[pos as int] == '#' || char_at(s, pos + 1) == Some('/') {
            assert(s[pos as int] != '\n');
        }
    }
}

/// A lexer over a source text, positioned at an offset of it.
pub struct Lexer {
    input: Vec<char>,
    position: usize,
    line: usize,
    column: usize,
}

/// The line and the column of an offset are at least one and at most the
/// offset plus one.
pub proof fn lemma_line_col_bound(s: Seq<char>, pos: nat)
    ensures
        1 <= line_col(s, pos).0 <= pos + 1,
        1 <= line_col(s, pos).1 <= pos + 1,
    decreases pos,
{
    if pos > 0 && pos <= s.len() {
        lemma_line_col_bound(s, (pos - 1) as nat);
    }
}

impl Lexer {
    /// The text being lexed.
    pub closed spec fn source(&self) -> Seq<char> {
        self.input@
    }

    /// The offset the lexer is at.
    pub closed spec fn pos(&self) -> nat {
        self.position as nat
    }

    /// The line the lexer is on.
    pub closed spec fn line(&self) -> nat {
        self.line as nat
    }

    /// The column the lexer is at.
    pub closed spec fn column(&self) -> nat {
        self.column as nat
    }

    /// In a well-formed lexer the position is inside the text, the line is
    /// one more than the newlines before the position, and the column is
    /// one more than the characters since the last of them.
    pub proof fn lemma_wf_position(&self)
        requires
            self.wf(),
        ensures
            self.pos() <= self.source().len(),
            (self.line(), self.column()) == line_col(self.source(), self.pos()),
            self.line() == 1 + newline_count(self.source().take(self.pos() as int)),
            self.column() == 1 + last_line(self.source().take(self.pos() as int)).len(),
    {
        lemma_line_col_counts(self.input@, self.position as nat);
    }

    /// The position is inside the text, and the line and column are those
    /// of the position.
    pub closed spec fn wf(&self) -> bool {
        &&& self.position <= self.input@.len()
        &&& self.input@.len() < usize::MAX
        &&& (self.line as nat, self.column as nat) == line_col(self.input@, self.position as nat)
    }

    /// A lexer at the start of `input`.
    pub fn new(input: &str) -> (l: Self)
        requires
            input@.len() < usize::MAX,
        ensures
            l.wf(),
            l.source() == input@,
            l.pos() == 0,
    {
        Lexer { input: chars_of(input), position: 0, line: 1, column: 1 }
    }
}


/// Prepends `acc` to the contents of a successful scan.
pub open spec fn prepend(acc: Seq<char>, r: Result<(Seq<char>, nat), Seq<char>>) -> Result<
    (Seq<char>, nat),
    Seq<char>,
> {
    match r {
        Ok((x, e)) => Ok((acc + x, e)),
        Err(m) => Err(m),
    }
}

pub proof fn lemma_prepend_prepend(a: Seq<char>, b: Seq<char>, r: Result<(Seq<char>, nat), Seq<char>>)
    ensures
        prepend(a, prepend(b, r)) == prepend(a + b, r),
{
    match r {
        Ok((x, e)) => {
            assert(a + (b + x) =~= (a + b) + x);
        },
        Err(m) => {},
    }
}

/// Prepends `acc` to the tokens of a successful lexing.
pub open spec fn prepend_tokens(acc: Seq<TokenView>, r: Result<Seq<TokenView>, Seq<char>>) -> Result<
    Seq<TokenView>,
    Seq<char>,
> {
    match r {
        Ok(ts) => Ok(acc + ts),
        Err(m) => Err(m),
    }
}

/// `prefix` followed by the position `line`, `column`.
pub fn location_text(prefix: &str, line: usize, column: usize) -> (m: String)
    ensures
        m@ == prefix@ + " at line "@ + decimal(line as nat) + ", column "@ + decimal(column as nat),
{
    let mut out: Vec<char> = Vec::new();
    push_str(&mut out, prefix);
    push_str(&mut out, " at line ");
    push_decimal(&mut out, line);
    push_str(&mut out, ", column ");
    push_decimal(&mut out, column);
    string_from_chars(out.as_slice())
}

/// Whether the characters of `w` are those of `lit`.
pub fn chars_eq_str(w: &Vec<char>, lit: &str) -> (b: bool)
    ensures
        b == (w@ == lit@),
{
    let l = chars_of(lit);
    if w.len() != l.len() {
        assert(w@.len() != lit@.len());
        return false;
    }
    let mut i: usize = 0;
    while i < w.len()
        invariant
            l@ == lit@,
            w@.len() == l@.len(),
            i <= w@.len(),
            forall|j: int| 0 <= j < i ==> w@[j] == l@[j],
        decreases w@.len() - i,
    {
        if w[i] != l[i] {
            assert(w@[i as int] != lit@[i as int]);
            return false;
        }
        i = i + 1;
    }
    assert(w@ =~= l@);
    true
}

/// The token type of the word `w`: a keyword's own type, otherwise an
/// identifier.
pub fn word_token(w: Vec<char>) -> (t: TokenType)
    ensures
        t@ == word_kind(w@),
{
    if chars_eq_str(&w, "say") { TokenType::Say }
    else if chars_eq_str(&w, "let") { TokenType::Let }
    else if chars_eq_str(&w, "if") { TokenType::If }
    else if chars_eq_str(&w, "elif") { TokenType::Elif }
    else if chars_eq_str(&w, "else") { TokenType::Else }
    else if chars_eq_str(&w, "while") { TokenType::While }
    else if chars_eq_str(&w, "for") { TokenType::For }
    else if chars_eq_str(&w, "in") { TokenType::In }
    else if chars_eq_str(&w, "function") { TokenType::Function }
    else if chars_eq_str(&w, "end") { TokenType::End }
    else if chars_eq_str(&w, "return") { TokenType::Return }
    else if chars_eq_str(&w, "when") { TokenType::When }
    else if chars_eq_str(&w, "is") { TokenType::Is }
    else if chars_eq_str(&w, "then") { TokenType::Then }
    else if chars_eq_str(&w, "repeat") { TokenType::Repeat }
    else if chars_eq_str(&w, "break") { TokenType::Break }
    else if chars_eq_str(&w, "continue") { TokenType::Continue }
    else if chars_eq_str(&w, "ask") { TokenType::Ask }
    else if chars_eq_str(&w, "import") { TokenType::Import }
    else if chars_eq_str(&w, "as") { TokenType::As }
    else if chars_eq_str(&w, "struct") { TokenType::Struct }
    else if chars_eq_str(&w, "try") { TokenType::Try }
    else if chars_eq_str(&w, "catch") { TokenType::Catch }
    else if chars_eq_str(&w, "finally") { TokenType::Finally }
    else if chars_eq_str(&w, "throw") { TokenType::Throw }
    else if chars_eq_str(&w, "true") { TokenType::True }
    else if chars_eq_str(&w, "false") { TokenType::False }
    else if chars_eq_str(&w, "and") { TokenType::And }
    else if chars_eq_str(&w, "or") { TokenType::Or }
    else if chars_eq_str(&w, "not") { TokenType::Not }
    else { TokenType::Identifier(string_from_chars(w.as_slice())) }
}

/// The character that the escape `\c` denotes in a quoted string.
pub fn escape_char(c: char) -> (e: char)
    ensures
        e == escaped(c),
{
    if c == 'n' {
        '\n'
    } else if c == 't' {
        '\t'
    } else if c == 'r' {
        '\r'
    } else if c == 'e' {
        '\x1b'
    } else {
        c
    }
}

/// The outcome of one lexer step.
pub enum Scanned {
    Skipped,
    Produced(TokenType),
    Failed(String),
}

impl Lexer {
    /// The character at the current position.
    pub fn current_char(&self) -> (r: Option<char>)
        requires
            self.wf(),
        ensures
            r == char_at(self.source(), self.pos()),
    {
        if self.position < self.input.len() {
            Some(self.input[self.position])
        } else {
            None
        }
    }

    /// The character after the current one.
    pub fn peek_char(&self) -> (r: Option<char>)
        requires
            self.wf(),
        ensures
            r == char_at(self.source(), self.pos() + 1),
    {
        self.peek_char_at(1)
    }

    /// The character `offset` places after the current one.
    pub fn peek_char_at(&self, offset: usize) -> (r: Option<char>)
        requires
            self.wf(),
        ensures
            r == char_at(self.source(), self.pos() + offset as nat),
    {
        if offset < self.input.len() - self.position {
            Some(self.input[self.position + offset])
        } else {
            None
        }
    }

    /// Moves past the current character, keeping track of lines and columns.
    pub fn advance(&mut self)
        requires
            old(self).wf(),
        ensures
            final(self).wf(),
            final(self).source() == old(self).source(),
            final(self).pos() == if old(self).pos() < old(self).source().len() {
                old(self).pos() + 1
            } else {
                old(self).pos()
            },
            (final(self).line(), final(self).column()) == line_col(final(self).source(), final(self).pos()),
    {
        if self.position < self.input.len() {
            proof {
                lemma_line_col_bound(self.input@, self.position as nat);
            }
            if self.input[self.position] == '\n' {
                self.line = self.line + 1;
                self.column = 1;
            } else {
                self.column = self.column + 1;
            }
            self.position = self.position + 1;
        }
    }

    /// Moves past spaces, tabs and carriage returns.
    pub fn skip_whitespace(&mut self)
        requires
            old(self).wf(),
        ensures
            final(self).wf(),
            final(self).source() == old(self).source(),
            final(self).pos() == blank_end(old(self).source(), old(self).pos()),
    {
        let ghost s = self.input@;
        let ghost p0 = self.position as nat;
        while self.position < self.input.len() && (self.input[self.position] == ' '
            || self.input[self.position] == '\t' || self.input[self.position] == '\r')
            invariant
                self.wf(),
                self.input@ == s,
                s == old(self).input@,
                blank_end(s, p0) == blank_end(s, self.position as nat),
            decreases s.len() - self.position,
        {
            self.advance();
        }
    }

    /// Moves to the end of the current line.
    pub fn skip_comment(&mut self)
        requires
            old(self).wf(),
        ensures
            final(self).wf(),
            final(self).source() == old(self).source(),
            final(self).pos() == line_end(old(self).source(), old(self).pos()),
    {
        let ghost s = self.input@;
        let ghost p0 = self.position as nat;
        while self.position < self.input.len() && self.input[self.position] != '\n'
            invariant
                self.wf(),
                self.input@ == s,
                s == old(self).input@,
                line_end(s, p0) == line_end(s, self.position as nat),
            decreases s.len() - self.position,
        {
            self.advance();
        }
    }

    /// Moves past the first `*/` from the current position; fails when there
    /// is none.
    pub fn skip_multiline_comment(&mut self) -> (r: Result<(), String>)
        requires
            old(self).wf(),
        ensures
            final(self).wf(),
            final(self).source() == old(self).source(),
            match block_comment_end(old(self).source(), old(self).pos()) {
                Some(e) => r is Ok && final(self).pos() == e,
                None => r matches Err(m) && m@ == located(
                    "Unclosed multiline comment starting"@,
                    old(self).source(),
                    old(self).pos(),
                ),
            },
    {
        let start_line = self.line;
        let start_col = self.column;
        let ghost s = self.input@;
        let ghost p0 = self.position as nat;
        while self.position < self.input.len()
            invariant
                self.wf(),
                self.input@ == s,
                s == old(self).input@,
                p0 == old(self).position,
                block_comment_end(s, p0) == block_comment_end(s, self.position as nat),
            decreases s.len() - self.position,
        {
            if self.input[self.position] == '*' && self.peek_char() == Some('/') {
                self.advance();
                self.advance();
                return Ok(());
            }
            self.advance();
        }
        Err(location_text("Unclosed multiline comment starting", start_line, start_col))
    }

    /// Whether the number being read goes on at the current position: a
    /// digit, or a first decimal point followed by a digit.
    pub fn number_continues(&self, has_dot: bool) -> (b: bool)
        requires
            self.wf(),
        ensures
            b == (self.pos() < self.source().len() && is_ascii_digit(self.source()[self.pos() as int])
                || self.pos() + 1 < self.source().len() && self.source()[self.pos() as int] == '.'
                && !has_dot && is_ascii_digit(self.source()[self.pos() + 1 as int])),
    {
        match self.current_char() {
            Some(ch) => {
                if '0' <= ch && ch <= '9' {
                    true
                } else if ch == '.' && !has_dot {
                    match self.peek_char() {
                        Some(c) => '0' <= c && c <= '9',
                        None => false,
                    }
                } else {
                    false
                }
            },
            None => false,
        }
    }

    /// Reads a number literal and returns its text.
    pub fn read_number(&mut self) -> (text: String)
        requires
            old(self).wf(),
        ensures
            final(self).wf(),
            final(self).source() == old(self).source(),
            final(self).pos() == number_literal_end(old(self).source(), old(self).pos()),
            text@ == old(self).source().subrange(old(self).pos() as int, final(self).pos() as int),
    {
        let ghost s = self.input@;
        let start = self.position;
        let mut has_dot = false;
        if self.current_char() == Some('.') {
            has_dot = true;
            self.advance();
        }
        proof {
            lemma_number_end(s, self.position as nat, has_dot);
        }
        let ghost target = number_literal_end(s, start as nat);
        while self.number_continues(has_dot)
            invariant
                self.wf(),
                self.input@ == s,
                s == old(self).input@,
                start <= self.position,
                target == number_end(s, self.position as nat, has_dot),
            decreases s.len() - self.position,
        {
            if self.input[self.position] == '.' {
                has_dot = true;
            }
            self.advance();
        }
        let mut v: Vec<char> = Vec::new();
        let mut t: usize = start;
        while t < self.position
            invariant
                start <= t <= self.position <= self.input@.len(),
                v@ == self.input@.subrange(start as int, t as int),
            decreases self.position - t,
        {
            v.push(self.input[t]);
            t = t + 1;
            assert(v@ == self.input@.subrange(start as int, t as int));
        }
        string_from_chars(v.as_slice())
    }

    /// Reads an identifier or keyword and returns its text.
    pub fn read_identifier(&mut self) -> (word: Vec<char>)
        requires
            old(self).wf(),
        ensures
            final(self).wf(),
            final(self).source() == old(self).source(),
            final(self).pos() == word_end(old(self).source(), old(self).pos()),
            word@ == old(self).source().subrange(old(self).pos() as int, final(self).pos() as int),
    {
        let ghost s = self.input@;
        let start = self.position;
        let mut v: Vec<char> = Vec::new();
        while self.position < self.input.len() && (is_alphanumeric(self.input[self.position])
            || self.input[self.position] == '_')
            invariant
                self.wf(),
                self.input@ == s,
                s == old(self).input@,
                start <= self.position,
                word_end(s, start as nat) == word_end(s, self.position as nat),
                v@ == s.subrange(start as int, self.position as int),
            decreases s.len() - self.position,
        {
            v.push(self.input[self.position]);
            self.advance();
            assert(v@ == s.subrange(start as int, self.position as int));
        }
        v
    }

    /// Reads a double-quoted string starting at the current position.
    pub fn read_string(&mut self) -> (r: Result<String, String>)
        requires
            old(self).wf(),
            old(self).pos() < old(self).source().len(),
        ensures
            final(self).wf(),
            final(self).source() == old(self).source(),
            match scan_string(old(self).source(), old(self).pos(), old(self).pos() + 1) {
                Ok((v, e)) => r matches Ok(t) && t@ == v && final(self).pos() == e,
                Err(m) => r matches Err(t) && t@ == m,
            },
    {
        let ghost s = self.input@;
        let start = self.position;
        let start_line = self.line;
        let start_col = self.column;
        self.advance();
        let mut result: Vec<char> = Vec::new();
        while self.position < self.input.len() && self.input[self.position] != '"'
            invariant
                self.wf(),
                self.input@ == s,
                s == old(self).input@,
                start < self.position,
                start == old(self).position,
                (start_line as nat, start_col as nat) == line_col(s, start as nat),
                scan_string(s, start as nat, start as nat + 1) == prepend(
                    result@,
                    scan_string(s, start as nat, self.position as nat),
                ),
            decreases s.len() - self.position,
        {
            let ch = self.input[self.position];
            let ghost p = self.position as nat;
            if ch == '\\' {
                self.advance();
                if self.position >= self.input.len() {
                    return Err(location_text("Unexpected end of string", self.line, self.column));
                }
                let e = escape_char(self.input[self.position]);
                proof {
                    lemma_prepend_prepend(result@, seq![e], scan_string(s, start as nat, p + 2));
                }
                let ghost before = result@;
                result.push(e);
                assert(result@ == before + seq![e]);
                self.advance();
            } else {
                proof {
                    lemma_prepend_prepend(result@, seq![ch], scan_string(s, start as nat, p + 1));
                }
                let ghost before = result@;
                result.push(ch);
                assert(result@ == before + seq![ch]);
                self.advance();
            }
        }
        if self.position < self.input.len() {
            self.advance();
            assert(result@ + Seq::<char>::empty() == result@);
            Ok(string_from_chars(result.as_slice()))
        } else {
            Err(location_text("Unterminated string starting", start_line, start_col))
        }
    }

    /// Reads a raw (backtick-quoted) string starting at the current position.
    pub fn read_raw_string(&mut self) -> (r: Result<String, String>)
        requires
            old(self).wf(),
            old(self).pos() < old(self).source().len(),
        ensures
            final(self).wf(),
            final(self).source() == old(self).source(),
            match scan_raw(old(self).source(), old(self).pos(), old(self).pos() + 1) {
                Ok((v, e)) => r matches Ok(t) && t@ == v && final(self).pos() == e,
                Err(m) => r matches Err(t) && t@ == m,
            },
    {
        let ghost s = self.input@;
        let start = self.position;
        let start_line = self.line;
        let start_col = self.column;
        self.advance();
        let mut result: Vec<char> = Vec::new();
        while self.position < self.input.len() && self.input[self.position] != '`'
            invariant
                self.wf(),
                self.input@ == s,
                s == old(self).input@,
                start < self.position,
                start == old(self).position,
                (start_line as nat, start_col as nat) == line_col(s, start as nat),
                scan_raw(s, start as nat, start as nat + 1) == prepend(
                    result@,
                    scan_raw(s, start as nat, self.position as nat),
                ),
            decreases s.len() - self.position,
        {
            let ch = self.input[self.position];
            let ghost p = self.position as nat;
            if ch == '\r' {
                self.advance();
                if self.current_char() == Some('\n') {
                    self.advance();
                }
                proof {
                    lemma_prepend_prepend(
                        result@,
                        seq!['\n'],
                        scan_raw(s, start as nat, self.position as nat),
                    );
                }
                let ghost before = result@;
                result.push('\n');
                assert(result@ == before + seq!['\n']);
            } else {
                proof {
                    lemma_prepend_prepend(result@, seq![ch], scan_raw(s, start as nat, p + 1));
                }
                let ghost before = result@;
                result.push(ch);
                assert(result@ == before + seq![ch]);
                self.advance();
            }
        }
        if self.position < self.input.len() {
            self.advance();
            assert(result@ + Seq::<char>::empty() == result@);
            Ok(string_from_chars(result.as_slice()))
        } else {
            Err(location_text("Unterminated raw string starting", start_line, start_col))
        }
    }

    /// Reads a triple-quoted string starting at the current position.
    pub fn read_triple_quoted_string(&mut self) -> (r: Result<String, String>)
        requires
            old(self).wf(),
            old(self).pos() + 2 < old(self).source().len(),
        ensures
            final(self).wf(),
            final(self).source() == old(self).source(),
            match scan_triple(
                old(self).source(),
                old(self).pos(),
                triple_body_start(old(self).source(), old(self).pos()),
            ) {
                Ok((v, e)) => r matches Ok(t) && t@ == v && final(self).pos() == e,
                Err(m) => r matches Err(t) && t@ == m,
            },
    {
        let ghost s = self.input@;
        let start = self.position;
        let start_line = self.line;
        let start_col = self.column;
        self.advance();
        self.advance();
        self.advance();
        if self.current_char() == Some('\r') && self.peek_char() == Some('\n') {
            self.advance();
            self.advance();
        } else if self.current_char() == Some('\n') {
            self.advance();
        }
        assert(self.position as nat == triple_body_start(s, start as nat));
        let mut result: Vec<char> = Vec::new();
        assert(result@ + Seq::<char>::empty() == result@);
        assert(prepend(result@, scan_triple(s, start as nat, self.position as nat)) == scan_triple(
            s,
            start as nat,
            self.position as nat,
        )) by {
            match scan_triple(s, start as nat, self.position as nat) {
                Ok((x, e)) => {
                    assert(Seq::<char>::empty() + x =~= x);
                },
                Err(m) => {},
            }
        }
        while self.position < self.input.len()
            invariant
                self.wf(),
                self.input@ == s,
                s == old(self).input@,
                start < self.position,
                start == old(self).position,
                (start_line as nat, start_col as nat) == line_col(s, start as nat),
                scan_triple(s, start as nat, triple_body_start(s, start as nat)) == prepend(
                    result@,
                    scan_triple(s, start as nat, self.position as nat),
                ),
            decreases s.len() - self.position,
        {
            let ch = self.input[self.position];
            let ghost p = self.position as nat;
            if ch == '"' && self.peek_char() == Some('"') && self.peek_char_at(2) == Some('"') {
                self.advance();
                self.advance();
                self.advance();
                assert(result@ + Seq::<char>::empty() == result@);
                return Ok(string_from_chars(result.as_slice()));
            } else if ch == '\r' {
                self.advance();
                if self.current_char() == Some('\n') {
                    self.advance();
                }
                proof {
                    lemma_prepend_prepend(
                        result@,
                        seq!['\n'],
                        scan_triple(s, start as nat, self.position as nat),
                    );
                }
                let ghost before = result@;
                result.push('\n');
                assert(result@ == before + seq!['\n']);
            } else if ch == '\\' {
                self.advance();
                if self.position >= self.input.len() {
                    return Err(location_text("Unexpected end of string", self.line, self.column));
                }
                let c = self.input[self.position];
                let ghost esc = triple_escaped(c);
                proof {
                    lemma_prepend_prepend(result@, esc, scan_triple(s, start as nat, p + 2));
                }
                let ghost before = result@;
                if c == 'n' || c == 't' || c == 'r' || c == 'e' || c == '\\' || c == '"' || c
                    == '{' || c == '}' {
                    result.push(escape_char(c));
                } else {
                    result.push('\\');
                    result.push(c);
                }
                assert(result@ == before + esc);
                self.advance();
            } else {
                proof {
                    lemma_prepend_prepend(result@, seq![ch], scan_triple(s, start as nat, p + 1));
                }
                let ghost before = result@;
                result.push(ch);
                assert(result@ == before + seq![ch]);
                self.advance();
            }
        }
        Err(location_text("Unterminated multiline string starting", start_line, start_col))
    }
}


/// How a lexer step relates to `scan`: what it returned and where it left
/// the lexer.
pub open spec fn step_matches(s: Seq<char>, pos: nat, r: Scanned, new_pos: nat) -> bool {
    match scan(s, pos) {
        Step::Skip(e) => r is Skipped && new_pos == e,
        Step::Emit(k, e) => r matches Scanned::Produced(t) && t@ == k && new_pos == e,
        Step::Fail(m) => r matches Scanned::Failed(msg) && msg@ == m,
    }
}

impl Lexer {
    /// Produces the operator `one`, or `two` when `=` follows.
    fn operator_with_eq(&mut self, one: TokenType, two: TokenType) -> (r: Scanned)
        requires
            old(self).wf(),
            old(self).pos() < old(self).source().len(),
            one@ == Kind::Other(one),
            two@ == Kind::Other(two),
        ensures
            final(self).wf(),
            final(self).source() == old(self).source(),
            with_eq(old(self).source(), old(self).pos(), one, two) matches Step::Emit(k, e)
                && r matches Scanned::Produced(t) && t@ == k && final(self).pos() == e,
    {
        self.advance();
        if self.current_char() == Some('=') {
            self.advance();
            Scanned::Produced(two)
        } else {
            Scanned::Produced(one)
        }
    }

    /// One step of lexing at the current position.
    pub fn next_step(&mut self) -> (r: Scanned)
        requires
            old(self).wf(),
            old(self).pos() < old(self).source().len(),
        ensures
            final(self).wf(),
            final(self).source() == old(self).source(),
            step_matches(old(self).source(), old(self).pos(), r, final(self).pos()),
    {
        let ghost s = self.input@;
        let ghost pos = self.position as nat;
        let ch = self.input[self.position];
        let line = self.line;
        let column = self.column;
        if ch == ' ' || ch == '\t' || ch == '\r' {
            self.skip_whitespace();
            Scanned::Skipped
        } else if ch == '\n' {
            self.advance();
            Scanned::Produced(TokenType::Newline)
        } else if ch == '#' {
            self.skip_comment();
            Scanned::Skipped
        } else if ch == '/' {
            let next = self.peek_char();
            if next == Some('/') {
                self.skip_comment();
                Scanned::Skipped
            } else if next == Some('*') {
                match self.skip_multiline_comment() {
                    Ok(()) => Scanned::Skipped,
                    Err(m) => Scanned::Failed(m),
                }
            } else {
                self.operator_with_eq(TokenType::Divide, TokenType::DivideAssign)
            }
        } else if ch == '"' {
            if self.peek_char() == Some('"') && self.peek_char_at(2) == Some('"') {
                match self.read_triple_quoted_string() {
                    Ok(v) => Scanned::Produced(TokenType::String(v)),
                    Err(m) => Scanned::Failed(m),
                }
            } else {
                match self.read_string() {
                    Ok(v) => Scanned::Produced(TokenType::String(v)),
                    Err(m) => Scanned::Failed(m),
                }
            }
        } else if ch == '`' {
            match self.read_raw_string() {
                Ok(v) => Scanned::Produced(TokenType::String(v)),
                Err(m) => Scanned::Failed(m),
            }
        } else if ch == '+' {
            self.operator_with_eq(TokenType::Plus, TokenType::PlusAssign)
        } else if ch == '-' {
            self.operator_with_eq(TokenType::Minus, TokenType::MinusAssign)
        } else if ch == '*' {
            self.operator_with_eq(TokenType::Multiply, TokenType::MultiplyAssign)
        } else if ch == '%' {
            self.advance();
            Scanned::Produced(TokenType::Modulo)
        } else if ch == '(' {
            self.advance();
            Scanned::Produced(TokenType::LeftParen)
        } else if ch == ')' {
            self.advance();
            Scanned::Produced(TokenType::RightParen)
        } else if ch == '{' {
            self.advance();
            Scanned::Produced(TokenType::LeftBrace)
        } else if ch == '}' {
            self.advance();
            Scanned::Produced(TokenType::RightBrace)
        } else if ch == '[' {
            self.advance();
            Scanned::Produced(TokenType::LeftBracket)
        } else if ch == ']' {
            self.advance();
            Scanned::Produced(TokenType::RightBracket)
        } else if ch == ',' {
            self.advance();
            Scanned::Produced(TokenType::Comma)
        } else if ch == '.' {
            if self.peek_char() == Some('.') {
                self.advance();
                self.advance();
                Scanned::Produced(TokenType::DotDot)
            } else {
                self.advance();
                Scanned::Produced(TokenType::Dot)
            }
        } else if ch == ':' {
            if self.peek_char() == Some(':') {
                self.advance();
                self.advance();
                Scanned::Produced(TokenType::ColonColon)
            } else {
                self.advance();
                Scanned::Produced(TokenType::Colon)
            }
        } else if ch == '=' {
            self.operator_with_eq(TokenType::Assign, TokenType::Equal)
        } else if ch == '!' {
            self.operator_with_eq(TokenType::Not, TokenType::NotEqual)
        } else if ch == '<' {
            self.operator_with_eq(TokenType::Less, TokenType::LessEqual)
        } else if ch == '>' {
            self.operator_with_eq(TokenType::Greater, TokenType::GreaterEqual)
        } else if ch == '&' {
            if self.peek_char() == Some('&') {
                self.advance();
                self.advance();
                Scanned::Produced(TokenType::And)
            } else {
                let mut m: Vec<char> = Vec::new();
                let loc = location_text("Unexpected character '&'", line, column);
                push_str(&mut m, loc.as_str());
                push_str(&mut m, ". Did you mean '&&'?");
                assert(m@ =~= loc@ + ". Did you mean '&&'?"@);
                Scanned::Failed(string_from_chars(m.as_slice()))
            }
        } else if ch == '|' {
            if self.peek_char() == Some('|') {
                self.advance();
                self.advance();
                Scanned::Produced(TokenType::Or)
            } else {
                let mut m: Vec<char> = Vec::new();
                let loc = location_text("Unexpected character '|'", line, column);
                push_str(&mut m, loc.as_str());
                push_str(&mut m, ". Did you mean '||'?");
                assert(m@ =~= loc@ + ". Did you mean '||'?"@);
                Scanned::Failed(string_from_chars(m.as_slice()))
            }
        } else if '0' <= ch && ch <= '9' {
            let text = self.read_number();
            Scanned::Produced(TokenType::Number(text))
        } else if is_alphabetic(ch) || ch == '_' {
            let word = self.read_identifier();
            Scanned::Produced(word_token(word))
        } else {
            let mut m: Vec<char> = Vec::new();
            push_str(&mut m, "Unexpected character '");
            m.push(ch);
            push_str(&mut m, "'");
            assert(m@ =~= "Unexpected character '"@ + seq![ch] + "'"@);
            let prefix = string_from_chars(m.as_slice());
            Scanned::Failed(location_text(prefix.as_str(), line, column))
        }
    }

    /// Splits the rest of the text into tokens, ending with `Eof`; fails
    /// with the message of the first lexical error.
    pub fn tokenize(&mut self) -> (r: Result<Vec<Token>, String>)
        requires
            old(self).wf(),
        ensures
            final(self).wf(),
            final(self).source() == old(self).source(),
            match lex_from(old(self).source(), old(self).pos()) {
                Ok(ts) => r matches Ok(v) && v@.map_values(|t: Token| t@) == ts,
                Err(m) => r matches Err(e) && e@ == m,
            },
            r matches Ok(v) ==> v@.len() > 0 && v@.last().token_type@ == Kind::Other(TokenType::Eof),
    {
        proof {
            lemma_lex_ends_with_eof(self.input@, self.position as nat);
        }
        let ghost s = self.input@;
        let ghost p0 = self.position as nat;
        let mut tokens: Vec<Token> = Vec::new();
        assert(tokens@.map_values(|t: Token| t@) =~= Seq::<TokenView>::empty());
        proof {
            match lex_from(s, p0) {
                Ok(ts) => { assert(Seq::<TokenView>::empty() + ts =~= ts); },
                Err(m) => {},
            }
        }
        while self.position < self.input.len()
            invariant
                self.wf(),
                self.input@ == s,
                s == old(self).input@,
                p0 == old(self).position,
                lex_from(s, p0) == prepend_tokens(
                    tokens@.map_values(|t: Token| t@),
                    lex_from(s, self.position as nat),
                ),
            decreases s.len() - self.position,
        {
            let line = self.line;
            let column = self.column;
            let ghost at = self.position as nat;
            proof {
                lemma_scan_progress(s, at);
            }
            match self.next_step() {
                Scanned::Skipped => {},
                Scanned::Produced(tt) => {
                    let ghost before = tokens@.map_values(|t: Token| t@);
                    let tok = Token { token_type: tt, line, column };
                    tokens.push(tok);
                    proof {
                        assert(tokens@.map_values(|t: Token| t@) =~= before + seq![tok@]);
                        match lex_from(s, self.position as nat) {
                            Ok(ts) => {
                                assert(before + (seq![tok@] + ts) =~= (before + seq![tok@]) + ts);
                            },
                            Err(m) => {},
                        }
                    }
                },
                Scanned::Failed(m) => {
                    return Err(m);
                },
            }
        }
        let ghost before = tokens@.map_values(|t: Token| t@);
        let eof = Token { token_type: TokenType::Eof, line: self.line, column: self.column };
        tokens.push(eof);
        proof {
            assert(tokens@.map_values(|t: Token| t@) =~= before + seq![eof@]);
        }
        Ok(tokens)
    }
}

} // verus!
