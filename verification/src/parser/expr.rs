//! Expressions: precedence climbing from `or` down to primary expressions.

use vstd::prelude::*;
use crate::ast::{BinaryOp, Expr, ExprV, UnaryOp, expr_list_view, fields_view};
use crate::lexer::TokenType;
use crate::lexer::token::Kind;
use crate::lexer::Token;
use crate::text::{chars_of, string_from_chars, is_alphanumeric, lemma_first_index_of};
use crate::diagnostics::{push_chars, push_str};
use crate::diagnostics::parser::slice_chars;
use crate::lexer::location_text;
use super::{Parser, PErr, kind, is, skip_nl, lemma_skip_nl, token_name, reports, expected_err, unexpected, lemma_unexpected_free, lemma_messages_free};

verus! {

/// The outcome of parsing from a position: a value and the position after
/// it, or failure.
pub type PResult<T> = Result<(T, nat), PErr>;

/// A binary expression.
pub open spec fn bin(l: ExprV, op: BinaryOp, r: ExprV) -> ExprV {
    ExprV::Binary(Box::new(l), op, Box::new(r))
}

/// The operator that token kind `k` stands for at precedence level `level`
/// (0: `or`, 1: `and`, 2: comparisons, 3: `+ -`, 4: `* / %`).
pub open spec fn level_op(level: nat, k: Kind) -> Option<BinaryOp> {
    if level == 0 {
        if k == Kind::Other(TokenType::Or) { Some(BinaryOp::Or) } else { None }
    } else if level == 1 {
        if k == Kind::Other(TokenType::And) { Some(BinaryOp::And) } else { None }
    } else if level == 2 {
        if k == Kind::Other(TokenType::Equal) { Some(BinaryOp::Equal) }
        else if k == Kind::Other(TokenType::NotEqual) { Some(BinaryOp::NotEqual) }
        else if k == Kind::Other(TokenType::Less) { Some(BinaryOp::Less) }
        else if k == Kind::Other(TokenType::Greater) { Some(BinaryOp::Greater) }
        else if k == Kind::Other(TokenType::LessEqual) { Some(BinaryOp::LessEqual) }
        else if k == Kind::Other(TokenType::GreaterEqual) { Some(BinaryOp::GreaterEqual) }
        else { None }
    } else if level == 3 {
        if k == Kind::Other(TokenType::Plus) { Some(BinaryOp::Add) }
        else if k == Kind::Other(TokenType::Minus) { Some(BinaryOp::Subtract) }
        else { None }
    } else {
        if k == Kind::Other(TokenType::Multiply) { Some(BinaryOp::Multiply) }
        else if k == Kind::Other(TokenType::Divide) { Some(BinaryOp::Divide) }
        else if k == Kind::Other(TokenType::Modulo) { Some(BinaryOp::Modulo) }
        else { None }
    }
}

/// An expression starting at `p`.
pub open spec fn p_expr(t: Seq<Kind>, p: nat) -> PResult<ExprV>
    decreases t.len() - p, 70nat,
{
    p_bin(t, p, 0)
}

/// An operand of the precedence level above `level`.
pub open spec fn p_operand(t: Seq<Kind>, p: nat, level: nat) -> PResult<ExprV>
    decreases t.len() - p, (4 * (15 - level) + 1) as nat,
{
    if level > 4 {
        Err(unexpected(t, p))
    } else if level == 4 {
        p_unary(t, p)
    } else {
        p_bin(t, p, level + 1)
    }
}

/// A left-associative chain of operators of precedence `level`.
pub open spec fn p_bin(t: Seq<Kind>, p: nat, level: nat) -> PResult<ExprV>
    decreases t.len() - p, (4 * (15 - level) + 3) as nat,
{
    if level > 4 {
        Err(unexpected(t, p))
    } else {
        match p_operand(t, p, level) {
            Ok((left, q)) => if q >= p && q < t.len() {
                bin_rest(t, p, q, left, level)
            } else {
                Err(unexpected(t, p))
            },
            Err(e) => Err(e),
        }
    }
}

/// The rest of an operator chain at `q`, with `left` parsed so far; the
/// chain started at `p`.
pub open spec fn bin_rest(t: Seq<Kind>, p: nat, q: nat, left: ExprV, level: nat) -> PResult<ExprV>
    decreases t.len() - q, (4 * (15 - level) + 2) as nat,
{
    if q >= t.len() || level > 4 {
        Err(unexpected(t, q))
    } else {
        match level_op(level, kind(t, q)) {
            None => Ok((left, q)),
            Some(op) => if q + 1 < t.len() {
                match p_operand(t, q + 1, level) {
                    Ok((right, r)) => if r > q && r < t.len() {
                        bin_rest(t, p, r, bin(left, op, right), level)
                    } else {
                        Err(unexpected(t, q))
                    },
                    Err(e) => Err(e),
                }
            } else {
                Err(unexpected(t, q))
            },
        }
    }
}

/// A prefix `-` or `not`, or a postfix expression.
pub open spec fn p_unary(t: Seq<Kind>, p: nat) -> PResult<ExprV>
    decreases t.len() - p, 10nat,
{
    if p >= t.len() {
        Err(unexpected(t, p))
    } else if is(t, p, TokenType::Minus) || is(t, p, TokenType::Not) {
        let op = if is(t, p, TokenType::Minus) { UnaryOp::Negate } else { UnaryOp::Not };
        if p + 1 < t.len() {
            match p_unary(t, p + 1) {
                Ok((e, q)) => Ok((ExprV::Unary(op, Box::new(e)), q)),
                Err(e) => Err(e),
            }
        } else {
            Err(unexpected(t, p))
        }
    } else {
        p_postfix(t, p)
    }
}

/// A primary expression followed by indexing and field accesses.
pub open spec fn p_postfix(t: Seq<Kind>, p: nat) -> PResult<ExprV>
    decreases t.len() - p, 8nat,
{
    match p_primary(t, p) {
        Ok((e, q)) => if q >= p && q < t.len() {
            postfix_rest(t, q, e)
        } else {
            Err(unexpected(t, p))
        },
        Err(e) => Err(e),
    }
}

/// The indexing and field accesses at `q` applied to `e`.
pub open spec fn postfix_rest(t: Seq<Kind>, q: nat, e: ExprV) -> PResult<ExprV>
    decreases t.len() - q, 7nat,
{
    if q + 1 >= t.len() {
        Ok((e, q))
    } else if is(t, q, TokenType::LeftBracket) {
        match p_expr(t, q + 1) {
            Ok((idx, r)) => if r > q && r + 1 < t.len() && is(t, r, TokenType::RightBracket) {
                postfix_rest(t, r + 1, ExprV::Index(Box::new(e), Box::new(idx)))
            } else {
                Err(expected_err(t, r, TokenType::RightBracket))
            },
            Err(e) => Err(e),
        }
    } else if is(t, q, TokenType::Dot) {
        match kind(t, q + 1) {
            Kind::Ident(f) => if q + 2 < t.len() {
                postfix_rest(t, q + 2, ExprV::Field(Box::new(e), f))
            } else {
                Err(("Expected field name after '.'"@, q + 1))
            },
            _ => Err(("Expected field name after '.'"@, q + 1)),
        }
    } else {
        Ok((e, q))
    }
}

/// The arguments of a call, from `q` to the closing parenthesis, after
/// those in `acc`.
pub open spec fn call_args(t: Seq<Kind>, q: nat, acc: Seq<ExprV>) -> PResult<Seq<ExprV>>
    decreases t.len() - q, 80nat,
{
    if q >= t.len() {
        Err(unexpected(t, q))
    } else if is(t, q, TokenType::RightParen) {
        if q + 1 < t.len() { Ok((acc, q + 1)) } else { Err(unexpected(t, q)) }
    } else {
        match p_expr(t, q) {
            Ok((a, r)) => if r > q && r < t.len() {
                let r2 = if is(t, r, TokenType::Comma) && r + 1 < t.len() { r + 1 } else { r };
                call_args(t, r2, acc.push(a))
            } else {
                Err(unexpected(t, q))
            },
            Err(e) => Err(e),
        }
    }
}

/// The elements of an array literal, from `q` to the closing bracket,
/// after those in `acc`.
pub open spec fn array_elems(t: Seq<Kind>, q: nat, acc: Seq<ExprV>) -> PResult<Seq<ExprV>>
    decreases t.len() - q, 80nat,
{
    if q >= t.len() {
        Err(unexpected(t, q))
    } else if is(t, q, TokenType::RightBracket) {
        if q + 1 < t.len() { Ok((acc, q + 1)) } else { Err(unexpected(t, q)) }
    } else {
        match p_expr(t, q) {
            Ok((a, r)) => if r > q && r < t.len() {
                proof {
                    lemma_skip_nl(t, r);
                    if skip_nl(t, r) + 1 < t.len() {
                        lemma_skip_nl(t, skip_nl(t, r) + 1);
                    }
                }
                let r1 = skip_nl(t, r);
                if r1 < t.len() && is(t, r1, TokenType::Comma) && r1 + 1 < t.len() {
                    array_elems(t, skip_nl(t, r1 + 1), acc.push(a))
                } else if r1 < t.len() && is(t, r1, TokenType::RightBracket) {
                    array_elems(t, r1, acc.push(a))
                } else {
                    Err(("Expected ',' or ']' after array element"@, r1))
                }
            } else {
                Err(unexpected(t, q))
            },
            Err(e) => Err(e),
        }
    }
}

/// The fields of a struct initialisation, from `q` to the closing brace,
/// after those in `acc`.
pub open spec fn struct_fields(t: Seq<Kind>, q: nat, acc: Seq<(Seq<char>, ExprV)>) -> PResult<
    Seq<(Seq<char>, ExprV)>,
>
    decreases t.len() - q, 80nat,
{
    if q >= t.len() {
        Err(unexpected(t, q))
    } else if is(t, q, TokenType::RightBrace) {
        if q + 1 < t.len() { Ok((acc, q + 1)) } else { Err(unexpected(t, q)) }
    } else {
        proof {
            lemma_skip_nl(t, q);
        }
        let q1 = skip_nl(t, q);
        if q1 >= t.len() {
            Err(unexpected(t, q1))
        } else if is(t, q1, TokenType::RightBrace) {
            if q1 + 1 < t.len() { Ok((acc, q1 + 1)) } else { Err(unexpected(t, q1)) }
        } else {
            match kind(t, q1) {
                Kind::Ident(f) => if q1 + 2 < t.len() && (is(t, q1 + 1, TokenType::Colon) || is(
                    t,
                    q1 + 1,
                    TokenType::Assign,
                )) {
                    match p_expr(t, q1 + 2) {
                        Ok((v, r)) => if r > q1 && r < t.len() {
                            proof {
                                lemma_skip_nl(t, r);
                                if skip_nl(t, r) + 1 < t.len() {
                                    lemma_skip_nl(t, skip_nl(t, r) + 1);
                                }
                            }
                            let r1 = skip_nl(t, r);
                            let r2 = if r1 < t.len() && is(t, r1, TokenType::Comma) && r1 + 1
                                < t.len() {
                                skip_nl(t, r1 + 1)
                            } else {
                                r1
                            };
                            if r2 > q {
                                struct_fields(t, r2, acc.push((f, v)))
                            } else {
                                Err(unexpected(t, q1))
                            }
                        } else {
                            Err(unexpected(t, q1))
                        },
                        Err(e) => Err(e),
                    }
                } else {
                    Err(("Expected ':' or '=' after field name"@, q1 + 1))
                },
                _ => Err(("Expected field name in struct initialization"@, q1)),
            }
        }
    }
}

/// The `::`-separated parts of a qualified name (`module::name`) from
/// `i`, after `name`.
pub open spec fn p_qualified(t: Seq<Kind>, i: nat, name: Seq<char>) -> PResult<Seq<char>>
    decreases t.len() - i,
{
    if i < t.len() && is(t, i, TokenType::ColonColon) {
        if i + 2 < t.len() {
            match kind(t, i + 1) {
                Kind::Ident(m) => p_qualified(t, i + 2, name + "::"@ + m),
                _ => Err(("Expected identifier after '::' in name"@, i + 1)),
            }
        } else {
            Err(("Expected identifier after '::' in name"@, i + 1))
        }
    } else {
        Ok((name, i))
    }
}

/// An expression starting with the name `name` at `p` (which may be
/// qualified, `module::name`): a call, a struct initialisation or a
/// variable.
pub open spec fn p_name(t: Seq<Kind>, p: nat, name: Seq<char>) -> PResult<ExprV>
    decreases t.len() - p, 5nat,
{
    if p + 1 >= t.len() {
        Err(unexpected(t, p))
    } else {
        match p_qualified(t, p + 1, name) {
            Ok((full, i)) => if p < i < t.len() {
                if is(t, i, TokenType::LeftParen) && i + 1 < t.len() {
                    match call_args(t, i + 1, seq![]) {
                        Ok((args, q)) => Ok((ExprV::Call(full, args), q)),
                        Err(e) => Err(e),
                    }
                } else if is(t, i, TokenType::LeftBrace) && i + 1 < t.len() {
                    proof {
                        lemma_skip_nl(t, i + 1);
                    }
                    match struct_fields(t, skip_nl(t, i + 1), seq![]) {
                        Ok((fields, q)) => Ok((ExprV::StructInit(full, fields), q)),
                        Err(e) => Err(e),
                    }
                } else {
                    Ok((ExprV::Ident(full), i))
                }
            } else {
                Err(unexpected(t, p))
            },
            Err(e) => Err(e),
        }
    }
}

/// An `ask` expression at `p`: with a parenthesised prompt, a string
/// prompt, or none.
pub open spec fn p_ask(t: Seq<Kind>, p: nat) -> PResult<ExprV>
    decreases t.len() - p, 5nat,
{
    if p + 1 >= t.len() {
        Err(unexpected(t, p))
    } else if is(t, p + 1, TokenType::LeftParen) && p + 2 < t.len() {
        if is(t, p + 2, TokenType::RightParen) {
            if p + 3 < t.len() {
                Ok((ExprV::Call("ask"@, seq![]), p + 3))
            } else {
                Err(unexpected(t, p))
            }
        } else {
            match p_expr(t, p + 2) {
                Ok((a, r)) => if r < t.len() && is(t, r, TokenType::RightParen) && r + 1 < t.len() {
                    Ok((ExprV::Call("ask"@, seq![a]), r + 1))
                } else {
                    Err(expected_err(t, r, TokenType::RightParen))
                },
                Err(e) => Err(e),
            }
        }
    } else {
        match kind(t, p + 1) {
            Kind::Str(s) => if p + 2 < t.len() {
                Ok((ExprV::Call("ask"@, seq![string_expr(s)]), p + 2))
            } else {
                Err(unexpected(t, p))
            },
            _ => Ok((ExprV::Call("ask"@, seq![]), p + 1)),
        }
    }
}

/// A primary expression: a literal, a name, a call, a struct
/// initialisation, `ask`, a parenthesised expression or an array literal.
pub open spec fn p_primary(t: Seq<Kind>, p: nat) -> PResult<ExprV>
    decreases t.len() - p, 6nat,
{
    if p + 1 >= t.len() {
        Err(unexpected(t, p))
    } else {
        match kind(t, p) {
            Kind::Number(n) => Ok((ExprV::Number(n), p + 1)),
            Kind::Str(s) => Ok((string_expr(s), p + 1)),
            Kind::Ident(name) => p_name(t, p, name),
            Kind::Other(TokenType::True) => Ok((ExprV::Number("1"@), p + 1)),
            Kind::Other(TokenType::False) => Ok((ExprV::Number("0"@), p + 1)),
            Kind::Other(TokenType::Ask) => p_ask(t, p),
            Kind::Other(TokenType::LeftParen) => match p_expr(t, p + 1) {
                Ok((e, r)) => if r < t.len() && is(t, r, TokenType::RightParen) && r + 1 < t.len() {
                    Ok((e, r + 1))
                } else {
                    Err(expected_err(t, r, TokenType::RightParen))
                },
                Err(e) => Err(e),
            },
            Kind::Other(TokenType::LeftBracket) => {
                proof {
                    lemma_skip_nl(t, p + 1);
                }
                match array_elems(t, skip_nl(t, p + 1), seq![]) {
                    Ok((items, q)) => Ok((ExprV::Array(items), q)),
                    Err(e) => Err(e),
                }
            },
            _ => Err(unexpected(t, p)),
        }
    }
}

/// The expression of a string literal: interpolated when it has a
/// placeholder, plain otherwise.
pub open spec fn string_expr(s: Seq<char>) -> ExprV {
    if s.contains('{') && s.contains('}') {
        match interpolate(s) {
            Some(parts) => ExprV::Interpolated(parts),
            None => ExprV::Str(s),
        }
    } else {
        ExprV::Str(s)
    }
}

/// Characters that may appear in a placeholder name.
pub open spec fn is_name_char(c: char) -> bool {
    crate::text::unicode_alphanumeric(c) || c == '_' || c == '.'
}

/// The end of the placeholder name starting at `i`.
pub open spec fn name_end(s: Seq<char>, i: nat) -> nat
    decreases s.len() - i,
{
    if i < s.len() && is_name_char(s[i as int]) {
        name_end(s, i + 1)
    } else {
        i
    }
}

/// `name` split at its dots.
pub open spec fn split_dots(name: Seq<char>) -> Seq<Seq<char>>
    decreases name.len(),
{
    proof {
        crate::text::lemma_first_index_of_bound(name, '.');
    }
    match crate::text::first_index_of(name, '.') {
        None => seq![name],
        Some(k) => seq![name.take(k as int)] + split_dots(name.skip(k + 1 as int)),
    }
}

/// The variable named by the first of `parts`, with a field access for each
/// following part.
pub open spec fn field_chain(parts: Seq<Seq<char>>) -> ExprV
    decreases parts.len(),
{
    if parts.len() <= 1 {
        ExprV::Ident(if parts.len() == 1 { parts[0] } else { seq![] })
    } else {
        ExprV::Field(Box::new(field_chain(parts.drop_last())), parts.last())
    }
}

/// `parts` with `lit` appended as a string part when it is not empty.
pub open spec fn flush(parts: Seq<ExprV>, lit: Seq<char>) -> Seq<ExprV> {
    if lit.len() > 0 {
        parts.push(ExprV::Str(lit))
    } else {
        parts
    }
}

/// The parts of `s` from `i` on, after the literal text `lit` and the parts
/// `parts` collected so far; `has` tells whether a placeholder was seen.
pub open spec fn interp_scan(s: Seq<char>, i: nat, lit: Seq<char>, parts: Seq<ExprV>, has: bool) -> Option<
    Seq<ExprV>,
>
    decreases s.len() - i,
{
    if i >= s.len() {
        if has {
            Some(flush(parts, lit))
        } else {
            None
        }
    } else if s[i as int] == '{' {
        proof {
            lemma_name_end(s, i + 1);
        }
        let j = name_end(s, i + 1);
        let name = s.subrange(i + 1 as int, j as int);
        let closed = j < s.len() && s[j as int] == '}';
        if closed && name.len() > 0 {
            interp_scan(s, j + 1, seq![], flush(parts, lit).push(field_chain(split_dots(name))), true)
        } else if closed {
            interp_scan(s, j + 1, lit + seq!['{'] + name, parts, has)
        } else {
            interp_scan(s, j, lit + seq!['{'] + name, parts, has)
        }
    } else {
        interp_scan(s, i + 1, lit.push(s[i as int]), parts, has)
    }
}

/// The parts of a string with `{name}` placeholders, or `None` when it has
/// none.
pub open spec fn interpolate(s: Seq<char>) -> Option<Seq<ExprV>> {
    interp_scan(s, 0, seq![], seq![], false)
}

pub proof fn lemma_name_end(s: Seq<char>, i: nat)
    ensures
        i <= name_end(s, i),
        i <= s.len() ==> name_end(s, i) <= s.len(),
    decreases s.len() - i,
{
    if i < s.len() && is_name_char(s[i as int]) {
        lemma_name_end(s, i + 1);
    }
}


/// How an expression parse relates to its specification.
pub open spec fn expr_outcome(
    r: Result<Expr, String>,
    s: PResult<ExprV>,
    pos: nat,
    tk: Seq<Token>,
) -> bool {
    match s {
        Ok((v, q)) => r matches Ok(e) && e@ == v && pos == q,
        Err(e) => r matches Err(m) && reports(tk, e, m@),
    }
}

/// How the parse of a list of expressions relates to its specification.
pub open spec fn list_outcome(
    r: Result<Vec<Expr>, String>,
    s: PResult<Seq<ExprV>>,
    pos: nat,
    tk: Seq<Token>,
) -> bool {
    match s {
        Ok((v, q)) => r matches Ok(e) && expr_list_view(e@) == v && pos == q,
        Err(e) => r matches Err(m) && reports(tk, e, m@),
    }
}

/// The operator at the current position for precedence `level`.
pub fn level_op_exec(t: &TokenType, level: usize) -> (r: Option<BinaryOp>)
    requires
        level <= 4,
    ensures
        r == level_op(level as nat, t@),
{
    if level == 0 {
        match t { TokenType::Or => Some(BinaryOp::Or), _ => None }
    } else if level == 1 {
        match t { TokenType::And => Some(BinaryOp::And), _ => None }
    } else if level == 2 {
        match t {
            TokenType::Equal => Some(BinaryOp::Equal),
            TokenType::NotEqual => Some(BinaryOp::NotEqual),
            TokenType::Less => Some(BinaryOp::Less),
            TokenType::Greater => Some(BinaryOp::Greater),
            TokenType::LessEqual => Some(BinaryOp::LessEqual),
            TokenType::GreaterEqual => Some(BinaryOp::GreaterEqual),
            _ => None,
        }
    } else if level == 3 {
        match t {
            TokenType::Plus => Some(BinaryOp::Add),
            TokenType::Minus => Some(BinaryOp::Subtract),
            _ => None,
        }
    } else {
        match t {
            TokenType::Multiply => Some(BinaryOp::Multiply),
            TokenType::Divide => Some(BinaryOp::Divide),
            TokenType::Modulo => Some(BinaryOp::Modulo),
            _ => None,
        }
    }
}

/// Whether `c` may appear in a placeholder name.
fn name_char(c: char) -> (b: bool)
    ensures
        b == is_name_char(c),
{
    is_alphanumeric(c) || c == '_' || c == '.'
}

/// Whether `c` occurs in `v`.
fn contains_char(v: &Vec<char>, c: char) -> (b: bool)
    ensures
        b == v@.contains(c),
{
    let mut i: usize = 0;
    while i < v.len()
        invariant
            i <= v@.len(),
            forall|j: int| 0 <= j < i ==> v@[j] != c,
        decreases v@.len() - i,
    {
        if v[i] == c {
            return true;
        }
        i = i + 1;
    }
    false
}

/// The variable named by the first dot-separated part of `name`, with a
/// field access for each following part.
fn field_chain_exec(name: &Vec<char>) -> (e: Expr)
    ensures
        e@ == field_chain(split_dots(name@)),
{
    let ghost full = name@;
    let mut st: usize = 0;
    let mut k: usize = 0;
    let mut acc: Option<Expr> = None;
    let ghost mut segs: Seq<Seq<char>> = seq![];
    assert(full.skip(0) =~= full);
    assert(segs + split_dots(full) =~= split_dots(full));
    while k < name.len()
        invariant
            st <= k <= name@.len(),
            name@ == full,
            split_dots(full) == segs + split_dots(full.skip(st as int)),
            forall|j: int| st <= j < k ==> full[j] != '.',
            segs.len() == 0 <==> acc is None,
            acc matches Some(e) ==> e@ == field_chain(segs),
        decreases name@.len() - k,
    {
        if name[k] == '.' {
            let seg_chars = slice_chars(name, st, k);
            let ghost rest = full.skip(st as int);
            proof {
                lemma_first_index_of(rest, '.', (k - st) as int);
                assert(rest.take((k - st) as int) =~= seg_chars@);
                assert(rest.skip((k - st) + 1) =~= full.skip(k + 1));
                assert(split_dots(rest) == seq![seg_chars@] + split_dots(full.skip(k + 1)));
                assert(segs + split_dots(rest) =~= segs.push(seg_chars@) + split_dots(full.skip(k + 1)));
            }
            let seg = string_from_chars(seg_chars.as_slice());
            acc = match acc {
                None => Some(Expr::Identifier(seg)),
                Some(e) => Some(Expr::FieldAccess { object: Box::new(e), field: seg }),
            };
            proof {
                assert(segs.push(seg_chars@).drop_last() =~= segs);
                segs = segs.push(seg_chars@);
            }
            st = k + 1;
        }
        k = k + 1;
    }
    let seg_chars = slice_chars(name, st, k);
    let ghost rest = full.skip(st as int);
    proof {
        lemma_first_index_of(rest, '.', rest.len() as int);
        assert(rest =~= seg_chars@);
        assert(segs + split_dots(rest) =~= segs.push(seg_chars@));
        assert(segs.push(seg_chars@).drop_last() =~= segs);
    }
    let seg = string_from_chars(seg_chars.as_slice());
    match acc {
        None => Expr::Identifier(seg),
        Some(e) => Expr::FieldAccess { object: Box::new(e), field: seg },
    }
}

/// Appends the pending literal text `lit`, when there is any, to `parts`
/// as a string part, and empties `lit`.
fn flush_exec(parts: &mut Vec<Expr>, lit: &mut Vec<char>)
    ensures
        expr_list_view(final(parts)@) == flush(expr_list_view(old(parts)@), old(lit)@),
        final(lit)@.len() == 0,
{
    if lit.len() > 0 {
        let text = string_from_chars(lit.as_slice());
        let ghost before = parts@;
        parts.push(Expr::String(text));
        assert(expr_list_view(parts@) =~= expr_list_view(before).push(ExprV::Str(old(lit)@)));
        *lit = Vec::new();
    }
}

/// The parts of a string with `{name}` placeholders: literal text and
/// variables (with field accesses for dotted names); `None` when it has no
/// placeholder.
pub fn parse_interpolated_string(s: &String) -> (r: Option<Vec<Expr>>)
    ensures
        match interpolate(s@) {
            Some(v) => r matches Some(x) && expr_list_view(x@) == v,
            None => r is None,
        },
{
    let chars = chars_of(s.as_str());
    let n = chars.len();
    let mut parts: Vec<Expr> = Vec::new();
    let mut lit: Vec<char> = Vec::new();
    let mut has = false;
    let mut i: usize = 0;
    assert(expr_list_view(parts@) =~= Seq::<ExprV>::empty());
    assert(lit@ =~= Seq::<char>::empty());
    while i < n
        invariant
            chars@ == s@,
            n == chars@.len(),
            i <= n,
            interpolate(s@) == interp_scan(s@, i as nat, lit@, expr_list_view(parts@), has),
        decreases n - i,
    {
        if chars[i] == '{' {
            let mut j = i + 1;
            while j < n && name_char(chars[j])
                invariant
                    i + 1 <= j <= n,
                    chars@ == s@,
                    n == chars@.len(),
                    name_end(s@, (i + 1) as nat) == name_end(s@, j as nat),
                decreases n - j,
            {
                j = j + 1;
            }
            let name = slice_chars(&chars, i + 1, j);
            let closed = j < n && chars[j] == '}';
            if closed && name.len() > 0 {
                flush_exec(&mut parts, &mut lit);
                let e = field_chain_exec(&name);
                let ghost before = parts@;
                parts.push(e);
                assert(expr_list_view(parts@) =~= expr_list_view(before).push(e@));
                has = true;
                i = j + 1;
                assert(lit@ =~= Seq::<char>::empty());
            } else {
                let ghost l0 = lit@;
                lit.push('{');
                push_chars(&mut lit, &name);
                assert(lit@ =~= l0 + seq!['{'] + name@);
                if closed {
                    i = j + 1;
                } else {
                    i = j;
                }
            }
        } else {
            lit.push(chars[i]);
            i = i + 1;
        }
    }
    flush_exec(&mut parts, &mut lit);
    if has {
        Some(parts)
    } else {
        None
    }
}

/// The expression of string literal `s`: interpolated when it has a
/// placeholder, plain otherwise.
pub fn string_expr_exec(s: &String) -> (e: Expr)
    ensures
        e@ == string_expr(s@),
{
    let chars = chars_of(s.as_str());
    if contains_char(&chars, '{') && contains_char(&chars, '}') {
        match parse_interpolated_string(s) {
            Some(parts) => {
                let ghost pv = parts@;
                let e = Expr::InterpolatedString(parts);
                assert(e@ == ExprV::Interpolated(expr_list_view(pv))) by {
                    if let ExprV::Interpolated(v) = e@ {
                        assert(v =~= expr_list_view(pv));
                    }
                }
                return e;
            },
            None => {},
        }
    }
    Expr::String(copy_string(s))
}

/// A copy of `s` with the same characters.
pub fn copy_string(s: &String) -> (c: String)
    ensures
        c@ == s@,
{
    s.clone()
}

impl Parser {
    /// Parses an expression.
    pub fn parse_expression(&mut self) -> (r: Result<Expr, String>)
        requires
            old(self).wf(),
        ensures
            final(self).wf(),
            final(self).tokens@ == old(self).tokens@,
            expr_outcome(r, p_expr(old(self).toks(), old(self).pos()), final(self).pos(), old(self).tokens@),
            r is Ok ==> final(self).pos() > old(self).pos(),
        decreases old(self).toks().len() - old(self).pos(), 70nat,
    {
        self.parse_binary(0)
    }

    /// Parses an operand for precedence `level`.
    fn parse_operand(&mut self, level: usize) -> (r: Result<Expr, String>)
        requires
            old(self).wf(),
            level <= 4,
        ensures
            final(self).wf(),
            final(self).tokens@ == old(self).tokens@,
            expr_outcome(r, p_operand(old(self).toks(), old(self).pos(), level as nat), final(self).pos(), old(self).tokens@),
            r is Ok ==> final(self).pos() > old(self).pos(),
        decreases old(self).toks().len() - old(self).pos(), (4 * (15 - level) + 1) as nat,
    {
        if level == 4 {
            self.parse_unary()
        } else {
            self.parse_binary(level + 1)
        }
    }

    /// Parses a left-associative chain of operators of precedence `level`
    /// (0: `or`, 1: `and`, 2: comparisons, 3: `+ -`, 4: `* / %`).
    pub fn parse_binary(&mut self, level: usize) -> (r: Result<Expr, String>)
        requires
            old(self).wf(),
            level <= 4,
        ensures
            final(self).wf(),
            final(self).tokens@ == old(self).tokens@,
            expr_outcome(r, p_bin(old(self).toks(), old(self).pos(), level as nat), final(self).pos(), old(self).tokens@),
            r is Ok ==> final(self).pos() > old(self).pos(),
        decreases old(self).toks().len() - old(self).pos(), (4 * (15 - level) + 3) as nat,
    {
        let ghost t = self.toks();
        let ghost p = self.position as nat;
        let mut left = self.parse_operand(level)?;
        loop
            invariant
                self.wf(),
                self.toks() == t,
                self.tokens@ == old(self).tokens@,
                t == old(self).toks(),
                p == old(self).pos(),
                level <= 4,
                self.position > p,
                p_bin(t, p, level as nat) == bin_rest(t, p, self.position as nat, left@, level as nat),
            decreases t.len() - self.position,
        {
            let ghost q = self.position as nat;
            match level_op_exec(&self.tokens[self.position].token_type, level) {
                None => {
                    return Ok(left);
                },
                Some(op) => {
                    self.advance();
                    let right = self.parse_operand(level)?;
                    left = Expr::Binary { left: Box::new(left), op, right: Box::new(right) };
                },
            }
        }
    }

    /// The error for a token that cannot start an expression.
    pub fn unexpected_token(&self) -> (m: String)
        requires
            self.wf(),
        ensures
            reports(self.tokens@, unexpected(self.toks(), self.pos()), m@),
    {
        let mut m: Vec<char> = Vec::new();
        push_str(&mut m, "Unexpected token ");
        push_str(&mut m, token_name(&self.current_token().token_type));
        let prefix = string_from_chars(m.as_slice());
        proof {
            assert(self.toks()[self.pos() as int] == self.tokens@[self.pos() as int].token_type@);
            lemma_unexpected_free(self.toks(), self.pos());
        }
        self.error_here(prefix.as_str())
    }

    /// Parses an `ask` expression: `ask`, `ask "prompt"` or
    /// `ask(prompt)`.
    fn parse_ask(&mut self) -> (r: Result<Expr, String>)
        requires
            old(self).wf(),
            is(old(self).toks(), old(self).pos(), TokenType::Ask),
        ensures
            final(self).wf(),
            final(self).tokens@ == old(self).tokens@,
            expr_outcome(r, p_ask(old(self).toks(), old(self).pos()), final(self).pos(), old(self).tokens@),
            r is Ok ==> final(self).pos() > old(self).pos(),
        decreases old(self).toks().len() - old(self).pos(), 5nat,
    {
        self.advance();
        let mut args: Vec<Expr> = Vec::new();
        if self.at(&TokenType::LeftParen) {
            self.advance();
            if !self.at(&TokenType::RightParen) {
                let a = self.parse_expression()?;
                args.push(a);
            }
            self.expect(TokenType::RightParen)?;
        } else {
            match &self.tokens[self.position].token_type {
                TokenType::String(text) => {
                    let e = string_expr_exec(text);
                    self.advance();
                    args.push(e);
                },
                _ => {},
            }
        }
        let ghost av = args@;
        let e = Expr::Call { name: String::from_str("ask"), args };
        assert(e@ == ExprV::Call("ask"@, expr_list_view(av))) by {
            if let ExprV::Call(_, v) = e@ {
                assert(v =~= expr_list_view(av));
            }
        }
        assert(av.len() == 0 ==> expr_list_view(av) =~= Seq::<ExprV>::empty());
        assert(av.len() == 1 ==> expr_list_view(av) =~= seq![av[0]@]);
        Ok(e)
    }

    /// Parses the `::`-separated parts of a qualified name after `first`.
    pub fn parse_qualified(&mut self, first: String) -> (r: Result<String, String>)
        requires
            old(self).wf(),
        ensures
            final(self).wf(),
            final(self).tokens@ == old(self).tokens@,
            match p_qualified(old(self).toks(), old(self).pos(), first@) {
                Ok((v, q)) => r matches Ok(n) && n@ == v && final(self).pos() == q,
                Err(e) => r matches Err(m) && reports(old(self).tokens@, e, m@),
            },
            r is Ok ==> final(self).pos() >= old(self).pos(),
    {
        let ghost t = self.toks();
        let ghost p = self.position as nat;
        let mut name = first;
        while self.at(&TokenType::ColonColon)
            invariant
                self.wf(),
                self.toks() == t,
                self.tokens@ == old(self).tokens@,
                t == old(self).toks(),
                p == old(self).pos(),
                self.position >= p,
                p_qualified(t, p, first@) == p_qualified(t, self.position as nat, name@),
            decreases t.len() - self.position,
        {
            self.advance();
            let member = match &self.tokens[self.position].token_type {
                TokenType::Identifier(m) => copy_string(m),
                _ => {
                    proof {
                        lemma_messages_free();
                    }
                    return Err(self.error_here("Expected identifier after '::' in name"));
                },
            };
            self.advance();
            let mut joined = chars_of(name.as_str());
            push_str(&mut joined, "::");
            let mc = chars_of(member.as_str());
            push_chars(&mut joined, &mc);
            name = string_from_chars(joined.as_slice());
        }
        Ok(name)
    }

    /// Parses what follows the name `name` at the current token: a call,
    /// a struct initialisation or nothing (a variable).
    fn parse_name(&mut self, name: String) -> (r: Result<Expr, String>)
        requires
            old(self).wf(),
            kind(old(self).toks(), old(self).pos()) == Kind::Ident(name@),
        ensures
            final(self).wf(),
            final(self).tokens@ == old(self).tokens@,
            expr_outcome(r, p_name(old(self).toks(), old(self).pos(), name@), final(self).pos(), old(self).tokens@),
            r is Ok ==> final(self).pos() > old(self).pos(),
        decreases old(self).toks().len() - old(self).pos(), 5nat,
    {
        let ghost t = self.toks();
        let ghost p = self.position as nat;
        self.advance();
        let name = self.parse_qualified(name)?;
        let ghost i = self.position as nat;
        if self.at(&TokenType::LeftParen) {
            self.advance();
            let empty: Vec<Expr> = Vec::new();
            assert(expr_list_view(empty@) =~= Seq::<ExprV>::empty());
            let args = self.parse_call_args(empty)?;
            let ghost av = args@;
            let e = Expr::Call { name, args };
            assert(e@ == ExprV::Call(name@, expr_list_view(av))) by {
                if let ExprV::Call(_, v) = e@ {
                    assert(v =~= expr_list_view(av));
                }
            }
            Ok(e)
        } else if self.at(&TokenType::LeftBrace) {
            self.advance();
            proof {
                lemma_skip_nl(t, i + 1);
            }
            self.skip_newlines();
            let empty: Vec<(String, Expr)> = Vec::new();
            assert(fields_view(empty@) =~= Seq::<(Seq<char>, ExprV)>::empty());
            let fields = self.parse_struct_fields(empty)?;
            let ghost fv = fields@;
            let e = Expr::StructInit { name, fields };
            assert(e@ == ExprV::StructInit(name@, fields_view(fv))) by {
                if let ExprV::StructInit(_, v) = e@ {
                    assert(v =~= fields_view(fv));
                }
            }
            Ok(e)
        } else {
            Ok(Expr::Identifier(name))
        }
    }

    /// Parses a primary expression: a literal, a name, a call, a struct
    /// initialisation, `ask`, a parenthesised expression or an array
    /// literal.
    pub fn parse_primary(&mut self) -> (r: Result<Expr, String>)
        requires
            old(self).wf(),
        ensures
            final(self).wf(),
            final(self).tokens@ == old(self).tokens@,
            expr_outcome(r, p_primary(old(self).toks(), old(self).pos()), final(self).pos(), old(self).tokens@),
            r is Ok ==> final(self).pos() > old(self).pos(),
        decreases old(self).toks().len() - old(self).pos(), 6nat,
    {
        let ghost t = self.toks();
        let ghost p = self.position as nat;
        match &self.tokens[self.position].token_type {
            TokenType::Number(n) => {
                let num = copy_string(n);
                self.advance();
                Ok(Expr::Number(num))
            },
            TokenType::String(text) => {
                let e = string_expr_exec(text);
                self.advance();
                Ok(e)
            },
            TokenType::True => {
                self.advance();
                Ok(Expr::Number(String::from_str("1")))
            },
            TokenType::False => {
                self.advance();
                Ok(Expr::Number(String::from_str("0")))
            },
            TokenType::Ask => self.parse_ask(),
            TokenType::Identifier(id) => {
                let name = copy_string(id);
                self.parse_name(name)
            },
            TokenType::LeftParen => {
                self.advance();
                let e = self.parse_expression()?;
                self.expect(TokenType::RightParen)?;
                Ok(e)
            },
            TokenType::LeftBracket => {
                self.advance();
                proof {
                    lemma_skip_nl(t, p + 1);
                }
                self.skip_newlines();
                let empty: Vec<Expr> = Vec::new();
                assert(expr_list_view(empty@) =~= Seq::<ExprV>::empty());
                let items = self.parse_array_elems(empty)?;
                let ghost iv = items@;
                let e = Expr::Array(items);
                assert(e@ == ExprV::Array(expr_list_view(iv))) by {
                    if let ExprV::Array(v) = e@ {
                        assert(v =~= expr_list_view(iv));
                    }
                }
                Ok(e)
            },
            _ => Err(self.unexpected_token()),
        }
    }

    /// Parses a prefix `-` or `not`, or a postfix expression.
    pub fn parse_unary(&mut self) -> (r: Result<Expr, String>)
        requires
            old(self).wf(),
        ensures
            final(self).wf(),
            final(self).tokens@ == old(self).tokens@,
            expr_outcome(r, p_unary(old(self).toks(), old(self).pos()), final(self).pos(), old(self).tokens@),
            r is Ok ==> final(self).pos() > old(self).pos(),
        decreases old(self).toks().len() - old(self).pos(), 10nat,
    {
        let op = match &self.tokens[self.position].token_type {
            TokenType::Minus => Some(UnaryOp::Negate),
            TokenType::Not => Some(UnaryOp::Not),
            _ => None,
        };
        match op {
            Some(op) => {
                self.advance();
                let expr = self.parse_unary()?;
                Ok(Expr::Unary { op, expr: Box::new(expr) })
            },
            None => self.parse_postfix(),
        }
    }

    /// Parses a primary expression followed by indexing and field accesses.
    #[verifier::rlimit(40)]
    pub fn parse_postfix(&mut self) -> (r: Result<Expr, String>)
        requires
            old(self).wf(),
        ensures
            final(self).wf(),
            final(self).tokens@ == old(self).tokens@,
            expr_outcome(r, p_postfix(old(self).toks(), old(self).pos()), final(self).pos(), old(self).tokens@),
            r is Ok ==> final(self).pos() > old(self).pos(),
        decreases old(self).toks().len() - old(self).pos(), 8nat,
    {
        let ghost t = self.toks();
        let ghost p = self.position as nat;
        let mut expr = self.parse_primary()?;
        loop
            invariant
                self.wf(),
                self.toks() == t,
                self.tokens@ == old(self).tokens@,
                t == old(self).toks(),
                p == old(self).pos(),
                self.position > p,
                p_postfix(t, p) == postfix_rest(t, self.position as nat, expr@),
            decreases t.len() - self.position,
        {
            if self.position == self.tokens.len() - 1 {
                return Ok(expr);
            }
            if self.at(&TokenType::LeftBracket) {
                self.advance();
                let index = self.parse_expression()?;
                self.expect(TokenType::RightBracket)?;
                expr = Expr::Index { array: Box::new(expr), index: Box::new(index) };
            } else if self.at(&TokenType::Dot) {
                self.advance();
                let field = match &self.tokens[self.position].token_type {
                    TokenType::Identifier(f) => copy_string(f),
                    _ => {
                        proof {
                            lemma_messages_free();
                        }
                        return Err(self.error_here("Expected field name after '.'"));
                    },
                };
                self.advance();
                expr = Expr::FieldAccess { object: Box::new(expr), field };
            } else {
                return Ok(expr);
            }
        }
    }

    /// Parses call arguments up to and including the closing parenthesis.
    fn parse_call_args(&mut self, args: Vec<Expr>) -> (r: Result<Vec<Expr>, String>)
        requires
            old(self).wf(),
        ensures
            final(self).wf(),
            final(self).tokens@ == old(self).tokens@,
            list_outcome(
                r,
                call_args(old(self).toks(), old(self).pos(), expr_list_view(args@)),
                final(self).pos(),
                old(self).tokens@,
            ),
            r is Ok ==> final(self).pos() > old(self).pos(),
        decreases old(self).toks().len() - old(self).pos(), 80nat,
    {
        let ghost t = self.toks();
        let ghost p = self.position as nat;
        let mut acc = args;
        while !self.at(&TokenType::RightParen)
            invariant
                self.wf(),
                self.toks() == t,
                self.tokens@ == old(self).tokens@,
                t == old(self).toks(),
                p == old(self).pos(),
                self.position >= p,
                call_args(t, p, expr_list_view(args@)) == call_args(
                    t,
                    self.position as nat,
                    expr_list_view(acc@),
                ),
            decreases t.len() - self.position,
        {
            let ghost q = self.position as nat;
            let a = self.parse_expression()?;
            let ghost before = acc@;
            acc.push(a);
            assert(expr_list_view(acc@) =~= expr_list_view(before).push(a@));
            if self.at(&TokenType::Comma) {
                self.advance();
            }
        }
        self.expect(TokenType::RightParen)?;
        Ok(acc)
    }

    /// Parses array elements up to and including the closing bracket.
    fn parse_array_elems(&mut self, items: Vec<Expr>) -> (r: Result<Vec<Expr>, String>)
        requires
            old(self).wf(),
        ensures
            final(self).wf(),
            final(self).tokens@ == old(self).tokens@,
            list_outcome(
                r,
                array_elems(old(self).toks(), old(self).pos(), expr_list_view(items@)),
                final(self).pos(),
                old(self).tokens@,
            ),
            r is Ok ==> final(self).pos() > old(self).pos(),
        decreases old(self).toks().len() - old(self).pos(), 80nat,
    {
        let ghost t = self.toks();
        let ghost p = self.position as nat;
        let mut acc = items;
        while !self.at(&TokenType::RightBracket)
            invariant
                self.wf(),
                self.toks() == t,
                self.tokens@ == old(self).tokens@,
                t == old(self).toks(),
                p == old(self).pos(),
                self.position >= p,
                array_elems(t, p, expr_list_view(items@)) == array_elems(
                    t,
                    self.position as nat,
                    expr_list_view(acc@),
                ),
            decreases t.len() - self.position,
        {
            let a = self.parse_expression()?;
            let ghost before = acc@;
            acc.push(a);
            assert(expr_list_view(acc@) =~= expr_list_view(before).push(a@));
            proof {
                lemma_skip_nl(t, self.position as nat);
            }
            self.skip_newlines();
            if self.at(&TokenType::Comma) {
                self.advance();
                proof {
                    lemma_skip_nl(t, self.position as nat);
                }
                self.skip_newlines();
            } else if !self.at(&TokenType::RightBracket) {
                proof {
                    lemma_messages_free();
                }
                return Err(self.error_here("Expected ',' or ']' after array element"));
            }
        }
        self.expect(TokenType::RightBracket)?;
        Ok(acc)
    }

    /// Parses struct initialisation fields up to and including the closing
    /// brace.
    fn parse_struct_fields(&mut self, fields: Vec<(String, Expr)>) -> (r: Result<
        Vec<(String, Expr)>,
        String,
    >)
        requires
            old(self).wf(),
        ensures
            final(self).wf(),
            final(self).tokens@ == old(self).tokens@,
            match struct_fields(old(self).toks(), old(self).pos(), fields_view(fields@)) {
                Ok((v, q)) => r matches Ok(f) && fields_view(f@) == v && final(self).pos() == q,
                Err(e) => r matches Err(m) && reports(old(self).tokens@, e, m@),
            },
            r is Ok ==> final(self).pos() > old(self).pos(),
        decreases old(self).toks().len() - old(self).pos(), 80nat,
    {
        let ghost t = self.toks();
        let ghost p = self.position as nat;
        let mut acc = fields;
        while !self.at(&TokenType::RightBrace)
            invariant
                self.wf(),
                self.toks() == t,
                self.tokens@ == old(self).tokens@,
                t == old(self).toks(),
                p == old(self).pos(),
                self.position >= p,
                struct_fields(t, p, fields_view(fields@)) == struct_fields(
                    t,
                    self.position as nat,
                    fields_view(acc@),
                ),
            decreases t.len() - self.position,
        {
            let ghost q = self.position as nat;
            proof {
                lemma_skip_nl(t, q);
            }
            self.skip_newlines();
            if self.at(&TokenType::RightBrace) {
                self.advance();
                return Ok(acc);
            }
            let field_name = match &self.tokens[self.position].token_type {
                TokenType::Identifier(f) => copy_string(f),
                _ => {
                    proof {
                        lemma_messages_free();
                    }
                    return Err(self.error_here("Expected field name in struct initialization"));
                },
            };
            self.advance();
            if self.at(&TokenType::Colon) || self.at(&TokenType::Assign) {
                self.advance();
            } else {
                proof {
                    lemma_messages_free();
                }
                return Err(self.error_here("Expected ':' or '=' after field name"));
            }
            let val = self.parse_expression()?;
            let ghost before = acc@;
            let ghost vv = val@;
            acc.push((field_name, val));
            assert(fields_view(acc@) =~= fields_view(before).push((field_name@, vv)));
            proof {
                lemma_skip_nl(t, self.position as nat);
            }
            self.skip_newlines();
            if self.at(&TokenType::Comma) {
                self.advance();
                proof {
                    lemma_skip_nl(t, self.position as nat);
                }
                self.skip_newlines();
            }
        }
        self.expect(TokenType::RightBrace)?;
        Ok(acc)
    }
}


/// The tokens of `a k b` followed by the end of input, for names `a` and
/// `b` and an operator token `k`.
pub open spec fn binary_tokens(a: Seq<char>, k: TokenType, b: Seq<char>) -> Seq<Kind> {
    seq![Kind::Ident(a), Kind::Other(k), Kind::Ident(b), Kind::Other(TokenType::Eof)]
}

/// Whether `k` may follow a name that stands alone as a variable.
spec fn ends_name(k: TokenType) -> bool {
    k != TokenType::ColonColon && k != TokenType::LeftParen && k != TokenType::LeftBrace && k
        != TokenType::LeftBracket && k != TokenType::Dot
}

/// The names on either side of the operator are variables.
proof fn lemma_binary_operands(a: Seq<char>, k: TokenType, b: Seq<char>)
    requires
        ends_name(k),
    ensures
        p_unary(binary_tokens(a, k, b), 0) == Ok::<(ExprV, nat), PErr>((ExprV::Ident(a), 1)),
        p_unary(binary_tokens(a, k, b), 2) == Ok::<(ExprV, nat), PErr>((ExprV::Ident(b), 3)),
{
    let t = binary_tokens(a, k, b);
    assert(p_qualified(t, 1, a) == Ok::<(Seq<char>, nat), PErr>((a, 1)));
    assert(p_name(t, 0, a) == Ok::<(ExprV, nat), PErr>((ExprV::Ident(a), 1)));
    assert(p_primary(t, 0) == Ok::<(ExprV, nat), PErr>((ExprV::Ident(a), 1)));
    assert(postfix_rest(t, 1, ExprV::Ident(a)) == Ok::<(ExprV, nat), PErr>((ExprV::Ident(a), 1)));
    assert(p_postfix(t, 0) == Ok::<(ExprV, nat), PErr>((ExprV::Ident(a), 1)));
    assert(p_qualified(t, 3, b) == Ok::<(Seq<char>, nat), PErr>((b, 3)));
    assert(p_name(t, 2, b) == Ok::<(ExprV, nat), PErr>((ExprV::Ident(b), 3)));
    assert(p_primary(t, 2) == Ok::<(ExprV, nat), PErr>((ExprV::Ident(b), 3)));
    assert(postfix_rest(t, 3, ExprV::Ident(b)) == Ok::<(ExprV, nat), PErr>((ExprV::Ident(b), 3)));
    assert(p_postfix(t, 2) == Ok::<(ExprV, nat), PErr>((ExprV::Ident(b), 3)));
}

/// The right-hand name is a complete operand at every level.
proof fn lemma_binary_right(a: Seq<char>, k: TokenType, b: Seq<char>, level: nat)
    requires
        ends_name(k),
        level <= 4,
    ensures
        p_operand(binary_tokens(a, k, b), 2, level) == Ok::<(ExprV, nat), PErr>((ExprV::Ident(b), 3)),
    decreases 4 - level,
{
    let t = binary_tokens(a, k, b);
    lemma_binary_operands(a, k, b);
    if level < 4 {
        lemma_binary_right(a, k, b, level + 1);
        assert(level_op(level + 1, kind(t, 3)) is None);
        assert(bin_rest(t, 2, 3, ExprV::Ident(b), level + 1) == Ok::<(ExprV, nat), PErr>((ExprV::Ident(b), 3)));
        assert(p_bin(t, 2, level + 1) == Ok::<(ExprV, nat), PErr>((ExprV::Ident(b), 3)));
    }
}

/// The expression at each level: the left name alone above the level of
/// the operator, the binary expression at it and below.
proof fn lemma_binary_left(a: Seq<char>, k: TokenType, b: Seq<char>, op: BinaryOp, at: nat, level: nat)
    requires
        ends_name(k),
        at <= 4,
        level <= 4,
        level_op(at, Kind::Other(k)) == Some(op),
        forall|l: nat| l <= 4 && l != at ==> (#[trigger] level_op(l, Kind::Other(k))) is None,
    ensures
        p_bin(binary_tokens(a, k, b), 0, level) == if level > at {
            Ok::<(ExprV, nat), PErr>((ExprV::Ident(a), 1))
        } else {
            Ok::<(ExprV, nat), PErr>((bin(ExprV::Ident(a), op, ExprV::Ident(b)), 3))
        },
    decreases 4 - level,
{
    let t = binary_tokens(a, k, b);
    let e = bin(ExprV::Ident(a), op, ExprV::Ident(b));
    lemma_binary_operands(a, k, b);
    if level < 4 {
        lemma_binary_left(a, k, b, op, at, level + 1);
    }
    assert(p_operand(t, 0, level) == if level + 1 > at {
        Ok::<(ExprV, nat), PErr>((ExprV::Ident(a), 1))
    } else {
        Ok::<(ExprV, nat), PErr>((e, 3))
    });
    assert(level_op(level, kind(t, 3)) is None);
    assert(kind(t, 1) == Kind::Other(k));
    if level > at {
        assert(level_op(level, kind(t, 1)) is None);
    } else if level == at {
        lemma_binary_right(a, k, b, level);
        assert(bin_rest(t, 0, 3, e, level) == Ok::<(ExprV, nat), PErr>((e, 3)));
        assert(bin_rest(t, 0, 1, ExprV::Ident(a), level) == Ok::<(ExprV, nat), PErr>((e, 3)));
    } else {
        assert(bin_rest(t, 0, 3, e, level) == Ok::<(ExprV, nat), PErr>((e, 3)));
    }
}

/// `a k b` parses to the binary expression of `a` and `b` under `op`,
/// when `k` stands for `op` at one precedence level and for nothing at the
/// others.
proof fn lemma_binary_parse(a: Seq<char>, k: TokenType, b: Seq<char>, op: BinaryOp, at: nat)
    requires
        ends_name(k),
        at <= 4,
        level_op(at, Kind::Other(k)) == Some(op),
        forall|l: nat| l <= 4 && l != at ==> (#[trigger] level_op(l, Kind::Other(k))) is None,
    ensures
        p_expr(binary_tokens(a, k, b), 0) == Ok::<(ExprV, nat), PErr>(
            (bin(ExprV::Ident(a), op, ExprV::Ident(b)), 3),
        ),
{
    lemma_binary_left(a, k, b, op, at, 0);
}

/// Each binary operator token joins the operands on either side of it
/// under its own operator: `+` adds, `-` subtracts, `*` multiplies, `/`
/// divides, `%` takes the remainder, `==`, `!=`, `<`, `>`, `<=`, `>=`
/// compare, and `and` and `or` combine truth values.
pub proof fn lemma_binary_operator_tokens(a: Seq<char>, b: Seq<char>)
    ensures
        p_expr(binary_tokens(a, TokenType::Plus, b), 0) == Ok::<(ExprV, nat), PErr>(
            (bin(ExprV::Ident(a), BinaryOp::Add, ExprV::Ident(b)), 3),
        ),
        p_expr(binary_tokens(a, TokenType::Minus, b), 0) == Ok::<(ExprV, nat), PErr>(
            (bin(ExprV::Ident(a), BinaryOp::Subtract, ExprV::Ident(b)), 3),
        ),
        p_expr(binary_tokens(a, TokenType::Multiply, b), 0) == Ok::<(ExprV, nat), PErr>(
            (bin(ExprV::Ident(a), BinaryOp::Multiply, ExprV::Ident(b)), 3),
        ),
        p_expr(binary_tokens(a, TokenType::Divide, b), 0) == Ok::<(ExprV, nat), PErr>(
            (bin(ExprV::Ident(a), BinaryOp::Divide, ExprV::Ident(b)), 3),
        ),
        p_expr(binary_tokens(a, TokenType::Modulo, b), 0) == Ok::<(ExprV, nat), PErr>(
            (bin(ExprV::Ident(a), BinaryOp::Modulo, ExprV::Ident(b)), 3),
        ),
        p_expr(binary_tokens(a, TokenType::Equal, b), 0) == Ok::<(ExprV, nat), PErr>(
            (bin(ExprV::Ident(a), BinaryOp::Equal, ExprV::Ident(b)), 3),
        ),
        p_expr(binary_tokens(a, TokenType::NotEqual, b), 0) == Ok::<(ExprV, nat), PErr>(
            (bin(ExprV::Ident(a), BinaryOp::NotEqual, ExprV::Ident(b)), 3),
        ),
        p_expr(binary_tokens(a, TokenType::Less, b), 0) == Ok::<(ExprV, nat), PErr>(
            (bin(ExprV::Ident(a), BinaryOp::Less, ExprV::Ident(b)), 3),
        ),
        p_expr(binary_tokens(a, TokenType::Greater, b), 0) == Ok::<(ExprV, nat), PErr>(
            (bin(ExprV::Ident(a), BinaryOp::Greater, ExprV::Ident(b)), 3),
        ),
        p_expr(binary_tokens(a, TokenType::LessEqual, b), 0) == Ok::<(ExprV, nat), PErr>(
            (bin(ExprV::Ident(a), BinaryOp::LessEqual, ExprV::Ident(b)), 3),
        ),
        p_expr(binary_tokens(a, TokenType::GreaterEqual, b), 0) == Ok::<(ExprV, nat), PErr>(
            (bin(ExprV::Ident(a), BinaryOp::GreaterEqual, ExprV::Ident(b)), 3),
        ),
        p_expr(binary_tokens(a, TokenType::And, b), 0) == Ok::<(ExprV, nat), PErr>(
            (bin(ExprV::Ident(a), BinaryOp::And, ExprV::Ident(b)), 3),
        ),
        p_expr(binary_tokens(a, TokenType::Or, b), 0) == Ok::<(ExprV, nat), PErr>(
            (bin(ExprV::Ident(a), BinaryOp::Or, ExprV::Ident(b)), 3),
        ),
{
    lemma_binary_parse(a, TokenType::Plus, b, BinaryOp::Add, 3);
    lemma_binary_parse(a, TokenType::Minus, b, BinaryOp::Subtract, 3);
    lemma_binary_parse(a, TokenType::Multiply, b, BinaryOp::Multiply, 4);
    lemma_binary_parse(a, TokenType::Divide, b, BinaryOp::Divide, 4);
    lemma_binary_parse(a, TokenType::Modulo, b, BinaryOp::Modulo, 4);
    lemma_binary_parse(a, TokenType::Equal, b, BinaryOp::Equal, 2);
    lemma_binary_parse(a, TokenType::NotEqual, b, BinaryOp::NotEqual, 2);
    lemma_binary_parse(a, TokenType::Less, b, BinaryOp::Less, 2);
    lemma_binary_parse(a, TokenType::Greater, b, BinaryOp::Greater, 2);
    lemma_binary_parse(a, TokenType::LessEqual, b, BinaryOp::LessEqual, 2);
    lemma_binary_parse(a, TokenType::GreaterEqual, b, BinaryOp::GreaterEqual, 2);
    lemma_binary_parse(a, TokenType::And, b, BinaryOp::And, 1);
    lemma_binary_parse(a, TokenType::Or, b, BinaryOp::Or, 0);
}

} // verus!
