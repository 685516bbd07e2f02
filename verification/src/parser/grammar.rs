//! Statements as specification: what parsing from each token position
//! yields, and where it stops.

use vstd::prelude::*;
use crate::ast::{BinaryOp, ExprV, StmtV};
use crate::lexer::{Token, TokenType};
use crate::lexer::token::Kind;
use crate::text::{decimal, is_ascii_digit, lemma_decimal_value};
use crate::diagnostics::parser::{marker_free, space_at};
use super::{PErr, kind, is, skip_nl, lemma_skip_nl, expected_err, unexpected};
use super::expr::{PResult, p_expr, bin, p_qualified};
use super::defaults::expand_program;

verus! {

/// Where a block of statements ends.
#[derive(Clone, Copy, PartialEq, Eq, Structural)]
pub enum Stop {
    /// The end of the program.
    Program,
    /// `end`.
    End,
    /// The first branch of an `if`: `elif`, `else` or `end`.
    Branch,
    /// A `try` block: `catch` or `finally`.
    Try,
    /// A `catch` block: `finally` or `end`.
    Catch,
    /// The body of a `when` arm: the next `is`, `else` or `end`.
    Arm,
}

/// Whether a token of kind `k` ends a block of kind `stop`; the end of the
/// program ends every block.
pub open spec fn stops(stop: Stop, k: Kind) -> bool {
    k == Kind::Other(TokenType::Eof) || match stop {
        Stop::Program => false,
        Stop::End => k == Kind::Other(TokenType::End),
        Stop::Branch => k == Kind::Other(TokenType::Else) || k == Kind::Other(TokenType::Elif) || k
            == Kind::Other(TokenType::End),
        Stop::Try => k == Kind::Other(TokenType::Catch) || k == Kind::Other(TokenType::Finally),
        Stop::Catch => k == Kind::Other(TokenType::End) || k == Kind::Other(TokenType::Finally),
        Stop::Arm => k == Kind::Other(TokenType::Is) || k == Kind::Other(TokenType::Else) || k
            == Kind::Other(TokenType::End),
    }
}

/// The operator that a compound assignment (`+=`, `-=`, `*=`, `/=`)
/// applies.
pub open spec fn compound_op(k: Kind) -> Option<BinaryOp> {
    if k == Kind::Other(TokenType::PlusAssign) {
        Some(BinaryOp::Add)
    } else if k == Kind::Other(TokenType::MinusAssign) {
        Some(BinaryOp::Subtract)
    } else if k == Kind::Other(TokenType::MultiplyAssign) {
        Some(BinaryOp::Multiply)
    } else if k == Kind::Other(TokenType::DivideAssign) {
        Some(BinaryOp::Divide)
    } else {
        None
    }
}

/// The comparison that a token of kind `k` stands for.
pub open spec fn cmp_op(k: Kind) -> Option<BinaryOp> {
    if k == Kind::Other(TokenType::Equal) {
        Some(BinaryOp::Equal)
    } else if k == Kind::Other(TokenType::NotEqual) {
        Some(BinaryOp::NotEqual)
    } else if k == Kind::Other(TokenType::Less) {
        Some(BinaryOp::Less)
    } else if k == Kind::Other(TokenType::Greater) {
        Some(BinaryOp::Greater)
    } else if k == Kind::Other(TokenType::LessEqual) {
        Some(BinaryOp::LessEqual)
    } else if k == Kind::Other(TokenType::GreaterEqual) {
        Some(BinaryOp::GreaterEqual)
    } else {
        None
    }
}

/// A single statement as a one-statement list.
pub open spec fn one(r: PResult<StmtV>) -> PResult<Seq<StmtV>> {
    match r {
        Ok((s, q)) => Ok((seq![s], q)),
        Err(e) => Err(e),
    }
}

/// An expression used as a statement.
pub open spec fn p_expr_stmt(t: Seq<Kind>, q: nat) -> PResult<Seq<StmtV>> {
    match p_expr(t, q) {
        Ok((e, r)) => Ok((seq![StmtV::Expr(e)], r)),
        Err(e) => Err(e),
    }
}

/// Expressions separated by commas, from `i`, after those in `acc`.
pub open spec fn p_expr_list(t: Seq<Kind>, i: nat, acc: Seq<ExprV>) -> PResult<Seq<ExprV>>
    decreases t.len() - i,
{
    match p_expr(t, i) {
        Ok((v, j)) => if i < j < t.len() {
            if is(t, j, TokenType::Comma) && j + 1 < t.len() {
                p_expr_list(t, j + 1, acc.push(v))
            } else {
                Ok((acc.push(v), j))
            }
        } else {
            Err(unexpected(t, i))
        },
        Err(e) => Err(e),
    }
}

/// `import "path"`, optionally followed by `as alias`.
pub open spec fn p_import(t: Seq<Kind>, q: nat) -> PResult<StmtV> {
    if q + 2 >= t.len() {
        Err(("Expected string literal after 'import'"@, q + 1))
    } else {
        match kind(t, q + 1) {
            Kind::Str(path) => {
                let i = q + 2;
                if is(t, i, TokenType::As) && i + 2 < t.len() {
                    match kind(t, i + 1) {
                        Kind::Ident(a) => Ok((StmtV::Import(path, Some(a)), i + 2)),
                        _ => Err(("Expected identifier after 'as'"@, i + 1)),
                    }
                } else if is(t, i, TokenType::As) {
                    Err(("Expected identifier after 'as'"@, i + 1))
                } else {
                    Ok((StmtV::Import(path, None), i))
                }
            },
            _ => Err(("Expected string literal after 'import'"@, q + 1)),
        }
    }
}

/// `say expr`.
pub open spec fn p_say(t: Seq<Kind>, q: nat) -> PResult<StmtV> {
    if q + 1 >= t.len() {
        Err(unexpected(t, q))
    } else {
        match p_expr(t, q + 1) {
            Ok((e, r)) => Ok((StmtV::Say(e), r)),
            Err(e) => Err(e),
        }
    }
}

/// The names of a `let`, separated by commas, from `i`, after `acc`.
pub open spec fn p_let_names(t: Seq<Kind>, i: nat, acc: Seq<Seq<char>>) -> PResult<Seq<Seq<char>>>
    decreases t.len() - i,
{
    if i + 1 >= t.len() {
        Err(("Expected identifier after 'let'"@, i))
    } else {
        match kind(t, i) {
            Kind::Ident(n) => if is(t, i + 1, TokenType::Comma) && i + 2 < t.len() {
                p_let_names(t, i + 2, acc.push(n))
            } else {
                Ok((acc.push(n), i + 1))
            },
            _ => Err(("Expected identifier after 'let'"@, i)),
        }
    }
}

/// The bindings of `let` names to values: all names to the one value, or
/// name by name; `None` when the counts differ otherwise.
pub open spec fn let_bindings(names: Seq<Seq<char>>, values: Seq<ExprV>) -> Option<Seq<StmtV>> {
    if values.len() == 1 {
        Some(Seq::new(names.len(), |k: int| StmtV::Let(names[k], values[0])))
    } else if values.len() == names.len() {
        Some(Seq::new(names.len(), |k: int| StmtV::Let(names[k], values[k])))
    } else {
        None
    }
}

/// The failure of a `let` whose `names` names and `values` values cannot
/// be paired.
pub open spec fn let_mismatch(names: nat, values: nat) -> Seq<char> {
    "Mismatch in 'let' statement: "@ + decimal(names) + " variables defined but "@ + decimal(values)
        + " values provided"@
}

/// `let a, b, ... = x, y, ...`: one `Let` per name.
#[verifier::opaque]
pub open spec fn p_let(t: Seq<Kind>, q: nat) -> PResult<Seq<StmtV>> {
    if q + 1 >= t.len() {
        Err(unexpected(t, q))
    } else {
        match p_let_names(t, q + 1, seq![]) {
            Ok((names, i)) => if i + 1 < t.len() && is(t, i, TokenType::Assign) {
                match p_expr_list(t, i + 1, seq![]) {
                    Ok((values, j)) => match let_bindings(names, values) {
                        Some(ss) => Ok((ss, j)),
                        None => Err((let_mismatch(names.len(), values.len()), q + 1)),
                    },
                    Err(e) => Err(e),
                }
            } else {
                Err(expected_err(t, i, TokenType::Assign))
            },
            Err(e) => Err(e),
        }
    }
}

/// `return` or `throw` at `q`: with the expression that follows, or none
/// at the end of a line.
#[verifier::opaque]
pub open spec fn p_optional_value(t: Seq<Kind>, q: nat) -> PResult<Option<ExprV>> {
    if q + 1 >= t.len() {
        Err(unexpected(t, q))
    } else if is(t, q + 1, TokenType::Newline) || is(t, q + 1, TokenType::Eof) {
        Ok((None, q + 1))
    } else {
        match p_expr(t, q + 1) {
            Ok((e, r)) => Ok((Some(e), r)),
            Err(e) => Err(e),
        }
    }
}

/// The fields of a struct definition from `i`, after those in `acc`, up
/// to `end`.
pub open spec fn p_struct_fields(t: Seq<Kind>, i: nat, acc: Seq<Seq<char>>) -> PResult<Seq<Seq<char>>>
    decreases t.len() - i,
{
    if i >= t.len() {
        Err(unexpected(t, i))
    } else if is(t, i, TokenType::End) || is(t, i, TokenType::Eof) {
        Ok((acc, i))
    } else {
        proof {
            lemma_skip_nl(t, i);
        }
        let i1 = skip_nl(t, i);
        if is(t, i1, TokenType::End) || is(t, i1, TokenType::Eof) {
            Ok((acc, i1))
        } else {
            match kind(t, i1) {
                Kind::Ident(f) => if i1 + 1 < t.len() {
                    let j = if is(t, i1 + 1, TokenType::Comma) && i1 + 2 < t.len() {
                        i1 + 2
                    } else {
                        i1 + 1
                    };
                    proof {
                        lemma_skip_nl(t, j);
                    }
                    p_struct_fields(t, skip_nl(t, j), acc.push(f))
                } else {
                    Err(unexpected(t, i1))
                },
                _ => Err(("Expected field name or 'end'"@, i1)),
            }
        }
    }
}

/// `struct Name` followed by field names and `end`.
pub open spec fn p_struct(t: Seq<Kind>, q: nat) -> PResult<StmtV> {
    if q + 2 >= t.len() {
        Err(("Expected struct name"@, q + 1))
    } else {
        match kind(t, q + 1) {
            Kind::Ident(name) => {
                match p_struct_fields(t, skip_nl(t, q + 2), seq![]) {
                    Ok((fields, e)) => if e + 1 < t.len() && is(t, e, TokenType::End) {
                        Ok((StmtV::StructDef(name, fields), e + 1))
                    } else {
                        Err(expected_err(t, e, TokenType::End))
                    },
                    Err(e) => Err(e),
                }
            },
            _ => Err(("Expected struct name"@, q + 1)),
        }
    }
}

/// A parameter: its name and its default value, if it has one.
pub type ParamV = (Seq<char>, Option<ExprV>);

/// The names of the parameters `ps`.
pub open spec fn param_names(ps: Seq<ParamV>) -> Seq<Seq<char>> {
    Seq::new(ps.len(), |i: int| ps[i].0)
}

/// The default values of the parameters `ps`.
pub open spec fn param_defaults(ps: Seq<ParamV>) -> Seq<Option<ExprV>> {
    Seq::new(ps.len(), |i: int| ps[i].1)
}

/// The parameters of a function from `j` up to the closing parenthesis,
/// after those in `acc`: each a name, optionally followed by `=` and its
/// default value.
pub open spec fn p_params(t: Seq<Kind>, j: nat, acc: Seq<ParamV>) -> PResult<Seq<ParamV>>
    decreases t.len() - j,
{
    if j >= t.len() {
        Err(unexpected(t, j))
    } else if is(t, j, TokenType::RightParen) {
        Ok((acc, j))
    } else {
        match kind(t, j) {
            Kind::Ident(s) => if j + 1 < t.len() {
                if is(t, j + 1, TokenType::Assign) && j + 2 < t.len() {
                    match p_expr(t, j + 2) {
                        Ok((d, r)) => if j < r < t.len() {
                            if is(t, r, TokenType::Comma) && r + 1 < t.len() {
                                p_params(t, r + 1, acc.push((s, Some(d))))
                            } else {
                                p_params(t, r, acc.push((s, Some(d))))
                            }
                        } else {
                            Err(unexpected(t, j))
                        },
                        Err(e) => Err(e),
                    }
                } else if is(t, j + 1, TokenType::Comma) && j + 2 < t.len() {
                    p_params(t, j + 2, acc.push((s, None)))
                } else {
                    p_params(t, j + 1, acc.push((s, None)))
                }
            } else {
                Err(unexpected(t, j))
            },
            _ => Err(("Expected parameter name"@, j)),
        }
    }
}

/// The arguments of a method call from `i`, after the receiver and those
/// in `acc`, up to the closing parenthesis.
pub open spec fn p_method_args(t: Seq<Kind>, i: nat, acc: Seq<ExprV>) -> PResult<Seq<ExprV>> {
    if i < t.len() && is(t, i, TokenType::RightParen) {
        Ok((acc, i))
    } else {
        p_expr_list(t, i, acc)
    }
}

/// An indexing `[index]` at `i` applied to `target`.
#[verifier::opaque]
pub open spec fn p_index(t: Seq<Kind>, i: nat, target: ExprV) -> PResult<ExprV> {
    match p_expr(t, i + 1) {
        Ok((idx, r)) => if i < r && r + 1 < t.len() && is(t, r, TokenType::RightBracket) {
            Ok((ExprV::Index(Box::new(target), Box::new(idx)), r + 1))
        } else {
            Err(expected_err(t, r, TokenType::RightBracket))
        },
        Err(e) => Err(e),
    }
}

/// A field access `.f` or method call `.f(args)` at `i` applied to
/// `target`; the method call has `target` as its first argument.
#[verifier::opaque]
pub open spec fn p_member(t: Seq<Kind>, i: nat, target: ExprV) -> PResult<ExprV> {
    match kind(t, i + 1) {
        Kind::Ident(f) => if i + 2 < t.len() {
            let j = i + 2;
            if is(t, j, TokenType::LeftParen) && j + 1 < t.len() {
                match p_method_args(t, j + 1, seq![target]) {
                    Ok((args, k)) => if j < k && k + 1 < t.len() && is(t, k, TokenType::RightParen) {
                        Ok((ExprV::Call(f, args), k + 1))
                    } else {
                        Err(expected_err(t, k, TokenType::RightParen))
                    },
                    Err(e) => Err(e),
                }
            } else {
                Ok((ExprV::Field(Box::new(target), f), j))
            }
        } else {
            Err(("Expected field name after '.'"@, i + 1))
        },
        _ => Err(("Expected field name after '.'"@, i + 1)),
    }
}

/// The indexing, field accesses and method calls at `i` applied to
/// `target`, the start of an assignment or expression statement.
pub open spec fn p_target(t: Seq<Kind>, i: nat, target: ExprV) -> PResult<ExprV>
    decreases t.len() - i,
{
    if i + 1 >= t.len() {
        Ok((target, i))
    } else if is(t, i, TokenType::LeftBracket) || is(t, i, TokenType::Dot) {
        let step = if is(t, i, TokenType::LeftBracket) {
            p_index(t, i, target)
        } else {
            p_member(t, i, target)
        };
        match step {
            Ok((next, k)) => if i < k < t.len() {
                p_target(t, k, next)
            } else {
                Err(unexpected(t, i))
            },
            Err(e) => Err(e),
        }
    } else {
        Ok((target, i))
    }
}

/// The assignment of `value` to `target`: to an element or a field; no
/// other target can be assigned to.
pub open spec fn assign_to(target: ExprV, value: ExprV) -> Option<StmtV> {
    match target {
        ExprV::Index(a, x) => Some(StmtV::IndexAssign(*a, *x, value)),
        ExprV::Field(o, f) => Some(StmtV::FieldAssign(*o, f, value)),
        _ => None,
    }
}

/// What follows an indexing or field target at `k`: `=` or a compound
/// assignment, or nothing (an expression statement).
pub open spec fn p_assign_target(t: Seq<Kind>, k: nat, target: ExprV) -> PResult<StmtV> {
    if k + 1 >= t.len() {
        Ok((StmtV::Expr(target), k))
    } else if is(t, k, TokenType::Assign) {
        match p_expr(t, k + 1) {
            Ok((v, r)) => match assign_to(target, v) {
                Some(s) => Ok((s, r)),
                None => Err(("Cannot assign to this expression"@, r)),
            },
            Err(e) => Err(e),
        }
    } else {
        match compound_op(kind(t, k)) {
            Some(op) => match p_expr(t, k + 1) {
                Ok((v, r)) => match assign_to(target, bin(target, op, v)) {
                    Some(s) => Ok((s, r)),
                    None => Err(("Cannot assign to this expression"@, r)),
                },
                Err(e) => Err(e),
            },
            None => Ok((StmtV::Expr(target), k)),
        }
    }
}

/// A statement that starts with the name `name` at `q`: an assignment
/// (plain, compound, to an element or a field) or an expression.
#[verifier::opaque]
pub open spec fn p_ident_stmt(t: Seq<Kind>, q: nat, name: Seq<char>) -> PResult<StmtV> {
    if q + 1 >= t.len() {
        Err(unexpected(t, q))
    } else {
        let i = q + 1;
        if is(t, i, TokenType::LeftBracket) || is(t, i, TokenType::Dot) {
            match p_target(t, i, ExprV::Ident(name)) {
                Ok((target, k)) => p_assign_target(t, k, target),
                Err(e) => Err(e),
            }
        } else if is(t, i, TokenType::Assign) {
            match p_expr(t, i + 1) {
                Ok((v, r)) => Ok((StmtV::Assign(name, v), r)),
                Err(e) => Err(e),
            }
        } else {
            match compound_op(kind(t, i)) {
                Some(op) => match p_expr(t, i + 1) {
                    Ok((v, r)) => Ok((StmtV::Assign(name, bin(ExprV::Ident(name), op, v)), r)),
                    Err(e) => Err(e),
                },
                None => match p_expr(t, q) {
                    Ok((e, r)) => Ok((StmtV::Expr(e), r)),
                    Err(e) => Err(e),
                },
            }
        }
    }
}

/// One pattern of a `when` arm, matched against `subject`: a comparison
/// (`>= 500`), a range (`400..499`) or a value (`200`).
pub open spec fn p_pattern(t: Seq<Kind>, i: nat, subject: ExprV) -> PResult<ExprV> {
    match cmp_op(kind(t, i)) {
        Some(op) => if i + 1 < t.len() {
            match p_expr(t, i + 1) {
                Ok((e, r)) => Ok((bin(subject, op, e), r)),
                Err(e) => Err(e),
            }
        } else {
            Err(unexpected(t, i))
        },
        None => match p_expr(t, i) {
            Ok((e, r)) => if r + 1 < t.len() && is(t, r, TokenType::DotDot) {
                match p_expr(t, r + 1) {
                    Ok((e2, r2)) => Ok((
                        bin(
                            bin(subject, BinaryOp::GreaterEqual, e),
                            BinaryOp::And,
                            bin(subject, BinaryOp::LessEqual, e2),
                        ),
                        r2,
                    )),
                    Err(e) => Err(e),
                }
            } else {
                Ok((bin(subject, BinaryOp::Equal, e), r))
            },
            Err(e) => Err(e),
        },
    }
}

/// Further comma-separated patterns at `j`, joined to `cond` by `or`.
pub open spec fn p_more_patterns(t: Seq<Kind>, j: nat, subject: ExprV, cond: ExprV) -> PResult<ExprV>
    decreases t.len() - j,
{
    if j + 1 < t.len() && is(t, j, TokenType::Comma) {
        match p_pattern(t, j + 1, subject) {
            Ok((c, k)) => if j < k < t.len() {
                p_more_patterns(t, k, subject, bin(cond, BinaryOp::Or, c))
            } else {
                Err(unexpected(t, j))
            },
            Err(e) => Err(e),
        }
    } else {
        Ok((cond, j))
    }
}

/// The patterns of a `when` arm at `i`.
pub open spec fn p_patterns(t: Seq<Kind>, i: nat, subject: ExprV) -> PResult<ExprV> {
    match p_pattern(t, i, subject) {
        Ok((c, j)) => if i < j < t.len() {
            p_more_patterns(t, j, subject, c)
        } else {
            Err(unexpected(t, i))
        },
        Err(e) => Err(e),
    }
}

/// The nested `if` statements that the arms of a `when` stand for, the
/// last arm innermost with `els` as its `else`.
pub open spec fn fold_arms(arms: Seq<(ExprV, Seq<StmtV>)>, els: Option<Seq<StmtV>>) -> Option<Seq<StmtV>>
    decreases arms.len(),
{
    if arms.len() == 0 {
        els
    } else {
        fold_arms(arms.drop_last(), Some(seq![StmtV::If(arms.last().0, arms.last().1, els)]))
    }
}

/// The catch variable at `i`: `name`, `(name)` or none.
pub open spec fn p_catch_var(t: Seq<Kind>, i: nat) -> PResult<Option<Seq<char>>> {
    if i >= t.len() {
        Err(unexpected(t, i))
    } else {
        match kind(t, i) {
            Kind::Ident(n) => if i + 1 < t.len() {
                Ok((Some(n), i + 1))
            } else {
                Err(unexpected(t, i))
            },
            _ => if is(t, i, TokenType::LeftParen) {
                match kind(t, i + 1) {
                    Kind::Ident(n) => if i + 3 < t.len() && is(t, i + 2, TokenType::RightParen) {
                        Ok((Some(n), i + 3))
                    } else {
                        Err(expected_err(t, i + 2, TokenType::RightParen))
                    },
                    _ => Err(("Expected identifier in 'catch'"@, i + 1)),
                }
            } else {
                Ok((None, i))
            },
        }
    }
}

/// A block of statements from `p` up to a token that ends it, after the
/// statements in `acc`; the position is that of the ending token.
pub open spec fn p_block(t: Seq<Kind>, p: nat, acc: Seq<StmtV>, stop: Stop) -> PResult<Seq<StmtV>>
    decreases t.len() - p, 90nat,
{
    if p >= t.len() {
        Err(unexpected(t, p))
    } else if stops(stop, kind(t, p)) {
        Ok((acc, p))
    } else {
        match p_stmt(t, p) {
            Ok((ss, q)) => if p < q < t.len() {
                proof {
                    lemma_skip_nl(t, q);
                }
                p_block(t, skip_nl(t, q), acc + ss, stop)
            } else {
                Err(unexpected(t, p))
            },
            Err(e) => Err(e),
        }
    }
}

/// The statement at `p`, after any newlines: one statement, or one per
/// name for a `let` and the nested `if`s of a `when`.
pub open spec fn p_stmt(t: Seq<Kind>, p: nat) -> PResult<Seq<StmtV>>
    decreases t.len() - p, 89nat,
{
    if p >= t.len() {
        Err(unexpected(t, p))
    } else {
        proof {
            lemma_skip_nl(t, p);
        }
        let q = skip_nl(t, p);
        if q + 1 >= t.len() {
            p_expr_stmt(t, q)
        } else {
            match kind(t, q) {
                Kind::Other(TokenType::Let) => p_let(t, q),
                Kind::Other(TokenType::Return) => match p_optional_value(t, q) {
                    Ok((v, r)) => Ok((seq![StmtV::Return(v)], r)),
                    Err(e) => Err(e),
                },
                Kind::Other(TokenType::Break) => Ok((seq![StmtV::Break], q + 1)),
                Kind::Other(TokenType::Continue) => Ok((seq![StmtV::Continue], q + 1)),
                Kind::Other(TokenType::When) => p_when(t, q),
                Kind::Other(TokenType::Throw) => match p_optional_value(t, q) {
                    Ok((v, r)) => Ok((seq![StmtV::Throw(v)], r)),
                    Err(e) => Err(e),
                },
                Kind::Ident(name) => one(p_ident_stmt(t, q, name)),
                Kind::Other(TokenType::Import) | Kind::Other(TokenType::Struct) | Kind::Other(
                    TokenType::Say,
                ) | Kind::Other(TokenType::If) | Kind::Other(TokenType::While) | Kind::Other(
                    TokenType::Repeat,
                ) | Kind::Other(TokenType::For) | Kind::Other(TokenType::Function) | Kind::Other(
                    TokenType::Try,
                ) => one(p_keyword(t, q)),
                _ => p_expr_stmt(t, q),
            }
        }
    }
}

/// A statement that starts with a keyword at `q` and is a single
/// statement: `import`, `struct`, `say`, `if`, `while`, `repeat`, `for`,
/// `function` or `try`.
pub open spec fn p_keyword(t: Seq<Kind>, q: nat) -> PResult<StmtV>
    decreases t.len() - q, 88nat,
{
    match kind(t, q) {
        Kind::Other(TokenType::Import) => p_import(t, q),
        Kind::Other(TokenType::Struct) => p_struct(t, q),
        Kind::Other(TokenType::Say) => p_say(t, q),
        Kind::Other(TokenType::If) => p_if(t, q),
        Kind::Other(TokenType::While) => p_while(t, q),
        Kind::Other(TokenType::Repeat) => p_repeat(t, q),
        Kind::Other(TokenType::For) => p_for(t, q),
        Kind::Other(TokenType::Function) => p_function(t, q),
        Kind::Other(TokenType::Try) => p_try(t, q),
        _ => Err(unexpected(t, q)),
    }
}

/// `if cond` with its block, then `elif`, `else if`, `else` with its
/// block, or nothing, and `end` (which a chained branch consumes).
pub open spec fn p_if(t: Seq<Kind>, q: nat) -> PResult<StmtV>
    decreases t.len() - q, 87nat,
{
    if q + 1 >= t.len() {
        Err(unexpected(t, q))
    } else {
        match p_expr(t, q + 1) {
            Ok((c, r)) => if q < r < t.len() {
                proof {
                    lemma_skip_nl(t, r);
                }
                match p_block(t, skip_nl(t, r), seq![], Stop::Branch) {
                    Ok((th, e)) => if !(q < e && e + 1 < t.len()) {
                        Err(("Expected 'end'"@, e))
                    } else if is(t, e, TokenType::Elif) {
                        match p_if(t, e) {
                            Ok((s, f)) => Ok((StmtV::If(c, th, Some(seq![s])), f)),
                            Err(e) => Err(e),
                        }
                    } else if is(t, e, TokenType::Else) {
                        if is(t, e + 1, TokenType::If) {
                            match p_if(t, e + 1) {
                                Ok((s, f)) => Ok((StmtV::If(c, th, Some(seq![s])), f)),
                                Err(e) => Err(e),
                            }
                        } else {
                            proof {
                                lemma_skip_nl(t, e + 1);
                            }
                            match p_block(t, skip_nl(t, e + 1), seq![], Stop::End) {
                                Ok((el, g)) => if g + 1 < t.len() && is(t, g, TokenType::End) {
                                    Ok((StmtV::If(c, th, Some(el)), g + 1))
                                } else {
                                    Err(("Expected 'end'"@, g))
                                },
                                Err(e) => Err(e),
                            }
                        }
                    } else if is(t, e, TokenType::End) {
                        Ok((StmtV::If(c, th, None), e + 1))
                    } else {
                        Err(("Expected 'end'"@, e))
                    },
                    Err(e) => Err(e),
                }
            } else {
                Err(unexpected(t, q))
            },
            Err(e) => Err(e),
        }
    }
}

/// A block from `b` closed by `end`: its statements and the position
/// after `end`.
pub open spec fn p_body(t: Seq<Kind>, b: nat) -> PResult<Seq<StmtV>>
    decreases t.len() - b, 91nat,
{
    match p_block(t, b, seq![], Stop::End) {
        Ok((body, e)) => if e + 1 < t.len() && is(t, e, TokenType::End) {
            Ok((body, e + 1))
        } else {
            Err(expected_err(t, e, TokenType::End))
        },
        Err(e) => Err(e),
    }
}

/// `while cond`, its body and `end`.
pub open spec fn p_while(t: Seq<Kind>, q: nat) -> PResult<StmtV>
    decreases t.len() - q, 87nat,
{
    if q + 1 >= t.len() {
        Err(unexpected(t, q))
    } else {
        match p_expr(t, q + 1) {
            Ok((c, r)) => if q < r < t.len() {
                proof {
                    lemma_skip_nl(t, r);
                }
                match p_body(t, skip_nl(t, r)) {
                    Ok((body, e)) => Ok((StmtV::While(c, body), e)),
                    Err(e) => Err(e),
                }
            } else {
                Err(unexpected(t, q))
            },
            Err(e) => Err(e),
        }
    }
}

/// `repeat`, its body and `end`.
pub open spec fn p_repeat(t: Seq<Kind>, q: nat) -> PResult<StmtV>
    decreases t.len() - q, 87nat,
{
    if q + 1 >= t.len() {
        Err(unexpected(t, q))
    } else {
        proof {
            lemma_skip_nl(t, q + 1);
        }
        match p_body(t, skip_nl(t, q + 1)) {
            Ok((body, e)) => Ok((StmtV::Repeat(body), e)),
            Err(e) => Err(e),
        }
    }
}

/// `for var in a..b` or `for var in items`, the body and `end`.
pub open spec fn p_for(t: Seq<Kind>, q: nat) -> PResult<StmtV>
    decreases t.len() - q, 87nat,
{
    if q + 1 >= t.len() {
        Err(unexpected(t, q))
    } else {
        match kind(t, q + 1) {
            Kind::Ident(var) => if q + 3 < t.len() && is(t, q + 2, TokenType::In) {
                match p_expr(t, q + 3) {
                    Ok((x, r)) => if q < r < t.len() {
                        if is(t, r, TokenType::DotDot) && r + 1 < t.len() {
                            match p_expr(t, r + 1) {
                                Ok((y, r2)) => if r < r2 < t.len() {
                                    proof {
                                        lemma_skip_nl(t, r2);
                                    }
                                    match p_body(t, skip_nl(t, r2)) {
                                        Ok((body, e)) => Ok((StmtV::For(var, x, y, body), e)),
                                        Err(e) => Err(e),
                                    }
                                } else {
                                    Err(unexpected(t, r))
                                },
                                Err(e) => Err(e),
                            }
                        } else {
                            proof {
                                lemma_skip_nl(t, r);
                            }
                            match p_body(t, skip_nl(t, r)) {
                                Ok((body, e)) => Ok((StmtV::ForEach(var, x, body), e)),
                                Err(e) => Err(e),
                            }
                        }
                    } else {
                        Err(unexpected(t, q))
                    },
                    Err(e) => Err(e),
                }
            } else {
                Err(expected_err(t, q + 2, TokenType::In))
            },
            _ => Err(("Expected identifier after 'for'"@, q + 1)),
        }
    }
}

/// `function name(params)`, the body and `end`.
pub open spec fn p_function(t: Seq<Kind>, q: nat) -> PResult<StmtV>
    decreases t.len() - q, 87nat,
{
    if q + 2 >= t.len() {
        Err(("Expected function name"@, q + 1))
    } else {
        match kind(t, q + 1) {
            Kind::Ident(first) => match p_qualified(t, q + 2, first) {
                Ok((name, i)) => if q < i && i + 1 < t.len() && is(t, i, TokenType::LeftParen) {
                    match p_params(t, i + 1, seq![]) {
                        Ok((params, j)) => if i < j && j + 1 < t.len() && is(t, j, TokenType::RightParen) {
                            proof {
                                lemma_skip_nl(t, j + 1);
                            }
                            match p_body(t, skip_nl(t, j + 1)) {
                                Ok((body, e)) => Ok((
                                    StmtV::Function(name, param_names(params), param_defaults(params), body),
                                    e,
                                )),
                                Err(e) => Err(e),
                            }
                        } else {
                            Err(expected_err(t, j, TokenType::RightParen))
                        },
                        Err(e) => Err(e),
                    }
                } else {
                    Err(expected_err(t, i, TokenType::LeftParen))
                },
                Err(e) => Err(e),
            },
            _ => Err(("Expected function name"@, q + 1)),
        }
    }
}

/// One arm of a `when` at `i`: `is`, its patterns, an optional `then` and
/// the block up to the next arm.
pub open spec fn p_arm(t: Seq<Kind>, i: nat, subject: ExprV) -> PResult<(ExprV, Seq<StmtV>)>
    decreases t.len() - i, 87nat,
{
    if i + 1 >= t.len() {
        Err(unexpected(t, i))
    } else {
        match p_patterns(t, i + 1, subject) {
            Ok((cond, j)) => if i < j < t.len() {
                let j2 = if is(t, j, TokenType::Then) && j + 1 < t.len() { j + 1 } else { j };
                proof {
                    lemma_skip_nl(t, j2);
                }
                match p_block(t, skip_nl(t, j2), seq![], Stop::Arm) {
                    Ok((body, k)) => Ok(((cond, body), k)),
                    Err(e) => Err(e),
                }
            } else {
                Err(unexpected(t, i))
            },
            Err(e) => Err(e),
        }
    }
}

/// The arms of a `when` from `i`, after those in `arms`: each `is`
/// patterns, an optional `then` and a block; then an optional `else`
/// block. The position is that of the closing `end`.
pub open spec fn p_arms(t: Seq<Kind>, i: nat, subject: ExprV, arms: Seq<(ExprV, Seq<StmtV>)>) -> PResult<
    (Seq<(ExprV, Seq<StmtV>)>, Option<Seq<StmtV>>),
>
    decreases t.len() - i, 88nat,
{
    if i >= t.len() {
        Err(unexpected(t, i))
    } else if is(t, i, TokenType::End) || is(t, i, TokenType::Eof) {
        Ok(((arms, None), i))
    } else if i + 1 >= t.len() {
        Err(unexpected(t, i))
    } else if is(t, i, TokenType::Is) {
        match p_arm(t, i, subject) {
            Ok((arm, k)) => if i < k < t.len() {
                p_arms(t, k, subject, arms.push(arm))
            } else {
                Err(unexpected(t, i))
            },
            Err(e) => Err(e),
        }
    } else if is(t, i, TokenType::Else) {
        proof {
            lemma_skip_nl(t, i + 1);
        }
        match p_block(t, skip_nl(t, i + 1), seq![], Stop::End) {
            Ok((els, k)) => Ok(((arms, Some(els)), k)),
            Err(e) => Err(e),
        }
    } else {
        Err(("Expected 'is' or 'else' in 'when' block"@, i))
    }
}

/// `when subject` with its arms and `end`: the nested `if` statements they
/// stand for; a `when` with neither arms nor statements is refused.
pub open spec fn p_when(t: Seq<Kind>, q: nat) -> PResult<Seq<StmtV>>
    decreases t.len() - q, 88nat,
{
    if q + 1 >= t.len() {
        Err(unexpected(t, q))
    } else {
        match p_expr(t, q + 1) {
            Ok((subject, r)) => if q < r < t.len() {
                proof {
                    lemma_skip_nl(t, r);
                }
                match p_arms(t, skip_nl(t, r), subject, seq![]) {
                    Ok(((arms, els), e)) => if e + 1 < t.len() && is(t, e, TokenType::End) {
                        match fold_arms(arms, els) {
                            Some(ss) => if ss.len() > 0 {
                                Ok((ss, e + 1))
                            } else {
                                Err(("Empty 'when' statement"@, e + 1))
                            },
                            None => Err(("Empty 'when' statement"@, e + 1)),
                        }
                    } else {
                        Err(expected_err(t, e, TokenType::End))
                    },
                    Err(e) => Err(e),
                }
            } else {
                Err(unexpected(t, q))
            },
            Err(e) => Err(e),
        }
    }
}

/// The rest of a `try` statement at `f`, after its blocks so far: an
/// optional `finally` block, then `end`.
pub open spec fn p_finally(
    t: Seq<Kind>,
    f: nat,
    tb: Seq<StmtV>,
    var: Option<Seq<char>>,
    cb: Seq<StmtV>,
) -> PResult<StmtV>
    decreases t.len() - f, 88nat,
{
    if f + 1 >= t.len() {
        Err(expected_err(t, f, TokenType::End))
    } else if is(t, f, TokenType::Finally) {
        proof {
            lemma_skip_nl(t, f + 1);
        }
        match p_body(t, skip_nl(t, f + 1)) {
            Ok((fb, e)) => Ok((StmtV::TryCatch(tb, var, cb, Some(fb)), e)),
            Err(e) => Err(e),
        }
    } else if is(t, f, TokenType::End) {
        Ok((StmtV::TryCatch(tb, var, cb, None), f + 1))
    } else {
        Err(expected_err(t, f, TokenType::End))
    }
}

/// `try` with its block, then `catch` (with an optional variable) and its
/// block, or `finally` and its block, or both, and `end`.
pub open spec fn p_try(t: Seq<Kind>, q: nat) -> PResult<StmtV>
    decreases t.len() - q, 87nat,
{
    if q + 1 >= t.len() {
        Err(unexpected(t, q))
    } else {
        proof {
            lemma_skip_nl(t, q + 1);
        }
        match p_block(t, skip_nl(t, q + 1), seq![], Stop::Try) {
            Ok((tb, e)) => if !(q < e && e + 1 < t.len()) {
                Err(("Expected 'catch' or 'finally'"@, e))
            } else if is(t, e, TokenType::Catch) {
                match p_catch_var(t, e + 1) {
                    Ok((var, i)) => if e < i < t.len() {
                        proof {
                            lemma_skip_nl(t, i);
                        }
                        match p_block(t, skip_nl(t, i), seq![], Stop::Catch) {
                            Ok((cb, f)) => if q < f < t.len() {
                                p_finally(t, f, tb, var, cb)
                            } else {
                                Err(unexpected(t, q))
                            },
                            Err(e) => Err(e),
                        }
                    } else {
                        Err(unexpected(t, q))
                    },
                    Err(e) => Err(e),
                }
            } else if is(t, e, TokenType::Finally) {
                p_finally(t, e, tb, None, seq![])
            } else {
                Err(("Expected 'catch' or 'finally'"@, e))
            },
            Err(e) => Err(e),
        }
    }
}

/// A whole program from `p`: its statements up to the end of the tokens,
/// with the default values of the functions it defines added to the calls
/// that leave them out.
pub open spec fn p_program(t: Seq<Kind>, p: nat) -> Result<Seq<StmtV>, PErr> {
    if p >= t.len() {
        Err(unexpected(t, p))
    } else {
        match p_block(t, skip_nl(t, p), seq![], Stop::Program) {
            Ok((ss, _)) => Ok(expand_program(ss)),
            Err(e) => Err(e),
        }
    }
}

/// The text of a `let` mismatch holds no location marker.
pub proof fn lemma_let_mismatch_free(names: nat, values: nat)
    ensures
        marker_free(let_mismatch(names, values)),
{
    reveal_strlit("Mismatch in 'let' statement: ");
    reveal_strlit(" variables defined but ");
    reveal_strlit(" values provided");
    reveal_strlit(" starting");
    lemma_decimal_value(names);
    lemma_decimal_value(values);
    let p1 = "Mismatch in 'let' statement: "@;
    let p2 = " variables defined but "@;
    let p3 = " values provided"@;
    let d1 = decimal(names);
    let d2 = decimal(values);
    let m = p1 + d1 + p2 + d2 + p3;
    assert(m == let_mismatch(names, values));
    let a = 29 + d1.len();
    let b = a + 23;
    let c = b + d2.len();
    assert(m.len() == c + 16);
    assert forall|i: int| !#[trigger] space_at(m, i) by {
        if space_at(m, i) {
            if i < 29 {
                assert(m[i] == p1[i]);
                if i + 1 < 29 {
                    assert(m[i + 1] == p1[i + 1]);
                } else {
                    assert(m[i + 1] == d1[0]);
                    assert(is_ascii_digit(d1[0]));
                }
            } else if i < a {
                assert(m[i] == d1[i - 29]);
                assert(is_ascii_digit(d1[i - 29]));
            } else if i < b {
                assert(m[i] == p2[i - a]);
                if i + 1 < b {
                    assert(m[i + 1] == p2[i + 1 - a]);
                } else {
                    assert(m[i + 1] == d2[0]);
                    assert(is_ascii_digit(d2[0]));
                }
            } else if i < c {
                assert(m[i] == d2[i - b]);
                assert(is_ascii_digit(d2[i - b]));
            } else {
                assert(m[i] == p3[i - c]);
                assert(m[i + 1] == p3[i + 1 - c]);
            }
        }
    }
    if m.skip(m.len() - 9) == " starting"@ {
        assert(m.skip(m.len() - 9)[1] == p3[8]);
    }
}

} // verus!
