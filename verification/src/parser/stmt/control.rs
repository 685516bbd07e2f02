//! Control flow: `if`, `while`, `repeat`, `for`, functions, `when` and
//! `try`.

use vstd::prelude::*;
use crate::ast::{BinaryOp, Expr, ExprV, Stmt, StmtV, clone_expr, stmt_list_view, opt_block_view, opt_string_view, lemma_stmt_view};
use crate::lexer::TokenType;
use crate::parser::{Parser, is, kind, skip_nl, lemma_skip_nl, reports, lemma_messages_free};
use crate::parser::expr::{copy_string, bin};
use crate::parser::grammar::{
    Stop, p_if, p_while, p_repeat, p_for, p_function, p_pattern, p_more_patterns, p_patterns,
    p_arm, p_arms, fold_arms, p_when, p_catch_var, p_finally, p_try,
};
use super::{stmt_outcome, stmts_outcome, cmp_op_exec};

verus! {

/// The views of the arms of a `when`: conditions and bodies.
pub open spec fn arms_view(v: Seq<(Expr, Vec<Stmt>)>) -> Seq<(ExprV, Seq<StmtV>)> {
    Seq::new(v.len(), |i: int| (v[i].0@, stmt_list_view(v[i].1@)))
}

/// The nested `if` statements that the arms of a `when` stand for, the
/// last arm innermost with `els` as its `else`.
pub fn fold_arms_exec(arms: Vec<(Expr, Vec<Stmt>)>, els: Option<Vec<Stmt>>) -> (r: Option<Vec<Stmt>>)
    ensures
        opt_block_view(r) == fold_arms(arms_view(arms@), opt_block_view(els)),
{
    let ghost a0 = arms_view(arms@);
    let ghost e0 = opt_block_view(els);
    let mut arms = arms;
    let mut cur = els;
    while arms.len() > 0
        invariant
            fold_arms(a0, e0) == fold_arms(arms_view(arms@), opt_block_view(cur)),
        decreases arms@.len(),
    {
        let ghost before = arms@;
        match arms.pop() {
            Some((c, b)) => {
                let ghost cv = opt_block_view(cur);
                let s = Stmt::If { condition: c, then_block: b, else_block: cur };
                proof {
                    lemma_stmt_view(s);
                    assert(arms_view(before).drop_last() =~= arms_view(arms@));
                }
                let v = vec![s];
                assert(stmt_list_view(v@) =~= seq![s@]);
                cur = Some(v);
            },
            None => {},
        }
    }
    cur
}

impl Parser {
    /// Parses `if cond` (or `elif cond`) with its block, then `elif`,
    /// `else if`, `else` with its block, or nothing, and `end`.
    pub fn parse_if(&mut self) -> (r: Result<Stmt, String>)
        requires
            old(self).wf(),
            is(old(self).toks(), old(self).pos(), TokenType::If) || is(
                old(self).toks(),
                old(self).pos(),
                TokenType::Elif,
            ),
        ensures
            final(self).wf(),
            final(self).tokens@ == old(self).tokens@,
            stmt_outcome(r, p_if(old(self).toks(), old(self).pos()), final(self).pos(), old(self).tokens@),
            r is Ok ==> final(self).pos() > old(self).pos(),
        decreases old(self).toks().len() - old(self).pos(), 87nat,
    {
        let ghost t = self.toks();
        self.advance();
        let condition = self.parse_expression()?;
        proof {
            lemma_skip_nl(t, self.position as nat);
        }
        self.skip_newlines();
        let then_block = self.parse_block(Stop::Branch)?;
        if self.at(&TokenType::Elif) {
            let nested = self.parse_if()?;
            let s = Stmt::If { condition, then_block, else_block: Some(super::just(nested)) };
            proof {
                lemma_stmt_view(s);
            }
            return Ok(s);
        }
        if self.at(&TokenType::Else) {
            self.advance();
            if self.at(&TokenType::If) {
                let nested = self.parse_if()?;
                let s = Stmt::If { condition, then_block, else_block: Some(super::just(nested)) };
                proof {
                    lemma_stmt_view(s);
                }
                return Ok(s);
            }
            proof {
                lemma_skip_nl(t, self.position as nat);
            }
            self.skip_newlines();
            let else_block = self.parse_block(Stop::End)?;
            if !self.at(&TokenType::End) {
                proof {
                    lemma_messages_free();
                }
                return Err(self.error_here("Expected 'end'"));
            }
            self.advance();
            let s = Stmt::If { condition, then_block, else_block: Some(else_block) };
            proof {
                lemma_stmt_view(s);
            }
            return Ok(s);
        }
        if !self.at(&TokenType::End) {
            proof {
                lemma_messages_free();
            }
            return Err(self.error_here("Expected 'end'"));
        }
        self.advance();
        let s = Stmt::If { condition, then_block, else_block: None };
        proof {
            lemma_stmt_view(s);
        }
        Ok(s)
    }

    /// Parses `while cond`, its body and `end`.
    pub fn parse_while(&mut self) -> (r: Result<Stmt, String>)
        requires
            old(self).wf(),
            is(old(self).toks(), old(self).pos(), TokenType::While),
        ensures
            final(self).wf(),
            final(self).tokens@ == old(self).tokens@,
            stmt_outcome(r, p_while(old(self).toks(), old(self).pos()), final(self).pos(), old(self).tokens@),
            r is Ok ==> final(self).pos() > old(self).pos(),
        decreases old(self).toks().len() - old(self).pos(), 87nat,
    {
        let ghost t = self.toks();
        self.advance();
        let condition = self.parse_expression()?;
        proof {
            lemma_skip_nl(t, self.position as nat);
        }
        self.skip_newlines();
        let body = self.parse_body()?;
        let s = Stmt::While { condition, body };
        proof {
            lemma_stmt_view(s);
        }
        Ok(s)
    }

    /// Parses `repeat`, its body and `end`.
    pub fn parse_repeat(&mut self) -> (r: Result<Stmt, String>)
        requires
            old(self).wf(),
            is(old(self).toks(), old(self).pos(), TokenType::Repeat),
        ensures
            final(self).wf(),
            final(self).tokens@ == old(self).tokens@,
            stmt_outcome(r, p_repeat(old(self).toks(), old(self).pos()), final(self).pos(), old(self).tokens@),
            r is Ok ==> final(self).pos() > old(self).pos(),
        decreases old(self).toks().len() - old(self).pos(), 87nat,
    {
        let ghost t = self.toks();
        self.advance();
        proof {
            lemma_skip_nl(t, self.position as nat);
        }
        self.skip_newlines();
        let body = self.parse_body()?;
        let s = Stmt::Repeat { body };
        proof {
            lemma_stmt_view(s);
        }
        Ok(s)
    }

    /// Parses `for var in a..b` (a counted loop) or `for var in items`,
    /// the body and `end`.
    pub fn parse_for(&mut self) -> (r: Result<Stmt, String>)
        requires
            old(self).wf(),
            is(old(self).toks(), old(self).pos(), TokenType::For),
        ensures
            final(self).wf(),
            final(self).tokens@ == old(self).tokens@,
            stmt_outcome(r, p_for(old(self).toks(), old(self).pos()), final(self).pos(), old(self).tokens@),
            r is Ok ==> final(self).pos() > old(self).pos(),
        decreases old(self).toks().len() - old(self).pos(), 87nat,
    {
        let ghost t = self.toks();
        self.advance();
        let var = match &self.tokens[self.position].token_type {
            TokenType::Identifier(s) => copy_string(s),
            _ => {
                proof {
                    lemma_messages_free();
                }
                return Err(self.error_here("Expected identifier after 'for'"));
            },
        };
        self.advance();
        self.expect(TokenType::In)?;
        let start = self.parse_expression()?;
        if self.at(&TokenType::DotDot) {
            self.advance();
            let end = self.parse_expression()?;
            proof {
                lemma_skip_nl(t, self.position as nat);
            }
            self.skip_newlines();
            let body = self.parse_body()?;
            let s = Stmt::For { var, start, end, body };
            proof {
                lemma_stmt_view(s);
            }
            Ok(s)
        } else {
            proof {
                lemma_skip_nl(t, self.position as nat);
            }
            self.skip_newlines();
            let body = self.parse_body()?;
            let s = Stmt::ForEach { var, iterable: start, body };
            proof {
                lemma_stmt_view(s);
            }
            Ok(s)
        }
    }

    /// Parses `function name(params)` (the name may be `a::b`), the body
    /// and `end`.
    pub fn parse_function(&mut self) -> (r: Result<Stmt, String>)
        requires
            old(self).wf(),
            is(old(self).toks(), old(self).pos(), TokenType::Function),
        ensures
            final(self).wf(),
            final(self).tokens@ == old(self).tokens@,
            stmt_outcome(r, p_function(old(self).toks(), old(self).pos()), final(self).pos(), old(self).tokens@),
            r is Ok ==> final(self).pos() > old(self).pos(),
        decreases old(self).toks().len() - old(self).pos(), 87nat,
    {
        let ghost t = self.toks();
        self.advance();
        let first = match &self.tokens[self.position].token_type {
            TokenType::Identifier(s) => copy_string(s),
            _ => {
                proof {
                    lemma_messages_free();
                }
                return Err(self.error_here("Expected function name"));
            },
        };
        self.advance();
        let name = self.parse_qualified(first)?;
        self.expect(TokenType::LeftParen)?;
        let (params, defaults) = self.parse_params()?;
        self.expect(TokenType::RightParen)?;
        proof {
            lemma_skip_nl(t, self.position as nat);
        }
        self.skip_newlines();
        let body = self.parse_body()?;
        let s = Stmt::Function { name, params, defaults, body };
        proof {
            lemma_stmt_view(s);
        }
        Ok(s)
    }

    /// Parses one pattern of a `when` arm, matched against `subject`: a
    /// comparison (`>= 500`), a range (`400..499`) or a value (`200`).
    fn parse_pattern(&mut self, subject: &Expr) -> (r: Result<Expr, String>)
        requires
            old(self).wf(),
        ensures
            final(self).wf(),
            final(self).tokens@ == old(self).tokens@,
            match p_pattern(old(self).toks(), old(self).pos(), subject@) {
                Ok((v, q)) => r matches Ok(e) && e@ == v && final(self).pos() == q,
                Err(e) => r matches Err(m) && reports(old(self).tokens@, e, m@),
            },
            r is Ok ==> final(self).pos() > old(self).pos(),
    {
        match cmp_op_exec(&self.tokens[self.position].token_type) {
            Some(op) => {
                self.advance();
                let e = self.parse_expression()?;
                let c = clone_expr(subject);
                let res = Expr::Binary { left: Box::new(c), op, right: Box::new(e) };
                assert(res@ == bin(subject@, op, e@));
                Ok(res)
            },
            None => {
                let e = self.parse_expression()?;
                let ghost ev = e@;
                if self.at(&TokenType::DotDot) {
                    self.advance();
                    let e2 = self.parse_expression()?;
                    let ghost ev2 = e2@;
                    let low = Expr::Binary {
                        left: Box::new(clone_expr(subject)),
                        op: BinaryOp::GreaterEqual,
                        right: Box::new(e),
                    };
                    let high = Expr::Binary {
                        left: Box::new(clone_expr(subject)),
                        op: BinaryOp::LessEqual,
                        right: Box::new(e2),
                    };
                    assert(low@ == bin(subject@, BinaryOp::GreaterEqual, ev));
                    assert(high@ == bin(subject@, BinaryOp::LessEqual, ev2));
                    let ghost lv = low@;
                    let ghost hv = high@;
                    let res = Expr::Binary { left: Box::new(low), op: BinaryOp::And, right: Box::new(high) };
                    assert(res@ == bin(lv, BinaryOp::And, hv));
                    assert(res@ == bin(
                        bin(subject@, BinaryOp::GreaterEqual, ev),
                        BinaryOp::And,
                        bin(subject@, BinaryOp::LessEqual, ev2),
                    ));
                    Ok(res)
                } else {
                    let c = clone_expr(subject);
                    let res = Expr::Binary { left: Box::new(c), op: BinaryOp::Equal, right: Box::new(e) };
                    assert(res@ == bin(subject@, BinaryOp::Equal, ev));
                    Ok(res)
                }
            },
        }
    }

    /// Parses the comma-separated patterns of a `when` arm, joined by
    /// `or`.
    fn parse_patterns(&mut self, subject: &Expr) -> (r: Result<Expr, String>)
        requires
            old(self).wf(),
        ensures
            final(self).wf(),
            final(self).tokens@ == old(self).tokens@,
            match p_patterns(old(self).toks(), old(self).pos(), subject@) {
                Ok((v, q)) => r matches Ok(e) && e@ == v && final(self).pos() == q,
                Err(e) => r matches Err(m) && reports(old(self).tokens@, e, m@),
            },
            r is Ok ==> final(self).pos() > old(self).pos(),
    {
        let ghost t = self.toks();
        let ghost p = self.position as nat;
        let mut cond = self.parse_pattern(subject)?;
        loop
            invariant
                self.wf(),
                self.toks() == t,
                self.tokens@ == old(self).tokens@,
                t == old(self).toks(),
                p == old(self).pos(),
                self.position > p,
                p_patterns(t, p, subject@) == p_more_patterns(
                    t,
                    self.position as nat,
                    subject@,
                    cond@,
                ),
            decreases t.len() - self.position,
        {
            if self.at(&TokenType::Comma) {
                self.advance();
                let c = self.parse_pattern(subject)?;
                cond = Expr::Binary { left: Box::new(cond), op: BinaryOp::Or, right: Box::new(c) };
            } else {
                return Ok(cond);
            }
        }
    }

    /// Parses one arm of a `when`: `is`, its patterns, an optional `then`
    /// and the block up to the next arm.
    fn parse_arm(&mut self, subject: &Expr) -> (r: Result<(Expr, Vec<Stmt>), String>)
        requires
            old(self).wf(),
            is(old(self).toks(), old(self).pos(), TokenType::Is),
        ensures
            final(self).wf(),
            final(self).tokens@ == old(self).tokens@,
            match p_arm(old(self).toks(), old(self).pos(), subject@) {
                Ok(((c, b), q)) => r matches Ok((cond, body)) && cond@ == c && stmt_list_view(body@)
                    == b && final(self).pos() == q,
                Err(e) => r matches Err(m) && reports(old(self).tokens@, e, m@),
            },
            r is Ok ==> final(self).pos() > old(self).pos(),
        decreases old(self).toks().len() - old(self).pos(), 87nat,
    {
        let ghost t = self.toks();
        self.advance();
        let cond = self.parse_patterns(subject)?;
        if self.at(&TokenType::Then) {
            self.advance();
        }
        proof {
            lemma_skip_nl(t, self.position as nat);
        }
        self.skip_newlines();
        let body = self.parse_block(Stop::Arm)?;
        Ok((cond, body))
    }

    /// Parses the arms of a `when`: each `is` patterns, an optional
    /// `then` and a block; then an optional `else` block. Stops at the
    /// closing `end`.
    fn parse_arms(&mut self, subject: &Expr) -> (r: Result<
        (Vec<(Expr, Vec<Stmt>)>, Option<Vec<Stmt>>),
        String,
    >)
        requires
            old(self).wf(),
        ensures
            final(self).wf(),
            final(self).tokens@ == old(self).tokens@,
            match p_arms(old(self).toks(), old(self).pos(), subject@, seq![]) {
                Ok(((a, e), q)) => r matches Ok((arms, els)) && arms_view(arms@) == a
                    && opt_block_view(els) == e && final(self).pos() == q,
                Err(e) => r matches Err(m) && reports(old(self).tokens@, e, m@),
            },
            r is Ok ==> final(self).pos() >= old(self).pos(),
        decreases old(self).toks().len() - old(self).pos(), 88nat,
    {
        let ghost t = self.toks();
        let ghost p = self.position as nat;
        let mut arms: Vec<(Expr, Vec<Stmt>)> = Vec::new();
        assert(arms_view(arms@) =~= Seq::<(ExprV, Seq<StmtV>)>::empty());
        loop
            invariant
                self.wf(),
                self.toks() == t,
                self.tokens@ == old(self).tokens@,
                t == old(self).toks(),
                p == old(self).pos(),
                self.position >= p,
                p_arms(t, p, subject@, seq![]) == p_arms(
                    t,
                    self.position as nat,
                    subject@,
                    arms_view(arms@),
                ),
            decreases t.len() - self.position,
        {
            if self.at(&TokenType::End) || self.at(&TokenType::Eof) {
                return Ok((arms, None));
            }
            if self.at(&TokenType::Is) {
                let (cond, body) = self.parse_arm(subject)?;
                let ghost before = arms@;
                let ghost item = (cond@, stmt_list_view(body@));
                arms.push((cond, body));
                assert(arms_view(arms@) =~= arms_view(before).push(item));
            } else if self.at(&TokenType::Else) {
                self.advance();
                proof {
                    lemma_skip_nl(t, self.position as nat);
                }
                self.skip_newlines();
                let els = self.parse_block(Stop::End)?;
                return Ok((arms, Some(els)));
            } else {
                proof {
                    lemma_messages_free();
                }
                return Err(self.error_here("Expected 'is' or 'else' in 'when' block"));
            }
        }
    }

    /// Parses `when subject`, its arms and `end`: the nested `if`
    /// statements that the arms stand for. A `when` with neither arms nor
    /// statements is refused.
    pub fn parse_when(&mut self) -> (r: Result<Vec<Stmt>, String>)
        requires
            old(self).wf(),
            is(old(self).toks(), old(self).pos(), TokenType::When),
        ensures
            final(self).wf(),
            final(self).tokens@ == old(self).tokens@,
            stmts_outcome(r, p_when(old(self).toks(), old(self).pos()), final(self).pos(), old(self).tokens@),
            r is Ok ==> final(self).pos() > old(self).pos(),
        decreases old(self).toks().len() - old(self).pos(), 88nat,
    {
        let ghost t = self.toks();
        self.advance();
        let subject = self.parse_expression()?;
        proof {
            lemma_skip_nl(t, self.position as nat);
        }
        self.skip_newlines();
        let (arms, els) = self.parse_arms(&subject)?;
        self.expect(TokenType::End)?;
        match fold_arms_exec(arms, els) {
            Some(stmts) => {
                if stmts.len() > 0 {
                    Ok(stmts)
                } else {
                    proof {
                        lemma_messages_free();
                    }
                    Err(self.error_here("Empty 'when' statement"))
                }
            },
            None => {
                proof {
                    lemma_messages_free();
                }
                Err(self.error_here("Empty 'when' statement"))
            },
        }
    }

    /// Parses the variable of a `catch`: `name`, `(name)` or none.
    fn parse_catch_var(&mut self) -> (r: Result<Option<String>, String>)
        requires
            old(self).wf(),
        ensures
            final(self).wf(),
            final(self).tokens@ == old(self).tokens@,
            match p_catch_var(old(self).toks(), old(self).pos()) {
                Ok((v, q)) => r matches Ok(o) && opt_string_view(o) == v && final(self).pos() == q,
                Err(e) => r matches Err(m) && reports(old(self).tokens@, e, m@),
            },
            r is Ok ==> final(self).pos() >= old(self).pos(),
    {
        match &self.tokens[self.position].token_type {
            TokenType::Identifier(n) => {
                let name = copy_string(n);
                self.advance();
                return Ok(Some(name));
            },
            _ => {},
        }
        if self.at(&TokenType::LeftParen) {
            self.advance();
            let name = match &self.tokens[self.position].token_type {
                TokenType::Identifier(n) => copy_string(n),
                _ => {
                    proof {
                        lemma_messages_free();
                    }
                    return Err(self.error_here("Expected identifier in 'catch'"));
                },
            };
            self.advance();
            self.expect(TokenType::RightParen)?;
            Ok(Some(name))
        } else {
            Ok(None)
        }
    }

    /// Parses the rest of a `try` statement after its blocks so far: an
    /// optional `finally` block, then `end`.
    fn parse_finally(
        &mut self,
        try_block: Vec<Stmt>,
        catch_var: Option<String>,
        catch_block: Vec<Stmt>,
    ) -> (r: Result<Stmt, String>)
        requires
            old(self).wf(),
        ensures
            final(self).wf(),
            final(self).tokens@ == old(self).tokens@,
            stmt_outcome(
                r,
                p_finally(
                    old(self).toks(),
                    old(self).pos(),
                    stmt_list_view(try_block@),
                    opt_string_view(catch_var),
                    stmt_list_view(catch_block@),
                ),
                final(self).pos(),
                old(self).tokens@,
            ),
            r is Ok ==> final(self).pos() > old(self).pos(),
        decreases old(self).toks().len() - old(self).pos(), 88nat,
    {
        let ghost t = self.toks();
        if self.at(&TokenType::Finally) {
            self.advance();
            proof {
                lemma_skip_nl(t, self.position as nat);
            }
            self.skip_newlines();
            let fb = self.parse_body()?;
            let s = Stmt::TryCatch { try_block, catch_var, catch_block, finally_block: Some(fb) };
            proof {
                lemma_stmt_view(s);
            }
            return Ok(s);
        }
        self.expect(TokenType::End)?;
        let s = Stmt::TryCatch { try_block, catch_var, catch_block, finally_block: None };
        proof {
            lemma_stmt_view(s);
        }
        Ok(s)
    }

    /// Parses `try` with its block, then `catch` (with an optional
    /// variable) and its block, `finally` and its block, or both, and
    /// `end`.
    pub fn parse_try(&mut self) -> (r: Result<Stmt, String>)
        requires
            old(self).wf(),
            is(old(self).toks(), old(self).pos(), TokenType::Try),
        ensures
            final(self).wf(),
            final(self).tokens@ == old(self).tokens@,
            stmt_outcome(r, p_try(old(self).toks(), old(self).pos()), final(self).pos(), old(self).tokens@),
            r is Ok ==> final(self).pos() > old(self).pos(),
        decreases old(self).toks().len() - old(self).pos(), 87nat,
    {
        let ghost t = self.toks();
        self.advance();
        proof {
            lemma_skip_nl(t, self.position as nat);
        }
        self.skip_newlines();
        let try_block = self.parse_block(Stop::Try)?;
        if self.at(&TokenType::Catch) {
            self.advance();
            let catch_var = self.parse_catch_var()?;
            proof {
                lemma_skip_nl(t, self.position as nat);
            }
            self.skip_newlines();
            let catch_block = self.parse_block(Stop::Catch)?;
            return self.parse_finally(try_block, catch_var, catch_block);
        }
        if self.at(&TokenType::Finally) {
            let ghost tb = stmt_list_view(try_block@);
            let empty: Vec<Stmt> = Vec::new();
            assert(stmt_list_view(empty@) =~= Seq::<StmtV>::empty());
            return self.parse_finally(try_block, None, empty);
        }
        proof {
            lemma_messages_free();
        }
        Err(self.error_here("Expected 'catch' or 'finally'"))
    }
}

} // verus!
