//! Statements: blocks, the statement dispatch, assignments and the
//! program as a whole.

mod control;
mod decl;

use vstd::prelude::*;
use crate::ast::{BinaryOp, Expr, ExprV, Program, Stmt, StmtV, clone_expr, expr_list_view, stmt_list_view, lemma_expr_view, lemma_stmt_view};
use crate::lexer::{Token, TokenType};
use crate::lexer::token::Kind;
use crate::parser::{Parser, is, kind, skip_nl, lemma_skip_nl, reports, lemma_messages_free};
use crate::parser::expr::{PResult, copy_string, bin, p_expr};
use crate::parser::defaults::expand_defaults;
use crate::parser::grammar::{
    Stop, stops, compound_op, cmp_op, one, p_expr_stmt, p_block, p_stmt, p_body, p_ident_stmt,
    p_keyword, p_target, p_index, p_member, p_method_args, p_assign_target, assign_to, p_program, p_optional_value,
};

verus! {

/// How a statement parse relates to its specification.
pub open spec fn stmt_outcome(
    r: Result<Stmt, String>,
    s: PResult<StmtV>,
    pos: nat,
    tk: Seq<Token>,
) -> bool {
    match s {
        Ok((v, q)) => r matches Ok(x) && x@ == v && pos == q,
        Err(e) => r matches Err(m) && reports(tk, e, m@),
    }
}

/// How the parse of a list of statements relates to its specification.
pub open spec fn stmts_outcome(
    r: Result<Vec<Stmt>, String>,
    s: PResult<Seq<StmtV>>,
    pos: nat,
    tk: Seq<Token>,
) -> bool {
    match s {
        Ok((v, q)) => r matches Ok(x) && stmt_list_view(x@) == v && pos == q,
        Err(e) => r matches Err(m) && reports(tk, e, m@),
    }
}

/// A statement as a one-statement list.
fn single(r: Result<Stmt, String>) -> (o: Result<Vec<Stmt>, String>)
    ensures
        forall|s: PResult<StmtV>, pos: nat, tk: Seq<Token>|
            stmt_outcome(r, s, pos, tk) ==> #[trigger] stmts_outcome(o, one(s), pos, tk),
{
    match r {
        Ok(x) => {
            let ghost xv = x@;
            let v = vec![x];
            assert(stmt_list_view(v@) =~= seq![xv]);
            Ok(v)
        },
        Err(e) => Err(e),
    }
}

/// `s` as a one-statement list.
fn just(s: Stmt) -> (v: Vec<Stmt>)
    ensures
        stmt_list_view(v@) == seq![s@],
{
    let ghost sv = s@;
    let v = vec![s];
    assert(stmt_list_view(v@) =~= seq![sv]);
    v
}

/// The operator of a compound assignment token.
pub fn compound_op_exec(t: &TokenType) -> (r: Option<BinaryOp>)
    ensures
        r == compound_op(t@),
{
    match t {
        TokenType::PlusAssign => Some(BinaryOp::Add),
        TokenType::MinusAssign => Some(BinaryOp::Subtract),
        TokenType::MultiplyAssign => Some(BinaryOp::Multiply),
        TokenType::DivideAssign => Some(BinaryOp::Divide),
        _ => None,
    }
}

/// The comparison of a comparison token.
pub fn cmp_op_exec(t: &TokenType) -> (r: Option<BinaryOp>)
    ensures
        r == cmp_op(t@),
{
    match t {
        TokenType::Equal => Some(BinaryOp::Equal),
        TokenType::NotEqual => Some(BinaryOp::NotEqual),
        TokenType::Less => Some(BinaryOp::Less),
        TokenType::Greater => Some(BinaryOp::Greater),
        TokenType::LessEqual => Some(BinaryOp::LessEqual),
        TokenType::GreaterEqual => Some(BinaryOp::GreaterEqual),
        _ => None,
    }
}

impl Parser {
    /// Parses the whole program from the current token.
    pub fn parse(&mut self) -> (r: Result<Program, String>)
        requires
            old(self).wf(),
        ensures
            final(self).wf(),
            final(self).tokens@ == old(self).tokens@,
            match p_program(old(self).toks(), old(self).pos()) {
                Ok(v) => r matches Ok(prog) && prog@ == v,
                Err(e) => r matches Err(m) && reports(old(self).tokens@, e, m@),
            },
    {
        proof {
            lemma_skip_nl(self.toks(), self.position as nat);
        }
        self.skip_newlines();
        let statements = self.parse_block(Stop::Program)?;
        Ok(Program { statements: expand_defaults(statements) })
    }

    /// Whether the current token ends a block of kind `stop`.
    pub fn at_stop(&self, stop: Stop) -> (b: bool)
        requires
            self.wf(),
        ensures
            b == stops(stop, kind(self.toks(), self.pos())),
    {
        if self.at(&TokenType::Eof) {
            return true;
        }
        match stop {
            Stop::Program => false,
            Stop::End => self.at(&TokenType::End),
            Stop::Branch => self.at(&TokenType::Else) || self.at(&TokenType::Elif) || self.at(
                &TokenType::End,
            ),
            Stop::Try => self.at(&TokenType::Catch) || self.at(&TokenType::Finally),
            Stop::Catch => self.at(&TokenType::End) || self.at(&TokenType::Finally),
            Stop::Arm => self.at(&TokenType::Is) || self.at(&TokenType::Else) || self.at(
                &TokenType::End,
            ),
        }
    }

    /// Parses statements up to a token that ends a block of kind `stop`,
    /// which it leaves current.
    pub fn parse_block(&mut self, stop: Stop) -> (r: Result<Vec<Stmt>, String>)
        requires
            old(self).wf(),
        ensures
            final(self).wf(),
            final(self).tokens@ == old(self).tokens@,
            stmts_outcome(r, p_block(old(self).toks(), old(self).pos(), seq![], stop), final(self).pos(), old(self).tokens@),
            r is Ok ==> final(self).pos() >= old(self).pos(),
        decreases old(self).toks().len() - old(self).pos(), 90nat,
    {
        let ghost t = self.toks();
        let ghost p = self.position as nat;
        let mut body: Vec<Stmt> = Vec::new();
        assert(stmt_list_view(body@) =~= Seq::<StmtV>::empty());
        while !self.at_stop(stop)
            invariant
                self.wf(),
                self.toks() == t,
                self.tokens@ == old(self).tokens@,
                t == old(self).toks(),
                p == old(self).pos(),
                self.position >= p,
                p_block(t, p, seq![], stop) == p_block(
                    t,
                    self.position as nat,
                    stmt_list_view(body@),
                    stop,
                ),
            decreases t.len() - self.position,
        {
            let mut ss = self.parse_statement()?;
            let ghost before = body@;
            let ghost added = ss@;
            body.append(&mut ss);
            assert(stmt_list_view(body@) =~= stmt_list_view(before) + stmt_list_view(added));
            proof {
                lemma_skip_nl(t, self.position as nat);
            }
            self.skip_newlines();
        }
        Ok(body)
    }

    /// Parses a block closed by `end`, and the `end`.
    pub fn parse_body(&mut self) -> (r: Result<Vec<Stmt>, String>)
        requires
            old(self).wf(),
        ensures
            final(self).wf(),
            final(self).tokens@ == old(self).tokens@,
            stmts_outcome(r, p_body(old(self).toks(), old(self).pos()), final(self).pos(), old(self).tokens@),
            r is Ok ==> final(self).pos() > old(self).pos(),
        decreases old(self).toks().len() - old(self).pos(), 91nat,
    {
        let body = self.parse_block(Stop::End)?;
        self.expect(TokenType::End)?;
        Ok(body)
    }

    /// Parses an expression statement.
    fn parse_expr_stmt(&mut self) -> (r: Result<Vec<Stmt>, String>)
        requires
            old(self).wf(),
        ensures
            final(self).wf(),
            final(self).tokens@ == old(self).tokens@,
            stmts_outcome(r, p_expr_stmt(old(self).toks(), old(self).pos()), final(self).pos(), old(self).tokens@),
            r is Ok ==> final(self).pos() > old(self).pos(),
    {
        let e = self.parse_expression()?;
        Ok(just(Stmt::Expr(e)))
    }

    /// Parses a statement that starts with a keyword and is a single
    /// statement: `import`, `struct`, `say`, `if`, `while`, `repeat`,
    /// `for`, `function` or `try`.
    fn parse_keyword_stmt(&mut self) -> (r: Result<Stmt, String>)
        requires
            old(self).wf(),
        ensures
            final(self).wf(),
            final(self).tokens@ == old(self).tokens@,
            stmt_outcome(r, p_keyword(old(self).toks(), old(self).pos()), final(self).pos(), old(self).tokens@),
            r is Ok ==> final(self).pos() > old(self).pos(),
        decreases old(self).toks().len() - old(self).pos(), 88nat,
    {
        match &self.tokens[self.position].token_type {
            TokenType::Import => self.parse_import(),
            TokenType::Struct => self.parse_struct(),
            TokenType::Say => self.parse_say(),
            TokenType::If => self.parse_if(),
            TokenType::While => self.parse_while(),
            TokenType::Repeat => self.parse_repeat(),
            TokenType::For => self.parse_for(),
            TokenType::Function => self.parse_function(),
            TokenType::Try => self.parse_try(),
            _ => Err(self.unexpected_token()),
        }
    }

    /// Parses one statement, after any newlines: a single statement, one
    /// per name for a `let`, the nested `if`s of a `when`.
    pub fn parse_statement(&mut self) -> (r: Result<Vec<Stmt>, String>)
        requires
            old(self).wf(),
        ensures
            final(self).wf(),
            final(self).tokens@ == old(self).tokens@,
            stmts_outcome(r, p_stmt(old(self).toks(), old(self).pos()), final(self).pos(), old(self).tokens@),
            r is Ok ==> final(self).pos() > old(self).pos(),
        decreases old(self).toks().len() - old(self).pos(), 89nat,
    {
        let ghost t = self.toks();
        proof {
            lemma_skip_nl(t, self.position as nat);
        }
        self.skip_newlines();
        let ghost q = self.position as nat;
        if self.position == self.tokens.len() - 1 {
            return self.parse_expr_stmt();
        }
        match &self.tokens[self.position].token_type {
            TokenType::Let => self.parse_let(),
            TokenType::Return => {
                let v = self.parse_optional_value()?;
                let s = Stmt::Return(v);
                proof {
                    lemma_stmt_view(s);
                }
                Ok(just(s))
            },
            TokenType::Break => {
                self.advance();
                Ok(just(Stmt::Break))
            },
            TokenType::Continue => {
                self.advance();
                Ok(just(Stmt::Continue))
            },
            TokenType::When => self.parse_when(),
            TokenType::Throw => {
                let v = self.parse_optional_value()?;
                let s = Stmt::Throw(v);
                proof {
                    lemma_stmt_view(s);
                }
                Ok(just(s))
            },
            TokenType::Identifier(id) => {
                let name = copy_string(id);
                single(self.parse_ident_stmt(name))
            },
            TokenType::Import | TokenType::Struct | TokenType::Say | TokenType::If
            | TokenType::While | TokenType::Repeat | TokenType::For | TokenType::Function
            | TokenType::Try => single(self.parse_keyword_stmt()),
            _ => self.parse_expr_stmt(),
        }
    }

    /// Parses a statement that starts with the name `name`: an
    /// assignment (plain, compound, to an element or a field) or an
    /// expression.
    fn parse_ident_stmt(&mut self, name: String) -> (r: Result<Stmt, String>)
        requires
            old(self).wf(),
            kind(old(self).toks(), old(self).pos()) == Kind::Ident(name@),
        ensures
            final(self).wf(),
            final(self).tokens@ == old(self).tokens@,
            stmt_outcome(
                r,
                p_ident_stmt(old(self).toks(), old(self).pos(), name@),
                final(self).pos(),
                old(self).tokens@,
            ),
            r is Ok ==> final(self).pos() > old(self).pos(),
    {
        reveal(p_ident_stmt);
        self.advance();
        if self.at(&TokenType::LeftBracket) || self.at(&TokenType::Dot) {
            let target = self.parse_target(Expr::Identifier(name))?;
            return self.parse_assign_target(target);
        }
        if self.at(&TokenType::Assign) {
            self.advance();
            let value = self.parse_expression()?;
            return Ok(Stmt::Assign { name, value });
        }
        match compound_op_exec(&self.tokens[self.position].token_type) {
            Some(op) => {
                self.advance();
                let value = self.parse_expression()?;
                let left = Expr::Identifier(copy_string(&name));
                assert(left@ == ExprV::Ident(name@));
                let ghost vv = value@;
                let combined = Expr::Binary { left: Box::new(left), op, right: Box::new(value) };
                assert(combined@ == bin(ExprV::Ident(name@), op, vv));
                Ok(Stmt::Assign { name, value: combined })
            },
            None => {
                self.position = self.position - 1;
                let e = self.parse_expression()?;
                Ok(Stmt::Expr(e))
            },
        }
    }

    /// Parses an indexing `[index]` applied to `target`.
    fn parse_index(&mut self, target: Expr) -> (r: Result<Expr, String>)
        requires
            old(self).wf(),
            is(old(self).toks(), old(self).pos(), TokenType::LeftBracket),
        ensures
            final(self).wf(),
            final(self).tokens@ == old(self).tokens@,
            match p_index(old(self).toks(), old(self).pos(), target@) {
                Ok((v, q)) => r matches Ok(e) && e@ == v && final(self).pos() == q,
                Err(e) => r matches Err(m) && reports(old(self).tokens@, e, m@),
            },
            r is Ok ==> final(self).pos() > old(self).pos(),
    {
        reveal(p_index);
        self.advance();
        let index = self.parse_expression()?;
        self.expect(TokenType::RightBracket)?;
        Ok(Expr::Index { array: Box::new(target), index: Box::new(index) })
    }

    /// Parses a field access `.f` or a method call `.f(args)` applied to
    /// `target`, which becomes the call's first argument.
    fn parse_member(&mut self, target: Expr) -> (r: Result<Expr, String>)
        requires
            old(self).wf(),
            is(old(self).toks(), old(self).pos(), TokenType::Dot),
        ensures
            final(self).wf(),
            final(self).tokens@ == old(self).tokens@,
            match p_member(old(self).toks(), old(self).pos(), target@) {
                Ok((v, q)) => r matches Ok(e) && e@ == v && final(self).pos() == q,
                Err(e) => r matches Err(m) && reports(old(self).tokens@, e, m@),
            },
            r is Ok ==> final(self).pos() > old(self).pos(),
    {
        reveal(p_member);
        self.advance();
        let field = match &self.tokens[self.position].token_type {
            TokenType::Identifier(f) => copy_string(f),
            _ => {
                proof {
                    lemma_messages_free();
                }
                return Err(self.error_here("Expected field name after '.'"));
            },
        };
        self.advance();
        if self.at(&TokenType::LeftParen) {
            self.advance();
            let ghost tv = target@;
            let receiver = vec![target];
            assert(expr_list_view(receiver@) =~= seq![tv]);
            let args = if self.at(&TokenType::RightParen) {
                receiver
            } else {
                self.parse_expr_list(receiver)?
            };
            self.expect(TokenType::RightParen)?;
            let call = Expr::Call { name: field, args };
            proof {
                lemma_expr_view(call);
            }
            Ok(call)
        } else {
            Ok(Expr::FieldAccess { object: Box::new(target), field })
        }
    }

    /// Parses the indexing, field accesses and method calls applied to
    /// `target` at the start of a statement.
    fn parse_target(&mut self, target: Expr) -> (r: Result<Expr, String>)
        requires
            old(self).wf(),
        ensures
            final(self).wf(),
            final(self).tokens@ == old(self).tokens@,
            match p_target(old(self).toks(), old(self).pos(), target@) {
                Ok((v, q)) => r matches Ok(e) && e@ == v && final(self).pos() == q,
                Err(e) => r matches Err(m) && reports(old(self).tokens@, e, m@),
            },
            r is Ok ==> final(self).pos() >= old(self).pos(),
    {
        let ghost t = self.toks();
        let ghost p = self.position as nat;
        let mut cur = target;
        loop
            invariant
                self.wf(),
                self.toks() == t,
                self.tokens@ == old(self).tokens@,
                t == old(self).toks(),
                p == old(self).pos(),
                self.position >= p,
                p_target(t, p, target@) == p_target(t, self.position as nat, cur@),
            decreases t.len() - self.position,
        {
            if self.at(&TokenType::LeftBracket) {
                cur = self.parse_index(cur)?;
            } else if self.at(&TokenType::Dot) {
                cur = self.parse_member(cur)?;
            } else {
                return Ok(cur);
            }
        }
    }

    /// The assignment of `value` to `target`: to an element or a field;
    /// any other target is refused.
    fn make_assignment(&self, target: Expr, value: Expr) -> (r: Result<Stmt, String>)
        requires
            self.wf(),
        ensures
            match assign_to(target@, value@) {
                Some(s) => r matches Ok(x) && x@ == s,
                None => r matches Err(m) && reports(
                    self.tokens@,
                    ("Cannot assign to this expression"@, self.pos()),
                    m@,
                ),
            },
    {
        match target {
            Expr::Index { array, index } => Ok(Stmt::IndexAssign { array: *array, index: *index, value }),
            Expr::FieldAccess { object, field } => Ok(Stmt::FieldAssign { object: *object, field, value }),
            _ => {
                proof {
                    lemma_messages_free();
                }
                Err(self.error_here("Cannot assign to this expression"))
            },
        }
    }

    /// Parses what follows an indexing or field target: `=` or a compound
    /// assignment and the value, or nothing (an expression statement).
    fn parse_assign_target(&mut self, target: Expr) -> (r: Result<Stmt, String>)
        requires
            old(self).wf(),
        ensures
            final(self).wf(),
            final(self).tokens@ == old(self).tokens@,
            stmt_outcome(
                r,
                p_assign_target(old(self).toks(), old(self).pos(), target@),
                final(self).pos(),
                old(self).tokens@,
            ),
            r is Ok ==> final(self).pos() >= old(self).pos(),
    {
        if self.at(&TokenType::Assign) {
            self.advance();
            let value = self.parse_expression()?;
            return self.make_assignment(target, value);
        }
        match compound_op_exec(&self.tokens[self.position].token_type) {
            Some(op) => {
                self.advance();
                let value = self.parse_expression()?;
                let left = clone_expr(&target);
                let combined = Expr::Binary { left: Box::new(left), op, right: Box::new(value) };
                self.make_assignment(target, combined)
            },
            None => Ok(Stmt::Expr(target)),
        }
    }
}

} // verus!
