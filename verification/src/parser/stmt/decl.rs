//! Declarations and simple statements: `import`, `say`, `let`, `return`
//! and `throw` values, struct definitions, function names and parameters.

use vstd::prelude::*;
use crate::ast::{Expr, ExprV, Stmt, StmtV, clone_expr, expr_list_view, string_list_view, stmt_list_view, opt_expr_view, defaults_view, lemma_stmt_view};
use crate::lexer::TokenType;
use crate::lexer::location_text;
use crate::text::{chars_of, string_from_chars, push_decimal};
use crate::diagnostics::{push_chars, push_str};
use crate::parser::{Parser, is, kind, skip_nl, lemma_skip_nl, reports, lemma_messages_free};
use crate::parser::expr::copy_string;
use crate::parser::grammar::{p_import, p_say, p_let_names, p_expr_list, p_let, let_bindings, p_optional_value, p_struct_fields, p_struct, p_params, lemma_let_mismatch_free, ParamV, param_names, param_defaults};
use super::{stmt_outcome, stmts_outcome};

verus! {

/// The parameters `params` with their default values `defaults`.
pub open spec fn params_view(params: Seq<String>, defaults: Seq<Option<Expr>>) -> Seq<ParamV> {
    Seq::new(params.len(), |i: int| (params[i]@, opt_expr_view(defaults[i])))
}

impl Parser {
    /// Parses `import "path"`, optionally followed by `as alias`.
    pub fn parse_import(&mut self) -> (r: Result<Stmt, String>)
        requires
            old(self).wf(),
            is(old(self).toks(), old(self).pos(), TokenType::Import),
        ensures
            final(self).wf(),
            final(self).tokens@ == old(self).tokens@,
            stmt_outcome(r, p_import(old(self).toks(), old(self).pos()), final(self).pos(), old(self).tokens@),
            r is Ok ==> final(self).pos() > old(self).pos(),
    {
        self.advance();
        let path = match &self.tokens[self.position].token_type {
            TokenType::String(s) => copy_string(s),
            _ => {
                proof {
                    lemma_messages_free();
                }
                return Err(self.error_here("Expected string literal after 'import'"));
            },
        };
        self.advance();
        let alias = if self.at(&TokenType::As) {
            self.advance();
            let a = match &self.tokens[self.position].token_type {
                TokenType::Identifier(s) => copy_string(s),
                _ => {
                    proof {
                        lemma_messages_free();
                    }
                    return Err(self.error_here("Expected identifier after 'as'"));
                },
            };
            self.advance();
            Some(a)
        } else {
            None
        };
        let s = Stmt::Import { path, alias };
        proof {
            lemma_stmt_view(s);
        }
        Ok(s)
    }

    /// Parses `say expr`.
    pub fn parse_say(&mut self) -> (r: Result<Stmt, String>)
        requires
            old(self).wf(),
            is(old(self).toks(), old(self).pos(), TokenType::Say),
        ensures
            final(self).wf(),
            final(self).tokens@ == old(self).tokens@,
            stmt_outcome(r, p_say(old(self).toks(), old(self).pos()), final(self).pos(), old(self).tokens@),
            r is Ok ==> final(self).pos() > old(self).pos(),
    {
        self.advance();
        let e = self.parse_expression()?;
        Ok(Stmt::Say(e))
    }

    /// Parses the comma-separated names of a `let`.
    fn parse_let_names(&mut self) -> (r: Result<Vec<String>, String>)
        requires
            old(self).wf(),
        ensures
            final(self).wf(),
            final(self).tokens@ == old(self).tokens@,
            match p_let_names(old(self).toks(), old(self).pos(), seq![]) {
                Ok((v, q)) => r matches Ok(names) && string_list_view(names@) == v && final(self).pos() == q,
                Err(e) => r matches Err(m) && reports(old(self).tokens@, e, m@),
            },
            r is Ok ==> final(self).pos() > old(self).pos(),
    {
        let ghost t = self.toks();
        let ghost p = self.position as nat;
        let mut names: Vec<String> = Vec::new();
        assert(string_list_view(names@) =~= Seq::<Seq<char>>::empty());
        loop
            invariant
                self.wf(),
                self.toks() == t,
                self.tokens@ == old(self).tokens@,
                t == old(self).toks(),
                p == old(self).pos(),
                self.position >= p,
                p_let_names(t, p, seq![]) == p_let_names(
                    t,
                    self.position as nat,
                    string_list_view(names@),
                ),
            decreases t.len() - self.position,
        {
            let name = match &self.tokens[self.position].token_type {
                TokenType::Identifier(s) => copy_string(s),
                _ => {
                    proof {
                        lemma_messages_free();
                    }
                    return Err(self.error_here("Expected identifier after 'let'"));
                },
            };
            self.advance();
            let ghost before = names@;
            names.push(name);
            assert(string_list_view(names@) =~= string_list_view(before).push(name@));
            if self.at(&TokenType::Comma) {
                self.advance();
            } else {
                return Ok(names);
            }
        }
    }

    /// Parses comma-separated expressions after those in `acc`.
    pub fn parse_expr_list(&mut self, acc: Vec<Expr>) -> (r: Result<Vec<Expr>, String>)
        requires
            old(self).wf(),
        ensures
            final(self).wf(),
            final(self).tokens@ == old(self).tokens@,
            match p_expr_list(old(self).toks(), old(self).pos(), expr_list_view(acc@)) {
                Ok((v, q)) => r matches Ok(es) && expr_list_view(es@) == v && final(self).pos() == q,
                Err(e) => r matches Err(m) && reports(old(self).tokens@, e, m@),
            },
            r is Ok ==> final(self).pos() > old(self).pos(),
    {
        let ghost t = self.toks();
        let ghost p = self.position as nat;
        let mut values = acc;
        loop
            invariant
                self.wf(),
                self.toks() == t,
                self.tokens@ == old(self).tokens@,
                t == old(self).toks(),
                p == old(self).pos(),
                self.position >= p,
                p_expr_list(t, p, expr_list_view(acc@)) == p_expr_list(
                    t,
                    self.position as nat,
                    expr_list_view(values@),
                ),
            decreases t.len() - self.position,
        {
            let v = self.parse_expression()?;
            let ghost before = values@;
            values.push(v);
            assert(expr_list_view(values@) =~= expr_list_view(before).push(v@));
            if self.at(&TokenType::Comma) {
                self.advance();
            } else {
                return Ok(values);
            }
        }
    }

    /// Parses `let a, b, ... = x, y, ...`: all names bound to a single
    /// value, or name by name; the counts must match otherwise.
    pub fn parse_let(&mut self) -> (r: Result<Vec<Stmt>, String>)
        requires
            old(self).wf(),
            is(old(self).toks(), old(self).pos(), TokenType::Let),
        ensures
            final(self).wf(),
            final(self).tokens@ == old(self).tokens@,
            stmts_outcome(r, p_let(old(self).toks(), old(self).pos()), final(self).pos(), old(self).tokens@),
            r is Ok ==> final(self).pos() > old(self).pos(),
    {
        reveal(p_let);
        self.advance();
        let first_line = self.tokens[self.position].line;
        let first_col = self.tokens[self.position].column;
        let names = self.parse_let_names()?;
        self.expect(TokenType::Assign)?;
        let empty: Vec<Expr> = Vec::new();
        assert(expr_list_view(empty@) =~= Seq::<ExprV>::empty());
        let values = self.parse_expr_list(empty)?;
        let ghost nv = string_list_view(names@);
        let ghost vv = expr_list_view(values@);
        if values.len() == 1 || values.len() == names.len() {
            let mut out: Vec<Stmt> = Vec::new();
            let mut k: usize = 0;
            while k < names.len()
                invariant
                    k <= names@.len(),
                    nv == string_list_view(names@),
                    vv == expr_list_view(values@),
                    values@.len() == 1 || values@.len() == names@.len(),
                    out@.len() == k,
                    forall|j: int|
                        0 <= j < k ==> (#[trigger] out@[j])@ == StmtV::Let(
                            nv[j],
                            if values@.len() == 1 { vv[0] } else { vv[j] },
                        ),
                decreases names@.len() - k,
            {
                let v = if values.len() == 1 {
                    clone_expr(&values[0])
                } else {
                    clone_expr(&values[k])
                };
                out.push(Stmt::Let { name: copy_string(&names[k]), value: v });
                k = k + 1;
            }
            assert(let_bindings(nv, vv) matches Some(ss) && ss =~= stmt_list_view(out@));
            Ok(out)
        } else {
            let mut m: Vec<char> = Vec::new();
            push_str(&mut m, "Mismatch in 'let' statement: ");
            push_decimal(&mut m, names.len());
            push_str(&mut m, " variables defined but ");
            push_decimal(&mut m, values.len());
            push_str(&mut m, " values provided");
            let prefix = string_from_chars(m.as_slice());
            proof {
                lemma_let_mismatch_free(names@.len() as nat, values@.len() as nat);
            }
            Err(location_text(prefix.as_str(), first_line, first_col))
        }
    }

    /// Parses the value of a `return` or `throw`: the expression that
    /// follows, or none at the end of a line.
    pub fn parse_optional_value(&mut self) -> (r: Result<Option<Expr>, String>)
        requires
            old(self).wf(),
            is(old(self).toks(), old(self).pos(), TokenType::Return) || is(
                old(self).toks(),
                old(self).pos(),
                TokenType::Throw,
            ),
        ensures
            final(self).wf(),
            final(self).tokens@ == old(self).tokens@,
            match p_optional_value(old(self).toks(), old(self).pos()) {
                Ok((v, q)) => r matches Ok(o) && opt_expr_view(o) == v && final(self).pos() == q,
                Err(e) => r matches Err(m) && reports(old(self).tokens@, e, m@),
            },
            r is Ok ==> final(self).pos() > old(self).pos(),
    {
        reveal(p_optional_value);
        self.advance();
        if self.at(&TokenType::Newline) || self.at(&TokenType::Eof) {
            Ok(None)
        } else {
            let e = self.parse_expression()?;
            Ok(Some(e))
        }
    }

    /// Parses the field names of a struct definition up to `end`.
    fn parse_struct_def_fields(&mut self) -> (r: Result<Vec<String>, String>)
        requires
            old(self).wf(),
        ensures
            final(self).wf(),
            final(self).tokens@ == old(self).tokens@,
            match p_struct_fields(old(self).toks(), old(self).pos(), seq![]) {
                Ok((v, q)) => r matches Ok(fields) && string_list_view(fields@) == v && final(self).pos() == q,
                Err(e) => r matches Err(m) && reports(old(self).tokens@, e, m@),
            },
            r is Ok ==> final(self).pos() >= old(self).pos(),
    {
        let ghost t = self.toks();
        let ghost p = self.position as nat;
        let mut fields: Vec<String> = Vec::new();
        assert(string_list_view(fields@) =~= Seq::<Seq<char>>::empty());
        loop
            invariant
                self.wf(),
                self.toks() == t,
                self.tokens@ == old(self).tokens@,
                t == old(self).toks(),
                p == old(self).pos(),
                self.position >= p,
                p_struct_fields(t, p, seq![]) == p_struct_fields(
                    t,
                    self.position as nat,
                    string_list_view(fields@),
                ),
            decreases t.len() - self.position,
        {
            if self.at(&TokenType::End) || self.at(&TokenType::Eof) {
                return Ok(fields);
            }
            proof {
                lemma_skip_nl(t, self.position as nat);
            }
            self.skip_newlines();
            if self.at(&TokenType::End) || self.at(&TokenType::Eof) {
                return Ok(fields);
            }
            let f = match &self.tokens[self.position].token_type {
                TokenType::Identifier(s) => copy_string(s),
                _ => {
                    proof {
                        lemma_messages_free();
                    }
                    return Err(self.error_here("Expected field name or 'end'"));
                },
            };
            self.advance();
            let ghost before = fields@;
            fields.push(f);
            assert(string_list_view(fields@) =~= string_list_view(before).push(f@));
            if self.at(&TokenType::Comma) {
                self.advance();
            }
            proof {
                lemma_skip_nl(t, self.position as nat);
            }
            self.skip_newlines();
        }
    }

    /// Parses `struct Name`, its field names and `end`.
    pub fn parse_struct(&mut self) -> (r: Result<Stmt, String>)
        requires
            old(self).wf(),
            is(old(self).toks(), old(self).pos(), TokenType::Struct),
        ensures
            final(self).wf(),
            final(self).tokens@ == old(self).tokens@,
            stmt_outcome(r, p_struct(old(self).toks(), old(self).pos()), final(self).pos(), old(self).tokens@),
            r is Ok ==> final(self).pos() > old(self).pos(),
    {
        self.advance();
        let name = match &self.tokens[self.position].token_type {
            TokenType::Identifier(s) => copy_string(s),
            _ => {
                proof {
                    lemma_messages_free();
                }
                return Err(self.error_here("Expected struct name"));
            },
        };
        self.advance();
        proof {
            lemma_skip_nl(self.toks(), self.position as nat);
        }
        self.skip_newlines();
        let fields = self.parse_struct_def_fields()?;
        self.expect(TokenType::End)?;
        let s = Stmt::StructDef { name, fields };
        proof {
            lemma_stmt_view(s);
        }
        Ok(s)
    }

    /// Parses parameter names up to the closing parenthesis.
    pub fn parse_params(&mut self) -> (r: Result<(Vec<String>, Vec<Option<Expr>>), String>)
        requires
            old(self).wf(),
        ensures
            final(self).wf(),
            final(self).tokens@ == old(self).tokens@,
            match p_params(old(self).toks(), old(self).pos(), seq![]) {
                Ok((v, q)) => r matches Ok((ps, ds)) && string_list_view(ps@) == param_names(v)
                    && defaults_view(ds@) == param_defaults(v) && final(self).pos() == q,
                Err(e) => r matches Err(m) && reports(old(self).tokens@, e, m@),
            },
            r is Ok ==> final(self).pos() >= old(self).pos(),
    {
        let ghost t = self.toks();
        let ghost p = self.position as nat;
        let mut params: Vec<String> = Vec::new();
        let mut defaults: Vec<Option<Expr>> = Vec::new();
        assert(params_view(params@, defaults@) =~= Seq::<ParamV>::empty());
        while !self.at(&TokenType::RightParen)
            invariant
                self.wf(),
                self.toks() == t,
                self.tokens@ == old(self).tokens@,
                t == old(self).toks(),
                p == old(self).pos(),
                self.position >= p,
                params@.len() == defaults@.len(),
                p_params(t, p, seq![]) == p_params(
                    t,
                    self.position as nat,
                    params_view(params@, defaults@),
                ),
            decreases t.len() - self.position,
        {
            let ghost j = self.position as nat;
            let s = match &self.tokens[self.position].token_type {
                TokenType::Identifier(s) => copy_string(s),
                _ => {
                    proof {
                        lemma_messages_free();
                    }
                    return Err(self.error_here("Expected parameter name"));
                },
            };
            self.advance();
            let ghost before = params_view(params@, defaults@);
            let d = if self.at(&TokenType::Assign) {
                self.advance();
                let e = self.parse_expression()?;
                Some(e)
            } else {
                None
            };
            let ghost dv = opt_expr_view(d);
            params.push(s);
            defaults.push(d);
            assert(params_view(params@, defaults@) =~= before.push((s@, dv)));
            if self.at(&TokenType::Comma) {
                self.advance();
            }
        }
        let ghost pv = params_view(params@, defaults@);
        assert(string_list_view(params@) =~= param_names(pv));
        assert(defaults_view(defaults@) =~= param_defaults(pv));
        Ok((params, defaults))
    }
}

} // verus!
