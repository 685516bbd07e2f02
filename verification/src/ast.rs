//! The abstract syntax tree that the parser builds.

use vstd::prelude::*;

verus! {

#[derive(Debug, Clone, Copy, PartialEq, Eq, Structural)]
pub enum BinaryOp {
    Add,
    Subtract,
    Multiply,
    Divide,
    Modulo,
    Equal,
    NotEqual,
    Less,
    Greater,
    LessEqual,
    GreaterEqual,
    And,
    Or,
}

#[derive(Debug, Clone, Copy, PartialEq, Eq, Structural)]
pub enum UnaryOp {
    Negate,
    Not,
}

#[derive(Debug, PartialEq)]
pub enum Expr {
    /// A numeric literal, holding its source text.
    Number(String),
    String(String),
    /// A string with `{name}` placeholders, as literal and expression parts.
    InterpolatedString(Vec<Expr>),
    Identifier(String),
    Binary { left: Box<Expr>, op: BinaryOp, right: Box<Expr> },
    Unary { op: UnaryOp, expr: Box<Expr> },
    Call { name: String, args: Vec<Expr> },
    Array(Vec<Expr>),
    Index { array: Box<Expr>, index: Box<Expr> },
    FieldAccess { object: Box<Expr>, field: String },
    StructInit { name: String, fields: Vec<(String, Expr)> },
    MapLiteral(Vec<(Expr, Expr)>),
}

#[derive(Debug, PartialEq)]
pub enum Stmt {
    Import { path: String, alias: Option<String> },
    Say(Expr),
    Expr(Expr),
    Let { name: String, value: Expr },
    Assign { name: String, value: Expr },
    IndexAssign { array: Expr, index: Expr, value: Expr },
    FieldAssign { object: Expr, field: String, value: Expr },
    If { condition: Expr, then_block: Vec<Stmt>, else_block: Option<Vec<Stmt>> },
    While { condition: Expr, body: Vec<Stmt> },
    Repeat { body: Vec<Stmt> },
    For { var: String, start: Expr, end: Expr, body: Vec<Stmt> },
    ForEach { var: String, iterable: Expr, body: Vec<Stmt> },
    /// A function definition: its parameters, the default value of each
    /// (`None` where there is none) and its body.
    Function { name: String, params: Vec<String>, defaults: Vec<Option<Expr>>, body: Vec<Stmt> },
    Return(Option<Expr>),
    Break,
    Continue,
    TryCatch {
        try_block: Vec<Stmt>,
        catch_var: Option<String>,
        catch_block: Vec<Stmt>,
        finally_block: Option<Vec<Stmt>>,
    },
    Throw(Option<Expr>),
    StructDef { name: String, fields: Vec<String> },
}

#[derive(Debug, PartialEq)]
pub struct Program {
    pub statements: Vec<Stmt>,
}

/// An expression as the specification sees it: names and literals as
/// character sequences, lists as sequences.
pub ghost enum ExprV {
    Number(Seq<char>),
    Str(Seq<char>),
    Interpolated(Seq<ExprV>),
    Ident(Seq<char>),
    Binary(Box<ExprV>, BinaryOp, Box<ExprV>),
    Unary(UnaryOp, Box<ExprV>),
    Call(Seq<char>, Seq<ExprV>),
    Array(Seq<ExprV>),
    Index(Box<ExprV>, Box<ExprV>),
    Field(Box<ExprV>, Seq<char>),
    StructInit(Seq<char>, Seq<(Seq<char>, ExprV)>),
    MapLiteral(Seq<(ExprV, ExprV)>),
}

/// A statement as the specification sees it.
pub ghost enum StmtV {
    Import(Seq<char>, Option<Seq<char>>),
    Say(ExprV),
    Expr(ExprV),
    Let(Seq<char>, ExprV),
    Assign(Seq<char>, ExprV),
    IndexAssign(ExprV, ExprV, ExprV),
    FieldAssign(ExprV, Seq<char>, ExprV),
    If(ExprV, Seq<StmtV>, Option<Seq<StmtV>>),
    While(ExprV, Seq<StmtV>),
    Repeat(Seq<StmtV>),
    For(Seq<char>, ExprV, ExprV, Seq<StmtV>),
    ForEach(Seq<char>, ExprV, Seq<StmtV>),
    Function(Seq<char>, Seq<Seq<char>>, Seq<Option<ExprV>>, Seq<StmtV>),
    Return(Option<ExprV>),
    Break,
    Continue,
    TryCatch(Seq<StmtV>, Option<Seq<char>>, Seq<StmtV>, Option<Seq<StmtV>>),
    Throw(Option<ExprV>),
    StructDef(Seq<char>, Seq<Seq<char>>),
}

impl Expr {
    pub open spec fn view(&self) -> ExprV
        decreases self,
    {
        match self {
            Expr::Number(s) => ExprV::Number(s@),
            Expr::String(s) => ExprV::Str(s@),
            Expr::InterpolatedString(parts) => ExprV::Interpolated(
                Seq::new(
                    parts@.len(),
                    |i: int|
                        if 0 <= i < parts@.len() {
                            proof {
                                assert(decreases_to!(self => parts@[i]));
                            }
                            parts@[i].view()
                        } else {
                            ExprV::Number(seq![])
                        },
                ),
            ),
            Expr::Identifier(s) => ExprV::Ident(s@),
            Expr::Binary { left, op, right } => ExprV::Binary(
                Box::new(left.view()),
                *op,
                Box::new(right.view()),
            ),
            Expr::Unary { op, expr } => ExprV::Unary(*op, Box::new(expr.view())),
            Expr::Call { name, args } => ExprV::Call(
                name@,
                Seq::new(
                    args@.len(),
                    |i: int|
                        if 0 <= i < args@.len() {
                            proof {
                                assert(decreases_to!(self => args@[i]));
                            }
                            args@[i].view()
                        } else {
                            ExprV::Number(seq![])
                        },
                ),
            ),
            Expr::Array(items) => ExprV::Array(
                Seq::new(
                    items@.len(),
                    |i: int|
                        if 0 <= i < items@.len() {
                            proof {
                                assert(decreases_to!(self => items@[i]));
                            }
                            items@[i].view()
                        } else {
                            ExprV::Number(seq![])
                        },
                ),
            ),
            Expr::Index { array, index } => ExprV::Index(
                Box::new(array.view()),
                Box::new(index.view()),
            ),
            Expr::FieldAccess { object, field } => ExprV::Field(Box::new(object.view()), field@),
            Expr::StructInit { name, fields } => ExprV::StructInit(
                name@,
                Seq::new(
                    fields@.len(),
                    |i: int|
                        if 0 <= i < fields@.len() {
                            proof {
                                assert(decreases_to!(self => fields@[i].1));
                            }
                            (fields@[i].0@, fields@[i].1.view())
                        } else {
                            (seq![], ExprV::Number(seq![]))
                        },
                ),
            ),
            Expr::MapLiteral(entries) => ExprV::MapLiteral(
                Seq::new(
                    entries@.len(),
                    |i: int|
                        if 0 <= i < entries@.len() {
                            proof {
                                assert(decreases_to!(self => entries@[i].0));
                                assert(decreases_to!(self => entries@[i].1));
                            }
                            (entries@[i].0.view(), entries@[i].1.view())
                        } else {
                            (ExprV::Number(seq![]), ExprV::Number(seq![]))
                        },
                ),
            ),
        }
    }
}

impl Stmt {
    pub open spec fn view(&self) -> StmtV
        decreases self,
    {
        match self {
            Stmt::Import { path, alias } => StmtV::Import(
                path@,
                match alias {
                    Some(a) => Some(a@),
                    None => None,
                },
            ),
            Stmt::Say(e) => StmtV::Say(e.view()),
            Stmt::Expr(e) => StmtV::Expr(e.view()),
            Stmt::Let { name, value } => StmtV::Let(name@, value.view()),
            Stmt::Assign { name, value } => StmtV::Assign(name@, value.view()),
            Stmt::IndexAssign { array, index, value } => StmtV::IndexAssign(
                array.view(),
                index.view(),
                value.view(),
            ),
            Stmt::FieldAssign { object, field, value } => StmtV::FieldAssign(
                object.view(),
                field@,
                value.view(),
            ),
            Stmt::If { condition, then_block, else_block } => StmtV::If(
                condition.view(),
                Seq::new(
                    then_block@.len(),
                    |i: int|
                        if 0 <= i < then_block@.len() {
                            proof {
                                assert(decreases_to!(self => then_block@[i]));
                            }
                            then_block@[i].view()
                        } else {
                            StmtV::Break
                        },
                ),
                match else_block {
                    Some(b) => Some(
                        Seq::new(
                            b@.len(),
                            |i: int|
                                if 0 <= i < b@.len() {
                                    proof {
                                        assert(decreases_to!(self => b@[i]));
                                    }
                                    b@[i].view()
                                } else {
                                    StmtV::Break
                                },
                        ),
                    ),
                    None => None,
                },
            ),
            Stmt::While { condition, body } => StmtV::While(
                condition.view(),
                Seq::new(
                    body@.len(),
                    |i: int|
                        if 0 <= i < body@.len() {
                            proof {
                                assert(decreases_to!(self => body@[i]));
                            }
                            body@[i].view()
                        } else {
                            StmtV::Break
                        },
                ),
            ),
            Stmt::Repeat { body } => StmtV::Repeat(
                Seq::new(
                    body@.len(),
                    |i: int|
                        if 0 <= i < body@.len() {
                            proof {
                                assert(decreases_to!(self => body@[i]));
                            }
                            body@[i].view()
                        } else {
                            StmtV::Break
                        },
                ),
            ),
            Stmt::For { var, start, end, body } => StmtV::For(
                var@,
                start.view(),
                end.view(),
                Seq::new(
                    body@.len(),
                    |i: int|
                        if 0 <= i < body@.len() {
                            proof {
                                assert(decreases_to!(self => body@[i]));
                            }
                            body@[i].view()
                        } else {
                            StmtV::Break
                        },
                ),
            ),
            Stmt::ForEach { var, iterable, body } => StmtV::ForEach(
                var@,
                iterable.view(),
                Seq::new(
                    body@.len(),
                    |i: int|
                        if 0 <= i < body@.len() {
                            proof {
                                assert(decreases_to!(self => body@[i]));
                            }
                            body@[i].view()
                        } else {
                            StmtV::Break
                        },
                ),
            ),
            Stmt::Function { name, params, defaults, body } => StmtV::Function(
                name@,
                Seq::new(params@.len(), |i: int| params@[i]@),
                Seq::new(defaults@.len(), |i: int| opt_expr_view(defaults@[i])),
                Seq::new(
                    body@.len(),
                    |i: int|
                        if 0 <= i < body@.len() {
                            proof {
                                assert(decreases_to!(self => body@[i]));
                            }
                            body@[i].view()
                        } else {
                            StmtV::Break
                        },
                ),
            ),
            Stmt::Return(e) => StmtV::Return(
                match e {
                    Some(x) => Some(x.view()),
                    None => None,
                },
            ),
            Stmt::Break => StmtV::Break,
            Stmt::Continue => StmtV::Continue,
            Stmt::TryCatch { try_block, catch_var, catch_block, finally_block } => StmtV::TryCatch(
                Seq::new(
                    try_block@.len(),
                    |i: int|
                        if 0 <= i < try_block@.len() {
                            proof {
                                assert(decreases_to!(self => try_block@[i]));
                            }
                            try_block@[i].view()
                        } else {
                            StmtV::Break
                        },
                ),
                match catch_var {
                    Some(v) => Some(v@),
                    None => None,
                },
                Seq::new(
                    catch_block@.len(),
                    |i: int|
                        if 0 <= i < catch_block@.len() {
                            proof {
                                assert(decreases_to!(self => catch_block@[i]));
                            }
                            catch_block@[i].view()
                        } else {
                            StmtV::Break
                        },
                ),
                match finally_block {
                    Some(b) => Some(
                        Seq::new(
                            b@.len(),
                            |i: int|
                                if 0 <= i < b@.len() {
                                    proof {
                                        assert(decreases_to!(self => b@[i]));
                                    }
                                    b@[i].view()
                                } else {
                                    StmtV::Break
                                },
                        ),
                    ),
                    None => None,
                },
            ),
            Stmt::Throw(e) => StmtV::Throw(
                match e {
                    Some(x) => Some(x.view()),
                    None => None,
                },
            ),
            Stmt::StructDef { name, fields } => StmtV::StructDef(
                name@,
                Seq::new(fields@.len(), |i: int| fields@[i]@),
            ),
        }
    }
}

/// The views of the statements of `v`.
pub open spec fn stmt_list_view(v: Seq<Stmt>) -> Seq<StmtV> {
    Seq::new(v.len(), |i: int| v[i].view())
}

/// The views of the strings of `v`.
pub open spec fn string_list_view(v: Seq<String>) -> Seq<Seq<char>> {
    Seq::new(v.len(), |i: int| v[i]@)
}

impl Program {
    /// The statements of the program, as the specification sees them.
    pub open spec fn view(&self) -> Seq<StmtV> {
        stmt_list_view(self.statements@)
    }
}

/// A copy of `e`.
#[verifier::loop_isolation(false)]
pub fn clone_expr(e: &Expr) -> (c: Expr)
    ensures
        c@ == e@,
    decreases e, 1nat,
{
    match e {
        Expr::Number(s) => Expr::Number(s.clone()),
        Expr::String(s) => Expr::String(s.clone()),
        Expr::InterpolatedString(parts) => {
            let v = clone_exprs(parts);
            let c = Expr::InterpolatedString(v);
            proof {
                if let ExprV::Interpolated(a) = c@ {
                    if let ExprV::Interpolated(b) = e@ {
                        assert(a =~= expr_list_view(v@));
                        assert(b =~= expr_list_view(parts@));
                    }
                }
            }
            c
        },
        Expr::Identifier(s) => Expr::Identifier(s.clone()),
        Expr::Binary { left, op, right } => Expr::Binary {
            left: Box::new(clone_expr(left)),
            op: *op,
            right: Box::new(clone_expr(right)),
        },
        Expr::Unary { op, expr } => Expr::Unary { op: *op, expr: Box::new(clone_expr(expr)) },
        Expr::Call { name, args } => {
            let v = clone_exprs(args);
            let c = Expr::Call { name: name.clone(), args: v };
            proof {
                if let ExprV::Call(_, a) = c@ {
                    if let ExprV::Call(_, b) = e@ {
                        assert(a =~= expr_list_view(v@));
                        assert(b =~= expr_list_view(args@));
                    }
                }
            }
            c
        },
        Expr::Array(items) => {
            let v = clone_exprs(items);
            let c = Expr::Array(v);
            proof {
                if let ExprV::Array(a) = c@ {
                    if let ExprV::Array(b) = e@ {
                        assert(a =~= expr_list_view(v@));
                        assert(b =~= expr_list_view(items@));
                    }
                }
            }
            c
        },
        Expr::Index { array, index } => Expr::Index {
            array: Box::new(clone_expr(array)),
            index: Box::new(clone_expr(index)),
        },
        Expr::FieldAccess { object, field } => Expr::FieldAccess {
            object: Box::new(clone_expr(object)),
            field: field.clone(),
        },
        Expr::StructInit { name, fields } => {
            let mut v: Vec<(String, Expr)> = Vec::new();
            let mut i: usize = 0;
            while i < fields.len()
                invariant
                    i <= fields@.len(),
                    v@.len() == i,
                    forall|k: int|
                        0 <= k < i ==> v@[k].0@ == fields@[k].0@ && (#[trigger] v@[k]).1@
                            == fields@[k].1@,
                decreases fields@.len() - i,
            {
                proof {
                    assert(decreases_to!(e => fields@[i as int].1));
                }
                let item = (fields[i].0.clone(), clone_expr(&fields[i].1));
                v.push(item);
                i = i + 1;
            }
            let c = Expr::StructInit { name: name.clone(), fields: v };
            proof {
                if let ExprV::StructInit(_, a) = c@ {
                    if let ExprV::StructInit(_, b) = e@ {
                        assert(a =~= b);
                    }
                }
            }
            c
        },
        Expr::MapLiteral(entries) => {
            let mut v: Vec<(Expr, Expr)> = Vec::new();
            let mut i: usize = 0;
            while i < entries.len()
                invariant
                    i <= entries@.len(),
                    v@.len() == i,
                    forall|k: int|
                        0 <= k < i ==> v@[k].0@ == entries@[k].0@ && (#[trigger] v@[k]).1@
                            == entries@[k].1@,
                decreases entries@.len() - i,
            {
                proof {
                    assert(decreases_to!(e => entries@[i as int].0));
                    assert(decreases_to!(e => entries@[i as int].1));
                }
                let item = (clone_expr(&entries[i].0), clone_expr(&entries[i].1));
                v.push(item);
                i = i + 1;
            }
            let c = Expr::MapLiteral(v);
            proof {
                if let ExprV::MapLiteral(a) = c@ {
                    if let ExprV::MapLiteral(b) = e@ {
                        assert(a =~= b);
                    }
                }
            }
            c
        },
    }
}

/// Copies of the expressions of `v`.
pub fn clone_exprs(v: &Vec<Expr>) -> (c: Vec<Expr>)
    ensures
        expr_list_view(c@) == expr_list_view(v@),
    decreases v, 0nat,
{
    let mut c: Vec<Expr> = Vec::new();
    let mut i: usize = 0;
    while i < v.len()
        invariant
            i <= v@.len(),
            c@.len() == i,
            forall|k: int| 0 <= k < i ==> (#[trigger] c@[k])@ == v@[k]@,
        decreases v@.len() - i,
    {
        proof {
            assert(decreases_to!(v => v@[i as int]));
        }
        c.push(clone_expr(&v[i]));
        i = i + 1;
    }
    assert(expr_list_view(c@) =~= expr_list_view(v@));
    c
}

/// The views of struct initialisation fields.
pub open spec fn fields_view(f: Seq<(String, Expr)>) -> Seq<(Seq<char>, ExprV)> {
    Seq::new(f.len(), |i: int| (f[i].0@, f[i].1@))
}

/// The view of an optional block of statements.
pub open spec fn opt_block_view(o: Option<Vec<Stmt>>) -> Option<Seq<StmtV>> {
    match o {
        Some(v) => Some(stmt_list_view(v@)),
        None => None,
    }
}

/// The view of an optional expression.
pub open spec fn opt_expr_view(o: Option<Expr>) -> Option<ExprV> {
    match o {
        Some(e) => Some(e@),
        None => None,
    }
}

/// The views of optional default values.
pub open spec fn defaults_view(v: Seq<Option<Expr>>) -> Seq<Option<ExprV>> {
    Seq::new(v.len(), |i: int| opt_expr_view(v[i]))
}

/// The view of an optional string.
pub open spec fn opt_string_view(o: Option<String>) -> Option<Seq<char>> {
    match o {
        Some(s) => Some(s@),
        None => None,
    }
}

/// The views of expressions with lists, in terms of the list views.
pub proof fn lemma_expr_view(e: Expr)
    ensures
        e matches Expr::InterpolatedString(parts) ==> e@ == ExprV::Interpolated(
            expr_list_view(parts@),
        ),
        e matches Expr::Call { name, args } ==> e@ == ExprV::Call(name@, expr_list_view(args@)),
        e matches Expr::Array(items) ==> e@ == ExprV::Array(expr_list_view(items@)),
        e matches Expr::StructInit { name, fields } ==> e@ == ExprV::StructInit(
            name@,
            fields_view(fields@),
        ),
{
    match e {
        Expr::InterpolatedString(parts) => {
            if let ExprV::Interpolated(a) = e@ {
                assert(a =~= expr_list_view(parts@));
            }
        },
        Expr::Call { name, args } => {
            if let ExprV::Call(_, a) = e@ {
                assert(a =~= expr_list_view(args@));
            }
        },
        Expr::Array(items) => {
            if let ExprV::Array(a) = e@ {
                assert(a =~= expr_list_view(items@));
            }
        },
        Expr::StructInit { name, fields } => {
            if let ExprV::StructInit(_, a) = e@ {
                assert(a =~= fields_view(fields@));
            }
        },
        _ => {},
    }
}

/// The views of statements with blocks, in terms of the block views.
pub proof fn lemma_stmt_view(s: Stmt)
    ensures
        s matches Stmt::If { condition, then_block, else_block } ==> s@ == StmtV::If(
            condition@,
            stmt_list_view(then_block@),
            opt_block_view(else_block),
        ),
        s matches Stmt::While { condition, body } ==> s@ == StmtV::While(
            condition@,
            stmt_list_view(body@),
        ),
        s matches Stmt::Repeat { body } ==> s@ == StmtV::Repeat(stmt_list_view(body@)),
        s matches Stmt::For { var, start, end, body } ==> s@ == StmtV::For(
            var@,
            start@,
            end@,
            stmt_list_view(body@),
        ),
        s matches Stmt::ForEach { var, iterable, body } ==> s@ == StmtV::ForEach(
            var@,
            iterable@,
            stmt_list_view(body@),
        ),
        s matches Stmt::Function { name, params, defaults, body } ==> s@ == StmtV::Function(
            name@,
            string_list_view(params@),
            defaults_view(defaults@),
            stmt_list_view(body@),
        ),
        s matches Stmt::TryCatch { try_block, catch_var, catch_block, finally_block } ==> s@
            == StmtV::TryCatch(
            stmt_list_view(try_block@),
            opt_string_view(catch_var),
            stmt_list_view(catch_block@),
            opt_block_view(finally_block),
        ),
        s matches Stmt::StructDef { name, fields } ==> s@ == StmtV::StructDef(
            name@,
            string_list_view(fields@),
        ),
        s matches Stmt::Import { path, alias } ==> s@ == StmtV::Import(
            path@,
            opt_string_view(alias),
        ),
        s matches Stmt::Return(v) ==> s@ == StmtV::Return(opt_expr_view(v)),
        s matches Stmt::Throw(v) ==> s@ == StmtV::Throw(opt_expr_view(v)),
{
    match s {
        Stmt::If { condition, then_block, else_block } => {
            if let StmtV::If(_, a, b) = s@ {
                assert(a =~= stmt_list_view(then_block@));
                if let Some(eb) = else_block {
                    assert(b->0 =~= stmt_list_view(eb@));
                }
            }
        },
        Stmt::While { condition, body } => {
            if let StmtV::While(_, a) = s@ {
                assert(a =~= stmt_list_view(body@));
            }
        },
        Stmt::Repeat { body } => {
            if let StmtV::Repeat(a) = s@ {
                assert(a =~= stmt_list_view(body@));
            }
        },
        Stmt::For { var, start, end, body } => {
            if let StmtV::For(_, _, _, a) = s@ {
                assert(a =~= stmt_list_view(body@));
            }
        },
        Stmt::ForEach { var, iterable, body } => {
            if let StmtV::ForEach(_, _, a) = s@ {
                assert(a =~= stmt_list_view(body@));
            }
        },
        Stmt::Function { name, params, defaults, body } => {
            if let StmtV::Function(_, a, d, b) = s@ {
                assert(a =~= string_list_view(params@));
                assert(d =~= defaults_view(defaults@));
                assert(b =~= stmt_list_view(body@));
            }
        },
        Stmt::TryCatch { try_block, catch_var, catch_block, finally_block } => {
            if let StmtV::TryCatch(a, _, b, c) = s@ {
                assert(a =~= stmt_list_view(try_block@));
                assert(b =~= stmt_list_view(catch_block@));
                if let Some(fb) = finally_block {
                    assert(c->0 =~= stmt_list_view(fb@));
                }
            }
        },
        Stmt::StructDef { name, fields } => {
            if let StmtV::StructDef(_, a) = s@ {
                assert(a =~= string_list_view(fields@));
            }
        },
        _ => {},
    }
}

/// The views of the expressions of `v`.
pub open spec fn expr_list_view(v: Seq<Expr>) -> Seq<ExprV> {
    Seq::new(v.len(), |i: int| v[i].view())
}


/// Whether every call in `e` satisfies `p`, given the name it calls and
/// the number of its arguments.
pub open spec fn every_call(e: ExprV, p: spec_fn(Seq<char>, nat) -> bool) -> bool
    decreases e,
{
    match e {
        ExprV::Call(name, args) => p(name, args.len()) && forall|i: int|
            0 <= i < args.len() ==> every_call(#[trigger] args[i], p),
        ExprV::Binary(l, _, r) => every_call(*l, p) && every_call(*r, p),
        ExprV::Unary(_, x) => every_call(*x, p),
        ExprV::Array(items) => forall|i: int| 0 <= i < items.len() ==> every_call(#[trigger] items[i], p),
        ExprV::Index(a, x) => every_call(*a, p) && every_call(*x, p),
        ExprV::Field(o, _) => every_call(*o, p),
        ExprV::StructInit(_, fields) => forall|i: int|
            0 <= i < fields.len() ==> every_call(#[trigger] fields[i].1, p),
        ExprV::MapLiteral(entries) => forall|i: int|
            0 <= i < entries.len() ==> every_call(#[trigger] entries[i].0, p) && every_call(
                entries[i].1,
                p,
            ),
        ExprV::Interpolated(parts) => forall|i: int| 0 <= i < parts.len() ==> every_call(#[trigger] parts[i], p),
        _ => true,
    }
}

/// Whether every call in an optional expression satisfies `p`.
pub open spec fn every_call_opt(e: Option<ExprV>, p: spec_fn(Seq<char>, nat) -> bool) -> bool {
    match e {
        Some(x) => every_call(x, p),
        None => true,
    }
}

/// Whether every call in the statement `s` satisfies `p`: in its
/// expressions and nested blocks, and, when `in_defaults` holds, in the
/// default values of the functions it defines.
pub open spec fn every_call_stmt(s: StmtV, p: spec_fn(Seq<char>, nat) -> bool, in_defaults: bool) -> bool
    decreases s, 1nat,
{
    match s {
        StmtV::Function(_, _, defaults, body) => (in_defaults ==> forall|i: int|
            0 <= i < defaults.len() ==> every_call_opt(#[trigger] defaults[i], p)) && every_call_block(
            body,
            p,
            in_defaults,
        ),
        StmtV::Say(e) => every_call(e, p),
        StmtV::Expr(e) => every_call(e, p),
        StmtV::Let(_, e) => every_call(e, p),
        StmtV::Assign(_, e) => every_call(e, p),
        StmtV::If(c, t, e) => every_call(c, p) && every_call_block(t, p, in_defaults) && match e {
            Some(b) => every_call_block(b, p, in_defaults),
            None => true,
        },
        StmtV::While(c, b) => every_call(c, p) && every_call_block(b, p, in_defaults),
        StmtV::For(_, a, z, b) => every_call(a, p) && every_call(z, p) && every_call_block(
            b,
            p,
            in_defaults,
        ),
        StmtV::ForEach(_, x, b) => every_call(x, p) && every_call_block(b, p, in_defaults),
        StmtV::Repeat(b) => every_call_block(b, p, in_defaults),
        StmtV::Return(e) => every_call_opt(e, p),
        StmtV::IndexAssign(a, x, v) => every_call(a, p) && every_call(x, p) && every_call(v, p),
        StmtV::FieldAssign(o, _, v) => every_call(o, p) && every_call(v, p),
        StmtV::TryCatch(t, _, c, f) => every_call_block(t, p, in_defaults) && every_call_block(
            c,
            p,
            in_defaults,
        ) && match f {
            Some(b) => every_call_block(b, p, in_defaults),
            None => true,
        },
        StmtV::Throw(e) => every_call_opt(e, p),
        _ => true,
    }
}

/// Whether every call in the statements `b` satisfies `p` (see
/// `every_call_stmt`).
pub open spec fn every_call_block(b: Seq<StmtV>, p: spec_fn(Seq<char>, nat) -> bool, in_defaults: bool) -> bool
    decreases b, 0nat,
{
    forall|i: int| 0 <= i < b.len() ==> every_call_stmt(#[trigger] b[i], p, in_defaults)
}

/// A condition that every call meets holds of every call in `e`.
pub proof fn lemma_every_call_always(e: ExprV, p: spec_fn(Seq<char>, nat) -> bool)
    requires
        forall|n: Seq<char>, k: nat| #[trigger] p(n, k),
    ensures
        every_call(e, p),
    decreases e,
{
    match e {
        ExprV::Call(name, args) => {
            assert forall|i: int| 0 <= i < args.len() implies every_call(#[trigger] args[i], p) by {
                lemma_every_call_always(args[i], p);
            }
        },
        ExprV::Binary(l, _, r) => {
            lemma_every_call_always(*l, p);
            lemma_every_call_always(*r, p);
        },
        ExprV::Unary(_, x) => {
            lemma_every_call_always(*x, p);
        },
        ExprV::Array(items) => {
            assert forall|i: int| 0 <= i < items.len() implies every_call(#[trigger] items[i], p) by {
                lemma_every_call_always(items[i], p);
            }
        },
        ExprV::Index(a, x) => {
            lemma_every_call_always(*a, p);
            lemma_every_call_always(*x, p);
        },
        ExprV::Field(o, _) => {
            lemma_every_call_always(*o, p);
        },
        ExprV::StructInit(_, fields) => {
            assert forall|i: int| 0 <= i < fields.len() implies every_call(#[trigger] fields[i].1, p) by {
                lemma_every_call_always(fields[i].1, p);
            }
        },
        ExprV::MapLiteral(entries) => {
            assert forall|i: int| 0 <= i < entries.len() implies every_call(#[trigger] entries[i].0, p)
                && every_call(entries[i].1, p) by {
                lemma_every_call_always(entries[i].0, p);
                lemma_every_call_always(entries[i].1, p);
            }
        },
        ExprV::Interpolated(parts) => {
            assert forall|i: int| 0 <= i < parts.len() implies every_call(#[trigger] parts[i], p) by {
                lemma_every_call_always(parts[i], p);
            }
        },
        _ => {},
    }
}

/// A condition that every call meets holds of every call in `s`.
pub proof fn lemma_every_call_stmt_always(s: StmtV, p: spec_fn(Seq<char>, nat) -> bool, in_defaults: bool)
    requires
        forall|n: Seq<char>, k: nat| #[trigger] p(n, k),
    ensures
        every_call_stmt(s, p, in_defaults),
    decreases s, 1nat,
{
    match s {
        StmtV::Function(_, _, defaults, body) => {
            assert forall|i: int| 0 <= i < defaults.len() implies every_call_opt(#[trigger] defaults[i], p) by {
                if let Some(x) = defaults[i] {
                    lemma_every_call_always(x, p);
                }
            }
            lemma_every_call_block_always(body, p, in_defaults);
        },
        StmtV::Say(e) => lemma_every_call_always(e, p),
        StmtV::Expr(e) => lemma_every_call_always(e, p),
        StmtV::Let(_, e) => lemma_every_call_always(e, p),
        StmtV::Assign(_, e) => lemma_every_call_always(e, p),
        StmtV::If(c, t, e) => {
            lemma_every_call_always(c, p);
            lemma_every_call_block_always(t, p, in_defaults);
            if let Some(b) = e {
                lemma_every_call_block_always(b, p, in_defaults);
            }
        },
        StmtV::While(c, b) => {
            lemma_every_call_always(c, p);
            lemma_every_call_block_always(b, p, in_defaults);
        },
        StmtV::For(_, a, z, b) => {
            lemma_every_call_always(a, p);
            lemma_every_call_always(z, p);
            lemma_every_call_block_always(b, p, in_defaults);
        },
        StmtV::ForEach(_, x, b) => {
            lemma_every_call_always(x, p);
            lemma_every_call_block_always(b, p, in_defaults);
        },
        StmtV::Repeat(b) => lemma_every_call_block_always(b, p, in_defaults),
        StmtV::Return(e) => {
            if let Some(x) = e {
                lemma_every_call_always(x, p);
            }
        },
        StmtV::IndexAssign(a, x, v) => {
            lemma_every_call_always(a, p);
            lemma_every_call_always(x, p);
            lemma_every_call_always(v, p);
        },
        StmtV::FieldAssign(o, _, v) => {
            lemma_every_call_always(o, p);
            lemma_every_call_always(v, p);
        },
        StmtV::TryCatch(t, _, c, f) => {
            lemma_every_call_block_always(t, p, in_defaults);
            lemma_every_call_block_always(c, p, in_defaults);
            if let Some(b) = f {
                lemma_every_call_block_always(b, p, in_defaults);
            }
        },
        StmtV::Throw(e) => {
            if let Some(x) = e {
                lemma_every_call_always(x, p);
            }
        },
        _ => {},
    }
}

/// A condition that every call meets holds of every call in `b`.
pub proof fn lemma_every_call_block_always(b: Seq<StmtV>, p: spec_fn(Seq<char>, nat) -> bool, in_defaults: bool)
    requires
        forall|n: Seq<char>, k: nat| #[trigger] p(n, k),
    ensures
        every_call_block(b, p, in_defaults),
    decreases b, 0nat,
{
    assert forall|i: int| 0 <= i < b.len() implies every_call_stmt(#[trigger] b[i], p, in_defaults) by {
        lemma_every_call_stmt_always(b[i], p, in_defaults);
    }
}

} // verus!
