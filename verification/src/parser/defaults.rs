//! Default parameter values: every call that leaves out trailing
//! arguments of a function that gives them default values gets those
//! values, throughout the program.

use vstd::prelude::*;
use crate::ast::{
    Expr, ExprV, Stmt, StmtV, expr_list_view, stmt_list_view, fields_view, opt_block_view,
    opt_expr_view, defaults_view, lemma_expr_view, lemma_stmt_view, clone_expr,
};
use crate::parser::expr::copy_string;
use crate::ast::{every_call, every_call_opt, every_call_stmt, every_call_block};

verus! {

/// A function's name and the default values of its parameters.
pub type SigV = (Seq<char>, Seq<Option<ExprV>>);

/// The name of a function and the default values of its parameters
/// (`None` where a parameter has none).
pub struct Signature {
    pub name: String,
    pub defaults: Vec<Option<Expr>>,
}

/// The signatures `v` as the specification sees them.
pub open spec fn sigs_view(v: Seq<Signature>) -> Seq<SigV> {
    Seq::new(v.len(), |i: int| (v[i].name@, defaults_view(v[i].defaults@)))
}

/// The signatures of the functions that the statements `b` define, in
/// order.
pub open spec fn program_sigs(b: Seq<StmtV>) -> Seq<SigV>
    decreases b.len(),
{
    if b.len() == 0 {
        seq![]
    } else {
        match b.last() {
            StmtV::Function(name, _, defaults, _) => program_sigs(b.drop_last()).push((name, defaults)),
            _ => program_sigs(b.drop_last()),
        }
    }
}

/// The default values of the first function named `name` in `sigs`.
pub open spec fn sig_defaults(sigs: Seq<SigV>, name: Seq<char>) -> Option<Seq<Option<ExprV>>>
    decreases sigs.len(),
{
    if sigs.len() == 0 {
        None
    } else if sigs[0].0 == name {
        Some(sigs[0].1)
    } else {
        sig_defaults(sigs.drop_first(), name)
    }
}

/// Whether every parameter from `from` on has a default value.
pub open spec fn all_defaulted(ds: Seq<Option<ExprV>>, from: int) -> bool {
    forall|k: int| from <= k < ds.len() ==> (#[trigger] ds[k]) is Some
}

/// `args` followed by the default values of the parameters they leave out,
/// when the function `ds` describes has one for each of them; `args`
/// unchanged otherwise.
pub open spec fn with_defaults(args: Seq<ExprV>, ds: Option<Seq<Option<ExprV>>>) -> Seq<ExprV> {
    match ds {
        Some(d) => if args.len() < d.len() && all_defaulted(d, args.len() as int) {
            args + Seq::new((d.len() - args.len()) as nat, |k: int| d[args.len() + k]->0)
        } else {
            args
        },
        None => args,
    }
}

/// The expansion of the statements `b` by the functions they define.
pub closed spec fn expand_program(b: Seq<StmtV>) -> Seq<StmtV> {
    expand_block_spec(b, program_sigs(b))
}

/// The signatures of the functions that `stmts` define, in order.
pub fn function_signatures(stmts: &Vec<Stmt>) -> (r: Vec<Signature>)
    ensures
        sigs_view(r@) == program_sigs(stmt_list_view(stmts@)),
{
    let ghost v = stmt_list_view(stmts@);
    let mut sigs: Vec<Signature> = Vec::new();
    let mut i: usize = 0;
    assert(sigs_view(sigs@) =~= Seq::<SigV>::empty());
    while i < stmts.len()
        invariant
            i <= stmts@.len(),
            v == stmt_list_view(stmts@),
            sigs_view(sigs@) == program_sigs(v.take(i as int)),
        decreases stmts@.len() - i,
    {
        proof {
            lemma_stmt_view(stmts@[i as int]);
            assert(v.take(i + 1 as int).drop_last() =~= v.take(i as int));
        }
        match &stmts[i] {
            Stmt::Function { name, defaults, .. } => {
                let ghost before = sigs_view(sigs@);
                let ds = clone_defaults(defaults);
                let sig = Signature { name: copy_string(name), defaults: ds };
                sigs.push(sig);
                assert(sigs_view(sigs@) =~= before.push((name@, defaults_view(defaults@))));
            },
            _ => {},
        }
        i = i + 1;
    }
    assert(v.take(stmts@.len() as int) =~= v);
    sigs
}

/// A copy of the default values `v`.
fn clone_defaults(v: &Vec<Option<Expr>>) -> (r: Vec<Option<Expr>>)
    ensures
        defaults_view(r@) == defaults_view(v@),
{
    let mut out: Vec<Option<Expr>> = Vec::new();
    let mut k: usize = 0;
    while k < v.len()
        invariant
            k <= v@.len(),
            out@.len() == k,
            forall|j: int| 0 <= j < k ==> opt_expr_view(#[trigger] out@[j]) == opt_expr_view(v@[j]),
        decreases v@.len() - k,
    {
        let d = match &v[k] {
            Some(e) => Some(clone_expr(e)),
            None => None,
        };
        out.push(d);
        k = k + 1;
    }
    assert(defaults_view(out@) =~= defaults_view(v@));
    out
}

/// The default values of the first function named `name` in `sigs`.
fn find_defaults<'a>(sigs: &'a Vec<Signature>, name: &String) -> (r: Option<&'a Vec<Option<Expr>>>)
    ensures
        match r {
            Some(d) => sig_defaults(sigs_view(sigs@), name@) == Some(defaults_view(d@)),
            None => sig_defaults(sigs_view(sigs@), name@) is None,
        },
{
    let ghost sv = sigs_view(sigs@);
    let mut k: usize = 0;
    assert(sv.skip(0) =~= sv);
    while k < sigs.len()
        invariant
            k <= sigs@.len(),
            sv == sigs_view(sigs@),
            sig_defaults(sv, name@) == sig_defaults(sv.skip(k as int), name@),
        decreases sigs@.len() - k,
    {
        assert(sv.skip(k as int)[0] == sv[k as int]);
        if sigs[k].name.eq(name) {
            return Some(&sigs[k].defaults);
        }
        assert(sv.skip(k as int).drop_first() =~= sv.skip(k + 1 as int));
        k = k + 1;
    }
    assert(sv.skip(k as int) =~= Seq::<SigV>::empty());
    None
}

/// `args` followed by the default values of the first function named
/// `name` in `sigs` for the parameters they leave out, when it has one for
/// each of them; `args` unchanged otherwise.
fn fill_defaults(name: &String, args: Vec<Expr>, sigs: &Vec<Signature>) -> (r: Vec<Expr>)
    ensures
        expr_list_view(r@) == with_defaults(expr_list_view(args@), sig_defaults(sigs_view(sigs@), name@)),
{
    let ghost av = expr_list_view(args@);
    match find_defaults(sigs, name) {
        None => args,
        Some(ds) => {
            let ghost dv = defaults_view(ds@);
            if args.len() >= ds.len() {
                return args;
            }
            let mut k: usize = args.len();
            while k < ds.len()
                invariant
                    args@.len() <= k <= ds@.len(),
                    dv == defaults_view(ds@),
                    av == expr_list_view(args@),
                    sig_defaults(sigs_view(sigs@), name@) == Some(dv),
                    forall|j: int| args@.len() <= j < k ==> (#[trigger] ds@[j]) is Some,
                decreases ds@.len() - k,
            {
                match &ds[k] {
                    None => {
                        assert(av.len() == args@.len());
                        assert(dv[k as int] == opt_expr_view(ds@[k as int]));
                        assert(!all_defaulted(dv, av.len() as int));
                        return args;
                    },
                    Some(_) => {},
                }
                k = k + 1;
            }
            assert(all_defaulted(dv, av.len() as int)) by {
                assert forall|j: int| av.len() <= j < dv.len() implies (#[trigger] dv[j]) is Some by {
                    assert(ds@[j] is Some);
                }
            }
            let mut out = args;
            let mut k: usize = out.len();
            let n0 = out.len();
            while k < ds.len()
                invariant
                    n0 == av.len(),
                    n0 <= k <= ds@.len(),
                    dv == defaults_view(ds@),
                    all_defaulted(dv, av.len() as int),
                    out@.len() == k,
                    expr_list_view(out@) == av + Seq::new((k - n0) as nat, |j: int| dv[n0 + j]->0),
                decreases ds@.len() - k,
            {
                let ghost before = expr_list_view(out@);
                assert(dv[k as int] == opt_expr_view(ds@[k as int]));
                match &ds[k] {
                    Some(e) => {
                        let c = clone_expr(e);
                        out.push(c);
                        assert(expr_list_view(out@) =~= before.push(dv[k as int]->0));
                    },
                    None => {
                        assert(dv[k as int] is Some);
                    },
                }
                assert(expr_list_view(out@) =~= av + Seq::new((k + 1 - n0) as nat, |j: int| dv[n0 + j]->0));
                k = k + 1;
            }
            out
        },
    }
}

/// The statements `stmts` with the default values of the functions they
/// define added to every call that leaves them out.
pub fn expand_defaults(stmts: Vec<Stmt>) -> (r: Vec<Stmt>)
    ensures
        stmt_list_view(r@) == expand_program(stmt_list_view(stmts@)),
{
    let sigs = function_signatures(&stmts);
    expand_stmts(stmts, &sigs)
}

/// `e` with the default values of the functions `sigs` added to every
/// call that leaves them out.
pub open spec fn expand_expr_spec(e: ExprV, sigs: Seq<SigV>) -> ExprV
    decreases e,
{
    match e {
        ExprV::Call(name, args) => ExprV::Call(
            name,
            with_defaults(
                Seq::new(
                    args.len(),
                    |i: int|
                        if 0 <= i < args.len() {
                            expand_expr_spec(args[i], sigs)
                        } else {
                            args[i]
                        },
                ),
                sig_defaults(sigs, name),
            ),
        ),
        ExprV::Binary(l, op, r) => ExprV::Binary(
            Box::new(expand_expr_spec(*l, sigs)),
            op,
            Box::new(expand_expr_spec(*r, sigs)),
        ),
        ExprV::Unary(op, x) => ExprV::Unary(op, Box::new(expand_expr_spec(*x, sigs))),
        ExprV::Array(items) => ExprV::Array(
            Seq::new(
                items.len(),
                |i: int|
                    if 0 <= i < items.len() {
                        expand_expr_spec(items[i], sigs)
                    } else {
                        items[i]
                    },
            ),
        ),
        ExprV::Index(a, x) => ExprV::Index(
            Box::new(expand_expr_spec(*a, sigs)),
            Box::new(expand_expr_spec(*x, sigs)),
        ),
        ExprV::Field(o, f) => ExprV::Field(Box::new(expand_expr_spec(*o, sigs)), f),
        ExprV::StructInit(name, fields) => ExprV::StructInit(
            name,
            Seq::new(
                fields.len(),
                |i: int|
                    if 0 <= i < fields.len() {
                        (fields[i].0, expand_expr_spec(fields[i].1, sigs))
                    } else {
                        fields[i]
                    },
            ),
        ),
        ExprV::MapLiteral(entries) => ExprV::MapLiteral(
            Seq::new(
                entries.len(),
                |i: int|
                    if 0 <= i < entries.len() {
                        (
                            expand_expr_spec(entries[i].0, sigs),
                            expand_expr_spec(entries[i].1, sigs),
                        )
                    } else {
                        entries[i]
                    },
            ),
        ),
        ExprV::Interpolated(parts) => ExprV::Interpolated(
            Seq::new(
                parts.len(),
                |i: int|
                    if 0 <= i < parts.len() {
                        expand_expr_spec(parts[i], sigs)
                    } else {
                        parts[i]
                    },
            ),
        ),
        _ => e,
    }
}

/// The statements of `b` with `expand_stmt_spec` applied to each.
pub open spec fn expand_block_spec(b: Seq<StmtV>, sigs: Seq<SigV>) -> Seq<
    StmtV,
>
    decreases b, 0nat,
{
    Seq::new(
        b.len(),
        |i: int|
            if 0 <= i < b.len() {
                expand_stmt_spec(b[i], sigs)
            } else {
                b[i]
            },
    )
}

/// `s` with the default values of the functions `sigs` added to every
/// call that leaves them out, in its expressions and nested blocks; default
/// values themselves stay as written.
pub open spec fn expand_stmt_spec(s: StmtV, sigs: Seq<SigV>) -> StmtV
    decreases s, 1nat,
{
    match s {
        StmtV::Function(name, params, defaults, body) => StmtV::Function(
            name,
            params,
            defaults,
            expand_block_spec(body, sigs),
        ),
        StmtV::Say(e) => StmtV::Say(expand_expr_spec(e, sigs)),
        StmtV::Expr(e) => StmtV::Expr(expand_expr_spec(e, sigs)),
        StmtV::Let(n, e) => StmtV::Let(n, expand_expr_spec(e, sigs)),
        StmtV::Assign(n, e) => StmtV::Assign(n, expand_expr_spec(e, sigs)),
        StmtV::If(c, t, e) => StmtV::If(
            expand_expr_spec(c, sigs),
            expand_block_spec(t, sigs),
            match e {
                Some(b) => Some(expand_block_spec(b, sigs)),
                None => None,
            },
        ),
        StmtV::While(c, b) => StmtV::While(
            expand_expr_spec(c, sigs),
            expand_block_spec(b, sigs),
        ),
        StmtV::For(v, a, z, b) => StmtV::For(
            v,
            expand_expr_spec(a, sigs),
            expand_expr_spec(z, sigs),
            expand_block_spec(b, sigs),
        ),
        StmtV::ForEach(v, x, b) => StmtV::ForEach(
            v,
            expand_expr_spec(x, sigs),
            expand_block_spec(b, sigs),
        ),
        StmtV::Repeat(b) => StmtV::Repeat(expand_block_spec(b, sigs)),
        StmtV::Return(Some(e)) => StmtV::Return(Some(expand_expr_spec(e, sigs))),
        StmtV::IndexAssign(a, x, v) => StmtV::IndexAssign(
            expand_expr_spec(a, sigs),
            expand_expr_spec(x, sigs),
            expand_expr_spec(v, sigs),
        ),
        StmtV::FieldAssign(o, f, v) => StmtV::FieldAssign(
            expand_expr_spec(o, sigs),
            f,
            expand_expr_spec(v, sigs),
        ),
        StmtV::TryCatch(t, var, c, f) => StmtV::TryCatch(
            expand_block_spec(t, sigs),
            var,
            expand_block_spec(c, sigs),
            match f {
                Some(b) => Some(expand_block_spec(b, sigs)),
                None => None,
            },
        ),
        StmtV::Throw(Some(e)) => StmtV::Throw(Some(expand_expr_spec(e, sigs))),
        _ => s,
    }
}
/// The expressions of `v` with `expand_expr` applied to each.
fn expand_exprs(v: Vec<Expr>, sigs: &Vec<Signature>) -> (r: Vec<Expr>)
    ensures
        r@.len() == v@.len(),
        forall|i: int|
            0 <= i < v@.len() ==> (#[trigger] r@[i])@ == expand_expr_spec(
                v@[i]@,
                sigs_view(sigs@),
            ),
    decreases v, 0nat,
{
    let ghost v0 = v@;
    let mut rest = v;
    let total = rest.len();
    let mut out: Vec<Expr> = Vec::new();
    let mut k: usize = 0;
    while rest.len() > 0
        invariant
            k <= v0.len(),
            rest@ == v0.skip(k as int),
            k + rest@.len() == v0.len(),
            v0.len() == total,
            v0 == v@,
            out@.len() == k,
            forall|j: int|
                0 <= j < k ==> (#[trigger] out@[j])@ == expand_expr_spec(
                    v0[j]@,
                    sigs_view(sigs@),
                ),
        decreases rest@.len(),
    {
        let e = rest.remove(0);
        proof {
            assert(e == v0[k as int]);
            assert(decreases_to!(v => v@[k as int]));
        }
        out.push(expand_expr(e, sigs));
        k = k + 1;
    }
    out
}

#[verifier::loop_isolation(false)]
/// `e` with the default values of the functions `sigs` added to every call
/// that leaves them out.
pub fn expand_expr(e: Expr, sigs: &Vec<Signature>) -> (r: Expr)
    ensures
        r@ == expand_expr_spec(e@, sigs_view(sigs@)),
    decreases e, 1nat,
{
    proof {
        lemma_expr_view(e);
    }
    let ghost ev = e@;
    match e {
        Expr::Call { name, args } => {
            let ghost av = expr_list_view(args@);
            let ghost nv = name@;
            assert(ev == ExprV::Call(nv, av));
            let new_args = expand_exprs(args, sigs);
            let ghost prefixed = Seq::new(
                av.len(),
                |i: int|
                    if 0 <= i < av.len() {
                        expand_expr_spec(av[i], sigs_view(sigs@))
                    } else {
                        av[i]
                    },
            );
            assert(expr_list_view(new_args@) =~= prefixed);
            let full = fill_defaults(&name, new_args, sigs);
            let ghost filled = with_defaults(prefixed, sig_defaults(sigs_view(sigs@), nv));
            let r = Expr::Call { name, args: full };
            proof {
                lemma_expr_view(r);
            }
            proof {
                if let ExprV::Call(_, a) = expand_expr_spec(ev, sigs_view(sigs@)) {
                    assert(a =~= filled);
                }
                assert(expand_expr_spec(ev, sigs_view(sigs@)) == ExprV::Call(nv, filled));
                assert(r@ == ExprV::Call(nv, filled));
                assert(r@ == expand_expr_spec(ev, sigs_view(sigs@)));
                assert(ev == e@);
            }
            r
        },
        Expr::Binary { left, op, right } => Expr::Binary {
            left: Box::new(expand_expr(*left, sigs)),
            op,
            right: Box::new(expand_expr(*right, sigs)),
        },
        Expr::Unary { op, expr } => Expr::Unary { op, expr: Box::new(expand_expr(*expr, sigs)) },
        Expr::Array(items) => {
            let ghost av = expr_list_view(items@);
            assert(ev == ExprV::Array(av));
            let new_items = expand_exprs(items, sigs);
            let ghost prefixed = Seq::new(
                av.len(),
                |i: int|
                    if 0 <= i < av.len() {
                        expand_expr_spec(av[i], sigs_view(sigs@))
                    } else {
                        av[i]
                    },
            );
            assert(expr_list_view(new_items@) =~= prefixed);
            let r = Expr::Array(new_items);
            proof {
                lemma_expr_view(r);
                if let ExprV::Array(a) = expand_expr_spec(ev, sigs_view(sigs@)) {
                    assert(a =~= prefixed);
                }
                assert(expand_expr_spec(ev, sigs_view(sigs@)) == ExprV::Array(prefixed));
            }
            r
        },
        Expr::InterpolatedString(parts) => {
            let ghost av = expr_list_view(parts@);
            assert(ev == ExprV::Interpolated(av));
            let new_parts = expand_exprs(parts, sigs);
            let ghost prefixed = Seq::new(
                av.len(),
                |i: int|
                    if 0 <= i < av.len() {
                        expand_expr_spec(av[i], sigs_view(sigs@))
                    } else {
                        av[i]
                    },
            );
            assert(expr_list_view(new_parts@) =~= prefixed);
            let r = Expr::InterpolatedString(new_parts);
            proof {
                lemma_expr_view(r);
                if let ExprV::Interpolated(a) = expand_expr_spec(ev, sigs_view(sigs@)) {
                    assert(a =~= prefixed);
                }
                assert(expand_expr_spec(ev, sigs_view(sigs@)) == ExprV::Interpolated(prefixed));
            }
            r
        },
        Expr::Index { array, index } => Expr::Index {
            array: Box::new(expand_expr(*array, sigs)),
            index: Box::new(expand_expr(*index, sigs)),
        },
        Expr::FieldAccess { object, field } => Expr::FieldAccess {
            object: Box::new(expand_expr(*object, sigs)),
            field,
        },
        Expr::StructInit { name, fields } => {
            let ghost f0 = fields@;
            let mut rest = fields;
            let total = rest.len();
            let mut out: Vec<(String, Expr)> = Vec::new();
            let mut k: usize = 0;
            while rest.len() > 0
                invariant
                    k <= f0.len(),
                    rest@ == f0.skip(k as int),
                    k + rest@.len() == f0.len(),
                    f0.len() == total,
                    ev == ExprV::StructInit(name@, fields_view(f0)),
                    out@.len() == k,
                    forall|j: int|
                        0 <= j < k ==> (#[trigger] out@[j]).0@ == f0[j].0@ && out@[j].1@
                            == expand_expr_spec(f0[j].1@, sigs_view(sigs@)),
                decreases rest@.len(),
            {
                let (fname, fexpr) = rest.remove(0);
                proof {
                    assert((fname, fexpr) == f0[k as int]);
                    assert(decreases_to!(e => f0[k as int].1));
                }
                out.push((fname, expand_expr(fexpr, sigs)));
                k = k + 1;
            }
            let r = Expr::StructInit { name, fields: out };
            let ghost fv = fields_view(f0);
            let ghost prefixed = Seq::new(
                fv.len(),
                |i: int|
                    if 0 <= i < fv.len() {
                        (fv[i].0, expand_expr_spec(fv[i].1, sigs_view(sigs@)))
                    } else {
                        fv[i]
                    },
            );
            proof {
                lemma_expr_view(r);
                if let ExprV::StructInit(_, a) = expand_expr_spec(ev, sigs_view(sigs@)) {
                    assert(a =~= prefixed);
                }
                assert(fields_view(out@) =~= Seq::new(
                    fields_view(f0).len(),
                    |i: int|
                        if 0 <= i < fields_view(f0).len() {
                            (
                                fields_view(f0)[i].0,
                                expand_expr_spec(fields_view(f0)[i].1, sigs_view(sigs@)),
                            )
                        } else {
                            fields_view(f0)[i]
                        },
                ));
            }
            r
        },
        Expr::MapLiteral(entries) => {
            let ghost m0 = entries@;
            let mut rest = entries;
            let total = rest.len();
            let mut out: Vec<(Expr, Expr)> = Vec::new();
            let mut k: usize = 0;
            while rest.len() > 0
                invariant
                    k <= m0.len(),
                    rest@ == m0.skip(k as int),
                    k + rest@.len() == m0.len(),
                    m0.len() == total,
                    out@.len() == k,
                    forall|j: int|
                        0 <= j < k ==> (#[trigger] out@[j]).0@ == expand_expr_spec(
                            m0[j].0@,
                            sigs_view(sigs@),
                        ) && out@[j].1@ == expand_expr_spec(m0[j].1@, sigs_view(sigs@)),
                decreases rest@.len(),
            {
                let (key, value) = rest.remove(0);
                proof {
                    assert((key, value) == m0[k as int]);
                    assert(decreases_to!(e => m0[k as int].0));
                    assert(decreases_to!(e => m0[k as int].1));
                }
                let nk = expand_expr(key, sigs);
                let nv = expand_expr(value, sigs);
                out.push((nk, nv));
                k = k + 1;
            }
            let r = Expr::MapLiteral(out);
            proof {
                if let ExprV::MapLiteral(a) = r@ {
                    if let ExprV::MapLiteral(b) = ev {
                        if let ExprV::MapLiteral(c) = expand_expr_spec(ev, sigs_view(sigs@)) {
                            assert(b =~= Seq::new(
                                m0.len(),
                                |i: int| (m0[i].0@, m0[i].1@),
                            ));
                            assert(a =~= c);
                        }
                    }
                }
            }
            r
        },
        other => other,
    }
}

/// The statements of `v` with `expand_stmt` applied to each.
fn expand_stmts(v: Vec<Stmt>, sigs: &Vec<Signature>) -> (r: Vec<Stmt>)
    ensures
        stmt_list_view(r@) == expand_block_spec(stmt_list_view(v@), sigs_view(sigs@)),
    decreases v, 0nat,
{
    let ghost v0 = v@;
    let mut rest = v;
    let total = rest.len();
    let mut out: Vec<Stmt> = Vec::new();
    let mut k: usize = 0;
    while rest.len() > 0
        invariant
            k <= v0.len(),
            rest@ == v0.skip(k as int),
            k + rest@.len() == v0.len(),
            v0.len() == total,
            v0 == v@,
            out@.len() == k,
            forall|j: int|
                0 <= j < k ==> (#[trigger] out@[j])@ == expand_stmt_spec(
                    v0[j]@,
                    sigs_view(sigs@),
                ),
        decreases rest@.len(),
    {
        let s = rest.remove(0);
        proof {
            assert(s == v0[k as int]);
            assert(decreases_to!(v => v@[k as int]));
        }
        out.push(expand_stmt(s, sigs));
        k = k + 1;
    }
    assert(stmt_list_view(out@) =~= expand_block_spec(stmt_list_view(v0), sigs_view(sigs@)));
    out
}

/// `b` with `expand_stmt` applied to each statement, when there is a
/// block.
fn expand_opt_block(b: Option<Vec<Stmt>>, sigs: &Vec<Signature>) -> (r: Option<Vec<Stmt>>)
    ensures
        opt_block_view(r) == match opt_block_view(b) {
            Some(v) => Some(expand_block_spec(v, sigs_view(sigs@))),
            None => None,
        },
    decreases b, 0nat,
{
    match b {
        Some(v) => Some(expand_stmts(v, sigs)),
        None => None,
    }
}

/// `s` with the default values of the functions `sigs` added to every
/// call that leaves them out, in its expressions and nested blocks.
pub fn expand_stmt(s: Stmt, sigs: &Vec<Signature>) -> (r: Stmt)
    ensures
        r@ == expand_stmt_spec(s@, sigs_view(sigs@)),
    decreases s, 1nat,
{
    proof {
        lemma_stmt_view(s);
    }
    let r = match s {
        Stmt::Function { name, params, defaults, body } => Stmt::Function {
            name,
            params,
            defaults,
            body: expand_stmts(body, sigs),
        },
        Stmt::Say(e) => Stmt::Say(expand_expr(e, sigs)),
        Stmt::Expr(e) => Stmt::Expr(expand_expr(e, sigs)),
        Stmt::Let { name, value } => Stmt::Let { name, value: expand_expr(value, sigs) },
        Stmt::Assign { name, value } => Stmt::Assign { name, value: expand_expr(value, sigs) },
        Stmt::If { condition, then_block, else_block } => Stmt::If {
            condition: expand_expr(condition, sigs),
            then_block: expand_stmts(then_block, sigs),
            else_block: expand_opt_block(else_block, sigs),
        },
        Stmt::While { condition, body } => Stmt::While {
            condition: expand_expr(condition, sigs),
            body: expand_stmts(body, sigs),
        },
        Stmt::For { var, start, end, body } => Stmt::For {
            var,
            start: expand_expr(start, sigs),
            end: expand_expr(end, sigs),
            body: expand_stmts(body, sigs),
        },
        Stmt::ForEach { var, iterable, body } => Stmt::ForEach {
            var,
            iterable: expand_expr(iterable, sigs),
            body: expand_stmts(body, sigs),
        },
        Stmt::Repeat { body } => Stmt::Repeat { body: expand_stmts(body, sigs) },
        Stmt::Return(Some(e)) => Stmt::Return(Some(expand_expr(e, sigs))),
        Stmt::IndexAssign { array, index, value } => Stmt::IndexAssign {
            array: expand_expr(array, sigs),
            index: expand_expr(index, sigs),
            value: expand_expr(value, sigs),
        },
        Stmt::FieldAssign { object, field, value } => Stmt::FieldAssign {
            object: expand_expr(object, sigs),
            field,
            value: expand_expr(value, sigs),
        },
        Stmt::TryCatch { try_block, catch_var, catch_block, finally_block } => Stmt::TryCatch {
            try_block: expand_stmts(try_block, sigs),
            catch_var,
            catch_block: expand_stmts(catch_block, sigs),
            finally_block: expand_opt_block(finally_block, sigs),
        },
        Stmt::Throw(Some(e)) => Stmt::Throw(Some(expand_expr(e, sigs))),
        other => other,
    };
    proof {
        lemma_stmt_view(r);
    }
    r
}



/// Whether a call of `name` with `k` arguments leaves nothing that
/// default values could fill in: the first function of that name in
/// `sigs` has at most `k` parameters, or one of its parameters from the
/// `k`-th on has no default value (or no function has that name).
pub open spec fn call_filled(sigs: Seq<SigV>, name: Seq<char>, k: nat) -> bool {
    match sig_defaults(sigs, name) {
        Some(d) => k >= d.len() || exists|j: int| k <= j < d.len() && #[trigger] d[j] is None,
        None => true,
    }
}

/// `call_filled` as a condition on calls.
pub open spec fn calls_filled(sigs: Seq<SigV>) -> spec_fn(Seq<char>, nat) -> bool {
    |n: Seq<char>, k: nat| call_filled(sigs, n, k)
}

/// Whether every default value in `sigs` has its own calls filled in.
pub open spec fn defaults_filled(sigs: Seq<SigV>) -> bool {
    forall|i: int, j: int|
        0 <= i < sigs.len() && 0 <= j < sigs[i].1.len() ==> every_call_opt(
            #[trigger] sigs[i].1[j],
            calls_filled(sigs),
        )
}

/// The default values found for a name are those of one of the signatures.
proof fn lemma_sig_defaults_in(sigs: Seq<SigV>, name: Seq<char>)
    ensures
        sig_defaults(sigs, name) matches Some(d) ==> exists|i: int| 0 <= i < sigs.len() && #[trigger] sigs[i].1 == d,
    decreases sigs.len(),
{
    if sigs.len() > 0 && sigs[0].0 != name {
        lemma_sig_defaults_in(sigs.drop_first(), name);
        if let Some(d) = sig_defaults(sigs, name) {
            let i = choose|i: int| 0 <= i < sigs.drop_first().len() && #[trigger] sigs.drop_first()[i].1 == d;
            assert(sigs[i + 1].1 == d);
        }
    } else if sigs.len() > 0 {
        assert(sigs[0].1 == sigs[0].1);
    }
}

/// After expansion, every call in `e` has its default values filled in.
proof fn lemma_expand_fills(e: ExprV, sigs: Seq<SigV>)
    requires
        defaults_filled(sigs),
    ensures
        every_call(expand_expr_spec(e, sigs), calls_filled(sigs)),
    decreases e,
{
    let q = calls_filled(sigs);
    let r = expand_expr_spec(e, sigs);
    match e {
        ExprV::Call(name, args) => {
            let ds = sig_defaults(sigs, name);
            lemma_sig_defaults_in(sigs, name);
            if let ExprV::Call(n2, w) = r {
                assert(n2 == name);
                let full = match ds {
                    Some(d) => args.len() < d.len() && all_defaulted(d, args.len() as int),
                    None => false,
                };
                assert(w.len() >= args.len());
                assert(full ==> w.len() == ds->0.len());
                assert(!full ==> w.len() == args.len());
                assert forall|i: int| 0 <= i < w.len() implies every_call(#[trigger] w[i], q) by {
                    if i < args.len() {
                        assert(w[i] == expand_expr_spec(args[i], sigs));
                        lemma_expand_fills(args[i], sigs);
                    } else {
                        let d = ds->0;
                        assert(full);
                        let m = choose|m: int| 0 <= m < sigs.len() && #[trigger] sigs[m].1 == d;
                        assert(d[i] is Some);
                        assert(every_call_opt(sigs[m].1[i], q));
                        assert(w[i] == d[i]->0);
                    }
                }
                match ds {
                    Some(d) => {
                        if !full && args.len() < d.len() {
                            let j = choose|j: int| args.len() <= j < d.len() && !(#[trigger] d[j] is Some);
                            assert(d[j] is None);
                        }
                        assert(call_filled(sigs, name, w.len()));
                    },
                    None => {},
                }
            }
        },
        ExprV::Binary(l, _, x) => {
            lemma_expand_fills(*l, sigs);
            lemma_expand_fills(*x, sigs);
        },
        ExprV::Unary(_, x) => {
            lemma_expand_fills(*x, sigs);
        },
        ExprV::Array(items) => {
            if let ExprV::Array(a2) = r {
                assert forall|i: int| 0 <= i < a2.len() implies every_call(#[trigger] a2[i], q) by {
                    lemma_expand_fills(items[i], sigs);
                }
            }
        },
        ExprV::Index(a, x) => {
            lemma_expand_fills(*a, sigs);
            lemma_expand_fills(*x, sigs);
        },
        ExprV::Field(o, _) => {
            lemma_expand_fills(*o, sigs);
        },
        ExprV::StructInit(_, fields) => {
            if let ExprV::StructInit(_, f2) = r {
                assert forall|i: int| 0 <= i < f2.len() implies every_call(#[trigger] f2[i].1, q) by {
                    lemma_expand_fills(fields[i].1, sigs);
                }
            }
        },
        ExprV::MapLiteral(entries) => {
            if let ExprV::MapLiteral(e2) = r {
                assert forall|i: int| 0 <= i < e2.len() implies every_call(#[trigger] e2[i].0, q)
                    && every_call(e2[i].1, q) by {
                    lemma_expand_fills(entries[i].0, sigs);
                    lemma_expand_fills(entries[i].1, sigs);
                }
            }
        },
        ExprV::Interpolated(parts) => {
            if let ExprV::Interpolated(p2) = r {
                assert forall|i: int| 0 <= i < p2.len() implies every_call(#[trigger] p2[i], q) by {
                    lemma_expand_fills(parts[i], sigs);
                }
            }
        },
        _ => {},
    }
}

/// `lemma_expand_fills` for the statements of a block.
proof fn lemma_expand_block_fills(b: Seq<StmtV>, sigs: Seq<SigV>)
    requires
        defaults_filled(sigs),
    ensures
        every_call_block(
            expand_block_spec(b, sigs),
            calls_filled(sigs),
            false,
        ),
    decreases b, 0nat,
{
    let r = expand_block_spec(b, sigs);
    assert forall|i: int| 0 <= i < r.len() implies every_call_stmt(
        #[trigger] r[i],
        calls_filled(sigs),
        false,
    ) by {
        lemma_expand_stmt_fills(b[i], sigs);
    }
}

/// `lemma_expand_fills` for a statement.
proof fn lemma_expand_stmt_fills(s: StmtV, sigs: Seq<SigV>)
    requires
        defaults_filled(sigs),
    ensures
        every_call_stmt(
            expand_stmt_spec(s, sigs),
            calls_filled(sigs),
            false,
        ),
    decreases s, 1nat,
{
    match s {
        StmtV::Function(_, _, _, body) => lemma_expand_block_fills(body, sigs),
        StmtV::Say(e) => lemma_expand_fills(e, sigs),
        StmtV::Expr(e) => lemma_expand_fills(e, sigs),
        StmtV::Let(_, e) => lemma_expand_fills(e, sigs),
        StmtV::Assign(_, e) => lemma_expand_fills(e, sigs),
        StmtV::If(c, t, e) => {
            lemma_expand_fills(c, sigs);
            lemma_expand_block_fills(t, sigs);
            if let Some(b) = e {
                lemma_expand_block_fills(b, sigs);
            }
        },
        StmtV::While(c, b) => {
            lemma_expand_fills(c, sigs);
            lemma_expand_block_fills(b, sigs);
        },
        StmtV::For(_, a, z, b) => {
            lemma_expand_fills(a, sigs);
            lemma_expand_fills(z, sigs);
            lemma_expand_block_fills(b, sigs);
        },
        StmtV::ForEach(_, x, b) => {
            lemma_expand_fills(x, sigs);
            lemma_expand_block_fills(b, sigs);
        },
        StmtV::Repeat(b) => lemma_expand_block_fills(b, sigs),
        StmtV::Return(e) => {
            if let Some(x) = e {
                lemma_expand_fills(x, sigs);
            }
        },
        StmtV::IndexAssign(a, x, v) => {
            lemma_expand_fills(a, sigs);
            lemma_expand_fills(x, sigs);
            lemma_expand_fills(v, sigs);
        },
        StmtV::FieldAssign(o, _, v) => {
            lemma_expand_fills(o, sigs);
            lemma_expand_fills(v, sigs);
        },
        StmtV::TryCatch(t, _, c, f) => {
            lemma_expand_block_fills(t, sigs);
            lemma_expand_block_fills(c, sigs);
            if let Some(b) = f {
                lemma_expand_block_fills(b, sigs);
            }
        },
        StmtV::Throw(e) => {
            if let Some(x) = e {
                lemma_expand_fills(x, sigs);
            }
        },
        _ => {},
    }
}

/// After default values are added, no call anywhere in the program (in
/// any statement or nested block, though not inside default values, which
/// stay as written) leaves out trailing arguments that the called
/// top-level function gives default values for: each call has at least as
/// many arguments as the function has parameters, unless one of the
/// parameters it leaves out has no default value. This holds when the
/// default values themselves contain no call that could be filled in.
pub proof fn lemma_defaults_fill_every_call(b: Seq<StmtV>)
    requires
        defaults_filled(program_sigs(b)),
    ensures
        every_call_block(
            expand_program(b),
            calls_filled(program_sigs(b)),
            false,
        ),
{
    lemma_expand_block_fills(b, program_sigs(b));
}

/// The arguments of a call after filling in: the arguments given, then the
/// default value of each parameter left out, when all of those have one;
/// the arguments given otherwise.
pub proof fn lemma_filled_arguments(args: Seq<ExprV>, d: Seq<Option<ExprV>>)
    ensures
        (args.len() < d.len() && forall|j: int| args.len() <= j < d.len() ==> (#[trigger] d[j]) is Some)
            ==> {
            &&& with_defaults(args, Some(d)).len() == d.len()
            &&& forall|i: int| 0 <= i < args.len() ==> #[trigger] with_defaults(args, Some(d))[i] == args[i]
            &&& forall|i: int|
                args.len() <= i < d.len() ==> Some(#[trigger] with_defaults(args, Some(d))[i]) == d[i]
        },
        !(args.len() < d.len() && forall|j: int| args.len() <= j < d.len() ==> (#[trigger] d[j]) is Some)
            ==> with_defaults(args, Some(d)) == args,
        with_defaults(args, None) == args,
{
}

} // verus!
