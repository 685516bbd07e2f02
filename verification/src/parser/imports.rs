//! Combining imported modules: unique function names, module aliases and
//! the names of import paths.

use vstd::prelude::*;
use crate::ast::{Expr, ExprV, Stmt, StmtV, expr_list_view, stmt_list_view, fields_view, string_list_view, opt_block_view, opt_expr_view, defaults_view, lemma_expr_view, lemma_stmt_view};
use crate::ast::{every_call, every_call_opt, every_call_stmt, every_call_block, lemma_every_call_block_always};
use crate::text::{chars_of, string_from_chars};
use crate::diagnostics::{push_chars, push_str};
use crate::parser::expr::copy_string;

verus! {

/// The name a statement defines as a function.
pub open spec fn fn_name(s: StmtV) -> Option<Seq<char>> {
    match s {
        StmtV::Function(name, _, _, _) => Some(name),
        _ => None,
    }
}

/// The first function name from `j` on that is defined twice, counting
/// the names in `seen` as already defined.
pub open spec fn dup_scan(v: Seq<StmtV>, j: nat, seen: Set<Seq<char>>) -> Option<Seq<char>>
    decreases v.len() - j,
{
    if j >= v.len() {
        None
    } else {
        match fn_name(v[j as int]) {
            Some(n) => if seen.contains(n) {
                Some(n)
            } else {
                dup_scan(v, j + 1, seen.insert(n))
            },
            None => dup_scan(v, j + 1, seen),
        }
    }
}

/// The first function name of `v` whose definition repeats an earlier one.
pub open spec fn first_duplicate(v: Seq<StmtV>) -> Option<Seq<char>> {
    dup_scan(v, 0, Set::empty())
}

/// The names of the strings of `v`, as a set.
pub open spec fn name_set(v: Seq<String>) -> Set<Seq<char>> {
    Set::new(|x: Seq<char>| exists|k: int| 0 <= k < v.len() && v[k]@ == x)
}

/// The error for a function defined twice.
pub open spec fn duplicate_message(name: Seq<char>) -> Seq<char> {
    "Duplicate function definition '"@ + name + "'. If importing multiple modules containing '"@
        + name + "', use 'import \"...\" as <alias>' to assign distinct namespaces."@
}

/// Whether some string of `v` has the characters of `s`.
pub fn contains_string(v: &Vec<String>, s: &String) -> (b: bool)
    ensures
        b == name_set(v@).contains(s@),
{
    let mut k: usize = 0;
    while k < v.len()
        invariant
            k <= v@.len(),
            forall|j: int| 0 <= j < k ==> v@[j]@ != s@,
        decreases v@.len() - k,
    {
        if v[k].eq(s) {
            return true;
        }
        k = k + 1;
    }
    false
}

/// Refuses a list of statements that defines a function name twice,
/// naming the first name defined again.
pub fn validate_unique_functions(stmts: &[Stmt]) -> (r: Result<(), String>)
    ensures
        match first_duplicate(stmt_list_view(stmts@)) {
            None => r is Ok,
            Some(n) => r matches Err(m) && m@ == duplicate_message(n),
        },
{
    let ghost v = stmt_list_view(stmts@);
    let mut seen: Vec<String> = Vec::new();
    let mut i: usize = 0;
    assert(name_set(seen@) =~= Set::<Seq<char>>::empty());
    while i < stmts.len()
        invariant
            i <= stmts@.len(),
            v == stmt_list_view(stmts@),
            first_duplicate(v) == dup_scan(v, i as nat, name_set(seen@)),
        decreases stmts@.len() - i,
    {
        proof {
            lemma_stmt_view(stmts@[i as int]);
        }
        match &stmts[i] {
            Stmt::Function { name, .. } => {
                if contains_string(&seen, name) {
                    let mut m: Vec<char> = Vec::new();
                    push_str(&mut m, "Duplicate function definition '");
                    let nc = chars_of(name.as_str());
                    push_chars(&mut m, &nc);
                    push_str(&mut m, "'. If importing multiple modules containing '");
                    push_chars(&mut m, &nc);
                    push_str(&mut m, "', use 'import \"...\" as <alias>' to assign distinct namespaces.");
                    return Err(string_from_chars(m.as_slice()));
                }
                let ghost before = seen@;
                seen.push(copy_string(name));
                assert(name_set(seen@) =~= name_set(before).insert(name@)) by {
                    assert forall|x: Seq<char>| name_set(before).insert(name@).contains(x) implies name_set(seen@).contains(x) by {
                        if x == name@ {
                            assert(seen@[before.len() as int]@ == x);
                        } else {
                            let k = choose|k: int| 0 <= k < before.len() && before[k]@ == x;
                            assert(seen@[k]@ == x);
                        }
                    }
                }
            },
            _ => {},
        }
        i = i + 1;
    }
    Ok(())
}

/// Whether the function names defined in `v` are pairwise distinct.
pub open spec fn distinct_function_names(v: Seq<StmtV>) -> bool {
    forall|i: int, j: int|
        0 <= i < j < v.len() && fn_name(v[i]) is Some ==> fn_name(v[j]) != fn_name(v[i])
}

proof fn lemma_dup_scan(v: Seq<StmtV>, j: nat, seen: Set<Seq<char>>)
    requires
        j <= v.len(),
    ensures
        dup_scan(v, j, seen) is None <==> (forall|k: int|
            j <= k < v.len() && fn_name(v[k]) is Some ==> !seen.contains(fn_name(v[k])->0))
            && (forall|a: int, b: int|
            j <= a < b < v.len() && fn_name(v[a]) is Some ==> fn_name(v[b]) != fn_name(v[a])),
    decreases v.len() - j,
{
    if j < v.len() {
        match fn_name(v[j as int]) {
            Some(n) => {
                lemma_dup_scan(v, j + 1, seen.insert(n));
            },
            None => {
                lemma_dup_scan(v, j + 1, seen);
            },
        }
    }
}

/// A list of statements passes the duplicate check exactly when the
/// function names it defines are pairwise distinct.
pub proof fn lemma_unique_iff_distinct(v: Seq<StmtV>)
    ensures
        first_duplicate(v) is None <==> distinct_function_names(v),
{
    lemma_dup_scan(v, 0, Set::empty());
}

/// `name` under the module alias `alias` (`alias::name`) when it is one of
/// the module's own functions `locals`; unchanged otherwise.
pub open spec fn qualify(name: Seq<char>, alias: Seq<char>, locals: Set<Seq<char>>) -> Seq<char> {
    if locals.contains(name) {
        alias + "::"@ + name
    } else {
        name
    }
}

/// `e` with every call of one of `locals` renamed under `alias`.
pub open spec fn prefix_expr_spec(e: ExprV, alias: Seq<char>, locals: Set<Seq<char>>) -> ExprV
    decreases e,
{
    match e {
        ExprV::Call(name, args) => ExprV::Call(
            qualify(name, alias, locals),
            Seq::new(
                args.len(),
                |i: int|
                    if 0 <= i < args.len() {
                        prefix_expr_spec(args[i], alias, locals)
                    } else {
                        args[i]
                    },
            ),
        ),
        ExprV::Binary(l, op, r) => ExprV::Binary(
            Box::new(prefix_expr_spec(*l, alias, locals)),
            op,
            Box::new(prefix_expr_spec(*r, alias, locals)),
        ),
        ExprV::Unary(op, x) => ExprV::Unary(op, Box::new(prefix_expr_spec(*x, alias, locals))),
        ExprV::Array(items) => ExprV::Array(
            Seq::new(
                items.len(),
                |i: int|
                    if 0 <= i < items.len() {
                        prefix_expr_spec(items[i], alias, locals)
                    } else {
                        items[i]
                    },
            ),
        ),
        ExprV::Index(a, x) => ExprV::Index(
            Box::new(prefix_expr_spec(*a, alias, locals)),
            Box::new(prefix_expr_spec(*x, alias, locals)),
        ),
        ExprV::Field(o, f) => ExprV::Field(Box::new(prefix_expr_spec(*o, alias, locals)), f),
        ExprV::StructInit(name, fields) => ExprV::StructInit(
            name,
            Seq::new(
                fields.len(),
                |i: int|
                    if 0 <= i < fields.len() {
                        (fields[i].0, prefix_expr_spec(fields[i].1, alias, locals))
                    } else {
                        fields[i]
                    },
            ),
        ),
        ExprV::MapLiteral(entries) => ExprV::MapLiteral(
            Seq::new(
                entries.len(),
                |i: int|
                    if 0 <= i < entries.len() {
                        (
                            prefix_expr_spec(entries[i].0, alias, locals),
                            prefix_expr_spec(entries[i].1, alias, locals),
                        )
                    } else {
                        entries[i]
                    },
            ),
        ),
        ExprV::Interpolated(parts) => ExprV::Interpolated(
            Seq::new(
                parts.len(),
                |i: int|
                    if 0 <= i < parts.len() {
                        prefix_expr_spec(parts[i], alias, locals)
                    } else {
                        parts[i]
                    },
            ),
        ),
        _ => e,
    }
}

/// The default values `d` with `prefix_expr_spec` applied to each.
pub open spec fn prefix_defaults_spec(
    d: Seq<Option<ExprV>>,
    alias: Seq<char>,
    locals: Set<Seq<char>>,
) -> Seq<Option<ExprV>> {
    Seq::new(
        d.len(),
        |i: int|
            match d[i] {
                Some(e) => Some(prefix_expr_spec(e, alias, locals)),
                None => None,
            },
    )
}

/// The statements of `b` with `prefix_stmt_spec` applied to each.
pub open spec fn prefix_block_spec(b: Seq<StmtV>, alias: Seq<char>, locals: Set<Seq<char>>) -> Seq<
    StmtV,
>
    decreases b, 0nat,
{
    Seq::new(
        b.len(),
        |i: int|
            if 0 <= i < b.len() {
                prefix_stmt_spec(b[i], alias, locals)
            } else {
                b[i]
            },
    )
}

/// `s` with every definition and call of one of `locals` renamed under
/// `alias`, in its expressions and nested blocks.
pub open spec fn prefix_stmt_spec(s: StmtV, alias: Seq<char>, locals: Set<Seq<char>>) -> StmtV
    decreases s, 1nat,
{
    match s {
        StmtV::Function(name, params, defaults, body) => StmtV::Function(
            qualify(name, alias, locals),
            params,
            prefix_defaults_spec(defaults, alias, locals),
            prefix_block_spec(body, alias, locals),
        ),
        StmtV::Say(e) => StmtV::Say(prefix_expr_spec(e, alias, locals)),
        StmtV::Expr(e) => StmtV::Expr(prefix_expr_spec(e, alias, locals)),
        StmtV::Let(n, e) => StmtV::Let(n, prefix_expr_spec(e, alias, locals)),
        StmtV::Assign(n, e) => StmtV::Assign(n, prefix_expr_spec(e, alias, locals)),
        StmtV::If(c, t, e) => StmtV::If(
            prefix_expr_spec(c, alias, locals),
            prefix_block_spec(t, alias, locals),
            match e {
                Some(b) => Some(prefix_block_spec(b, alias, locals)),
                None => None,
            },
        ),
        StmtV::While(c, b) => StmtV::While(
            prefix_expr_spec(c, alias, locals),
            prefix_block_spec(b, alias, locals),
        ),
        StmtV::For(v, a, z, b) => StmtV::For(
            v,
            prefix_expr_spec(a, alias, locals),
            prefix_expr_spec(z, alias, locals),
            prefix_block_spec(b, alias, locals),
        ),
        StmtV::ForEach(v, x, b) => StmtV::ForEach(
            v,
            prefix_expr_spec(x, alias, locals),
            prefix_block_spec(b, alias, locals),
        ),
        StmtV::Repeat(b) => StmtV::Repeat(prefix_block_spec(b, alias, locals)),
        StmtV::Return(Some(e)) => StmtV::Return(Some(prefix_expr_spec(e, alias, locals))),
        StmtV::IndexAssign(a, x, v) => StmtV::IndexAssign(
            prefix_expr_spec(a, alias, locals),
            prefix_expr_spec(x, alias, locals),
            prefix_expr_spec(v, alias, locals),
        ),
        StmtV::FieldAssign(o, f, v) => StmtV::FieldAssign(
            prefix_expr_spec(o, alias, locals),
            f,
            prefix_expr_spec(v, alias, locals),
        ),
        StmtV::TryCatch(t, var, c, f) => StmtV::TryCatch(
            prefix_block_spec(t, alias, locals),
            var,
            prefix_block_spec(c, alias, locals),
            match f {
                Some(b) => Some(prefix_block_spec(b, alias, locals)),
                None => None,
            },
        ),
        StmtV::Throw(Some(e)) => StmtV::Throw(Some(prefix_expr_spec(e, alias, locals))),
        _ => s,
    }
}

/// `name` under `alias` when it is one of `locals`.
pub fn qualify_name(name: String, alias: &str, locals: &Vec<String>) -> (r: String)
    ensures
        r@ == qualify(name@, alias@, name_set(locals@)),
{
    if contains_string(locals, &name) {
        let mut m = chars_of(alias);
        push_str(&mut m, "::");
        let nc = chars_of(name.as_str());
        push_chars(&mut m, &nc);
        string_from_chars(m.as_slice())
    } else {
        name
    }
}

/// The expressions of `v` with `prefix_expr` applied to each.
fn prefix_exprs(v: Vec<Expr>, alias: &str, locals: &Vec<String>) -> (r: Vec<Expr>)
    ensures
        r@.len() == v@.len(),
        forall|i: int|
            0 <= i < v@.len() ==> (#[trigger] r@[i])@ == prefix_expr_spec(
                v@[i]@,
                alias@,
                name_set(locals@),
            ),
    decreases v, 0nat,
{
    let ghost v0 = v@;
    let mut rest = v;
    let total = rest.len();
    let mut out: Vec<Expr> = Vec::new();
    let mut k: usize = 0;
    while rest.len() > 0
        invariant
            k <= v0.len(),
            rest@ == v0.skip(k as int),
            k + rest@.len() == v0.len(),
            v0.len() == total,
            v0 == v@,
            out@.len() == k,
            forall|j: int|
                0 <= j < k ==> (#[trigger] out@[j])@ == prefix_expr_spec(
                    v0[j]@,
                    alias@,
                    name_set(locals@),
                ),
        decreases rest@.len(),
    {
        let e = rest.remove(0);
        proof {
            assert(e == v0[k as int]);
            assert(decreases_to!(v => v@[k as int]));
        }
        out.push(prefix_expr(e, alias, locals));
        k = k + 1;
    }
    out
}

#[verifier::loop_isolation(false)]
/// `e` with every call of one of the module's own functions `locals`
/// renamed under the module alias `alias`.
pub fn prefix_expr(e: Expr, alias: &str, locals: &Vec<String>) -> (r: Expr)
    ensures
        r@ == prefix_expr_spec(e@, alias@, name_set(locals@)),
    decreases e, 1nat,
{
    proof {
        lemma_expr_view(e);
    }
    let ghost ev = e@;
    match e {
        Expr::Call { name, args } => {
            let ghost av = expr_list_view(args@);
            let ghost nv = name@;
            assert(ev == ExprV::Call(nv, av));
            let new_args = prefix_exprs(args, alias, locals);
            let n = qualify_name(name, alias, locals);
            let ghost prefixed = Seq::new(
                av.len(),
                |i: int|
                    if 0 <= i < av.len() {
                        prefix_expr_spec(av[i], alias@, name_set(locals@))
                    } else {
                        av[i]
                    },
            );
            assert(expr_list_view(new_args@) =~= prefixed);
            let r = Expr::Call { name: n, args: new_args };
            proof {
                lemma_expr_view(r);
            }
            proof {
                if let ExprV::Call(_, a) = prefix_expr_spec(ev, alias@, name_set(locals@)) {
                    assert(a =~= prefixed);
                }
                assert(prefix_expr_spec(ev, alias@, name_set(locals@)) == ExprV::Call(
                    qualify(nv, alias@, name_set(locals@)),
                    prefixed,
                ));
                assert(r@ == ExprV::Call(qualify(nv, alias@, name_set(locals@)), prefixed));
                assert(r@ == prefix_expr_spec(ev, alias@, name_set(locals@)));
                assert(ev == e@);
            }
            r
        },
        Expr::Binary { left, op, right } => Expr::Binary {
            left: Box::new(prefix_expr(*left, alias, locals)),
            op,
            right: Box::new(prefix_expr(*right, alias, locals)),
        },
        Expr::Unary { op, expr } => Expr::Unary { op, expr: Box::new(prefix_expr(*expr, alias, locals)) },
        Expr::Array(items) => {
            let ghost av = expr_list_view(items@);
            assert(ev == ExprV::Array(av));
            let new_items = prefix_exprs(items, alias, locals);
            let ghost prefixed = Seq::new(
                av.len(),
                |i: int|
                    if 0 <= i < av.len() {
                        prefix_expr_spec(av[i], alias@, name_set(locals@))
                    } else {
                        av[i]
                    },
            );
            assert(expr_list_view(new_items@) =~= prefixed);
            let r = Expr::Array(new_items);
            proof {
                lemma_expr_view(r);
                if let ExprV::Array(a) = prefix_expr_spec(ev, alias@, name_set(locals@)) {
                    assert(a =~= prefixed);
                }
                assert(prefix_expr_spec(ev, alias@, name_set(locals@)) == ExprV::Array(prefixed));
            }
            r
        },
        Expr::InterpolatedString(parts) => {
            let ghost av = expr_list_view(parts@);
            assert(ev == ExprV::Interpolated(av));
            let new_parts = prefix_exprs(parts, alias, locals);
            let ghost prefixed = Seq::new(
                av.len(),
                |i: int|
                    if 0 <= i < av.len() {
                        prefix_expr_spec(av[i], alias@, name_set(locals@))
                    } else {
                        av[i]
                    },
            );
            assert(expr_list_view(new_parts@) =~= prefixed);
            let r = Expr::InterpolatedString(new_parts);
            proof {
                lemma_expr_view(r);
                if let ExprV::Interpolated(a) = prefix_expr_spec(ev, alias@, name_set(locals@)) {
                    assert(a =~= prefixed);
                }
                assert(prefix_expr_spec(ev, alias@, name_set(locals@)) == ExprV::Interpolated(prefixed));
            }
            r
        },
        Expr::Index { array, index } => Expr::Index {
            array: Box::new(prefix_expr(*array, alias, locals)),
            index: Box::new(prefix_expr(*index, alias, locals)),
        },
        Expr::FieldAccess { object, field } => Expr::FieldAccess {
            object: Box::new(prefix_expr(*object, alias, locals)),
            field,
        },
        Expr::StructInit { name, fields } => {
            let ghost f0 = fields@;
            let mut rest = fields;
            let total = rest.len();
            let mut out: Vec<(String, Expr)> = Vec::new();
            let mut k: usize = 0;
            while rest.len() > 0
                invariant
                    k <= f0.len(),
                    rest@ == f0.skip(k as int),
                    k + rest@.len() == f0.len(),
                    f0.len() == total,
                    ev == ExprV::StructInit(name@, fields_view(f0)),
                    out@.len() == k,
                    forall|j: int|
                        0 <= j < k ==> (#[trigger] out@[j]).0@ == f0[j].0@ && out@[j].1@
                            == prefix_expr_spec(f0[j].1@, alias@, name_set(locals@)),
                decreases rest@.len(),
            {
                let (fname, fexpr) = rest.remove(0);
                proof {
                    assert((fname, fexpr) == f0[k as int]);
                    assert(decreases_to!(e => f0[k as int].1));
                }
                out.push((fname, prefix_expr(fexpr, alias, locals)));
                k = k + 1;
            }
            let r = Expr::StructInit { name, fields: out };
            let ghost fv = fields_view(f0);
            let ghost prefixed = Seq::new(
                fv.len(),
                |i: int|
                    if 0 <= i < fv.len() {
                        (fv[i].0, prefix_expr_spec(fv[i].1, alias@, name_set(locals@)))
                    } else {
                        fv[i]
                    },
            );
            proof {
                lemma_expr_view(r);
                if let ExprV::StructInit(_, a) = prefix_expr_spec(ev, alias@, name_set(locals@)) {
                    assert(a =~= prefixed);
                }
                assert(fields_view(out@) =~= Seq::new(
                    fields_view(f0).len(),
                    |i: int|
                        if 0 <= i < fields_view(f0).len() {
                            (
                                fields_view(f0)[i].0,
                                prefix_expr_spec(fields_view(f0)[i].1, alias@, name_set(locals@)),
                            )
                        } else {
                            fields_view(f0)[i]
                        },
                ));
            }
            r
        },
        Expr::MapLiteral(entries) => {
            let ghost m0 = entries@;
            let mut rest = entries;
            let total = rest.len();
            let mut out: Vec<(Expr, Expr)> = Vec::new();
            let mut k: usize = 0;
            while rest.len() > 0
                invariant
                    k <= m0.len(),
                    rest@ == m0.skip(k as int),
                    k + rest@.len() == m0.len(),
                    m0.len() == total,
                    out@.len() == k,
                    forall|j: int|
                        0 <= j < k ==> (#[trigger] out@[j]).0@ == prefix_expr_spec(
                            m0[j].0@,
                            alias@,
                            name_set(locals@),
                        ) && out@[j].1@ == prefix_expr_spec(m0[j].1@, alias@, name_set(locals@)),
                decreases rest@.len(),
            {
                let (key, value) = rest.remove(0);
                proof {
                    assert((key, value) == m0[k as int]);
                    assert(decreases_to!(e => m0[k as int].0));
                    assert(decreases_to!(e => m0[k as int].1));
                }
                let nk = prefix_expr(key, alias, locals);
                let nv = prefix_expr(value, alias, locals);
                out.push((nk, nv));
                k = k + 1;
            }
            let r = Expr::MapLiteral(out);
            proof {
                if let ExprV::MapLiteral(a) = r@ {
                    if let ExprV::MapLiteral(b) = ev {
                        if let ExprV::MapLiteral(c) = prefix_expr_spec(ev, alias@, name_set(locals@)) {
                            assert(b =~= Seq::new(
                                m0.len(),
                                |i: int| (m0[i].0@, m0[i].1@),
                            ));
                            assert(a =~= c);
                        }
                    }
                }
            }
            r
        },
        other => other,
    }
}

/// The default values `v` with `prefix_expr` applied to each.
fn prefix_defaults(v: Vec<Option<Expr>>, alias: &str, locals: &Vec<String>) -> (r: Vec<
    Option<Expr>,
>)
    ensures
        defaults_view(r@) == prefix_defaults_spec(defaults_view(v@), alias@, name_set(locals@)),
{
    let ghost v0 = v@;
    let mut rest = v;
    let total = rest.len();
    let mut out: Vec<Option<Expr>> = Vec::new();
    let mut k: usize = 0;
    while rest.len() > 0
        invariant
            k <= v0.len(),
            rest@ == v0.skip(k as int),
            k + rest@.len() == v0.len(),
            v0.len() == total,
            out@.len() == k,
            forall|j: int|
                0 <= j < k ==> opt_expr_view(#[trigger] out@[j]) == match opt_expr_view(v0[j]) {
                    Some(e) => Some(prefix_expr_spec(e, alias@, name_set(locals@))),
                    None => None,
                },
        decreases rest@.len(),
    {
        let d = rest.remove(0);
        proof {
            assert(d == v0[k as int]);
        }
        let nd = match d {
            Some(e) => Some(prefix_expr(e, alias, locals)),
            None => None,
        };
        out.push(nd);
        k = k + 1;
    }
    assert(defaults_view(out@) =~= prefix_defaults_spec(defaults_view(v0), alias@, name_set(locals@)));
    out
}

/// The statements of `v` with `prefix_stmt` applied to each.
fn prefix_stmts(v: Vec<Stmt>, alias: &str, locals: &Vec<String>) -> (r: Vec<Stmt>)
    ensures
        stmt_list_view(r@) == prefix_block_spec(stmt_list_view(v@), alias@, name_set(locals@)),
    decreases v, 0nat,
{
    let ghost v0 = v@;
    let mut rest = v;
    let total = rest.len();
    let mut out: Vec<Stmt> = Vec::new();
    let mut k: usize = 0;
    while rest.len() > 0
        invariant
            k <= v0.len(),
            rest@ == v0.skip(k as int),
            k + rest@.len() == v0.len(),
            v0.len() == total,
            v0 == v@,
            out@.len() == k,
            forall|j: int|
                0 <= j < k ==> (#[trigger] out@[j])@ == prefix_stmt_spec(
                    v0[j]@,
                    alias@,
                    name_set(locals@),
                ),
        decreases rest@.len(),
    {
        let s = rest.remove(0);
        proof {
            assert(s == v0[k as int]);
            assert(decreases_to!(v => v@[k as int]));
        }
        out.push(prefix_stmt(s, alias, locals));
        k = k + 1;
    }
    assert(stmt_list_view(out@) =~= prefix_block_spec(stmt_list_view(v0), alias@, name_set(locals@)));
    out
}

/// `b` with `prefix_stmt` applied to each statement, when there is a
/// block.
fn prefix_opt_block(b: Option<Vec<Stmt>>, alias: &str, locals: &Vec<String>) -> (r: Option<Vec<Stmt>>)
    ensures
        opt_block_view(r) == match opt_block_view(b) {
            Some(v) => Some(prefix_block_spec(v, alias@, name_set(locals@))),
            None => None,
        },
    decreases b, 0nat,
{
    match b {
        Some(v) => Some(prefix_stmts(v, alias, locals)),
        None => None,
    }
}

/// `s` with every definition and call of one of the module's own
/// functions `locals` renamed under the module alias `alias`, in its
/// expressions and nested blocks.
pub fn prefix_stmt(s: Stmt, alias: &str, locals: &Vec<String>) -> (r: Stmt)
    ensures
        r@ == prefix_stmt_spec(s@, alias@, name_set(locals@)),
    decreases s, 1nat,
{
    proof {
        lemma_stmt_view(s);
    }
    let r = match s {
        Stmt::Function { name, params, defaults, body } => Stmt::Function {
            name: qualify_name(name, alias, locals),
            params,
            defaults: prefix_defaults(defaults, alias, locals),
            body: prefix_stmts(body, alias, locals),
        },
        Stmt::Say(e) => Stmt::Say(prefix_expr(e, alias, locals)),
        Stmt::Expr(e) => Stmt::Expr(prefix_expr(e, alias, locals)),
        Stmt::Let { name, value } => Stmt::Let { name, value: prefix_expr(value, alias, locals) },
        Stmt::Assign { name, value } => Stmt::Assign { name, value: prefix_expr(value, alias, locals) },
        Stmt::If { condition, then_block, else_block } => Stmt::If {
            condition: prefix_expr(condition, alias, locals),
            then_block: prefix_stmts(then_block, alias, locals),
            else_block: prefix_opt_block(else_block, alias, locals),
        },
        Stmt::While { condition, body } => Stmt::While {
            condition: prefix_expr(condition, alias, locals),
            body: prefix_stmts(body, alias, locals),
        },
        Stmt::For { var, start, end, body } => Stmt::For {
            var,
            start: prefix_expr(start, alias, locals),
            end: prefix_expr(end, alias, locals),
            body: prefix_stmts(body, alias, locals),
        },
        Stmt::ForEach { var, iterable, body } => Stmt::ForEach {
            var,
            iterable: prefix_expr(iterable, alias, locals),
            body: prefix_stmts(body, alias, locals),
        },
        Stmt::Repeat { body } => Stmt::Repeat { body: prefix_stmts(body, alias, locals) },
        Stmt::Return(Some(e)) => Stmt::Return(Some(prefix_expr(e, alias, locals))),
        Stmt::IndexAssign { array, index, value } => Stmt::IndexAssign {
            array: prefix_expr(array, alias, locals),
            index: prefix_expr(index, alias, locals),
            value: prefix_expr(value, alias, locals),
        },
        Stmt::FieldAssign { object, field, value } => Stmt::FieldAssign {
            object: prefix_expr(object, alias, locals),
            field,
            value: prefix_expr(value, alias, locals),
        },
        Stmt::TryCatch { try_block, catch_var, catch_block, finally_block } => Stmt::TryCatch {
            try_block: prefix_stmts(try_block, alias, locals),
            catch_var,
            catch_block: prefix_stmts(catch_block, alias, locals),
            finally_block: prefix_opt_block(finally_block, alias, locals),
        },
        Stmt::Throw(Some(e)) => Stmt::Throw(Some(prefix_expr(e, alias, locals))),
        other => other,
    };
    proof {
        lemma_stmt_view(r);
    }
    r
}

/// Renames, in `stmts`, every definition and call of one of the module's
/// own functions `local_fns` under the module alias `alias`
/// (`alias::name`).
pub fn apply_module_alias(stmts: &mut Vec<Stmt>, alias: &str, local_fns: &Vec<String>)
    ensures
        stmt_list_view(final(stmts)@) == prefix_block_spec(
            stmt_list_view(old(stmts)@),
            alias@,
            name_set(local_fns@),
        ),
{
    let mut taken: Vec<Stmt> = Vec::new();
    std::mem::swap(stmts, &mut taken);
    *stmts = prefix_stmts(taken, alias, local_fns);
}

/// The names of the functions that `v` defines, in order.
pub open spec fn defined_names(v: Seq<StmtV>) -> Seq<Seq<char>>
    decreases v.len(),
{
    if v.len() == 0 {
        seq![]
    } else {
        match fn_name(v.last()) {
            Some(n) => defined_names(v.drop_last()).push(n),
            None => defined_names(v.drop_last()),
        }
    }
}

/// The names of the functions that `stmts` defines, in order.
pub fn local_functions(stmts: &Vec<Stmt>) -> (r: Vec<String>)
    ensures
        string_list_view(r@) == defined_names(stmt_list_view(stmts@)),
{
    let ghost v = stmt_list_view(stmts@);
    let mut names: Vec<String> = Vec::new();
    let mut i: usize = 0;
    assert(string_list_view(names@) =~= Seq::<Seq<char>>::empty());
    while i < stmts.len()
        invariant
            i <= stmts@.len(),
            v == stmt_list_view(stmts@),
            string_list_view(names@) == defined_names(v.take(i as int)),
        decreases stmts@.len() - i,
    {
        proof {
            lemma_stmt_view(stmts@[i as int]);
            assert(v.take(i + 1 as int).drop_last() =~= v.take(i as int));
        }
        match &stmts[i] {
            Stmt::Function { name, .. } => {
                let ghost before = names@;
                names.push(copy_string(name));
                assert(string_list_view(names@) =~= string_list_view(before).push(name@));
            },
            _ => {},
        }
        i = i + 1;
    }
    assert(v.take(stmts@.len() as int) =~= v);
    names
}

/// The name a statement defines, after renaming under an alias.
proof fn lemma_fn_name_prefix(s: StmtV, alias: Seq<char>, locals: Set<Seq<char>>)
    ensures
        fn_name(prefix_stmt_spec(s, alias, locals)) == match fn_name(s) {
            Some(n) => Some(qualify(n, alias, locals)),
            None => None,
        },
{
}

/// Renaming a module under an alias renames the functions it defines, in
/// order: each of the module's own functions becomes `alias::name`, and no
/// other definition changes its name.
pub proof fn lemma_alias_renames_definitions(v: Seq<StmtV>, alias: Seq<char>, locals: Set<Seq<char>>)
    ensures
        defined_names(prefix_block_spec(v, alias, locals)) == defined_names(v).map_values(
            |n: Seq<char>| qualify(n, alias, locals),
        ),
    decreases v.len(),
{
    let p = prefix_block_spec(v, alias, locals);
    if v.len() == 0 {
        assert(p =~= Seq::<StmtV>::empty());
        assert(defined_names(v).map_values(|n: Seq<char>| qualify(n, alias, locals)) =~= Seq::<
            Seq<char>,
        >::empty());
    } else {
        lemma_alias_renames_definitions(v.drop_last(), alias, locals);
        assert(p.drop_last() =~= prefix_block_spec(v.drop_last(), alias, locals));
        lemma_fn_name_prefix(v.last(), alias, locals);
        assert(p.last() == prefix_stmt_spec(v.last(), alias, locals));
        match fn_name(v.last()) {
            Some(n) => {
                assert(defined_names(v).map_values(|n: Seq<char>| qualify(n, alias, locals))
                    =~= defined_names(v.drop_last()).map_values(
                    |n: Seq<char>| qualify(n, alias, locals),
                ).push(qualify(n, alias, locals)));
            },
            None => {},
        }
    }
}

/// The names that `v` defines at index `i` and after, as `defined_names`
/// lists them.
proof fn lemma_defined_names_contains(v: Seq<StmtV>, i: int)
    requires
        0 <= i < v.len(),
        fn_name(v[i]) is Some,
    ensures
        defined_names(v).contains(fn_name(v[i])->0),
    decreases v.len(),
{
    if i < v.len() - 1 {
        lemma_defined_names_contains(v.drop_last(), i);
        let dn = defined_names(v.drop_last());
        let k = choose|k: int| 0 <= k < dn.len() && dn[k] == fn_name(v[i])->0;
        match fn_name(v.last()) {
            Some(n) => {
                assert(defined_names(v)[k] == dn[k]);
            },
            None => {},
        }
    } else {
        assert(defined_names(v).last() == fn_name(v[i])->0);
    }
}

/// A module whose functions have distinct names keeps them distinct when
/// renamed under an alias that covers all of them.
pub proof fn lemma_alias_keeps_names_distinct(
    v: Seq<StmtV>,
    alias: Seq<char>,
    locals: Set<Seq<char>>,
)
    requires
        distinct_function_names(v),
        forall|i: int| 0 <= i < v.len() && fn_name(v[i]) is Some ==> locals.contains(fn_name(v[i])->0),
    ensures
        distinct_function_names(prefix_block_spec(v, alias, locals)),
{
    let p = prefix_block_spec(v, alias, locals);
    assert forall|i: int, j: int|
        0 <= i < j < p.len() && fn_name(p[i]) is Some implies fn_name(p[j]) != fn_name(p[i]) by {
        lemma_fn_name_prefix(v[i], alias, locals);
        lemma_fn_name_prefix(v[j], alias, locals);
        assert(p[i] == prefix_stmt_spec(v[i], alias, locals));
        assert(p[j] == prefix_stmt_spec(v[j], alias, locals));
        if fn_name(p[j]) == fn_name(p[i]) {
            let a = fn_name(v[i])->0;
            let b = fn_name(v[j])->0;
            let pre = alias + "::"@;
            assert(pre + a == pre + b);
            assert(a =~= (pre + a).skip(pre.len() as int));
            assert(b =~= (pre + b).skip(pre.len() as int));
        }
    }
}

/// A module whose functions have distinct names keeps them distinct when
/// it is renamed under an alias with its own functions as the local ones,
/// as the import resolver does.
pub proof fn lemma_module_alias_keeps_names_distinct(v: Seq<StmtV>, alias: Seq<char>)
    requires
        distinct_function_names(v),
    ensures
        distinct_function_names(
            prefix_block_spec(v, alias, Set::new(|x: Seq<char>| defined_names(v).contains(x))),
        ),
{
    let locals = Set::new(|x: Seq<char>| defined_names(v).contains(x));
    assert forall|i: int| 0 <= i < v.len() && fn_name(v[i]) is Some implies locals.contains(
        fn_name(v[i])->0,
    ) by {
        lemma_defined_names_contains(v, i);
    }
    lemma_alias_keeps_names_distinct(v, alias, locals);
}


/// Calls that meet `p` before renaming meet `q` after it, when `q` holds
/// of the renamed name wherever `p` holds of the name.
proof fn lemma_prefix_calls(
    e: ExprV,
    alias: Seq<char>,
    locals: Set<Seq<char>>,
    p: spec_fn(Seq<char>, nat) -> bool,
    q: spec_fn(Seq<char>, nat) -> bool,
)
    requires
        forall|n: Seq<char>, k: nat| #[trigger] p(n, k) ==> q(qualify(n, alias, locals), k),
        every_call(e, p),
    ensures
        every_call(prefix_expr_spec(e, alias, locals), q),
    decreases e,
{
    let r = prefix_expr_spec(e, alias, locals);
    match e {
        ExprV::Call(name, args) => {
            assert(p(name, args.len()));
            if let ExprV::Call(n2, a2) = r {
                assert forall|i: int| 0 <= i < a2.len() implies every_call(#[trigger] a2[i], q) by {
                    lemma_prefix_calls(args[i], alias, locals, p, q);
                }
            }
        },
        ExprV::Binary(l, _, x) => {
            lemma_prefix_calls(*l, alias, locals, p, q);
            lemma_prefix_calls(*x, alias, locals, p, q);
        },
        ExprV::Unary(_, x) => {
            lemma_prefix_calls(*x, alias, locals, p, q);
        },
        ExprV::Array(items) => {
            if let ExprV::Array(a2) = r {
                assert forall|i: int| 0 <= i < a2.len() implies every_call(#[trigger] a2[i], q) by {
                    lemma_prefix_calls(items[i], alias, locals, p, q);
                }
            }
        },
        ExprV::Index(a, x) => {
            lemma_prefix_calls(*a, alias, locals, p, q);
            lemma_prefix_calls(*x, alias, locals, p, q);
        },
        ExprV::Field(o, _) => {
            lemma_prefix_calls(*o, alias, locals, p, q);
        },
        ExprV::StructInit(_, fields) => {
            if let ExprV::StructInit(_, f2) = r {
                assert forall|i: int| 0 <= i < f2.len() implies every_call(#[trigger] f2[i].1, q) by {
                    lemma_prefix_calls(fields[i].1, alias, locals, p, q);
                }
            }
        },
        ExprV::MapLiteral(entries) => {
            if let ExprV::MapLiteral(e2) = r {
                assert forall|i: int| 0 <= i < e2.len() implies every_call(#[trigger] e2[i].0, q)
                    && every_call(e2[i].1, q) by {
                    lemma_prefix_calls(entries[i].0, alias, locals, p, q);
                    lemma_prefix_calls(entries[i].1, alias, locals, p, q);
                }
            }
        },
        ExprV::Interpolated(parts) => {
            if let ExprV::Interpolated(p2) = r {
                assert forall|i: int| 0 <= i < p2.len() implies every_call(#[trigger] p2[i], q) by {
                    lemma_prefix_calls(parts[i], alias, locals, p, q);
                }
            }
        },
        _ => {},
    }
}

/// `lemma_prefix_calls` for the statements of a block.
proof fn lemma_prefix_block_calls(
    b: Seq<StmtV>,
    alias: Seq<char>,
    locals: Set<Seq<char>>,
    p: spec_fn(Seq<char>, nat) -> bool,
    q: spec_fn(Seq<char>, nat) -> bool,
)
    requires
        forall|n: Seq<char>, k: nat| #[trigger] p(n, k) ==> q(qualify(n, alias, locals), k),
        every_call_block(b, p, true),
    ensures
        every_call_block(prefix_block_spec(b, alias, locals), q, true),
    decreases b, 0nat,
{
    let r = prefix_block_spec(b, alias, locals);
    assert forall|i: int| 0 <= i < r.len() implies every_call_stmt(#[trigger] r[i], q, true) by {
        lemma_prefix_stmt_calls(b[i], alias, locals, p, q);
    }
}

/// `lemma_prefix_calls` for a statement.
proof fn lemma_prefix_stmt_calls(
    s: StmtV,
    alias: Seq<char>,
    locals: Set<Seq<char>>,
    p: spec_fn(Seq<char>, nat) -> bool,
    q: spec_fn(Seq<char>, nat) -> bool,
)
    requires
        forall|n: Seq<char>, k: nat| #[trigger] p(n, k) ==> q(qualify(n, alias, locals), k),
        every_call_stmt(s, p, true),
    ensures
        every_call_stmt(prefix_stmt_spec(s, alias, locals), q, true),
    decreases s, 1nat,
{
    match s {
        StmtV::Function(_, _, defaults, body) => {
            let d2 = prefix_defaults_spec(defaults, alias, locals);
            assert forall|i: int| 0 <= i < d2.len() implies every_call_opt(#[trigger] d2[i], q) by {
                assert(every_call_opt(defaults[i], p));
                if let Some(x) = defaults[i] {
                    lemma_prefix_calls(x, alias, locals, p, q);
                }
            }
            lemma_prefix_block_calls(body, alias, locals, p, q);
        },
        StmtV::Say(e) => lemma_prefix_calls(e, alias, locals, p, q),
        StmtV::Expr(e) => lemma_prefix_calls(e, alias, locals, p, q),
        StmtV::Let(_, e) => lemma_prefix_calls(e, alias, locals, p, q),
        StmtV::Assign(_, e) => lemma_prefix_calls(e, alias, locals, p, q),
        StmtV::If(c, t, e) => {
            lemma_prefix_calls(c, alias, locals, p, q);
            lemma_prefix_block_calls(t, alias, locals, p, q);
            if let Some(b) = e {
                lemma_prefix_block_calls(b, alias, locals, p, q);
            }
        },
        StmtV::While(c, b) => {
            lemma_prefix_calls(c, alias, locals, p, q);
            lemma_prefix_block_calls(b, alias, locals, p, q);
        },
        StmtV::For(_, a, z, b) => {
            lemma_prefix_calls(a, alias, locals, p, q);
            lemma_prefix_calls(z, alias, locals, p, q);
            lemma_prefix_block_calls(b, alias, locals, p, q);
        },
        StmtV::ForEach(_, x, b) => {
            lemma_prefix_calls(x, alias, locals, p, q);
            lemma_prefix_block_calls(b, alias, locals, p, q);
        },
        StmtV::Repeat(b) => lemma_prefix_block_calls(b, alias, locals, p, q),
        StmtV::Return(e) => {
            if let Some(x) = e {
                lemma_prefix_calls(x, alias, locals, p, q);
            }
        },
        StmtV::IndexAssign(a, x, v) => {
            lemma_prefix_calls(a, alias, locals, p, q);
            lemma_prefix_calls(x, alias, locals, p, q);
            lemma_prefix_calls(v, alias, locals, p, q);
        },
        StmtV::FieldAssign(o, _, v) => {
            lemma_prefix_calls(o, alias, locals, p, q);
            lemma_prefix_calls(v, alias, locals, p, q);
        },
        StmtV::TryCatch(t, _, c, f) => {
            lemma_prefix_block_calls(t, alias, locals, p, q);
            lemma_prefix_block_calls(c, alias, locals, p, q);
            if let Some(b) = f {
                lemma_prefix_block_calls(b, alias, locals, p, q);
            }
        },
        StmtV::Throw(e) => {
            if let Some(x) = e {
                lemma_prefix_calls(x, alias, locals, p, q);
            }
        },
        _ => {},
    }
}

/// Renaming a module under an alias reaches every call of one of its own
/// functions, wherever it stands (default values included): afterwards no
/// call names one of them by its bare name, and when every call in the
/// module was to its own functions, every call names `alias::f` for one of
/// them. (Function names hold no `:`.)
pub proof fn lemma_alias_renames_calls(v: Seq<StmtV>, alias: Seq<char>, locals: Set<Seq<char>>)
    requires
        forall|n: Seq<char>| #[trigger] locals.contains(n) ==> !n.contains(':'),
    ensures
        every_call_block(
            prefix_block_spec(v, alias, locals),
            |n: Seq<char>, k: nat| !locals.contains(n),
            true,
        ),
        every_call_block(v, |n: Seq<char>, k: nat| locals.contains(n), true) ==> every_call_block(
            prefix_block_spec(v, alias, locals),
            |n: Seq<char>, k: nat| exists|f: Seq<char>| locals.contains(f) && n == alias + "::"@ + f,
            true,
        ),
{
    let all = |n: Seq<char>, k: nat| true;
    let bare = |n: Seq<char>, k: nat| !locals.contains(n);
    assert forall|n: Seq<char>, k: nat| #[trigger] all(n, k) implies bare(qualify(n, alias, locals), k) by {
        if locals.contains(n) {
            let m = alias + "::"@ + n;
            reveal_strlit("::");
            assert(m[alias.len() as int] == ':');
            assert(m.contains(':'));
        }
    }
    lemma_every_call_block_always(v, all, true);
    lemma_prefix_block_calls(v, alias, locals, all, bare);
    let own = |n: Seq<char>, k: nat| locals.contains(n);
    let renamed = |n: Seq<char>, k: nat| exists|f: Seq<char>| locals.contains(f) && n == alias + "::"@ + f;
    if every_call_block(v, own, true) {
        assert forall|n: Seq<char>, k: nat| #[trigger] own(n, k) implies renamed(qualify(n, alias, locals), k) by {
            assert(locals.contains(n) && qualify(n, alias, locals) == alias + "::"@ + n);
        }
        lemma_prefix_block_calls(v, alias, locals, own, renamed);
    }
}

} // verus!
