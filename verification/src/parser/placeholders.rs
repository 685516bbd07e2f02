//! What the parts of an interpolated string stand for: joined back
//! together they give the string.

use vstd::prelude::*;
use crate::ast::ExprV;
use crate::text::{first_index_of, lemma_first_index_of_bound};
use super::expr::{
    interpolate, interp_scan, flush, field_chain, split_dots, name_end, lemma_name_end, is_name_char,
    string_expr,
};

verus! {

/// The dotted name that a variable or a chain of field accesses stands for.
pub open spec fn dotted(e: ExprV) -> Seq<char>
    decreases e,
{
    match e {
        ExprV::Ident(n) => n,
        ExprV::Field(b, f) => dotted(*b) + seq!['.'] + f,
        _ => seq![],
    }
}

/// The text that a part of an interpolated string stands for: a literal
/// part its text, a variable `{name}`.
pub open spec fn part_text(e: ExprV) -> Seq<char> {
    match e {
        ExprV::Str(t) => t,
        _ => seq!['{'] + dotted(e) + seq!['}'],
    }
}

/// The texts of `parts`, one after the other.
pub open spec fn joined(parts: Seq<ExprV>) -> Seq<char>
    decreases parts.len(),
{
    if parts.len() == 0 {
        seq![]
    } else {
        joined(parts.drop_last()) + part_text(parts.last())
    }
}

/// `names` joined by dots.
pub open spec fn join_dots(names: Seq<Seq<char>>) -> Seq<char>
    decreases names.len(),
{
    if names.len() == 0 {
        seq![]
    } else if names.len() == 1 {
        names[0]
    } else {
        join_dots(names.drop_last()) + seq!['.'] + names.last()
    }
}

/// No literal part is empty and no two literal parts are next to each
/// other.
pub open spec fn literals_apart(parts: Seq<ExprV>) -> bool {
    &&& forall|k: int| 0 <= k < parts.len() && (#[trigger] parts[k] is Str) ==> parts[k]->Str_0.len() > 0
    &&& forall|k: int|
        0 <= k && k + 1 < parts.len() && (#[trigger] parts[k] is Str) ==> !(parts[k + 1] is Str)
}

/// Whether a placeholder, `{`, one or more name characters and `}`,
/// starts at `k`.
pub open spec fn placeholder_at(s: Seq<char>, k: int) -> bool {
    &&& 0 <= k < s.len()
    &&& s[k] == '{'
    &&& k + 1 < name_end(s, (k + 1) as nat) < s.len()
    &&& s[name_end(s, (k + 1) as nat) as int] == '}'
}

/// Whether `{}` occurs in `s`.
pub open spec fn has_empty_braces(s: Seq<char>) -> bool {
    exists|k: int| 0 <= k && k + 1 < s.len() && s[k] == '{' && #[trigger] s[k + 1] == '}'
}

proof fn lemma_dotted_chain(names: Seq<Seq<char>>)
    ensures
        dotted(field_chain(names)) == join_dots(names),
        !(field_chain(names) is Str),
    decreases names.len(),
{
    if names.len() > 1 {
        lemma_dotted_chain(names.drop_last());
    }
}

proof fn lemma_join_dots_front(x: Seq<char>, rest: Seq<Seq<char>>)
    requires
        rest.len() >= 1,
    ensures
        join_dots(seq![x] + rest) == x + seq!['.'] + join_dots(rest),
    decreases rest.len(),
{
    let all = seq![x] + rest;
    if rest.len() == 1 {
        assert(all.drop_last() =~= seq![x]);
        assert(join_dots(seq![x]) == x);
        assert(all.last() == rest[0]);
        assert(join_dots(all) == join_dots(all.drop_last()) + seq!['.'] + all.last());
    } else {
        assert(all.drop_last() =~= seq![x] + rest.drop_last());
        lemma_join_dots_front(x, rest.drop_last());
        assert(all.last() == rest.last());
        assert(join_dots(all) == join_dots(all.drop_last()) + seq!['.'] + all.last());
        assert(join_dots(rest) == join_dots(rest.drop_last()) + seq!['.'] + rest.last());
        assert(x + seq!['.'] + join_dots(rest.drop_last()) + seq!['.'] + rest.last() =~= x + seq!['.']
            + (join_dots(rest.drop_last()) + seq!['.'] + rest.last()));
    }
}

proof fn lemma_split_join(name: Seq<char>)
    ensures
        split_dots(name).len() >= 1,
        join_dots(split_dots(name)) == name,
    decreases name.len(),
{
    lemma_first_index_of_bound(name, '.');
    match first_index_of(name, '.') {
        None => {},
        Some(k) => {
            let rest = name.skip(k + 1 as int);
            lemma_split_join(rest);
            lemma_join_dots_front(name.take(k as int), split_dots(rest));
            assert(name =~= name.take(k as int) + seq!['.'] + rest);
        },
    }
}

proof fn lemma_joined_push(parts: Seq<ExprV>, e: ExprV)
    ensures
        joined(parts.push(e)) == joined(parts) + part_text(e),
{
    assert(parts.push(e).drop_last() =~= parts);
}

proof fn lemma_flush(parts: Seq<ExprV>, lit: Seq<char>)
    requires
        literals_apart(parts),
        parts.len() == 0 || !(parts.last() is Str),
    ensures
        joined(flush(parts, lit)) == joined(parts) + lit,
        literals_apart(flush(parts, lit)),
{
    if lit.len() > 0 {
        lemma_joined_push(parts, ExprV::Str(lit));
        let f = parts.push(ExprV::Str(lit));
        assert forall|k: int| 0 <= k && k + 1 < f.len() && (#[trigger] f[k] is Str) implies !(f[k
            + 1] is Str) by {
            if k + 1 == f.len() - 1 {
                assert(f[k] == parts.last());
            } else {
                assert(f[k] == parts[k] && f[k + 1] == parts[k + 1]);
            }
        }
        assert forall|k: int| 0 <= k < f.len() && (#[trigger] f[k] is Str) implies (
        f[k]->Str_0).len() > 0 by {
            if k < parts.len() {
                assert(f[k] == parts[k]);
            }
        }
    } else {
        assert(parts + seq![] =~= parts);
        assert(joined(parts) + lit =~= joined(parts));
    }
}

/// A placeholder named `name` after the parts `parts` and the literal text
/// `lit`: the parts then joined end with `lit` and `{name}`, and the
/// literal parts stay non-empty and apart.
proof fn lemma_placeholder_step(parts: Seq<ExprV>, lit: Seq<char>, name: Seq<char>)
    requires
        literals_apart(parts),
        parts.len() == 0 || !(parts.last() is Str),
    ensures
        joined(flush(parts, lit).push(field_chain(split_dots(name)))) == joined(parts) + lit + (seq![
            '{',
        ] + name + seq!['}']),
        literals_apart(flush(parts, lit).push(field_chain(split_dots(name)))),
        !(flush(parts, lit).push(field_chain(split_dots(name))).last() is Str),
{
    lemma_flush(parts, lit);
    let f = flush(parts, lit);
    let e = field_chain(split_dots(name));
    lemma_dotted_chain(split_dots(name));
    lemma_split_join(name);
    let p2 = f.push(e);
    lemma_joined_push(f, e);
    assert forall|k: int| 0 <= k < p2.len() && (#[trigger] p2[k] is Str) implies p2[k]->Str_0.len()
        > 0 by {
        if k < f.len() {
            assert(p2[k] == f[k]);
        }
    }
    assert forall|k: int| 0 <= k && k + 1 < p2.len() && (#[trigger] p2[k] is Str) implies !(p2[k
        + 1] is Str) by {
        if k + 1 < f.len() {
            assert(p2[k] == f[k] && p2[k + 1] == f[k + 1]);
        }
    }
}

/// Scanning from `i` after the literal text `lit` and the parts `parts`:
/// the parts found, joined, are `parts`, `lit` and the rest of the string;
/// literal parts stay non-empty and apart; and a placeholder was seen.
proof fn lemma_scan_joins(s: Seq<char>, i: nat, lit: Seq<char>, parts: Seq<ExprV>, has: bool)
    requires
        i <= s.len(),
        !has_empty_braces(s),
        literals_apart(parts),
        parts.len() == 0 || !(parts.last() is Str),
        has ==> exists|k: int| #[trigger] placeholder_at(s, k),
    ensures
        interp_scan(s, i, lit, parts, has) matches Some(res) ==> {
            &&& joined(res) == joined(parts) + lit + s.skip(i as int)
            &&& literals_apart(res)
            &&& exists|k: int| #[trigger] placeholder_at(s, k)
        },
    decreases s.len() - i,
{
    if i >= s.len() {
        if has {
            lemma_flush(parts, lit);
            assert(s.skip(i as int) =~= Seq::<char>::empty());
            assert(joined(parts) + lit + Seq::<char>::empty() =~= joined(parts) + lit);
        }
    } else if s[i as int] == '{' {
        lemma_name_end(s, i + 1);
        let j = name_end(s, i + 1);
        let name = s.subrange(i + 1 as int, j as int);
        let closed = j < s.len() && s[j as int] == '}';
        if closed && name.len() > 0 {
            let p2 = flush(parts, lit).push(field_chain(split_dots(name)));
            lemma_placeholder_step(parts, lit, name);
            assert(placeholder_at(s, i as int));
            lemma_scan_joins(s, j + 1, seq![], p2, true);
            assert(s.skip(i as int) =~= seq!['{'] + name + seq!['}'] + s.skip(j + 1 as int));
            assert(joined(p2) + Seq::<char>::empty() =~= joined(p2));
            assert(joined(parts) + lit + (seq!['{'] + name + seq!['}'] + s.skip(j + 1 as int)) =~= joined(
                parts,
            ) + lit + (seq!['{'] + name + seq!['}']) + s.skip(j + 1 as int));
        } else if closed {
            assert(s[i + 1 as int] == '}');
            assert(!has_empty_braces(s));
        } else {
            lemma_scan_joins(s, j, lit + seq!['{'] + name, parts, has);
            assert(s.skip(i as int) =~= seq!['{'] + name + s.skip(j as int));
            assert(joined(parts) + (lit + seq!['{'] + name) + s.skip(j as int) =~= joined(parts)
                + lit + (seq!['{'] + name + s.skip(j as int)));
        }
    } else {
        lemma_scan_joins(s, i + 1, lit.push(s[i as int]), parts, has);
        assert(s.skip(i as int) =~= seq![s[i as int]] + s.skip(i + 1 as int));
        assert(joined(parts) + lit.push(s[i as int]) + s.skip(i + 1 as int) =~= joined(parts) + lit + (
        seq![s[i as int]] + s.skip(i + 1 as int)));
    }
}

/// The name that starts at `m` runs over name characters up to a character
/// that is not one.
proof fn lemma_name_end_chars(s: Seq<char>, m: nat)
    requires
        m <= s.len(),
    ensures
        forall|p: int| m <= p < name_end(s, m) ==> is_name_char(#[trigger] s[p]),
        name_end(s, m) < s.len() ==> !is_name_char(s[name_end(s, m) as int]),
    decreases s.len() - m,
{
    if m < s.len() && is_name_char(s[m as int]) {
        lemma_name_end_chars(s, m + 1);
    }
}

/// Over a run of name characters from `m` to `q`, the name that starts at
/// `m` ends where the one that starts at `q` does.
proof fn lemma_name_end_skip(s: Seq<char>, m: nat, q: nat)
    requires
        m <= q <= s.len(),
        forall|p: int| m <= p < q ==> is_name_char(#[trigger] s[p]),
    ensures
        name_end(s, m) == name_end(s, q),
    decreases q - m,
{
    if m < q {
        assert(is_name_char(s[m as int]));
        lemma_name_end_skip(s, m + 1, q);
    }
}

/// Scanning from `i` finds a placeholder, and so gives parts, when one was
/// seen before or one starts at `k` at or after `i`.
proof fn lemma_scan_some(s: Seq<char>, i: nat, lit: Seq<char>, parts: Seq<ExprV>, has: bool, k: int)
    requires
        i <= s.len(),
        !has_empty_braces(s),
        has || (i <= k && placeholder_at(s, k)),
    ensures
        interp_scan(s, i, lit, parts, has) is Some,
    decreases s.len() - i,
{
    if i >= s.len() {
    } else if s[i as int] == '{' {
        lemma_name_end(s, i + 1);
        let j = name_end(s, i + 1);
        let name = s.subrange(i + 1 as int, j as int);
        let closed = j < s.len() && s[j as int] == '}';
        if closed && name.len() > 0 {
            lemma_scan_some(s, j + 1, seq![], flush(parts, lit).push(field_chain(split_dots(name))), true, k);
        } else if closed {
            assert(s[i + 1 as int] == '}');
        } else {
            if has == false {
                if i == k {
                } else {
                    if j > k {
                        let jk = name_end(s, (k + 1) as nat);
                        lemma_name_end_chars(s, i + 1);
                        assert forall|p: int| i + 1 <= p < k + 1 implies is_name_char(#[trigger] s[p]) by {
                            assert(p < j);
                        }
                        lemma_name_end_skip(s, i + 1, (k + 1) as nat);
                        assert(j == jk);
                    }
                }
            }
            lemma_scan_some(s, j, lit + seq!['{'] + name, parts, has, k);
        }
    } else {
        lemma_scan_some(s, i + 1, lit.push(s[i as int]), parts, has, k);
    }
}

/// In a string without `{}`, interpolation gives parts exactly when the
/// string holds a placeholder; the parts, joined back together, give the
/// string; no literal part is empty, and no two literal parts are next to
/// each other.
pub proof fn lemma_interpolation_round_trip(s: Seq<char>)
    requires
        !has_empty_braces(s),
    ensures
        interpolate(s) matches Some(parts) ==> {
            &&& joined(parts) == s
            &&& literals_apart(parts)
            &&& exists|k: int| #[trigger] placeholder_at(s, k)
        },
        (exists|k: int| #[trigger] placeholder_at(s, k)) ==> interpolate(s) is Some,
{
    if exists|k: int| #[trigger] placeholder_at(s, k) {
        let k = choose|k: int| #[trigger] placeholder_at(s, k);
        lemma_scan_some(s, 0, seq![], seq![], false, k);
    }
    lemma_scan_joins(s, 0, seq![], seq![], false);
    assert(s.skip(0) =~= s);
    assert(joined(Seq::<ExprV>::empty()) + Seq::<char>::empty() + s =~= s);
}


/// Literal text without `{` is added to the literal collected so far.
proof fn lemma_scan_literal(
    s: Seq<char>,
    i: nat,
    lit: Seq<char>,
    parts: Seq<ExprV>,
    has: bool,
    t: Seq<char>,
)
    requires
        !t.contains('{'),
        i + t.len() <= s.len(),
        s.subrange(i as int, i + t.len() as int) == t,
    ensures
        interp_scan(s, i, lit, parts, has) == interp_scan(s, (i + t.len()) as nat, lit + t, parts, has),
    decreases t.len(),
{
    if t.len() == 0 {
        assert(lit + t =~= lit);
    } else {
        assert(s[i as int] == t[0]);
        assert(t[0] != '{') by {
            if t[0] == '{' {
                assert(t.contains('{'));
            }
        }
        let rest = t.drop_first();
        assert(!rest.contains('{')) by {
            if rest.contains('{') {
                let k = choose|k: int| 0 <= k < rest.len() && rest[k] == '{';
                assert(t[k + 1] == '{');
            }
        }
        assert(s.subrange(i + 1 as int, i + 1 + rest.len() as int) =~= rest);
        lemma_scan_literal(s, i + 1, lit.push(s[i as int]), parts, has, rest);
        assert(lit.push(s[i as int]) + rest =~= lit + t);
    }
}

/// A placeholder whose name is made of letters, digits, underscores and
/// dots stands for the variable it names, with a field access for each dot:
/// in a string of literal text without `{` followed by `{name}`, the text
/// becomes a string part (when it is not empty) and the placeholder the
/// variable, and the string literal is an interpolated string of those
/// parts. (`}` is neither a letter nor a digit, as `char::is_alphanumeric`
/// documents for ASCII.)
pub proof fn lemma_placeholder_names(pre: Seq<char>, name: Seq<char>)
    requires
        !pre.contains('{'),
        name.len() > 0,
        forall|k: int|
            0 <= k < name.len() ==> crate::text::unicode_alphanumeric(#[trigger] name[k]) || name[k]
                == '_' || name[k] == '.',
        !crate::text::unicode_alphanumeric('}'),
    ensures
        interpolate(pre + seq!['{'] + name + seq!['}']) == Some(
            if pre.len() == 0 {
                seq![field_chain(split_dots(name))]
            } else {
                seq![ExprV::Str(pre), field_chain(split_dots(name))]
            },
        ),
        string_expr(pre + seq!['{'] + name + seq!['}']) == ExprV::Interpolated(
            if pre.len() == 0 {
                seq![field_chain(split_dots(name))]
            } else {
                seq![ExprV::Str(pre), field_chain(split_dots(name))]
            },
        ),
{
    let s = pre + seq!['{'] + name + seq!['}'];
    let i: nat = pre.len();
    let q: nat = i + 1 + name.len();
    assert(s.subrange(0, i as int) =~= pre);
    lemma_scan_literal(s, 0, seq![], seq![], false, pre);
    assert(Seq::<char>::empty() + pre =~= pre);
    assert(s[i as int] == '{');
    assert(s[q as int] == '}');
    assert forall|p: int| i + 1 <= p < q implies is_name_char(#[trigger] s[p]) by {
        assert(s[p] == name[p - i - 1]);
    }
    lemma_name_end_skip(s, i + 1, q);
    assert(!is_name_char(s[q as int]));
    assert(name_end(s, q) == q);
    assert(s.subrange(i + 1 as int, q as int) =~= name);
    let chain = field_chain(split_dots(name));
    let after = flush(Seq::<ExprV>::empty(), pre).push(chain);
    assert(interp_scan(s, i, pre, seq![], false) == interp_scan(s, q + 1, seq![], after, true));
    assert(flush(after, seq![]) == after);
    if pre.len() == 0 {
        assert(after =~= seq![chain]);
    } else {
        assert(after =~= seq![ExprV::Str(pre), chain]);
    }
    assert(s.contains('{')) by {
        assert(s[i as int] == '{');
    }
    assert(s.contains('}')) by {
        assert(s[q as int] == '}');
    }
}

} // verus!
