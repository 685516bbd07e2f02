use vstd::prelude::*;
use crate::text::{lemma_find_from_reaches, lemma_find_from_none, lemma_find_from_first, lemma_decimal_value, lemma_leading_digits_concat, decimal, lemma_find_from_bound, chars_of, string_from_chars, find, find_from, occurs_at, leading_digits, digits_value, all_digits, is_ascii_digit, parse_usize};
use super::{Diagnostic, push_chars, render_requires, render_text};

verus! {

/// Where a location marker starts in `msg`, and how long it is: the first
/// `" starting at line "`, or else the first `" at line "`.
pub open spec fn location_marker(msg: Seq<char>) -> Option<(int, int)> {
    match find(msg, " starting at line "@) {
        Some(i) => Some((i, " starting at line "@.len() as int)),
        None => match find(msg, " at line "@) {
            Some(i) => Some((i, " at line "@.len() as int)),
            None => None,
        },
    }
}

/// The message of `msg` with its location clause removed, and the line and
/// column that the clause named (`parse_error_location`).
pub open spec fn error_location(msg: Seq<char>) -> (Seq<char>, Option<usize>, Option<usize>) {
    match location_marker(msg) {
        None => (msg, None, None),
        Some((start, mlen)) => {
            let prefix = msg.take(start);
            let rest = msg.skip(start + mlen);
            let k = leading_digits(rest) as int;
            if k == 0 || digits_value(rest.take(k)) > usize::MAX {
                (msg, None, None)
            } else {
                let line = digits_value(rest.take(k)) as usize;
                let after = rest.skip(k);
                let sep = ", column "@;
                if after.len() >= sep.len() && after.take(sep.len() as int) == sep {
                    let col_rest = after.skip(sep.len() as int);
                    let kc = leading_digits(col_rest) as int;
                    if kc > 0 && digits_value(col_rest.take(kc)) <= usize::MAX {
                        (
                            prefix + col_rest.skip(kc),
                            Some(line),
                            Some(digits_value(col_rest.take(kc)) as usize),
                        )
                    } else {
                        (prefix + after, Some(line), None)
                    }
                } else {
                    (prefix + after, Some(line), None)
                }
            }
        },
    }
}

/// The first index at which `pat` occurs in `s`.
pub fn find_chars(s: &Vec<char>, pat: &Vec<char>) -> (r: Option<usize>)
    ensures
        r matches Some(i) ==> find(s@, pat@) == Some(i as int),
        r is None ==> find(s@, pat@) is None,
{
    let mut i: usize = 0;
    while i <= s.len() && pat.len() <= s.len() - i
        invariant
            find(s@, pat@) == find_from(s@, pat@, i as int),
        decreases s@.len() + 1 - i,
    {
        let mut j: usize = 0;
        let mut matched = true;
        while j < pat.len()
            invariant
                i + pat.len() <= s.len(),
                j <= pat.len(),
                matched <==> (forall|t: int| 0 <= t < j ==> s@[i + t] == pat@[t]),
            decreases pat@.len() - j,
        {
            if s[i + j] != pat[j] {
                matched = false;
            }
            j = j + 1;
        }
        if matched {
            assert(s@.subrange(i as int, i + pat@.len()) =~= pat@);
            return Some(i);
        } else {
            assert(!occurs_at(s@, pat@, i as int)) by {
                if occurs_at(s@, pat@, i as int) {
                    assert forall|t: int| 0 <= t < pat@.len() implies s@[i + t] == pat@[t] by {
                        assert(s@.subrange(i as int, i + pat@.len())[t] == s@[i + t]);
                    }
                }
            }
        }
        if i == s.len() {
            return None;
        }
        i = i + 1;
    }
    None
}

/// The number of ASCII digits of `s` from index `from` on.
pub fn count_digits(s: &Vec<char>, from: usize) -> (n: usize)
    requires
        from <= s@.len(),
    ensures
        n == leading_digits(s@.skip(from as int)),
        from + n <= s@.len(),
        all_digits(s@.subrange(from as int, from + n)),
{
    let mut n: usize = 0;
    while from + n < s.len() && '0' <= s[from + n] && s[from + n] <= '9'
        invariant
            from + n <= s.len(),
            all_digits(s@.subrange(from as int, from + n)),
            leading_digits(s@.skip(from as int)) == n + leading_digits(s@.skip(from + n)),
        decreases s@.len() - from - n,
    {
        assert(s@.skip(from + n)[0] == s@[from + n]);
        assert(s@.skip(from + n).drop_first() == s@.skip(from + n + 1));
        n = n + 1;
        assert forall|t: int| 0 <= t < n implies #[trigger] is_ascii_digit(
            s@.subrange(from as int, from + n)[t],
        ) by {
            if t < n - 1 {
                assert(s@.subrange(from as int, from + n)[t] == s@.subrange(
                    from as int,
                    from + n - 1,
                )[t]);
            }
        }
    }
    if from + n < s.len() {
        assert(s@.skip(from + n)[0] == s@[from + n]);
    } else {
        assert(s@.skip(from + n) == Seq::<char>::empty());
    }
    n
}

/// The characters of `s` from `from` to `to`.
pub fn slice_chars(s: &Vec<char>, from: usize, to: usize) -> (v: Vec<char>)
    requires
        from <= to <= s@.len(),
    ensures
        v@ == s@.subrange(from as int, to as int),
{
    let mut v: Vec<char> = Vec::new();
    let mut t: usize = from;
    while t < to
        invariant
            from <= t <= to <= s@.len(),
            v@ == s@.subrange(from as int, t as int),
        decreases to - t,
    {
        v.push(s[t]);
        t = t + 1;
        assert(v@ == s@.subrange(from as int, t as int));
    }
    v
}

/// Splits an error message of the form `"... at line L, column C ..."`
/// (or `"... starting at line L ..."`) into the message without the
/// location clause, the line, and the column.
///
/// Handles patterns like:
/// - `"Expected identifier after 'let' at line 3, column 5"`
/// - `"Unexpected character '&' at line 5, column 10. Did you mean '&&'?"`
/// - `"Unclosed multiline comment starting at line 1, column 1"`
/// - `"Expected 'end' at line 14"`
pub fn parse_error_location(msg: &str) -> (r: (String, Option<usize>, Option<usize>))
    ensures
        r.0@ == error_location(msg@).0,
        r.1 == error_location(msg@).1,
        r.2 == error_location(msg@).2,
{
    let m = chars_of(msg);
    let starting = chars_of(" starting at line ");
    let at_line = chars_of(" at line ");
    let marker = match find_chars(&m, &starting) {
        Some(i) => Some((i, starting.len())),
        None => match find_chars(&m, &at_line) {
            Some(i) => Some((i, at_line.len())),
            None => None,
        },
    };
    match marker {
        None => {
            return (string_from_chars(m.as_slice()), None, None);
        },
        Some((start, mlen)) => {
            proof {
                lemma_find_from_bound(m@, starting@, 0);
                lemma_find_from_bound(m@, at_line@, 0);
            }
            assert(start + mlen <= m.len());
            let prefix = slice_chars(&m, 0, start);
            let rest_at = start + mlen;
            let k = count_digits(&m, rest_at);
            assert(m@.skip(rest_at as int).take(k as int) == m@.subrange(
                rest_at as int,
                rest_at + k,
            ));
            if k == 0 {
                return (string_from_chars(m.as_slice()), None, None);
            }
            let digits = slice_chars(&m, rest_at, rest_at + k);
            match parse_usize(digits.as_slice()) {
                None => {
                    return (string_from_chars(m.as_slice()), None, None);
                },
                Some(line) => {
                    let after_at = rest_at + k;
                    assert(m@.skip(rest_at as int).skip(k as int) == m@.skip(after_at as int));
                    let sep = chars_of(", column ");
                    let mut has_sep = sep.len() <= m.len() - after_at;
                    if has_sep {
                        let mut j: usize = 0;
                        while j < sep.len()
                            invariant
                                after_at + sep.len() <= m.len(),
                                j <= sep@.len(),
                                has_sep <==> (forall|t: int|
                                    0 <= t < j ==> m@[after_at + t] == sep@[t]),
                            decreases sep@.len() - j,
                        {
                            if m[after_at + j] != sep[j] {
                                has_sep = false;
                            }
                            j = j + 1;
                        }
                        proof {
                            let after = m@.skip(after_at as int);
                            if has_sep {
                                assert(after.take(sep@.len() as int) =~= sep@);
                            } else {
                                if after.take(sep@.len() as int) == sep@ {
                                    assert forall|t: int| 0 <= t < sep@.len() implies m@[after_at
                                        + t] == sep@[t] by {
                                        assert(after.take(sep@.len() as int)[t] == m@[after_at + t]);
                                    }
                                }
                            }
                        }
                    }
                    if has_sep {
                        let col_at = after_at + sep.len();
                        assert(m@.skip(after_at as int).skip(sep@.len() as int) == m@.skip(
                            col_at as int,
                        ));
                        let kc = count_digits(&m, col_at);
                        assert(m@.skip(col_at as int).take(kc as int) == m@.subrange(
                            col_at as int,
                            col_at + kc,
                        ));
                        if kc > 0 {
                            let cdigits = slice_chars(&m, col_at, col_at + kc);
                            match parse_usize(cdigits.as_slice()) {
                                Some(col) => {
                                    let mut clean = prefix;
                                    let suffix = slice_chars(&m, col_at + kc, m.len());
                                    assert(m@.skip(col_at as int).skip(kc as int) == suffix@);
                                    push_chars(&mut clean, &suffix);
                                    return (string_from_chars(clean.as_slice()), Some(line), Some(col));
                                },
                                None => {},
                            }
                        }
                    }
                    let mut clean = prefix;
                    let suffix = slice_chars(&m, after_at, m.len());
                    assert(m@.skip(after_at as int) == suffix@);
                    push_chars(&mut clean, &suffix);
                    return (string_from_chars(clean.as_slice()), Some(line), None);
                },
            }
        },
    }
}

/// Renders a diagnostic for the error message `err_msg`, locating it by the
/// position that the message names.
pub fn render_error(file: &str, source: &str, err_msg: &str) -> (out: String)
    requires
        render_requires(error_location(err_msg@).1, error_location(err_msg@).2, source@),
    ensures
        out@ == render_text(
            file@,
            error_location(err_msg@).0,
            error_location(err_msg@).1,
            error_location(err_msg@).2,
            1,
            source@,
        ),
{
    let (clean_msg, line, col) = parse_error_location(err_msg);
    let mut diag = Diagnostic::new(file, clean_msg.as_str());
    diag.line = line;
    diag.column = col;
    diag.render(source)
}

/// A message followed by a location clause, as the lexer and the parser
/// write their errors.
pub open spec fn with_location(m: Seq<char>, line: nat, column: nat) -> Seq<char> {
    m + " at line "@ + decimal(line) + ", column "@ + decimal(column)
}

/// Whether `parse_error_location` finds both a line and a column in `msg`.
pub open spec fn has_position(msg: Seq<char>) -> bool {
    error_location(msg).1 is Some && error_location(msg).2 is Some
}

/// Whether `msg` ends in a location clause that `parse_error_location`
/// finds and takes apart: the message is the text it gives back followed
/// by the line and column it gives back.
pub open spec fn locatable(msg: Seq<char>) -> bool {
    let (text, line, column) = error_location(msg);
    &&& line is Some
    &&& column is Some
    &&& msg == with_location(text, line->0 as nat, column->0 as nat)
}

/// Whether `s` holds a space followed by `at` at index `i`.
pub open spec fn space_at(s: Seq<char>, i: int) -> bool {
    0 <= i && i + 2 < s.len() && s[i] == ' ' && s[i + 1] == 'a' && s[i + 2] == 't'
}

/// A message text that holds no location marker of its own: no space
/// followed by `at`, and no ending ` starting`.
pub open spec fn marker_free(m: Seq<char>) -> bool {
    &&& forall|i: int| !#[trigger] space_at(m, i)
    &&& !(m.len() >= 9 && m.skip(m.len() - 9) == " starting"@)
}

/// After a text and before a tail with no space followed by `at`, the
/// location clause holds the only space followed by `at`: the one that
/// starts it.
proof fn lemma_only_marker(m: Seq<char>, line: nat, column: nat, suf: Seq<char>, j: int)
    requires
        forall|i: int| !#[trigger] space_at(m, i),
        forall|i: int| !#[trigger] space_at(suf, i),
        space_at(with_location(m, line, column) + suf, j),
    ensures
        j == m.len(),
{
    reveal_strlit(" at line ");
    reveal_strlit(", column ");
    lemma_decimal_value(line);
    lemma_decimal_value(column);
    let msg = with_location(m, line, column) + suf;
    let n = m.len() as int;
    let d1 = decimal(line);
    let d2 = decimal(column);
    let a = n + 9;
    let b = a + d1.len();
    let c = b + 9;
    let e = c + d2.len();
    assert(msg.len() == e + suf.len());
    if j + 2 < n {
        assert(msg[j] == m[j] && msg[j + 1] == m[j + 1] && msg[j + 2] == m[j + 2]);
        assert(space_at(m, j));
    } else if j < n {
        assert(msg[n] == ' ');
        assert(msg[j + 1] == m[j + 1] || j + 1 == n);
    } else if j < a {
        assert(msg[j] == " at line "@[j - n]);
        assert(msg[j + 1] == (" at line "@ + d1)[j + 1 - n]);
        if j > n && j + 1 < a {
            assert(msg[j + 1] == " at line "@[j + 1 - n]);
        } else if j + 1 == a {
            assert(msg[j + 1] == d1[0]);
            assert(is_ascii_digit(d1[0]));
        }
    } else if j < b {
        assert(msg[j] == d1[j - a]);
        assert(is_ascii_digit(d1[j - a]));
    } else if j < c {
        assert(msg[j] == ", column "@[j - b]);
        if j + 1 < c {
            assert(msg[j + 1] == ", column "@[j + 1 - b]);
        } else {
            assert(msg[j + 1] == d2[0]);
            assert(is_ascii_digit(d2[0]));
        }
    } else if j < e {
        assert(msg[j] == d2[j - c]);
        assert(is_ascii_digit(d2[j - c]));
    } else {
        assert(msg[j] == suf[j - e] && msg[j + 1] == suf[j + 1 - e] && msg[j + 2] == suf[j + 2 - e]);
        assert(space_at(suf, j - e));
    }
}

/// What `parse_error_location` gives for a message whose first marker
/// starts at `start` and is `mlen` long, followed by the line's digits,
/// `, column `, the column's digits and a tail that does not start with a
/// digit: the text before the marker with the tail, the line and the
/// column.
proof fn lemma_clause_parsed(
    msg: Seq<char>,
    start: int,
    mlen: int,
    line: nat,
    column: nat,
    suf: Seq<char>,
)
    requires
        location_marker(msg) == Some((start, mlen)),
        0 <= start,
        0 <= mlen,
        start + mlen <= msg.len(),
        msg.skip(start + mlen) == decimal(line) + ", column "@ + decimal(column) + suf,
        suf.len() == 0 || !is_ascii_digit(suf[0]),
        line <= usize::MAX,
        column <= usize::MAX,
    ensures
        error_location(msg) == (msg.take(start) + suf, Some(line as usize), Some(column as usize)),
{
    reveal_strlit(", column ");
    let dl = decimal(line);
    let dc = decimal(column);
    lemma_decimal_value(line);
    lemma_decimal_value(column);
    let rest = msg.skip(start + mlen);
    assert(rest =~= dl + (", column "@ + dc + suf));
    lemma_leading_digits_concat(dl, ", column "@ + dc + suf);
    assert(rest.take(dl.len() as int) =~= dl);
    let after = rest.skip(dl.len() as int);
    assert(after =~= ", column "@ + dc + suf);
    assert(after.take(9) =~= ", column "@);
    let col_rest = after.skip(9);
    assert(col_rest =~= dc + suf);
    lemma_leading_digits_concat(dc, suf);
    assert(col_rest.take(dc.len() as int) =~= dc);
    assert(col_rest.skip(dc.len() as int) =~= suf);
}

/// A marker-free text followed by a location clause gives back, when its
/// location is parsed, the text, the line and the column.
pub proof fn lemma_marker_free_round_trip(m: Seq<char>, line: nat, column: nat)
    requires
        marker_free(m),
        line <= usize::MAX,
        column <= usize::MAX,
    ensures
        error_location(with_location(m, line, column)) == (m, Some(line as usize), Some(
            column as usize,
        )),
{
    assert(forall|i: int| !#[trigger] space_at(Seq::<char>::empty(), i));
    lemma_tail_round_trip(m, line, column, seq![]);
    assert(with_location(m, line, column) + Seq::<char>::empty() =~= with_location(m, line, column));
    assert(m + Seq::<char>::empty() =~= m);
}

/// A marker-free text, a location clause and a tail with no space followed
/// by `at` that does not start with a digit give back, when the location
/// is parsed, the text with the tail, the line and the column.
pub proof fn lemma_tail_round_trip(m: Seq<char>, line: nat, column: nat, suf: Seq<char>)
    requires
        marker_free(m),
        forall|i: int| !#[trigger] space_at(suf, i),
        suf.len() == 0 || !is_ascii_digit(suf[0]),
        line <= usize::MAX,
        column <= usize::MAX,
    ensures
        error_location(with_location(m, line, column) + suf) == (m + suf, Some(line as usize), Some(
            column as usize,
        )),
{
    reveal_strlit(" at line ");
    reveal_strlit(" starting at line ");
    reveal_strlit(" starting");
    let msg = with_location(m, line, column) + suf;
    let n = m.len() as int;
    assert(msg.subrange(n, n + 9) =~= " at line "@);
    assert forall|i: int| 0 <= i < n implies !#[trigger] occurs_at(msg, " at line "@, i) by {
        if occurs_at(msg, " at line "@, i) {
            let w = msg.subrange(i, i + 9);
            assert(w[0] == msg[i] && w[1] == msg[i + 1] && w[2] == msg[i + 2]);
            lemma_only_marker(m, line, column, suf, i);
        }
    }
    lemma_find_from_first(msg, " at line "@, 0, n);
    assert forall|i: int| 0 <= i implies !#[trigger] occurs_at(msg, " starting at line "@, i) by {
        if occurs_at(msg, " starting at line "@, i) {
            let w = msg.subrange(i, i + 18);
            assert(w[9] == msg[i + 9] && w[10] == msg[i + 10] && w[11] == msg[i + 11]);
            lemma_only_marker(m, line, column, suf, i + 9);
            assert(m.skip(n - 9) =~= w.take(9));
            assert(w.take(9) =~= " starting"@);
        }
    }
    lemma_find_from_none(msg, " starting at line "@, 0);
    assert(msg.skip(n + 9) =~= decimal(line) + ", column "@ + decimal(column) + suf);
    assert(msg.take(n) =~= m);
    lemma_clause_parsed(msg, n, 9, line, column, suf);
}

/// A text with no space followed by `at`, then ` starting` and a location
/// clause, gives back, when the location is parsed, the text, the line and
/// the column.
pub proof fn lemma_starting_round_trip(x: Seq<char>, line: nat, column: nat)
    requires
        forall|i: int| !#[trigger] space_at(x, i),
        line <= usize::MAX,
        column <= usize::MAX,
    ensures
        error_location(with_location(x + " starting"@, line, column)) == (x, Some(line as usize), Some(
            column as usize,
        )),
{
    reveal_strlit(" starting at line ");
    reveal_strlit(" starting");
    reveal_strlit(" at line ");
    lemma_decimal_value(line);
    let m = x + " starting"@;
    let msg = with_location(m, line, column);
    let k = x.len() as int;
    assert forall|i: int| !#[trigger] space_at(m, i) by {
        if space_at(m, i) {
            if i + 2 < k {
                assert(m[i] == x[i] && m[i + 1] == x[i + 1] && m[i + 2] == x[i + 2]);
                assert(space_at(x, i));
            } else if i < k {
                assert(m[k] == ' ');
                assert(m[i + 1] == x[i + 1] || i + 1 == k);
            } else {
                assert(m[i] == " starting"@[i - k]);
                assert(m[i + 1] == " starting"@[i + 1 - k]);
            }
        }
    }
    assert(forall|i: int| !#[trigger] space_at(Seq::<char>::empty(), i));
    assert(msg + Seq::<char>::empty() =~= msg);
    assert(msg.subrange(k, k + 18) =~= " starting at line "@);
    assert forall|i: int| 0 <= i < k implies !#[trigger] occurs_at(msg, " starting at line "@, i) by {
        if occurs_at(msg, " starting at line "@, i) {
            let w = msg.subrange(i, i + 18);
            assert(w[9] == msg[i + 9] && w[10] == msg[i + 10] && w[11] == msg[i + 11]);
            lemma_only_marker(m, line, column, seq![], i + 9);
        }
    }
    lemma_find_from_first(msg, " starting at line "@, 0, k);
    assert(msg.skip(k + 18) =~= decimal(line) + ", column "@ + decimal(column) + Seq::<char>::empty());
    assert(msg.take(k) =~= x);
    lemma_clause_parsed(msg, k, 18, line, column, seq![]);
    assert(x + Seq::<char>::empty() =~= x);
}

/// A text whose first ` at line ` is the one a location clause appends,
/// with no ` starting at line ` up to there, followed by the clause and a
/// tail without ` starting at line ` that does not start with a digit,
/// gives back, when its location is parsed, the text with the tail, the
/// line and the column.
pub proof fn lemma_clause_round_trip(p: Seq<char>, line: nat, column: nat, suf: Seq<char>)
    requires
        find(p + " at line "@, " at line "@) == Some(p.len() as int),
        find(p + " at line "@, " starting at line "@) is None,
        find(suf, " starting at line "@) is None,
        suf.len() == 0 || !is_ascii_digit(suf[0]),
        line <= usize::MAX,
        column <= usize::MAX,
    ensures
        error_location(with_location(p, line, column) + suf) == (p + suf, Some(line as usize), Some(
            column as usize,
        )),
{
    reveal_strlit(" at line ");
    reveal_strlit(" starting at line ");
    reveal_strlit(", column ");
    lemma_decimal_value(line);
    lemma_decimal_value(column);
    let pat = " starting at line "@;
    let h = p + " at line "@;
    let d1 = decimal(line);
    let d2 = decimal(column);
    let msg = with_location(p, line, column) + suf;
    let a = h.len() as int;
    let b = a + d1.len();
    let c = b + 9;
    let e = c + d2.len();
    assert(msg.len() == e + suf.len());
    assert(forall|k: int| 0 <= k < 18 ==> !is_ascii_digit(#[trigger] pat[k]));
    assert forall|i: int| 0 <= i implies !#[trigger] occurs_at(msg, pat, i) by {
        if occurs_at(msg, pat, i) {
            let w = msg.subrange(i, i + 18);
            if i + 18 <= a {
                assert(h.subrange(i, i + 18) =~= w);
                lemma_find_from_reaches(h, pat, 0, i);
            } else if i >= e {
                assert(suf.subrange(i - e, i - e + 18) =~= w);
                lemma_find_from_reaches(suf, pat, 0, i - e);
            } else if i < a {
                assert(w[a - i] == msg[a]);
                assert(msg[a] == d1[0]);
                assert(is_ascii_digit(d1[0]));
            } else if i < b {
                assert(w[0] == d1[i - a]);
                assert(is_ascii_digit(d1[i - a]));
            } else if i < c {
                assert(w[c - i] == msg[c]);
                assert(msg[c] == d2[0]);
                assert(is_ascii_digit(d2[0]));
            } else {
                assert(w[0] == d2[i - c]);
                assert(is_ascii_digit(d2[i - c]));
            }
        }
    }
    lemma_find_from_none(msg, pat, 0);
    let n = p.len() as int;
    lemma_find_from_bound(h, " at line "@, 0);
    assert(msg.subrange(n, n + 9) =~= h.subrange(n, n + 9));
    assert forall|i: int| 0 <= i < n implies !#[trigger] occurs_at(msg, " at line "@, i) by {
        if occurs_at(msg, " at line "@, i) {
            assert(h.subrange(i, i + 9) =~= msg.subrange(i, i + 9));
            lemma_find_from_reaches(h, " at line "@, 0, i);
        }
    }
    lemma_find_from_first(msg, " at line "@, 0, n);
    assert(msg.skip(n + 9) =~= d1 + ", column "@ + d2 + suf);
    assert(msg.take(n) =~= p);
    lemma_clause_parsed(msg, n, 9, line, column, suf);
}

/// `render_error` renders what `Diagnostic::render` renders for the
/// diagnostic built from the parsed message: its text, line and column,
/// with a caret one character long.
pub proof fn lemma_render_error_is_render(file: Seq<char>, source: Seq<char>, msg: Seq<char>, d: Diagnostic)
    requires
        d.file@ == file,
        d.message@ == error_location(msg).0,
        d.line == error_location(msg).1,
        d.column == error_location(msg).2,
        d.length == 1,
    ensures
        render_text(d.file@, d.message@, d.line, d.column, d.length, source) == render_text(
            file,
            error_location(msg).0,
            error_location(msg).1,
            error_location(msg).2,
            1,
            source,
        ),
{
}

} // verus!
