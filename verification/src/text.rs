use vstd::prelude::*;

verus! {

/// The characters of `s`, in order.
pub fn chars_of(s: &str) -> (v: Vec<char>)
    ensures
        v@ == s@,
{
    let mut v: Vec<char> = Vec::new();
    for c in it: s.chars()
        invariant
            v@ == it.seq().take(it.index() as int),
            it.seq() == s@,
    {
        v.push(c);
    }
    v
}

/// `String::from_iter` over the characters of `v`: the string whose
/// characters are those of `v`, in order.
#[verifier::external_body]
pub(crate) fn string_from_chars(v: &[char]) -> (s: String)
    ensures
        s@ == v@,
{
    v.iter().collect()
}

/// Whether `c` is alphabetic in the Unicode sense (`char::is_alphabetic`).
pub uninterp spec fn unicode_alphabetic(c: char) -> bool;

/// Whether `c` is numeric in the Unicode sense (`char::is_numeric`).
pub uninterp spec fn unicode_numeric(c: char) -> bool;

/// Whether `c` is alphabetic or numeric in the Unicode sense: the
/// definition that `char::is_alphanumeric` documents.
pub open spec fn unicode_alphanumeric(c: char) -> bool {
    unicode_alphabetic(c) || unicode_numeric(c)
}

/// ASCII letters.
pub open spec fn is_ascii_letter(c: char) -> bool {
    ('a' <= c && c <= 'z') || ('A' <= c && c <= 'Z')
}

/// ASCII decimal digits.
pub open spec fn is_ascii_digit(c: char) -> bool {
    '0' <= c && c <= '9'
}

/// `char::is_alphanumeric`: whether `c` is alphabetic or numeric, the
/// Unicode properties named by `unicode_alphabetic` and `unicode_numeric`.
/// On ASCII characters the documentation fixes it to the letters and
/// digits; nothing more of the Unicode tables is stated.
#[verifier::external_body]
pub(crate) fn is_alphanumeric(c: char) -> (b: bool)
    ensures
        b == (unicode_alphabetic(c) || unicode_numeric(c)),
        (c as u32) < 128 ==> (b <==> (is_ascii_letter(c) || is_ascii_digit(c))),
{
    c.is_alphanumeric()
}

/// `char::is_alphabetic`: the Unicode property named by
/// `unicode_alphabetic`. On ASCII characters the documentation fixes it to
/// the letters; nothing more of the Unicode tables is stated.
#[verifier::external_body]
pub(crate) fn is_alphabetic(c: char) -> (b: bool)
    ensures
        b == unicode_alphabetic(c),
        (c as u32) < 128 ==> (b <==> is_ascii_letter(c)),
{
    c.is_alphabetic()
}

/// The character of decimal digit `d`.
pub open spec fn digit_char(d: nat) -> char {
    if d == 0 { '0' }
    else if d == 1 { '1' }
    else if d == 2 { '2' }
    else if d == 3 { '3' }
    else if d == 4 { '4' }
    else if d == 5 { '5' }
    else if d == 6 { '6' }
    else if d == 7 { '7' }
    else if d == 8 { '8' }
    else { '9' }
}

/// The value of decimal digit character `c`.
pub open spec fn digit_value(c: char) -> nat {
    ((c as u32) - ('0' as u32)) as nat
}

/// The decimal representation of `n`, without leading zeros.
pub open spec fn decimal(n: nat) -> Seq<char>
    decreases n,
{
    if n < 10 {
        seq![digit_char(n)]
    } else {
        decimal(n / 10).push(digit_char(n % 10))
    }
}

/// The number that the decimal digits `s` denote (0 for no digits).
pub open spec fn digits_value(s: Seq<char>) -> nat
    decreases s.len(),
{
    if s.len() == 0 {
        0
    } else {
        digits_value(s.drop_last()) * 10 + digit_value(s.last())
    }
}

/// Every character of `s` is an ASCII digit.
pub open spec fn all_digits(s: Seq<char>) -> bool {
    forall|i: int| 0 <= i < s.len() ==> #[trigger] is_ascii_digit(s[i])
}

/// The number of ASCII digits at the start of `s`.
pub open spec fn leading_digits(s: Seq<char>) -> nat
    decreases s.len(),
{
    if s.len() > 0 && is_ascii_digit(s[0]) {
        1 + leading_digits(s.drop_first())
    } else {
        0
    }
}

/// The index of the first `c` in `s`.
pub open spec fn first_index_of(s: Seq<char>, c: char) -> Option<nat>
    decreases s.len(),
{
    if s.len() == 0 {
        None
    } else if s[0] == c {
        Some(0)
    } else {
        match first_index_of(s.drop_first(), c) {
            Some(i) => Some(i + 1),
            None => None,
        }
    }
}

/// Whether `pat` occurs in `s` at index `i`.
pub open spec fn occurs_at(s: Seq<char>, pat: Seq<char>, i: int) -> bool {
    0 <= i && i + pat.len() <= s.len() && s.subrange(i, i + pat.len()) == pat
}

/// The first index at or after `from` where `pat` occurs in `s`.
pub open spec fn find_from(s: Seq<char>, pat: Seq<char>, from: int) -> Option<int>
    decreases s.len() + 1 - from,
{
    if from < 0 || from + pat.len() > s.len() {
        None
    } else if occurs_at(s, pat, from) {
        Some(from)
    } else {
        find_from(s, pat, from + 1)
    }
}

/// The first index where `pat` occurs in `s` (`str::find`).
pub open spec fn find(s: Seq<char>, pat: Seq<char>) -> Option<int> {
    find_from(s, pat, 0)
}

/// `pat` is not found from `from` on when it occurs at no index from
/// there.
pub proof fn lemma_find_from_none(s: Seq<char>, pat: Seq<char>, from: int)
    requires
        forall|i: int| from <= i ==> !#[trigger] occurs_at(s, pat, i),
    ensures
        find_from(s, pat, from) is None,
    decreases s.len() + 1 - from,
{
    if from >= 0 && from + pat.len() <= s.len() {
        lemma_find_from_none(s, pat, from + 1);
    }
}

/// `pat` is found first at `k` when it occurs there and at no index from
/// `from` before it.
pub proof fn lemma_find_from_first(s: Seq<char>, pat: Seq<char>, from: int, k: int)
    requires
        0 <= from <= k,
        occurs_at(s, pat, k),
        forall|i: int| from <= i < k ==> !#[trigger] occurs_at(s, pat, i),
    ensures
        find_from(s, pat, from) == Some(k),
    decreases k - from,
{
    if from < k {
        lemma_find_from_first(s, pat, from + 1, k);
    }
}

pub proof fn lemma_digit_char(d: nat)
    requires
        d < 10,
    ensures
        is_ascii_digit(digit_char(d)),
        digit_value(digit_char(d)) == d,
{
}

pub proof fn lemma_first_index_of(s: Seq<char>, c: char, k: int)
    requires
        0 <= k <= s.len(),
        forall|j: int| 0 <= j < k ==> s[j] != c,
    ensures
        k < s.len() && s[k] == c ==> first_index_of(s, c) == Some(k as nat),
        k == s.len() ==> first_index_of(s, c) is None,
    decreases k,
{
    if k > 0 {
        lemma_first_index_of(s.drop_first(), c, k - 1);
    }
}

pub proof fn lemma_first_index_of_bound(s: Seq<char>, c: char)
    ensures
        first_index_of(s, c) matches Some(i) ==> i < s.len() && s[i as int] == c,
    decreases s.len(),
{
    if s.len() > 0 && s[0] != c {
        lemma_first_index_of_bound(s.drop_first(), c);
    }
}

pub proof fn lemma_find_from_bound(s: Seq<char>, pat: Seq<char>, from: int)
    ensures
        find_from(s, pat, from) matches Some(i) ==> from <= i && i + pat.len() <= s.len()
            && occurs_at(s, pat, i),
    decreases s.len() + 1 - from,
{
    if !(from < 0 || from + pat.len() > s.len()) && !occurs_at(s, pat, from) {
        lemma_find_from_bound(s, pat, from + 1);
    }
}

/// Where `pat` occurs at `i`, searching from `from` finds it at `i` or
/// earlier.
pub proof fn lemma_find_from_reaches(s: Seq<char>, pat: Seq<char>, from: int, i: int)
    requires
        0 <= from <= i,
        occurs_at(s, pat, i),
    ensures
        find_from(s, pat, from) matches Some(k) && k <= i,
    decreases i - from,
{
    if !occurs_at(s, pat, from) {
        lemma_find_from_reaches(s, pat, from + 1, i);
    }
}

/// `pat` occurs in `s` at `i` and nowhere else.
pub open spec fn only_at(s: Seq<char>, pat: Seq<char>, i: int) -> bool {
    &&& occurs_at(s, pat, i)
    &&& forall|j: int| #[trigger] occurs_at(s, pat, j) ==> j == i
}

/// `pat` occurs nowhere in `s`.
pub open spec fn nowhere(s: Seq<char>, pat: Seq<char>) -> bool {
    forall|j: int| !#[trigger] occurs_at(s, pat, j)
}

/// `pat` occurs exactly once in `s`.
pub open spec fn occurs_once(s: Seq<char>, pat: Seq<char>) -> bool {
    exists|i: int| #[trigger] only_at(s, pat, i)
}

/// Whether `pat` is not empty and holds a line break at most as its last
/// character.
pub open spec fn breaks_last(pat: Seq<char>) -> bool {
    &&& pat.len() > 0
    &&& forall|k: int| 0 <= k < pat.len() - 1 ==> #[trigger] pat[k] != '\n'
}

/// The texts `pieces`, one after the other.
pub open spec fn concat_all(pieces: Seq<Seq<char>>) -> Seq<char>
    decreases pieces.len(),
{
    if pieces.len() == 0 {
        seq![]
    } else {
        concat_all(pieces.drop_last()) + pieces.last()
    }
}

/// Whether every one of `pieces` ends with a line break.
pub open spec fn lines_only(pieces: Seq<Seq<char>>) -> bool {
    forall|m: int| 0 <= m < pieces.len() ==> (#[trigger] pieces[m]).len() > 0 && pieces[m].last() == '\n'
}

/// An occurrence of `pat` in `a + b`, where `a` ends with a line break, lies
/// inside `a` or inside `b`.
pub proof fn lemma_occurs_concat(a: Seq<char>, b: Seq<char>, pat: Seq<char>, j: int)
    requires
        a.len() > 0,
        a.last() == '\n',
        breaks_last(pat),
        occurs_at(a + b, pat, j),
    ensures
        occurs_at(a, pat, j) || (j >= a.len() && occurs_at(b, pat, j - a.len())),
{
    let w = (a + b).subrange(j, j + pat.len());
    if j + pat.len() <= a.len() {
        assert(a.subrange(j, j + pat.len()) =~= w);
    } else if j >= a.len() {
        assert(b.subrange(j - a.len(), j - a.len() + pat.len()) =~= w);
    } else {
        let k = a.len() - 1 - j;
        assert(w[k] == a[a.len() - 1]);
        assert(pat[k] != '\n');
    }
}

/// A text made of lines holds `pat` nowhere when none of its lines does.
pub proof fn lemma_nowhere_all(pieces: Seq<Seq<char>>, pat: Seq<char>)
    requires
        lines_only(pieces),
        breaks_last(pat),
        forall|m: int| 0 <= m < pieces.len() ==> nowhere(#[trigger] pieces[m], pat),
    ensures
        nowhere(concat_all(pieces), pat),
    decreases pieces.len(),
{
    if pieces.len() > 0 {
        let front = pieces.drop_last();
        assert forall|m: int| 0 <= m < front.len() implies nowhere(#[trigger] front[m], pat) by {
            assert(front[m] == pieces[m]);
        }
        assert(lines_only(front)) by {
            assert forall|m: int| 0 <= m < front.len() implies (#[trigger] front[m]).len() > 0
                && front[m].last() == '\n' by {
                assert(front[m] == pieces[m]);
            }
        }
        lemma_nowhere_all(front, pat);
        let a = concat_all(front);
        let b = pieces.last();
        assert(b == pieces[pieces.len() - 1]);
        assert(nowhere(b, pat));
        assert forall|j: int| !#[trigger] occurs_at(a + b, pat, j) by {
            if occurs_at(a + b, pat, j) {
                if a.len() == 0 {
                    assert(a + b =~= b);
                } else {
                    lemma_concat_ends(front);
                    lemma_occurs_concat(a, b, pat, j);
                }
            }
        }
    }
}

/// A text made of lines, not empty, ends with a line break.
proof fn lemma_concat_ends(pieces: Seq<Seq<char>>)
    requires
        lines_only(pieces),
        concat_all(pieces).len() > 0,
    ensures
        concat_all(pieces).last() == '\n',
    decreases pieces.len(),
{
    if pieces.len() > 0 {
        let last = pieces.last();
        assert(last == pieces[pieces.len() - 1]);
    }
}

/// A text made of lines holds `pat` exactly once when one of its lines
/// holds it exactly once and no other line holds it.
pub proof fn lemma_once_all(pieces: Seq<Seq<char>>, pat: Seq<char>, n: int, i: int)
    requires
        lines_only(pieces),
        breaks_last(pat),
        0 <= n < pieces.len(),
        only_at(pieces[n], pat, i),
        forall|m: int| 0 <= m < pieces.len() && m != n ==> nowhere(#[trigger] pieces[m], pat),
    ensures
        occurs_once(concat_all(pieces), pat),
    decreases pieces.len(),
{
    let front = pieces.drop_last();
    let a = concat_all(front);
    let b = pieces.last();
    assert(b == pieces[pieces.len() - 1]);
    if n == pieces.len() - 1 {
        if a.len() > 0 {
            lemma_concat_ends(front);
        }
        lemma_nowhere_all(front, pat);
        let k = a.len() + i;
        assert((a + b).subrange(k, k + pat.len()) =~= b.subrange(i, i + pat.len()));
        assert forall|j: int| #[trigger] occurs_at(a + b, pat, j) implies j == k by {
            if a.len() == 0 {
                assert(a + b =~= b);
            } else {
                lemma_occurs_concat(a, b, pat, j);
            }
        }
        assert(only_at(a + b, pat, k));
    } else {
        assert(front[n] == pieces[n]);
        assert forall|m: int| 0 <= m < front.len() && m != n implies nowhere(#[trigger] front[m], pat) by {
            assert(front[m] == pieces[m]);
        }
        assert(lines_only(front)) by {
            assert forall|m: int| 0 <= m < front.len() implies (#[trigger] front[m]).len() > 0
                && front[m].last() == '\n' by {
                assert(front[m] == pieces[m]);
            }
        }
        lemma_once_all(front, pat, n, i);
        let k = choose|k: int| #[trigger] only_at(a, pat, k);
        lemma_concat_ends(front);
        assert(nowhere(b, pat));
        assert((a + b).subrange(k, k + pat.len()) =~= a.subrange(k, k + pat.len()));
        assert forall|j: int| #[trigger] occurs_at(a + b, pat, j) implies j == k by {
            lemma_occurs_concat(a, b, pat, j);
        }
        assert(only_at(a + b, pat, k));
    }
}

/// A text made of pieces holds `pat` when one of its pieces does.
pub proof fn lemma_occurs_all(pieces: Seq<Seq<char>>, pat: Seq<char>, n: int, i: int)
    requires
        0 <= n < pieces.len(),
        occurs_at(pieces[n], pat, i),
    ensures
        exists|k: int| #[trigger] occurs_at(concat_all(pieces), pat, k),
    decreases pieces.len(),
{
    let front = pieces.drop_last();
    let a = concat_all(front);
    let b = pieces.last();
    assert(concat_all(pieces) == a + b);
    if n == pieces.len() - 1 {
        assert(b == pieces[n]);
        let k = a.len() + i;
        assert((a + b).subrange(k, k + pat.len()) =~= b.subrange(i, i + pat.len()));
        assert(occurs_at(a + b, pat, k));
    } else {
        assert(front[n] == pieces[n]);
        lemma_occurs_all(front, pat, n, i);
        let k = choose|k: int| #[trigger] occurs_at(a, pat, k);
        assert((a + b).subrange(k, k + pat.len()) =~= a.subrange(k, k + pat.len()));
        assert(occurs_at(a + b, pat, k));
    }
}

/// Appends the decimal representation of `n` to `out`.
pub fn push_decimal(out: &mut Vec<char>, n: usize)
    ensures
        final(out)@ == old(out)@ + decimal(n as nat),
    decreases n,
{
    if n < 10 {
        proof { lemma_digit_char(n as nat); }
        out.push(digit_to_char(n));
        assert(decimal(n as nat) == seq![digit_char(n as nat)]);
    } else {
        push_decimal(out, n / 10);
        out.push(digit_to_char(n % 10));
    }
}

/// The digit character of `d`.
pub fn digit_to_char(d: usize) -> (c: char)
    requires
        d < 10,
    ensures
        c == digit_char(d as nat),
{
    if d == 0 { '0' }
    else if d == 1 { '1' }
    else if d == 2 { '2' }
    else if d == 3 { '3' }
    else if d == 4 { '4' }
    else if d == 5 { '5' }
    else if d == 6 { '6' }
    else if d == 7 { '7' }
    else if d == 8 { '8' }
    else { '9' }
}

/// The number of characters in the decimal representation of `n`.
pub proof fn lemma_decimal_len(n: nat)
    ensures
        decimal(n).len() >= 1,
        n < 10 ==> decimal(n).len() == 1,
    decreases n,
{
    if n >= 10 {
        lemma_decimal_len(n / 10);
    }
}

/// `str::parse::<usize>` on a run of ASCII digits: the value when it fits
/// in a `usize`, `None` otherwise.
pub fn parse_usize(s: &[char]) -> (r: Option<usize>)
    requires
        s@.len() > 0,
        all_digits(s@),
    ensures
        r is Some <==> digits_value(s@) <= usize::MAX,
        r matches Some(v) ==> v == digits_value(s@),
{
    let mut acc: usize = 0;
    let mut i: usize = 0;
    while i < s.len()
        invariant
            i <= s@.len(),
            all_digits(s@),
            acc == digits_value(s@.take(i as int)),
        decreases s@.len() - i,
    {
        let c = s[i];
        assert(is_ascii_digit(s@[i as int]));
        let d = (c as u32 - '0' as u32) as usize;
        assert(s@.take(i + 1).drop_last() == s@.take(i as int));
        if acc > (usize::MAX - d) / 10 {
            proof { lemma_digits_value_monotone(s@, (i + 1) as int); }
            return None;
        }
        acc = acc * 10 + d;
        i = i + 1;
    }
    assert(s@.take(i as int) == s@);
    Some(acc)
}

/// Digit values only grow as digits are appended.
pub proof fn lemma_digits_value_monotone(s: Seq<char>, k: int)
    requires
        0 <= k <= s.len(),
        all_digits(s),
    ensures
        digits_value(s.take(k)) <= digits_value(s),
    decreases s.len() - k,
{
    if k < s.len() {
        lemma_digits_value_monotone(s, k + 1);
        assert(s.take(k + 1).drop_last() == s.take(k));
        assert(s.take(k + 1).last() == s[k]);
        assert(digits_value(s.take(k + 1)) == digits_value(s.take(k)) * 10 + digit_value(s[k]));
    } else {
        assert(s.take(k) == s);
    }
}

/// The decimal digits of `n` are digits, and read back give `n`.
pub proof fn lemma_decimal_value(n: nat)
    ensures
        all_digits(decimal(n)),
        digits_value(decimal(n)) == n,
        decimal(n).len() >= 1,
    decreases n,
{
    lemma_digit_char(n % 10);
    if n < 10 {
        lemma_digit_char(n);
        assert(decimal(n).drop_last() =~= Seq::<char>::empty());
        assert(digits_value(decimal(n)) == digits_value(Seq::<char>::empty()) * 10 + digit_value(
            digit_char(n),
        ));
    } else {
        lemma_decimal_value(n / 10);
        let d = decimal(n);
        assert(d.drop_last() =~= decimal(n / 10));
        assert(d.last() == digit_char(n % 10));
        assert(digits_value(d) == digits_value(decimal(n / 10)) * 10 + digit_value(digit_char(n % 10)));
        assert((n / 10) * 10 + n % 10 == n);
        assert(all_digits(d)) by {
            assert forall|i: int| 0 <= i < d.len() implies #[trigger] is_ascii_digit(d[i]) by {
                if i < d.len() - 1 {
                    assert(d[i] == decimal(n / 10)[i]);
                }
            }
        }
    }
}

/// The run of digits at the start of `d + s`, when `d` is all digits and
/// `s` does not start with one, is `d`.
pub proof fn lemma_leading_digits_concat(d: Seq<char>, s: Seq<char>)
    requires
        all_digits(d),
        s.len() == 0 || !is_ascii_digit(s[0]),
    ensures
        leading_digits(d + s) == d.len(),
    decreases d.len(),
{
    if d.len() > 0 {
        assert((d + s).drop_first() =~= d.drop_first() + s);
        assert(is_ascii_digit(d[0]));
        lemma_leading_digits_concat(d.drop_first(), s);
    } else {
        assert(d + s =~= s);
    }
}

} // verus!
