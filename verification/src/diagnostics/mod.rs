//! Compiler diagnostics in the style of rustc and clang:
//!
//! ```text
//! error: Expected identifier after 'let'
//!   --> file.alya:3:9
//!    |
//!  3 |     let = 10
//!    |         ^
//! ```

pub mod parser;

pub use parser::{parse_error_location, render_error};

use vstd::prelude::*;
use crate::text::{lemma_first_index_of_bound, chars_of, string_from_chars, first_index_of, decimal, push_decimal, lemma_first_index_of, unicode_alphanumeric, is_alphanumeric};

verus! {

/// An error to be shown to the user, optionally anchored at a source position.
#[derive(Debug, Clone, PartialEq, Eq)]
pub struct Diagnostic {
    pub file: String,
    pub message: String,
    pub line: Option<usize>,
    pub column: Option<usize>,
    pub length: usize,
}

/// `t` without one trailing carriage return.
pub open spec fn strip_cr(t: Seq<char>) -> Seq<char> {
    if t.len() > 0 && t.last() == '\r' {
        t.drop_last()
    } else {
        t
    }
}

/// The lines of `s` as `str::lines` yields them: split at `\n`, a `\r`
/// right before a `\n` dropped, no empty line after a final `\n`.
pub open spec fn split_lines(s: Seq<char>) -> Seq<Seq<char>>
    decreases s.len(),
{
    if s.len() == 0 {
        seq![]
    } else {
        proof {
            lemma_first_index_of_bound(s, '\n');
        }
        match first_index_of(s, '\n') {
            None => seq![s],
            Some(i) => seq![strip_cr(s.take(i as int))] + split_lines(s.skip(i + 1 as int)),
        }
    }
}

/// `s` with every tab replaced by four spaces.
pub open spec fn expand_tabs(s: Seq<char>) -> Seq<char>
    decreases s.len(),
{
    if s.len() == 0 {
        seq![]
    } else {
        (if s[0] == '\t' { seq![' ', ' ', ' ', ' '] } else { seq![s[0]] }) + expand_tabs(
            s.drop_first(),
        )
    }
}

/// The on-screen width of `s` when a tab counts four columns.
pub open spec fn visual_width(s: Seq<char>) -> nat
    decreases s.len(),
{
    if s.len() == 0 {
        0
    } else {
        (if s.last() == '\t' { 4nat } else { 1nat }) + visual_width(s.drop_last())
    }
}

/// The number of bytes that `c` takes in UTF-8 (`char::len_utf8`).
pub open spec fn utf8_width(c: char) -> nat {
    if (c as u32) < 0x80 {
        1
    } else if (c as u32) < 0x800 {
        2
    } else if (c as u32) < 0x10000 {
        3
    } else {
        4
    }
}

/// The number of bytes of `s` in UTF-8.
pub open spec fn utf8_len(s: Seq<char>) -> nat
    decreases s.len(),
{
    if s.len() == 0 {
        0
    } else {
        utf8_width(s[0]) + utf8_len(s.drop_first())
    }
}

/// Whether byte offset `b` of `s` in UTF-8 falls between two characters.
pub open spec fn is_char_boundary(s: Seq<char>, b: int) -> bool
    decreases s.len(),
{
    if b == 0 {
        true
    } else if s.len() == 0 || b < 0 {
        false
    } else {
        is_char_boundary(s.drop_first(), b - utf8_width(s[0]))
    }
}

/// The characters of `s` from byte offset `b` on (`&s[b..]`).
pub open spec fn suffix_from_byte(s: Seq<char>, b: int) -> Seq<char>
    decreases s.len(),
{
    if b <= 0 || s.len() == 0 {
        s
    } else {
        suffix_from_byte(s.drop_first(), b - utf8_width(s[0]))
    }
}

/// Characters that the caret underline extends over.
pub open spec fn is_token_char(c: char) -> bool {
    unicode_alphanumeric(c) || c == '_' || c == '+' || c == '-' || c == '*' || c == '/' || c
        == '%' || c == '=' || c == '<' || c == '>' || c == '!' || c == '&' || c == '|'
}

/// The number of token characters at the start of `s`.
pub open spec fn token_run(s: Seq<char>) -> nat
    decreases s.len(),
{
    if s.len() > 0 && is_token_char(s[0]) {
        1 + token_run(s.drop_first())
    } else {
        0
    }
}

/// `n` copies of `c`.
pub open spec fn repeat_char(c: char, n: nat) -> Seq<char> {
    Seq::new(n, |i: int| c)
}

/// The larger of `a` and `b`.
pub open spec fn max_nat(a: nat, b: nat) -> nat {
    if a >= b { a } else { b }
}

/// The caret line under the reported column of `line_str`.
pub open spec fn caret_line(line_str: Seq<char>, column: nat, length: nat, width: nat) -> Seq<char> {
    let upto = if column - 1 <= line_str.len() { (column - 1) as int } else { line_str.len() as int };
    let vis = visual_width(line_str.take(upto));
    let remaining = if column <= utf8_len(line_str) {
        suffix_from_byte(line_str, column - 1)
    } else {
        seq![]
    };
    let len = max_nat(length, max_nat(token_run(remaining), 1));
    " "@ + repeat_char(' ', width) + " | "@ + repeat_char(' ', vis) + repeat_char('^', len)
}

/// What `Diagnostic::render` produces for a diagnostic with these fields,
/// against the source text `source`.
pub open spec fn render_text(
    file: Seq<char>,
    message: Seq<char>,
    line: Option<usize>,
    column: Option<usize>,
    length: usize,
    source: Seq<char>,
) -> Seq<char> {
    let head = "error: "@ + message + "\n"@;
    match line {
        None => head + "  --> "@ + file,
        Some(l) => {
            let col_str = match column {
                Some(c) => ":"@ + decimal(c as nat),
                None => ""@,
            };
            let s = head + "  --> "@ + file + ":"@ + decimal(l as nat) + col_str + "\n"@;
            let lines = split_lines(source);
            if 0 < l <= lines.len() {
                let line_str = lines[l - 1];
                let width = decimal(l as nat).len();
                let s = s + " "@ + repeat_char(' ', width) + " |\n"@;
                let s = s + " "@ + decimal(l as nat) + " | "@ + expand_tabs(line_str) + "\n"@;
                match column {
                    Some(c) => s + caret_line(line_str, c as nat, length as nat, width),
                    None => s,
                }
            } else {
                s
            }
        },
    }
}

/// What rendering needs of its input: a reported column inside a shown
/// line is at least 1 and falls on a character boundary, and the source is
/// small enough that column arithmetic fits in a `usize`.
pub open spec fn render_requires(
    line: Option<usize>,
    column: Option<usize>,
    source: Seq<char>,
) -> bool {
    &&& source.len() <= usize::MAX / 8
    &&& match (line, column) {
        (Some(l), Some(c)) => 0 < l <= split_lines(source).len() ==> {
            let line_str = split_lines(source)[l - 1];
            &&& c >= 1
            &&& c <= utf8_len(line_str) ==> is_char_boundary(line_str, c - 1)
        },
        _ => true,
    }
}

impl Diagnostic {
    /// A diagnostic with no location and an underline of one character.
    pub fn new(file: &str, message: &str) -> (d: Self)
        ensures
            d.file@ == file@,
            d.message@ == message@,
            d.line is None,
            d.column is None,
            d.length == 1,
    {
        Diagnostic {
            file: string_from_chars(chars_of(file).as_slice()),
            message: string_from_chars(chars_of(message).as_slice()),
            line: None,
            column: None,
            length: 1,
        }
    }

    /// The same diagnostic, anchored at `line` and `column`.
    pub fn with_location(self, line: usize, column: usize) -> (d: Self)
        ensures
            d.file == self.file,
            d.message == self.message,
            d.line == Some(line),
            d.column == Some(column),
            d.length == self.length,
    {
        let mut d = self;
        d.line = Some(line);
        d.column = Some(column);
        d
    }

    /// The same diagnostic, underlining at least `length` characters
    /// (never fewer than one).
    pub fn with_length(self, length: usize) -> (d: Self)
        ensures
            d.file == self.file,
            d.message == self.message,
            d.line == self.line,
            d.column == self.column,
            d.length == if length >= 1 { length } else { 1 },
    {
        let mut d = self;
        d.length = if length >= 1 { length } else { 1 };
        d
    }

    /// Renders this diagnostic against the source code it refers to.
    pub fn render(&self, source: &str) -> (out: String)
        requires
            render_requires(self.line, self.column, source@),
        ensures
            out@ == render_text(
                self.file@,
                self.message@,
                self.line,
                self.column,
                self.length,
                source@,
            ),
    {
        let src = chars_of(source);
        let mut out: Vec<char> = Vec::new();
        push_str(&mut out, "error: ");
        push_str(&mut out, self.message.as_str());
        push_str(&mut out, "\n");
        match self.line {
            None => {
                push_str(&mut out, "  --> ");
                push_str(&mut out, self.file.as_str());
            },
            Some(l) => {
                push_str(&mut out, "  --> ");
                push_str(&mut out, self.file.as_str());
                push_str(&mut out, ":");
                push_decimal(&mut out, l);
                match self.column {
                    Some(c) => {
                        push_str(&mut out, ":");
                        push_decimal(&mut out, c);
                    },
                    None => {
                        push_str(&mut out, "");
                    },
                }
                push_str(&mut out, "\n");
                let ghost head = out@;
                if l > 0 {
                    match nth_line(&src, l - 1) {
                        Some(line_str) => {
                            proof {
                                lemma_split_lines_len(src@, (l - 1) as int);
                            }
                            let mut num: Vec<char> = Vec::new();
                            push_decimal(&mut num, l);
                            let width = num.len();
                            push_str(&mut out, " ");
                            push_repeat(&mut out, ' ', width);
                            push_str(&mut out, " |\n");
                            push_str(&mut out, " ");
                            push_chars(&mut out, &num);
                            push_str(&mut out, " | ");
                            push_expanded(&mut out, &line_str);
                            push_str(&mut out, "\n");
                            match self.column {
                                Some(c) => {
                                    push_caret_line(&mut out, &line_str, c, self.length, width);
                                },
                                None => {},
                            }
                        },
                        None => {},
                    }
                }
            },
        }
        string_from_chars(out.as_slice())
    }
}

/// No line is longer than the text it was split from.
pub proof fn lemma_split_lines_len(s: Seq<char>, k: int)
    requires
        0 <= k < split_lines(s).len(),
    ensures
        split_lines(s)[k].len() <= s.len(),
    decreases s.len(),
{
    lemma_first_index_of_bound(s, '\n');
    match first_index_of(s, '\n') {
        None => {},
        Some(i) => {
            if k > 0 {
                lemma_split_lines_len(s.skip(i + 1 as int), k - 1);
            }
        },
    }
}

/// Appends the characters of `s`.
pub fn push_str(out: &mut Vec<char>, s: &str)
    ensures
        final(out)@ == old(out)@ + s@,
{
    let cs = chars_of(s);
    push_chars(out, &cs);
}

/// Appends the characters of `s`.
pub fn push_chars(out: &mut Vec<char>, s: &Vec<char>)
    ensures
        final(out)@ == old(out)@ + s@,
{
    let ghost start = out@;
    let mut i: usize = 0;
    while i < s.len()
        invariant
            i <= s@.len(),
            out@ == start + s@.take(i as int),
        decreases s@.len() - i,
    {
        out.push(s[i]);
        i = i + 1;
        assert(s@.take(i as int) == s@.take(i - 1) + seq![s@[i - 1]]);
    }
    assert(s@.take(i as int) == s@);
}

/// Appends `n` copies of `c`.
pub fn push_repeat(out: &mut Vec<char>, c: char, n: usize)
    ensures
        final(out)@ == old(out)@ + repeat_char(c, n as nat),
{
    let ghost start = out@;
    let mut i: usize = 0;
    while i < n
        invariant
            i <= n,
            out@ == start + repeat_char(c, i as nat),
        decreases n - i,
    {
        out.push(c);
        i = i + 1;
        assert(repeat_char(c, i as nat) == repeat_char(c, (i - 1) as nat).push(c));
    }
}

pub proof fn lemma_expand_tabs_append(s: Seq<char>, c: char)
    ensures
        expand_tabs(s.push(c)) == expand_tabs(s) + (if c == '\t' {
            seq![' ', ' ', ' ', ' ']
        } else {
            seq![c]
        }),
    decreases s.len(),
{
    let tail = if c == '\t' { seq![' ', ' ', ' ', ' '] } else { seq![c] };
    if s.len() == 0 {
        assert(s.push(c).drop_first() == Seq::<char>::empty());
        assert(s.push(c)[0] == c);
        assert(expand_tabs(s.push(c)) == tail + expand_tabs(Seq::<char>::empty()));
        assert(expand_tabs(s.push(c)) =~= expand_tabs(s) + tail);
    } else {
        lemma_expand_tabs_append(s.drop_first(), c);
        assert(s.push(c).drop_first() == s.drop_first().push(c));
        assert(s.push(c)[0] == s[0]);
        let head = if s[0] == '\t' { seq![' ', ' ', ' ', ' '] } else { seq![s[0]] };
        assert(expand_tabs(s.push(c)) == head + expand_tabs(s.drop_first().push(c)));
        assert(expand_tabs(s) == head + expand_tabs(s.drop_first()));
        assert(expand_tabs(s.push(c)) =~= expand_tabs(s) + tail);
    }
}

/// Appends `s` with tabs expanded to four spaces.
pub fn push_expanded(out: &mut Vec<char>, s: &Vec<char>)
    ensures
        final(out)@ == old(out)@ + expand_tabs(s@),
{
    let ghost start = out@;
    let mut i: usize = 0;
    while i < s.len()
        invariant
            i <= s@.len(),
            out@ == start + expand_tabs(s@.take(i as int)),
        decreases s@.len() - i,
    {
        let c = s[i];
        proof {
            lemma_expand_tabs_append(s@.take(i as int), c);
            assert(s@.take(i + 1) == s@.take(i as int).push(c));
        }
        if c == '\t' {
            out.push(' ');
            out.push(' ');
            out.push(' ');
            out.push(' ');
        } else {
            out.push(c);
        }
        i = i + 1;
    }
    assert(s@.take(i as int) == s@);
}

/// Line `n` (counting from 0) of `src`, as `str::lines` splits it.
pub fn nth_line(src: &Vec<char>, n: usize) -> (r: Option<Vec<char>>)
    ensures
        n < split_lines(src@).len() ==> (r matches Some(line) && line@ == split_lines(src@)[n as int]),
        n >= split_lines(src@).len() ==> r is None,
{
    let len = src.len();
    let mut start: usize = 0;
    let mut k: usize = 0;
    assert(src@.skip(0) == src@);
    while start < len
        invariant
            len == src@.len(),
            start <= len,
            k <= n,
            k <= split_lines(src@).len(),
            split_lines(src@).skip(k as int) == split_lines(src@.skip(start as int)),
        decreases len - start,
    {
        let mut j: usize = start;
        while j < len && src[j] != '\n'
            invariant
                start <= j <= len,
                len == src@.len(),
                forall|t: int| start <= t < j ==> src@[t] != '\n',
            decreases len - j,
        {
            j = j + 1;
        }
        let ghost rest = src@.skip(start as int);
        proof {
            assert forall|t: int| 0 <= t < j - start implies rest[t] != '\n' by {
                assert(rest[t] == src@[start + t]);
            }
            lemma_first_index_of(rest, '\n', (j - start) as int);
            if j < len {
                assert(rest[j - start] == src@[j as int]);
                assert(rest.skip(j - start + 1) == src@.skip(j + 1));
                assert(rest.take(j - start) == src@.subrange(start as int, j as int));
            } else {
                assert(rest == src@.subrange(start as int, j as int));
            }
            assert(split_lines(rest).len() >= 1);
            assert(split_lines(src@).skip(k as int)[0] == split_lines(src@)[k as int]);
        }
        if k == n {
            let mut line: Vec<char> = Vec::new();
            let mut t: usize = start;
            while t < j
                invariant
                    start <= t <= j <= len,
                    len == src@.len(),
                    line@ == src@.subrange(start as int, t as int),
                decreases j - t,
            {
                line.push(src[t]);
                t = t + 1;
                assert(line@ == src@.subrange(start as int, t as int));
            }
            if j < len && line.len() > 0 && line[line.len() - 1] == '\r' {
                line.pop();
            }
            return Some(line);
        }
        if j == len {
            assert(split_lines(rest) == seq![rest]);
            return None;
        }
        proof {
            assert(split_lines(src@).skip(k + 1) == split_lines(src@).skip(k as int).drop_first());
        }
        start = j + 1;
        k = k + 1;
    }
    assert(src@.skip(start as int) == Seq::<char>::empty());
    None
}

pub proof fn lemma_visual_width_snoc(s: Seq<char>, c: char)
    ensures
        visual_width(s.push(c)) == visual_width(s) + (if c == '\t' { 4nat } else { 1nat }),
{
    assert(s.push(c).drop_last() == s);
}

pub proof fn lemma_visual_width_bound(s: Seq<char>)
    ensures
        visual_width(s) <= 4 * s.len(),
    decreases s.len(),
{
    if s.len() > 0 {
        lemma_visual_width_bound(s.drop_last());
    }
}

/// The width of the first `upto` characters of `line` as shown on screen.
pub fn visual_column(line: &Vec<char>, upto: usize) -> (w: usize)
    requires
        upto <= line@.len(),
        line@.len() <= usize::MAX / 8,
    ensures
        w == visual_width(line@.take(upto as int)),
{
    let mut w: usize = 0;
    let mut i: usize = 0;
    while i < upto
        invariant
            i <= upto <= line@.len(),
            line@.len() <= usize::MAX / 8,
            w == visual_width(line@.take(i as int)),
        decreases upto - i,
    {
        proof {
            lemma_visual_width_snoc(line@.take(i as int), line@[i as int]);
            assert(line@.take(i + 1) == line@.take(i as int).push(line@[i as int]));
            lemma_visual_width_bound(line@.take(i as int));
        }
        if line[i] == '\t' {
            w = w + 4;
        } else {
            w = w + 1;
        }
        i = i + 1;
    }
    w
}

/// The number of bytes that `c` takes in UTF-8.
pub fn char_utf8_width(c: char) -> (w: usize)
    ensures
        w == utf8_width(c),
{
    let v = c as u32;
    if v < 0x80 {
        1
    } else if v < 0x800 {
        2
    } else if v < 0x10000 {
        3
    } else {
        4
    }
}

pub proof fn lemma_utf8_len_skip(s: Seq<char>, i: int)
    requires
        0 <= i < s.len(),
    ensures
        utf8_len(s.skip(i)) == utf8_width(s[i]) + utf8_len(s.skip(i + 1)),
{
    assert(s.skip(i).drop_first() == s.skip(i + 1));
}

pub proof fn lemma_utf8_len_bound(s: Seq<char>)
    ensures
        utf8_len(s) <= 4 * s.len(),
    decreases s.len(),
{
    if s.len() > 0 {
        lemma_utf8_len_bound(s.drop_first());
    }
}

/// The characters of `line` from byte offset `b` on, when `b` is at most
/// the byte length of `line`; `None` when the line is shorter than `b` bytes.
pub fn suffix_at_byte(line: &Vec<char>, b: usize) -> (r: Option<Vec<char>>)
    requires
        line@.len() <= usize::MAX / 8,
        b <= utf8_len(line@) ==> is_char_boundary(line@, b as int),
    ensures
        b <= utf8_len(line@) ==> (r matches Some(v) && v@ == suffix_from_byte(line@, b as int)),
        b > utf8_len(line@) ==> r is None,
{
    // Walk the characters, tracking how many bytes remain before offset `b`.
    let mut i: usize = 0;
    let mut left: usize = b;
    assert(line@.skip(0) == line@);
    while left > 0 && i < line.len()
        invariant
            i <= line@.len(),
            line@.len() <= usize::MAX / 8,
            left <= b,
            (b <= utf8_len(line@)) == (left <= utf8_len(line@.skip(i as int))),
            b <= utf8_len(line@) ==> is_char_boundary(line@.skip(i as int), left as int),
            b <= utf8_len(line@) ==> suffix_from_byte(line@, b as int) == suffix_from_byte(
                line@.skip(i as int),
                left as int,
            ),
        decreases line@.len() - i,
    {
        let w = char_utf8_width(line[i]);
        proof {
            lemma_utf8_len_skip(line@, i as int);
            assert(line@.skip(i as int)[0] == line@[i as int]);
            assert(line@.skip(i as int).drop_first() == line@.skip(i + 1));
        }
        if w > left {
            assert(!is_char_boundary(line@.skip(i + 1), left - w));
            // `left` is not on a boundary, so `b` was beyond the line or
            // not a boundary; the latter is excluded.
            return None;
        }
        left = left - w;
        i = i + 1;
    }
    if left > 0 {
        assert(line@.skip(i as int) == Seq::<char>::empty());
        assert(!is_char_boundary(line@.skip(i as int), left as int));
        return None;
    }
    let mut v: Vec<char> = Vec::new();
    let mut t: usize = i;
    while t < line.len()
        invariant
            i <= t <= line@.len(),
            v@ == line@.subrange(i as int, t as int),
        decreases line@.len() - t,
    {
        v.push(line[t]);
        t = t + 1;
        assert(v@ == line@.subrange(i as int, t as int));
    }
    proof {
        assert(v@ == line@.skip(i as int));
        lemma_utf8_len_bound(line@.skip(i as int));
    }
    Some(v)
}

/// The number of characters at the start of `s` that the underline covers.
pub fn token_length(s: &Vec<char>) -> (n: usize)
    ensures
        n == token_run(s@),
{
    let mut n: usize = 0;
    assert(s@.skip(0) == s@);
    while n < s.len()
        invariant
            n <= s@.len(),
            token_run(s@) == n + token_run(s@.skip(n as int)),
        decreases s@.len() - n,
    {
        let c = s[n];
        let alnum = is_alphanumeric(c);
        assert(s@.skip(n as int)[0] == c);
        assert(s@.skip(n as int).drop_first() == s@.skip(n + 1));
        if alnum || c == '_' || c == '+' || c == '-' || c == '*' || c == '/' || c == '%' || c
            == '=' || c == '<' || c == '>' || c == '!' || c == '&' || c == '|' {
            n = n + 1;
        } else {
            return n;
        }
    }
    assert(s@.skip(n as int) == Seq::<char>::empty());
    n
}

/// Appends the caret line that underlines `column` of `line_str`.
pub fn push_caret_line(
    out: &mut Vec<char>,
    line_str: &Vec<char>,
    column: usize,
    length: usize,
    width: usize,
)
    requires
        column >= 1,
        line_str@.len() <= usize::MAX / 8,
        column <= utf8_len(line_str@) ==> is_char_boundary(line_str@, column - 1),
    ensures
        final(out)@ == old(out)@ + caret_line(line_str@, column as nat, length as nat, width as nat),
{
    let upto = if column - 1 <= line_str.len() { column - 1 } else { line_str.len() };
    let vis = visual_column(line_str, upto);
    let total = utf8_len_exec(line_str);
    let tok = if column <= total {
        match suffix_at_byte(line_str, column - 1) {
            Some(rest) => token_length(&rest),
            None => 0,
        }
    } else {
        0
    };
    let tok = if tok >= 1 { tok } else { 1 };
    let len = if length >= tok { length } else { tok };
    push_str(out, " ");
    push_repeat(out, ' ', width);
    push_str(out, " | ");
    push_repeat(out, ' ', vis);
    push_repeat(out, '^', len);
}

/// The number of bytes of `s` in UTF-8.
pub fn utf8_len_exec(s: &Vec<char>) -> (n: usize)
    requires
        s@.len() <= usize::MAX / 8,
    ensures
        n == utf8_len(s@),
{
    let mut n: usize = 0;
    let mut i: usize = s.len();
    assert(s@.skip(s@.len() as int) == Seq::<char>::empty());
    while i > 0
        invariant
            i <= s@.len(),
            s@.len() <= usize::MAX / 8,
            n == utf8_len(s@.skip(i as int)),
        decreases i,
    {
        i = i - 1;
        proof {
            lemma_utf8_len_skip(s@, i as int);
            lemma_utf8_len_bound(s@.skip(i as int));
        }
        n = n + char_utf8_width(s[i]);
    }
    assert(s@.skip(0) == s@);
    n
}

} // verus!
