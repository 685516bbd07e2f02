//! The lexer's error messages name a line and a column that the
//! diagnostics find again.

use vstd::prelude::*;
use crate::diagnostics::parser::{
    has_position, space_at, marker_free, lemma_marker_free_round_trip,
    lemma_tail_round_trip, lemma_starting_round_trip,
};
use super::{
    line_col, located, scan, Step, scan_string, scan_triple, scan_raw, lex_from, lemma_scan_progress,
    lemma_line_col_bound,
};

verus! {

/// An error located at an offset that is at most the length of a text
/// shorter than `usize::MAX`: its line and column fit in a `usize`.
proof fn lemma_position_fits(s: Seq<char>, pos: nat)
    requires
        pos <= s.len(),
        s.len() < usize::MAX,
    ensures
        line_col(s, pos).0 <= usize::MAX,
        line_col(s, pos).1 <= usize::MAX,
{
    lemma_line_col_bound(s, pos);
}

/// `msg` located at `pos` names a position, when `msg` is marker-free.
proof fn lemma_plain_found(msg: Seq<char>, s: Seq<char>, pos: nat)
    requires
        marker_free(msg),
        pos <= s.len(),
        s.len() < usize::MAX,
    ensures
        has_position(located(msg, s, pos)),
{
    lemma_position_fits(s, pos);
    lemma_marker_free_round_trip(msg, line_col(s, pos).0, line_col(s, pos).1);
}

/// `x` followed by ` starting`, located at `pos`, names a position.
proof fn lemma_starting_found(x: Seq<char>, s: Seq<char>, pos: nat)
    requires
        forall|i: int| !#[trigger] space_at(x, i),
        pos <= s.len(),
        s.len() < usize::MAX,
    ensures
        has_position(located(x + " starting"@, s, pos)),
{
    lemma_position_fits(s, pos);
    lemma_starting_round_trip(x, line_col(s, pos).0, line_col(s, pos).1);
}

/// The errors that the scanning of strings and comments reports name a
/// position.
proof fn lemma_fixed_messages_found(s: Seq<char>, pos: nat)
    requires
        pos <= s.len(),
        s.len() < usize::MAX,
    ensures
        has_position(located("Unterminated string starting"@, s, pos)),
        has_position(located("Unterminated multiline string starting"@, s, pos)),
        has_position(located("Unterminated raw string starting"@, s, pos)),
        has_position(located("Unclosed multiline comment starting"@, s, pos)),
        has_position(located("Unexpected end of string"@, s, pos)),
{
    reveal_strlit(" starting");
    reveal_strlit("Unterminated string starting");
    reveal_strlit("Unterminated string");
    reveal_strlit("Unterminated multiline string starting");
    reveal_strlit("Unterminated multiline string");
    reveal_strlit("Unterminated raw string starting");
    reveal_strlit("Unterminated raw string");
    reveal_strlit("Unclosed multiline comment starting");
    reveal_strlit("Unclosed multiline comment");
    reveal_strlit("Unexpected end of string");
    assert("Unterminated string starting"@ =~= "Unterminated string"@ + " starting"@);
    lemma_starting_found("Unterminated string"@, s, pos);
    assert("Unterminated multiline string starting"@ =~= "Unterminated multiline string"@
        + " starting"@);
    lemma_starting_found("Unterminated multiline string"@, s, pos);
    assert("Unterminated raw string starting"@ =~= "Unterminated raw string"@ + " starting"@);
    lemma_starting_found("Unterminated raw string"@, s, pos);
    assert("Unclosed multiline comment starting"@ =~= "Unclosed multiline comment"@
        + " starting"@);
    lemma_starting_found("Unclosed multiline comment"@, s, pos);
    let m = "Unexpected end of string"@;
    if m.len() >= 9 && m.skip(m.len() - 9) == " starting"@ {
        assert(m.skip(m.len() - 9)[0] == m[m.len() - 9]);
    }
    lemma_plain_found(m, s, pos);
}

/// The errors for an unexpected character name a position.
proof fn lemma_character_messages_found(s: Seq<char>, pos: nat, c: char)
    requires
        pos <= s.len(),
        s.len() < usize::MAX,
    ensures
        has_position(located("Unexpected character '&'"@, s, pos) + ". Did you mean '&&'?"@),
        has_position(located("Unexpected character '|'"@, s, pos) + ". Did you mean '||'?"@),
        has_position(located("Unexpected character '"@ + seq![c] + "'"@, s, pos)),
{
    reveal_strlit(" starting");
    reveal_strlit("Unexpected character '&'");
    reveal_strlit("Unexpected character '|'");
    reveal_strlit(". Did you mean '&&'?");
    reveal_strlit(". Did you mean '||'?");
    reveal_strlit("Unexpected character '");
    reveal_strlit("'");
    lemma_position_fits(s, pos);
    let (l, k) = line_col(s, pos);
    let amp = "Unexpected character '&'"@;
    if amp.len() >= 9 && amp.skip(amp.len() - 9) == " starting"@ {
        assert(amp.skip(amp.len() - 9)[8] == amp.last());
    }
    lemma_tail_round_trip(amp, l, k, ". Did you mean '&&'?"@);
    let bar = "Unexpected character '|'"@;
    if bar.len() >= 9 && bar.skip(bar.len() - 9) == " starting"@ {
        assert(bar.skip(bar.len() - 9)[8] == bar.last());
    }
    lemma_tail_round_trip(bar, l, k, ". Did you mean '||'?"@);
    let m = "Unexpected character '"@ + seq![c] + "'"@;
    assert forall|i: int| !#[trigger] space_at(m, i) by {
        if space_at(m, i) {
            if i < 22 {
                assert(m[i] == "Unexpected character '"@[i]);
                if i + 1 < 22 {
                    assert(m[i + 1] == "Unexpected character '"@[i + 1]);
                } else {
                    assert(m[i + 1] == c);
                    assert(m[i + 2] == '\'');
                }
            } else {
                assert(i == 22);
                assert(m[i + 1] == '\'');
            }
        }
    }
    if m.len() >= 9 && m.skip(m.len() - 9) == " starting"@ {
        assert(m.skip(m.len() - 9)[8] == m.last());
    }
    lemma_plain_found(m, s, pos);
}

/// The errors of scanning a quoted string name a position.
proof fn lemma_scan_string_found(s: Seq<char>, start: nat, i: nat)
    requires
        start < s.len(),
        s.len() < usize::MAX,
    ensures
        scan_string(s, start, i) matches Err(m) ==> has_position(m),
    decreases s.len() - i,
{
    if i >= s.len() {
        lemma_fixed_messages_found(s, start);
    } else if s[i as int] == '"' {
    } else if s[i as int] == '\\' {
        if i + 1 >= s.len() {
            lemma_fixed_messages_found(s, i + 1);
        } else {
            lemma_scan_string_found(s, start, i + 2);
        }
    } else {
        lemma_scan_string_found(s, start, i + 1);
    }
}

/// The errors of scanning a triple-quoted string name a position.
proof fn lemma_scan_triple_found(s: Seq<char>, start: nat, i: nat)
    requires
        start < s.len(),
        s.len() < usize::MAX,
    ensures
        scan_triple(s, start, i) matches Err(m) ==> has_position(m),
    decreases s.len() - i,
{
    if i >= s.len() {
        lemma_fixed_messages_found(s, start);
    } else if super::triple_quote_at(s, i) {
    } else if s[i as int] == '\r' {
        let next = if i + 1 < s.len() && s[i + 1 as int] == '\n' { i + 2 } else { i + 1 };
        lemma_scan_triple_found(s, start, next);
    } else if s[i as int] == '\\' {
        if i + 1 >= s.len() {
            lemma_fixed_messages_found(s, i + 1);
        } else {
            lemma_scan_triple_found(s, start, i + 2);
        }
    } else {
        lemma_scan_triple_found(s, start, i + 1);
    }
}

/// The errors of scanning a raw string name a position.
proof fn lemma_scan_raw_found(s: Seq<char>, start: nat, i: nat)
    requires
        start < s.len(),
        s.len() < usize::MAX,
    ensures
        scan_raw(s, start, i) matches Err(m) ==> has_position(m),
    decreases s.len() - i,
{
    if i >= s.len() {
        lemma_fixed_messages_found(s, start);
    } else if s[i as int] == '`' {
    } else if s[i as int] == '\r' {
        let next = if i + 1 < s.len() && s[i + 1 as int] == '\n' { i + 2 } else { i + 1 };
        lemma_scan_raw_found(s, start, next);
    } else {
        lemma_scan_raw_found(s, start, i + 1);
    }
}

/// The error of one lexer step names a position.
proof fn lemma_scan_found(s: Seq<char>, pos: nat)
    requires
        pos < s.len(),
        s.len() < usize::MAX,
    ensures
        scan(s, pos) matches Step::Fail(m) ==> has_position(m),
{
    lemma_fixed_messages_found(s, pos);
    lemma_character_messages_found(s, pos, s[pos as int]);
    lemma_scan_string_found(s, pos, pos + 1);
    lemma_scan_triple_found(s, pos, super::triple_body_start(s, pos));
    lemma_scan_raw_found(s, pos, pos + 1);
}

/// Every lexical error names a line and a column that
/// `parse_error_location` finds again.
pub proof fn lemma_lex_errors_found(s: Seq<char>, pos: nat)
    requires
        s.len() < usize::MAX,
    ensures
        lex_from(s, pos) matches Err(m) ==> has_position(m),
    decreases s.len() - pos,
{
    if pos < s.len() {
        lemma_scan_progress(s, pos);
        lemma_scan_found(s, pos);
        match scan(s, pos) {
            Step::Skip(e) => {
                lemma_lex_errors_found(s, e);
            },
            Step::Emit(_, e) => {
                lemma_lex_errors_found(s, e);
            },
            Step::Fail(_) => {},
        }
    }
}

} // verus!
