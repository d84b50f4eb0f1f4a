//! The host's total memory, read from the text of `/proc/meminfo`.
use vstd::prelude::*;
use vstd::string::*;

use crate::distro::{after_first_line, first_line};
use crate::text::{find_char, find_char_in, lemma_find_char, parse_unsigned, parse_unsigned_str};

verus! {

/// A character with the Unicode `White_Space` property
/// (`char::is_whitespace`).
pub open spec fn is_white(c: char) -> bool {
    ||| ('\u{9}' <= c && c <= '\u{d}')
    ||| c == ' '
    ||| c == '\u{85}'
    ||| c == '\u{a0}'
    ||| c == '\u{1680}'
    ||| ('\u{2000}' <= c && c <= '\u{200a}')
    ||| c == '\u{2028}'
    ||| c == '\u{2029}'
    ||| c == '\u{202f}'
    ||| c == '\u{205f}'
    ||| c == '\u{3000}'
}

/// Whether `c` has the Unicode `White_Space` property.
pub fn is_white_char(c: char) -> (r: bool)
    ensures
        r == is_white(c),
{
    ('\u{9}' <= c && c <= '\u{d}') || c == ' ' || c == '\u{85}' || c == '\u{a0}' || c
        == '\u{1680}' || ('\u{2000}' <= c && c <= '\u{200a}') || c == '\u{2028}' || c
        == '\u{2029}' || c == '\u{202f}' || c == '\u{205f}' || c == '\u{3000}'
}

/// The length of the longest prefix of `s` whose characters are white
/// exactly when `white` is false (the run before the first character whose
/// whiteness is `white`).
pub open spec fn run_len(s: Seq<char>, white: bool) -> nat
    decreases s.len(),
{
    if s.len() == 0 {
        0
    } else if is_white(s[0]) == white {
        0
    } else {
        1 + run_len(s.drop_first(), white)
    }
}

/// `s` without its leading white space.
pub open spec fn skip_white(s: Seq<char>) -> Seq<char> {
    s.skip(run_len(s, false) as int)
}

/// The word `s` begins with: the characters before the first white one.
pub open spec fn word(s: Seq<char>) -> Seq<char> {
    s.take(run_len(s, true) as int)
}

/// The value of a `MemTotal:` line: its second whitespace-separated word,
/// when its first one is `MemTotal:`.
pub open spec fn mem_total_value(line: Seq<char>) -> Option<Seq<char>> {
    let a = skip_white(line);
    let first = word(a);
    if first == "MemTotal:"@ {
        let b = skip_white(a.skip(first.len() as int));
        if b.len() > 0 {
            Some(word(b))
        } else {
            None
        }
    } else {
        None
    }
}

/// The total memory (KiB) the text `s` gives, starting from `acc`: the value
/// of its last `MemTotal:` line; none when such a value is not a number that
/// fits in a `usize`.
pub open spec fn mem_total(s: Seq<char>, acc: nat) -> Option<nat>
    decreases s.len(),
{
    if s.len() == 0 {
        Some(acc)
    } else {
        proof {
            lemma_find_char(s, '\n');
        }
        match mem_total_value(first_line(s)) {
            Some(v) => match parse_unsigned(v, usize::MAX as nat) {
                Some(x) => mem_total(after_first_line(s), x),
                None => None,
            },
            None => mem_total(after_first_line(s), acc),
        }
    }
}

/// A `MemTotal:` value that is not a number.
#[derive(Debug, Clone, Copy, PartialEq, Eq, Structural)]
pub enum MemInfoError {
    InvalidNumber,
}

/// `run_len` is where the run ends: every character before it has the other
/// whiteness, and the one at it (if any) has whiteness `white`.
pub proof fn lemma_run_len(s: Seq<char>, white: bool)
    ensures
        run_len(s, white) <= s.len(),
        forall|j: int| 0 <= j < run_len(s, white) ==> is_white(#[trigger] s[j]) != white,
        run_len(s, white) < s.len() ==> is_white(s[run_len(s, white) as int]) == white,
    decreases s.len(),
{
    if s.len() > 0 && is_white(s[0]) != white {
        lemma_run_len(s.drop_first(), white);
        assert forall|j: int| 0 <= j < run_len(s, white) implies is_white(#[trigger] s[j])
            != white by {
            if j > 0 {
                assert(s[j] == s.drop_first()[j - 1]);
            }
        }
    }
}

/// The end of the run of `s[from..to]` (see `run_len`), counted from 0.
fn scan_run(s: &str, from: usize, to: usize, white: bool) -> (r: usize)
    requires
        from <= to <= s@.len(),
    ensures
        r == from + run_len(s@.subrange(from as int, to as int), white),
        from <= r <= to,
{
    let ghost w = s@.subrange(from as int, to as int);
    proof {
        lemma_run_len(w, white);
    }
    let mut i = from;
    while i < to
        invariant
            from <= i <= to <= s@.len(),
            w == s@.subrange(from as int, to as int),
            forall|j: int| 0 <= j < i - from ==> is_white(#[trigger] w[j]) != white,
            run_len(w, white) <= w.len(),
            forall|j: int| 0 <= j < run_len(w, white) ==> is_white(#[trigger] w[j]) != white,
            run_len(w, white) < w.len() ==> is_white(w[run_len(w, white) as int]) == white,
        decreases to - i,
    {
        if is_white_char(s.get_char(i)) == white {
            assert(is_white(w[i - from]) == white);
            return i;
        }
        assert(is_white(w[i - from]) != white);
        i = i + 1;
    }
    i
}

/// The `MemTotal:` value of the line `s[from..to]`: none when the line is
/// not a `MemTotal:` line, an error when its value is not a number that fits.
fn line_mem_total(s: &str, from: usize, to: usize) -> (r: Result<Option<usize>, MemInfoError>)
    requires
        from <= to <= s@.len(),
    ensures
        match mem_total_value(s@.subrange(from as int, to as int)) {
            None => r == Ok::<Option<usize>, MemInfoError>(None),
            Some(v) => match parse_unsigned(v, usize::MAX as nat) {
                Some(x) => r == Ok::<Option<usize>, MemInfoError>(Some(x as usize)),
                None => r == Err::<Option<usize>, MemInfoError>(MemInfoError::InvalidNumber),
            },
        },
{
    let ghost line = s@.subrange(from as int, to as int);
    let a = scan_run(s, from, to, false);
    let ghost sa = s@.subrange(a as int, to as int);
    assert(sa =~= skip_white(line));
    let w1 = scan_run(s, a, to, true);
    let first = s.substring_char(a, w1);
    assert(first@ =~= word(sa));
    if !crate::text::str_equal(first, "MemTotal:") {
        return Ok(None);
    }
    let b = scan_run(s, w1, to, false);
    let ghost sb = s@.subrange(b as int, to as int);
    assert(sa.skip(first@.len() as int) =~= s@.subrange(w1 as int, to as int));
    assert(sb =~= skip_white(sa.skip(first@.len() as int)));
    if b >= to {
        return Ok(None);
    }
    let w2 = scan_run(s, b, to, true);
    let v = s.substring_char(b, w2);
    assert(v@ =~= word(sb));
    match parse_unsigned_str(v, 18446744073709551615) {
        Some(x) => {
            if x <= usize::MAX as u64 {
                Ok(Some(x as usize))
            } else {
                Err(MemInfoError::InvalidNumber)
            }
        },
        None => Err(MemInfoError::InvalidNumber),
    }
}

/// The total memory of the host in MiB, from the text of `/proc/meminfo`:
/// the value (KiB) of its last `MemTotal:` line divided by 1024, or 0 when
/// there is none.
pub fn parse_total_memory(content: &str) -> (r: Result<usize, MemInfoError>)
    ensures
        match r {
            Ok(m) => mem_total(content@, 0) matches Some(t) && m == t / 1024,
            Err(e) => mem_total(content@, 0) is None && e == MemInfoError::InvalidNumber,
        },
{
    let n = content.unicode_len();
    let mut pos: usize = 0;
    let mut total: usize = 0;
    assert(content@.skip(0) =~= content@);
    while pos < n
        invariant
            pos <= n,
            n == content@.len(),
            mem_total(content@, 0) == mem_total(content@.skip(pos as int), total as nat),
        decreases n - pos,
    {
        let ghost rest = content@.skip(pos as int);
        assert(content@.subrange(pos as int, n as int) =~= rest);
        proof {
            lemma_find_char(rest, '\n');
        }
        let nl = find_char_in(content, '\n', pos, n);
        let line_end: usize;
        let next: usize;
        match nl {
            Some(k) => {
                line_end = pos + k;
                next = pos + k + 1;
            },
            None => {
                line_end = n;
                next = n;
            },
        }
        let mut end = line_end;
        if nl.is_some() && line_end > pos && content.get_char(line_end - 1) == '\r' {
            end = line_end - 1;
        }
        let ghost line = content@.subrange(pos as int, end as int);
        assert(line =~= first_line(rest));
        match line_mem_total(content, pos, end) {
            Ok(Some(x)) => {
                total = x;
            },
            Ok(None) => {},
            Err(e) => {
                return Err(e);
            },
        }
        assert(after_first_line(rest) =~= content@.skip(next as int));
        pos = next;
    }
    Ok(total / 1024)
}

} // verus!
