//! Vim-style line ranges for copying log lines: "N,M" or "N:M" (either end
//! may be "$" for the last line), "N-M" where a missing first end is line 1
//! and a missing last end is the last line ("30-", "-15"), "%" for all
//! lines, or "N" for line N alone. Lines are numbered from 1.

use vstd::prelude::*;
use crate::text::{
    char_is_whitespace, concat, decimal, is_digit, owned, parse_unsigned, parse_usize, str_eq, trim, trim_of, trim_start_of,
    trim_end_of, u64_to_string,
};

verus! {

/// One end of a range: "$" is the last line, otherwise a line number.
pub open spec fn position_spec(s: Seq<char>, max_lines: nat) -> Result<nat, Seq<char>> {
    let t = trim_of(s);
    if t == "$"@ {
        Ok(max_lines)
    } else {
        match parse_unsigned(t, usize::MAX as nat) {
            Some(v) => Ok(v),
            None => Err("Invalid line number: "@ + t),
        }
    }
}

/// The characters that separate the two ends of a range.
pub open spec fn is_separator(c: char) -> bool {
    c == ',' || c == ':' || c == '-'
}

/// Index of the first separator of `s`.
pub open spec fn separator_index(s: Seq<char>) -> Option<nat> {
    if exists|i: int| 0 <= i < s.len() && is_separator(s[i]) {
        Some(
            (choose|i: int|
                0 <= i < s.len() && is_separator(s[i]) && forall|j: int| 0 <= j < i ==> !is_separator(s[j])) as nat,
        )
    } else {
        None
    }
}

/// One end of a range: with a '-' separator an empty end stands for
/// `open`, otherwise as `position_spec`.
pub open spec fn end_spec(s: Seq<char>, max_lines: nat, dash: bool, open: nat) -> Result<nat, Seq<char>> {
    if dash && trim_of(s).len() == 0 {
        Ok(open)
    } else {
        position_spec(s, max_lines)
    }
}

/// The smaller of two numbers.
pub open spec fn min_nat(a: nat, b: nat) -> nat {
    if a < b { a } else { b }
}

/// The range an input denotes in a log of `max_lines` lines, as
/// (first, last), or the reason it denotes none.
pub open spec fn line_range_spec(input: Seq<char>, max_lines: nat) -> Result<(nat, nat), Seq<char>> {
    let t = trim_of(input);
    if t.len() == 0 {
        Err("Empty input"@)
    } else if t == "%"@ {
        Ok((1, max_lines))
    } else {
        match separator_index(t) {
            Some(i) => match end_spec(t.take(i as int), max_lines, t[i as int] == '-', 1) {
                Err(e) => Err(e),
                Ok(start) => match end_spec(t.skip((i + 1) as int), max_lines, t[i as int] == '-', max_lines) {
                    Err(e) => Err(e),
                    Ok(end) => if start < 1 {
                        Err("Start line must be >= 1"@)
                    } else if end < start {
                        Err("End line must be >= start line"@)
                    } else if start > max_lines {
                        Err("Start line "@ + decimal(start) + " exceeds total lines "@ + decimal(max_lines))
                    } else {
                        Ok((start, min_nat(end, max_lines)))
                    },
                },
            },
            None => match position_spec(t, max_lines) {
                Err(e) => Err(e),
                Ok(line) => if line < 1 {
                    Err("Line number must be >= 1"@)
                } else if line > max_lines {
                    Err("Start line "@ + decimal(line) + " exceeds total lines "@ + decimal(max_lines))
                } else {
                    Ok((line, line))
                },
            },
        }
    }
}

/// The lines a 1-based inclusive range picks from `logs`.
pub open spec fn line_range_of<T>(logs: Seq<T>, start: nat, end: nat) -> Seq<T> {
    if logs.len() == 0 || start < 1 || end < start || start - 1 >= logs.len() {
        seq![]
    } else {
        logs.subrange(start - 1, min_nat(end, logs.len()) as int)
    }
}

fn parse_position(s: &str, max_lines: usize) -> (r: Result<usize, String>)
    ensures
        match r {
            Ok(v) => position_spec(s@, max_lines as nat) == Ok::<nat, Seq<char>>(v as nat),
            Err(e) => position_spec(s@, max_lines as nat) == Err::<nat, Seq<char>>(e@),
        },
{
    let t = trim(s);
    if str_eq(t, "$") {
        Ok(max_lines)
    } else {
        match parse_usize(t) {
            Some(v) => Ok(v),
            None => Err(concat("Invalid line number: ", t)),
        }
    }
}

fn parse_end(s: &str, max_lines: usize, dash: bool, open: usize) -> (r: Result<usize, String>)
    ensures
        match r {
            Ok(v) => end_spec(s@, max_lines as nat, dash, open as nat) == Ok::<nat, Seq<char>>(v as nat),
            Err(e) => end_spec(s@, max_lines as nat, dash, open as nat) == Err::<nat, Seq<char>>(e@),
        },
{
    if dash && trim(s).is_empty() {
        Ok(open)
    } else {
        parse_position(s, max_lines)
    }
}

fn find_separator(s: &str) -> (r: Option<usize>)
    ensures
        match r {
            Some(i) => separator_index(s@) == Some(i as nat) && i < s@.len(),
            None => separator_index(s@) is None,
        },
{
    let n = s.unicode_len();
    let mut i: usize = 0;
    while i < n
        invariant
            n == s@.len(),
            i <= n,
            forall|j: int| 0 <= j < i ==> !is_separator(s@[j]),
        decreases n - i,
    {
        let c = s.get_char(i);
        if c == ',' || c == ':' || c == '-' {
            proof {
                let k = choose|k: int|
                    0 <= k < s@.len() && is_separator(s@[k]) && forall|j: int| 0 <= j < k ==> !is_separator(s@[j]);
                assert(0 <= i < s@.len() && is_separator(s@[i as int]) && forall|j: int|
                    0 <= j < i ==> !is_separator(s@[j]));
                if k < i {
                } else if k > i {
                    assert(!is_separator(s@[i as int]));
                }
            }
            return Some(i);
        }
        i = i + 1;
    }
    None
}

/// Parses a line range against a log of `max_lines` lines: "N,M" or "N:M"
/// with either end "$" for the last line, "N-M" where either end may be
/// left out ("30-" to the last line, "-15" from line 1), "%" for all
/// lines, or "N" for line N alone. The end of a range is cut down to the
/// last line; a single line must exist.
pub fn parse_line_range(input: &str, max_lines: usize) -> (r: Result<(usize, usize), String>)
    ensures
        match r {
            Ok((a, b)) => line_range_spec(input@, max_lines as nat) == Ok::<(nat, nat), Seq<char>>((a as nat, b as nat)),
            Err(e) => line_range_spec(input@, max_lines as nat) == Err::<(nat, nat), Seq<char>>(e@),
        },
{
    let t = trim(input);
    if t.is_empty() {
        return Err(owned("Empty input"));
    }
    if str_eq(t, "%") {
        return Ok((1, max_lines));
    }
    match find_separator(t) {
        Some(sep) => {
            let n = t.unicode_len();
            let dash = t.get_char(sep) == '-';
            let start_str = t.substring_char(0, sep);
            let end_str = t.substring_char(sep + 1, n);
            assert(start_str@ == t@.take(sep as int));
            assert(end_str@ == t@.skip((sep + 1) as int));
            let start = match parse_end(start_str, max_lines, dash, 1) {
                Ok(v) => v,
                Err(e) => return Err(e),
            };
            let end = match parse_end(end_str, max_lines, dash, max_lines) {
                Ok(v) => v,
                Err(e) => return Err(e),
            };
            if start < 1 {
                return Err(owned("Start line must be >= 1"));
            }
            if end < start {
                return Err(owned("End line must be >= start line"));
            }
            if start > max_lines {
                let a = concat("Start line ", u64_to_string(start as u64).as_str());
                let b = concat(a.as_str(), " exceeds total lines ");
                return Err(concat(b.as_str(), u64_to_string(max_lines as u64).as_str()));
            }
            let end_clamped = if end < max_lines { end } else { max_lines };
            Ok((start, end_clamped))
        },
        None => {
            let line = match parse_position(t, max_lines) {
                Ok(v) => v,
                Err(e) => return Err(e),
            };
            if line < 1 {
                return Err(owned("Line number must be >= 1"));
            }
            if line > max_lines {
                let a = concat("Start line ", u64_to_string(line as u64).as_str());
                let b = concat(a.as_str(), " exceeds total lines ");
                return Err(concat(b.as_str(), u64_to_string(max_lines as u64).as_str()));
            }
            Ok((line, line))
        },
    }
}

/// The lines of a 1-based inclusive range of `logs`; empty when the range
/// starts past the end or is not a range.
pub fn extract_line_range(logs: &[String], start: usize, end: usize) -> (r: Vec<String>)
    ensures
        r@ == line_range_of(logs@, start as nat, end as nat),
{
    if logs.len() == 0 || start < 1 || end < start {
        return Vec::new();
    }
    let start_idx = start - 1;
    let end_idx = if end < logs.len() { end } else { logs.len() };
    if start_idx >= logs.len() {
        return Vec::new();
    }
    let mut r: Vec<String> = Vec::new();
    let mut i = start_idx;
    while i < end_idx
        invariant
            start_idx <= i <= end_idx,
            end_idx <= logs@.len(),
            r@ == logs@.subrange(start_idx as int, i as int),
        decreases end_idx - i,
    {
        r.push(logs[i].clone());
        i = i + 1;
        assert(r@ =~= logs@.subrange(start_idx as int, i as int));
    }
    r
}

/// A range that parses is well formed for its log: it starts at line 1 or
/// later, ends at the last line or earlier, and when the log has lines it
/// does not end before it starts; extracting it from a log of that many
/// lines gives exactly last - first + 1 lines.
pub proof fn law_parsed_range_fits<T>(input: Seq<char>, logs: Seq<T>, first: nat, last: nat)
    requires
        line_range_spec(input, logs.len()) == Ok::<(nat, nat), Seq<char>>((first, last)),
    ensures
        1 <= first,
        last <= logs.len(),
        logs.len() >= 1 ==> first <= last,
        logs.len() >= 1 ==> line_range_of(logs, first, last).len() == last - first + 1,
{
}

/// Whether `s` is a nonempty run of ASCII digits.
pub open spec fn all_digits(s: Seq<char>) -> bool {
    s.len() > 0 && forall|i: int| 0 <= i < s.len() ==> is_digit(#[trigger] s[i])
}

/// One end of a range as written: a run of digits whose value is `v`, or
/// "$" with `v` the last line.
pub open spec fn plain_end(e: Seq<char>, v: nat, max_lines: nat) -> bool {
    ||| all_digits(e) && parse_unsigned(e, usize::MAX as nat) == Some(v)
    ||| e == "$"@ && v == max_lines
}

/// A plain end is left as it is by trimming, holds no separator, and
/// denotes `v`.
proof fn lemma_end_plain(e: Seq<char>, v: nat, max_lines: nat)
    requires
        plain_end(e, v, max_lines),
    ensures
        e.len() > 0,
        !char_is_whitespace(e[0]),
        !char_is_whitespace(e[e.len() - 1]),
        forall|i: int| 0 <= i < e.len() ==> !is_separator(#[trigger] e[i]),
        trim_of(e) == e,
        separator_index(e) is None,
        e != "%"@,
        position_spec(e, max_lines) == Ok::<nat, Seq<char>>(v),
{
    reveal_strlit("$");
    reveal_strlit("%");
    if all_digits(e) {
        assert(is_digit(e[0]));
        assert(is_digit(e[e.len() - 1]));
        assert forall|i: int| 0 <= i < e.len() implies !is_separator(#[trigger] e[i]) by {
            assert(is_digit(e[i]));
        }
        assert(e != "$"@);
    } else {
        assert(e.len() == 1 && e[0] == '$');
    }
    assert(trim_start_of(e) == e);
    assert(trim_end_of(e) == e);
}

/// Blank input is refused.
pub proof fn law_blank_input_refused(input: Seq<char>, max_lines: nat)
    requires
        trim_of(input).len() == 0,
    ensures
        line_range_spec(input, max_lines) == Err::<(nat, nat), Seq<char>>("Empty input"@),
{
}

/// With each end a line number or "$" (the last line): a lone end N is
/// line N alone, accepted exactly when N is a line of the log; "A,B" or
/// "A:B" is accepted exactly when 1 <= A <= B and A is a line of the log,
/// and then gives A and the smaller of B and the last line.
pub proof fn law_number_ranges(a: Seq<char>, b: Seq<char>, sep: char, x: nat, y: nat, max_lines: nat)
    requires
        plain_end(a, x, max_lines),
        plain_end(b, y, max_lines),
        sep == ',' || sep == ':',
    ensures
        line_range_spec(a, max_lines) is Ok <==> 1 <= x <= max_lines,
        1 <= x <= max_lines ==> line_range_spec(a, max_lines) == Ok::<(nat, nat), Seq<char>>((x, x)),
        line_range_spec(a + seq![sep] + b, max_lines) is Ok <==> (1 <= x && x <= y && x <= max_lines),
        (1 <= x && x <= y && x <= max_lines) ==> line_range_spec(a + seq![sep] + b, max_lines) == Ok::<
            (nat, nat),
            Seq<char>,
        >((x, min_nat(y, max_lines))),
{
    reveal_strlit("%");
    lemma_end_plain(a, x, max_lines);
    lemma_end_plain(b, y, max_lines);
    let t = a + seq![sep] + b;
    let k = a.len() as int;
    assert(t[0] == a[0]);
    assert(t[t.len() - 1] == b[b.len() - 1]);
    assert(trim_start_of(t) == t);
    assert(trim_end_of(t) == t);
    assert(t != "%"@) by {
        assert(t.len() >= 3);
    }
    assert(t[k] == sep);
    assert forall|j: int| 0 <= j < k implies !is_separator(#[trigger] t[j]) by {
        assert(t[j] == a[j]);
    }
    let i = choose|i: int| 0 <= i < t.len() && is_separator(t[i]) && forall|j: int| 0 <= j < i ==> !is_separator(t[j]);
    assert(i == k) by {
        if i < k {
            assert(t[i] == a[i]);
        } else if i > k {
            assert(!is_separator(t[k]));
        }
    }
    assert(separator_index(t) == Some(a.len()));
    assert(t.take(k) =~= a);
    assert(t.skip(k + 1) =~= b);
    assert(trim_of(t.take(k)).len() > 0);
    assert(trim_of(t.skip(k + 1)).len() > 0);
}

} // verus!
