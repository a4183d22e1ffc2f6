//! Operator command parsing.
//!
//! One line of operator input is trimmed of surrounding whitespace and
//! interpreted as one of: resume (`continue` / `c`), single-step
//! (`step` / `s`), a breakpoint request (any line whose trimmed text starts
//! with `break`), or an unrecognized command.  A breakpoint request carries
//! its address as the second whitespace-separated token, read as a base-16
//! unsigned 64-bit integer: an optional leading `+`, then one or more hex
//! digits of either case, rejected on overflow.

use vstd::prelude::*;

verus! {

/// One parsed operator command.
#[derive(Clone, Copy, PartialEq, Eq, Structural, Debug)]
pub enum Command {
    /// `continue` / `c`: resume the target unconditionally.
    Resume,
    /// `step` / `s`: advance the target by one machine instruction.
    StepOne,
    /// `break <address>` with a well-formed hexadecimal address.
    SetBreakpoint(u64),
    /// A line starting with `break` whose address is missing or malformed.
    BadBreakpoint,
    /// Anything else.
    Unrecognized,
}

/// The whitespace characters recognized around and between tokens.
pub open spec fn is_space(c: char) -> bool {
    c == ' ' || c == '\t' || c == '\n' || c == '\r' || c == '\u{b}' || c == '\u{c}'
}

fn is_space_char(c: char) -> (r: bool)
    ensures
        r == is_space(c),
{
    c == ' ' || c == '\t' || c == '\n' || c == '\r' || c == '\u{b}' || c == '\u{c}'
}

/// The first index at or after `i` holding a non-space character (or the end).
pub open spec fn skip_spaces(s: Seq<char>, i: int) -> int
    decreases s.len() - i,
{
    if i < s.len() && is_space(s[i]) {
        skip_spaces(s, i + 1)
    } else {
        i
    }
}

/// The first index at or after `i` holding a space character (or the end).
pub open spec fn skip_token(s: Seq<char>, i: int) -> int
    decreases s.len() - i,
{
    if i < s.len() && !is_space(s[i]) {
        skip_token(s, i + 1)
    } else {
        i
    }
}

/// The index after the last space run ending at `i`, scanning leftwards.
pub open spec fn rskip_spaces(s: Seq<char>, i: int) -> int
    decreases i,
{
    if 0 < i <= s.len() && is_space(s[i - 1]) {
        rskip_spaces(s, i - 1)
    } else {
        i
    }
}

/// `s` with surrounding whitespace removed.
pub open spec fn spec_trim(s: Seq<char>) -> Seq<char> {
    let a = skip_spaces(s, 0);
    let b = rskip_spaces(s, s.len() as int);
    if a <= b {
        s.subrange(a, b)
    } else {
        Seq::empty()
    }
}

fn skip_spaces_exec(s: &str, from: usize) -> (r: usize)
    requires
        from <= s@.len(),
    ensures
        r == skip_spaces(s@, from as int),
        from <= r <= s@.len(),
{
    let n = s.unicode_len();
    let mut i: usize = from;
    while i < n && is_space_char(s.get_char(i))
        invariant
            from <= i <= n,
            n == s@.len(),
            skip_spaces(s@, from as int) == skip_spaces(s@, i as int),
        decreases n - i,
    {
        i = i + 1;
    }
    i
}

fn skip_token_exec(s: &str, from: usize) -> (r: usize)
    requires
        from <= s@.len(),
    ensures
        r == skip_token(s@, from as int),
        from <= r <= s@.len(),
{
    let n = s.unicode_len();
    let mut i: usize = from;
    while i < n && !is_space_char(s.get_char(i))
        invariant
            from <= i <= n,
            n == s@.len(),
            skip_token(s@, from as int) == skip_token(s@, i as int),
        decreases n - i,
    {
        i = i + 1;
    }
    i
}

/// Trim surrounding whitespace from a line of operator input.
pub fn trim_str<'a>(s: &'a str) -> (t: &'a str)
    ensures
        t@ == spec_trim(s@),
{
    let n = s.unicode_len();
    let a = skip_spaces_exec(s, 0);
    let mut b: usize = n;
    while b > 0 && is_space_char(s.get_char(b - 1))
        invariant
            0 <= b <= n,
            n == s@.len(),
            rskip_spaces(s@, n as int) == rskip_spaces(s@, b as int),
        decreases b,
    {
        b = b - 1;
    }
    if a <= b {
        s.substring_char(a, b)
    } else {
        let t = s.substring_char(0, 0);
        proof {
            assert(t@ =~= spec_trim(s@));
        }
        t
    }
}

/// Character-wise string equality.
fn str_eq(a: &str, b: &str) -> (r: bool)
    ensures
        r == (a@ == b@),
{
    let na = a.unicode_len();
    let nb = b.unicode_len();
    if na != nb {
        return false;
    }
    let mut i: usize = 0;
    while i < na
        invariant
            0 <= i <= na,
            na == a@.len(),
            na == b@.len(),
            forall|j: int| 0 <= j < i ==> a@[j] == b@[j],
        decreases na - i,
    {
        if a.get_char(i) != b.get_char(i) {
            return false;
        }
        i = i + 1;
    }
    proof {
        assert(a@ =~= b@);
    }
    true
}

/// The value of one hexadecimal digit character, or 16 for a non-digit.
pub open spec fn hex_digit_val(c: char) -> int {
    let v = c as int;
    if 48 <= v && v <= 57 {
        v - 48
    } else if 97 <= v && v <= 102 {
        v - 87
    } else if 65 <= v && v <= 70 {
        v - 55
    } else {
        16
    }
}

pub open spec fn is_hex_digit(c: char) -> bool {
    hex_digit_val(c) < 16
}

fn hex_digit_val_exec(c: char) -> (d: u64)
    ensures
        d == hex_digit_val(c),
{
    let v = c as u32;
    if v >= 48 && v <= 57 {
        (v - 48) as u64
    } else if v >= 97 && v <= 102 {
        (v - 87) as u64
    } else if v >= 65 && v <= 70 {
        (v - 55) as u64
    } else {
        16
    }
}

pub open spec fn all_hex_digits(t: Seq<char>) -> bool {
    forall|i: int| 0 <= i < t.len() ==> is_hex_digit(#[trigger] t[i])
}

/// The numeric value of a sequence of hexadecimal digit characters.
pub open spec fn hex_value(t: Seq<char>) -> int
    decreases t.len(),
{
    if t.len() == 0 {
        0
    } else {
        16 * hex_value(t.drop_last()) + hex_digit_val(t.last())
    }
}

pub proof fn lemma_hex_value_nonneg(t: Seq<char>)
    ensures
        hex_value(t) >= 0,
    decreases t.len(),
{
    if t.len() > 0 {
        lemma_hex_value_nonneg(t.drop_last());
    }
}

/// The value of a digit string dominates the value of each of its prefixes;
/// strictly by a factor of 16 when at least one digit follows the prefix.
pub proof fn lemma_hex_value_prefix_grows(t: Seq<char>, i: int)
    requires
        0 <= i <= t.len(),
    ensures
        hex_value(t) >= hex_value(t.subrange(0, i)),
        i < t.len() ==> hex_value(t) >= 16 * hex_value(t.subrange(0, i)),
    decreases t.len() - i,
{
    if i == t.len() {
        assert(t.subrange(0, i) =~= t);
    } else {
        let head = t.drop_last();
        assert(head.subrange(0, i) =~= t.subrange(0, i));
        lemma_hex_value_prefix_grows(head, i);
        lemma_hex_value_nonneg(head);
        lemma_hex_value_nonneg(t.subrange(0, i));
    }
}

/// The digits of a hexadecimal token: everything after an optional leading `+`.
pub open spec fn hex_token_digits(t: Seq<char>) -> Seq<char> {
    if t.len() > 0 && t[0] == '+' {
        t.subrange(1, t.len() as int)
    } else {
        t
    }
}

/// Whether `t` is a well-formed hexadecimal token: an optional leading `+`,
/// then at least one hexadecimal digit.
pub open spec fn is_hex_token(t: Seq<char>) -> bool {
    hex_token_digits(t).len() > 0 && all_hex_digits(hex_token_digits(t))
}

/// The result of reading `t` as a base-16 unsigned 64-bit integer.
pub open spec fn spec_parse_hex_u64(t: Seq<char>) -> Option<u64> {
    if is_hex_token(t) && hex_value(hex_token_digits(t)) <= u64::MAX {
        Some(hex_value(hex_token_digits(t)) as u64)
    } else {
        None
    }
}

/// Start of the second whitespace-separated token of `s` (or the end of `s`).
pub open spec fn second_token_start(s: Seq<char>) -> int {
    skip_spaces(s, skip_token(s, skip_spaces(s, 0)))
}

/// End of the second whitespace-separated token of `s` (or the end of `s`).
pub open spec fn second_token_end(s: Seq<char>) -> int {
    skip_token(s, second_token_start(s))
}

/// The second whitespace-separated token of `s`; empty when there is none.
pub open spec fn second_token(s: Seq<char>) -> Seq<char> {
    s.subrange(second_token_start(s), second_token_end(s))
}

/// What a breakpoint command line denotes: the address given by its second
/// token, when that token is a well-formed in-range hexadecimal number.
pub open spec fn spec_parse_breakpoint_command(s: Seq<char>) -> Option<u64> {
    spec_parse_hex_u64(second_token(s))
}

fn parse_hex_range(s: &str, from: usize, to: usize) -> (r: Option<u64>)
    requires
        from < to <= s@.len(),
    ensures
        r == spec_parse_hex_u64(s@.subrange(from as int, to as int)),
{
    let ghost tok = s@.subrange(from as int, to as int);
    let mut i: usize = from;
    if s.get_char(i) == '+' {
        i = i + 1;
        proof {
            assert(tok[0] == '+');
            assert(hex_token_digits(tok) =~= s@.subrange(from as int + 1, to as int));
        }
    } else {
        proof {
            assert(tok[0] != '+');
            assert(hex_token_digits(tok) =~= s@.subrange(from as int, to as int));
        }
    }
    let ghost dstart = i as int;
    let ghost digits = s@.subrange(dstart, to as int);
    if i == to {
        proof {
            assert(digits.len() == 0);
        }
        return None;
    }
    let mut v: u64 = 0;
    while i < to
        invariant
            from <= dstart <= i <= to <= s@.len(),
            dstart < to,
            tok == s@.subrange(from as int, to as int),
            digits == s@.subrange(dstart, to as int),
            hex_token_digits(tok) == digits,
            all_hex_digits(s@.subrange(dstart, i as int)),
            v == hex_value(s@.subrange(dstart, i as int)),
        decreases to - i,
    {
        let ch = s.get_char(i);
        let dv = hex_digit_val_exec(ch);
        let ghost pre = s@.subrange(dstart, i as int);
        let ghost pre1 = s@.subrange(dstart, i as int + 1);
        proof {
            assert(pre1.drop_last() =~= pre);
            assert(pre1.last() == s@[i as int]);
        }
        if dv >= 16 {
            proof {
                assert(digits[i - dstart] == s@[i as int]);
                assert(!is_hex_digit(digits[i - dstart]));
            }
            return None;
        }
        if v > 0x0fff_ffff_ffff_ffff {
            proof {
                lemma_hex_value_prefix_grows(digits, i as int + 1 - dstart);
                assert(digits.subrange(0, i as int + 1 - dstart) =~= pre1);
                assert(hex_value(pre1) == 16 * hex_value(pre) + hex_digit_val(s@[i as int]));
                assert(hex_value(digits) >= hex_value(pre1));
                assert(hex_value(digits) > u64::MAX);
            }
            return None;
        }
        v = v * 16 + dv;
        proof {
            assert forall|j: int| 0 <= j < pre1.len() implies is_hex_digit(#[trigger] pre1[j]) by {
                if j < pre.len() {
                    assert(pre1[j] == pre[j]);
                } else {
                    assert(pre1[j] == s@[i as int]);
                }
            }
        }
        i = i + 1;
    }
    proof {
        assert(s@.subrange(dstart, i as int) =~= digits);
        lemma_hex_value_nonneg(digits);
    }
    Some(v)
}

/// Read the breakpoint address out of one breakpoint command line: the
/// second whitespace-separated token, as a base-16 unsigned 64-bit integer.
/// Returns `None` when the token is missing, malformed or out of range.
pub fn parse_breakpoint_command(command: &str) -> (r: Option<u64>)
    ensures
        r == spec_parse_breakpoint_command(command@),
{
    let a = skip_spaces_exec(command, 0);
    let b = skip_token_exec(command, a);
    let c = skip_spaces_exec(command, b);
    let d = skip_token_exec(command, c);
    if c == d {
        proof {
            assert(second_token(command@) =~= Seq::<char>::empty());
        }
        return None;
    }
    parse_hex_range(command, c, d)
}

/// Whether the trimmed command starts with the literal prefix `break`.
pub open spec fn spec_starts_with_break(t: Seq<char>) -> bool {
    t.len() >= 5 && t.subrange(0, 5) == "break"@
}

fn starts_with_break(t: &str) -> (r: bool)
    ensures
        r == spec_starts_with_break(t@),
{
    if t.unicode_len() < 5 {
        false
    } else {
        str_eq(t.substring_char(0, 5), "break")
    }
}

/// The command denoted by one line of operator input.
pub open spec fn spec_command_of(s: Seq<char>) -> Command {
    let t = spec_trim(s);
    if t == "continue"@ || t == "c"@ {
        Command::Resume
    } else if t == "step"@ || t == "s"@ {
        Command::StepOne
    } else if spec_starts_with_break(t) {
        match spec_parse_hex_u64(second_token(t)) {
            Some(a) => Command::SetBreakpoint(a),
            None => Command::BadBreakpoint,
        }
    } else {
        Command::Unrecognized
    }
}

/// Parse one line of operator input, exactly as `spec_command_of` reads it.
pub fn parse_command(line: &str) -> (c: Command)
    ensures
        c == spec_command_of(line@),
{
    let t = trim_str(line);
    if str_eq(t, "continue") || str_eq(t, "c") {
        Command::Resume
    } else if str_eq(t, "step") || str_eq(t, "s") {
        Command::StepOne
    } else if starts_with_break(t) {
        match parse_breakpoint_command(t) {
            Some(a) => Command::SetBreakpoint(a),
            None => Command::BadBreakpoint,
        }
    } else {
        Command::Unrecognized
    }
}

} // verus!
