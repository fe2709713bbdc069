//! The startup handshake: the first line that the backend writes names the
//! port it listens on.
//!
//! The line holds a decimal number between 0 and 65535, optionally preceded by
//! a `+`, and is closed by a line terminator. White space around the number is
//! ignored. Anything else is a failed handshake.

use vstd::prelude::*;
use vstd::std_specs::iter::IteratorSpec;
use crate::decimal::{all_digits, decimal, decimal_denotes, digit_value, digits_value, is_digit};

verus! {

/// Why a handshake line names no port.
#[derive(Clone, Copy, Debug, PartialEq, Eq, Structural)]
pub enum HandshakeError {
    /// The line holds nothing but white space.
    Empty,
    /// The line holds something other than an optional `+` and digits.
    NotNumeric,
    /// The line holds a number above 65535.
    OutOfRange,
}

/// Whether `c` is white space: a character with Unicode's `White_Space`
/// property, which includes the line terminators.
pub open spec fn is_space(c: char) -> bool {
    let v = c as u32;
    ||| 0x09 <= v <= 0x0d
    ||| v == 0x20
    ||| v == 0x85
    ||| v == 0xa0
    ||| v == 0x1680
    ||| 0x2000 <= v <= 0x200a
    ||| v == 0x2028
    ||| v == 0x2029
    ||| v == 0x202f
    ||| v == 0x205f
    ||| v == 0x3000
}

/// Whether every character of `s` is white space.
pub open spec fn all_space(s: Seq<char>) -> bool {
    forall|i: int| 0 <= i < s.len() ==> is_space(#[trigger] s[i])
}

/// `s` without the white space at its start.
pub open spec fn trim_start(s: Seq<char>) -> Seq<char>
    decreases s.len(),
{
    if s.len() > 0 && is_space(s.first()) {
        trim_start(s.drop_first())
    } else {
        s
    }
}

/// `s` without the white space at its end.
pub open spec fn trim_end(s: Seq<char>) -> Seq<char>
    decreases s.len(),
{
    if s.len() > 0 && is_space(s.last()) {
        trim_end(s.drop_last())
    } else {
        s
    }
}

/// `s` without the white space at either end.
pub open spec fn trimmed(s: Seq<char>) -> Seq<char> {
    trim_end(trim_start(s))
}

/// `t` without a leading `+`, if it has one.
pub open spec fn unsigned(t: Seq<char>) -> Seq<char> {
    if t.len() > 0 && t.first() == '+' {
        t.drop_first()
    } else {
        t
    }
}

/// What a handshake line says: the port it names, or why it names none.
pub open spec fn read_port(line: Seq<char>) -> Result<u16, HandshakeError> {
    let number = unsigned(trimmed(line));
    if trimmed(line).len() == 0 {
        Err(HandshakeError::Empty)
    } else if number.len() == 0 || !all_digits(number) {
        Err(HandshakeError::NotNumeric)
    } else if digits_value(number) > 65535 {
        Err(HandshakeError::OutOfRange)
    } else {
        Ok(digits_value(number) as u16)
    }
}

/// Trimming the start skips exactly the white space that leads `s`.
proof fn trim_start_skips(s: Seq<char>, lo: int)
    requires
        0 <= lo <= s.len(),
        forall|i: int| 0 <= i < lo ==> is_space(#[trigger] s[i]),
        lo < s.len() ==> !is_space(s[lo]),
    ensures
        trim_start(s) == s.subrange(lo, s.len() as int),
    decreases lo,
{
    if lo == 0 {
        assert(s.subrange(0, s.len() as int) =~= s);
    } else {
        assert(is_space(s[0]));
        let rest = s.drop_first();
        assert forall|i: int| 0 <= i < lo - 1 implies is_space(#[trigger] rest[i]) by {
            assert(rest[i] == s[i + 1]);
        }
        trim_start_skips(rest, lo - 1);
        assert(rest.subrange(lo - 1, rest.len() as int) =~= s.subrange(lo, s.len() as int));
    }
}

/// Trimming the end drops exactly the white space that closes `s`.
proof fn trim_end_drops(s: Seq<char>, hi: int)
    requires
        0 <= hi <= s.len(),
        forall|i: int| hi <= i < s.len() ==> is_space(#[trigger] s[i]),
        0 < hi ==> !is_space(s[hi - 1]),
    ensures
        trim_end(s) == s.subrange(0, hi),
    decreases s.len() - hi,
{
    if hi == s.len() {
        assert(s.subrange(0, hi) =~= s);
    } else {
        assert(is_space(s[s.len() - 1]));
        let rest = s.drop_last();
        assert forall|i: int| hi <= i < rest.len() implies is_space(#[trigger] rest[i]) by {
            assert(rest[i] == s[i]);
        }
        trim_end_drops(rest, hi);
        assert(rest.subrange(0, hi) =~= s.subrange(0, hi));
    }
}

/// The worth of a string of digits grows by one decimal place with each digit
/// appended.
proof fn digits_value_push(s: Seq<char>, c: char)
    ensures
        digits_value(s.push(c)) == digits_value(s) * 10 + digit_value(c),
{
    assert(s.push(c).drop_last() =~= s);
}

/// Returns whether `c` is white space.
pub fn char_is_space(c: char) -> (space: bool)
    ensures
        space == is_space(c),
{
    let v: u32 = c as u32;
    (0x09 <= v && v <= 0x0d) || v == 0x20 || v == 0x85 || v == 0xa0 || v == 0x1680 || (0x2000 <= v
        && v <= 0x200a) || v == 0x2028 || v == 0x2029 || v == 0x202f || v == 0x205f || v == 0x3000
}

/// Returns the characters of `text`, in order.
fn chars_of(text: &str) -> (chars: Vec<char>)
    ensures
        chars@ == text@,
{
    broadcast use vstd::string::group_string_axioms;

    let mut chars: Vec<char> = Vec::new();
    let mut rest = text.chars();
    loop
        invariant
            chars@ + rest.remaining() == text@,
            rest.decrease() is Some,
        decreases rest.decrease()->0,
    {
        let ghost before = rest.remaining();
        match rest.next() {
            Some(c) => {
                chars.push(c);
                assert(chars@ + rest.remaining() =~= text@) by {
                    assert(before =~= seq![c] + before.drop_first());
                }
            },
            None => {
                assert(chars@ =~= text@);
                return chars;
            },
        }
    }
}

/// Reads the port that a handshake line names.
///
/// Succeeds exactly on a line that, white space at both ends aside, is an
/// optional `+` followed by one or more digits that denote a number up to
/// 65535; the error says which of these the line fails.
pub fn parse_port(line: &str) -> (port: Result<u16, HandshakeError>)
    ensures
        port == read_port(line@),
{
    let chars = chars_of(line);
    let n = chars.len();
    let mut lo: usize = 0;
    while lo < n && char_is_space(chars[lo])
        invariant
            n == chars.len(),
            lo <= n,
            forall|i: int| 0 <= i < lo ==> is_space(#[trigger] chars@[i]),
        decreases n - lo,
    {
        lo += 1;
    }
    let mut hi: usize = n;
    while hi > lo && char_is_space(chars[hi - 1])
        invariant
            n == chars.len(),
            lo <= hi <= n,
            forall|i: int| hi <= i < n ==> is_space(#[trigger] chars@[i]),
        decreases hi - lo,
    {
        hi -= 1;
    }
    let ghost kept = chars@.subrange(lo as int, hi as int);
    proof {
        let tail = chars@.subrange(lo as int, n as int);
        trim_start_skips(chars@, lo as int);
        assert forall|i: int| hi - lo <= i < tail.len() implies is_space(#[trigger] tail[i]) by {
            assert(tail[i] == chars@[lo + i]);
        }
        trim_end_drops(tail, hi - lo);
        assert(tail.subrange(0, hi - lo) =~= kept);
        assert(trimmed(line@) == kept);
    }
    if lo == hi {
        return Err(HandshakeError::Empty);
    }
    let start: usize = if chars[lo] == '+' {
        lo + 1
    } else {
        lo
    };
    let ghost number = chars@.subrange(start as int, hi as int);
    proof {
        assert(kept.first() == chars@[lo as int]);
        assert(kept.drop_first() =~= chars@.subrange(lo + 1, hi as int));
        assert(unsigned(kept) == number);
    }
    if start == hi {
        return Err(HandshakeError::NotNumeric);
    }
    let mut value: u32 = 0;
    let mut at: usize = start;
    while at < hi
        invariant
            start <= at <= hi <= chars.len(),
            number == chars@.subrange(start as int, hi as int),
            trimmed(line@).len() > 0,
            unsigned(trimmed(line@)) == number,
            all_digits(chars@.subrange(start as int, at as int)),
            value <= 65536,
            value == if digits_value(chars@.subrange(start as int, at as int)) > 65535 {
                65536
            } else {
                digits_value(chars@.subrange(start as int, at as int))
            },
        decreases hi - at,
    {
        let v: u32 = chars[at] as u32;
        if v < 48 || v > 57 {
            proof {
                assert(number[at - start] == chars@[at as int]);
                assert(!is_digit(number[at - start]));
            }
            return Err(HandshakeError::NotNumeric);
        }
        proof {
            let seen = chars@.subrange(start as int, at as int);
            let next = chars@.subrange(start as int, at + 1);
            assert(next =~= seen.push(chars@[at as int]));
            digits_value_push(seen, chars@[at as int]);
            assert forall|i: int| 0 <= i < next.len() implies is_digit(#[trigger] next[i]) by {
                if i < seen.len() {
                    assert(next[i] == seen[i]);
                }
            }
        }
        let digit: u32 = v - 48;
        value = if value > 6553 {
            65536
        } else {
            let grown: u32 = value * 10 + digit;
            if grown > 65535 {
                65536
            } else {
                grown
            }
        };
        at += 1;
    }
    proof {
        assert(chars@.subrange(start as int, at as int) == number);
    }
    if value > 65535 {
        Err(HandshakeError::OutOfRange)
    } else {
        Ok(value as u16)
    }
}

/// Appending white space to a string does not change what trimming its end
/// leaves.
proof fn trim_end_ignores_trailing_space(s: Seq<char>, end: Seq<char>)
    requires
        all_space(end),
    ensures
        trim_end(s + end) == trim_end(s),
    decreases end.len(),
{
    if end.len() == 0 {
        assert(s + end =~= s);
    } else {
        let whole = s + end;
        assert(whole.last() == end.last());
        assert(whole.drop_last() =~= s + end.drop_last());
        trim_end_ignores_trailing_space(s, end.drop_last());
    }
}

/// Every port is read back from its own numeral: a line that holds the
/// decimal numeral of `port`, closed by a line terminator or any other white
/// space (or by nothing), names `port`.
pub proof fn numeral_line_names_its_port(port: u16, end: Seq<char>)
    requires
        all_space(end),
    ensures
        read_port(decimal(port as nat) + end) == Ok::<u16, HandshakeError>(port),
{
    let numeral = decimal(port as nat);
    let line = numeral + end;
    decimal_denotes(port as nat);
    assert(is_digit(numeral.first()));
    assert(is_digit(numeral.last()));
    assert(line.first() == numeral.first());
    assert(trim_start(line) == line);
    trim_end_ignores_trailing_space(numeral, end);
    assert(trim_end(numeral) == numeral);
    assert(trimmed(line) == numeral);
    assert(unsigned(numeral) == numeral);
}

/// A line names a port only if, white space at both ends and one leading `+`
/// aside, it is a non-empty string of digits that denotes that port; every
/// other line fails the handshake.
pub proof fn only_numeral_lines_name_a_port(line: Seq<char>)
    ensures
        read_port(line) is Ok <==> {
            let number = unsigned(trimmed(line));
            number.len() > 0 && all_digits(number) && digits_value(number) <= 65535
        },
        read_port(line) matches Ok(port) ==> port == digits_value(unsigned(trimmed(line))),
{
    let t = trimmed(line);
    if t.len() == 0 {
        assert(unsigned(t).len() == 0);
    }
}

} // verus!
