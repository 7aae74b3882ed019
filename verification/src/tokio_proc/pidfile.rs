//! The text of the files that record a process id: a decimal number with
//! an optional sign, and nothing else.

use vstd::prelude::*;
use crate::decimal::decimal;
use crate::decimal::lemma_decimal_value;
use crate::decimal::lemma_value_of_prefix;
use crate::decimal::spec_all_digits;
use crate::decimal::spec_decimal;
use crate::decimal::spec_is_digit;
use crate::decimal::spec_value;

verus! {

/// The byte of the minus sign.
pub const MINUS: u8 = 45;

/// The byte of the plus sign.
pub const PLUS: u8 = 43;

/// The digits of a text, after its sign if it has one.
pub open spec fn spec_digits_of(text: Seq<u8>) -> Seq<u8> {
    if text.len() > 0 && (text[0] == MINUS || text[0] == PLUS) {
        text.skip(1)
    } else {
        text
    }
}

/// The process id that a text records: the text is an optional sign and
/// then digits, at least one, for a number that a process id can hold.
pub open spec fn spec_parse_pid(text: Seq<u8>) -> Option<i32> {
    let digits = spec_digits_of(text);
    let value = if text.len() > 0 && text[0] == MINUS {
        -(spec_value(digits) as int)
    } else {
        spec_value(digits) as int
    };
    if digits.len() > 0 && spec_all_digits(digits) && i32::MIN <= value <= i32::MAX {
        Some(value as i32)
    } else {
        None
    }
}

/// The text that records a process id.
pub open spec fn spec_format_pid(pid: i32) -> Seq<u8> {
    if pid < 0 {
        seq![MINUS] + spec_decimal((-(pid as int)) as nat)
    } else {
        spec_decimal(pid as nat)
    }
}

/// Reads the process id that a text records.
pub fn parse_pid(text: &[u8]) -> (pid: Option<i32>)
    ensures
        pid == spec_parse_pid(text@),
{
    let n: usize = text.len();
    if n == 0 {
        return None;
    }
    let first: u8 = text[0];
    let negative: bool = first == MINUS;
    let start: usize = if negative || first == PLUS {
        1
    } else {
        0
    };
    let ghost digits = spec_digits_of(text@);
    assert(digits =~= text@.subrange(start as int, n as int));
    if start == n {
        return None;
    }
    let mut magnitude: i64 = 0;
    let mut i: usize = start;
    while i < n
        invariant
            start <= i <= n,
            n == text@.len(),
            digits == text@.subrange(start as int, n as int),
            digits == spec_digits_of(text@),
            start < n,
            negative == (text@[0] == MINUS),
            spec_all_digits(digits.subrange(0, i - start)),
            magnitude == spec_value(digits.subrange(0, i - start)),
            0 <= magnitude <= 0x8000_0000,
        decreases n - i,
    {
        let byte: u8 = text[i];
        assert(digits[i - start] == byte);
        if byte < 48 || byte > 57 {
            assert(!spec_is_digit(digits[i - start]));
            return None;
        }
        let ghost shorter = digits.subrange(0, i - start);
        let ghost longer = digits.subrange(0, i - start + 1);
        assert(longer.drop_last() =~= shorter);
        assert(longer.last() == byte);
        magnitude = magnitude * 10 + (byte - 48) as i64;
        if magnitude > 0x8000_0000 {
            proof {
                if spec_all_digits(digits) {
                    lemma_value_of_prefix(digits, i - start + 1);
                }
            }
            return None;
        }
        i = i + 1;
    }
    assert(digits.subrange(0, n - start) =~= digits);
    if negative {
        Some((-magnitude) as i32)
    } else if magnitude > 0x7fff_ffff {
        None
    } else {
        Some(magnitude as i32)
    }
}

/// Writes the text that records a process id.
pub fn format_pid(pid: i32) -> (text: Vec<u8>)
    ensures
        text@ == spec_format_pid(pid),
{
    if pid < 0 {
        let magnitude: u64 = (-(pid as i64)) as u64;
        let mut text: Vec<u8> = decimal(magnitude);
        let ghost digits = text@;
        text.insert(0, MINUS);
        assert(text@ =~= seq![MINUS] + digits);
        text
    } else {
        decimal(pid as u64)
    }
}

/// The text that is written for a process id is read back as that id.
pub proof fn lemma_pid_round_trip(pid: i32)
    ensures
        spec_parse_pid(spec_format_pid(pid)) == Some(pid),
{
    let text = spec_format_pid(pid);
    if pid < 0 {
        let n = (-(pid as int)) as nat;
        lemma_decimal_value(n);
        assert(text[0] == MINUS);
        assert(text.skip(1) =~= spec_decimal(n));
    } else {
        let n = pid as nat;
        lemma_decimal_value(n);
        assert(spec_is_digit(text[0]));
    }
}

} // verus!
