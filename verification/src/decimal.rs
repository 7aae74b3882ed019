//! Natural numbers as decimal text.

use vstd::prelude::*;

verus! {

/// The byte of the digit zero.
pub const ZERO: u8 = 48;

pub open spec fn spec_is_digit(byte: u8) -> bool {
    48 <= byte <= 57
}

pub open spec fn spec_all_digits(text: Seq<u8>) -> bool {
    forall|i: int| 0 <= i < text.len() ==> spec_is_digit(#[trigger] text[i])
}

/// The number that a run of digits stands for; the empty run stands for
/// zero.
pub open spec fn spec_value(text: Seq<u8>) -> nat
    decreases text.len(),
{
    if text.len() == 0 {
        0
    } else {
        spec_value(text.drop_last()) * 10 + (text.last() - 48) as nat
    }
}

/// The digits of a number, without leading zeros; zero is one digit.
pub open spec fn spec_decimal(n: nat) -> Seq<u8>
    decreases n,
{
    if n < 10 {
        seq![(48 + n) as u8]
    } else {
        spec_decimal(n / 10).push((48 + n % 10) as u8)
    }
}

/// The digits of a number are digits, there is at least one, and they
/// stand for the number.
pub proof fn lemma_decimal_value(n: nat)
    ensures
        spec_decimal(n).len() >= 1,
        spec_all_digits(spec_decimal(n)),
        spec_value(spec_decimal(n)) == n,
    decreases n,
{
    if n < 10 {
        let text = spec_decimal(n);
        assert(text.drop_last() =~= Seq::<u8>::empty());
        assert(spec_value(text.drop_last()) == 0);
    } else {
        lemma_decimal_value(n / 10);
        let head = spec_decimal(n / 10);
        let text = spec_decimal(n);
        assert(text.drop_last() =~= head);
        assert(text.last() == (48 + n % 10) as u8);
    }
}

/// A run of digits stands for no less than each of its beginnings.
pub proof fn lemma_value_of_prefix(text: Seq<u8>, k: int)
    requires
        0 <= k <= text.len(),
        spec_all_digits(text),
    ensures
        spec_value(text.subrange(0, k)) <= spec_value(text),
    decreases text.len(),
{
    if k == text.len() {
        assert(text.subrange(0, k) =~= text);
    } else {
        let front = text.drop_last();
        assert(front.subrange(0, k) =~= text.subrange(0, k));
        assert(spec_is_digit(text[text.len() - 1]));
        assert forall|i: int| 0 <= i < front.len() implies spec_is_digit(#[trigger] front[i]) by {
            assert(front[i] == text[i]);
        }
        lemma_value_of_prefix(front, k);
    }
}

/// The digits of a number.
pub fn decimal(n: u64) -> (text: Vec<u8>)
    ensures
        text@ == spec_decimal(n as nat),
{
    let mut text: Vec<u8> = Vec::new();
    let mut rest: u64 = n / 10;
    let first: u8 = ZERO + (n % 10) as u8;
    text.insert(0, first);
    assert(text@ =~= seq![first]);
    while rest > 0
        invariant
            spec_decimal(n as nat) =~= (if rest > 0 {
                spec_decimal(rest as nat)
            } else {
                Seq::<u8>::empty()
            }) + text@,
        decreases rest,
    {
        let digit: u8 = ZERO + (rest % 10) as u8;
        let ghost before = text@;
        text.insert(0, digit);
        assert(text@ =~= seq![digit] + before);
        rest = rest / 10;
    }
    text
}

} // verus!
