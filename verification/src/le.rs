//! Integers as bytes, the low byte first.

use vstd::prelude::*;

verus! {

/// The two bytes of a number.
pub open spec fn spec_le16_bytes(value: u16) -> Seq<u8> {
    seq![(value % 256) as u8, (value / 256) as u8]
}

/// The four bytes of a number.
pub open spec fn spec_le32_bytes(value: u32) -> Seq<u8> {
    seq![
        (value % 256) as u8,
        (value / 256 % 256) as u8,
        (value / 65536 % 256) as u8,
        (value / 16777216) as u8,
    ]
}

/// The number in the two bytes from `at` on.
pub open spec fn spec_le16(bytes: Seq<u8>, at: int) -> u16 {
    (bytes[at] + bytes[at + 1] * 256) as u16
}

/// The number in the four bytes from `at` on.
pub open spec fn spec_le32(bytes: Seq<u8>, at: int) -> u32 {
    (bytes[at] + bytes[at + 1] * 256 + bytes[at + 2] * 65536 + bytes[at + 3] * 16777216) as u32
}

/// The signed number with the bits of an unsigned one.
pub open spec fn spec_signed(value: u32) -> i32 {
    if value <= 0x7fff_ffff {
        value as i32
    } else {
        (value - 0x1_0000_0000) as i32
    }
}

/// The unsigned number with the bits of a signed one.
pub open spec fn spec_unsigned(value: i32) -> u32 {
    if value >= 0 {
        value as u32
    } else {
        (value + 0x1_0000_0000) as u32
    }
}

/// A number is the sum of its four bytes, each at its place.
pub proof fn lemma_le32_sum(value: u32)
    ensures
        value % 256 + (value / 256 % 256) * 256 + (value / 65536 % 256) * 65536 + (value
            / 16777216) * 16777216 == value,
        value / 16777216 < 256,
{
}

/// The bytes of a number hold the number.
pub proof fn lemma_le32_round_trip(value: u32)
    ensures
        spec_le32_bytes(value).len() == 4,
        spec_le32(spec_le32_bytes(value), 0) == value,
{
}

/// The bytes of a number hold the number.
pub proof fn lemma_le16_round_trip(value: u16)
    ensures
        spec_le16_bytes(value).len() == 2,
        spec_le16(spec_le16_bytes(value), 0) == value,
{
}

/// A signed number and the unsigned number with its bits stand for each
/// other.
pub proof fn lemma_signed_round_trip(value: i32)
    ensures
        spec_signed(spec_unsigned(value)) == value,
{
}

/// The bits of a signed number as an unsigned one.
pub fn unsigned(value: i32) -> (r: u32)
    ensures
        r == spec_unsigned(value),
{
    let r: u32 = #[verifier::truncate]
    (value as u32);
    assert(value >= 0 ==> value as u32 == value) by (bit_vector);
    assert(value < 0 ==> value as u32 == value + 0x1_0000_0000) by (bit_vector);
    r
}

/// The bits of an unsigned number as a signed one.
pub fn signed(value: u32) -> (r: i32)
    ensures
        r == spec_signed(value),
{
    let r: i32 = #[verifier::truncate]
    (value as i32);
    assert(value <= 0x7fff_ffff ==> value as i32 == value) by (bit_vector);
    assert(value > 0x7fff_ffff ==> value as i32 == value - 0x1_0000_0000) by (bit_vector);
    r
}

/// Reads the number in the two bytes from `at` on.
pub fn read_le16(bytes: &[u8], at: usize) -> (value: u16)
    requires
        at + 2 <= bytes@.len(),
    ensures
        value == spec_le16(bytes@, at as int),
{
    bytes[at] as u16 + bytes[at + 1] as u16 * 256
}

/// Reads the number in the four bytes from `at` on.
pub fn read_le32(bytes: &[u8], at: usize) -> (value: u32)
    requires
        at + 4 <= bytes@.len(),
    ensures
        value == spec_le32(bytes@, at as int),
{
    bytes[at] as u32 + bytes[at + 1] as u32 * 256 + bytes[at + 2] as u32 * 65536 + bytes[at
        + 3] as u32 * 16777216
}

/// Appends the two bytes of a number.
pub fn push_le16(bytes: &mut Vec<u8>, value: u16)
    ensures
        final(bytes)@ == old(bytes)@ + spec_le16_bytes(value),
{
    bytes.push((value % 256) as u8);
    bytes.push((value / 256) as u8);
    assert(bytes@ =~= old(bytes)@ + spec_le16_bytes(value));
}

/// Appends the four bytes of a number.
pub fn push_le32(bytes: &mut Vec<u8>, value: u32)
    ensures
        final(bytes)@ == old(bytes)@ + spec_le32_bytes(value),
{
    bytes.push((value % 256) as u8);
    bytes.push((value / 256 % 256) as u8);
    bytes.push((value / 65536 % 256) as u8);
    bytes.push((value / 16777216) as u8);
    assert(bytes@ =~= old(bytes)@ + spec_le32_bytes(value));
}

/// Appends `count` zero bytes.
pub fn push_zeros(bytes: &mut Vec<u8>, count: usize)
    ensures
        final(bytes)@ == old(bytes)@ + Seq::new(count as nat, |i: int| 0u8),
{
    let mut n: usize = 0;
    while n < count
        invariant
            n <= count,
            bytes@ =~= old(bytes)@ + Seq::new(n as nat, |i: int| 0u8),
        decreases count - n,
    {
        bytes.push(0);
        n = n + 1;
    }
}

/// The eight bytes of a number.
pub open spec fn spec_le64_bytes(value: u64) -> Seq<u8> {
    spec_le32_bytes((value % 0x1_0000_0000) as u32) + spec_le32_bytes(
        (value / 0x1_0000_0000) as u32,
    )
}

/// The number in the eight bytes from `at` on.
pub open spec fn spec_le64(bytes: Seq<u8>, at: int) -> u64 {
    (spec_le32(bytes, at) + spec_le32(bytes, at + 4) * 0x1_0000_0000) as u64
}

/// Reads the number in the eight bytes from `at` on.
pub fn read_le64(bytes: &[u8], at: usize) -> (value: u64)
    requires
        at + 8 <= bytes@.len(),
    ensures
        value == spec_le64(bytes@, at as int),
{
    let _ = bytes.len();
    read_le32(bytes, at) as u64 + read_le32(bytes, at + 4) as u64 * 0x1_0000_0000
}

/// Appends the eight bytes of a number.
pub fn push_le64(bytes: &mut Vec<u8>, value: u64)
    ensures
        final(bytes)@ == old(bytes)@ + spec_le64_bytes(value),
{
    push_le32(bytes, (value % 0x1_0000_0000) as u32);
    push_le32(bytes, (value / 0x1_0000_0000) as u32);
    assert(bytes@ =~= old(bytes)@ + spec_le64_bytes(value));
}

} // verus!
