//! Byte-level helpers shared by the register file, the bus and the CPU:
//! splitting and joining 16-bit values, and the half-carry tests that the
//! flag register is built from.

use vstd::prelude::*;

verus! {

/// True when adding `a` and `b` carries out of bit 3 (the half-carry rule
/// for 8-bit additions).
pub open spec fn spec_half_carry_add(a: u8, b: u8) -> bool {
    (a & 0xF) + (b & 0xF) > 0xF
}

/// True when subtracting `b` from `a` borrows into bit 4 (the half-borrow
/// rule for 8-bit subtractions).
pub open spec fn spec_half_borrow_sub(a: u8, b: u8) -> bool {
    (a & 0xF) < (b & 0xF)
}

/// The 16-bit value whose high byte is `higher_byte` and low byte is
/// `lower_byte`.
pub open spec fn spec_concat(lower_byte: u8, higher_byte: u8) -> u16 {
    (higher_byte * 256 + lower_byte) as u16
}

/// Addition on 16-bit values, wrapping modulo 2^16.
pub open spec fn add16(a: u16, b: u16) -> u16 {
    ((a + b) % 0x10000) as u16
}

/// Subtraction on 16-bit values, wrapping modulo 2^16.
pub open spec fn sub16(a: u16, b: u16) -> u16 {
    ((a + 0x10000 - b) % 0x10000) as u16
}

/// Chained wrapping increments collapse to one wrapping addition.
pub proof fn lemma_add16_chain(a: u16)
    ensures
        add16(add16(a, 1), 1) == add16(a, 2),
        add16(add16(add16(a, 1), 1), 1) == add16(a, 3),
{
}

/// The low nibble of a byte is below 0x10 and no greater than the byte.
pub proof fn lemma_low_nibble_bound(a: u8)
    by (bit_vector)
    ensures
        a & 0xF < 0x10,
        a & 0xF <= a,
{
}

/// Whether an 8-bit addition carries from bit 3 into bit 4.
pub fn carry_check_add_8bit(a: u8, b: u8) -> (r: bool)
    ensures
        r == spec_half_carry_add(a, b),
{
    proof {
        lemma_low_nibble_bound(a);
        lemma_low_nibble_bound(b);
    }
    (a & 0xF) + (b & 0xF) > 0xF
}

/// Whether an 8-bit subtraction borrows from bit 4 into bit 3.
pub fn carry_check_sub_8bit(a: u8, b: u8) -> (r: bool)
    ensures
        r == spec_half_borrow_sub(a, b),
{
    (a & 0xF) < (b & 0xF)
}

/// Joins a low and a high byte into one 16-bit value.
pub fn concatenate_bytes(lower_byte: u8, higher_byte: u8) -> (r: u16)
    ensures
        r == spec_concat(lower_byte, higher_byte),
{
    higher_byte as u16 * 256 + lower_byte as u16
}

/// Splits a 16-bit value into its low and high bytes, in that order.
pub fn split_2bytes(bytes: u16) -> (r: (u8, u8))
    ensures
        r.0 == bytes % 256,
        r.1 == bytes / 256,
        spec_concat(r.0, r.1) == bytes,
{
    let low_byte: u8 = (bytes % 256) as u8;
    let high_byte: u8 = (bytes / 256) as u8;
    (low_byte, high_byte)
}

} // verus!
