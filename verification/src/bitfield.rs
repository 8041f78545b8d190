//! Narrow unsigned integers from `arbitrary_int`, used to pick bit fields out of
//! opcodes and register values and to compute nibble and 12-bit carries.
//!
//! Each function here is a thin trusted wrapper around one `arbitrary_int`
//! function; its contract restates what that function computes.

use arbitrary_int::{u12, u4, UInt};
use vstd::prelude::*;

verus! {

/// The mask of the low `bits` bits of a byte, for `1 <= bits <= 7`.
pub open spec fn byte_mask(bits: usize) -> u8 {
    if bits == 1 {
        1
    } else if bits == 2 {
        3
    } else if bits == 3 {
        7
    } else if bits == 4 {
        15
    } else if bits == 5 {
        31
    } else if bits == 6 {
        63
    } else {
        127
    }
}

/// `UInt::<u8, BITS>::extract_u8(value, start_bit).value()`: the `BITS`-bit
/// field of `value` that starts at bit `start_bit`. The outside function panics
/// when the field does not fit in a byte, which `requires` rules out.
#[verifier::external_body]
pub(crate) fn extract_u8<const BITS: usize>(value: u8, start_bit: usize) -> (r: u8)
    requires
        1 <= BITS <= 7,
        start_bit + BITS <= 8,
    ensures
        r == (value >> start_bit as u8) & byte_mask(BITS),
{
    UInt::<u8, BITS>::extract_u8(value, start_bit).value()
}

/// `u4::extract_u16(value, start_bit).value()`: the four bits of `value` that
/// start at bit `start_bit`.
#[verifier::external_body]
pub(crate) fn nibble_of_u16(value: u16, start_bit: usize) -> (r: u8)
    requires
        start_bit + 4 <= 16,
    ensures
        r == ((value >> start_bit as u16) & 0xF) as u8,
{
    u4::extract_u16(value, start_bit).value()
}

/// `u12::extract_u16(value, start_bit).value()`: the twelve bits of `value`
/// that start at bit `start_bit`.
#[verifier::external_body]
pub(crate) fn twelve_bits_of_u16(value: u16, start_bit: usize) -> (r: u16)
    requires
        start_bit + 12 <= 16,
    ensures
        r == (value >> start_bit as u16) & 0xFFF,
{
    u12::extract_u16(value, start_bit).value()
}

/// `u4::overflowing_add` on the nibbles `a` and `b`: the sum modulo 16 and
/// whether it overflowed four bits. `u4::new` panics above 15.
#[verifier::external_body]
pub(crate) fn nibble_overflowing_add(a: u8, b: u8) -> (r: (u8, bool))
    requires
        a < 16,
        b < 16,
    ensures
        r.0 == (a + b) % 16,
        r.1 == (a + b >= 16),
{
    let (sum, overflow) = u4::new(a).overflowing_add(u4::new(b));
    (sum.value(), overflow)
}

/// `u4::overflowing_sub` on the nibbles `a` and `b`: the difference modulo 16
/// and whether it borrowed. `u4::new` panics above 15.
#[verifier::external_body]
pub(crate) fn nibble_overflowing_sub(a: u8, b: u8) -> (r: (u8, bool))
    requires
        a < 16,
        b < 16,
    ensures
        r.0 == (a + 16 - b) % 16,
        r.1 == (a < b),
{
    let (diff, overflow) = u4::new(a).overflowing_sub(u4::new(b));
    (diff.value(), overflow)
}

/// `u12::overflowing_add` on the 12-bit values `a` and `b`: the sum modulo
/// 4096 and whether it overflowed twelve bits. `u12::new` panics above 4095.
#[verifier::external_body]
pub(crate) fn twelve_bit_overflowing_add(a: u16, b: u16) -> (r: (u16, bool))
    requires
        a < 4096,
        b < 4096,
    ensures
        r.0 == (a + b) % 4096,
        r.1 == (a + b >= 4096),
{
    let (sum, overflow) = u12::new(a).overflowing_add(u12::new(b));
    (sum.value(), overflow)
}

} // verus!
