//! Small bit- and byte-level helpers shared by the whole crate.

use vstd::prelude::*;

verus! {

/// The little-endian 16-bit value formed by a low byte and a high byte.
pub open spec fn spec_to_u16(lo: u8, hi: u8) -> u16 {
    (lo + 256 * hi) as u16
}

/// 16-bit addition that wraps at the top of the 64 KiB address space.
pub open spec fn wrap_add16(a: u16, k: u16) -> u16 {
    if a + k > 0xffff {
        (a + k - 0x10000) as u16
    } else {
        (a + k) as u16
    }
}

/// 16-bit subtraction that wraps at the bottom of the address space.
pub open spec fn wrap_sub16(a: u16, k: u16) -> u16 {
    if a >= k {
        (a - k) as u16
    } else {
        (a + 0x10000 - k) as u16
    }
}

/// 8-bit addition that wraps modulo 256.
pub open spec fn wrap_add8(a: u8, k: u8) -> u8 {
    if a + k > 0xff {
        (a + k - 0x100) as u8
    } else {
        (a + k) as u8
    }
}

/// 8-bit subtraction that wraps modulo 256.
pub open spec fn wrap_sub8(a: u8, k: u8) -> u8 {
    if a >= k {
        (a - k) as u8
    } else {
        (a + 0x100 - k) as u8
    }
}

/// True iff bit `bit` (counted from the least significant end) of `mask` is set.
pub open spec fn spec_bit_set(mask: u8, bit: u8) -> bool {
    (mask >> bit) & 1 == 1
}

/// `val` with bit `bit` forced to `set`, all other bits unchanged.
pub open spec fn spec_set_bit(val: u8, bit: u8, set: bool) -> u8 {
    if set {
        val | (1u8 << bit)
    } else {
        val & !(1u8 << bit)
    }
}

/// Reads the first two bytes of `bytes` as a little-endian 16-bit value.
pub fn to_u16(bytes: &[u8]) -> (r: u16)
    requires
        bytes@.len() >= 2,
    ensures
        r == spec_to_u16(bytes@[0], bytes@[1]),
{
    (bytes[0] as u16) + 256 * (bytes[1] as u16)
}

/// Tests a single bit of a byte.
pub fn test_bit_set(mask: u8, bit: u8) -> (r: bool)
    requires
        bit < 8,
    ensures
        r == spec_bit_set(mask, bit),
{
    (mask >> bit) & 1 == 1
}

/// Sets or clears a single bit of a byte.
pub fn set_bit(val: u8, bit: u8, set: bool) -> (r: u8)
    requires
        bit < 8,
    ensures
        r == spec_set_bit(val, bit, set),
{
    if set {
        val | (1u8 << bit)
    } else {
        val & (!(1u8 << bit))
    }
}

} // verus!
