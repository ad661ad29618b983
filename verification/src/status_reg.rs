//! The processor status register: seven independent boolean flags packed
//! to and from the 8-bit status byte.
//!
//! Encoding: bit 7 = Negative, bit 6 = Overflow, bit 5 is unused and always
//! reads back as 1, bit 4 = Break, bit 3 = Decimal mode, bit 2 = IRQ disable,
//! bit 1 = Zero, bit 0 = Carry.

use vstd::prelude::*;

use crate::util;

verus! {

/// The seven processor flags.
#[derive(Clone, Copy, Debug, PartialEq, Eq, Structural)]
pub struct ProcessorStatusRegister {
    pub negative: bool,
    pub overflow: bool,
    pub brk: bool,
    pub decimal_mode: bool,
    pub irq_disable: bool,
    pub zero: bool,
    pub carry: bool,
}

/// The status byte that a flag set packs to; the unused bit 5 is always set.
pub open spec fn spec_status_byte(s: ProcessorStatusRegister) -> u8 {
    (0x20 + (if s.negative {
        0x80int
    } else {
        0int
    }) + (if s.overflow {
        0x40int
    } else {
        0int
    }) + (if s.brk {
        0x10int
    } else {
        0int
    }) + (if s.decimal_mode {
        0x08int
    } else {
        0int
    }) + (if s.irq_disable {
        0x04int
    } else {
        0int
    }) + (if s.zero {
        0x02int
    } else {
        0int
    }) + (if s.carry {
        0x01int
    } else {
        0int
    })) as u8
}

/// The flag set encoded by a status byte; bits 5 and the byte's layout follow
/// the encoding above.
pub open spec fn spec_status_from_byte(val: u8) -> ProcessorStatusRegister {
    ProcessorStatusRegister {
        negative: util::spec_bit_set(val, 7),
        overflow: util::spec_bit_set(val, 6),
        brk: util::spec_bit_set(val, 4),
        decimal_mode: util::spec_bit_set(val, 3),
        irq_disable: util::spec_bit_set(val, 2),
        zero: util::spec_bit_set(val, 1),
        carry: util::spec_bit_set(val, 0),
    }
}

impl ProcessorStatusRegister {
    /// Packs the flags into the status byte, with bit 5 set.
    pub fn to_byte(&self) -> (r: u8)
        ensures
            r == spec_status_byte(*self),
    {
        let mut result: u8 = 0x20;
        if self.negative {
            result = result + 0x80;
        }
        if self.overflow {
            result = result + 0x40;
        }
        if self.brk {
            result = result + 0x10;
        }
        if self.decimal_mode {
            result = result + 0x08;
        }
        if self.irq_disable {
            result = result + 0x04;
        }
        if self.zero {
            result = result + 0x02;
        }
        if self.carry {
            result = result + 0x01;
        }
        result
    }

    /// Unpacks a status byte into the seven flags.
    pub fn from_byte(val: u8) -> (r: Self)
        ensures
            r == spec_status_from_byte(val),
    {
        ProcessorStatusRegister {
            negative: util::test_bit_set(val, 7),
            overflow: util::test_bit_set(val, 6),
            brk: util::test_bit_set(val, 4),
            decimal_mode: util::test_bit_set(val, 3),
            irq_disable: util::test_bit_set(val, 2),
            zero: util::test_bit_set(val, 1),
            carry: util::test_bit_set(val, 0),
        }
    }
}

impl Default for ProcessorStatusRegister {
    /// The power-on flag set: every flag clear.  (The Break flag is chosen
    /// clear here, so a freshly constructed register packs to `0x20`.)
    fn default() -> (r: Self)
        ensures
            r == (ProcessorStatusRegister {
                negative: false,
                overflow: false,
                brk: false,
                decimal_mode: false,
                irq_disable: false,
                zero: false,
                carry: false,
            }),
    {
        ProcessorStatusRegister {
            negative: false,
            overflow: false,
            brk: false,
            decimal_mode: false,
            irq_disable: false,
            zero: false,
            carry: false,
        }
    }
}

/// Decoding a status byte and re-encoding it reproduces the byte exactly,
/// except that the unused bit 5 always reads back as set.  This holds for
/// all 256 byte values.
pub proof fn lemma_status_byte_round_trip(v: u8)
    ensures
        spec_status_byte(spec_status_from_byte(v)) == (v | 0x20),
{
    assert(((0x20 + (if (v >> 7) & 1 == 1 {
        0x80int
    } else {
        0int
    }) + (if (v >> 6) & 1 == 1 {
        0x40int
    } else {
        0int
    }) + (if (v >> 4) & 1 == 1 {
        0x10int
    } else {
        0int
    }) + (if (v >> 3) & 1 == 1 {
        0x08int
    } else {
        0int
    }) + (if (v >> 2) & 1 == 1 {
        0x04int
    } else {
        0int
    }) + (if (v >> 1) & 1 == 1 {
        0x02int
    } else {
        0int
    }) + (if (v >> 0) & 1 == 1 {
        0x01int
    } else {
        0int
    })) as u8) == (v | 0x20)) by (bit_vector);
}

} // verus!
