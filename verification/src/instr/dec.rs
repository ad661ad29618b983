//! DEC, DEX and DEY: decrement a memory cell or an index register, wrapping
//! modulo 256, with Zero/Negative from the new value.

use vstd::prelude::*;

use crate::addr;
use crate::addr::AddrMode;
use crate::cpu::{Cpu, Register};
use crate::instr::inc::IncrementType;
use crate::instr::{Effect, InstrResult};

verus! {

/// Builds the deferred decrement with the given cycle cost.
fn dec(dec_type: IncrementType, cycles: u8) -> (r: InstrResult)
    requires
        dec_type.wf(),
    ensures
        r.wf(),
        r.cycles == cycles,
        r.effect == (Effect::Decrement { target: dec_type }),
{
    InstrResult { cycles, effect: Effect::Decrement { target: dec_type } }
}

pub fn zero_page(cpu: &mut Cpu) -> (r: InstrResult)
    requires
        old(cpu).wf(),
    ensures
        final(cpu).wf(),
        r.wf(),
        r.cycles == 5,
        (r.effect matches Effect::Decrement { target: IncrementType::Memory(ar) }
            && addr::zero_page_resolved(*old(cpu), *final(cpu), ar)),
{
    let ar = addr::zero_page(cpu);
    dec(IncrementType::Memory(ar), 5)
}

pub fn zero_page_x(cpu: &mut Cpu) -> (r: InstrResult)
    requires
        old(cpu).wf(),
    ensures
        final(cpu).wf(),
        r.wf(),
        r.cycles == 6,
        (r.effect matches Effect::Decrement { target: IncrementType::Memory(ar) }
            && addr::zero_page_indexed_resolved(
            *old(cpu),
            *final(cpu),
            ar,
            old(cpu).reg_x,
            AddrMode::ZeroPageX,
        )),
{
    let ar = addr::zero_page_x(cpu);
    dec(IncrementType::Memory(ar), 6)
}

pub fn abs(cpu: &mut Cpu) -> (r: InstrResult)
    requires
        old(cpu).wf(),
    ensures
        final(cpu).wf(),
        r.wf(),
        r.cycles == 6,
        (r.effect matches Effect::Decrement { target: IncrementType::Memory(ar) }
            && addr::abs_resolved(*old(cpu), *final(cpu), ar)),
{
    let ar = addr::abs(cpu);
    dec(IncrementType::Memory(ar), 6)
}

pub fn abs_x(cpu: &mut Cpu) -> (r: InstrResult)
    requires
        old(cpu).wf(),
    ensures
        final(cpu).wf(),
        r.wf(),
        r.cycles == 6,
        (r.effect matches Effect::Decrement { target: IncrementType::Memory(ar) }
            && addr::abs_indexed_resolved(
            *old(cpu),
            *final(cpu),
            ar,
            old(cpu).reg_x,
            AddrMode::AbsoluteX,
        )),
{
    let ar = addr::abs_x(cpu);
    dec(IncrementType::Memory(ar), 6)
}

/// DEX: X - 1, no operand bytes.
pub fn dex(cpu: &mut Cpu) -> (r: InstrResult)
    requires
        old(cpu).wf(),
    ensures
        *final(cpu) == *old(cpu),
        r.wf(),
        r.cycles == 2,
        r.effect == (Effect::Decrement { target: IncrementType::Register(Register::X) }),
{
    dec(IncrementType::Register(Register::X), 2)
}

/// DEY: Y - 1, no operand bytes.
pub fn dey(cpu: &mut Cpu) -> (r: InstrResult)
    requires
        old(cpu).wf(),
    ensures
        *final(cpu) == *old(cpu),
        r.wf(),
        r.cycles == 2,
        r.effect == (Effect::Decrement { target: IncrementType::Register(Register::Y) }),
{
    dec(IncrementType::Register(Register::Y), 2)
}

} // verus!
