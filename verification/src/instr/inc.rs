//! INC, INX and INY: increment a memory cell or an index register, wrapping
//! modulo 256, with Zero/Negative from the new value.

use vstd::prelude::*;

use crate::addr;
use crate::addr::{AddrMode, AddrResult};
use crate::cpu::{Cpu, Register};
use crate::instr::{increment_applied, Effect, InstrResult};

verus! {

/// What an increment or decrement instruction operates on: an index
/// register, or the memory cell an addressing result names.
#[derive(Clone, Copy, Debug)]
pub enum IncrementType {
    Register(Register),
    Memory(AddrResult),
}

impl IncrementType {
    /// The shapes the decoder produces: only the index registers are
    /// incremented directly, and a memory target carries a known mode.
    pub open spec fn wf(&self) -> bool {
        match *self {
            IncrementType::Register(reg) => reg == Register::X || reg == Register::Y,
            IncrementType::Memory(ar) => ar.addr_mode != AddrMode::Unknown,
        }
    }
}

/// Builds the deferred increment with the given cycle cost.
pub fn inc(inc_type: IncrementType, cycles: u8) -> (r: InstrResult)
    requires
        inc_type.wf(),
    ensures
        r.wf(),
        r.cycles == cycles,
        r.effect == (Effect::Increment { target: inc_type }),
{
    InstrResult { cycles, effect: Effect::Increment { target: inc_type } }
}

pub fn zero_page(cpu: &mut Cpu) -> (r: InstrResult)
    requires
        old(cpu).wf(),
    ensures
        final(cpu).wf(),
        r.wf(),
        r.cycles == 5,
        (r.effect matches Effect::Increment { target: IncrementType::Memory(ar) }
            && addr::zero_page_resolved(*old(cpu), *final(cpu), ar)),
{
    let ar = addr::zero_page(cpu);
    inc(IncrementType::Memory(ar), 5)
}

pub fn zero_page_x(cpu: &mut Cpu) -> (r: InstrResult)
    requires
        old(cpu).wf(),
    ensures
        final(cpu).wf(),
        r.wf(),
        r.cycles == 6,
        (r.effect matches Effect::Increment { target: IncrementType::Memory(ar) }
            && addr::zero_page_indexed_resolved(
            *old(cpu),
            *final(cpu),
            ar,
            old(cpu).reg_x,
            AddrMode::ZeroPageX,
        )),
{
    let ar = addr::zero_page_x(cpu);
    inc(IncrementType::Memory(ar), 6)
}

pub fn abs(cpu: &mut Cpu) -> (r: InstrResult)
    requires
        old(cpu).wf(),
    ensures
        final(cpu).wf(),
        r.wf(),
        r.cycles == 6,
        (r.effect matches Effect::Increment { target: IncrementType::Memory(ar) }
            && addr::abs_resolved(*old(cpu), *final(cpu), ar)),
{
    let ar = addr::abs(cpu);
    inc(IncrementType::Memory(ar), 6)
}

pub fn abs_x(cpu: &mut Cpu) -> (r: InstrResult)
    requires
        old(cpu).wf(),
    ensures
        final(cpu).wf(),
        r.wf(),
        r.cycles == 6,
        (r.effect matches Effect::Increment { target: IncrementType::Memory(ar) }
            && addr::abs_indexed_resolved(
            *old(cpu),
            *final(cpu),
            ar,
            old(cpu).reg_x,
            AddrMode::AbsoluteX,
        )),
{
    let ar = addr::abs_x(cpu);
    inc(IncrementType::Memory(ar), 6)
}

/// INX: X + 1, no operand bytes.
pub fn inx(cpu: &mut Cpu) -> (r: InstrResult)
    requires
        old(cpu).wf(),
    ensures
        *final(cpu) == *old(cpu),
        r.wf(),
        r.cycles == 2,
        r.effect == (Effect::Increment { target: IncrementType::Register(Register::X) }),
{
    inc(IncrementType::Register(Register::X), 2)
}

/// INY: Y + 1, no operand bytes.
pub fn iny(cpu: &mut Cpu) -> (r: InstrResult)
    requires
        old(cpu).wf(),
    ensures
        *final(cpu) == *old(cpu),
        r.wf(),
        r.cycles == 2,
        r.effect == (Effect::Increment { target: IncrementType::Register(Register::Y) }),
{
    inc(IncrementType::Register(Register::Y), 2)
}

} // verus!
