//! LSR: logical shift right on the accumulator or a memory cell; bit 0 becomes the carry.

use vstd::prelude::*;

use crate::addr;
use crate::addr::{AddrMode, AddrResult};
use crate::cpu::Cpu;
use crate::instr::{Effect, InstrResult};

verus! {

pub fn acc(cpu: &mut Cpu) -> (r: InstrResult)
    requires
        old(cpu).wf(),
    ensures
        final(cpu).wf(),
        r.wf(),
        r.cycles == 2,
        (r.effect matches Effect::Lsr { ar } && addr::acc_resolved(*old(cpu), *final(cpu), ar)
            ),
{
    let ar = addr::acc(cpu);
    InstrResult { cycles: 2, effect: Effect::Lsr { ar } }
}

pub fn zero_page(cpu: &mut Cpu) -> (r: InstrResult)
    requires
        old(cpu).wf(),
    ensures
        final(cpu).wf(),
        r.wf(),
        r.cycles == 5,
        (r.effect matches Effect::Lsr { ar } && addr::zero_page_resolved(*old(cpu), *final(cpu), ar)
            ),
{
    let ar = addr::zero_page(cpu);
    InstrResult { cycles: 5, effect: Effect::Lsr { ar } }
}

pub fn zero_page_x(cpu: &mut Cpu) -> (r: InstrResult)
    requires
        old(cpu).wf(),
    ensures
        final(cpu).wf(),
        r.wf(),
        r.cycles == 6,
        (r.effect matches Effect::Lsr { ar } && addr::zero_page_indexed_resolved(*old(cpu), *final(cpu), ar, old(cpu).reg_x, AddrMode::ZeroPageX)
            ),
{
    let ar = addr::zero_page_x(cpu);
    InstrResult { cycles: 6, effect: Effect::Lsr { ar } }
}

pub fn abs(cpu: &mut Cpu) -> (r: InstrResult)
    requires
        old(cpu).wf(),
    ensures
        final(cpu).wf(),
        r.wf(),
        r.cycles == 6,
        (r.effect matches Effect::Lsr { ar } && addr::abs_resolved(*old(cpu), *final(cpu), ar)
            ),
{
    let ar = addr::abs(cpu);
    InstrResult { cycles: 6, effect: Effect::Lsr { ar } }
}

pub fn abs_x(cpu: &mut Cpu) -> (r: InstrResult)
    requires
        old(cpu).wf(),
    ensures
        final(cpu).wf(),
        r.wf(),
        r.cycles == 7,
        (r.effect matches Effect::Lsr { ar } && addr::abs_indexed_resolved(*old(cpu), *final(cpu), ar, old(cpu).reg_x, AddrMode::AbsoluteX)
            ),
{
    let ar = addr::abs_x(cpu);
    InstrResult { cycles: 7, effect: Effect::Lsr { ar } }
}

/// Builds the deferred LSR on an already-resolved target with the given
/// cycle cost.
pub fn lsr(addr_result: AddrResult, cycles: u8) -> (r: InstrResult)
    requires
        addr_result.addr_mode != AddrMode::Unknown,
    ensures
        r.wf(),
        r.cycles == cycles,
        r.effect == (Effect::Lsr { ar: addr_result }),
{
    InstrResult { cycles, effect: Effect::Lsr { ar: addr_result } }
}

} // verus!
