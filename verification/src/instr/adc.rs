//! ADC: add the operand and the carry to the accumulator, setting all four arithmetic flags.

use vstd::prelude::*;

use crate::addr;
use crate::addr::{AddrMode, AddrResult};
use crate::cpu::Cpu;
use crate::instr::{penalized_cycles, spec_penalized_cycles, Effect, InstrResult};

verus! {

pub fn imm(cpu: &mut Cpu) -> (r: InstrResult)
    requires
        old(cpu).wf(),
    ensures
        final(cpu).wf(),
        r.wf(),
        (r.effect matches Effect::Adc { ar } && addr::imm_resolved(*old(cpu), *final(cpu), ar)
            && r.cycles == spec_penalized_cycles(ar, 2)),
{
    let ar = addr::imm(cpu);
    InstrResult { cycles: penalized_cycles(&ar, 2), effect: Effect::Adc { ar } }
}

pub fn zero_page(cpu: &mut Cpu) -> (r: InstrResult)
    requires
        old(cpu).wf(),
    ensures
        final(cpu).wf(),
        r.wf(),
        (r.effect matches Effect::Adc { ar } && addr::zero_page_resolved(*old(cpu), *final(cpu), ar)
            && r.cycles == spec_penalized_cycles(ar, 3)),
{
    let ar = addr::zero_page(cpu);
    InstrResult { cycles: penalized_cycles(&ar, 3), effect: Effect::Adc { ar } }
}

pub fn zero_page_x(cpu: &mut Cpu) -> (r: InstrResult)
    requires
        old(cpu).wf(),
    ensures
        final(cpu).wf(),
        r.wf(),
        (r.effect matches Effect::Adc { ar } && addr::zero_page_indexed_resolved(*old(cpu), *final(cpu), ar, old(cpu).reg_x, AddrMode::ZeroPageX)
            && r.cycles == spec_penalized_cycles(ar, 4)),
{
    let ar = addr::zero_page_x(cpu);
    InstrResult { cycles: penalized_cycles(&ar, 4), effect: Effect::Adc { ar } }
}

pub fn abs(cpu: &mut Cpu) -> (r: InstrResult)
    requires
        old(cpu).wf(),
    ensures
        final(cpu).wf(),
        r.wf(),
        (r.effect matches Effect::Adc { ar } && addr::abs_resolved(*old(cpu), *final(cpu), ar)
            && r.cycles == spec_penalized_cycles(ar, 4)),
{
    let ar = addr::abs(cpu);
    InstrResult { cycles: penalized_cycles(&ar, 4), effect: Effect::Adc { ar } }
}

pub fn abs_x(cpu: &mut Cpu) -> (r: InstrResult)
    requires
        old(cpu).wf(),
    ensures
        final(cpu).wf(),
        r.wf(),
        (r.effect matches Effect::Adc { ar } && addr::abs_indexed_resolved(*old(cpu), *final(cpu), ar, old(cpu).reg_x, AddrMode::AbsoluteX)
            && r.cycles == spec_penalized_cycles(ar, 4)),
{
    let ar = addr::abs_x(cpu);
    InstrResult { cycles: penalized_cycles(&ar, 4), effect: Effect::Adc { ar } }
}

pub fn abs_y(cpu: &mut Cpu) -> (r: InstrResult)
    requires
        old(cpu).wf(),
    ensures
        final(cpu).wf(),
        r.wf(),
        (r.effect matches Effect::Adc { ar } && addr::abs_indexed_resolved(*old(cpu), *final(cpu), ar, old(cpu).reg_y, AddrMode::AbsoluteY)
            && r.cycles == spec_penalized_cycles(ar, 4)),
{
    let ar = addr::abs_y(cpu);
    InstrResult { cycles: penalized_cycles(&ar, 4), effect: Effect::Adc { ar } }
}

pub fn ind_x(cpu: &mut Cpu) -> (r: InstrResult)
    requires
        old(cpu).wf(),
    ensures
        final(cpu).wf(),
        r.wf(),
        (r.effect matches Effect::Adc { ar } && addr::ind_x_resolved(*old(cpu), *final(cpu), ar)
            && r.cycles == spec_penalized_cycles(ar, 6)),
{
    let ar = addr::ind_x(cpu);
    InstrResult { cycles: penalized_cycles(&ar, 6), effect: Effect::Adc { ar } }
}

pub fn ind_y(cpu: &mut Cpu) -> (r: InstrResult)
    requires
        old(cpu).wf(),
    ensures
        final(cpu).wf(),
        r.wf(),
        (r.effect matches Effect::Adc { ar } && addr::ind_y_resolved(*old(cpu), *final(cpu), ar)
            && r.cycles == spec_penalized_cycles(ar, 5)),
{
    let ar = addr::ind_y(cpu);
    InstrResult { cycles: penalized_cycles(&ar, 5), effect: Effect::Adc { ar } }
}

/// Builds the deferred ADC on an already-resolved operand with the given
/// base cycle cost, the page-crossing penalty applied.
pub fn adc(addr_result: AddrResult, cycles: u8) -> (r: InstrResult)
    requires
        addr_result.addr_mode != AddrMode::Unknown,
        cycles < 255,
    ensures
        r.wf(),
        r.cycles == spec_penalized_cycles(addr_result, cycles),
        r.effect == (Effect::Adc { ar: addr_result }),
{
    InstrResult { cycles: penalized_cycles(&addr_result, cycles), effect: Effect::Adc { ar: addr_result } }
}

} // verus!
