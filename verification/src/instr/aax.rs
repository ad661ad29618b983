//! AAX (SAX): store the conjunction of the accumulator and X (undocumented).

use vstd::prelude::*;

use crate::addr;
use crate::addr::AddrMode;
use crate::cpu::Cpu;
use crate::instr::{penalized_cycles, spec_penalized_cycles, Effect, InstrResult};

verus! {

pub fn zero_page(cpu: &mut Cpu) -> (r: InstrResult)
    requires
        old(cpu).wf(),
    ensures
        final(cpu).wf(),
        r.wf(),
        (r.effect matches Effect::Aax { ar } && addr::zero_page_resolved(*old(cpu), *final(cpu), ar)
            && r.cycles == spec_penalized_cycles(ar, 3)),
{
    let ar = addr::zero_page(cpu);
    InstrResult { cycles: penalized_cycles(&ar, 3), effect: Effect::Aax { ar } }
}

pub fn zero_page_y(cpu: &mut Cpu) -> (r: InstrResult)
    requires
        old(cpu).wf(),
    ensures
        final(cpu).wf(),
        r.wf(),
        (r.effect matches Effect::Aax { ar } && addr::zero_page_indexed_resolved(*old(cpu), *final(cpu), ar, old(cpu).reg_y, AddrMode::ZeroPageY)
            && r.cycles == spec_penalized_cycles(ar, 4)),
{
    let ar = addr::zero_page_y(cpu);
    InstrResult { cycles: penalized_cycles(&ar, 4), effect: Effect::Aax { ar } }
}

pub fn abs(cpu: &mut Cpu) -> (r: InstrResult)
    requires
        old(cpu).wf(),
    ensures
        final(cpu).wf(),
        r.wf(),
        (r.effect matches Effect::Aax { ar } && addr::abs_resolved(*old(cpu), *final(cpu), ar)
            && r.cycles == spec_penalized_cycles(ar, 4)),
{
    let ar = addr::abs(cpu);
    InstrResult { cycles: penalized_cycles(&ar, 4), effect: Effect::Aax { ar } }
}

pub fn ind_x(cpu: &mut Cpu) -> (r: InstrResult)
    requires
        old(cpu).wf(),
    ensures
        final(cpu).wf(),
        r.wf(),
        (r.effect matches Effect::Aax { ar } && addr::ind_x_resolved(*old(cpu), *final(cpu), ar)
            && r.cycles == spec_penalized_cycles(ar, 6)),
{
    let ar = addr::ind_x(cpu);
    InstrResult { cycles: penalized_cycles(&ar, 6), effect: Effect::Aax { ar } }
}

} // verus!
