//! RLA: rotate the memory cell left through the carry, then and it into the accumulator (undocumented).

use vstd::prelude::*;

use crate::addr;
use crate::addr::AddrMode;
use crate::cpu::Cpu;
use crate::instr::{Effect, InstrResult};

verus! {

pub fn zero_page(cpu: &mut Cpu) -> (r: InstrResult)
    requires
        old(cpu).wf(),
    ensures
        final(cpu).wf(),
        r.wf(),
        r.cycles == 5,
        (r.effect matches Effect::Rla { ar } && addr::zero_page_resolved(*old(cpu), *final(cpu), ar)
            ),
{
    let ar = addr::zero_page(cpu);
    InstrResult { cycles: 5, effect: Effect::Rla { ar } }
}

pub fn zero_page_x(cpu: &mut Cpu) -> (r: InstrResult)
    requires
        old(cpu).wf(),
    ensures
        final(cpu).wf(),
        r.wf(),
        r.cycles == 6,
        (r.effect matches Effect::Rla { ar } && addr::zero_page_indexed_resolved(*old(cpu), *final(cpu), ar, old(cpu).reg_x, AddrMode::ZeroPageX)
            ),
{
    let ar = addr::zero_page_x(cpu);
    InstrResult { cycles: 6, effect: Effect::Rla { ar } }
}

pub fn abs(cpu: &mut Cpu) -> (r: InstrResult)
    requires
        old(cpu).wf(),
    ensures
        final(cpu).wf(),
        r.wf(),
        r.cycles == 6,
        (r.effect matches Effect::Rla { ar } && addr::abs_resolved(*old(cpu), *final(cpu), ar)
            ),
{
    let ar = addr::abs(cpu);
    InstrResult { cycles: 6, effect: Effect::Rla { ar } }
}

pub fn abs_x(cpu: &mut Cpu) -> (r: InstrResult)
    requires
        old(cpu).wf(),
    ensures
        final(cpu).wf(),
        r.wf(),
        r.cycles == 7,
        (r.effect matches Effect::Rla { ar } && addr::abs_indexed_resolved(*old(cpu), *final(cpu), ar, old(cpu).reg_x, AddrMode::AbsoluteX)
            ),
{
    let ar = addr::abs_x(cpu);
    InstrResult { cycles: 7, effect: Effect::Rla { ar } }
}

pub fn abs_y(cpu: &mut Cpu) -> (r: InstrResult)
    requires
        old(cpu).wf(),
    ensures
        final(cpu).wf(),
        r.wf(),
        r.cycles == 7,
        (r.effect matches Effect::Rla { ar } && addr::abs_indexed_resolved(*old(cpu), *final(cpu), ar, old(cpu).reg_y, AddrMode::AbsoluteY)
            ),
{
    let ar = addr::abs_y(cpu);
    InstrResult { cycles: 7, effect: Effect::Rla { ar } }
}

pub fn ind_x(cpu: &mut Cpu) -> (r: InstrResult)
    requires
        old(cpu).wf(),
    ensures
        final(cpu).wf(),
        r.wf(),
        r.cycles == 8,
        (r.effect matches Effect::Rla { ar } && addr::ind_x_resolved(*old(cpu), *final(cpu), ar)
            ),
{
    let ar = addr::ind_x(cpu);
    InstrResult { cycles: 8, effect: Effect::Rla { ar } }
}

pub fn ind_y(cpu: &mut Cpu) -> (r: InstrResult)
    requires
        old(cpu).wf(),
    ensures
        final(cpu).wf(),
        r.wf(),
        r.cycles == 8,
        (r.effect matches Effect::Rla { ar } && addr::ind_y_resolved(*old(cpu), *final(cpu), ar)
            ),
{
    let ar = addr::ind_y(cpu);
    InstrResult { cycles: 8, effect: Effect::Rla { ar } }
}

} // verus!
