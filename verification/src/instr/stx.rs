//! STX: store the X register; no flag changes.

use vstd::prelude::*;

use crate::addr;
use crate::addr::AddrMode;
use crate::cpu::{Cpu, Register};
use crate::instr::{Effect, InstrResult};

verus! {

pub fn zero_page(cpu: &mut Cpu) -> (r: InstrResult)
    requires
        old(cpu).wf(),
    ensures
        final(cpu).wf(),
        r.wf(),
        r.cycles == 3,
        (r.effect matches Effect::Store { reg: Register::X, ar } && addr::zero_page_resolved(*old(cpu), *final(cpu), ar)
            ),
{
    let ar = addr::zero_page(cpu);
    InstrResult { cycles: 3, effect: Effect::Store { reg: Register::X, ar } }
}

pub fn zero_page_y(cpu: &mut Cpu) -> (r: InstrResult)
    requires
        old(cpu).wf(),
    ensures
        final(cpu).wf(),
        r.wf(),
        r.cycles == 4,
        (r.effect matches Effect::Store { reg: Register::X, ar } && addr::zero_page_indexed_resolved(*old(cpu), *final(cpu), ar, old(cpu).reg_y, AddrMode::ZeroPageY)
            ),
{
    let ar = addr::zero_page_y(cpu);
    InstrResult { cycles: 4, effect: Effect::Store { reg: Register::X, ar } }
}

pub fn abs(cpu: &mut Cpu) -> (r: InstrResult)
    requires
        old(cpu).wf(),
    ensures
        final(cpu).wf(),
        r.wf(),
        r.cycles == 4,
        (r.effect matches Effect::Store { reg: Register::X, ar } && addr::abs_resolved(*old(cpu), *final(cpu), ar)
            ),
{
    let ar = addr::abs(cpu);
    InstrResult { cycles: 4, effect: Effect::Store { reg: Register::X, ar } }
}

} // verus!
