//! CLC, CLD, CLI and CLV: clear exactly one status flag.

use vstd::prelude::*;

use crate::cpu::Cpu;
use crate::instr::{Effect, Flag, InstrResult};

verus! {

/// CLC: clear the carry flag.
pub fn clc(cpu: &mut Cpu) -> (r: InstrResult)
    requires
        old(cpu).wf(),
    ensures
        *final(cpu) == *old(cpu),
        r.wf(),
        r.cycles == 2,
        r.effect == (Effect::SetFlag { flag: Flag::Carry, on: false }),
{
    InstrResult { cycles: 2, effect: Effect::SetFlag { flag: Flag::Carry, on: false } }
}

/// CLD: clear the decimal-mode flag.
pub fn cld(cpu: &mut Cpu) -> (r: InstrResult)
    requires
        old(cpu).wf(),
    ensures
        *final(cpu) == *old(cpu),
        r.wf(),
        r.cycles == 2,
        r.effect == (Effect::SetFlag { flag: Flag::DecimalMode, on: false }),
{
    InstrResult { cycles: 2, effect: Effect::SetFlag { flag: Flag::DecimalMode, on: false } }
}

/// CLI: clear the interrupt-disable flag.
pub fn cli(cpu: &mut Cpu) -> (r: InstrResult)
    requires
        old(cpu).wf(),
    ensures
        *final(cpu) == *old(cpu),
        r.wf(),
        r.cycles == 2,
        r.effect == (Effect::SetFlag { flag: Flag::IrqDisable, on: false }),
{
    InstrResult { cycles: 2, effect: Effect::SetFlag { flag: Flag::IrqDisable, on: false } }
}

/// CLV: clear the overflow flag.
pub fn clv(cpu: &mut Cpu) -> (r: InstrResult)
    requires
        old(cpu).wf(),
    ensures
        *final(cpu) == *old(cpu),
        r.wf(),
        r.cycles == 2,
        r.effect == (Effect::SetFlag { flag: Flag::Overflow, on: false }),
{
    InstrResult { cycles: 2, effect: Effect::SetFlag { flag: Flag::Overflow, on: false } }
}

} // verus!
