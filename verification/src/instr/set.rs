//! SEC, SED and SEI: set exactly one status flag.

use vstd::prelude::*;

use crate::cpu::Cpu;
use crate::instr::{Effect, Flag, InstrResult};

verus! {

/// SEC: set the carry flag.
pub fn sec(cpu: &mut Cpu) -> (r: InstrResult)
    requires
        old(cpu).wf(),
    ensures
        *final(cpu) == *old(cpu),
        r.wf(),
        r.cycles == 2,
        r.effect == (Effect::SetFlag { flag: Flag::Carry, on: true }),
{
    InstrResult { cycles: 2, effect: Effect::SetFlag { flag: Flag::Carry, on: true } }
}

/// SED: set the decimal-mode flag.
pub fn sed(cpu: &mut Cpu) -> (r: InstrResult)
    requires
        old(cpu).wf(),
    ensures
        *final(cpu) == *old(cpu),
        r.wf(),
        r.cycles == 2,
        r.effect == (Effect::SetFlag { flag: Flag::DecimalMode, on: true }),
{
    InstrResult { cycles: 2, effect: Effect::SetFlag { flag: Flag::DecimalMode, on: true } }
}

/// SEI: set the interrupt-disable flag.
pub fn sei(cpu: &mut Cpu) -> (r: InstrResult)
    requires
        old(cpu).wf(),
    ensures
        *final(cpu) == *old(cpu),
        r.wf(),
        r.cycles == 2,
        r.effect == (Effect::SetFlag { flag: Flag::IrqDisable, on: true }),
{
    InstrResult { cycles: 2, effect: Effect::SetFlag { flag: Flag::IrqDisable, on: true } }
}

} // verus!
