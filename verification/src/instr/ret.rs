//! RTS and RTI: return from a subroutine or an interrupt.  RTS pops the
//! return address (low byte first); RTI additionally restores the status
//! register from the stack before popping the return address.

use vstd::prelude::*;

use crate::cpu::Cpu;
use crate::instr::{Effect, InstrResult};

verus! {

/// RTI: restore the status register, then the program counter.
pub fn rti(cpu: &mut Cpu) -> (r: InstrResult)
    requires
        old(cpu).wf(),
    ensures
        *final(cpu) == *old(cpu),
        r.wf(),
        r.cycles == 6,
        r.effect == Effect::Rti,
{
    InstrResult { cycles: 6, effect: Effect::Rti }
}

/// RTS: restore the program counter.
pub fn rts(cpu: &mut Cpu) -> (r: InstrResult)
    requires
        old(cpu).wf(),
    ensures
        *final(cpu) == *old(cpu),
        r.wf(),
        r.cycles == 6,
        r.effect == Effect::Rts,
{
    InstrResult { cycles: 6, effect: Effect::Rts }
}

} // verus!
