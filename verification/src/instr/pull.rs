//! PLA and PLP: pop one byte from the stack into the accumulator or the
//! status register.

use vstd::prelude::*;

use crate::cpu::Cpu;
use crate::instr::{Effect, InstrResult, PullDestination};

verus! {

/// PLA: pop into the accumulator.
pub fn pla(cpu: &mut Cpu) -> (r: InstrResult)
    requires
        old(cpu).wf(),
    ensures
        *final(cpu) == *old(cpu),
        r.wf(),
        r.cycles == 3,
        r.effect == (Effect::Pull { dest: PullDestination::Accumulator }),
{
    InstrResult { cycles: 3, effect: Effect::Pull { dest: PullDestination::Accumulator } }
}

/// PLP: pop into the status register, reconstructing all seven flags.
pub fn plp(cpu: &mut Cpu) -> (r: InstrResult)
    requires
        old(cpu).wf(),
    ensures
        *final(cpu) == *old(cpu),
        r.wf(),
        r.cycles == 3,
        r.effect == (Effect::Pull { dest: PullDestination::Status }),
{
    InstrResult { cycles: 3, effect: Effect::Pull { dest: PullDestination::Status } }
}

} // verus!
