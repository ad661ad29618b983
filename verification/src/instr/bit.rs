//! BIT: test the accumulator against a memory byte; Zero from the conjunction, Overflow and Negative from bits 6 and 7 of the byte.

use vstd::prelude::*;

use crate::addr;
use crate::addr::{AddrMode, AddrResult};
use crate::cpu::Cpu;
use crate::instr::{Effect, InstrResult};

verus! {

pub fn zero_page(cpu: &mut Cpu) -> (r: InstrResult)
    requires
        old(cpu).wf(),
    ensures
        final(cpu).wf(),
        r.wf(),
        r.cycles == 3,
        (r.effect matches Effect::Bit { ar } && addr::zero_page_resolved(*old(cpu), *final(cpu), ar)
            ),
{
    let ar = addr::zero_page(cpu);
    InstrResult { cycles: 3, effect: Effect::Bit { ar } }
}

pub fn abs(cpu: &mut Cpu) -> (r: InstrResult)
    requires
        old(cpu).wf(),
    ensures
        final(cpu).wf(),
        r.wf(),
        r.cycles == 4,
        (r.effect matches Effect::Bit { ar } && addr::abs_resolved(*old(cpu), *final(cpu), ar)
            ),
{
    let ar = addr::abs(cpu);
    InstrResult { cycles: 4, effect: Effect::Bit { ar } }
}

/// Builds the deferred BIT on an already-resolved operand with the given
/// cycle cost.
pub fn bit(addr_result: AddrResult, cycles: u8) -> (r: InstrResult)
    requires
        addr_result.addr_mode != AddrMode::Unknown,
    ensures
        r.wf(),
        r.cycles == cycles,
        r.effect == (Effect::Bit { ar: addr_result }),
{
    InstrResult { cycles, effect: Effect::Bit { ar: addr_result } }
}

} // verus!
