//! The branch instructions: each tests one status flag and, when taken,
//! redirects the program counter to the relative-mode target.
//!
//! Cycle accounting: a not-taken branch costs 2 cycles; a taken branch
//! costs 3; a taken branch whose target lies in a different page than the
//! post-fetch program counter costs 4.

use vstd::prelude::*;

use crate::addr;
use crate::addr::rel_target;
use crate::cpu::{same_but_pc, Cpu};
use crate::mem::page_of;
use crate::util::wrap_add16;
use crate::instr::{Effect, InstrResult};

verus! {

/// What a branch costs: 2 when not taken, 3 when taken within the page,
/// 4 when taken across a page boundary.
pub open spec fn branch_cycles(taken: bool, crossed: bool) -> u8 {
    if taken {
        if crossed {
            4
        } else {
            3
        }
    } else {
        2
    }
}

/// What every branch decodes to: the offset byte is consumed, and the
/// deferred effect installs either the target (when `taken`) or the fall-
/// through program counter; the cycle cost follows [`branch_cycles`].
pub open spec fn branch_decoded(pre: Cpu, post: Cpu, r: InstrResult, taken: bool) -> bool {
    let pc1 = wrap_add16(pre.reg_pc, 1);
    let target = rel_target(pc1, pre.memory.mem@[pre.reg_pc as int]);
    let crossed = page_of(pc1) != page_of(target);
    &&& same_but_pc(pre, post)
    &&& post.reg_pc == pc1
    &&& r.effect == (Effect::Branch {
        next_pc: if taken {
            target
        } else {
            pc1
        },
    })
    &&& r.cycles == branch_cycles(taken, crossed)
    &&& r.wf()
}

/// The shared decode step: resolves the relative operand and prices the
/// branch.
fn branch(cpu: &mut Cpu, should_branch: bool) -> (r: InstrResult)
    requires
        old(cpu).wf(),
    ensures
        final(cpu).wf(),
        branch_decoded(*old(cpu), *final(cpu), r, should_branch),
{
    let ar = addr::rel(cpu);
    let crossed = match ar.crosses_boundary {
        Some(true) => true,
        _ => false,
    };
    let cycles: u8 = if should_branch {
        if crossed {
            4
        } else {
            3
        }
    } else {
        2
    };
    let next_pc = if should_branch {
        ar.value
    } else {
        cpu.reg_pc
    };
    InstrResult { cycles, effect: Effect::Branch { next_pc } }
}

/// BCC: branch when the carry flag is clear.
pub fn bcc(cpu: &mut Cpu) -> (r: InstrResult)
    requires
        old(cpu).wf(),
    ensures
        final(cpu).wf(),
        branch_decoded(*old(cpu), *final(cpu), r, !old(cpu).reg_status.carry),
{
    let should_branch = !cpu.reg_status.carry;
    branch(cpu, should_branch)
}

/// BCS: branch when the carry flag is set.
pub fn bcs(cpu: &mut Cpu) -> (r: InstrResult)
    requires
        old(cpu).wf(),
    ensures
        final(cpu).wf(),
        branch_decoded(*old(cpu), *final(cpu), r, old(cpu).reg_status.carry),
{
    let should_branch = cpu.reg_status.carry;
    branch(cpu, should_branch)
}

/// BEQ: branch when the zero flag is set.
pub fn beq(cpu: &mut Cpu) -> (r: InstrResult)
    requires
        old(cpu).wf(),
    ensures
        final(cpu).wf(),
        branch_decoded(*old(cpu), *final(cpu), r, old(cpu).reg_status.zero),
{
    let should_branch = cpu.reg_status.zero;
    branch(cpu, should_branch)
}

/// BMI: branch when the negative flag is set.
pub fn bmi(cpu: &mut Cpu) -> (r: InstrResult)
    requires
        old(cpu).wf(),
    ensures
        final(cpu).wf(),
        branch_decoded(*old(cpu), *final(cpu), r, old(cpu).reg_status.negative),
{
    let should_branch = cpu.reg_status.negative;
    branch(cpu, should_branch)
}

/// BNE: branch when the zero flag is clear.
pub fn bne(cpu: &mut Cpu) -> (r: InstrResult)
    requires
        old(cpu).wf(),
    ensures
        final(cpu).wf(),
        branch_decoded(*old(cpu), *final(cpu), r, !old(cpu).reg_status.zero),
{
    let should_branch = !cpu.reg_status.zero;
    branch(cpu, should_branch)
}

/// BPL: branch when the negative flag is clear.
pub fn bpl(cpu: &mut Cpu) -> (r: InstrResult)
    requires
        old(cpu).wf(),
    ensures
        final(cpu).wf(),
        branch_decoded(*old(cpu), *final(cpu), r, !old(cpu).reg_status.negative),
{
    let should_branch = !cpu.reg_status.negative;
    branch(cpu, should_branch)
}

/// BVC: branch when the overflow flag is clear.
pub fn bvc(cpu: &mut Cpu) -> (r: InstrResult)
    requires
        old(cpu).wf(),
    ensures
        final(cpu).wf(),
        branch_decoded(*old(cpu), *final(cpu), r, !old(cpu).reg_status.overflow),
{
    let should_branch = !cpu.reg_status.overflow;
    branch(cpu, should_branch)
}

/// BVS: branch when the overflow flag is set.
pub fn bvs(cpu: &mut Cpu) -> (r: InstrResult)
    requires
        old(cpu).wf(),
    ensures
        final(cpu).wf(),
        branch_decoded(*old(cpu), *final(cpu), r, old(cpu).reg_status.overflow),
{
    let should_branch = cpu.reg_status.overflow;
    branch(cpu, should_branch)
}

} // verus!
