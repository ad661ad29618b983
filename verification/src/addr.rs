//! The addressing-mode resolvers.
//!
//! Each resolver consumes 0, 1 or 2 operand bytes from the instruction
//! stream (advancing the program counter as a side effect) and produces an
//! [`AddrResult`]: a 16-bit value (an effective address, or the operand
//! itself for the immediate and implicit modes), the addressing-mode tag,
//! and, for the modes that can incur a one-cycle penalty, whether the index
//! arithmetic crossed a 256-byte page boundary.
//!
//! The spec predicate beside each resolver states exactly what it reads,
//! what it returns, and how the program counter moves.

use vstd::prelude::*;

use crate::cpu::{same_but_pc, Cpu};
use crate::mem;
use crate::mem::{page_of, word_at, MemoryMap};
use crate::util::{wrap_add16, wrap_add8};

verus! {

/// The rule an instruction uses to locate its operand.
#[derive(Clone, Copy, Debug, PartialEq, Eq, Structural)]
pub enum AddrMode {
    Unknown,
    Implicit,
    Immediate,
    Accumulator,
    Relative,
    ZeroPage,
    ZeroPageX,
    ZeroPageY,
    Absolute,
    AbsoluteX,
    AbsoluteY,
    Indirect,
    IndirectX,
    IndirectY,
}

/// The outcome of resolving an addressing mode.
#[derive(Clone, Copy, Debug)]
pub struct AddrResult {
    /// The effective address; for the immediate and implicit modes, the
    /// operand value itself; for the accumulator mode, the accumulator value.
    pub value: u16,
    /// For the modes that can incur a one-cycle page-crossing penalty,
    /// whether the penalty applies; `None` for every other mode.
    pub crosses_boundary: Option<bool>,
    /// Which mode produced this result.
    pub addr_mode: AddrMode,
}

/// The branch target: the post-fetch program counter plus the sign-extended
/// relative offset, wrapping at the top of the address space.
pub open spec fn rel_target(pc_after: u16, offset: u8) -> u16 {
    if offset >= 0x80 {
        wrap_add16(pc_after, (offset + 0xff00) as u16)
    } else {
        wrap_add16(pc_after, offset as u16)
    }
}

/// The indirect-jump dereference, with the hardware page bug: when the
/// pointer's low byte is `0xff`, the target's high byte is fetched from the
/// *start* of the pointer's page, not from the next page.
pub open spec fn ind_target(m: Seq<u8>, ptr: u16) -> u16
    recommends
        m.len() == mem::MEMORY_SIZE,
{
    if ptr % 256 == 255 {
        (m[ptr as int] + 256 * m[(ptr / 256) * 256]) as u16
    } else {
        word_at(m, ptr)
    }
}

/// What `implicit` produces: no operand bytes, no state change.
pub open spec fn implicit_resolved(r: AddrResult) -> bool {
    &&& r.value == 0
    &&& r.crosses_boundary is None
    &&& r.addr_mode == AddrMode::Implicit
}

/// What `acc` produces: no operand bytes; the value is the accumulator.
pub open spec fn acc_resolved(pre: Cpu, post: Cpu, r: AddrResult) -> bool {
    &&& post == pre
    &&& r.value == pre.reg_acc as u16
    &&& r.crosses_boundary is None
    &&& r.addr_mode == AddrMode::Accumulator
}

/// What `imm` produces: one operand byte, taken as the value itself.
pub open spec fn imm_resolved(pre: Cpu, post: Cpu, r: AddrResult) -> bool {
    &&& same_but_pc(pre, post)
    &&& post.reg_pc == wrap_add16(pre.reg_pc, 1)
    &&& r.value == pre.memory.mem@[pre.reg_pc as int] as u16
    &&& r.crosses_boundary is None
    &&& r.addr_mode == AddrMode::Immediate
}

/// What `rel` produces: one signed offset byte, added to the post-fetch
/// program counter; the page-crossing flag compares the post-fetch program
/// counter's page with the target's page.
pub open spec fn rel_resolved(pre: Cpu, post: Cpu, r: AddrResult) -> bool {
    &&& same_but_pc(pre, post)
    &&& post.reg_pc == wrap_add16(pre.reg_pc, 1)
    &&& r.value == rel_target(post.reg_pc, pre.memory.mem@[pre.reg_pc as int])
    &&& r.crosses_boundary == Some(page_of(post.reg_pc) != page_of(r.value))
    &&& r.addr_mode == AddrMode::Relative
}

/// What `zero_page` produces: one operand byte, used as an address in the
/// first 256 bytes of memory.
pub open spec fn zero_page_resolved(pre: Cpu, post: Cpu, r: AddrResult) -> bool {
    &&& same_but_pc(pre, post)
    &&& post.reg_pc == wrap_add16(pre.reg_pc, 1)
    &&& r.value == pre.memory.mem@[pre.reg_pc as int] as u16
    &&& r.crosses_boundary is None
    &&& r.addr_mode == AddrMode::ZeroPage
}

/// What `zero_page_x` / `zero_page_y` produce: the operand byte plus the
/// index register, wrapping within page zero.
pub open spec fn zero_page_indexed_resolved(
    pre: Cpu,
    post: Cpu,
    r: AddrResult,
    index: u8,
    mode: AddrMode,
) -> bool {
    &&& same_but_pc(pre, post)
    &&& post.reg_pc == wrap_add16(pre.reg_pc, 1)
    &&& r.value == wrap_add8(pre.memory.mem@[pre.reg_pc as int], index) as u16
    &&& r.crosses_boundary is None
    &&& r.addr_mode == mode
}

/// What `abs` produces: a full 16-bit operand used as the address.
pub open spec fn abs_resolved(pre: Cpu, post: Cpu, r: AddrResult) -> bool {
    &&& same_but_pc(pre, post)
    &&& post.reg_pc == wrap_add16(pre.reg_pc, 2)
    &&& r.value == word_at(pre.memory.mem@, pre.reg_pc)
    &&& r.crosses_boundary is None
    &&& r.addr_mode == AddrMode::Absolute
}

/// What `abs_x` / `abs_y` produce: the 16-bit operand plus the index
/// register (a 16-bit wrapping add); the page-crossing flag compares the
/// pre-index base's page with the effective address's page.
pub open spec fn abs_indexed_resolved(
    pre: Cpu,
    post: Cpu,
    r: AddrResult,
    index: u8,
    mode: AddrMode,
) -> bool {
    &&& same_but_pc(pre, post)
    &&& post.reg_pc == wrap_add16(pre.reg_pc, 2)
    &&& r.value == wrap_add16(word_at(pre.memory.mem@, pre.reg_pc), index as u16)
    &&& r.crosses_boundary == Some(
        page_of(word_at(pre.memory.mem@, pre.reg_pc)) != page_of(r.value),
    )
    &&& r.addr_mode == mode
}

/// What `ind` produces: the 16-bit operand is a pointer; the value is the
/// word it points at, fetched with the hardware page bug (see
/// [`ind_target`]).
pub open spec fn ind_resolved(pre: Cpu, post: Cpu, r: AddrResult) -> bool {
    &&& same_but_pc(pre, post)
    &&& post.reg_pc == wrap_add16(pre.reg_pc, 2)
    &&& r.value == ind_target(pre.memory.mem@, word_at(pre.memory.mem@, pre.reg_pc))
    &&& r.crosses_boundary is None
    &&& r.addr_mode == AddrMode::Indirect
}

/// What `ind_x` produces: the operand byte plus X, wrapping within page
/// zero, names a 16-bit pointer; the value is that pointer's word.
pub open spec fn ind_x_resolved(pre: Cpu, post: Cpu, r: AddrResult) -> bool {
    &&& same_but_pc(pre, post)
    &&& post.reg_pc == wrap_add16(pre.reg_pc, 1)
    &&& r.value == word_at(
        pre.memory.mem@,
        wrap_add8(pre.memory.mem@[pre.reg_pc as int], pre.reg_x) as u16,
    )
    &&& r.crosses_boundary is None
    &&& r.addr_mode == AddrMode::IndirectX
}

/// What `ind_y` produces: the operand byte names a zero-page 16-bit pointer;
/// the value is that pointer's word plus Y; the page-crossing flag compares
/// the pointer word's page with the effective address's page.
pub open spec fn ind_y_resolved(pre: Cpu, post: Cpu, r: AddrResult) -> bool {
    &&& same_but_pc(pre, post)
    &&& post.reg_pc == wrap_add16(pre.reg_pc, 1)
    &&& r.value == wrap_add16(
        word_at(pre.memory.mem@, pre.memory.mem@[pre.reg_pc as int] as u16),
        pre.reg_y as u16,
    )
    &&& r.crosses_boundary == Some(
        page_of(word_at(pre.memory.mem@, pre.memory.mem@[pre.reg_pc as int] as u16)) != page_of(
            r.value,
        ),
    )
    &&& r.addr_mode == AddrMode::IndirectY
}

/// The byte such an addressing result stands for, as a function of the
/// memory image and accumulator it is resolved against.
pub open spec fn spec_resolve_operand(r: AddrResult, c: Cpu) -> u8 {
    match r.addr_mode {
        AddrMode::Immediate | AddrMode::Implicit => r.value as u8,
        AddrMode::Accumulator => c.reg_acc,
        _ => c.memory.mem@[r.value as int],
    }
}

impl AddrResult {
    /// Reads the byte operand this result stands for: the stored value for
    /// the immediate and implicit modes, the accumulator for the accumulator
    /// mode, and a memory read at the effective address for every
    /// address-bearing mode.  An `Unknown` mode never reaches this point
    /// when the dispatch table is complete, and is excluded here.
    pub fn resolve(&self, cpu: &mut Cpu) -> (r: u8)
        requires
            old(cpu).wf(),
            self.addr_mode != AddrMode::Unknown,
        ensures
            *final(cpu) == *old(cpu),
            r == spec_resolve_operand(*self, *old(cpu)),
    {
        match self.addr_mode {
            AddrMode::Immediate | AddrMode::Implicit => #[verifier::truncate] (self.value as u8),
            AddrMode::Accumulator => cpu.reg_acc,
            _ => cpu.memory.read_u8_at(&self.value),
        }
    }
}

/// Implicit (and accumulator-free) instructions: nothing to resolve.
pub fn implicit() -> (r: AddrResult)
    ensures
        implicit_resolved(r),
{
    AddrResult { value: 0, crosses_boundary: None, addr_mode: AddrMode::Implicit }
}

/// The accumulator itself is the operand.
pub fn acc(cpu: &mut Cpu) -> (r: AddrResult)
    requires
        old(cpu).wf(),
    ensures
        final(cpu).wf(),
        acc_resolved(*old(cpu), *final(cpu), r),
{
    AddrResult {
        value: cpu.reg_acc as u16,
        crosses_boundary: None,
        addr_mode: AddrMode::Accumulator,
    }
}

/// Immediate: the operand byte is the value.
pub fn imm(cpu: &mut Cpu) -> (r: AddrResult)
    requires
        old(cpu).wf(),
    ensures
        final(cpu).wf(),
        imm_resolved(*old(cpu), *final(cpu), r),
{
    AddrResult { value: cpu.read_u8() as u16, crosses_boundary: None, addr_mode: AddrMode::Immediate }
}

/// Relative: a signed offset from the post-fetch program counter, used by
/// the branch instructions.
pub fn rel(cpu: &mut Cpu) -> (r: AddrResult)
    requires
        old(cpu).wf(),
    ensures
        final(cpu).wf(),
        rel_resolved(*old(cpu), *final(cpu), r),
{
    let offset = cpu.read_u8();
    let base = cpu.reg_pc;
    let off_ext: u16 = if offset >= 0x80 {
        (offset as u16) + 0xff00
    } else {
        offset as u16
    };
    let addr = base.wrapping_add(off_ext);
    AddrResult {
        value: addr,
        crosses_boundary: Some(MemoryMap::crosses_page_boundary(&base, &addr)),
        addr_mode: AddrMode::Relative,
    }
}

/// Zero page: the operand byte is an address in the first 256 bytes.
pub fn zero_page(cpu: &mut Cpu) -> (r: AddrResult)
    requires
        old(cpu).wf(),
    ensures
        final(cpu).wf(),
        zero_page_resolved(*old(cpu), *final(cpu), r),
{
    AddrResult { value: cpu.read_u8() as u16, crosses_boundary: None, addr_mode: AddrMode::ZeroPage }
}

/// Zero page indexed by X: only the low byte is kept, so the address wraps
/// within page zero.
pub fn zero_page_x(cpu: &mut Cpu) -> (r: AddrResult)
    requires
        old(cpu).wf(),
    ensures
        final(cpu).wf(),
        zero_page_indexed_resolved(
            *old(cpu),
            *final(cpu),
            r,
            old(cpu).reg_x,
            AddrMode::ZeroPageX,
        ),
{
    let operand = cpu.read_u8();
    let addr = operand.wrapping_add(cpu.reg_x);
    AddrResult { value: addr as u16, crosses_boundary: None, addr_mode: AddrMode::ZeroPageX }
}

/// Zero page indexed by Y: only the low byte is kept, so the address wraps
/// within page zero.
pub fn zero_page_y(cpu: &mut Cpu) -> (r: AddrResult)
    requires
        old(cpu).wf(),
    ensures
        final(cpu).wf(),
        zero_page_indexed_resolved(
            *old(cpu),
            *final(cpu),
            r,
            old(cpu).reg_y,
            AddrMode::ZeroPageY,
        ),
{
    let operand = cpu.read_u8();
    let addr = operand.wrapping_add(cpu.reg_y);
    AddrResult { value: addr as u16, crosses_boundary: None, addr_mode: AddrMode::ZeroPageY }
}

/// Absolute: the full 16-bit operand is the address.
pub fn abs(cpu: &mut Cpu) -> (r: AddrResult)
    requires
        old(cpu).wf(),
    ensures
        final(cpu).wf(),
        abs_resolved(*old(cpu), *final(cpu), r),
{
    AddrResult { value: cpu.read_u16(), crosses_boundary: None, addr_mode: AddrMode::Absolute }
}

/// Absolute indexed by X: a 16-bit wrapping add, with page-crossing
/// detection against the pre-index base.
pub fn abs_x(cpu: &mut Cpu) -> (r: AddrResult)
    requires
        old(cpu).wf(),
    ensures
        final(cpu).wf(),
        abs_indexed_resolved(*old(cpu), *final(cpu), r, old(cpu).reg_x, AddrMode::AbsoluteX),
{
    let partial_addr = cpu.read_u16();
    let addr = partial_addr.wrapping_add(cpu.reg_x as u16);
    AddrResult {
        value: addr,
        crosses_boundary: Some(MemoryMap::crosses_page_boundary(&partial_addr, &addr)),
        addr_mode: AddrMode::AbsoluteX,
    }
}

/// Absolute indexed by Y: a 16-bit wrapping add, with page-crossing
/// detection against the pre-index base.
pub fn abs_y(cpu: &mut Cpu) -> (r: AddrResult)
    requires
        old(cpu).wf(),
    ensures
        final(cpu).wf(),
        abs_indexed_resolved(*old(cpu), *final(cpu), r, old(cpu).reg_y, AddrMode::AbsoluteY),
{
    let partial_addr = cpu.read_u16();
    let addr = partial_addr.wrapping_add(cpu.reg_y as u16);
    AddrResult {
        value: addr,
        crosses_boundary: Some(MemoryMap::crosses_page_boundary(&partial_addr, &addr)),
        addr_mode: AddrMode::AbsoluteY,
    }
}

/// Indirect: dereferences the 16-bit operand to find the target address,
/// replicating the hardware bug at page ends (see [`ind_target`]).
pub fn ind(cpu: &mut Cpu) -> (r: AddrResult)
    requires
        old(cpu).wf(),
    ensures
        final(cpu).wf(),
        ind_resolved(*old(cpu), *final(cpu), r),
{
    let indirect_addr = cpu.read_u16();
    let absolute_addr: u16 = if indirect_addr % 256 == 255 {
        let page_start = (indirect_addr / 256) * 256;
        let abs_lo = cpu.memory.read_u8_at(&indirect_addr);
        let abs_hi = cpu.memory.read_u8_at(&page_start);
        (abs_lo as u16) + 256 * (abs_hi as u16)
    } else {
        cpu.memory.read_u16_at(&indirect_addr)
    };
    AddrResult { value: absolute_addr, crosses_boundary: None, addr_mode: AddrMode::Indirect }
}

/// Indexed indirect: the operand byte plus X (wrapping in page zero) names
/// a 16-bit pointer, whose word is the effective address.
pub fn ind_x(cpu: &mut Cpu) -> (r: AddrResult)
    requires
        old(cpu).wf(),
    ensures
        final(cpu).wf(),
        ind_x_resolved(*old(cpu), *final(cpu), r),
{
    let base_indirect_addr = cpu.read_u8();
    let indirect_lsb = base_indirect_addr.wrapping_add(cpu.reg_x);
    let addr: u16 = cpu.memory.read_u16_at(&(indirect_lsb as u16));
    AddrResult { value: addr, crosses_boundary: None, addr_mode: AddrMode::IndirectX }
}

/// Indirect indexed: the operand byte names a zero-page 16-bit pointer; Y
/// is added to that pointer's word, with page-crossing detection.
pub fn ind_y(cpu: &mut Cpu) -> (r: AddrResult)
    requires
        old(cpu).wf(),
    ensures
        final(cpu).wf(),
        ind_y_resolved(*old(cpu), *final(cpu), r),
{
    let double_indirect = cpu.read_u8();
    let single_indirect = cpu.memory.read_u16_at(&(double_indirect as u16));
    let addr = single_indirect.wrapping_add(cpu.reg_y as u16);
    AddrResult {
        value: addr,
        crosses_boundary: Some(MemoryMap::crosses_page_boundary(&single_indirect, &addr)),
        addr_mode: AddrMode::IndirectY,
    }
}

} // verus!
