//! The CPU execution core: the register file, the memory image, the stack,
//! and program loading.
//!
//! The fetch-decode-execute loop itself (`step` and `run`) lives here too;
//! it drives the dispatch table in [`crate::instr::resolver`] and applies the
//! deferred effects built by the instruction constructors.

use vstd::prelude::*;

use crate::instr::resolver;
use crate::instr::{effect_applied, InstrResult};
use crate::mem;
use crate::mem::MemoryMap;
use crate::status_reg::ProcessorStatusRegister;
use crate::util::{wrap_add16, wrap_sub8};

verus! {

/// Where the reset vector lives: the program counter is loaded from this
/// little-endian word on reset.
pub const RESET_VECTOR_ADDR: u16 = 0xfffc;

/// Where the interrupt/break vector lives: `BRK` loads the program counter
/// from this little-endian word.
pub const IRQ_BRK_VECTOR_ADDR: u16 = 0xfffe;

/// The base of the fixed stack page (page 1).
pub const STACK_POINTER_START_ADDR: u16 = 0x0100;

/// One of the CPU's byte-wide registers.
#[derive(Clone, Copy, Debug, PartialEq, Eq, Structural)]
pub enum Register {
    A,
    X,
    Y,
    SP,
}

/// A fault that stops execution: these are surfaced as errors rather than
/// ignored, because the machine state is no longer meaningful afterwards.
#[derive(Clone, Copy, Debug, PartialEq, Eq, Structural)]
pub enum CpuError {
    /// The fetched opcode byte has no entry in the dispatch table.
    UnmappedOpcode(u8),
    /// A pull ran past the top of the stack page.
    StackUnderflow,
    /// `run` stepped for its whole budget without the program halting.  The
    /// budget is far beyond any real program's length, so this arises only
    /// for programs that never halt at all.
    StepLimitReached,
}

/// The processor: registers, status flags, the 64 KiB memory image, and the
/// pending-cycle counter that makes `step` observably cycle-granular.
pub struct Cpu {
    pub reg_acc: u8,
    pub reg_x: u8,
    pub reg_y: u8,
    pub reg_pc: u16,
    pub reg_sp: u8,
    pub reg_status: ProcessorStatusRegister,
    pub memory: MemoryMap,
    pub pending_cycles: Option<u8>,
}

/// True iff the two states agree on everything except the program counter.
pub open spec fn same_but_pc(pre: Cpu, post: Cpu) -> bool {
    &&& post.reg_acc == pre.reg_acc
    &&& post.reg_x == pre.reg_x
    &&& post.reg_y == pre.reg_y
    &&& post.reg_sp == pre.reg_sp
    &&& post.reg_status == pre.reg_status
    &&& post.memory.mem@ == pre.memory.mem@
    &&& post.pending_cycles == pre.pending_cycles
}

/// True iff the two states agree on every register and flag, leaving only the
/// memory image free to differ.
pub open spec fn same_regs(pre: Cpu, post: Cpu) -> bool {
    &&& post.reg_acc == pre.reg_acc
    &&& post.reg_x == pre.reg_x
    &&& post.reg_y == pre.reg_y
    &&& post.reg_pc == pre.reg_pc
    &&& post.reg_sp == pre.reg_sp
    &&& post.reg_status == pre.reg_status
    &&& post.pending_cycles == pre.pending_cycles
}

impl Cpu {
    /// The memory image always spans the full address space.
    pub open spec fn wf(&self) -> bool {
        self.memory.wf()
    }

    /// The address the stack pointer names inside the fixed stack page.
    pub open spec fn spec_sp_addr(&self) -> u16 {
        (STACK_POINTER_START_ADDR + self.reg_sp) as u16
    }

    /// A freshly powered-on CPU: zeroed registers and memory, the stack
    /// pointer at the top of the stack page, no pending cycles.
    pub fn new() -> (r: Self)
        ensures
            r.wf(),
            r.reg_acc == 0,
            r.reg_x == 0,
            r.reg_y == 0,
            r.reg_pc == 0,
            r.reg_sp == 0xff,
            r.reg_status == spec_power_on_status(),
            forall|a: int| 0 <= a < mem::MEMORY_SIZE ==> r.memory.mem@[a] == 0u8,
            r.pending_cycles is None,
    {
        Cpu::default()
    }

    /// Writes `bytes` at `start_addr`, points the reset vector at
    /// `start_addr`, and points the interrupt/break vector at the top of the
    /// address space, so that an unhandled `BRK` ends execution by default.
    pub fn load_program(&mut self, start_addr: u16, bytes: &[u8])
        requires
            old(self).wf(),
            start_addr + bytes@.len() <= mem::MEMORY_SIZE,
        ensures
            final(self).wf(),
            same_regs(*old(self), *final(self)),
            final(self).memory.mem@[RESET_VECTOR_ADDR as int] == (start_addr % 256) as u8,
            final(self).memory.mem@[RESET_VECTOR_ADDR as int + 1] == (start_addr / 256) as u8,
            final(self).memory.mem@[IRQ_BRK_VECTOR_ADDR as int] == 0xffu8,
            final(self).memory.mem@[IRQ_BRK_VECTOR_ADDR as int + 1] == 0xffu8,
            forall|i: int|
                0 <= i < bytes@.len() && !(RESET_VECTOR_ADDR <= start_addr + i)
                    ==> final(self).memory.mem@[start_addr + i] == bytes@[i],
            forall|a: int|
                0 <= a < mem::MEMORY_SIZE && !(start_addr <= a < start_addr + bytes@.len())
                    && !(RESET_VECTOR_ADDR <= a) ==> final(self).memory.mem@[a] == old(
                self,
            ).memory.mem@[a],
    {
        let start_hi: u8 = (start_addr / 256) as u8;
        let start_lo: u8 = (start_addr % 256) as u8;
        self.memory.write_at(&start_addr, bytes);
        let reset_vec: [u8; 2] = [start_lo, start_hi];
        self.memory.write_at(&RESET_VECTOR_ADDR, reset_vec.as_slice());
        let brk_vec: [u8; 2] = [0xff, 0xff];
        self.memory.write_at(&IRQ_BRK_VECTOR_ADDR, brk_vec.as_slice());
    }

    /// Loads the program counter from the reset vector.
    pub fn reset(&mut self)
        requires
            old(self).wf(),
        ensures
            final(self).wf(),
            same_but_pc(*old(self), *final(self)),
            final(self).reg_pc == mem::word_at(old(self).memory.mem@, RESET_VECTOR_ADDR),
    {
        let address = self.memory.read_u16_at(&RESET_VECTOR_ADDR);
        self.reg_pc = address;
    }

    /// Fetches one byte from the instruction stream and advances the program
    /// counter, wrapping at the top of the address space.
    pub fn read_u8(&mut self) -> (r: u8)
        requires
            old(self).wf(),
        ensures
            final(self).wf(),
            same_but_pc(*old(self), *final(self)),
            final(self).reg_pc == wrap_add16(old(self).reg_pc, 1),
            r == old(self).memory.mem@[old(self).reg_pc as int],
    {
        let val = self.memory.read_u8_at(&self.reg_pc);
        self.reg_pc = self.reg_pc.wrapping_add(1);
        val
    }

    /// Fetches a little-endian 16-bit operand from the instruction stream and
    /// advances the program counter by two.
    pub fn read_u16(&mut self) -> (r: u16)
        requires
            old(self).wf(),
        ensures
            final(self).wf(),
            same_but_pc(*old(self), *final(self)),
            final(self).reg_pc == wrap_add16(old(self).reg_pc, 2),
            r == mem::word_at(old(self).memory.mem@, old(self).reg_pc),
    {
        let val = self.memory.read_u16_at(&self.reg_pc);
        self.reg_pc = self.reg_pc.wrapping_add(2);
        val
    }

    /// Fetches one operand byte and reads the byte at the zero-page address
    /// it names.
    pub fn deref_u8(&mut self) -> (r: u8)
        requires
            old(self).wf(),
        ensures
            final(self).wf(),
            same_but_pc(*old(self), *final(self)),
            final(self).reg_pc == wrap_add16(old(self).reg_pc, 1),
            r == old(self).memory.mem@[old(self).memory.mem@[old(self).reg_pc as int] as int],
    {
        let addr = self.read_u8() as u16;
        self.memory.read_u8_at(&addr)
    }

    /// The concrete address the stack pointer names.
    fn get_real_sp_addr(&self) -> (r: u16)
        ensures
            r == self.spec_sp_addr(),
    {
        STACK_POINTER_START_ADDR + (self.reg_sp as u16)
    }

    /// Pushes one byte: stores it at the stack pointer's address inside page
    /// 1, then decrements the stack pointer, wrapping within the page.
    pub fn push_u8(&mut self, val: u8)
        requires
            old(self).wf(),
        ensures
            final(self).wf(),
            pushed(*old(self), *final(self), val),
    {
        let addr = self.get_real_sp_addr();
        self.memory.mem[addr as usize] = val;
        self.reg_sp = self.reg_sp.wrapping_sub(1);
    }

    /// Pops one byte: increments the stack pointer and reads the byte it then
    /// names.  Popping with the stack pointer already at the top of the stack
    /// page is an underflow and yields `None`, leaving the state unchanged;
    /// the caller decides whether that is fatal.
    pub fn pop_u8(&mut self) -> (r: Option<u8>)
        requires
            old(self).wf(),
        ensures
            final(self).wf(),
            popped(*old(self), *final(self), r),
    {
        if self.reg_sp == 0xff {
            return None;
        }
        self.reg_sp = self.reg_sp + 1;
        let addr = self.get_real_sp_addr();
        let val = self.memory.mem[addr as usize];
        Some(val)
    }
}

/// What pushing one byte does: the byte lands at the stack pointer's
/// address inside the stack page, and the pointer steps down, wrapping
/// within the page.
pub open spec fn pushed(pre: Cpu, post: Cpu, val: u8) -> bool {
    &&& post.memory.mem@ == pre.memory.mem@.update(pre.spec_sp_addr() as int, val)
    &&& post.reg_sp == wrap_sub8(pre.reg_sp, 1)
    &&& post.reg_acc == pre.reg_acc
    &&& post.reg_x == pre.reg_x
    &&& post.reg_y == pre.reg_y
    &&& post.reg_pc == pre.reg_pc
    &&& post.reg_status == pre.reg_status
    &&& post.pending_cycles == pre.pending_cycles
}

/// What popping one byte does: with the stack pointer already at the top of
/// the page the pop underflows, yields nothing, and changes nothing;
/// otherwise the pointer steps up and the byte it then names comes back.
pub open spec fn popped(pre: Cpu, post: Cpu, r: Option<u8>) -> bool {
    if pre.reg_sp == 0xff {
        &&& r is None
        &&& post == pre
    } else {
        &&& post.reg_sp == pre.reg_sp + 1
        &&& r == Some(pre.memory.mem@[post.spec_sp_addr() as int])
        &&& post.memory.mem@ == pre.memory.mem@
        &&& post.reg_acc == pre.reg_acc
        &&& post.reg_x == pre.reg_x
        &&& post.reg_y == pre.reg_y
        &&& post.reg_pc == pre.reg_pc
        &&& post.reg_status == pre.reg_status
        &&& post.pending_cycles == pre.pending_cycles
    }
}

/// The stack is last-in, first-out: popping right after a push yields the
/// byte just pushed and returns the stack pointer and every register to
/// where they were; only the pushed byte's slot in the stack page remains
/// written.  The one excluded start is a stack pointer of zero, where the
/// push wraps to the top of the page and the following pop underflows.
pub proof fn lemma_stack_round_trip(s0: Cpu, s1: Cpu, s2: Cpu, val: u8, r: Option<u8>)
    requires
        s0.wf(),
        s0.reg_sp != 0,
        pushed(s0, s1, val),
        popped(s1, s2, r),
    ensures
        r == Some(val),
        s2.reg_sp == s0.reg_sp,
        s2.reg_acc == s0.reg_acc,
        s2.reg_x == s0.reg_x,
        s2.reg_y == s0.reg_y,
        s2.reg_pc == s0.reg_pc,
        s2.reg_status == s0.reg_status,
        s2.pending_cycles == s0.pending_cycles,
        s2.memory.mem@ == s0.memory.mem@.update(s0.spec_sp_addr() as int, val),
{
    assert(s1.memory.mem@[s0.spec_sp_addr() as int] == val);
}

/// One tick of the pending-cycle counter: the counter steps down (reaching
/// `None` from one) and nothing else moves.
pub open spec fn delay_tick(pre: Cpu, post: Cpu, c: u8) -> bool {
    &&& post.pending_cycles == (if c <= 1 {
        None::<u8>
    } else {
        Some((c - 1) as u8)
    })
    &&& post.reg_acc == pre.reg_acc
    &&& post.reg_x == pre.reg_x
    &&& post.reg_y == pre.reg_y
    &&& post.reg_pc == pre.reg_pc
    &&& post.reg_sp == pre.reg_sp
    &&& post.reg_status == pre.reg_status
    &&& post.memory.mem@ == pre.memory.mem@
}

/// The two states agree on everything except the pending-cycle counter.
pub open spec fn same_but_pending(pre: Cpu, post: Cpu) -> bool {
    &&& post.reg_acc == pre.reg_acc
    &&& post.reg_x == pre.reg_x
    &&& post.reg_y == pre.reg_y
    &&& post.reg_pc == pre.reg_pc
    &&& post.reg_sp == pre.reg_sp
    &&& post.reg_status == pre.reg_status
    &&& post.memory.mem@ == pre.memory.mem@
}

/// What one `step` call does.
///
/// With cycles still pending, the counter ticks down and nothing else moves.
/// Otherwise, with the program counter at the top of the address space,
/// execution is exhausted and the state is untouched.  Otherwise one opcode
/// byte is fetched; a byte outside the dispatch table is a fault.  A mapped
/// byte is decoded (consuming its operand bytes, per
/// [`resolver::decoded`]) and its effect applied (per
/// [`crate::instr::effect_applied`]); the instruction's cycle cost becomes
/// the pending-cycle counter, so the following calls tick it off.
pub open spec fn spec_step(pre: Cpu, post: Cpu, r: Result<bool, CpuError>) -> bool {
    match pre.pending_cycles {
        Some(c) => r == Ok::<bool, CpuError>(true) && delay_tick(pre, post, c),
        None => {
            if pre.reg_pc >= 0xffff {
                &&& r == Ok::<bool, CpuError>(false)
                &&& post == pre
            } else {
                let opcode = pre.memory.mem@[pre.reg_pc as int];
                match resolver::spec_resolve(opcode) {
                    None => {
                        &&& r == Err::<bool, CpuError>(CpuError::UnmappedOpcode(opcode))
                        &&& same_but_pc(pre, post)
                        &&& post.reg_pc == wrap_add16(pre.reg_pc, 1)
                    },
                    Some((op, mode)) => exists|fetched: Cpu, mid: Cpu, ir: InstrResult|
                        {
                            &&& same_but_pc(pre, fetched)
                            &&& fetched.reg_pc == wrap_add16(pre.reg_pc, 1)
                            &&& #[trigger] resolver::decoded(fetched, mid, ir, op, mode)
                            &&& match r {
                                Ok(b) => {
                                    &&& b == true
                                    &&& exists|applied: Cpu|
                                        {
                                            &&& #[trigger] effect_applied(
                                                mid,
                                                applied,
                                                ir.effect,
                                                Ok::<(), CpuError>(()),
                                            )
                                            &&& same_but_pending(applied, post)
                                            &&& post.pending_cycles == Some(ir.cycles)
                                        }
                                },
                                Err(e) => effect_applied(
                                    mid,
                                    post,
                                    ir.effect,
                                    Err::<(), CpuError>(e),
                                ),
                            }
                        },
                }
            }
        },
    }
}

/// `post` is reached from `pre` by a chain of exactly `n` `step`
/// transitions: every step but the last reports more work (`Ok(true)`),
/// and the last one yields `r`.
pub open spec fn steps_to(pre: Cpu, post: Cpu, r: Result<bool, CpuError>, n: nat) -> bool
    decreases n,
{
    if n == 0 {
        false
    } else if n == 1 {
        spec_step(pre, post, r)
    } else {
        exists|mid: Cpu|
            #[trigger] spec_step(pre, mid, Ok::<bool, CpuError>(true)) && steps_to(
                mid,
                post,
                r,
                (n - 1) as nat,
            )
    }
}

/// A chain of busy steps followed by one more step is one step longer.
proof fn lemma_steps_to_extend(a: Cpu, b: Cpu, c: Cpu, r: Result<bool, CpuError>, n: nat)
    requires
        steps_to(a, b, Ok::<bool, CpuError>(true), n),
        spec_step(b, c, r),
    ensures
        steps_to(a, c, r, n + 1),
    decreases n,
{
    if n == 1 {
        assert(spec_step(a, b, Ok::<bool, CpuError>(true)));
        assert(steps_to(b, c, r, 1));
        assert(steps_to(a, c, r, 2));
    } else {
        let mid = choose|mid: Cpu|
            #[trigger] spec_step(a, mid, Ok::<bool, CpuError>(true)) && steps_to(
                mid,
                b,
                Ok::<bool, CpuError>(true),
                (n - 1) as nat,
            );
        lemma_steps_to_extend(mid, b, c, r, (n - 1) as nat);
        assert(steps_to(a, c, r, n + 1));
    }
}

/// What `run`'s result says about the chain of steps behind it: a clean
/// return means the last step reported exhaustion; a fault is the last
/// step's own outcome; and the step-limit error instead ends a chain whose
/// every step still reported work.
pub open spec fn run_chain(start: Cpu, post: Cpu, r: Result<(), CpuError>, n: nat) -> bool {
    match r {
        Ok(()) => steps_to(start, post, Ok::<bool, CpuError>(false), n),
        Err(e) => steps_to(start, post, Err::<bool, CpuError>(e), n) || (e
            == CpuError::StepLimitReached && steps_to(start, post, Ok::<bool, CpuError>(true), n)),
    }
}

impl Cpu {
    /// Fetches the next opcode byte, or reports that the program counter has
    /// reached the top of the address space.
    fn next_instr(&mut self) -> (r: Option<u8>)
        requires
            old(self).wf(),
        ensures
            final(self).wf(),
            old(self).reg_pc >= 0xffff ==> r is None && *final(self) == *old(self),
            old(self).reg_pc < 0xffff ==> {
                &&& r == Some(old(self).memory.mem@[old(self).reg_pc as int])
                &&& same_but_pc(*old(self), *final(self))
                &&& final(self).reg_pc == wrap_add16(old(self).reg_pc, 1)
            },
    {
        if self.reg_pc < 0xffff {
            Some(self.read_u8())
        } else {
            None
        }
    }

    /// One cycle-quantum of progress: see [`spec_step`].  `Ok(false)` means
    /// no further instruction can be fetched; the errors are fatal decode or
    /// stack faults.
    pub fn step(&mut self) -> (r: Result<bool, CpuError>)
        requires
            old(self).wf(),
        ensures
            final(self).wf(),
            spec_step(*old(self), *final(self), r),
    {
        match self.pending_cycles {
            Some(cycles) => {
                self.pending_cycles = if cycles <= 1 {
                    None
                } else {
                    Some(cycles - 1)
                };
                return Ok(true);
            },
            None => {},
        }
        let fetched_opcode = match self.next_instr() {
            None => {
                return Ok(false);
            },
            Some(opcode) => opcode,
        };
        let ghost fetched = *self;
        match resolver::resolve(fetched_opcode) {
            None => Err(CpuError::UnmappedOpcode(fetched_opcode)),
            Some((op, mode)) => {
                let ir = resolver::decode(self, op, mode);
                let ghost mid = *self;
                match ir.run(self) {
                    Ok(()) => {
                        let ghost applied = *self;
                        self.pending_cycles = Some(ir.cycles);
                        proof {
                            assert(resolver::decoded(fetched, mid, ir, op, mode));
                            assert(effect_applied(mid, applied, ir.effect, Ok::<(), CpuError>(())));
                        }
                        Ok(true)
                    },
                    Err(e) => {
                        proof {
                            assert(resolver::decoded(fetched, mid, ir, op, mode));
                        }
                        Err(e)
                    },
                }
            },
        }
    }

    /// Loads the program counter from the reset vector, then steps until no
    /// further instruction can be fetched, or until a fault stops execution.
    ///
    /// The final state is always reached from the reset of the initial
    /// state by a chain of [`spec_step`] transitions, as [`run_chain`]
    /// states.  The loop carries a step budget of `u64::MAX`, unreachable
    /// by any halting program, so that a program that never halts is
    /// reported rather than spun on forever.
    pub fn run(&mut self) -> (r: Result<(), CpuError>)
        requires
            old(self).wf(),
        ensures
            final(self).wf(),
            r is Ok ==> final(self).pending_cycles is None && final(self).reg_pc >= 0xffff,
            exists|after_reset: Cpu, n: nat|
                {
                    &&& same_but_pc(*old(self), after_reset)
                    &&& after_reset.reg_pc == mem::word_at(
                        old(self).memory.mem@,
                        RESET_VECTOR_ADDR,
                    )
                    &&& #[trigger] run_chain(after_reset, *final(self), r, n)
                },
    {
        self.reset();
        let ghost after_reset = *self;
        let ghost mut taken: nat = 0;
        let mut budget: u64 = u64::MAX;
        while budget > 0
            invariant
                self.wf(),
                same_but_pc(*old(self), after_reset),
                after_reset.reg_pc == mem::word_at(old(self).memory.mem@, RESET_VECTOR_ADDR),
                taken + budget == u64::MAX,
                taken == 0 ==> *self == after_reset,
                taken > 0 ==> steps_to(after_reset, *self, Ok::<bool, CpuError>(true), taken),
            decreases budget,
        {
            budget = budget - 1;
            let ghost before = *self;
            match self.step() {
                Ok(true) => {
                    proof {
                        if taken > 0 {
                            lemma_steps_to_extend(
                                after_reset,
                                before,
                                *self,
                                Ok::<bool, CpuError>(true),
                                taken,
                            );
                        } else {
                            assert(steps_to(after_reset, *self, Ok::<bool, CpuError>(true), 1));
                        }
                        taken = taken + 1;
                    }
                },
                Ok(false) => {
                    proof {
                        let n_done: nat = taken + 1;
                        if taken > 0 {
                            lemma_steps_to_extend(
                                after_reset,
                                before,
                                *self,
                                Ok::<bool, CpuError>(false),
                                taken,
                            );
                        } else {
                            assert(steps_to(after_reset, *self, Ok::<bool, CpuError>(false), 1));
                        }
                        assert(run_chain(after_reset, *self, Ok::<(), CpuError>(()), n_done));
                    }
                    return Ok(());
                },
                Err(e) => {
                    proof {
                        let n_done: nat = taken + 1;
                        if taken > 0 {
                            lemma_steps_to_extend(
                                after_reset,
                                before,
                                *self,
                                Err::<bool, CpuError>(e),
                                taken,
                            );
                        } else {
                            assert(steps_to(after_reset, *self, Err::<bool, CpuError>(e), 1));
                        }
                        assert(run_chain(after_reset, *self, Err::<(), CpuError>(e), n_done));
                    }
                    return Err(e);
                },
            }
        }
        proof {
            assert(run_chain(
                after_reset,
                *self,
                Err::<(), CpuError>(CpuError::StepLimitReached),
                taken,
            ));
        }
        Err(CpuError::StepLimitReached)
    }
}

/// The power-on flag set.
pub open spec fn spec_power_on_status() -> ProcessorStatusRegister {
    ProcessorStatusRegister {
        negative: false,
        overflow: false,
        brk: false,
        decimal_mode: false,
        irq_disable: false,
        zero: false,
        carry: false,
    }
}

impl Default for Cpu {
    /// The same state as [`Cpu::new`].
    fn default() -> (r: Self)
        ensures
            r.wf(),
            r.reg_acc == 0,
            r.reg_x == 0,
            r.reg_y == 0,
            r.reg_pc == 0,
            r.reg_sp == 0xff,
            r.reg_status == spec_power_on_status(),
            forall|a: int| 0 <= a < mem::MEMORY_SIZE ==> r.memory.mem@[a] == 0u8,
            r.pending_cycles is None,
    {
        Cpu {
            reg_acc: 0,
            reg_x: 0,
            reg_y: 0,
            reg_pc: 0,
            reg_sp: 0xff,
            reg_status: ProcessorStatusRegister::default(),
            memory: MemoryMap::default(),
            pending_cycles: None,
        }
    }
}

} // verus!
