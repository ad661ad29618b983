//! A cycle-counting emulator for an 8-bit MOS 6502-class processor.
//!
//! The crate models the flat 64 KiB memory map, the packed processor status
//! byte, the thirteen addressing modes (including the zero-page wraparound and
//! the indirect-jump page bug), the per-opcode instruction semantics with
//! their cycle costs, and the fetch-decode-execute loop of the execution core.
//!
//! Decoding an instruction (which consumes operand bytes and advances the
//! program counter) and executing it (which mutates registers, memory and
//! flags) are two distinct phases: decoding yields an [`instr::InstrResult`]
//! value holding the cycle cost and a deferred effect, and running that value
//! applies the effect to the CPU.

pub mod util;

pub mod mem;

pub mod status_reg;

pub mod cpu;

pub mod addr;

pub mod instr;

pub mod assembler;
