//! An interpreter for the MOS 6502 microprocessor.
//!
//! [`cpu::Cpu`] executes one instruction for each call of `step` on an
//! address space that implements [`memory::Memory`]. What a step does is
//! stated over [`cpu::state::State`], the state of the processor as a
//! mathematical value: `cpu::semantics` defines the effect of every
//! instruction, of an interrupt and of a whole step on it, and `cpu::laws`
//! proves what follows from those definitions. Every executable function
//! is verified against them.
//!
//! A step never panics. A push without room on the stack, a pop from an
//! empty stack and the KIL opcode are reported as [`error::CpuError`].

pub mod cpu;
pub mod default_memory;
pub mod error;
pub mod instruction;
pub mod instruction_table;
pub mod memory;
pub mod registers;
pub mod text;
pub mod util;
