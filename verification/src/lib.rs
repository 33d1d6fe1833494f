//! Emulator core for a 16-bit game-console processor.
//!
//! The machine has sixteen general 16-bit registers, a program counter, a
//! stack pointer, four condition flags, a flat byte-addressable memory and a
//! few registers that describe the picture (background colour, sprite size,
//! flip mode). Every instruction is one 32-bit word, stored big-endian, whose
//! first byte is the opcode.
//!
//! The core never touches a display, a speaker or a clock. An instruction that
//! concerns one of them hands the host an [`Effect`] to carry out.

pub mod alu;
pub mod bits;
pub mod cpu;
pub mod effect;
pub mod fault;
pub mod flags;
pub mod instruction;
pub mod laws;
pub mod memory;
pub mod registers;
pub mod rng;
pub mod state;

pub use crate::alu::{AluResult, ArithmeticFault};
pub use crate::cpu::Cpu;
pub use crate::effect::Effect;
pub use crate::fault::{Fault, StackFault};
pub use crate::flags::{Condition, Flags};
pub use crate::instruction::{DecodeError, Instruction};
pub use crate::memory::{Memory, MemoryError};
pub use crate::registers::RegisterFile;
pub use crate::state::State;
