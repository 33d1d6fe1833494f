//! The faults that end an instruction before it has changed anything.

use vstd::prelude::*;
use crate::alu::ArithmeticFault;
use crate::instruction::DecodeError;
use crate::memory::MemoryError;

verus! {

/// The stack pointer would leave memory.
#[derive(Clone, Copy, Debug, PartialEq, Eq, Structural)]
pub enum StackFault {
    /// A push would take the stack pointer below address 0.
    Overflow,
    /// A pop would take the stack pointer to or past the end of memory.
    Underflow,
}

/// Why an instruction was not executed. A faulting instruction leaves the
/// whole machine as it was.
#[derive(Clone, Copy, Debug, PartialEq, Eq, Structural)]
pub enum Fault {
    /// The word at the program counter is no instruction.
    Decode(DecodeError),
    /// The instruction, or the fetch of it, reaches past the end of memory.
    Memory(MemoryError),
    /// The instruction divides by zero.
    Arithmetic(ArithmeticFault),
    /// The instruction pushes on a full stack or pops an empty one.
    Stack(StackFault),
}

} // verus!
