//! The ways in which the machine can refuse to go on.
use vstd::prelude::*;

verus! {

/// A fatal condition.  The operation that reports one has changed nothing.
#[derive(Debug, Clone, Copy, PartialEq, Eq, Structural)]
pub enum VmError {
    /// A program image does not fit between its load offset and the end of
    /// memory.
    LoadError,
    /// A subroutine call was made with the call stack already full.
    StackOverflow,
    /// A return was made with the call stack empty.
    StackUnderflow,
    /// The word is not an instruction of the machine.
    UnrecognizedInstruction(u16),
    /// A register index, key index, memory address, pixel coordinate, sprite
    /// height or program counter lies outside its valid range.
    OutOfRangeAddress,
}

} // verus!
