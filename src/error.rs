use vstd::prelude::*;

verus! {

/// Why a run of the machine stopped before reaching `Halt`.
#[derive(Debug, Clone, Copy, PartialEq, Eq, Structural)]
pub enum VmError {
    /// An instruction popped from an empty operand stack.
    StackUnderflow,
    /// A `StoreLocal` or `LoadLocal` index was not below the register count.
    InvalidLocalIndex,
    /// A byte in opcode position names no instruction.
    InvalidOpcode,
    /// A read or a jump went past the end of the program.
    OutOfBounds,
    /// `Rem` with a zero right operand.
    DivisionByZero,
    /// A push would grow the operand stack beyond its fixed ceiling.
    StackOverflow,
    /// The run used up its instruction budget without halting.
    StepLimit,
}

} // verus!
