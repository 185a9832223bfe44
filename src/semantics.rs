use vstd::prelude::*;
use crate::encoding::{le_i64, word_range};
use crate::error::VmError;
use crate::opcode::{opcode_of, OpCode};
use crate::operand_stack::MAX_STACK;

verus! {

/// The number of local registers.
pub const LOCAL_COUNT: usize = 8;

/// Where the machine stands between two instructions: the offset of the next
/// opcode, the operand stack (bottom first) and the local registers.
pub struct MachineState {
    pub pc: int,
    pub stack: Seq<i64>,
    pub locals: Seq<i64>,
}

/// What one instruction, or a run of them, leads to.
pub enum Step {
    /// Still executing, at this state.
    Running(MachineState),
    /// `Halt` was executed; this is the final state.
    Halted(MachineState),
    /// The run stopped with an error.
    Faulted(VmError),
}

/// `x` reduced to a signed 64-bit value, as two's-complement wraparound does.
pub open spec fn wrap_i64(x: int) -> int {
    let m = x % word_range();
    if m > i64::MAX {
        m - word_range()
    } else {
        m
    }
}

/// The remainder of truncating division of `a` by `b`: its sign follows `a`.
pub open spec fn trunc_rem(a: int, b: int) -> int {
    let m = if b < 0 {
        -b
    } else {
        b
    };
    if a >= 0 {
        a % m
    } else {
        -((-a) % m)
    }
}

/// The value that `Mul`, `Rem` or `LessThan` pushes for left operand `a` and
/// right operand `b`.
pub open spec fn binary_result(op: OpCode, a: i64, b: i64) -> i64 {
    match op {
        OpCode::Mul => wrap_i64(a * b) as i64,
        OpCode::Rem => trunc_rem(a as int, b as int) as i64,
        _ => if a < b {
            1
        } else {
            0
        },
    }
}

/// The state of a fresh machine at the start of a program.
pub open spec fn initial_state() -> MachineState {
    MachineState { pc: 0, stack: Seq::empty(), locals: Seq::new(LOCAL_COUNT as nat, |i: int| 0i64) }
}

/// Moves the program counter to the jump target held in the byte at `at`.
pub open spec fn jump_to(code: Seq<u8>, s: MachineState, at: int, stack: Seq<i64>) -> Step {
    if code[at] as int > code.len() {
        Step::Faulted(VmError::OutOfBounds)
    } else {
        Step::Running(MachineState { pc: code[at] as int, stack, locals: s.locals })
    }
}

/// The effect of the one instruction at `s.pc` of `code`.
pub open spec fn step(code: Seq<u8>, s: MachineState) -> Step {
    let pc = s.pc;
    let arg = pc + 1;
    let n = s.stack.len();
    if !(0 <= pc < code.len()) {
        Step::Faulted(VmError::OutOfBounds)
    } else {
        match opcode_of(code[pc]) {
            None => Step::Faulted(VmError::InvalidOpcode),
            Some(OpCode::Halt) => Step::Halted(MachineState { pc: arg, stack: s.stack, locals: s.locals }),
            Some(OpCode::PushConst) => if arg + 8 > code.len() {
                Step::Faulted(VmError::OutOfBounds)
            } else if n >= MAX_STACK {
                Step::Faulted(VmError::StackOverflow)
            } else {
                Step::Running(
                    MachineState {
                        pc: arg + 8,
                        stack: s.stack.push(le_i64(code.subrange(arg, arg + 8))),
                        locals: s.locals,
                    },
                )
            },
            Some(OpCode::StoreLocal) => if arg >= code.len() {
                Step::Faulted(VmError::OutOfBounds)
            } else if code[arg] >= LOCAL_COUNT {
                Step::Faulted(VmError::InvalidLocalIndex)
            } else if n == 0 {
                Step::Faulted(VmError::StackUnderflow)
            } else {
                Step::Running(
                    MachineState {
                        pc: arg + 1,
                        stack: s.stack.drop_last(),
                        locals: s.locals.update(code[arg] as int, s.stack.last()),
                    },
                )
            },
            Some(OpCode::LoadLocal) => if arg >= code.len() {
                Step::Faulted(VmError::OutOfBounds)
            } else if code[arg] >= LOCAL_COUNT {
                Step::Faulted(VmError::InvalidLocalIndex)
            } else if n >= MAX_STACK {
                Step::Faulted(VmError::StackOverflow)
            } else {
                Step::Running(
                    MachineState {
                        pc: arg + 1,
                        stack: s.stack.push(s.locals[code[arg] as int]),
                        locals: s.locals,
                    },
                )
            },
            Some(OpCode::Jump) => if arg >= code.len() {
                Step::Faulted(VmError::OutOfBounds)
            } else {
                jump_to(code, s, arg, s.stack)
            },
            Some(OpCode::JumpIfZero) => if arg >= code.len() {
                Step::Faulted(VmError::OutOfBounds)
            } else if n == 0 {
                Step::Faulted(VmError::StackUnderflow)
            } else if s.stack.last() == 0 {
                jump_to(code, s, arg, s.stack.drop_last())
            } else {
                Step::Running(
                    MachineState { pc: arg + 1, stack: s.stack.drop_last(), locals: s.locals },
                )
            },
            Some(OpCode::Increment) => if n == 0 {
                Step::Faulted(VmError::StackUnderflow)
            } else {
                Step::Running(
                    MachineState {
                        pc: arg,
                        stack: s.stack.drop_last().push(wrap_i64(s.stack.last() + 1) as i64),
                        locals: s.locals,
                    },
                )
            },
            Some(op) => if n < 2 {
                Step::Faulted(VmError::StackUnderflow)
            } else if op == OpCode::Rem && s.stack.last() == 0 {
                Step::Faulted(VmError::DivisionByZero)
            } else {
                Step::Running(
                    MachineState {
                        pc: arg,
                        stack: s.stack.drop_last().drop_last().push(
                            binary_result(op, s.stack[n - 2], s.stack.last()),
                        ),
                        locals: s.locals,
                    },
                )
            },
        }
    }
}

/// Executes at most `fuel` instructions from `s`. `Running` means the fuel
/// ran out first.
pub open spec fn run(code: Seq<u8>, s: MachineState, fuel: nat) -> Step
    decreases fuel,
{
    if fuel == 0 {
        Step::Running(s)
    } else {
        match step(code, s) {
            Step::Running(t) => run(code, t, (fuel - 1) as nat),
            other => other,
        }
    }
}

} // verus!
