use vstd::prelude::*;
use crate::error::VmError;
use crate::fastcursor::FastCursor;
use crate::opcode::OpCode;
use crate::operand_stack::{stack_items, OperandStack, MAX_STACK};
use crate::semantics::{
    binary_result, initial_state, run, step, trunc_rem, wrap_i64, MachineState, Step, LOCAL_COUNT,
};

verus! {

/// The interpreter: an operand stack and eight local registers.
#[derive(Debug)]
pub struct VM {
    stack: OperandStack,
    locals: [i64; 8],
}

/// The value a run's outcome gives to `eval`: `Ok` on `Halt`, the error on a
/// fault, and `StepLimit` when the budget ran out.
pub open spec fn outcome_result(o: Step) -> Result<(), VmError> {
    match o {
        Step::Halted(_) => Ok(()),
        Step::Faulted(e) => Err(e),
        Step::Running(_) => Err(VmError::StepLimit),
    }
}

/// `a * b` with wraparound.
pub(crate) fn mul_wrapping(a: i64, b: i64) -> (r: i64)
    ensures
        r == wrap_i64(a * b) as i64,
{
    a.wrapping_mul(b)
}

/// The truncated remainder of `a` by a nonzero `b`.
pub(crate) fn rem_truncated(a: i64, b: i64) -> (r: i64)
    requires
        b != 0,
    ensures
        r == trunc_rem(a as int, b as int) as i64,
{
    match a.checked_rem(b) {
        Some(r) => r,
        None => 0,
    }
}

/// The value a binary instruction pushes for operands `a` (left) and `b`.
fn apply_binary(op: OpCode, a: i64, b: i64) -> (r: i64)
    requires
        op == OpCode::Mul || op == OpCode::Rem || op == OpCode::LessThan,
        op == OpCode::Rem ==> b != 0,
    ensures
        r == binary_result(op, a, b),
{
    match op {
        OpCode::Mul => mul_wrapping(a, b),
        OpCode::Rem => rem_truncated(a, b),
        _ => if a < b {
            1
        } else {
            0
        },
    }
}

impl Default for VM {
    /// The same machine as `VM::new`.
    fn default() -> (r: VM)
        ensures
            r.wf(),
            r.state_at(0) == initial_state(),
    {
        VM::new()
    }
}

impl VM {
    /// The operand stack, bottom first.
    pub closed spec fn stack_view(&self) -> Seq<i64> {
        stack_items(self.stack)
    }

    /// The local registers.
    pub closed spec fn locals_view(&self) -> Seq<i64> {
        self.locals@
    }

    /// The stack stays within its ceiling.
    pub open spec fn wf(&self) -> bool {
        self.stack_view().len() <= MAX_STACK && self.locals_view().len() == LOCAL_COUNT
    }

    /// The machine state of this VM with the program counter at `pc`.
    pub open spec fn state_at(&self, pc: int) -> MachineState {
        MachineState { pc, stack: self.stack_view(), locals: self.locals_view() }
    }

    /// A machine with an empty stack and all registers zero.
    pub fn new() -> (r: VM)
        ensures
            r.wf(),
            r.state_at(0) == initial_state(),
    {
        let r = VM { stack: OperandStack::new(), locals: [0i64; 8] };
        assert(r.locals_view() =~= initial_state().locals);
        r
    }

    /// Empties the stack and zeroes the registers, as `new` leaves them.
    pub fn reset(&mut self)
        ensures
            final(self).wf(),
            final(self).state_at(0) == initial_state(),
    {
        *self = VM::new();
    }

    /// A copy of the operand stack, bottom first.
    pub fn stack(&self) -> (r: Vec<i64>)
        ensures
            r@ == self.stack_view(),
    {
        self.stack.to_vec()
    }

    /// A copy of the local registers.
    pub fn locals(&self) -> (r: [i64; 8])
        ensures
            r@ == self.locals_view(),
    {
        self.locals
    }

    /// Pops the top of the stack, or fails with `StackUnderflow`.
    fn pop_operand(&mut self) -> (r: Result<i64, VmError>)
        requires
            old(self).wf(),
        ensures
            final(self).wf(),
            final(self).locals_view() == old(self).locals_view(),
            old(self).stack_view().len() == 0 ==> r == Err::<i64, VmError>(VmError::StackUnderflow),
            old(self).stack_view().len() > 0 ==> r == Ok::<i64, VmError>(
                old(self).stack_view().last(),
            ) && final(self).stack_view() == old(self).stack_view().drop_last(),
    {
        match self.stack.pop() {
            Some(v) => Ok(v),
            None => Err(VmError::StackUnderflow),
        }
    }

    /// Pushes a value, or fails with `StackOverflow` at the ceiling.
    fn push_operand(&mut self, v: i64) -> (r: Result<(), VmError>)
        requires
            old(self).wf(),
        ensures
            final(self).wf(),
            final(self).locals_view() == old(self).locals_view(),
            old(self).stack_view().len() >= MAX_STACK ==> r == Err::<(), VmError>(
                VmError::StackOverflow,
            ),
            old(self).stack_view().len() < MAX_STACK ==> r == Ok::<(), VmError>(())
                && final(self).stack_view() == old(self).stack_view().push(v),
    {
        if self.stack.len() >= MAX_STACK {
            Err(VmError::StackOverflow)
        } else {
            self.stack.push(v);
            Ok(())
        }
    }

    /// Executes the instruction at the cursor. `Ok(true)` means `Halt`.
    fn exec_step(&mut self, cur: &mut FastCursor) -> (r: Result<bool, VmError>)
        requires
            old(self).wf(),
        ensures
            final(self).wf(),
            final(cur).bytes() == old(cur).bytes(),
            match step(old(cur).bytes(), old(self).state_at(old(cur).position() as int)) {
                Step::Running(t) => r == Ok::<bool, VmError>(false) && final(self).state_at(
                    final(cur).position() as int,
                ) == t,
                Step::Halted(t) => r == Ok::<bool, VmError>(true) && final(self).state_at(
                    final(cur).position() as int,
                ) == t,
                Step::Faulted(e) => r == Err::<bool, VmError>(e),
            },
    {
        let byte = match cur.get_u8() {
            Ok(b) => b,
            Err(e) => return Err(e),
        };
        let op = match OpCode::from_byte(byte) {
            Some(op) => op,
            None => return Err(VmError::InvalidOpcode),
        };
        match op {
            OpCode::Halt => Ok(true),
            OpCode::PushConst => {
                let v = match cur.get_i64_le() {
                    Ok(v) => v,
                    Err(e) => return Err(e),
                };
                match self.push_operand(v) {
                    Ok(()) => Ok(false),
                    Err(e) => Err(e),
                }
            },
            OpCode::StoreLocal => {
                let idx = match cur.get_u8() {
                    Ok(i) => i as usize,
                    Err(e) => return Err(e),
                };
                if idx >= LOCAL_COUNT {
                    return Err(VmError::InvalidLocalIndex);
                }
                let v = match self.pop_operand() {
                    Ok(v) => v,
                    Err(e) => return Err(e),
                };
                self.locals[idx] = v;
                Ok(false)
            },
            OpCode::LoadLocal => {
                let idx = match cur.get_u8() {
                    Ok(i) => i as usize,
                    Err(e) => return Err(e),
                };
                if idx >= LOCAL_COUNT {
                    return Err(VmError::InvalidLocalIndex);
                }
                let v = self.locals[idx];
                match self.push_operand(v) {
                    Ok(()) => Ok(false),
                    Err(e) => Err(e),
                }
            },
            OpCode::Jump => {
                let target = match cur.get_u8() {
                    Ok(t) => t,
                    Err(e) => return Err(e),
                };
                match cur.set_position(target as usize) {
                    Ok(()) => Ok(false),
                    Err(e) => Err(e),
                }
            },
            OpCode::JumpIfZero => {
                let target = match cur.get_u8() {
                    Ok(t) => t,
                    Err(e) => return Err(e),
                };
                let v = match self.pop_operand() {
                    Ok(v) => v,
                    Err(e) => return Err(e),
                };
                if v == 0 {
                    match cur.set_position(target as usize) {
                        Ok(()) => Ok(false),
                        Err(e) => Err(e),
                    }
                } else {
                    Ok(false)
                }
            },
            OpCode::Increment => {
                let a = match self.pop_operand() {
                    Ok(v) => v,
                    Err(e) => return Err(e),
                };
                let r = a.wrapping_add(1);
                match self.push_operand(r) {
                    Ok(()) => Ok(false),
                    Err(e) => Err(e),
                }
            },
            OpCode::Mul | OpCode::Rem | OpCode::LessThan => {
                let b = match self.pop_operand() {
                    Ok(v) => v,
                    Err(e) => return Err(e),
                };
                let a = match self.pop_operand() {
                    Ok(v) => v,
                    Err(e) => return Err(e),
                };
                if op == OpCode::Rem && b == 0 {
                    return Err(VmError::DivisionByZero);
                }
                let r = apply_binary(op, a, b);
                match self.push_operand(r) {
                    Ok(()) => Ok(false),
                    Err(e) => Err(e),
                }
            },
        }
    }

    /// Runs `bytecode` from its first byte until `Halt`, a fault, or `budget`
    /// executed instructions, whichever comes first. The result and, on
    /// `Halt`, the final stack and registers are those that `run` gives.
    pub fn eval_with_budget(&mut self, bytecode: &[u8], budget: u64) -> (r: Result<(), VmError>)
        requires
            old(self).wf(),
        ensures
            final(self).wf(),
            r == outcome_result(run(bytecode@, old(self).state_at(0), budget as nat)),
            match run(bytecode@, old(self).state_at(0), budget as nat) {
                Step::Halted(t) => final(self).stack_view() == t.stack && final(self).locals_view()
                    == t.locals,
                _ => true,
            },
    {
        let ghost start = self.state_at(0);
        let mut cur = FastCursor::new(bytecode);
        let mut fuel = budget;
        loop
            invariant
                self.wf(),
                cur.bytes() == bytecode@,
                start == old(self).state_at(0),
                run(bytecode@, self.state_at(cur.position() as int), fuel as nat) == run(
                    bytecode@,
                    start,
                    budget as nat,
                ),
            decreases fuel,
        {
            let ghost s = self.state_at(cur.position() as int);
            if fuel == 0 {
                assert(run(bytecode@, s, 0) == Step::Running(s));
                return Err(VmError::StepLimit);
            }
            assert(run(bytecode@, s, fuel as nat) == match step(bytecode@, s) {
                Step::Running(t) => run(bytecode@, t, (fuel - 1) as nat),
                other => other,
            });
            match self.exec_step(&mut cur) {
                Ok(true) => return Ok(()),
                Ok(false) => {},
                Err(e) => return Err(e),
            }
            fuel = fuel - 1;
        }
    }

    /// Runs `bytecode` to completion, with the largest instruction budget.
    pub fn eval(&mut self, bytecode: &[u8]) -> (r: Result<(), VmError>)
        requires
            old(self).wf(),
        ensures
            final(self).wf(),
            r == outcome_result(run(bytecode@, old(self).state_at(0), u64::MAX as nat)),
            match run(bytecode@, old(self).state_at(0), u64::MAX as nat) {
                Step::Halted(t) => final(self).stack_view() == t.stack && final(self).locals_view()
                    == t.locals,
                _ => true,
            },
    {
        self.eval_with_budget(bytecode, u64::MAX)
    }
}

} // verus!
