use vstd::prelude::*;
use crate::encoding::{encode_i64, lemma_encode_decode_i64, word_range};
use crate::error::VmError;
use crate::opcode::OpCode;
use crate::semantics::{
    binary_result, initial_state, run, step, trunc_rem, wrap_i64, MachineState, Step,
};

verus! {

/// A run that ends (halts or faults) within some budget ends in exactly the
/// same way under every larger budget: the outcome of a program is fixed by
/// the program and the state it starts from.
pub proof fn lemma_run_deterministic(code: Seq<u8>, s: MachineState, f1: nat, f2: nat)
    requires
        f1 <= f2,
        !(run(code, s, f1) is Running),
    ensures
        run(code, s, f2) == run(code, s, f1),
    decreases f1,
{
    if f1 > 0 {
        match step(code, s) {
            Step::Running(t) => {
                lemma_run_deterministic(code, t, (f1 - 1) as nat, (f2 - 1) as nat);
            },
            _ => {},
        }
    }
}

/// `wrap_i64` is 64-bit two's-complement reduction: the result is a signed
/// 64-bit value congruent to its argument modulo 2^64, so the largest value
/// plus one is the smallest.
pub proof fn lemma_wrap_is_twos_complement(x: int)
    ensures
        i64::MIN <= wrap_i64(x) <= i64::MAX,
        (x - wrap_i64(x)) % word_range() == 0,
        wrap_i64(i64::MAX + 1) == i64::MIN,
        i64::MIN <= x <= i64::MAX ==> wrap_i64(x) == x,
{
    let m = x % word_range();
    vstd::arithmetic::div_mod::lemma_fundamental_div_mod(x, word_range());
    if m > i64::MAX {
        assert(x - (m - word_range()) == word_range() * (x / word_range() + 1));
        vstd::arithmetic::div_mod::lemma_mod_multiples_basic(x / word_range() + 1, word_range());
    } else {
        assert(x - m == word_range() * (x / word_range()));
        vstd::arithmetic::div_mod::lemma_mod_multiples_basic(x / word_range(), word_range());
    }
}

/// `Increment` replaces the top of the stack by its successor, wrapping:
/// on `i64::MAX` it leaves `i64::MIN`.
pub proof fn lemma_increment_wraps(code: Seq<u8>, s: MachineState)
    requires
        0 <= s.pc < code.len(),
        code[s.pc] == 9,
        s.stack.len() > 0,
    ensures
        step(code, s) == Step::Running(
            MachineState {
                pc: s.pc + 1,
                stack: s.stack.drop_last().push(wrap_i64(s.stack.last() + 1) as i64),
                locals: s.locals,
            },
        ),
        s.stack.last() == i64::MAX ==> wrap_i64(s.stack.last() + 1) == i64::MIN,
{
    lemma_wrap_is_twos_complement(s.stack.last() + 1);
}

/// `Mul`, `Rem` and `LessThan` take the second value popped as the left
/// operand and the first as the right one, and push one result in their
/// place; `Mul` wraps its product to 64 bits.
pub proof fn lemma_binary_operand_order(code: Seq<u8>, s: MachineState)
    requires
        0 <= s.pc < code.len(),
        code[s.pc] == 6 || code[s.pc] == 7 || code[s.pc] == 8,
        s.stack.len() >= 2,
        code[s.pc] == 7 ==> s.stack.last() != 0,
    ensures
        ({
            let a = s.stack[s.stack.len() - 2];
            let b = s.stack.last();
            let r = if code[s.pc] == 6 {
                wrap_i64(a * b)
            } else if code[s.pc] == 7 {
                trunc_rem(a as int, b as int)
            } else if a < b {
                1
            } else {
                0
            };
            step(code, s) == Step::Running(
                MachineState {
                    pc: s.pc + 1,
                    stack: s.stack.drop_last().drop_last().push(r as i64),
                    locals: s.locals,
                },
            )
        }),
{
}

/// The remainder pushed by `Rem` has the sign of its left operand, is
/// smaller in size than the right one, and differs from the left one by a
/// multiple of the right one: (-7) rem 3 is -1.
pub proof fn lemma_rem_sign(a: i64, b: i64)
    requires
        b != 0,
    ensures
        ({
            let r = binary_result(OpCode::Rem, a, b) as int;
            let m = if b < 0 {
                -b
            } else {
                b as int
            };
            &&& a >= 0 ==> 0 <= r < m
            &&& a < 0 ==> -m < r <= 0
            &&& (a - r) % m == 0
        }),
{
    let m = if b < 0 {
        -b
    } else {
        b as int
    };
    let ai = a as int;
    if a >= 0 {
        let r = ai % m;
        assert(ai == m * (ai / m) + r) by (nonlinear_arith)
            requires
                m > 0,
                r == ai % m,
        ;
        vstd::arithmetic::div_mod::lemma_mod_multiples_basic(ai / m, m);
        assert(ai - r == (ai / m) * m) by (nonlinear_arith)
            requires
                ai == m * (ai / m) + r,
        ;
    } else {
        let na = -ai;
        let r = na % m;
        assert(na == m * (na / m) + r) by (nonlinear_arith)
            requires
                m > 0,
                r == na % m,
        ;
        assert(a + r == (-(na / m)) * m) by (nonlinear_arith)
            requires
                na == m * (na / m) + r,
                na == -a,
        ;
        vstd::arithmetic::div_mod::lemma_mod_multiples_basic(-(na / m), m);
    }
}

/// A value encoded as the operand of `PushConst` comes back unchanged: the
/// program `PushConst v; Halt` ends with exactly `v` on the stack and the
/// registers untouched.
pub proof fn lemma_push_const_round_trip(v: i64)
    ensures
        ({
            let code = seq![1u8] + encode_i64(v) + seq![0u8];
            run(code, initial_state(), 2) == Step::Halted(
                MachineState { pc: 10, stack: seq![v], locals: initial_state().locals },
            )
        }),
{
    lemma_encode_decode_i64(v);
    let code = seq![1u8] + encode_i64(v) + seq![0u8];
    assert(code.subrange(1, 9) =~= encode_i64(v));
    assert(code[0] == 1u8);
    assert(code[9] == 0u8);
    assert(code.len() == 10);
    let s1 = MachineState { pc: 9, stack: seq![v], locals: initial_state().locals };
    assert(Seq::<i64>::empty().push(v) =~= seq![v]);
    assert(step(code, initial_state()) == Step::Running(s1));
    assert(run(code, s1, 1) == step(code, s1));
}

/// A program whose first instruction is `Mul`, `Rem` or `LessThan` fails
/// with `StackUnderflow` on a fresh machine.
pub proof fn lemma_lone_binary_op_underflows(code: Seq<u8>, fuel: nat)
    requires
        code.len() >= 1,
        code[0] == 6 || code[0] == 7 || code[0] == 8,
        fuel >= 1,
    ensures
        run(code, initial_state(), fuel) == Step::Faulted(VmError::StackUnderflow),
{
}

/// `StoreLocal` and `LoadLocal` with an index of 8 or more fail with
/// `InvalidLocalIndex`, whatever the stack holds.
pub proof fn lemma_bad_local_index(code: Seq<u8>, s: MachineState)
    requires
        0 <= s.pc,
        s.pc + 1 < code.len(),
        code[s.pc] == 2 || code[s.pc] == 3,
        code[s.pc + 1] >= 8,
    ensures
        step(code, s) == Step::Faulted(VmError::InvalidLocalIndex),
{
}

/// A byte that names no instruction (any byte from 10 up, 200 among them)
/// in opcode position fails with `InvalidOpcode`.
pub proof fn lemma_unknown_opcode(code: Seq<u8>, s: MachineState)
    requires
        0 <= s.pc < code.len(),
        code[s.pc] >= 10,
    ensures
        step(code, s) == Step::Faulted(VmError::InvalidOpcode),
{
}

} // verus!
