use vstd::prelude::*;
use crate::encoding::{encode_i64, encode_i64_le, le_i64, lemma_encode_decode_i64};
use crate::opcode::OpCode;
use crate::semantics::{binary_result, initial_state, run, step, MachineState, Step};
use crate::laws::lemma_wrap_is_twos_complement;
use crate::vm::{mul_wrapping, rem_truncated};

verus! {

/// The product loop `a = 1; i = 1; while i < limit { a = (a * i) rem modulus;
/// i = i + 1 }`, continued from `a` and `i`, with the machine's arithmetic.
pub open spec fn product_mod_from(a: i64, i: i64, limit: i64, modulus: i64) -> i64
    decreases limit - i,
{
    if i < limit {
        product_mod_from(
            binary_result(OpCode::Rem, binary_result(OpCode::Mul, a, i), modulus),
            (i + 1) as i64,
            limit,
            modulus,
        )
    } else {
        a
    }
}

/// The bytecode of the product loop, leaving `a` in register 0 and `i` in
/// register 1.
pub open spec fn product_mod_code(limit: i64, modulus: i64) -> Seq<u8> {
    seq![1u8] + encode_i64(1) + seq![2u8, 0, 1] + encode_i64(1) + seq![2u8, 1, 3, 1, 1]
        + encode_i64(limit) + seq![8u8, 5, 60, 3, 0, 3, 1, 6, 1] + encode_i64(modulus) + seq![
        7u8,
        2,
        0,
        3,
        1,
        9,
        2,
        1,
        4,
        22,
        0,
    ]
}

/// Instructions the interpreter executes for the product loop from the loop
/// head with counter `i`.
pub open spec fn loop_steps(limit: i64, i: i64) -> nat {
    if i < limit {
        (14 * (limit - i) + 5) as nat
    } else {
        5
    }
}

proof fn lemma_layout(limit: i64, modulus: i64)
    ensures
        ({
            let code = product_mod_code(limit, modulus);
            &&& code.len() == 61
            &&& code[0] == 1 && code[9] == 2 && code[10] == 0 && code[11] == 1
            &&& code[20] == 2 && code[21] == 1 && code[22] == 3 && code[23] == 1
            &&& code[24] == 1 && code[33] == 8 && code[34] == 5 && code[35] == 60
            &&& code[36] == 3 && code[37] == 0 && code[38] == 3 && code[39] == 1
            &&& code[40] == 6 && code[41] == 1 && code[50] == 7 && code[51] == 2
            &&& code[52] == 0 && code[53] == 3 && code[54] == 1 && code[55] == 9
            &&& code[56] == 2 && code[57] == 1 && code[58] == 4 && code[59] == 22
            &&& code[60] == 0
            &&& le_i64(code.subrange(1, 9)) == 1
            &&& le_i64(code.subrange(12, 20)) == 1
            &&& le_i64(code.subrange(25, 33)) == limit
            &&& le_i64(code.subrange(42, 50)) == modulus
        }),
{
    lemma_encode_decode_i64(1);
    lemma_encode_decode_i64(limit);
    lemma_encode_decode_i64(modulus);
    let code = product_mod_code(limit, modulus);
    assert(code.subrange(1, 9) =~= encode_i64(1));
    assert(code.subrange(12, 20) =~= encode_i64(1));
    assert(code.subrange(25, 33) =~= encode_i64(limit));
    assert(code.subrange(42, 50) =~= encode_i64(modulus));
}

proof fn lemma_advance(code: Seq<u8>, s: MachineState, t: MachineState, f: nat)
    requires
        f > 0,
        step(code, s) == Step::Running(t),
    ensures
        run(code, s, f) == run(code, t, (f - 1) as nat),
{
}

/// The loop head: pc 22, an empty stack, `a` and `i` in registers 0 and 1.
pub open spec fn at_loop_head(s: MachineState) -> bool {
    s.pc == 22 && s.stack.len() == 0 && s.locals.len() == 8
}

#[verifier::rlimit(100)]
proof fn lemma_loop(limit: i64, modulus: i64, s: MachineState, f: nat)
    requires
        modulus != 0,
        at_loop_head(s),
        f >= loop_steps(limit, s.locals[1]),
    ensures
        run(product_mod_code(limit, modulus), s, f) is Halted,
        run(product_mod_code(limit, modulus), s, f)->Halted_0.locals[0] == product_mod_from(
            s.locals[0],
            s.locals[1],
            limit,
            modulus,
        ),
    decreases limit - s.locals[1],
{
    let code = product_mod_code(limit, modulus);
    lemma_layout(limit, modulus);
    let a = s.locals[0];
    let i = s.locals[1];
    let e = Seq::<i64>::empty();
    let l = s.locals;
    assert(s.stack =~= e);
    let s1 = MachineState { pc: 24, stack: e.push(i), locals: l };
    lemma_advance(code, s, s1, f);
    let s2 = MachineState { pc: 33, stack: e.push(i).push(limit), locals: l };
    lemma_advance(code, s1, s2, (f - 1) as nat);
    let c: i64 = if i < limit { 1 } else { 0 };
    let s3 = MachineState { pc: 34, stack: e.push(c), locals: l };
    assert(e.push(i).push(limit).drop_last().drop_last().push(c) =~= e.push(c));
    lemma_advance(code, s2, s3, (f - 2) as nat);
    assert(e.push(c).drop_last() =~= e);
    if i < limit {
        let s4 = MachineState { pc: 36, stack: e, locals: l };
        lemma_advance(code, s3, s4, (f - 3) as nat);
        let s5 = MachineState { pc: 38, stack: e.push(a), locals: l };
        lemma_advance(code, s4, s5, (f - 4) as nat);
        let s6 = MachineState { pc: 40, stack: e.push(a).push(i), locals: l };
        lemma_advance(code, s5, s6, (f - 5) as nat);
        let p = binary_result(OpCode::Mul, a, i);
        let s7 = MachineState { pc: 41, stack: e.push(p), locals: l };
        assert(e.push(a).push(i).drop_last().drop_last().push(p) =~= e.push(p));
        lemma_advance(code, s6, s7, (f - 6) as nat);
        let s8 = MachineState { pc: 50, stack: e.push(p).push(modulus), locals: l };
        lemma_advance(code, s7, s8, (f - 7) as nat);
        let q = binary_result(OpCode::Rem, p, modulus);
        let s9 = MachineState { pc: 51, stack: e.push(q), locals: l };
        assert(e.push(p).push(modulus).drop_last().drop_last().push(q) =~= e.push(q));
        lemma_advance(code, s8, s9, (f - 8) as nat);
        let l2 = l.update(0, q);
        let s10 = MachineState { pc: 53, stack: e, locals: l2 };
        assert(e.push(q).drop_last() =~= e);
        lemma_advance(code, s9, s10, (f - 9) as nat);
        let s11 = MachineState { pc: 55, stack: e.push(i), locals: l2 };
        lemma_advance(code, s10, s11, (f - 10) as nat);
        lemma_wrap_is_twos_complement(i + 1);
        let j = (i + 1) as i64;
        let s12 = MachineState { pc: 56, stack: e.push(j), locals: l2 };
        assert(e.push(i).drop_last().push(j) =~= e.push(j));
        lemma_advance(code, s11, s12, (f - 11) as nat);
        let l3 = l2.update(1, j);
        let s13 = MachineState { pc: 58, stack: e, locals: l3 };
        assert(e.push(j).drop_last() =~= e);
        lemma_advance(code, s12, s13, (f - 12) as nat);
        let s14 = MachineState { pc: 22, stack: e, locals: l3 };
        lemma_advance(code, s13, s14, (f - 13) as nat);
        assert(l3[0] == q && l3[1] == j);
        lemma_loop(limit, modulus, s14, (f - 14) as nat);
    } else {
        let s4 = MachineState { pc: 60, stack: e, locals: l };
        lemma_advance(code, s3, s4, (f - 3) as nat);
        assert(run(code, s4, (f - 4) as nat) == step(code, s4));
    }
}

/// The interpreter and a native computation agree on the product loop: run
/// from a fresh machine with the largest budget, its bytecode halts with
/// `product_mod_from(1, 1, limit, modulus)` in register 0, which is what
/// `product_mod` returns. A zero modulus, and a loop too long for the
/// budget, are left out.
pub proof fn lemma_backends_agree(limit: i64, modulus: i64)
    requires
        modulus != 0,
        4 + loop_steps(limit, 1) <= u64::MAX,
    ensures
        run(product_mod_code(limit, modulus), initial_state(), u64::MAX as nat) is Halted,
        run(product_mod_code(limit, modulus), initial_state(), u64::MAX as nat)->Halted_0.locals[0]
            == product_mod_from(1, 1, limit, modulus),
{
    let code = product_mod_code(limit, modulus);
    lemma_layout(limit, modulus);
    let f = (4 + loop_steps(limit, 1)) as nat;
    let e = Seq::<i64>::empty();
    let s0 = initial_state();
    let l0 = s0.locals;
    let s1 = MachineState { pc: 9, stack: e.push(1), locals: l0 };
    lemma_advance(code, s0, s1, f);
    let l1 = l0.update(0, 1);
    let s2 = MachineState { pc: 11, stack: e, locals: l1 };
    assert(e.push(1).drop_last() =~= e);
    lemma_advance(code, s1, s2, (f - 1) as nat);
    let s3 = MachineState { pc: 20, stack: e.push(1), locals: l1 };
    lemma_advance(code, s2, s3, (f - 2) as nat);
    let l2 = l1.update(1, 1);
    let s4 = MachineState { pc: 22, stack: e, locals: l2 };
    lemma_advance(code, s3, s4, (f - 3) as nat);
    assert(l2[0] == 1 && l2[1] == 1);
    lemma_loop(limit, modulus, s4, (f - 4) as nat);
    crate::laws::lemma_run_deterministic(code, s0, f, u64::MAX as nat);
}

/// The product loop computed directly, without the interpreter.
pub fn product_mod(limit: i64, modulus: i64) -> (r: i64)
    requires
        modulus != 0,
    ensures
        r == product_mod_from(1, 1, limit, modulus),
{
    let mut a: i64 = 1;
    let mut i: i64 = 1;
    while i < limit
        invariant
            modulus != 0,
            product_mod_from(a, i, limit, modulus) == product_mod_from(1, 1, limit, modulus),
        decreases limit - i,
    {
        a = rem_truncated(mul_wrapping(a, i), modulus);
        i = i + 1;
    }
    a
}

/// The bytecode of the product loop.
pub fn product_mod_program(limit: i64, modulus: i64) -> (r: Vec<u8>)
    ensures
        r@ == product_mod_code(limit, modulus),
{
    let mut code: Vec<u8> = Vec::new();
    code.push(1);
    code.append(&mut encode_i64_le(1));
    code.push(2);
    code.push(0);
    code.push(1);
    code.append(&mut encode_i64_le(1));
    code.push(2);
    code.push(1);
    code.push(3);
    code.push(1);
    code.push(1);
    code.append(&mut encode_i64_le(limit));
    let tail1: [u8; 9] = [8, 5, 60, 3, 0, 3, 1, 6, 1];
    let mut k: usize = 0;
    while k < 9
        invariant
            0 <= k <= 9,
            code@ == seq![1u8] + encode_i64(1) + seq![2u8, 0, 1] + encode_i64(1) + seq![2u8, 1, 3, 1, 1]
                + encode_i64(limit) + tail1@.subrange(0, k as int),
        decreases 9 - k,
    {
        code.push(tail1[k]);
        k = k + 1;
    }
    code.append(&mut encode_i64_le(modulus));
    let tail2: [u8; 11] = [7, 2, 0, 3, 1, 9, 2, 1, 4, 22, 0];
    let mut k: usize = 0;
    while k < 11
        invariant
            0 <= k <= 11,
            code@ == seq![1u8] + encode_i64(1) + seq![2u8, 0, 1] + encode_i64(1) + seq![2u8, 1, 3, 1, 1]
                + encode_i64(limit) + tail1@ + encode_i64(modulus) + tail2@.subrange(0, k as int),
        decreases 11 - k,
    {
        code.push(tail2[k]);
        k = k + 1;
    }
    code
}

} // verus!
