use stackvm::encoding::encode_i64_le;
use stackvm::{VmError, VM};

fn push_const(code: &mut Vec<u8>, v: i64) {
    code.push(1);
    code.extend(encode_i64_le(v));
}

fn run_program(code: &[u8]) -> (Result<(), VmError>, VM) {
    let mut vm = VM::new();
    let r = vm.eval(code);
    (r, vm)
}

#[test]
fn test_int() {
    let mut vm = VM::new();
    let bytecode = vec![
        1, // PushConst
        1, 0, 0, 0, 0, 0, 0, 0, // 1
        0, // Halt
    ];
    assert_eq!(vm.eval(&bytecode), Ok(()));
    println!("{:?}", vm.stack());
    assert_eq!(vm.stack(), vec![1]);
    assert_eq!(vm.locals(), [0i64; 8]);
}

#[test]
fn vm_test_iter() {
    let mut vm = VM::new();
    let bytecode = vec![
        1, // PushConst
        1, 0, 0, 0, 0, 0, 0, 0, // 1
        2, // StoreLocal
        0, // 0
        1, // PushConst
        1, 0, 0, 0, 0, 0, 0, 0, // 1
        2, // StoreLocal
        1, // 1
        3, // LoadLocal @22
        1, // 1
        1, // PushConst
        5, 0, 0, 0, 0, 0, 0, 0, // 5
        8,  // LessThan
        5,  // JumpIfZero @34
        50, // to 50
        3,  // LoadLocal
        0,  // 0
        3,  // LoadLocal
        1,  // 1
        6,  // Mul
        2,  // StoreLocal
        0,  // 0
        3,  // LoadLocal
        1,  // 1
        9,  // Increment
        2,  // StoreLocal
        1,  // 1
        4,  // Jump
        22, // to 22
        0,  // Halt @50
    ];
    assert_eq!(vm.eval(&bytecode), Ok(()));
    println!("{:?}", vm);
    assert_eq!(vm.locals()[0], 24);
    assert_eq!(vm.locals()[1], 5);
    assert_eq!(vm.stack(), Vec::<i64>::new());

    let mut vm = VM::new();
    let bytecode = vec![
        1, // PushConst
        1, 0, 0, 0, 0, 0, 0, 0, // 1
        2, // StoreLocal
        0, // 0
        1, // PushConst
        1, 0, 0, 0, 0, 0, 0, 0, // 1
        2, // StoreLocal
        1, // 1
        3, // LoadLocal @22
        1, // 1
        1, // PushConst
        0x40, 0x42, 0x0f, 0, 0, 0, 0, 0, // 1000000
        8,  // LessThan
        5,  // JumpIfZero @34
        60, // to 60
        3,  // LoadLocal
        0,  // 0
        3,  // LoadLocal
        1,  // 1
        6,  // Mul
        1,  // PushConst
        0x07, 0xe1, 0xf5, 0x05, 0, 0, 0, 0, // 100000007
        7,  // Rem
        2,  // StoreLocal
        0,  // 0
        3,  // LoadLocal
        1,  // 1
        9,  // Increment
        2,  // StoreLocal
        1,  // 1
        4,  // Jump
        22, // to 22
        0,  // Halt @60
    ];
    assert_eq!(vm.eval(&bytecode), Ok(()));
    println!("{:?}", vm);
    assert_eq!(vm.locals()[0], 59273026);
    assert_eq!(vm.locals()[1], 1000000);
}

#[test]
fn repeated_runs_agree() {
    let code = vec![1, 7, 0, 0, 0, 0, 0, 0, 0, 9, 2, 3, 3, 3, 0];
    let (r1, vm1) = run_program(&code);
    let (r2, vm2) = run_program(&code);
    assert_eq!(r1, Ok(()));
    assert_eq!(r1, r2);
    assert_eq!(vm1.stack(), vm2.stack());
    assert_eq!(vm1.locals(), vm2.locals());
    assert_eq!(vm1.stack(), vec![8]);
    assert_eq!(vm1.locals()[3], 8);
}

#[test]
fn reset_clears_state() {
    let mut vm = VM::new();
    assert_eq!(vm.eval(&[1, 5, 0, 0, 0, 0, 0, 0, 0, 1, 6, 0, 0, 0, 0, 0, 0, 0, 2, 7, 0]), Ok(()));
    assert_eq!(vm.stack(), vec![5]);
    assert_eq!(vm.locals()[7], 6);
    vm.reset();
    assert_eq!(vm.stack(), Vec::<i64>::new());
    assert_eq!(vm.locals(), [0i64; 8]);
}

#[test]
fn increment_wraps_at_max() {
    let mut code = Vec::new();
    push_const(&mut code, i64::MAX);
    code.push(9);
    code.push(0);
    let (r, vm) = run_program(&code);
    assert_eq!(r, Ok(()));
    assert_eq!(vm.stack(), vec![i64::MIN]);
}

#[test]
fn mul_wraps() {
    let mut code = Vec::new();
    push_const(&mut code, i64::MAX);
    push_const(&mut code, 2);
    code.push(6);
    push_const(&mut code, i64::MIN);
    push_const(&mut code, -1);
    code.push(6);
    code.push(0);
    let (r, vm) = run_program(&code);
    assert_eq!(r, Ok(()));
    assert_eq!(vm.stack(), vec![-2, i64::MIN]);
}

#[test]
fn rem_follows_left_sign() {
    let cases: [(i64, i64, i64); 6] = [
        (-7, 3, -1),
        (7, -3, 1),
        (-7, -3, -1),
        (7, 3, 1),
        (i64::MIN, -1, 0),
        (0, 5, 0),
    ];
    for (a, b, expected) in cases {
        let mut code = Vec::new();
        push_const(&mut code, a);
        push_const(&mut code, b);
        code.push(7);
        code.push(0);
        let (r, vm) = run_program(&code);
        assert_eq!(r, Ok(()));
        assert_eq!(vm.stack(), vec![expected]);
    }
}

#[test]
fn less_than_operand_order() {
    let mut code = Vec::new();
    push_const(&mut code, 2);
    push_const(&mut code, 3);
    code.push(8);
    push_const(&mut code, 3);
    push_const(&mut code, 2);
    code.push(8);
    code.push(0);
    let (r, vm) = run_program(&code);
    assert_eq!(r, Ok(()));
    assert_eq!(vm.stack(), vec![1, 0]);
}

#[test]
fn push_const_round_trip() {
    for v in [0, 1, -1, 42, -123456789, i64::MAX, i64::MIN] {
        let mut code = Vec::new();
        push_const(&mut code, v);
        code.push(0);
        let (r, vm) = run_program(&code);
        assert_eq!(r, Ok(()));
        assert_eq!(vm.stack(), vec![v]);
        assert_eq!(vm.locals(), [0i64; 8]);
    }
}

#[test]
fn encode_is_little_endian() {
    assert_eq!(encode_i64_le(1), vec![1, 0, 0, 0, 0, 0, 0, 0]);
    assert_eq!(encode_i64_le(100000007), vec![0x07, 0xe1, 0xf5, 0x05, 0, 0, 0, 0]);
    assert_eq!(encode_i64_le(-1), vec![0xff; 8]);
    assert_eq!(encode_i64_le(i64::MIN), vec![0, 0, 0, 0, 0, 0, 0, 0x80]);
}

#[test]
fn lone_binary_op_underflows() {
    for op in [6u8, 7, 8] {
        assert_eq!(run_program(&[op]).0, Err(VmError::StackUnderflow));
        assert_eq!(run_program(&[op, 0]).0, Err(VmError::StackUnderflow));
    }
    assert_eq!(run_program(&[9, 0]).0, Err(VmError::StackUnderflow));
    assert_eq!(run_program(&[2, 0, 0]).0, Err(VmError::StackUnderflow));
    assert_eq!(run_program(&[5, 0, 0]).0, Err(VmError::StackUnderflow));
}

#[test]
fn one_operand_binary_op_underflows() {
    assert_eq!(run_program(&[1, 4, 0, 0, 0, 0, 0, 0, 0, 6, 0]).0, Err(VmError::StackUnderflow));
}

#[test]
fn bad_local_index() {
    assert_eq!(run_program(&[2, 8, 0]).0, Err(VmError::InvalidLocalIndex));
    assert_eq!(run_program(&[1, 1, 0, 0, 0, 0, 0, 0, 0, 2, 8, 0]).0, Err(VmError::InvalidLocalIndex));
    assert_eq!(run_program(&[3, 255, 0]).0, Err(VmError::InvalidLocalIndex));
    assert_eq!(run_program(&[3, 7, 0]).0, Ok(()));
}

#[test]
fn unknown_opcode() {
    assert_eq!(run_program(&[200]).0, Err(VmError::InvalidOpcode));
    assert_eq!(run_program(&[10, 0]).0, Err(VmError::InvalidOpcode));
}

#[test]
fn out_of_bounds() {
    assert_eq!(run_program(&[]).0, Err(VmError::OutOfBounds));
    assert_eq!(run_program(&[1, 0, 0]).0, Err(VmError::OutOfBounds));
    assert_eq!(run_program(&[4, 3]).0, Err(VmError::OutOfBounds));
    assert_eq!(run_program(&[4, 2]).0, Err(VmError::OutOfBounds));
    assert_eq!(run_program(&[4]).0, Err(VmError::OutOfBounds));
    assert_eq!(run_program(&[3, 0]).0, Err(VmError::OutOfBounds));
}

#[test]
fn jump_if_zero_only_jumps_on_zero() {
    // 0 on the stack: jump over the push of 9 to the Halt at 13.
    let taken = [1, 0, 0, 0, 0, 0, 0, 0, 0, 5, 13, 1, 9, 0];
    let (r, vm) = run_program(&taken);
    assert_eq!(r, Ok(()));
    assert_eq!(vm.stack(), Vec::<i64>::new());
    let mut not_taken = Vec::new();
    push_const(&mut not_taken, 1);
    not_taken.extend([5, 21]);
    push_const(&mut not_taken, 9);
    not_taken.push(0);
    let (r, vm) = run_program(&not_taken);
    assert_eq!(r, Ok(()));
    assert_eq!(vm.stack(), vec![9]);
}

#[test]
fn division_by_zero() {
    let mut code = Vec::new();
    push_const(&mut code, 5);
    push_const(&mut code, 0);
    code.push(7);
    code.push(0);
    assert_eq!(run_program(&code).0, Err(VmError::DivisionByZero));
}

#[test]
fn step_limit() {
    // Jump to itself forever.
    let mut vm = VM::new();
    assert_eq!(vm.eval_with_budget(&[4, 0], 1000), Err(VmError::StepLimit));
    let mut vm = VM::new();
    assert_eq!(vm.eval_with_budget(&[1, 1, 0, 0, 0, 0, 0, 0, 0, 0], 2), Ok(()));
    let mut vm = VM::new();
    assert_eq!(vm.eval_with_budget(&[1, 1, 0, 0, 0, 0, 0, 0, 0, 0], 1), Err(VmError::StepLimit));
}

#[test]
fn default_is_fresh() {
    let vm = VM::default();
    assert_eq!(vm.stack(), Vec::<i64>::new());
    assert_eq!(vm.locals(), [0i64; 8]);
}
