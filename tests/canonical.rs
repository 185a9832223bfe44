use stackvm::canonical::{product_mod, product_mod_program};
use stackvm::VM;

#[test]
fn native_product_mod_reference_value() {
    assert_eq!(product_mod(1000000, 100000007), 59273026);
}

#[test]
fn native_small_product() {
    assert_eq!(product_mod(5, 1000), 24);
    assert_eq!(product_mod(1, 7), 1);
    assert_eq!(product_mod(-3, 7), 1);
    assert_eq!(product_mod(6, 7), 1);
}

#[test]
fn program_matches_hand_assembly() {
    let expected: Vec<u8> = vec![
        1, 1, 0, 0, 0, 0, 0, 0, 0, 2, 0, 1, 1, 0, 0, 0, 0, 0, 0, 0, 2, 1, 3, 1, 1, 0x40, 0x42,
        0x0f, 0, 0, 0, 0, 0, 8, 5, 60, 3, 0, 3, 1, 6, 1, 0x07, 0xe1, 0xf5, 0x05, 0, 0, 0, 0, 7,
        2, 0, 3, 1, 9, 2, 1, 4, 22, 0,
    ];
    assert_eq!(product_mod_program(1000000, 100000007), expected);
}

#[test]
fn backends_agree() {
    for (limit, modulus) in [(1000000i64, 100000007i64), (5, 1000), (20, 13), (1, 5), (30, -11)] {
        let code = product_mod_program(limit, modulus);
        let mut vm = VM::new();
        assert_eq!(vm.eval(&code), Ok(()));
        assert_eq!(vm.locals()[0], product_mod(limit, modulus));
        assert_eq!(vm.stack(), Vec::<i64>::new());
    }
}
