//! The Fast-Path Dispatcher: rerouting and its equivalence with the plain
//! Core Adapter.

use i2c_adapter::{
    HubrisI2c, I2cOperation, I2cTarget, MockI2c, RegisterOptimizedI2c, ResponseCode, SevenBitAddr,
};

fn addr48() -> SevenBitAddr {
    SevenBitAddr::new(0x48)
}

fn scripted_write_then_read() -> MockI2c {
    let mut harness = MockI2c::new();
    harness.expect_write(addr48(), &[0x10]);
    harness.expect_read(addr48(), &[9, 8, 7, 6]);
    harness
}

#[test]
fn register_transaction_matches_core_outcome() {
    // The same two-element transaction, against the same script, through
    // the plain Core Adapter and through the dispatcher: identical
    // success and identical output bytes.
    let mut core = HubrisI2c::new(scripted_write_then_read());
    let mut core_ops = vec![I2cOperation::Write(vec![0x10]), I2cOperation::Read(vec![0u8; 4])];
    let core_result = core.transaction(addr48(), &mut core_ops);

    let mut fast = RegisterOptimizedI2c::new(HubrisI2c::new(scripted_write_then_read()));
    let mut fast_ops = vec![I2cOperation::Write(vec![0x10]), I2cOperation::Read(vec![0u8; 4])];
    let fast_result = fast.transaction(addr48(), &mut fast_ops);

    assert_eq!(core_result, fast_result);
    assert_eq!(core_result, Ok(()));
    match (&core_ops[1], &fast_ops[1]) {
        (I2cOperation::Read(a), I2cOperation::Read(b)) => {
            assert_eq!(a, b);
            assert_eq!(a, &vec![9, 8, 7, 6]);
        }
        _ => panic!("read elements replaced by writes"),
    }
}

#[test]
fn register_transaction_matches_core_failure() {
    // Against a diverging script both paths fail.
    let mut bad_script = MockI2c::new();
    bad_script.expect_write(addr48(), &[0x11]);
    bad_script.expect_read(addr48(), &[0, 0, 0, 0]);
    let mut core = HubrisI2c::new(bad_script);
    let mut core_ops = vec![I2cOperation::Write(vec![0x10]), I2cOperation::Read(vec![0u8; 4])];
    assert!(core.transaction(addr48(), &mut core_ops).is_err());

    let mut bad_script = MockI2c::new();
    bad_script.expect_write(addr48(), &[0x11]);
    bad_script.expect_read(addr48(), &[0, 0, 0, 0]);
    let mut fast = RegisterOptimizedI2c::new(HubrisI2c::new(bad_script));
    let mut fast_ops = vec![I2cOperation::Write(vec![0x10]), I2cOperation::Read(vec![0u8; 4])];
    assert!(fast.transaction(addr48(), &mut fast_ops).is_err());
}

#[test]
fn register_transaction_failure_is_labelled_and_keeps_elements() {
    let mut fast = RegisterOptimizedI2c::new(HubrisI2c::new(MockI2c::new()));
    let mut ops = vec![I2cOperation::Write(vec![0x10]), I2cOperation::Read(vec![0u8; 4])];
    let e = fast.transaction(addr48(), &mut ops).unwrap_err();
    assert_eq!(e.response_code, ResponseCode::BadResponse);
    assert_eq!(e.operation, "optimized_transaction");
    match &ops[1] {
        I2cOperation::Read(buffer) => assert_eq!(buffer, &vec![0u8; 4]),
        I2cOperation::Write(_) => panic!("elements changed on failure"),
    }
}

#[test]
fn other_transaction_shapes_fall_back_to_core() {
    let mut harness = MockI2c::new();
    harness.expect_write(addr48(), &[0x10, 0x20]);
    harness.expect_read(addr48(), &[1, 2]);
    let mut fast = RegisterOptimizedI2c::new(HubrisI2c::new(harness));
    let mut ops = vec![
        I2cOperation::Write(vec![0x10, 0x20]),
        I2cOperation::Read(vec![0u8; 2]),
    ];
    assert_eq!(fast.transaction(addr48(), &mut ops), Ok(()));
    match &ops[1] {
        I2cOperation::Read(buffer) => assert_eq!(buffer, &vec![1, 2]),
        I2cOperation::Write(_) => panic!("read element replaced by a write"),
    }
}

#[test]
fn single_element_transaction_falls_back_to_core() {
    let mut harness = MockI2c::new();
    harness.expect_write(addr48(), &[0x10]);
    let mut fast = RegisterOptimizedI2c::new(HubrisI2c::new(harness));
    let mut ops = vec![I2cOperation::Write(vec![0x10])];
    assert_eq!(fast.transaction(addr48(), &mut ops), Ok(()));
}

#[test]
fn write_read_single_byte_reroutes_under_its_own_label() {
    let mut harness = MockI2c::new();
    harness.expect_write_read(addr48(), &[0x07], &[0x99]);
    let mut fast = RegisterOptimizedI2c::new(HubrisI2c::new(harness));
    let mut buffer = vec![0u8; 1];
    assert_eq!(fast.write_read(addr48(), &[0x07], &mut buffer), Ok(()));
    assert_eq!(buffer, vec![0x99]);

    let mut empty = RegisterOptimizedI2c::new(HubrisI2c::new(MockI2c::new()));
    let e = empty.write_read(addr48(), &[0x07], &mut buffer).unwrap_err();
    assert_eq!(e.operation, "optimized_write_read");
}

#[test]
fn write_read_multi_byte_delegates_to_core() {
    let mut harness = MockI2c::new();
    harness.expect_write(addr48(), &[0x07, 0x08]);
    harness.expect_read(addr48(), &[0x99]);
    let mut fast = RegisterOptimizedI2c::new(HubrisI2c::new(harness));
    let mut buffer = vec![0u8; 1];
    assert_eq!(fast.write_read(addr48(), &[0x07, 0x08], &mut buffer), Ok(()));
    assert_eq!(buffer, vec![0x99]);
}

#[test]
fn read_and_write_delegate_to_core() {
    let mut harness = MockI2c::new();
    harness.expect_write(addr48(), &[1, 2]);
    harness.expect_read(addr48(), &[3, 4]);
    let mut fast = RegisterOptimizedI2c::new(HubrisI2c::new(harness));
    assert_eq!(fast.write(addr48(), &[1, 2]), Ok(()));
    let mut buffer = vec![0u8; 2];
    assert_eq!(fast.read(addr48(), &mut buffer), Ok(()));
    assert_eq!(buffer, vec![3, 4]);
}

#[test]
fn optimized_register_and_block_reads() {
    let mut harness = MockI2c::new();
    harness.expect_write_read(addr48(), &[0x05], &[0x2A]);
    harness.expect_write_read(addr48(), &[0x06], &[1, 2, 3]);
    let mut fast = RegisterOptimizedI2c::new(HubrisI2c::new(harness));
    assert_eq!(fast.read_register(0x05), Ok(0x2A));
    let mut buffer = vec![0u8; 3];
    assert_eq!(fast.read_block(0x06, &mut buffer), Ok(3));
    assert_eq!(buffer, vec![1, 2, 3]);

    let mut empty = RegisterOptimizedI2c::new(HubrisI2c::new(MockI2c::new()));
    let e = empty.read_block(0x06, &mut buffer).unwrap_err();
    assert_eq!(e.operation, "optimized_block_read");
}
