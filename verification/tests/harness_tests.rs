//! The Verification Harness on its own: matching, the distinct mismatch
//! messages, and the bound-endpoint vocabulary.

use i2c_adapter::{
    DeviceClient, ErrorKind, I2cError, I2cOperation, I2cTarget, MockI2c, ResponseCode,
    SevenBitAddr,
};

fn addr48() -> SevenBitAddr {
    SevenBitAddr::new(0x48)
}

fn addr50() -> SevenBitAddr {
    SevenBitAddr::new(0x50)
}

#[test]
fn empty_harness_is_complete() {
    let harness = MockI2c::new();
    assert!(harness.verify_complete());
    let harness = MockI2c::default();
    assert!(harness.verify_complete());
}

#[test]
fn scripted_sequence_is_consumed_in_order() {
    let mut harness = MockI2c::new();
    harness.expect_write(addr48(), &[1]);
    harness.expect_read(addr48(), &[2]);
    harness.expect_write_read(addr48(), &[3], &[4]);
    assert!(!harness.verify_complete());

    assert_eq!(I2cTarget::write(&mut harness, addr48(), &[1]), Ok(()));
    let mut buffer = vec![0u8; 1];
    assert_eq!(harness.read(addr48(), &mut buffer), Ok(()));
    assert_eq!(buffer, vec![2]);
    assert_eq!(harness.write_read(addr48(), &[3], &mut buffer), Ok(()));
    assert_eq!(buffer, vec![4]);
    assert!(harness.verify_complete());
}

#[test]
fn read_mismatches_are_distinct_and_keep_the_cursor() {
    let mut harness = MockI2c::new();
    harness.expect_read(addr48(), &[1, 2]);
    let mut buffer = vec![0u8; 2];

    let e = harness.read(addr50(), &mut buffer).unwrap_err();
    assert_eq!(e.message, "Read address mismatch");

    let mut short = vec![0u8; 1];
    let e = harness.read(addr48(), &mut short).unwrap_err();
    assert_eq!(e.message, "Read buffer size mismatch");

    assert_eq!(
        I2cTarget::write(&mut harness, addr48(), &[1]).unwrap_err().message,
        "Expected write operation"
    );

    // None of the mismatches advanced the cursor.
    assert_eq!(harness.read(addr48(), &mut buffer), Ok(()));
    assert_eq!(buffer, vec![1, 2]);
    assert!(harness.verify_complete());

    let e = harness.read(addr48(), &mut buffer).unwrap_err();
    assert_eq!(e.message, "Unexpected read operation");
}

#[test]
fn write_mismatches_are_distinct_and_keep_the_cursor() {
    let mut harness = MockI2c::new();
    harness.expect_write(addr48(), &[1, 2]);

    let e = I2cTarget::write(&mut harness, addr50(), &[1, 2]).unwrap_err();
    assert_eq!(e.message, "Write address mismatch");

    let e = I2cTarget::write(&mut harness, addr48(), &[1, 3]).unwrap_err();
    assert_eq!(e.message, "Write data mismatch");

    let mut buffer = vec![0u8; 2];
    let e = harness.read(addr48(), &mut buffer).unwrap_err();
    assert_eq!(e.message, "Expected read operation");

    assert_eq!(I2cTarget::write(&mut harness, addr48(), &[1, 2]), Ok(()));
    assert!(harness.verify_complete());

    let e = I2cTarget::write(&mut harness, addr48(), &[1, 2]).unwrap_err();
    assert_eq!(e.message, "Unexpected write operation");
}

#[test]
fn write_read_mismatches_are_distinct_and_keep_the_cursor() {
    let mut harness = MockI2c::new();
    harness.expect_write_read(addr48(), &[0x00], &[0x17, 0x00]);
    let mut buffer = vec![0u8; 2];

    let e = harness.write_read(addr50(), &[0x00], &mut buffer).unwrap_err();
    assert_eq!(e.message, "WriteRead address mismatch");

    let e = harness.write_read(addr48(), &[0x01], &mut buffer).unwrap_err();
    assert_eq!(e.message, "WriteRead write data mismatch");

    let mut short = vec![0u8; 1];
    let e = harness.write_read(addr48(), &[0x00], &mut short).unwrap_err();
    assert_eq!(e.message, "WriteRead read buffer size mismatch");

    let e = I2cTarget::write(&mut harness, addr48(), &[0x00]).unwrap_err();
    assert_eq!(e.message, "Expected write operation");

    assert_eq!(harness.write_read(addr48(), &[0x00], &mut buffer), Ok(()));
    assert_eq!(buffer, vec![0x17, 0x00]);
    assert!(harness.verify_complete());

    let e = harness.write_read(addr48(), &[0x00], &mut buffer).unwrap_err();
    assert_eq!(e.message, "Unexpected write_read operation");
}

#[test]
fn mismatch_errors_classify_as_other() {
    let mut harness = MockI2c::new();
    let mut buffer = vec![0u8; 1];
    let e = harness.read(addr48(), &mut buffer).unwrap_err();
    assert_eq!(e.kind(), ErrorKind::Other);
}

#[test]
fn transaction_on_the_harness_consumes_one_expectation_per_element() {
    let mut harness = MockI2c::new();
    harness.expect_write(addr48(), &[1]);
    harness.expect_read(addr48(), &[2, 3]);
    let mut ops = vec![I2cOperation::Write(vec![1]), I2cOperation::Read(vec![0u8; 2])];
    assert_eq!(harness.transaction(addr48(), &mut ops), Ok(()));
    match &ops[1] {
        I2cOperation::Read(buffer) => assert_eq!(buffer, &vec![2, 3]),
        I2cOperation::Write(_) => panic!("read element replaced by a write"),
    }
    assert!(harness.verify_complete());
}

#[test]
fn bound_endpoint_write_and_read() {
    let mut harness = MockI2c::new();
    harness.expect_write(addr48(), &[1, 2]);
    harness.expect_read(addr48(), &[3, 4]);

    assert_eq!(DeviceClient::write(&mut harness, &[1, 2]), Ok(2));
    let mut buffer = vec![0u8; 2];
    assert_eq!(harness.read_into(&mut buffer), Ok(2));
    assert_eq!(buffer, vec![3, 4]);
    assert!(harness.verify_complete());

    assert_eq!(DeviceClient::write(&mut harness, &[1]), Err(ResponseCode::BadResponse));
}

#[test]
fn bound_endpoint_register_read_matches_write_read_expectation() {
    let mut harness = MockI2c::new();
    harness.expect_write_read(addr48(), &[0x05], &[0x2A]);
    assert_eq!(harness.read_reg(0x05), Ok(0x2A));
    assert!(harness.verify_complete());

    let mut harness = MockI2c::new();
    harness.expect_write_read(addr48(), &[0x05], &[1, 2]);
    let mut buffer = vec![0u8; 2];
    assert_eq!(harness.read_reg_into(0x05, &mut buffer), Ok(2));
    assert_eq!(buffer, vec![1, 2]);
    assert!(harness.verify_complete());
}

#[test]
fn bound_endpoint_register_read_matches_a_write_then_read_pair() {
    // On the bus a register read is a one-byte write then a read; the
    // harness accepts the pair form of the same script.
    let mut harness = MockI2c::new();
    harness.expect_write(addr48(), &[0x05]);
    harness.expect_read(addr48(), &[7, 8, 9]);
    let mut buffer = vec![0u8; 3];
    assert_eq!(harness.read_reg_into(0x05, &mut buffer), Ok(3));
    assert_eq!(buffer, vec![7, 8, 9]);
    assert!(harness.verify_complete());
}

#[test]
fn bound_endpoint_register_read_mismatch_keeps_the_cursor() {
    let mut harness = MockI2c::new();
    harness.expect_write_read(addr48(), &[0x05], &[1, 2]);
    let mut buffer = vec![0u8; 2];
    assert_eq!(harness.read_reg_into(0x06, &mut buffer), Err(ResponseCode::BadResponse));
    assert_eq!(buffer, vec![0, 0]);
    assert_eq!(harness.read_reg_into(0x05, &mut buffer), Ok(2));
    assert!(harness.verify_complete());
}

#[test]
fn bound_endpoint_block_read_answers_like_a_register_read() {
    let mut harness = MockI2c::new();
    harness.expect_write_read(addr48(), &[0x10], &[1, 2, 3, 4]);
    let mut buffer = vec![0u8; 4];
    assert_eq!(harness.read_block(0x10, &mut buffer), Ok(4));
    assert_eq!(buffer, vec![1, 2, 3, 4]);

    assert_eq!(harness.read_block(0x10, &mut buffer), Err(ResponseCode::BadResponse));
}
