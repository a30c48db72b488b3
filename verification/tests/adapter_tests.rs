//! The Core Adapter over the scripted harness.

use i2c_adapter::{
    HubrisI2c, I2cOperation, I2cTarget, MockI2c, ResponseCode, SevenBitAddr, TenBitAddr,
};

fn addr48() -> SevenBitAddr {
    SevenBitAddr::new(0x48)
}

#[test]
fn temperature_register_read_succeeds() {
    // A scripted temperature-register read: select register 0x00, get two
    // bytes back.
    let mut harness = MockI2c::new();
    harness.expect_write_read(addr48(), &[0x00], &[0x17, 0x00]);
    let mut core = HubrisI2c::new(harness);
    let mut buffer = vec![0u8; 2];
    assert_eq!(core.write_read(addr48(), &[0x00], &mut buffer), Ok(()));
    assert_eq!(buffer, vec![0x17, 0x00]);
    assert!(core.device().verify_complete());
}

#[test]
fn temperature_register_read_mismatch_leaves_cursor() {
    let mut harness = MockI2c::new();
    harness.expect_write_read(addr48(), &[0x00], &[0x17, 0x00]);
    let mut core = HubrisI2c::new(harness);
    let mut buffer = vec![0u8; 2];
    let e = core.write_read(addr48(), &[0x01], &mut buffer).unwrap_err();
    assert_eq!(e.response_code, ResponseCode::BadResponse);
    assert_eq!(e.operation, "write_read_reg");
    assert!(!core.device().verify_complete());
    // The cursor did not advance: the same call with the right register
    // still matches the first expectation.
    assert_eq!(core.write_read(addr48(), &[0x00], &mut buffer), Ok(()));
    assert_eq!(buffer, vec![0x17, 0x00]);
    assert!(core.device().verify_complete());
}

#[test]
fn identical_reads_succeed_twice_independently() {
    let mut harness = MockI2c::new();
    harness.expect_read(addr48(), &[1, 2, 3]);
    harness.expect_read(addr48(), &[1, 2, 3]);
    let mut core = HubrisI2c::new(harness);
    let mut first = vec![0u8; 3];
    let mut second = vec![0u8; 3];
    assert_eq!(core.read(addr48(), &mut first), Ok(()));
    assert_eq!(core.read(addr48(), &mut second), Ok(()));
    assert_eq!(first, vec![1, 2, 3]);
    assert_eq!(second, vec![1, 2, 3]);
    assert!(core.device().verify_complete());
}

#[test]
fn identical_writes_succeed_twice_independently() {
    let mut harness = MockI2c::new();
    harness.expect_write(addr48(), &[0xAA, 0xBB]);
    harness.expect_write(addr48(), &[0xAA, 0xBB]);
    let mut core = HubrisI2c::new(harness);
    assert_eq!(core.write(addr48(), &[0xAA, 0xBB]), Ok(()));
    assert_eq!(core.write(addr48(), &[0xAA, 0xBB]), Ok(()));
    assert!(core.device().verify_complete());
}

#[test]
fn write_read_multi_byte_falls_back_to_two_phases() {
    let mut harness = MockI2c::new();
    harness.expect_write(addr48(), &[0x10, 0x11]);
    harness.expect_read(addr48(), &[5, 6]);
    let mut core = HubrisI2c::new(harness);
    let mut buffer = vec![0u8; 2];
    assert_eq!(core.write_read(addr48(), &[0x10, 0x11], &mut buffer), Ok(()));
    assert_eq!(buffer, vec![5, 6]);
    assert!(core.device().verify_complete());
}

#[test]
fn failure_labels_name_the_step() {
    let mut core = HubrisI2c::new(MockI2c::new());
    let mut buffer = vec![0u8; 1];

    let e = core.read(addr48(), &mut buffer).unwrap_err();
    assert_eq!(e.response_code, ResponseCode::BadResponse);
    assert_eq!(e.operation, "read");

    let e = core.write(addr48(), &[1]).unwrap_err();
    assert_eq!(e.operation, "write");

    let e = core.write_read(addr48(), &[1], &mut buffer).unwrap_err();
    assert_eq!(e.operation, "write_read_reg");

    let e = core.write_read(addr48(), &[1, 2], &mut buffer).unwrap_err();
    assert_eq!(e.operation, "write_read_write_phase");

    let mut ops = vec![I2cOperation::Read(vec![0u8; 1])];
    let e = core.transaction(addr48(), &mut ops).unwrap_err();
    assert_eq!(e.operation, "transaction_read");

    let mut ops = vec![I2cOperation::Write(vec![1, 2])];
    let e = core.transaction(addr48(), &mut ops).unwrap_err();
    assert_eq!(e.operation, "transaction_write");
}

#[test]
fn write_read_read_phase_failure_is_labelled() {
    let mut harness = MockI2c::new();
    harness.expect_write(addr48(), &[0x10, 0x11]);
    // No read expectation: the read phase fails.
    let mut core = HubrisI2c::new(harness);
    let mut buffer = vec![0u8; 2];
    let e = core.write_read(addr48(), &[0x10, 0x11], &mut buffer).unwrap_err();
    assert_eq!(e.operation, "write_read_read_phase");
}

#[test]
fn transaction_runs_elements_in_order() {
    let mut harness = MockI2c::new();
    harness.expect_write(addr48(), &[0x10]);
    harness.expect_read(addr48(), &[9, 8, 7, 6]);
    let mut core = HubrisI2c::new(harness);
    let mut ops = vec![I2cOperation::Write(vec![0x10]), I2cOperation::Read(vec![0u8; 4])];
    assert_eq!(core.transaction(addr48(), &mut ops), Ok(()));
    match &ops[1] {
        I2cOperation::Read(buffer) => assert_eq!(buffer, &vec![9, 8, 7, 6]),
        I2cOperation::Write(_) => panic!("read element replaced by a write"),
    }
    assert!(core.device().verify_complete());
}

#[test]
fn transaction_stops_at_first_failure() {
    let mut harness = MockI2c::new();
    harness.expect_write(addr48(), &[0x10]);
    let mut core = HubrisI2c::new(harness);
    let mut ops = vec![
        I2cOperation::Write(vec![0x99]),
        I2cOperation::Read(vec![0u8; 4]),
    ];
    let e = core.transaction(addr48(), &mut ops).unwrap_err();
    assert_eq!(e.operation, "transaction_write");
    // The scripted write was never matched.
    assert!(!core.device().verify_complete());
}

#[test]
fn ten_bit_write_emulation_frames_the_exact_bytes() {
    // Address 0x123: 0x123 >> 7 = 0x02, 0xF0 | (0x02 & 0x06) = 0xF2; low
    // byte 0x23. Payload 0xAA follows the header.
    let mut harness = MockI2c::new();
    harness.expect_write(addr48(), &[0xF2, 0x23, 0xAA]);
    let mut core = HubrisI2c::new(harness);
    assert_eq!(core.write_10bit(TenBitAddr::new(0x123), &[0xAA]), Ok(()));
    assert!(core.device().verify_complete());
}

#[test]
fn ten_bit_write_failure_is_labelled() {
    let mut core = HubrisI2c::new(MockI2c::new());
    let e = core.write_10bit(TenBitAddr::new(0x123), &[0xAA]).unwrap_err();
    assert_eq!(e.response_code, ResponseCode::BadResponse);
    assert_eq!(e.operation, "10bit_write");
}

#[test]
fn ten_bit_write_over_256_bytes_is_a_buffer_overflow() {
    let mut core = HubrisI2c::new(MockI2c::new());
    let payload = vec![0u8; 257];
    let e = core.write_10bit(TenBitAddr::new(0x123), &payload).unwrap_err();
    assert_eq!(e.response_code, ResponseCode::BadResponse);
    assert_eq!(e.operation, "10bit_write_buffer_overflow");
    // Nothing reached the client.
    assert!(core.device().verify_complete());
}

#[test]
fn ten_bit_write_of_256_bytes_still_fits() {
    let payload = vec![0x55u8; 256];
    let mut frame = vec![0xF2, 0x23];
    frame.extend_from_slice(&payload);
    let mut harness = MockI2c::new();
    harness.expect_write(addr48(), &frame);
    let mut core = HubrisI2c::new(harness);
    assert_eq!(core.write_10bit(TenBitAddr::new(0x123), &payload), Ok(()));
    assert!(core.device().verify_complete());
}

#[test]
fn ten_bit_read_sends_header_then_reads() {
    let mut harness = MockI2c::new();
    harness.expect_write(addr48(), &[0xF2, 0x23]);
    harness.expect_read(addr48(), &[0xAB, 0xCD]);
    let mut core = HubrisI2c::new(harness);
    let mut buffer = vec![0u8; 2];
    assert_eq!(core.read_10bit(TenBitAddr::new(0x123), &mut buffer), Ok(()));
    assert_eq!(buffer, vec![0xAB, 0xCD]);
    assert!(core.device().verify_complete());
}

#[test]
fn ten_bit_read_address_phase_failure_is_labelled() {
    let mut core = HubrisI2c::new(MockI2c::new());
    let mut buffer = vec![0u8; 2];
    let e = core.read_10bit(TenBitAddr::new(0x123), &mut buffer).unwrap_err();
    assert_eq!(e.operation, "10bit_address_setup");
}

#[test]
fn ten_bit_write_read_chains_both_emulations() {
    let mut harness = MockI2c::new();
    harness.expect_write(addr48(), &[0xF2, 0x23, 0x01]);
    harness.expect_write(addr48(), &[0xF2, 0x23]);
    harness.expect_read(addr48(), &[0x44]);
    let mut core = HubrisI2c::new(harness);
    let mut buffer = vec![0u8; 1];
    assert_eq!(core.write_read_10bit(TenBitAddr::new(0x123), &[0x01], &mut buffer), Ok(()));
    assert_eq!(buffer, vec![0x44]);
    assert!(core.device().verify_complete());
}

#[test]
fn ten_bit_transaction_runs_elements() {
    let mut harness = MockI2c::new();
    harness.expect_write(addr48(), &[0xF2, 0x23, 0x05]);
    harness.expect_write(addr48(), &[0xF2, 0x23]);
    harness.expect_read(addr48(), &[7]);
    let mut core = HubrisI2c::new(harness);
    let mut ops = vec![I2cOperation::Write(vec![0x05]), I2cOperation::Read(vec![0u8; 1])];
    assert_eq!(core.transaction_10bit(TenBitAddr::new(0x123), &mut ops), Ok(()));
    match &ops[1] {
        I2cOperation::Read(buffer) => assert_eq!(buffer, &vec![7]),
        I2cOperation::Write(_) => panic!("read element replaced by a write"),
    }
    assert!(core.device().verify_complete());
}

#[test]
fn read_register_uses_the_register_primitive() {
    let mut harness = MockI2c::new();
    harness.expect_write_read(addr48(), &[0x05], &[0x2A]);
    let mut core = HubrisI2c::new(harness);
    assert_eq!(core.read_register(0x05), Ok(0x2A));
    assert!(core.device().verify_complete());

    let mut empty = HubrisI2c::new(MockI2c::new());
    let e = empty.read_register(0x05).unwrap_err();
    assert_eq!(e.operation, "optimized_register_read");
}

#[test]
fn read_block_returns_the_byte_count() {
    let mut harness = MockI2c::new();
    harness.expect_write_read(addr48(), &[0x05], &[1, 2, 3]);
    let mut core = HubrisI2c::new(harness);
    let mut buffer = vec![0u8; 3];
    assert_eq!(core.read_block(0x05, &mut buffer), Ok(3));
    assert_eq!(buffer, vec![1, 2, 3]);

    let mut empty = HubrisI2c::new(MockI2c::new());
    let e = empty.read_block(0x05, &mut buffer).unwrap_err();
    assert_eq!(e.operation, "smbus_block_read");
}

#[test]
fn device_accessors_reach_the_wrapped_client() {
    let mut harness = MockI2c::new();
    harness.expect_write(addr48(), &[1]);
    let mut core = HubrisI2c::new(harness);
    assert!(!core.device().verify_complete());
    assert_eq!(core.write(addr48(), &[1]), Ok(()));
    assert!(core.device_mut().verify_complete());
}
