//! The Retry Decorator: attempt bounds, kind selection and backoff.

use std::cell::{Cell, RefCell};
use std::rc::Rc;

use i2c_adapter::retry::{compute_backoff_ms, kind_is_retryable};
use i2c_adapter::{
    DelayProvider, ErrorKind, HubrisI2c, HubrisI2cError, I2cOperation, I2cTarget, MockI2c,
    NoAcknowledgeSource, NoDelay, RegisterOptimizedI2c, ResponseCode, RetryingI2c, SevenBitAddr,
};

fn addr48() -> SevenBitAddr {
    SevenBitAddr::new(0x48)
}

const ATTEMPT_LABELS: [&str; 8] = [
    "attempt 1", "attempt 2", "attempt 3", "attempt 4", "attempt 5", "attempt 6", "attempt 7",
    "attempt 8",
];

/// A component whose every operation fails with a fixed status code,
/// counting its calls and labelling each attempt.
struct FailingBus {
    code: ResponseCode,
    calls: Rc<Cell<usize>>,
}

impl FailingBus {
    fn fail(&mut self) -> HubrisI2cError {
        let n = self.calls.get();
        self.calls.set(n + 1);
        HubrisI2cError {
            response_code: self.code,
            operation: ATTEMPT_LABELS[n % ATTEMPT_LABELS.len()],
        }
    }
}

impl I2cTarget for FailingBus {
    type Error = HubrisI2cError;

    fn read(&mut self, _addr: SevenBitAddr, _buffer: &mut Vec<u8>) -> Result<(), HubrisI2cError> {
        Err(self.fail())
    }

    fn write(&mut self, _addr: SevenBitAddr, _bytes: &[u8]) -> Result<(), HubrisI2cError> {
        Err(self.fail())
    }

    fn write_read(
        &mut self,
        _addr: SevenBitAddr,
        _bytes: &[u8],
        _buffer: &mut Vec<u8>,
    ) -> Result<(), HubrisI2cError> {
        Err(self.fail())
    }

    fn transaction(
        &mut self,
        _addr: SevenBitAddr,
        _operations: &mut Vec<I2cOperation>,
    ) -> Result<(), HubrisI2cError> {
        Err(self.fail())
    }
}

#[test]
fn retryable_kind_exhausts_exactly_three_attempts() {
    let calls = Rc::new(Cell::new(0));
    let bus = FailingBus { code: ResponseCode::ArbitrationLost, calls: Rc::clone(&calls) };
    let mut retrying = RetryingI2c::new(bus, 2, NoDelay);
    let mut buffer = vec![0u8; 1];
    let e = retrying.read(addr48(), &mut buffer).unwrap_err();
    assert_eq!(calls.get(), 3);
    // The error of the last attempt is returned; earlier ones are
    // discarded.
    assert_eq!(e.operation, "attempt 3");
    assert_eq!(e.response_code, ResponseCode::ArbitrationLost);
}

#[test]
fn other_kind_is_also_retried() {
    let calls = Rc::new(Cell::new(0));
    let bus = FailingBus { code: ResponseCode::BusTimeout, calls: Rc::clone(&calls) };
    let mut retrying = RetryingI2c::new(bus, 1, NoDelay);
    let e = retrying.write(addr48(), &[1]).unwrap_err();
    assert_eq!(calls.get(), 2);
    assert_eq!(e.operation, "attempt 2");
}

#[test]
fn non_retryable_kinds_take_exactly_one_attempt() {
    for code in [
        ResponseCode::BusError,
        ResponseCode::DataNackSent,
        ResponseCode::AddressNackSentEarly,
        ResponseCode::AddressNackSentLate,
    ] {
        let calls = Rc::new(Cell::new(0));
        let bus = FailingBus { code, calls: Rc::clone(&calls) };
        let mut retrying = RetryingI2c::new(bus, 2, NoDelay);
        let mut buffer = vec![0u8; 1];
        let e = retrying.read(addr48(), &mut buffer).unwrap_err();
        assert_eq!(calls.get(), 1, "code {:?} was retried", code);
        assert_eq!(e.operation, "attempt 1");
        assert_eq!(e.response_code, code);
    }
}

#[test]
fn zero_max_retries_means_one_attempt() {
    let calls = Rc::new(Cell::new(0));
    let bus = FailingBus { code: ResponseCode::ArbitrationLost, calls: Rc::clone(&calls) };
    let mut retrying = RetryingI2c::new(bus, 0, NoDelay);
    let mut buffer = vec![0u8; 1];
    assert!(retrying.read(addr48(), &mut buffer).is_err());
    assert_eq!(calls.get(), 1);
}

#[test]
fn every_operation_is_retried() {
    for op in 0..4 {
        let calls = Rc::new(Cell::new(0));
        let bus = FailingBus { code: ResponseCode::ArbitrationLost, calls: Rc::clone(&calls) };
        let mut retrying = RetryingI2c::new(bus, 2, NoDelay);
        let mut buffer = vec![0u8; 1];
        let mut ops = vec![I2cOperation::Write(vec![1])];
        let failed = match op {
            0 => retrying.read(addr48(), &mut buffer).is_err(),
            1 => retrying.write(addr48(), &[1]).is_err(),
            2 => retrying.write_read(addr48(), &[1], &mut buffer).is_err(),
            _ => retrying.transaction(addr48(), &mut ops).is_err(),
        };
        assert!(failed);
        assert_eq!(calls.get(), 3);
    }
}

/// A delay provider that records every duration handed to it.
struct RecordingDelay {
    log: Rc<RefCell<Vec<u64>>>,
}

impl DelayProvider for RecordingDelay {
    fn delay_ms(&mut self, ms: u64) {
        self.log.borrow_mut().push(ms);
    }
}

#[test]
fn backoff_is_linear_and_only_between_attempts() {
    let log = Rc::new(RefCell::new(Vec::new()));
    let calls = Rc::new(Cell::new(0));
    let bus = FailingBus { code: ResponseCode::ArbitrationLost, calls: Rc::clone(&calls) };
    let mut retrying = RetryingI2c::new(bus, 2, RecordingDelay { log: Rc::clone(&log) });
    let mut buffer = vec![0u8; 1];
    assert!(retrying.read(addr48(), &mut buffer).is_err());
    // One sleep before each re-attempt, none after the final one.
    assert_eq!(*log.borrow(), vec![10, 20]);

    // A non-retryable failure sleeps not at all.
    let log = Rc::new(RefCell::new(Vec::new()));
    let calls = Rc::new(Cell::new(0));
    let bus = FailingBus { code: ResponseCode::BusError, calls: Rc::clone(&calls) };
    let mut retrying = RetryingI2c::new(bus, 2, RecordingDelay { log: Rc::clone(&log) });
    assert!(retrying.write(addr48(), &[1]).is_err());
    assert!(log.borrow().is_empty());

    // A success sleeps not at all.
    let log = Rc::new(RefCell::new(Vec::new()));
    let mut harness = MockI2c::new();
    harness.expect_read(addr48(), &[7]);
    let mut retrying = RetryingI2c::new(harness, 2, RecordingDelay { log: Rc::clone(&log) });
    assert_eq!(retrying.read(addr48(), &mut buffer), Ok(()));
    assert!(log.borrow().is_empty());
}

#[test]
fn nested_retry_decorators_compose() {
    let calls = Rc::new(Cell::new(0));
    let bus = FailingBus { code: ResponseCode::ArbitrationLost, calls: Rc::clone(&calls) };
    let inner = RetryingI2c::new(bus, 2, NoDelay);
    let mut outer = RetryingI2c::new(inner, 1, NoDelay);
    let mut buffer = vec![0u8; 1];
    assert!(outer.read(addr48(), &mut buffer).is_err());
    // The inner decorator makes three attempts per outer attempt.
    assert_eq!(calls.get(), 6);
}

#[test]
fn success_returns_immediately() {
    let mut harness = MockI2c::new();
    harness.expect_read(addr48(), &[0x42]);
    let mut retrying = RetryingI2c::new(harness, 5, NoDelay);
    let mut buffer = vec![0u8; 1];
    assert_eq!(retrying.read(addr48(), &mut buffer), Ok(()));
    assert_eq!(buffer, vec![0x42]);
}

#[test]
fn harness_mismatch_is_retried_and_surfaced() {
    // The harness reports mismatches in the unclassified bucket, so the
    // decorator retries them and surfaces the last one.
    let mut retrying = RetryingI2c::new(MockI2c::new(), 2, NoDelay);
    let mut buffer = vec![0u8; 1];
    let e = retrying.read(addr48(), &mut buffer).unwrap_err();
    assert_eq!(e.message, "Unexpected read operation");
}

#[test]
fn full_stack_composes() {
    let mut harness = MockI2c::new();
    harness.expect_write_read(addr48(), &[0x00], &[0x17, 0x00]);
    let stack = RegisterOptimizedI2c::new(HubrisI2c::new(harness));
    let mut retrying = RetryingI2c::new(stack, 2, NoDelay);
    let mut buffer = vec![0u8; 2];
    assert_eq!(retrying.write_read(addr48(), &[0x00], &mut buffer), Ok(()));
    assert_eq!(buffer, vec![0x17, 0x00]);
}

#[test]
fn backoff_grows_linearly() {
    assert_eq!(compute_backoff_ms(0), 10);
    assert_eq!(compute_backoff_ms(1), 20);
    assert_eq!(compute_backoff_ms(2), 30);
    assert_eq!(compute_backoff_ms(255), 2560);
}

#[test]
fn retryable_kinds_are_exactly_arbitration_loss_and_other() {
    assert!(kind_is_retryable(ErrorKind::ArbitrationLoss));
    assert!(kind_is_retryable(ErrorKind::Other));
    assert!(!kind_is_retryable(ErrorKind::Bus));
    assert!(!kind_is_retryable(ErrorKind::NoAcknowledge(NoAcknowledgeSource::Address)));
    assert!(!kind_is_retryable(ErrorKind::NoAcknowledge(NoAcknowledgeSource::Data)));
}
