//! The error classifier: totality, the code sets, and the suggested delays.

use i2c_adapter::{ErrorKind, HubrisI2cError, NoAcknowledgeSource, ResponseCode};

const ALL_CODES: [ResponseCode; 10] = [
    ResponseCode::Success,
    ResponseCode::AddressNackSentEarly,
    ResponseCode::AddressNackSentLate,
    ResponseCode::DataNackSent,
    ResponseCode::BusError,
    ResponseCode::ArbitrationLost,
    ResponseCode::BusLocked,
    ResponseCode::BusTimeout,
    ResponseCode::NoDevice,
    ResponseCode::BadResponse,
];

fn err(code: ResponseCode) -> HubrisI2cError {
    HubrisI2cError { response_code: code, operation: "test" }
}

#[test]
fn every_code_maps_to_exactly_one_kind() {
    for code in ALL_CODES {
        let expected = match code {
            ResponseCode::AddressNackSentEarly | ResponseCode::AddressNackSentLate => {
                ErrorKind::NoAcknowledge(NoAcknowledgeSource::Address)
            }
            ResponseCode::DataNackSent => ErrorKind::NoAcknowledge(NoAcknowledgeSource::Data),
            ResponseCode::BusError => ErrorKind::Bus,
            ResponseCode::ArbitrationLost => ErrorKind::ArbitrationLoss,
            _ => ErrorKind::Other,
        };
        assert_eq!(err(code).kind(), expected);
        // Deterministic: a second classification answers the same.
        assert_eq!(err(code).kind(), expected);
    }
}

#[test]
fn device_not_found_is_exactly_the_absence_codes() {
    for code in ALL_CODES {
        let expected = matches!(
            code,
            ResponseCode::AddressNackSentEarly
                | ResponseCode::AddressNackSentLate
                | ResponseCode::NoDevice
        );
        assert_eq!(err(code).is_device_not_found(), expected);
    }
}

#[test]
fn temporary_is_exactly_the_transient_codes() {
    for code in ALL_CODES {
        let expected = matches!(
            code,
            ResponseCode::BusLocked | ResponseCode::BusTimeout | ResponseCode::ArbitrationLost
        );
        assert_eq!(err(code).is_temporary(), expected);
    }
}

#[test]
fn absence_and_transience_are_mutually_exclusive() {
    for code in ALL_CODES {
        let e = err(code);
        assert!(!(e.is_device_not_found() && e.is_temporary()));
    }
}

#[test]
fn retry_delay_suggested_exactly_for_transient_codes() {
    for code in ALL_CODES {
        let e = err(code);
        assert_eq!(e.retry_delay().is_some(), e.is_temporary());
    }
    assert_eq!(err(ResponseCode::BusLocked).retry_delay(), Some(10));
    assert_eq!(err(ResponseCode::BusTimeout).retry_delay(), Some(100));
    assert_eq!(err(ResponseCode::ArbitrationLost).retry_delay(), Some(1));
    assert_eq!(err(ResponseCode::Success).retry_delay(), None);
    assert_eq!(err(ResponseCode::BusError).retry_delay(), None);
}

#[test]
fn with_operation_replaces_only_the_label() {
    let e = err(ResponseCode::BusError).with_operation("relabelled");
    assert_eq!(e.response_code, ResponseCode::BusError);
    assert_eq!(e.operation, "relabelled");
}
