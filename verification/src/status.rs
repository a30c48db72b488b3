//! Low-level status codes and their classification into semantic error kinds.
//!
//! Classification is a pure, total function of the status code alone: every
//! code maps to exactly one kind. Retryability and the suggested backoff are
//! judged separately, also from the code alone.

use vstd::prelude::*;

verus! {

/// The fixed enumeration of status codes the device client reports.
#[derive(Clone, Copy, Debug, PartialEq, Eq, Structural)]
pub enum ResponseCode {
    /// The operation completed.
    Success,
    /// The target did not acknowledge its address in the address phase.
    AddressNackSentEarly,
    /// The target stopped acknowledging its address later in the operation.
    AddressNackSentLate,
    /// The target did not acknowledge a data byte.
    DataNackSent,
    /// A bus fault such as a misplaced start or stop condition.
    BusError,
    /// Bus arbitration was lost to another master.
    ArbitrationLost,
    /// The bus is currently held by another user.
    BusLocked,
    /// A bus transaction timed out.
    BusTimeout,
    /// No device answers at the bound address.
    NoDevice,
    /// The client's reply was malformed.
    BadResponse,
}

/// The phase in which an acknowledgment was missing.
#[derive(Clone, Copy, Debug, PartialEq, Eq, Structural)]
pub enum NoAcknowledgeSource {
    /// The target did not acknowledge its address.
    Address,
    /// The target did not acknowledge a data byte.
    Data,
}

/// The semantic error kinds exposed to callers.
#[derive(Clone, Copy, Debug, PartialEq, Eq, Structural)]
pub enum ErrorKind {
    /// A missing acknowledgment, with its phase.
    NoAcknowledge(NoAcknowledgeSource),
    /// A bus fault.
    Bus,
    /// Arbitration was lost to another master.
    ArbitrationLoss,
    /// Every status not otherwise named. The nominal success code also lands
    /// here: it should never reach classification, and its occurrence there
    /// is a defect in the caller, not an error kind of its own.
    Other,
}

/// The semantic kind of each status code. Total and deterministic.
pub open spec fn classify(code: ResponseCode) -> ErrorKind {
    match code {
        ResponseCode::AddressNackSentEarly | ResponseCode::AddressNackSentLate => ErrorKind::NoAcknowledge(
            NoAcknowledgeSource::Address,
        ),
        ResponseCode::DataNackSent => ErrorKind::NoAcknowledge(NoAcknowledgeSource::Data),
        ResponseCode::BusError => ErrorKind::Bus,
        ResponseCode::ArbitrationLost => ErrorKind::ArbitrationLoss,
        _ => ErrorKind::Other,
    }
}

/// Codes that signal the target is absent from the bus: both address-nack
/// variants and the no-device status. Absence is terminal for that address;
/// retrying cannot succeed without the caller changing the request.
pub open spec fn device_not_found(code: ResponseCode) -> bool {
    code == ResponseCode::AddressNackSentEarly || code == ResponseCode::AddressNackSentLate || code
        == ResponseCode::NoDevice
}

/// Codes that signal the bus is transiently unusable, not that the target is
/// absent: bus-locked, bus-timeout and arbitration-lost.
pub open spec fn temporary(code: ResponseCode) -> bool {
    code == ResponseCode::BusLocked || code == ResponseCode::BusTimeout || code
        == ResponseCode::ArbitrationLost
}

/// The suggested base wait, in milliseconds, before the first retry of each
/// transient condition. Advisory: a retry layer applies its own escalation
/// on top, but should treat these as the floor.
pub open spec fn suggested_retry_delay_ms(code: ResponseCode) -> Option<u64> {
    match code {
        ResponseCode::BusLocked => Some(10u64),
        ResponseCode::BusTimeout => Some(100u64),
        ResponseCode::ArbitrationLost => Some(1u64),
        _ => None,
    }
}

/// Kinds the retry decorator re-executes on: arbitration loss and the
/// unclassified bucket. Negative acknowledgments and bus faults are
/// terminal on first occurrence.
pub open spec fn retryable_kind(kind: ErrorKind) -> bool {
    kind == ErrorKind::ArbitrationLoss || kind == ErrorKind::Other
}

/// An error from one internal step of an adapter operation: the status code
/// the device client reported, paired with a static label naming the step
/// that produced it. The label is advisory context for diagnostics;
/// classification depends on the code alone.
#[derive(Clone, Copy, Debug, PartialEq, Eq)]
pub struct HubrisI2cError {
    /// The status code the device client reported.
    pub response_code: ResponseCode,
    /// A short tag identifying the internal step that produced the error.
    pub operation: &'static str,
}

impl HubrisI2cError {
    /// Replace the operation label, keeping the status code.
    pub fn with_operation(self, operation: &'static str) -> (r: Self)
        ensures
            r.response_code == self.response_code,
            r.operation == operation,
    {
        HubrisI2cError { response_code: self.response_code, operation }
    }

    /// The semantic kind of this error.
    pub fn kind(&self) -> (r: ErrorKind)
        ensures
            r == classify(self.response_code),
    {
        match self.response_code {
            ResponseCode::AddressNackSentEarly | ResponseCode::AddressNackSentLate => ErrorKind::NoAcknowledge(
                NoAcknowledgeSource::Address,
            ),
            ResponseCode::DataNackSent => ErrorKind::NoAcknowledge(NoAcknowledgeSource::Data),
            ResponseCode::BusError => ErrorKind::Bus,
            ResponseCode::ArbitrationLost => ErrorKind::ArbitrationLoss,
            _ => ErrorKind::Other,
        }
    }

    /// Whether this error signals the target is absent from the bus.
    pub fn is_device_not_found(&self) -> (r: bool)
        ensures
            r == device_not_found(self.response_code),
    {
        matches!(
            self.response_code,
            ResponseCode::AddressNackSentEarly
                | ResponseCode::AddressNackSentLate
                | ResponseCode::NoDevice
        )
    }

    /// Whether this error signals a transiently unusable bus.
    pub fn is_temporary(&self) -> (r: bool)
        ensures
            r == temporary(self.response_code),
    {
        matches!(
            self.response_code,
            ResponseCode::BusLocked | ResponseCode::BusTimeout | ResponseCode::ArbitrationLost
        )
    }

    /// The suggested base wait, in milliseconds, before retrying, or `None`
    /// for codes with no suggestion.
    pub fn retry_delay(&self) -> (r: Option<u64>)
        ensures
            r == suggested_retry_delay_ms(self.response_code),
    {
        match self.response_code {
            ResponseCode::BusLocked => Some(10),
            ResponseCode::BusTimeout => Some(100),
            ResponseCode::ArbitrationLost => Some(1),
            _ => None,
        }
    }
}

/// Absence and transience are mutually exclusive: no status code signals
/// both that the target is absent and that the bus is transiently unusable.
pub proof fn lemma_absent_temporary_exclusive()
    ensures
        forall|c: ResponseCode| !(#[trigger] device_not_found(c) && temporary(c)),
{
}

/// A suggested retry delay exists for exactly the transient codes.
pub proof fn lemma_retry_delay_iff_temporary()
    ensures
        forall|c: ResponseCode| (#[trigger] suggested_retry_delay_ms(c)) is Some <==> temporary(c),
{
}

} // verus!
