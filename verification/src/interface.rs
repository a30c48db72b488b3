//! The traits through which the layers compose.
//!
//! [`DeviceClient`] is the collaborator the platform provides: one device
//! endpoint, bound at construction to a fixed target. [`I2cTarget`] is the
//! generic, per-operation-addressed vocabulary portable drivers consume; the
//! Core Adapter and both decorators implement it. An implementation states
//! what each operation does through the `*_ens` spec functions declared
//! here, so a decorator depends only on the capability set, not on a
//! concrete type. The declarations default to the vacuous statement — an
//! implementation that overrides none promises nothing — and every
//! implementation in this crate overrides them with exact statements.

use crate::addr::SevenBitAddr;
use crate::status::{classify, ErrorKind, HubrisI2cError, ResponseCode};
use vstd::prelude::*;

verus! {

/// An error that exposes a semantic kind.
pub trait I2cError: Sized {
    /// The kind this error classifies as.
    spec fn kind_spec(&self) -> ErrorKind;

    /// The semantic kind of this error.
    fn kind(&self) -> (r: ErrorKind)
        ensures
            r == self.kind_spec(),
    ;
}

impl I2cError for HubrisI2cError {
    open spec fn kind_spec(&self) -> ErrorKind {
        classify(self.response_code)
    }

    fn kind(&self) -> (r: ErrorKind) {
        HubrisI2cError::kind(self)
    }
}

/// The device client the platform provides. It owns exactly one device
/// endpoint: the controller, port, optional multiplexer segment and 7-bit
/// target address are baked in at construction, so no operation here takes
/// an address. Every method returns either a byte count or a status code.
///
/// An implementation states what each operation does through the `*_ens`
/// spec functions; the adapter stack above is verified against those
/// statements, for every behaviour they allow.
pub trait DeviceClient: Sized {
    /// What `write` does: relates the client states before and after, the
    /// bytes handed over, and the result.
    open spec fn write_ens(
        pre: Self,
        post: Self,
        bytes: Seq<u8>,
        r: Result<usize, ResponseCode>,
    ) -> bool {
        true
    }

    /// Write `bytes` to the bound target.
    fn write(&mut self, bytes: &[u8]) -> (r: Result<usize, ResponseCode>)
        ensures
            Self::write_ens(*old(self), *final(self), bytes@, r),
    ;

    /// What `read_into` does.
    open spec fn read_into_ens(
        pre: Self,
        post: Self,
        buf_pre: Seq<u8>,
        buf_post: Seq<u8>,
        r: Result<usize, ResponseCode>,
    ) -> bool {
        true
    }

    /// Read from the bound target into `buffer`, whose current length is the
    /// number of bytes requested.
    fn read_into(&mut self, buffer: &mut Vec<u8>) -> (r: Result<usize, ResponseCode>)
        ensures
            final(buffer)@.len() == old(buffer)@.len(),
            Self::read_into_ens(*old(self), *final(self), old(buffer)@, final(buffer)@, r),
    ;

    /// What `read_reg` does.
    open spec fn read_reg_ens(pre: Self, post: Self, reg: u8, r: Result<u8, ResponseCode>) -> bool {
        true
    }

    /// Read the single-byte register `reg` in one write-then-read round trip.
    fn read_reg(&mut self, reg: u8) -> (r: Result<u8, ResponseCode>)
        ensures
            Self::read_reg_ens(*old(self), *final(self), reg, r),
    ;

    /// What `read_reg_into` does.
    open spec fn read_reg_into_ens(
        pre: Self,
        post: Self,
        reg: u8,
        buf_pre: Seq<u8>,
        buf_post: Seq<u8>,
        r: Result<usize, ResponseCode>,
    ) -> bool {
        true
    }

    /// Select register `reg`, then read `buffer.len()` bytes back, in one
    /// round trip.
    fn read_reg_into(&mut self, reg: u8, buffer: &mut Vec<u8>) -> (r: Result<
        usize,
        ResponseCode,
    >)
        ensures
            final(buffer)@.len() == old(buffer)@.len(),
            Self::read_reg_into_ens(
                *old(self),
                *final(self),
                reg,
                old(buffer)@,
                final(buffer)@,
                r,
            ),
    ;

    /// What `read_block` does.
    open spec fn read_block_ens(
        pre: Self,
        post: Self,
        reg: u8,
        buf_pre: Seq<u8>,
        buf_post: Seq<u8>,
        r: Result<usize, ResponseCode>,
    ) -> bool {
        true
    }

    /// SMBus-style block read from register `reg` into `buffer`, returning
    /// the byte count received.
    fn read_block(&mut self, reg: u8, buffer: &mut Vec<u8>) -> (r: Result<usize, ResponseCode>)
        ensures
            final(buffer)@.len() == old(buffer)@.len(),
            Self::read_block_ens(*old(self), *final(self), reg, old(buffer)@, final(buffer)@, r),
    ;
}

/// One element of a generic transaction.
#[derive(Clone, Debug)]
pub enum I2cOperation {
    /// Read into a buffer. The element's current length is the number of
    /// bytes to read; a completed transaction replaces its contents with
    /// the bytes received.
    Read(Vec<u8>),
    /// Write the given bytes.
    Write(Vec<u8>),
}

/// One transaction element keeps its shape under execution: the same
/// variant, an unchanged payload for a write, an unchanged length for a
/// read.
pub open spec fn op_shape_kept(pre: I2cOperation, post: I2cOperation) -> bool {
    match (pre, post) {
        (I2cOperation::Read(b0), I2cOperation::Read(b1)) => b0@.len() == b1@.len(),
        (I2cOperation::Write(w0), I2cOperation::Write(w1)) => w0@ == w1@,
        _ => false,
    }
}

/// A transaction keeps its shape: same element count, and each element's
/// shape kept.
pub open spec fn ops_shape_kept(pre: Seq<I2cOperation>, post: Seq<I2cOperation>) -> bool {
    post.len() == pre.len() && forall|i: int|
        0 <= i < pre.len() ==> op_shape_kept(pre[i], #[trigger] post[i])
}

/// Shape keeping composes: a transaction executed twice over keeps the
/// shape of the initial elements.
pub proof fn lemma_ops_shape_trans(a: Seq<I2cOperation>, b: Seq<I2cOperation>, c: Seq<
    I2cOperation,
>)
    requires
        ops_shape_kept(a, b),
        ops_shape_kept(b, c),
    ensures
        ops_shape_kept(a, c),
{
    assert forall|i: int| 0 <= i < a.len() implies op_shape_kept(a[i], #[trigger] c[i]) by {
        assert(op_shape_kept(a[i], b[i]));
        assert(op_shape_kept(b[i], c[i]));
    }
}

/// The generic, per-operation-addressed operation vocabulary. All layers
/// satisfy it identically: each call either performs the operation or
/// surfaces an error, and an implementation pins its behaviour down through
/// the `*_ens` spec functions.
///
/// Per-call addresses are authoritative only for addressing modes the
/// underlying client does not bind natively; an adapter over a fixed-address
/// client accepts them for interface compatibility but does not re-target
/// (see [`crate::adapter`]).
pub trait I2cTarget: Sized {
    /// The error type the operations report.
    type Error: I2cError;

    /// What `read` does.
    open spec fn read_ens(
        pre: Self,
        post: Self,
        addr: SevenBitAddr,
        buf_pre: Seq<u8>,
        buf_post: Seq<u8>,
        r: Result<(), Self::Error>,
    ) -> bool {
        true
    }

    /// Read `buffer.len()` bytes from `addr` into `buffer`. Callers supply a
    /// buffer of exactly the length they expect to receive; partial fills
    /// are not surfaced as a distinct condition.
    fn read(&mut self, addr: SevenBitAddr, buffer: &mut Vec<u8>) -> (r: Result<(), Self::Error>)
        ensures
            final(buffer)@.len() == old(buffer)@.len(),
            Self::read_ens(*old(self), *final(self), addr, old(buffer)@, final(buffer)@, r),
    ;

    /// What `write` does.
    open spec fn write_ens(
        pre: Self,
        post: Self,
        addr: SevenBitAddr,
        bytes: Seq<u8>,
        r: Result<(), Self::Error>,
    ) -> bool {
        true
    }

    /// Write `bytes` to `addr`.
    fn write(&mut self, addr: SevenBitAddr, bytes: &[u8]) -> (r: Result<(), Self::Error>)
        ensures
            Self::write_ens(*old(self), *final(self), addr, bytes@, r),
    ;

    /// What `write_read` does.
    open spec fn write_read_ens(
        pre: Self,
        post: Self,
        addr: SevenBitAddr,
        bytes: Seq<u8>,
        buf_pre: Seq<u8>,
        buf_post: Seq<u8>,
        r: Result<(), Self::Error>,
    ) -> bool {
        true
    }

    /// Write `bytes` to `addr`, then read `buffer.len()` bytes back.
    fn write_read(&mut self, addr: SevenBitAddr, bytes: &[u8], buffer: &mut Vec<u8>) -> (r: Result<
        (),
        Self::Error,
    >)
        ensures
            final(buffer)@.len() == old(buffer)@.len(),
            Self::write_read_ens(
                *old(self),
                *final(self),
                addr,
                bytes@,
                old(buffer)@,
                final(buffer)@,
                r,
            ),
    ;

    /// What `transaction` does.
    open spec fn transaction_ens(
        pre: Self,
        post: Self,
        addr: SevenBitAddr,
        ops_pre: Seq<I2cOperation>,
        ops_post: Seq<I2cOperation>,
        r: Result<(), Self::Error>,
    ) -> bool {
        true
    }

    /// Execute the elements of `operations` in order against `addr`,
    /// stopping at and surfacing the first failure; later elements are not
    /// attempted.
    fn transaction(&mut self, addr: SevenBitAddr, operations: &mut Vec<I2cOperation>) -> (r:
        Result<(), Self::Error>)
        ensures
            ops_shape_kept(old(operations)@, final(operations)@),
            Self::transaction_ens(
                *old(self),
                *final(self),
                addr,
                old(operations)@,
                final(operations)@,
                r,
            ),
    ;
}

/// The scheduling primitive the retry decorator uses for its backoff: a
/// blocking sleep keyed by a duration. The platform provides it; nothing is
/// assumed of how it waits. The `delay_ens` hook lets an implementation
/// state what one call does to it — through it, a caller's contract records
/// exactly which durations were handed over, and in what order.
pub trait DelayProvider: Sized {
    /// What one `delay_ms` call does to the provider.
    open spec fn delay_ens(pre: Self, post: Self, ms: u64) -> bool {
        true
    }

    /// Block the calling context for about `ms` milliseconds.
    fn delay_ms(&mut self, ms: u64)
        ensures
            Self::delay_ens(*old(self), *final(self), ms),
    ;
}

/// A delay provider that does not wait, for hosts and tests where backing
/// off has no effect.
pub struct NoDelay;

impl DelayProvider for NoDelay {
    /// Waiting changes nothing.
    open spec fn delay_ens(pre: Self, post: Self, ms: u64) -> bool {
        post == pre
    }

    fn delay_ms(&mut self, _ms: u64) {
    }
}

} // verus!
