//! Adaptation and resilience layer between a device-centric I2C client and a
//! generic, per-operation-addressed I2C interface.
//!
//! The platform supplies a device client that is bound at construction to one
//! controller, port and 7-bit target address (the [`interface::DeviceClient`]
//! trait). Portable drivers instead expect per-call addressing (the
//! [`interface::I2cTarget`] trait). This crate bridges the two:
//!
//! - [`addr`] holds validated 7-bit and 10-bit address value types;
//! - [`status`] classifies low-level status codes into semantic error kinds
//!   and judges retryability;
//! - [`adapter`] implements the generic operations over a device client,
//!   including manual 10-bit addressing emulation;
//! - [`fastpath`] reroutes register-access shaped transactions to the
//!   client's single round-trip register-read primitive;
//! - [`retry`] re-executes operations that failed with a retryable kind,
//!   with a bounded attempt count and linear backoff;
//! - [`harness`] is a scripted-expectation substitute for the device client,
//!   for testing drivers against a predetermined operation sequence.

pub mod adapter;
pub mod addr;
pub mod buf;
pub mod fastpath;
pub mod frame;
pub mod harness;
pub mod interface;
pub mod retry;
pub mod status;

pub use adapter::HubrisI2c;
pub use addr::{InvalidAddress, SevenBitAddr, TenBitAddr};
pub use fastpath::RegisterOptimizedI2c;
pub use harness::{MockI2c, MockI2cError, MockOperation};
pub use interface::{DelayProvider, DeviceClient, I2cError, I2cOperation, I2cTarget, NoDelay};
pub use retry::RetryingI2c;
pub use status::{ErrorKind, HubrisI2cError, NoAcknowledgeSource, ResponseCode};
