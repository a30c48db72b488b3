//! Validated 7-bit and 10-bit I2C address value types.
//!
//! The validating constructors reject out-of-range or reserved values and
//! perform no side effects on rejection; the unchecked constructors accept
//! any value of the underlying integer type, for compatibility with inputs
//! that were validated elsewhere.

use vstd::prelude::*;

verus! {

/// Reasons a candidate address is rejected by the validating constructors.
///
/// Each variant carries the offending value for diagnostics.
#[derive(Clone, Copy, Debug, PartialEq, Eq, Structural)]
pub enum InvalidAddress {
    /// The value does not fit in 7 bits (it is above 0x7F).
    SevenBitRange(u8),
    /// The value does not fit in 10 bits (it is above 0x3FF).
    TenBitRange(u16),
    /// The value fits in 7 bits but lies in a range the I2C specification
    /// reserves (below 0x08 or above 0x77).
    Reserved(u8),
}

/// A 7-bit I2C target address.
#[derive(Clone, Copy, Debug, PartialEq, Eq, Structural)]
pub struct SevenBitAddr(pub u8);

/// A 10-bit I2C target address.
#[derive(Clone, Copy, Debug, PartialEq, Eq, Structural)]
pub struct TenBitAddr(pub u16);

/// The 7-bit addresses assignable to ordinary targets: [0x08, 0x77].
///
/// Values below 0x08 and above 0x77 are reserved by the I2C specification.
pub open spec fn seven_bit_assignable(addr: u8) -> bool {
    0x08 <= addr && addr <= 0x77
}

/// The values that fit in 10 bits: [0, 0x3FF].
pub open spec fn ten_bit_in_range(addr: u16) -> bool {
    addr <= 0x3FF
}

/// What `SevenBitAddr::try_new` returns for each input.
pub open spec fn seven_bit_checked(addr: u8) -> Result<SevenBitAddr, InvalidAddress> {
    if addr > 0x7F {
        Err(InvalidAddress::SevenBitRange(addr))
    } else if !seven_bit_assignable(addr) {
        Err(InvalidAddress::Reserved(addr))
    } else {
        Ok(SevenBitAddr(addr))
    }
}

/// What `TenBitAddr::try_new` returns for each input.
pub open spec fn ten_bit_checked(addr: u16) -> Result<TenBitAddr, InvalidAddress> {
    if !ten_bit_in_range(addr) {
        Err(InvalidAddress::TenBitRange(addr))
    } else {
        Ok(TenBitAddr(addr))
    }
}

impl SevenBitAddr {
    /// Wrap an address value without validating it.
    pub fn new(addr: u8) -> (r: Self)
        ensures
            r.0 == addr,
    {
        SevenBitAddr(addr)
    }

    /// The underlying address value.
    pub fn get(self) -> (r: u8)
        ensures
            r == self.0,
    {
        self.0
    }

    /// Validate an address value: accepts exactly the assignable range
    /// [0x08, 0x77], rejects values above 0x7F as out of the 7-bit range
    /// and the rest as reserved.
    pub fn try_new(addr: u8) -> (r: Result<Self, InvalidAddress>)
        ensures
            r == seven_bit_checked(addr),
    {
        if addr > 0x7F {
            Err(InvalidAddress::SevenBitRange(addr))
        } else if addr < 0x08 || addr > 0x77 {
            Err(InvalidAddress::Reserved(addr))
        } else {
            Ok(SevenBitAddr(addr))
        }
    }
}

impl TenBitAddr {
    /// Wrap an address value without validating it.
    pub fn new(addr: u16) -> (r: Self)
        ensures
            r.0 == addr,
    {
        TenBitAddr(addr)
    }

    /// The underlying address value.
    pub fn get(self) -> (r: u16)
        ensures
            r == self.0,
    {
        self.0
    }

    /// Validate an address value: accepts exactly the values that fit in
    /// 10 bits and rejects the rest.
    pub fn try_new(addr: u16) -> (r: Result<Self, InvalidAddress>)
        ensures
            r == ten_bit_checked(addr),
    {
        if addr > 0x3FF {
            Err(InvalidAddress::TenBitRange(addr))
        } else {
            Ok(TenBitAddr(addr))
        }
    }
}

impl From<SevenBitAddr> for u8 {
    fn from(addr: SevenBitAddr) -> (r: u8) {
        addr.0
    }
}

impl vstd::std_specs::convert::FromSpecImpl<SevenBitAddr> for u8 {
    open spec fn obeys_from_spec() -> bool {
        true
    }

    open spec fn from_spec(addr: SevenBitAddr) -> u8 {
        addr.0
    }
}

impl From<u8> for SevenBitAddr {
    fn from(addr: u8) -> (r: SevenBitAddr) {
        SevenBitAddr(addr)
    }
}

impl vstd::std_specs::convert::FromSpecImpl<u8> for SevenBitAddr {
    open spec fn obeys_from_spec() -> bool {
        true
    }

    open spec fn from_spec(addr: u8) -> SevenBitAddr {
        SevenBitAddr(addr)
    }
}

impl From<TenBitAddr> for u16 {
    fn from(addr: TenBitAddr) -> (r: u16) {
        addr.0
    }
}

impl vstd::std_specs::convert::FromSpecImpl<TenBitAddr> for u16 {
    open spec fn obeys_from_spec() -> bool {
        true
    }

    open spec fn from_spec(addr: TenBitAddr) -> u16 {
        addr.0
    }
}

impl From<u16> for TenBitAddr {
    fn from(addr: u16) -> (r: TenBitAddr) {
        TenBitAddr(addr)
    }
}

impl vstd::std_specs::convert::FromSpecImpl<u16> for TenBitAddr {
    open spec fn obeys_from_spec() -> bool {
        true
    }

    open spec fn from_spec(addr: u16) -> TenBitAddr {
        TenBitAddr(addr)
    }
}

/// Validation of 7-bit addresses is total and round-trips: every assignable
/// address is accepted and wraps exactly the given value, every value above
/// 0x7F is rejected as out of the 7-bit range, and every remaining value is
/// rejected as reserved.
pub proof fn lemma_seven_bit_validation()
    ensures
        forall|a: u8|
            seven_bit_assignable(a) ==> ((#[trigger] seven_bit_checked(a)) matches Ok(v) && v.0
                == a),
        forall|a: u8|
            a > 0x7F ==> #[trigger] seven_bit_checked(a) == Err::<SevenBitAddr, InvalidAddress>(
                InvalidAddress::SevenBitRange(a),
            ),
        forall|a: u8|
            !seven_bit_assignable(a) && a <= 0x7F ==> #[trigger] seven_bit_checked(a) == Err::<
                SevenBitAddr,
                InvalidAddress,
            >(InvalidAddress::Reserved(a)),
{
}

/// Validation of 10-bit addresses is total and round-trips: every value that
/// fits in 10 bits is accepted and wraps exactly the given value, and every
/// larger value is rejected as out of the 10-bit range.
pub proof fn lemma_ten_bit_validation()
    ensures
        forall|a: u16|
            ten_bit_in_range(a) ==> ((#[trigger] ten_bit_checked(a)) matches Ok(v) && v.0 == a),
        forall|a: u16|
            !ten_bit_in_range(a) ==> #[trigger] ten_bit_checked(a) == Err::<TenBitAddr, InvalidAddress>(
                InvalidAddress::TenBitRange(a),
            ),
{
}

} // verus!
