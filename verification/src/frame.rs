//! Assembly of the emulated 10-bit addressing frame.
//!
//! The device client does not support 10-bit targets natively, so the
//! adapter synthesizes the two-byte 10-bit address header (`0b1111_0XX0`
//! with the two high address bits folded in, followed by the low 8 address
//! bits) and prepends it to outgoing data. The combined frame lives in a
//! fixed-capacity vector of 258 bytes (2 header bytes plus up to 256
//! payload bytes); a payload over that bound is reported as a
//! buffer-overflow error, never a panic or a truncation.

use crate::addr::TenBitAddr;
use crate::status::{HubrisI2cError, ResponseCode};
use vstd::prelude::*;

verus! {

/// Declares heapless::Vec, the fixed-capacity vector the frame lives in,
/// so that it can stand in signatures; its contents are reached only
/// through [`frame_bytes`] and the trusted calls below.
#[verifier::external_type_specification]
#[verifier::external_body]
#[verifier::reject_recursive_types(T)]
pub struct ExHeaplessVec<T, const N: usize>(heapless::Vec<T, N>);

/// The bytes a frame buffer holds, in order.
pub uninterp spec fn frame_bytes(v: heapless::Vec<u8, 258>) -> Seq<u8>;

/// Relies on heapless::Vec::new: constructs an empty vector.
#[verifier::external_body]
fn frame_new() -> (r: heapless::Vec<u8, 258>)
    ensures
        frame_bytes(r) == Seq::<u8>::empty(),
{
    heapless::Vec::new()
}

/// Relies on heapless::Vec::push: appends the item while the length is
/// below the capacity (258 here), and hands the item back unchanged once
/// the vector is full.
#[verifier::external_body]
fn frame_push(v: &mut heapless::Vec<u8, 258>, byte: u8) -> (r: Result<(), u8>)
    ensures
        r == (if frame_bytes(*old(v)).len() < 258 {
            Ok::<(), u8>(())
        } else {
            Err::<(), u8>(byte)
        }),
        frame_bytes(*final(v)) == (if frame_bytes(*old(v)).len() < 258 {
            frame_bytes(*old(v)).push(byte)
        } else {
            frame_bytes(*old(v))
        }),
{
    v.push(byte)
}

/// Relies on heapless::Vec::as_slice: the vector's contents as a slice.
#[verifier::external_body]
pub(crate) fn frame_as_slice(v: &heapless::Vec<u8, 258>) -> (r: &[u8])
    ensures
        r@ == frame_bytes(*v),
{
    v.as_slice()
}

/// The first header byte of the emulated 10-bit address phase:
/// `0b1111_0XX0`, where `XX` are the two high bits of the address.
pub open spec fn ten_bit_header_high(addr: u16) -> u8 {
    0xF0u8 | (((addr >> 7) & 0x06) as u8)
}

/// The two-byte 10-bit address header for `addr`: the marker byte with the
/// two high address bits folded in, then the low 8 address bits.
pub open spec fn ten_bit_header(addr: u16) -> Seq<u8> {
    seq![ten_bit_header_high(addr), (addr & 0xFF) as u8]
}

/// Compute the two header bytes for `addr`.
pub fn ten_bit_header_bytes(addr: TenBitAddr) -> (r: (u8, u8))
    ensures
        r.0 == ten_bit_header_high(addr.0),
        r.1 == (addr.0 & 0xFF) as u8,
{
    let raw: u16 = addr.0;
    let high_bits: u16 = (raw >> 7) & 0x06;
    proof {
        assert((raw >> 7) & 0x06 <= 0x06) by (bit_vector);
    }
    let low_bits: u16 = raw & 0xFF;
    proof {
        assert(raw & 0xFF <= 0xFF) by (bit_vector);
    }
    (0xF0u8 | (high_bits as u8), low_bits as u8)
}

/// The error reported when a payload does not fit behind the two header
/// bytes of an emulated 10-bit write.
fn overflow_error() -> (r: HubrisI2cError)
    ensures
        r.response_code == ResponseCode::BadResponse,
        r.operation@ == "10bit_write_buffer_overflow"@,
{
    HubrisI2cError {
        response_code: ResponseCode::BadResponse,
        operation: "10bit_write_buffer_overflow",
    }
}

/// Build the outgoing frame for an emulated 10-bit write: the two header
/// bytes for `addr`, then the payload. A payload longer than 256 bytes does
/// not fit behind the header and is reported as a buffer-overflow error;
/// retrying cannot change a fixed-size payload, so the error classifies as
/// unclassified-other, not as a transient condition.
pub fn build_ten_bit_frame(addr: TenBitAddr, bytes: &[u8]) -> (r: Result<
    heapless::Vec<u8, 258>,
    HubrisI2cError,
>)
    ensures
        bytes@.len() <= 256 ==> (r matches Ok(v) && frame_bytes(v) == ten_bit_header(addr.0)
            + bytes@),
        bytes@.len() > 256 ==> (r matches Err(e) && e.response_code == ResponseCode::BadResponse
            && e.operation@ == "10bit_write_buffer_overflow"@),
{
    let (header_high, header_low) = ten_bit_header_bytes(addr);
    let mut frame = frame_new();
    if frame_push(&mut frame, header_high).is_err() {
        return Err(overflow_error());
    }
    if frame_push(&mut frame, header_low).is_err() {
        return Err(overflow_error());
    }
    proof {
        assert(frame_bytes(frame) =~= ten_bit_header(addr.0));
    }
    let mut i: usize = 0;
    while i < bytes.len()
        invariant
            i <= bytes@.len(),
            frame_bytes(frame) == ten_bit_header(addr.0) + bytes@.subrange(0, i as int),
            frame_bytes(frame).len() == 2 + i,
            2 + i <= 258,
        decreases bytes@.len() - i,
    {
        match frame_push(&mut frame, bytes[i]) {
            Ok(_) => {
                proof {
                    assert(frame_bytes(frame) =~= ten_bit_header(addr.0) + bytes@.subrange(
                        0,
                        i as int + 1,
                    ));
                }
                i += 1;
            },
            Err(_) => {
                return Err(overflow_error());
            },
        }
    }
    proof {
        assert(bytes@.subrange(0, bytes@.len() as int) =~= bytes@);
    }
    Ok(frame)
}

} // verus!
