//! The Core Adapter: the generic operation vocabulary over a fixed-address
//! device client.
//!
//! The client is bound to one 7-bit target at construction, so for the
//! 7-bit operations the per-call address is accepted for interface
//! compatibility but **not** used to re-target the client: the bound
//! address is authoritative. For the 10-bit operations the per-call address
//! **is** used, because the client has no native 10-bit support and the
//! address phase is emulated in software (see [`crate::frame`]).
//!
//! Every failure from the client is wrapped with a step label and
//! surfaced; no error is swallowed here.

use crate::addr::{SevenBitAddr, TenBitAddr};
use crate::buf::zero_vec;
use crate::frame::{build_ten_bit_frame, frame_as_slice, ten_bit_header};
use crate::interface::{ops_shape_kept, DeviceClient, I2cOperation, I2cTarget};
use crate::status::{HubrisI2cError, ResponseCode};
use vstd::prelude::*;

verus! {

/// How a client result whose byte count is discarded is surfaced: success
/// drops the count, failure is wrapped with the given step label.
pub open spec fn wrapped<T>(
    dr: Result<T, ResponseCode>,
    label: Seq<char>,
    r: Result<(), HubrisI2cError>,
) -> bool {
    match dr {
        Ok(_) => r is Ok,
        Err(code) => r matches Err(e) && e.response_code == code && e.operation@ == label,
    }
}

/// How a client result whose value is kept is surfaced: success hands the
/// value through, failure is wrapped with the given step label.
pub open spec fn wrapped_value<T>(
    dr: Result<T, ResponseCode>,
    label: Seq<char>,
    r: Result<T, HubrisI2cError>,
) -> bool {
    match dr {
        Ok(v) => r == Ok::<T, HubrisI2cError>(v),
        Err(code) => r matches Err(e) && e.response_code == code && e.operation@ == label,
    }
}

/// What an optimized register read does: one client register-read round
/// trip, its failure wrapped with the given step label.
pub open spec fn register_read_ens<D: DeviceClient>(
    pre: D,
    post: D,
    reg: u8,
    label: Seq<char>,
    r: Result<u8, HubrisI2cError>,
) -> bool {
    exists|dr: Result<u8, ResponseCode>|
        #[trigger] D::read_reg_ens(pre, post, reg, dr) && wrapped_value(dr, label, r)
}

/// What an SMBus block read does: one client block-read round trip, its
/// failure wrapped with the given step label.
pub open spec fn block_read_ens<D: DeviceClient>(
    pre: D,
    post: D,
    reg: u8,
    buf_pre: Seq<u8>,
    buf_post: Seq<u8>,
    label: Seq<char>,
    r: Result<usize, HubrisI2cError>,
) -> bool {
    exists|dr: Result<usize, ResponseCode>|
        #[trigger] D::read_block_ens(pre, post, reg, buf_pre, buf_post, dr) && wrapped_value(
            dr,
            label,
            r,
        )
}

/// What an emulated 10-bit read does to the client: the two-byte address
/// header for `addr` goes out as a plain write, then a plain read fills
/// the buffer. A failing address phase is labelled as such and leaves the
/// buffer untouched.
pub open spec fn ten_bit_read_ens<D: DeviceClient>(
    pre: D,
    post: D,
    addr: u16,
    buf_pre: Seq<u8>,
    buf_post: Seq<u8>,
    r: Result<(), HubrisI2cError>,
) -> bool {
    exists|mid: D, dw: Result<usize, ResponseCode>|
        #[trigger] D::write_ens(pre, mid, ten_bit_header(addr), dw) && (match dw {
            Err(code) => post == mid && buf_post == buf_pre && (r matches Err(e)
                && e.response_code == code && e.operation@ == "10bit_address_setup"@),
            Ok(_) => exists|dr: Result<usize, ResponseCode>|
                #[trigger] D::read_into_ens(mid, post, buf_pre, buf_post, dr) && wrapped(
                    dr,
                    "10bit_read"@,
                    r,
                ),
        })
}

/// What an emulated 10-bit write does to the client: the header for `addr`
/// and the payload go out as one plain write. A payload over 256 bytes is
/// rejected before anything reaches the client.
pub open spec fn ten_bit_write_ens<D: DeviceClient>(
    pre: D,
    post: D,
    addr: u16,
    bytes: Seq<u8>,
    r: Result<(), HubrisI2cError>,
) -> bool {
    if bytes.len() > 256 {
        post == pre && (r matches Err(e) && e.response_code == ResponseCode::BadResponse
            && e.operation@ == "10bit_write_buffer_overflow"@)
    } else {
        exists|dw: Result<usize, ResponseCode>|
            #[trigger] D::write_ens(pre, post, ten_bit_header(addr) + bytes, dw) && wrapped(
                dw,
                "10bit_write"@,
                r,
            )
    }
}

/// What executing one transaction element does to the client. A write
/// element hands its payload to the client's write and stays unchanged; a
/// read element hands a scratch buffer of its length to the client's read
/// and, on success, holds the bytes received. A failing element is
/// surfaced under the matching transaction label and stays unchanged.
pub open spec fn transaction_step<D: DeviceClient>(
    pre: D,
    post: D,
    op_pre: I2cOperation,
    op_post: I2cOperation,
    r: Result<(), HubrisI2cError>,
) -> bool {
    match op_pre {
        I2cOperation::Write(w) => op_post == op_pre && exists|dw: Result<usize, ResponseCode>|
            #[trigger] D::write_ens(pre, post, w@, dw) && (match dw {
                Ok(_) => r is Ok,
                Err(code) => r matches Err(e) && e.response_code == code && e.operation@
                    == "transaction_write"@,
            }),
        I2cOperation::Read(b0) => exists|
            b_init: Seq<u8>,
            bq: Seq<u8>,
            dr: Result<usize, ResponseCode>,
        |
            b_init.len() == b0@.len() && #[trigger] D::read_into_ens(pre, post, b_init, bq, dr)
                && (match dr {
                Ok(_) => r is Ok && (op_post matches I2cOperation::Read(b1) && b1@ == bq),
                Err(code) => op_post == op_pre && (r matches Err(e) && e.response_code == code
                    && e.operation@ == "transaction_read"@),
            }),
    }
}

/// What a whole transaction does: the elements execute in order, each
/// through [`transaction_step`], threading the client state. The first
/// failure stops the sequence; the failing element and every later one
/// stay untouched.
pub open spec fn transaction_chain<D: DeviceClient>(
    pre: D,
    post: D,
    ops_pre: Seq<I2cOperation>,
    ops_post: Seq<I2cOperation>,
    r: Result<(), HubrisI2cError>,
) -> bool
    decreases ops_pre.len(),
{
    if ops_pre.len() == 0 {
        post == pre && ops_post.len() == 0 && r is Ok
    } else {
        ops_post.len() == ops_pre.len() && exists|mid: D, r0: Result<(), HubrisI2cError>|
            #[trigger] transaction_step::<D>(pre, mid, ops_pre[0], ops_post[0], r0) && (match r0 {
                Ok(_) => transaction_chain::<D>(mid, post, ops_pre.skip(1), ops_post.skip(1), r),
                Err(e) => post == mid && r == Err::<(), HubrisI2cError>(e) && ops_post.skip(1)
                    == ops_pre.skip(1),
            })
    }
}

/// A completed chain extends by one more successful element.
proof fn lemma_chain_snoc_ok<D: DeviceClient>(
    a: D,
    b: D,
    c: D,
    s: Seq<I2cOperation>,
    t: Seq<I2cOperation>,
    op: I2cOperation,
    opp: I2cOperation,
    r0: Result<(), HubrisI2cError>,
)
    requires
        transaction_chain::<D>(a, b, s, t, Ok::<(), HubrisI2cError>(())),
        transaction_step::<D>(b, c, op, opp, r0),
        r0 is Ok,
    ensures
        transaction_chain::<D>(a, c, s.push(op), t.push(opp), Ok::<(), HubrisI2cError>(())),
    decreases s.len(),
{
    if s.len() == 0 {
        assert(a == b);
        assert(transaction_step::<D>(a, c, s.push(op)[0], t.push(opp)[0], r0));
        assert(s.push(op).skip(1) =~= Seq::<I2cOperation>::empty());
        assert(t.push(opp).skip(1) =~= Seq::<I2cOperation>::empty());
        assert(transaction_chain::<D>(
            c,
            c,
            s.push(op).skip(1),
            t.push(opp).skip(1),
            Ok::<(), HubrisI2cError>(()),
        ));
    } else {
        let (mid, q0) = choose|mid: D, q0: Result<(), HubrisI2cError>|
            #[trigger] transaction_step::<D>(a, mid, s[0], t[0], q0) && (match q0 {
                Ok(_) => transaction_chain::<D>(
                    mid,
                    b,
                    s.skip(1),
                    t.skip(1),
                    Ok::<(), HubrisI2cError>(()),
                ),
                Err(e) => b == mid && Ok::<(), HubrisI2cError>(()) == Err::<
                    (),
                    HubrisI2cError,
                >(e) && t.skip(1) == s.skip(1),
            });
        assert(q0 is Ok);
        lemma_chain_snoc_ok(mid, b, c, s.skip(1), t.skip(1), op, opp, r0);
        assert(s.push(op).skip(1) =~= s.skip(1).push(op));
        assert(t.push(opp).skip(1) =~= t.skip(1).push(opp));
        assert(transaction_chain::<D>(
            mid,
            c,
            s.push(op).skip(1),
            t.push(opp).skip(1),
            Ok::<(), HubrisI2cError>(()),
        ));
        assert(transaction_step::<D>(a, mid, s.push(op)[0], t.push(opp)[0], q0));
    }
}

/// A completed chain, one failing element, and an untouched rest make a
/// failed chain of the whole.
proof fn lemma_chain_abort<D: DeviceClient>(
    a: D,
    b: D,
    c: D,
    s: Seq<I2cOperation>,
    t: Seq<I2cOperation>,
    op: I2cOperation,
    rest: Seq<I2cOperation>,
    e: HubrisI2cError,
)
    requires
        transaction_chain::<D>(a, b, s, t, Ok::<(), HubrisI2cError>(())),
        transaction_step::<D>(b, c, op, op, Err::<(), HubrisI2cError>(e)),
    ensures
        transaction_chain::<D>(
            a,
            c,
            s.push(op) + rest,
            t.push(op) + rest,
            Err::<(), HubrisI2cError>(e),
        ),
    decreases s.len(),
{
    if s.len() == 0 {
        assert(a == b);
        assert((s.push(op) + rest)[0] == op);
        assert((t.push(op) + rest)[0] == op);
        assert(transaction_step::<D>(a, c, (s.push(op) + rest)[0], (t.push(op) + rest)[0], Err::<
            (),
            HubrisI2cError,
        >(e)));
        assert((s.push(op) + rest).skip(1) =~= rest);
        assert((t.push(op) + rest).skip(1) =~= rest);
    } else {
        let (mid, q0) = choose|mid: D, q0: Result<(), HubrisI2cError>|
            #[trigger] transaction_step::<D>(a, mid, s[0], t[0], q0) && (match q0 {
                Ok(_) => transaction_chain::<D>(
                    mid,
                    b,
                    s.skip(1),
                    t.skip(1),
                    Ok::<(), HubrisI2cError>(()),
                ),
                Err(e1) => b == mid && Ok::<(), HubrisI2cError>(()) == Err::<
                    (),
                    HubrisI2cError,
                >(e1) && t.skip(1) == s.skip(1),
            });
        assert(q0 is Ok);
        lemma_chain_abort(mid, b, c, s.skip(1), t.skip(1), op, rest, e);
        assert((s.push(op) + rest).skip(1) =~= s.skip(1).push(op) + rest);
        assert((t.push(op) + rest).skip(1) =~= t.skip(1).push(op) + rest);
        assert((s.push(op) + rest)[0] == s[0]);
        assert((t.push(op) + rest)[0] == t[0]);
        assert(transaction_step::<D>(a, mid, (s.push(op) + rest)[0], (t.push(op) + rest)[0], q0));
    }
}

/// What executing one transaction element does to the client under the
/// emulated 10-bit addressing: a write element goes through the 10-bit
/// write emulation and stays unchanged; a read element hands a scratch
/// buffer of its length to the 10-bit read emulation and, on success,
/// holds the bytes received. A failing element is surfaced unchanged,
/// under the emulation's own step labels.
pub open spec fn ten_bit_step<D: DeviceClient>(
    pre: D,
    post: D,
    addr: u16,
    op_pre: I2cOperation,
    op_post: I2cOperation,
    r: Result<(), HubrisI2cError>,
) -> bool {
    match op_pre {
        I2cOperation::Write(w) => op_post == op_pre && ten_bit_write_ens::<D>(
            pre,
            post,
            addr,
            w@,
            r,
        ),
        I2cOperation::Read(b0) => exists|b_init: Seq<u8>, bq: Seq<u8>|
            b_init.len() == b0@.len() && #[trigger] ten_bit_read_ens::<D>(
                pre,
                post,
                addr,
                b_init,
                bq,
                r,
            ) && (match r {
                Ok(_) => op_post matches I2cOperation::Read(b1) && b1@ == bq,
                Err(_) => op_post == op_pre,
            }),
    }
}

/// What a whole 10-bit transaction does: the elements execute in order,
/// each through [`ten_bit_step`], threading the client state. The first
/// failure stops the sequence; the failing element and every later one
/// stay untouched.
pub open spec fn ten_bit_chain<D: DeviceClient>(
    pre: D,
    post: D,
    addr: u16,
    ops_pre: Seq<I2cOperation>,
    ops_post: Seq<I2cOperation>,
    r: Result<(), HubrisI2cError>,
) -> bool
    decreases ops_pre.len(),
{
    if ops_pre.len() == 0 {
        post == pre && ops_post.len() == 0 && r is Ok
    } else {
        ops_post.len() == ops_pre.len() && exists|mid: D, r0: Result<(), HubrisI2cError>|
            #[trigger] ten_bit_step::<D>(pre, mid, addr, ops_pre[0], ops_post[0], r0) && (match r0 {
                Ok(_) => ten_bit_chain::<D>(mid, post, addr, ops_pre.skip(1), ops_post.skip(1), r),
                Err(e) => post == mid && r == Err::<(), HubrisI2cError>(e) && ops_post.skip(1)
                    == ops_pre.skip(1),
            })
    }
}

/// A completed 10-bit chain extends by one more successful element.
proof fn lemma_ten_bit_chain_snoc_ok<D: DeviceClient>(
    a: D,
    b: D,
    c: D,
    addr: u16,
    s: Seq<I2cOperation>,
    t: Seq<I2cOperation>,
    op: I2cOperation,
    opp: I2cOperation,
    r0: Result<(), HubrisI2cError>,
)
    requires
        ten_bit_chain::<D>(a, b, addr, s, t, Ok::<(), HubrisI2cError>(())),
        ten_bit_step::<D>(b, c, addr, op, opp, r0),
        r0 is Ok,
    ensures
        ten_bit_chain::<D>(a, c, addr, s.push(op), t.push(opp), Ok::<(), HubrisI2cError>(())),
    decreases s.len(),
{
    if s.len() == 0 {
        assert(a == b);
        assert(ten_bit_step::<D>(a, c, addr, s.push(op)[0], t.push(opp)[0], r0));
        assert(s.push(op).skip(1) =~= Seq::<I2cOperation>::empty());
        assert(t.push(opp).skip(1) =~= Seq::<I2cOperation>::empty());
        assert(ten_bit_chain::<D>(
            c,
            c,
            addr,
            s.push(op).skip(1),
            t.push(opp).skip(1),
            Ok::<(), HubrisI2cError>(()),
        ));
    } else {
        let (mid, q0) = choose|mid: D, q0: Result<(), HubrisI2cError>|
            #[trigger] ten_bit_step::<D>(a, mid, addr, s[0], t[0], q0) && (match q0 {
                Ok(_) => ten_bit_chain::<D>(
                    mid,
                    b,
                    addr,
                    s.skip(1),
                    t.skip(1),
                    Ok::<(), HubrisI2cError>(()),
                ),
                Err(e) => b == mid && Ok::<(), HubrisI2cError>(()) == Err::<
                    (),
                    HubrisI2cError,
                >(e) && t.skip(1) == s.skip(1),
            });
        assert(q0 is Ok);
        lemma_ten_bit_chain_snoc_ok(mid, b, c, addr, s.skip(1), t.skip(1), op, opp, r0);
        assert(s.push(op).skip(1) =~= s.skip(1).push(op));
        assert(t.push(opp).skip(1) =~= t.skip(1).push(opp));
        assert(ten_bit_chain::<D>(
            mid,
            c,
            addr,
            s.push(op).skip(1),
            t.push(opp).skip(1),
            Ok::<(), HubrisI2cError>(()),
        ));
        assert(ten_bit_step::<D>(a, mid, addr, s.push(op)[0], t.push(opp)[0], q0));
    }
}

/// A completed 10-bit chain, one failing element, and an untouched rest
/// make a failed chain of the whole.
proof fn lemma_ten_bit_chain_abort<D: DeviceClient>(
    a: D,
    b: D,
    c: D,
    addr: u16,
    s: Seq<I2cOperation>,
    t: Seq<I2cOperation>,
    op: I2cOperation,
    rest: Seq<I2cOperation>,
    e: HubrisI2cError,
)
    requires
        ten_bit_chain::<D>(a, b, addr, s, t, Ok::<(), HubrisI2cError>(())),
        ten_bit_step::<D>(b, c, addr, op, op, Err::<(), HubrisI2cError>(e)),
    ensures
        ten_bit_chain::<D>(
            a,
            c,
            addr,
            s.push(op) + rest,
            t.push(op) + rest,
            Err::<(), HubrisI2cError>(e),
        ),
    decreases s.len(),
{
    if s.len() == 0 {
        assert(a == b);
        assert((s.push(op) + rest)[0] == op);
        assert((t.push(op) + rest)[0] == op);
        assert(ten_bit_step::<D>(
            a,
            c,
            addr,
            (s.push(op) + rest)[0],
            (t.push(op) + rest)[0],
            Err::<(), HubrisI2cError>(e),
        ));
        assert((s.push(op) + rest).skip(1) =~= rest);
        assert((t.push(op) + rest).skip(1) =~= rest);
    } else {
        let (mid, q0) = choose|mid: D, q0: Result<(), HubrisI2cError>|
            #[trigger] ten_bit_step::<D>(a, mid, addr, s[0], t[0], q0) && (match q0 {
                Ok(_) => ten_bit_chain::<D>(
                    mid,
                    b,
                    addr,
                    s.skip(1),
                    t.skip(1),
                    Ok::<(), HubrisI2cError>(()),
                ),
                Err(e1) => b == mid && Ok::<(), HubrisI2cError>(()) == Err::<
                    (),
                    HubrisI2cError,
                >(e1) && t.skip(1) == s.skip(1),
            });
        assert(q0 is Ok);
        lemma_ten_bit_chain_abort(mid, b, c, addr, s.skip(1), t.skip(1), op, rest, e);
        assert((s.push(op) + rest).skip(1) =~= s.skip(1).push(op) + rest);
        assert((t.push(op) + rest).skip(1) =~= t.skip(1).push(op) + rest);
        assert((s.push(op) + rest)[0] == s[0]);
        assert((t.push(op) + rest)[0] == t[0]);
        assert(ten_bit_step::<D>(a, mid, addr, (s.push(op) + rest)[0], (t.push(op) + rest)[0], q0));
    }
}

/// The Core Adapter: implements the generic operation vocabulary against
/// the platform's device client, and adds the optimized register accesses
/// and the emulated 10-bit operations.
pub struct HubrisI2c<D: DeviceClient> {
    pub(crate) device: D,
}

impl<D: DeviceClient> HubrisI2c<D> {
    /// The wrapped device client, for specification purposes.
    pub closed spec fn dev(&self) -> D {
        self.device
    }

    /// Within the crate, the specification view of the adapter is its
    /// client field.
    pub(crate) proof fn lemma_dev_unfold(a: HubrisI2c<D>)
        ensures
            a.dev() == a.device,
    {
    }

    /// Wrap a device client. The client's binding — controller, port,
    /// optional multiplexer segment and 7-bit target address — decides
    /// which endpoint every operation reaches.
    pub fn new(device: D) -> (r: Self)
        ensures
            r.dev() == device,
    {
        HubrisI2c { device }
    }

    /// The underlying device client, for advanced operations.
    pub fn device(&self) -> (r: &D)
        ensures
            *r == self.dev(),
    {
        &self.device
    }

    /// The underlying device client, mutably, for advanced operations.
    pub fn device_mut(&mut self) -> (r: &mut D)
        ensures
            *r == old(self).dev(),
            *final(r) == final(self).dev(),
    {
        &mut self.device
    }

    /// Optimized single-byte register read through the client's register
    /// primitive, bypassing the generic operation vocabulary.
    pub fn read_register(&mut self, reg: u8) -> (r: Result<u8, HubrisI2cError>)
        ensures
            register_read_ens::<D>(
                old(self).dev(),
                final(self).dev(),
                reg,
                "optimized_register_read"@,
                r,
            ),
    {
        let dr = self.device.read_reg(reg);
        proof {
            assert(D::read_reg_ens(old(self).dev(), self.dev(), reg, dr));
        }
        match dr {
            Ok(v) => Ok(v),
            Err(code) => Err(
                HubrisI2cError { response_code: code, operation: "optimized_register_read" },
            ),
        }
    }

    /// SMBus-style block read through the client's block primitive,
    /// bypassing the generic operation vocabulary. Returns the byte count
    /// received.
    pub fn read_block(&mut self, reg: u8, buffer: &mut Vec<u8>) -> (r: Result<
        usize,
        HubrisI2cError,
    >)
        ensures
            final(buffer)@.len() == old(buffer)@.len(),
            block_read_ens::<D>(
                old(self).dev(),
                final(self).dev(),
                reg,
                old(buffer)@,
                final(buffer)@,
                "smbus_block_read"@,
                r,
            ),
    {
        let dr = self.device.read_block(reg, buffer);
        proof {
            assert(D::read_block_ens(
                old(self).dev(),
                self.dev(),
                reg,
                old(buffer)@,
                buffer@,
                dr,
            ));
        }
        match dr {
            Ok(n) => Ok(n),
            Err(code) => Err(HubrisI2cError { response_code: code, operation: "smbus_block_read" }),
        }
    }

    /// Emulated 10-bit read from `addr`: the two-byte address header goes
    /// out as a plain write, then a plain read fills `buffer`.
    ///
    /// No genuine repeated start separates the address phase from the data
    /// phase, so this approximates, rather than fully implements, the
    /// 10-bit protocol — a known limitation inherited from the client's
    /// capability, not silently corrected here.
    pub fn read_10bit(&mut self, addr: TenBitAddr, buffer: &mut Vec<u8>) -> (r: Result<
        (),
        HubrisI2cError,
    >)
        ensures
            final(buffer)@.len() == old(buffer)@.len(),
            ten_bit_read_ens::<D>(
                old(self).dev(),
                final(self).dev(),
                addr.0,
                old(buffer)@,
                final(buffer)@,
                r,
            ),
    {
        let (header_high, header_low) = crate::frame::ten_bit_header_bytes(addr);
        let mut header: Vec<u8> = Vec::new();
        header.push(header_high);
        header.push(header_low);
        proof {
            assert(header@ =~= ten_bit_header(addr.0));
        }
        let dw = self.device.write(header.as_slice());
        let ghost mid = self.dev();
        proof {
            assert(D::write_ens(old(self).dev(), mid, ten_bit_header(addr.0), dw));
        }
        if let Err(code) = dw {
            return Err(HubrisI2cError { response_code: code, operation: "10bit_address_setup" });
        }
        let dr = self.device.read_into(buffer);
        proof {
            assert(D::read_into_ens(mid, self.dev(), old(buffer)@, buffer@, dr));
        }
        match dr {
            Ok(_) => Ok(()),
            Err(code) => Err(HubrisI2cError { response_code: code, operation: "10bit_read" }),
        }
    }

    /// Emulated 10-bit write to `addr`: the two-byte address header and
    /// the payload are concatenated into one outgoing frame, bounded at
    /// 258 bytes. A payload over 256 bytes is reported as a
    /// buffer-overflow error, not truncated.
    pub fn write_10bit(&mut self, addr: TenBitAddr, bytes: &[u8]) -> (r: Result<
        (),
        HubrisI2cError,
    >)
        ensures
            ten_bit_write_ens::<D>(old(self).dev(), final(self).dev(), addr.0, bytes@, r),
    {
        match build_ten_bit_frame(addr, bytes) {
            Err(e) => Err(e),
            Ok(frame) => {
                let dw = self.device.write(frame_as_slice(&frame));
                proof {
                    assert(D::write_ens(
                        old(self).dev(),
                        self.dev(),
                        ten_bit_header(addr.0) + bytes@,
                        dw,
                    ));
                }
                match dw {
                    Ok(_) => Ok(()),
                    Err(code) => Err(
                        HubrisI2cError { response_code: code, operation: "10bit_write" },
                    ),
                }
            },
        }
    }

    /// Emulated 10-bit write-then-read against `addr`: the 10-bit write,
    /// then, only if it succeeded, the 10-bit read. The first failure is
    /// surfaced unchanged.
    pub fn write_read_10bit(
        &mut self,
        addr: TenBitAddr,
        bytes: &[u8],
        buffer: &mut Vec<u8>,
    ) -> (r: Result<(), HubrisI2cError>)
        ensures
            final(buffer)@.len() == old(buffer)@.len(),
            exists|mid: D, rw: Result<(), HubrisI2cError>|
                #[trigger] ten_bit_write_ens::<D>(old(self).dev(), mid, addr.0, bytes@, rw)
                    && (match rw {
                    Err(e) => r == Err::<(), HubrisI2cError>(e) && final(self).dev() == mid
                        && final(buffer)@ == old(buffer)@,
                    Ok(_) => ten_bit_read_ens::<D>(
                        mid,
                        final(self).dev(),
                        addr.0,
                        old(buffer)@,
                        final(buffer)@,
                        r,
                    ),
                }),
    {
        let rw = self.write_10bit(addr, bytes);
        let ghost mid = self.dev();
        proof {
            assert(ten_bit_write_ens::<D>(old(self).dev(), mid, addr.0, bytes@, rw));
        }
        match rw {
            Err(e) => Err(e),
            Ok(_) => self.read_10bit(addr, buffer),
        }
    }

    /// Execute the elements of `operations` in order against the 10-bit
    /// target `addr`, each through the 10-bit emulation, stopping at and
    /// surfacing the first failure unchanged.
    pub fn transaction_10bit(&mut self, addr: TenBitAddr, operations: &mut Vec<I2cOperation>) -> (r:
        Result<(), HubrisI2cError>)
        ensures
            ops_shape_kept(old(operations)@, final(operations)@),
            ten_bit_chain::<D>(
                old(self).dev(),
                final(self).dev(),
                addr.0,
                old(operations)@,
                final(operations)@,
                r,
            ),
    {
        let n = operations.len();
        let mut idx: usize = 0;
        proof {
            assert(old(operations)@.take(0) =~= Seq::<I2cOperation>::empty());
            assert(operations@.take(0) =~= Seq::<I2cOperation>::empty());
        }
        while idx < n
            invariant
                idx <= n,
                n == old(operations)@.len(),
                operations@.len() == old(operations)@.len(),
                forall|j: int| idx <= j < n ==> operations@[j] == old(operations)@[j],
                forall|j: int|
                    0 <= j < n ==> crate::interface::op_shape_kept(
                        old(operations)@[j],
                        #[trigger] operations@[j],
                    ),
                ten_bit_chain::<D>(
                    old(self).dev(),
                    self.dev(),
                    addr.0,
                    old(operations)@.take(idx as int),
                    operations@.take(idx as int),
                    Ok::<(), HubrisI2cError>(()),
                ),
            decreases n - idx,
        {
            let ghost old_take = old(operations)@.take(idx as int);
            let ghost cur_take = operations@.take(idx as int);
            let ghost cur_elem = operations@[idx as int];
            let is_read = matches!(&operations[idx], I2cOperation::Read(_));
            if is_read {
                let len = match &operations[idx] {
                    I2cOperation::Read(b) => b.len(),
                    I2cOperation::Write(_) => 0,
                };
                let mut scratch = zero_vec(len);
                let ghost scratch_init = scratch@;
                let ghost pre_dev = self.dev();
                let res = self.read_10bit(addr, &mut scratch);
                match res {
                    Ok(_) => {
                        let ghost new_elem = I2cOperation::Read(scratch);
                        proof {
                            assert(ten_bit_step::<D>(
                                pre_dev,
                                self.dev(),
                                addr.0,
                                cur_elem,
                                new_elem,
                                res,
                            ));
                            lemma_ten_bit_chain_snoc_ok::<D>(
                                old(self).dev(),
                                pre_dev,
                                self.dev(),
                                addr.0,
                                old_take,
                                cur_take,
                                cur_elem,
                                new_elem,
                                res,
                            );
                        }
                        operations[idx] = I2cOperation::Read(scratch);
                        proof {
                            assert(old(operations)@.take(idx as int + 1) =~= old_take.push(
                                cur_elem,
                            ));
                            assert(operations@.take(idx as int + 1) =~= cur_take.push(new_elem));
                        }
                    },
                    Err(e) => {
                        proof {
                            assert(ten_bit_step::<D>(
                                pre_dev,
                                self.dev(),
                                addr.0,
                                cur_elem,
                                cur_elem,
                                Err::<(), HubrisI2cError>(e),
                            ));
                            lemma_ten_bit_chain_abort::<D>(
                                old(self).dev(),
                                pre_dev,
                                self.dev(),
                                addr.0,
                                old_take,
                                cur_take,
                                cur_elem,
                                old(operations)@.skip(idx as int + 1),
                                e,
                            );
                            assert(old_take.push(cur_elem) + old(operations)@.skip(idx as int + 1)
                                =~= old(operations)@);
                            assert(cur_take.push(cur_elem) + old(operations)@.skip(idx as int + 1)
                                =~= operations@);
                        }
                        return Err(e);
                    },
                }
            } else {
                let ghost pre_dev = self.dev();
                let outcome = match &operations[idx] {
                    I2cOperation::Write(data) => self.write_10bit(addr, data.as_slice()),
                    I2cOperation::Read(_) => Ok(()),
                };
                match outcome {
                    Ok(_) => {
                        proof {
                            assert(ten_bit_step::<D>(
                                pre_dev,
                                self.dev(),
                                addr.0,
                                cur_elem,
                                cur_elem,
                                outcome,
                            ));
                            lemma_ten_bit_chain_snoc_ok::<D>(
                                old(self).dev(),
                                pre_dev,
                                self.dev(),
                                addr.0,
                                old_take,
                                cur_take,
                                cur_elem,
                                cur_elem,
                                outcome,
                            );
                            assert(old(operations)@.take(idx as int + 1) =~= old_take.push(
                                cur_elem,
                            ));
                            assert(operations@.take(idx as int + 1) =~= cur_take.push(cur_elem));
                        }
                    },
                    Err(e) => {
                        proof {
                            assert(ten_bit_step::<D>(
                                pre_dev,
                                self.dev(),
                                addr.0,
                                cur_elem,
                                cur_elem,
                                Err::<(), HubrisI2cError>(e),
                            ));
                            lemma_ten_bit_chain_abort::<D>(
                                old(self).dev(),
                                pre_dev,
                                self.dev(),
                                addr.0,
                                old_take,
                                cur_take,
                                cur_elem,
                                old(operations)@.skip(idx as int + 1),
                                e,
                            );
                            assert(old_take.push(cur_elem) + old(operations)@.skip(idx as int + 1)
                                =~= old(operations)@);
                            assert(cur_take.push(cur_elem) + old(operations)@.skip(idx as int + 1)
                                =~= operations@);
                        }
                        return Err(e);
                    },
                }
            }
            idx += 1;
        }
        proof {
            assert(old(operations)@.take(n as int) =~= old(operations)@);
            assert(operations@.take(n as int) =~= operations@);
        }
        Ok(())
    }
}

impl<D: DeviceClient> I2cTarget for HubrisI2c<D> {
    type Error = HubrisI2cError;

    /// One plain client read into the buffer; the per-call address is
    /// ignored, the client's bound address is authoritative.
    open spec fn read_ens(
        pre: Self,
        post: Self,
        addr: SevenBitAddr,
        buf_pre: Seq<u8>,
        buf_post: Seq<u8>,
        r: Result<(), HubrisI2cError>,
    ) -> bool {
        exists|dr: Result<usize, ResponseCode>|
            #[trigger] D::read_into_ens(pre.dev(), post.dev(), buf_pre, buf_post, dr) && wrapped(
                dr,
                "read"@,
                r,
            )
    }

    fn read(&mut self, addr: SevenBitAddr, buffer: &mut Vec<u8>) -> (r: Result<
        (),
        HubrisI2cError,
    >) {
        let dr = self.device.read_into(buffer);
        proof {
            assert(D::read_into_ens(old(self).dev(), self.dev(), old(buffer)@, buffer@, dr));
        }
        match dr {
            Ok(_) => Ok(()),
            Err(code) => Err(HubrisI2cError { response_code: code, operation: "read" }),
        }
    }

    /// One plain client write of the bytes; the per-call address is
    /// ignored, the client's bound address is authoritative.
    open spec fn write_ens(
        pre: Self,
        post: Self,
        addr: SevenBitAddr,
        bytes: Seq<u8>,
        r: Result<(), HubrisI2cError>,
    ) -> bool {
        exists|dw: Result<usize, ResponseCode>|
            #[trigger] D::write_ens(pre.dev(), post.dev(), bytes, dw) && wrapped(dw, "write"@, r)
    }

    fn write(&mut self, addr: SevenBitAddr, bytes: &[u8]) -> (r: Result<(), HubrisI2cError>) {
        let dw = self.device.write(bytes);
        proof {
            assert(D::write_ens(old(self).dev(), self.dev(), bytes@, dw));
        }
        match dw {
            Ok(_) => Ok(()),
            Err(code) => Err(HubrisI2cError { response_code: code, operation: "write" }),
        }
    }

    /// A one-byte write is treated as a register select and rerouted to
    /// the client's single round-trip register read; anything longer falls
    /// back to a plain write followed by a plain read, two round trips
    /// with no guarantee against interleaving by other bus users.
    open spec fn write_read_ens(
        pre: Self,
        post: Self,
        addr: SevenBitAddr,
        bytes: Seq<u8>,
        buf_pre: Seq<u8>,
        buf_post: Seq<u8>,
        r: Result<(), HubrisI2cError>,
    ) -> bool {
        if bytes.len() == 1 {
            exists|dr: Result<usize, ResponseCode>|
                #[trigger] D::read_reg_into_ens(pre.dev(), post.dev(), bytes[0], buf_pre, buf_post, dr)
                    && wrapped(dr, "write_read_reg"@, r)
        } else {
            exists|mid: D, dw: Result<usize, ResponseCode>|
                #[trigger] D::write_ens(pre.dev(), mid, bytes, dw) && (match dw {
                    Err(code) => post.dev() == mid && buf_post == buf_pre && (r matches Err(e)
                        && e.response_code == code && e.operation@ == "write_read_write_phase"@),
                    Ok(_) => exists|dr: Result<usize, ResponseCode>|
                        #[trigger] D::read_into_ens(mid, post.dev(), buf_pre, buf_post, dr)
                            && wrapped(dr, "write_read_read_phase"@, r),
                })
        }
    }

    fn write_read(&mut self, addr: SevenBitAddr, bytes: &[u8], buffer: &mut Vec<u8>) -> (r: Result<
        (),
        HubrisI2cError,
    >) {
        if bytes.len() == 1 {
            let dr = self.device.read_reg_into(bytes[0], buffer);
            proof {
                assert(D::read_reg_into_ens(
                    old(self).dev(),
                    self.dev(),
                    bytes@[0],
                    old(buffer)@,
                    buffer@,
                    dr,
                ));
            }
            match dr {
                Ok(_) => Ok(()),
                Err(code) => Err(
                    HubrisI2cError { response_code: code, operation: "write_read_reg" },
                ),
            }
        } else {
            let dw = self.device.write(bytes);
            let ghost mid = self.dev();
            proof {
                assert(D::write_ens(old(self).dev(), mid, bytes@, dw));
            }
            if let Err(code) = dw {
                return Err(
                    HubrisI2cError { response_code: code, operation: "write_read_write_phase" },
                );
            }
            let dr = self.device.read_into(buffer);
            proof {
                assert(D::read_into_ens(mid, self.dev(), old(buffer)@, buffer@, dr));
            }
            match dr {
                Ok(_) => Ok(()),
                Err(code) => Err(
                    HubrisI2cError { response_code: code, operation: "write_read_read_phase" },
                ),
            }
        }
    }

    /// Sequential execution through the single-operation methods,
    /// threading the client state element by element. This is a
    /// best-effort approximation of an atomic transaction: no repeated
    /// start is inserted between elements, and other bus users may
    /// interleave. A failing element is surfaced with a transaction label
    /// and later elements are not attempted.
    open spec fn transaction_ens(
        pre: Self,
        post: Self,
        addr: SevenBitAddr,
        ops_pre: Seq<I2cOperation>,
        ops_post: Seq<I2cOperation>,
        r: Result<(), HubrisI2cError>,
    ) -> bool {
        transaction_chain::<D>(pre.dev(), post.dev(), ops_pre, ops_post, r)
    }

    fn transaction(&mut self, addr: SevenBitAddr, operations: &mut Vec<I2cOperation>) -> (r:
        Result<(), HubrisI2cError>) {
        let n = operations.len();
        let mut idx: usize = 0;
        proof {
            assert(old(operations)@.take(0) =~= Seq::<I2cOperation>::empty());
            assert(operations@.take(0) =~= Seq::<I2cOperation>::empty());
        }
        while idx < n
            invariant
                idx <= n,
                n == old(operations)@.len(),
                operations@.len() == old(operations)@.len(),
                forall|j: int| idx <= j < n ==> operations@[j] == old(operations)@[j],
                forall|j: int|
                    0 <= j < n ==> crate::interface::op_shape_kept(
                        old(operations)@[j],
                        #[trigger] operations@[j],
                    ),
                transaction_chain::<D>(
                    old(self).dev(),
                    self.dev(),
                    old(operations)@.take(idx as int),
                    operations@.take(idx as int),
                    Ok::<(), HubrisI2cError>(()),
                ),
            decreases n - idx,
        {
            let ghost old_take = old(operations)@.take(idx as int);
            let ghost cur_take = operations@.take(idx as int);
            let ghost cur_elem = operations@[idx as int];
            let is_read = matches!(&operations[idx], I2cOperation::Read(_));
            if is_read {
                let len = match &operations[idx] {
                    I2cOperation::Read(b) => b.len(),
                    I2cOperation::Write(_) => 0,
                };
                let mut scratch = zero_vec(len);
                let ghost scratch_init = scratch@;
                let ghost pre_dev = self.dev();
                let res = self.read(addr, &mut scratch);
                proof {
                    let dr = choose|dr: Result<usize, ResponseCode>|
                        #[trigger] D::read_into_ens(
                            pre_dev,
                            self.dev(),
                            scratch_init,
                            scratch@,
                            dr,
                        ) && wrapped(dr, "read"@, res);
                }
                match res {
                    Ok(_) => {
                        let ghost new_elem = I2cOperation::Read(scratch);
                        proof {
                            assert(transaction_step::<D>(
                                pre_dev,
                                self.dev(),
                                cur_elem,
                                new_elem,
                                Ok::<(), HubrisI2cError>(()),
                            ));
                            lemma_chain_snoc_ok::<D>(
                                old(self).dev(),
                                pre_dev,
                                self.dev(),
                                old_take,
                                cur_take,
                                cur_elem,
                                new_elem,
                                Ok::<(), HubrisI2cError>(()),
                            );
                        }
                        operations[idx] = I2cOperation::Read(scratch);
                        proof {
                            assert(old(operations)@.take(idx as int + 1) =~= old_take.push(
                                cur_elem,
                            ));
                            assert(operations@.take(idx as int + 1) =~= cur_take.push(new_elem));
                        }
                    },
                    Err(e) => {
                        let out = e.with_operation("transaction_read");
                        proof {
                            assert(transaction_step::<D>(
                                pre_dev,
                                self.dev(),
                                cur_elem,
                                cur_elem,
                                Err::<(), HubrisI2cError>(out),
                            ));
                            lemma_chain_abort::<D>(
                                old(self).dev(),
                                pre_dev,
                                self.dev(),
                                old_take,
                                cur_take,
                                cur_elem,
                                old(operations)@.skip(idx as int + 1),
                                out,
                            );
                            assert(old_take.push(cur_elem) + old(operations)@.skip(idx as int + 1)
                                =~= old(operations)@);
                            assert(cur_take.push(cur_elem) + old(operations)@.skip(idx as int + 1)
                                =~= operations@);
                        }
                        return Err(out);
                    },
                }
            } else {
                let ghost pre_dev = self.dev();
                let outcome = match &operations[idx] {
                    I2cOperation::Write(data) => self.write(addr, data.as_slice()),
                    I2cOperation::Read(_) => Ok(()),
                };
                proof {
                    let ghost w = cur_elem->Write_0;
                    let dw = choose|dw: Result<usize, ResponseCode>|
                        #[trigger] D::write_ens(pre_dev, self.dev(), w@, dw) && wrapped(
                            dw,
                            "write"@,
                            outcome,
                        );
                }
                match outcome {
                    Ok(_) => {
                        proof {
                            assert(transaction_step::<D>(
                                pre_dev,
                                self.dev(),
                                cur_elem,
                                cur_elem,
                                Ok::<(), HubrisI2cError>(()),
                            ));
                            lemma_chain_snoc_ok::<D>(
                                old(self).dev(),
                                pre_dev,
                                self.dev(),
                                old_take,
                                cur_take,
                                cur_elem,
                                cur_elem,
                                Ok::<(), HubrisI2cError>(()),
                            );
                            assert(old(operations)@.take(idx as int + 1) =~= old_take.push(
                                cur_elem,
                            ));
                            assert(operations@.take(idx as int + 1) =~= cur_take.push(cur_elem));
                        }
                    },
                    Err(e) => {
                        let out = e.with_operation("transaction_write");
                        proof {
                            assert(transaction_step::<D>(
                                pre_dev,
                                self.dev(),
                                cur_elem,
                                cur_elem,
                                Err::<(), HubrisI2cError>(out),
                            ));
                            lemma_chain_abort::<D>(
                                old(self).dev(),
                                pre_dev,
                                self.dev(),
                                old_take,
                                cur_take,
                                cur_elem,
                                old(operations)@.skip(idx as int + 1),
                                out,
                            );
                            assert(old_take.push(cur_elem) + old(operations)@.skip(idx as int + 1)
                                =~= old(operations)@);
                            assert(cur_take.push(cur_elem) + old(operations)@.skip(idx as int + 1)
                                =~= operations@);
                        }
                        return Err(out);
                    },
                }
            }
            idx += 1;
        }
        proof {
            assert(old(operations)@.take(n as int) =~= old(operations)@);
            assert(operations@.take(n as int) =~= operations@);
        }
        Ok(())
    }
}

} // verus!
