//! The Fast-Path Dispatcher: a decorator over the Core Adapter for
//! register-heavy devices.
//!
//! For `write_read` it prefers the client's single round-trip register-read
//! primitive whenever the write payload is exactly one byte — the same rule
//! the Core Adapter applies, here under its own step label. For
//! `transaction` it recognizes the two-element shape [one-byte write, read]
//! and reroutes it to the register-read primitive in one round trip; every
//! other shape falls back to the Core Adapter's sequential handling.
//!
//! This is a pure optimization layer: for equivalent inputs it changes
//! round-trip count and latency, never which errors are surfaced.

use crate::addr::SevenBitAddr;
use crate::adapter::{block_read_ens, register_read_ens, wrapped, HubrisI2c};
use crate::buf::zero_vec;
use crate::interface::{DeviceClient, I2cOperation, I2cTarget};
use crate::status::{HubrisI2cError, ResponseCode};
use vstd::prelude::*;

verus! {

/// The transaction shape the dispatcher reroutes: exactly one one-byte
/// write followed by one read.
pub open spec fn register_shape(ops: Seq<I2cOperation>) -> bool {
    ops.len() == 2 && (ops[0] matches I2cOperation::Write(w) && w@.len() == 1) && (ops[1] matches I2cOperation::Read(
        _,
    ))
}

/// A register-optimized decorator over the Core Adapter.
pub struct RegisterOptimizedI2c<D: DeviceClient> {
    wrapper: HubrisI2c<D>,
}

impl<D: DeviceClient> RegisterOptimizedI2c<D> {
    /// The wrapped Core Adapter, for specification purposes.
    pub closed spec fn core_adapter(&self) -> HubrisI2c<D> {
        self.wrapper
    }

    /// The underlying device client, for specification purposes.
    pub open spec fn dev(&self) -> D {
        self.core_adapter().dev()
    }

    /// Wrap a Core Adapter.
    pub fn new(wrapper: HubrisI2c<D>) -> (r: Self)
        ensures
            r.core_adapter() == wrapper,
    {
        RegisterOptimizedI2c { wrapper }
    }

    /// Direct single-byte register read via the client's optimized call.
    pub fn read_register(&mut self, reg: u8) -> (r: Result<u8, HubrisI2cError>)
        ensures
            register_read_ens::<D>(
                old(self).dev(),
                final(self).dev(),
                reg,
                "optimized_register_read"@,
                r,
            ),
    {
        self.wrapper.read_register(reg)
    }

    /// Block read via the client's SMBus support. Returns the byte count
    /// received.
    pub fn read_block(&mut self, reg: u8, buffer: &mut Vec<u8>) -> (r: Result<
        usize,
        HubrisI2cError,
    >)
        ensures
            final(buffer)@.len() == old(buffer)@.len(),
            block_read_ens::<D>(
                old(self).dev(),
                final(self).dev(),
                reg,
                old(buffer)@,
                final(buffer)@,
                "optimized_block_read"@,
                r,
            ),
    {
        let dr = self.wrapper.device.read_block(reg, buffer);
        proof {
            HubrisI2c::<D>::lemma_dev_unfold(old(self).wrapper);
            HubrisI2c::<D>::lemma_dev_unfold(self.wrapper);
            assert(D::read_block_ens(
                old(self).dev(),
                self.dev(),
                reg,
                old(buffer)@,
                buffer@,
                dr,
            ));
        }
        match dr {
            Ok(n) => Ok(n),
            Err(code) => Err(
                HubrisI2cError { response_code: code, operation: "optimized_block_read" },
            ),
        }
    }
}

impl<D: DeviceClient> I2cTarget for RegisterOptimizedI2c<D> {
    type Error = HubrisI2cError;

    /// Exactly the Core Adapter's read.
    open spec fn read_ens(
        pre: Self,
        post: Self,
        addr: SevenBitAddr,
        buf_pre: Seq<u8>,
        buf_post: Seq<u8>,
        r: Result<(), HubrisI2cError>,
    ) -> bool {
        <HubrisI2c<D> as I2cTarget>::read_ens(pre.core_adapter(), post.core_adapter(), addr, buf_pre, buf_post, r)
    }

    fn read(&mut self, addr: SevenBitAddr, buffer: &mut Vec<u8>) -> (r: Result<
        (),
        HubrisI2cError,
    >) {
        self.wrapper.read(addr, buffer)
    }

    /// Exactly the Core Adapter's write.
    open spec fn write_ens(
        pre: Self,
        post: Self,
        addr: SevenBitAddr,
        bytes: Seq<u8>,
        r: Result<(), HubrisI2cError>,
    ) -> bool {
        <HubrisI2c<D> as I2cTarget>::write_ens(pre.core_adapter(), post.core_adapter(), addr, bytes, r)
    }

    fn write(&mut self, addr: SevenBitAddr, bytes: &[u8]) -> (r: Result<(), HubrisI2cError>) {
        self.wrapper.write(addr, bytes)
    }

    /// A one-byte write goes to the register-read primitive under this
    /// layer's own label; anything else is exactly the Core Adapter's
    /// write-read.
    open spec fn write_read_ens(
        pre: Self,
        post: Self,
        addr: SevenBitAddr,
        bytes: Seq<u8>,
        buf_pre: Seq<u8>,
        buf_post: Seq<u8>,
        r: Result<(), HubrisI2cError>,
    ) -> bool {
        if bytes.len() == 1 {
            exists|dr: Result<usize, ResponseCode>|
                #[trigger] D::read_reg_into_ens(pre.dev(), post.dev(), bytes[0], buf_pre, buf_post, dr)
                    && wrapped(dr, "optimized_write_read"@, r)
        } else {
            <HubrisI2c<D> as I2cTarget>::write_read_ens(
                pre.core_adapter(),
                post.core_adapter(),
                addr,
                bytes,
                buf_pre,
                buf_post,
                r,
            )
        }
    }

    fn write_read(&mut self, addr: SevenBitAddr, bytes: &[u8], buffer: &mut Vec<u8>) -> (r: Result<
        (),
        HubrisI2cError,
    >) {
        if bytes.len() == 1 {
            let dr = self.wrapper.device.read_reg_into(bytes[0], buffer);
            proof {
                HubrisI2c::<D>::lemma_dev_unfold(old(self).wrapper);
                HubrisI2c::<D>::lemma_dev_unfold(self.wrapper);
                assert(D::read_reg_into_ens(
                    old(self).dev(),
                    self.dev(),
                    bytes@[0],
                    old(buffer)@,
                    buffer@,
                    dr,
                ));
            }
            match dr {
                Ok(_) => Ok(()),
                Err(code) => Err(
                    HubrisI2cError { response_code: code, operation: "optimized_write_read" },
                ),
            }
        } else {
            self.wrapper.write_read(addr, bytes, buffer)
        }
    }

    /// The register shape goes to the register-read primitive in one round
    /// trip; a failing reroute leaves the elements untouched. Every other
    /// shape is exactly the Core Adapter's sequential transaction.
    open spec fn transaction_ens(
        pre: Self,
        post: Self,
        addr: SevenBitAddr,
        ops_pre: Seq<I2cOperation>,
        ops_post: Seq<I2cOperation>,
        r: Result<(), HubrisI2cError>,
    ) -> bool {
        if register_shape(ops_pre) {
            ops_pre[0] matches I2cOperation::Write(w) && ops_pre[1] matches I2cOperation::Read(b0)
                && (exists|b_init: Seq<u8>, bq: Seq<u8>, dr: Result<usize, ResponseCode>|
                b_init.len() == b0@.len() && #[trigger] D::read_reg_into_ens(
                    pre.dev(),
                    post.dev(),
                    w@[0],
                    b_init,
                    bq,
                    dr,
                ) && (match dr {
                    Ok(_) => r is Ok && (ops_post[1] matches I2cOperation::Read(b1) && b1@ == bq),
                    Err(code) => ops_post == ops_pre && (r matches Err(e) && e.response_code
                        == code && e.operation@ == "optimized_transaction"@),
                }))
        } else {
            <HubrisI2c<D> as I2cTarget>::transaction_ens(
                pre.core_adapter(),
                post.core_adapter(),
                addr,
                ops_pre,
                ops_post,
                r,
            )
        }
    }

    fn transaction(&mut self, addr: SevenBitAddr, operations: &mut Vec<I2cOperation>) -> (r:
        Result<(), HubrisI2cError>) {
        if operations.len() == 2 {
            let reg: Option<u8> = match &operations[0] {
                I2cOperation::Write(w) => if w.len() == 1 {
                    Some(w[0])
                } else {
                    None
                },
                I2cOperation::Read(_) => None,
            };
            let read_len: Option<usize> = match &operations[1] {
                I2cOperation::Read(b) => Some(b.len()),
                I2cOperation::Write(_) => None,
            };
            if reg.is_some() && read_len.is_some() {
                let reg = reg.unwrap();
                let len = read_len.unwrap();
                let mut scratch = zero_vec(len);
                let ghost scratch_init = scratch@;
                let dr = self.wrapper.device.read_reg_into(reg, &mut scratch);
                proof {
                    HubrisI2c::<D>::lemma_dev_unfold(old(self).wrapper);
                    HubrisI2c::<D>::lemma_dev_unfold(self.wrapper);
                    assert(D::read_reg_into_ens(
                        old(self).dev(),
                        self.dev(),
                        reg,
                        scratch_init,
                        scratch@,
                        dr,
                    ));
                }
                return match dr {
                    Ok(_) => {
                        operations[1] = I2cOperation::Read(scratch);
                        Ok(())
                    },
                    Err(code) => Err(
                        HubrisI2cError { response_code: code, operation: "optimized_transaction" },
                    ),
                };
            }
        }
        self.wrapper.transaction(addr, operations)
    }
}

/// Fast-path equivalence on the rerouted shape. Take two harnesses
/// holding the same script: a write expectation of `wexp`, then a read
/// expectation answering `resp`. Run the same two-element transaction —
/// a one-byte write of `reg`, then a read of `bl` bytes — through the
/// plain Core Adapter's sequential execution and through the dispatcher's
/// single round-trip reroute. The observable outcomes are the same: both
/// succeed exactly when the scripted write expects that one register byte
/// and the read lengths agree, both fail otherwise, and on success both
/// deliver exactly the scripted response bytes into the read element.
/// Only the round-trip count differs.
pub proof fn lemma_register_reroute_equivalence(
    sc: Seq<crate::harness::MockOperation>,
    reg: u8,
    wexp: Seq<u8>,
    resp: Seq<u8>,
    bl: nat,
    addr: SevenBitAddr,
    pc0: HubrisI2c<crate::harness::MockI2c>,
    pc1: HubrisI2c<crate::harness::MockI2c>,
    pf0: RegisterOptimizedI2c<crate::harness::MockI2c>,
    pf1: RegisterOptimizedI2c<crate::harness::MockI2c>,
    ops_pre: Seq<I2cOperation>,
    ops_core: Seq<I2cOperation>,
    ops_fast: Seq<I2cOperation>,
    r_core: Result<(), HubrisI2cError>,
    r_fast: Result<(), HubrisI2cError>,
)
    requires
        sc.len() == 2,
        sc[0] matches crate::harness::MockOperation::Write { expected_data, .. } && expected_data@
            == wexp,
        sc[1] matches crate::harness::MockOperation::Read { response, .. } && response@ == resp,
        ops_pre.len() == 2,
        ops_pre[0] matches I2cOperation::Write(w) && w@ == seq![reg],
        ops_pre[1] matches I2cOperation::Read(b0) && b0@.len() == bl,
        pc0.dev().script() == sc,
        pc0.dev().cursor() == 0,
        pf0.dev().script() == sc,
        pf0.dev().cursor() == 0,
        crate::interface::ops_shape_kept(ops_pre, ops_core),
        crate::interface::ops_shape_kept(ops_pre, ops_fast),
        <HubrisI2c<crate::harness::MockI2c> as I2cTarget>::transaction_ens(
            pc0,
            pc1,
            addr,
            ops_pre,
            ops_core,
            r_core,
        ),
        <RegisterOptimizedI2c<crate::harness::MockI2c> as I2cTarget>::transaction_ens(
            pf0,
            pf1,
            addr,
            ops_pre,
            ops_fast,
            r_fast,
        ),
    ensures
        r_fast is Ok <==> (wexp == seq![reg] && bl == resp.len()),
        r_core is Ok <==> (wexp == seq![reg] && bl == resp.len()),
        r_core is Ok ==> ops_core.len() == 2 && (ops_core[1] matches I2cOperation::Read(b) && b@
            == resp),
        r_fast is Ok ==> ops_fast.len() == 2 && (ops_fast[1] matches I2cOperation::Read(b) && b@
            == resp),
{
    let matching = wexp == seq![reg] && bl == resp.len();

    // The dispatcher's side: the shape is recognized; the reroute consumes
    // the write-then-read pair of the script in one step exactly when the
    // register byte and the read length agree with the script.
    assert(register_shape(ops_pre));
    let (b_init_f, bq_f, dr_f) = choose|b_init: Seq<u8>, bq: Seq<u8>, dr: Result<
        usize,
        ResponseCode,
    >|
        b_init.len() == bl && #[trigger] <crate::harness::MockI2c as DeviceClient>::read_reg_into_ens(
            pf0.dev(),
            pf1.dev(),
            reg,
            b_init,
            bq,
            dr,
        ) && (match dr {
            Ok(_) => r_fast is Ok && (ops_fast[1] matches I2cOperation::Read(b1) && b1@ == bq),
            Err(code) => ops_fast == ops_pre && (r_fast matches Err(e) && e.response_code == code
                && e.operation@ == "optimized_transaction"@),
        });
    assert(!crate::harness::device_reg_matches(sc, 0, reg, b_init_f.len()));
    if matching {
        assert(crate::harness::device_reg_pair_matches(sc, 0, reg, b_init_f.len()));
        assert(dr_f is Ok);
        assert(bq_f == crate::harness::exp_response(sc[1]));
    } else {
        assert(!crate::harness::device_reg_pair_matches(sc, 0, reg, b_init_f.len()));
        assert(dr_f is Err);
        assert(r_fast is Err);
    }

    // The Core Adapter's side: the chain threads the harness through the
    // write expectation, then the read expectation, stopping at the first
    // mismatch.
    let (mid, r0) = choose|mid: crate::harness::MockI2c, r0: Result<(), HubrisI2cError>|
        #[trigger] crate::adapter::transaction_step::<crate::harness::MockI2c>(
            pc0.dev(),
            mid,
            ops_pre[0],
            ops_core[0],
            r0,
        ) && (match r0 {
            Ok(_) => crate::adapter::transaction_chain::<crate::harness::MockI2c>(
                mid,
                pc1.dev(),
                ops_pre.skip(1),
                ops_core.skip(1),
                r_core,
            ),
            Err(e) => pc1.dev() == mid && r_core == Err::<(), HubrisI2cError>(e)
                && ops_core.skip(1) == ops_pre.skip(1),
        });
    let wv = ops_pre[0]->Write_0;
    let dw = choose|dw: Result<usize, ResponseCode>|
        #[trigger] <crate::harness::MockI2c as DeviceClient>::write_ens(
            pc0.dev(),
            mid,
            wv@,
            dw,
        ) && (match dw {
            Ok(_) => r0 is Ok,
            Err(code) => r0 matches Err(e) && e.response_code == code && e.operation@
                == "transaction_write"@,
        });
    if wexp != seq![reg] {
        // The scripted write expects different bytes: the write element
        // mismatches and the sequential path stops there.
        assert(!crate::harness::device_write_matches(sc, 0, seq![reg]));
        assert(dw is Err);
        assert(r0 is Err);
        assert(r_core is Err);
    } else {
        assert(crate::harness::device_write_matches(sc, 0, seq![reg]));
        assert(dw is Ok);
        assert(r0 is Ok);
        assert(mid.script() == sc && mid.cursor() == 1);

        assert(ops_pre.skip(1).len() == 1);
        assert(ops_pre.skip(1)[0] == ops_pre[1]);
        let (mid2, r1) = choose|mid2: crate::harness::MockI2c, r1: Result<(), HubrisI2cError>|
            #[trigger] crate::adapter::transaction_step::<crate::harness::MockI2c>(
                mid,
                mid2,
                ops_pre.skip(1)[0],
                ops_core.skip(1)[0],
                r1,
            ) && (match r1 {
                Ok(_) => crate::adapter::transaction_chain::<crate::harness::MockI2c>(
                    mid2,
                    pc1.dev(),
                    ops_pre.skip(1).skip(1),
                    ops_core.skip(1).skip(1),
                    r_core,
                ),
                Err(e) => pc1.dev() == mid2 && r_core == Err::<(), HubrisI2cError>(e)
                    && ops_core.skip(1).skip(1) == ops_pre.skip(1).skip(1),
            });
        let b0 = ops_pre[1]->Read_0;
        let (b_init_c, bq_c, dr_c) = choose|b_init: Seq<u8>, bq: Seq<u8>, dr: Result<
            usize,
            ResponseCode,
        >|
            b_init.len() == b0@.len() && #[trigger] <crate::harness::MockI2c as DeviceClient>::read_into_ens(
                mid,
                mid2,
                b_init,
                bq,
                dr,
            ) && (match dr {
                Ok(_) => r1 is Ok && (ops_core.skip(1)[0] matches I2cOperation::Read(b1) && b1@
                    == bq),
                Err(code) => ops_core.skip(1)[0] == ops_pre.skip(1)[0] && (r1 matches Err(e)
                    && e.response_code == code && e.operation@ == "transaction_read"@),
            });
        if bl == resp.len() {
            assert(crate::harness::device_read_matches(sc, 1, b_init_c.len()));
            assert(dr_c is Ok);
            assert(bq_c == crate::harness::exp_response(sc[1]));
            assert(r1 is Ok);
            assert(ops_core[1] == ops_core.skip(1)[0]);
        } else {
            // The read lengths disagree: the read element mismatches and
            // the sequential path fails there.
            assert(!crate::harness::device_read_matches(sc, 1, b_init_c.len()));
            assert(dr_c is Err);
            assert(r1 is Err);
            assert(r_core is Err);
        }
    }
}

} // verus!
