//! The Retry Decorator: re-executes operations that failed with a
//! retryable kind, with a bounded attempt count and linear backoff.
//!
//! A wrapped operation is attempted up to `max_retries + 1` times. A
//! failure whose kind is arbitration-loss or the unclassified bucket is
//! retried after a blocking sleep of 10 ms times the attempt number plus
//! one; every other kind — address-nack, data-nack, bus fault — is
//! terminal and returned on first occurrence, since retrying a negative
//! acknowledgment cannot succeed without the caller changing the request.
//! When all attempts are exhausted the error of the last attempt is
//! returned; earlier attempts' errors are discarded. A success returns
//! immediately, with no further attempts and no further sleeps.
//!
//! Each operation's contract states that policy as a chain of attempts
//! (`read_retry_ens` and its siblings): every attempt is one call of the
//! wrapped component with the same arguments — the same bytes, a buffer
//! threaded through, elements of the caller's shape — every attempt but
//! the last fails with a retryable kind, the chain is cut off at
//! `max_retries + 1` attempts, exactly the backoff for each attempt
//! number is handed to the delay provider between attempts, and the last
//! attempt's outcome is the caller's.
//!
//! The decorator composes with any component exposing the generic
//! operation vocabulary, including another retry decorator (discouraged
//! but not forbidden) or the Fast-Path Dispatcher.

use crate::addr::SevenBitAddr;
use crate::interface::{ops_shape_kept, DelayProvider, I2cError, I2cOperation, I2cTarget};
use crate::status::ErrorKind;
use vstd::prelude::*;

verus! {

/// The linear backoff before re-attempting after the zero-based attempt
/// number `attempt`: 10 ms times the attempt number plus one.
pub open spec fn backoff_ms(attempt: u8) -> u64 {
    (10 * (attempt + 1)) as u64
}

/// Compute the backoff for the given attempt number.
pub fn compute_backoff_ms(attempt: u8) -> (r: u64)
    ensures
        r == backoff_ms(attempt),
{
    10u64 * (attempt as u64 + 1)
}

/// Whether the retry decorator re-executes after an error of this kind:
/// exactly arbitration-loss and the unclassified bucket.
pub fn kind_is_retryable(kind: ErrorKind) -> (r: bool)
    ensures
        r == crate::status::retryable_kind(kind),
{
    matches!(kind, ErrorKind::ArbitrationLoss | ErrorKind::Other)
}

/// Whether the retry loop goes on after one attempt's outcome: only a
/// failure of a retryable kind, and only while attempts remain. A success
/// or a terminal kind is returned immediately.
pub open spec fn retry_continues<E: I2cError>(
    r0: Result<(), E>,
    attempt: u8,
    max_retries: u8,
) -> bool {
    r0 matches Err(e) && crate::status::retryable_kind(e.kind_spec()) && attempt < max_retries
}

/// The chain of attempts a retried read makes, starting at the zero-based
/// attempt number `attempt`. Each attempt is one read of the wrapped
/// component on the threaded buffer; if it fails retryably with attempts
/// remaining, exactly `backoff_ms(attempt)` is handed to the delay
/// provider and the chain continues at `attempt + 1`; otherwise — on
/// success, on a terminal kind, or on the last attempt — that attempt's
/// outcome and states are the caller's, unchanged.
pub open spec fn read_retry_ens<I2C: I2cTarget, P: DelayProvider>(
    i0: I2C,
    d0: P,
    i1: I2C,
    d1: P,
    attempt: u8,
    max_retries: u8,
    addr: SevenBitAddr,
    buf0: Seq<u8>,
    buf1: Seq<u8>,
    r: Result<(), I2C::Error>,
) -> bool
    decreases max_retries - attempt when attempt <= max_retries
{
    exists|mid: I2C, bq0: Seq<u8>, r0: Result<(), I2C::Error>|
        bq0.len() == buf0.len() && #[trigger] I2C::read_ens(i0, mid, addr, buf0, bq0, r0) && (
        if retry_continues(r0, attempt, max_retries) {
            exists|dmid: P|
                #[trigger] P::delay_ens(d0, dmid, backoff_ms(attempt)) && read_retry_ens::<
                    I2C,
                    P,
                >(mid, dmid, i1, d1, (attempt + 1) as u8, max_retries, addr, bq0, buf1, r)
        } else {
            i1 == mid && d1 == d0 && r == r0 && buf1 == bq0
        })
}

/// The chain of attempts a retried write makes: as [`read_retry_ens`],
/// with every attempt writing exactly the same bytes.
pub open spec fn write_retry_ens<I2C: I2cTarget, P: DelayProvider>(
    i0: I2C,
    d0: P,
    i1: I2C,
    d1: P,
    attempt: u8,
    max_retries: u8,
    addr: SevenBitAddr,
    bytes: Seq<u8>,
    r: Result<(), I2C::Error>,
) -> bool
    decreases max_retries - attempt when attempt <= max_retries
{
    exists|mid: I2C, r0: Result<(), I2C::Error>|
        #[trigger] I2C::write_ens(i0, mid, addr, bytes, r0) && (if retry_continues(
            r0,
            attempt,
            max_retries,
        ) {
            exists|dmid: P|
                #[trigger] P::delay_ens(d0, dmid, backoff_ms(attempt)) && write_retry_ens::<
                    I2C,
                    P,
                >(mid, dmid, i1, d1, (attempt + 1) as u8, max_retries, addr, bytes, r)
        } else {
            i1 == mid && d1 == d0 && r == r0
        })
}

/// The chain of attempts a retried write-read makes: as
/// [`read_retry_ens`], with every attempt writing exactly the same bytes
/// and reading into the threaded buffer.
pub open spec fn write_read_retry_ens<I2C: I2cTarget, P: DelayProvider>(
    i0: I2C,
    d0: P,
    i1: I2C,
    d1: P,
    attempt: u8,
    max_retries: u8,
    addr: SevenBitAddr,
    bytes: Seq<u8>,
    buf0: Seq<u8>,
    buf1: Seq<u8>,
    r: Result<(), I2C::Error>,
) -> bool
    decreases max_retries - attempt when attempt <= max_retries
{
    exists|mid: I2C, bq0: Seq<u8>, r0: Result<(), I2C::Error>|
        bq0.len() == buf0.len() && #[trigger] I2C::write_read_ens(
            i0,
            mid,
            addr,
            bytes,
            buf0,
            bq0,
            r0,
        ) && (if retry_continues(r0, attempt, max_retries) {
            exists|dmid: P|
                #[trigger] P::delay_ens(d0, dmid, backoff_ms(attempt)) && write_read_retry_ens::<
                    I2C,
                    P,
                >(mid, dmid, i1, d1, (attempt + 1) as u8, max_retries, addr, bytes, bq0, buf1, r)
        } else {
            i1 == mid && d1 == d0 && r == r0 && buf1 == bq0
        })
}

/// The chain of attempts a retried transaction makes: as
/// [`read_retry_ens`], with the whole element sequence re-issued from its
/// first element on every attempt — each attempt receives the elements the
/// previous one left, whose shape (write payloads, read lengths) is that
/// of the caller's sequence.
pub open spec fn transaction_retry_ens<I2C: I2cTarget, P: DelayProvider>(
    i0: I2C,
    d0: P,
    i1: I2C,
    d1: P,
    attempt: u8,
    max_retries: u8,
    addr: SevenBitAddr,
    ops0: Seq<I2cOperation>,
    ops1: Seq<I2cOperation>,
    r: Result<(), I2C::Error>,
) -> bool
    decreases max_retries - attempt when attempt <= max_retries
{
    exists|mid: I2C, ops_mid: Seq<I2cOperation>, r0: Result<(), I2C::Error>|
        ops_shape_kept(ops0, ops_mid) && #[trigger] I2C::transaction_ens(
            i0,
            mid,
            addr,
            ops0,
            ops_mid,
            r0,
        ) && (if retry_continues(r0, attempt, max_retries) {
            exists|dmid: P|
                #[trigger] P::delay_ens(d0, dmid, backoff_ms(attempt)) && transaction_retry_ens::<
                    I2C,
                    P,
                >(mid, dmid, i1, d1, (attempt + 1) as u8, max_retries, addr, ops_mid, ops1, r)
        } else {
            i1 == mid && d1 == d0 && r == r0 && ops1 == ops_mid
        })
}

/// A decorator that retries the wrapped component's operations on
/// classified-retryable failures.
pub struct RetryingI2c<I2C, P> {
    inner: I2C,
    max_retries: u8,
    delay: P,
}

impl<I2C: I2cTarget, P: DelayProvider> RetryingI2c<I2C, P> {
    /// The wrapped component, for specification purposes.
    pub closed spec fn inner_spec(&self) -> I2C {
        self.inner
    }

    /// The maximum retry count, for specification purposes.
    pub closed spec fn max_retries_spec(&self) -> u8 {
        self.max_retries
    }

    /// The delay provider, for specification purposes.
    pub closed spec fn delay_spec(&self) -> P {
        self.delay
    }

    /// Wrap a component. `max_retries` bounds the re-executions: 0 means
    /// one attempt only, `n` means up to `n + 1` attempts. `delay` is the
    /// platform's blocking sleep, used between attempts.
    pub fn new(inner: I2C, max_retries: u8, delay: P) -> (r: Self)
        ensures
            r.inner_spec() == inner,
            r.max_retries_spec() == max_retries,
            r.delay_spec() == delay,
    {
        RetryingI2c { inner, max_retries, delay }
    }
}

impl<I2C: I2cTarget, P: DelayProvider> I2cTarget for RetryingI2c<I2C, P> {
    type Error = I2C::Error;

    /// A chain of at most `max_retries + 1` reads of the wrapped
    /// component, every attempt but the last failing with a retryable
    /// kind, the backoff for each attempt handed to the delay provider,
    /// and the last attempt's outcome returned; the retry count is
    /// unchanged.
    open spec fn read_ens(
        pre: Self,
        post: Self,
        addr: SevenBitAddr,
        buf_pre: Seq<u8>,
        buf_post: Seq<u8>,
        r: Result<(), I2C::Error>,
    ) -> bool {
        post.max_retries_spec() == pre.max_retries_spec() && read_retry_ens::<I2C, P>(
            pre.inner_spec(),
            pre.delay_spec(),
            post.inner_spec(),
            post.delay_spec(),
            0,
            pre.max_retries_spec(),
            addr,
            buf_pre,
            buf_post,
            r,
        )
    }

    fn read(&mut self, addr: SevenBitAddr, buffer: &mut Vec<u8>) -> (r: Result<(), I2C::Error>) {
        let mut attempt: u8 = 0;
        loop
            invariant
                attempt <= self.max_retries,
                self.max_retries == old(self).max_retries,
                buffer@.len() == old(buffer)@.len(),
                forall|i1: I2C, d1: P, bq: Seq<u8>, rr: Result<(), I2C::Error>|
                    #[trigger] read_retry_ens::<I2C, P>(
                        self.inner,
                        self.delay,
                        i1,
                        d1,
                        attempt,
                        self.max_retries,
                        addr,
                        buffer@,
                        bq,
                        rr,
                    ) ==> read_retry_ens::<I2C, P>(
                        old(self).inner,
                        old(self).delay,
                        i1,
                        d1,
                        0,
                        old(self).max_retries,
                        addr,
                        old(buffer)@,
                        bq,
                        rr,
                    ),
            decreases self.max_retries - attempt,
        {
            let ghost ip = self.inner;
            let ghost dp = self.delay;
            let ghost bp = buffer@;
            let ghost k = attempt;
            let res = self.inner.read(addr, buffer);
            let ghost gres = res;
            proof {
                assert(I2C::read_ens(ip, self.inner, addr, bp, buffer@, gres));
            }
            match res {
                Ok(u) => {
                    proof {
                        assert(!retry_continues(gres, k, self.max_retries));
                        assert(read_retry_ens::<I2C, P>(
                            ip,
                            dp,
                            self.inner,
                            self.delay,
                            k,
                            self.max_retries,
                            addr,
                            bp,
                            buffer@,
                            gres,
                        ));
                        assert(self.inner_spec() == self.inner);
                        assert(self.delay_spec() == self.delay);
                    }
                    return Ok(u);
                },
                Err(e) => {
                    let retryable = kind_is_retryable(e.kind());
                    if retryable && attempt < self.max_retries {
                        let ms = compute_backoff_ms(attempt);
                        self.delay.delay_ms(ms);
                        proof {
                            assert(P::delay_ens(dp, self.delay, backoff_ms(k)));
                            assert(retry_continues(gres, k, self.max_retries));
                            assert forall|i1: I2C, d1: P, bq: Seq<u8>, rr: Result<(), I2C::Error>|
                                #[trigger] read_retry_ens::<I2C, P>(
                                    self.inner,
                                    self.delay,
                                    i1,
                                    d1,
                                    (k + 1) as u8,
                                    self.max_retries,
                                    addr,
                                    buffer@,
                                    bq,
                                    rr,
                                ) implies read_retry_ens::<I2C, P>(
                                old(self).inner,
                                old(self).delay,
                                i1,
                                d1,
                                0,
                                old(self).max_retries,
                                addr,
                                old(buffer)@,
                                bq,
                                rr,
                            ) by {
                                assert(read_retry_ens::<I2C, P>(
                                    ip,
                                    dp,
                                    i1,
                                    d1,
                                    k,
                                    self.max_retries,
                                    addr,
                                    bp,
                                    bq,
                                    rr,
                                ));
                            }
                        }
                        attempt = attempt + 1;
                    } else {
                        proof {
                            assert(!retry_continues(gres, k, self.max_retries));
                            assert(read_retry_ens::<I2C, P>(
                                ip,
                                dp,
                                self.inner,
                                self.delay,
                                k,
                                self.max_retries,
                                addr,
                                bp,
                                buffer@,
                                res,
                            ));
                            assert(self.inner_spec() == self.inner);
                            assert(self.delay_spec() == self.delay);
                        }
                        return Err(e);
                    }
                },
            }
        }
    }

    /// A chain of at most `max_retries + 1` writes of exactly these bytes,
    /// every attempt but the last failing with a retryable kind, the
    /// backoff for each attempt handed to the delay provider, and the last
    /// attempt's outcome returned; the retry count is unchanged.
    open spec fn write_ens(
        pre: Self,
        post: Self,
        addr: SevenBitAddr,
        bytes: Seq<u8>,
        r: Result<(), I2C::Error>,
    ) -> bool {
        post.max_retries_spec() == pre.max_retries_spec() && write_retry_ens::<I2C, P>(
            pre.inner_spec(),
            pre.delay_spec(),
            post.inner_spec(),
            post.delay_spec(),
            0,
            pre.max_retries_spec(),
            addr,
            bytes,
            r,
        )
    }

    fn write(&mut self, addr: SevenBitAddr, bytes: &[u8]) -> (r: Result<(), I2C::Error>) {
        let mut attempt: u8 = 0;
        loop
            invariant
                attempt <= self.max_retries,
                self.max_retries == old(self).max_retries,
                forall|i1: I2C, d1: P, rr: Result<(), I2C::Error>|
                    #[trigger] write_retry_ens::<I2C, P>(
                        self.inner,
                        self.delay,
                        i1,
                        d1,
                        attempt,
                        self.max_retries,
                        addr,
                        bytes@,
                        rr,
                    ) ==> write_retry_ens::<I2C, P>(
                        old(self).inner,
                        old(self).delay,
                        i1,
                        d1,
                        0,
                        old(self).max_retries,
                        addr,
                        bytes@,
                        rr,
                    ),
            decreases self.max_retries - attempt,
        {
            let ghost ip = self.inner;
            let ghost dp = self.delay;
            let ghost k = attempt;
            let res = self.inner.write(addr, bytes);
            let ghost gres = res;
            proof {
                assert(I2C::write_ens(ip, self.inner, addr, bytes@, gres));
            }
            match res {
                Ok(u) => {
                    proof {
                        assert(!retry_continues(gres, k, self.max_retries));
                        assert(write_retry_ens::<I2C, P>(
                            ip,
                            dp,
                            self.inner,
                            self.delay,
                            k,
                            self.max_retries,
                            addr,
                            bytes@,
                            gres,
                        ));
                        assert(self.inner_spec() == self.inner);
                        assert(self.delay_spec() == self.delay);
                    }
                    return Ok(u);
                },
                Err(e) => {
                    let retryable = kind_is_retryable(e.kind());
                    if retryable && attempt < self.max_retries {
                        let ms = compute_backoff_ms(attempt);
                        self.delay.delay_ms(ms);
                        proof {
                            assert(P::delay_ens(dp, self.delay, backoff_ms(k)));
                            assert(retry_continues(gres, k, self.max_retries));
                            assert forall|i1: I2C, d1: P, rr: Result<(), I2C::Error>|
                                #[trigger] write_retry_ens::<I2C, P>(
                                    self.inner,
                                    self.delay,
                                    i1,
                                    d1,
                                    (k + 1) as u8,
                                    self.max_retries,
                                    addr,
                                    bytes@,
                                    rr,
                                ) implies write_retry_ens::<I2C, P>(
                                old(self).inner,
                                old(self).delay,
                                i1,
                                d1,
                                0,
                                old(self).max_retries,
                                addr,
                                bytes@,
                                rr,
                            ) by {
                                assert(write_retry_ens::<I2C, P>(
                                    ip,
                                    dp,
                                    i1,
                                    d1,
                                    k,
                                    self.max_retries,
                                    addr,
                                    bytes@,
                                    rr,
                                ));
                            }
                        }
                        attempt = attempt + 1;
                    } else {
                        proof {
                            assert(!retry_continues(gres, k, self.max_retries));
                            assert(write_retry_ens::<I2C, P>(
                                ip,
                                dp,
                                self.inner,
                                self.delay,
                                k,
                                self.max_retries,
                                addr,
                                bytes@,
                                res,
                            ));
                            assert(self.inner_spec() == self.inner);
                            assert(self.delay_spec() == self.delay);
                        }
                        return Err(e);
                    }
                },
            }
        }
    }

    /// A chain of at most `max_retries + 1` write-reads of exactly these
    /// bytes, every attempt but the last failing with a retryable kind,
    /// the backoff for each attempt handed to the delay provider, and the
    /// last attempt's outcome returned; the retry count is unchanged.
    open spec fn write_read_ens(
        pre: Self,
        post: Self,
        addr: SevenBitAddr,
        bytes: Seq<u8>,
        buf_pre: Seq<u8>,
        buf_post: Seq<u8>,
        r: Result<(), I2C::Error>,
    ) -> bool {
        post.max_retries_spec() == pre.max_retries_spec() && write_read_retry_ens::<I2C, P>(
            pre.inner_spec(),
            pre.delay_spec(),
            post.inner_spec(),
            post.delay_spec(),
            0,
            pre.max_retries_spec(),
            addr,
            bytes,
            buf_pre,
            buf_post,
            r,
        )
    }

    fn write_read(&mut self, addr: SevenBitAddr, bytes: &[u8], buffer: &mut Vec<u8>) -> (r: Result<
        (),
        I2C::Error,
    >) {
        let mut attempt: u8 = 0;
        loop
            invariant
                attempt <= self.max_retries,
                self.max_retries == old(self).max_retries,
                buffer@.len() == old(buffer)@.len(),
                forall|i1: I2C, d1: P, bq: Seq<u8>, rr: Result<(), I2C::Error>|
                    #[trigger] write_read_retry_ens::<I2C, P>(
                        self.inner,
                        self.delay,
                        i1,
                        d1,
                        attempt,
                        self.max_retries,
                        addr,
                        bytes@,
                        buffer@,
                        bq,
                        rr,
                    ) ==> write_read_retry_ens::<I2C, P>(
                        old(self).inner,
                        old(self).delay,
                        i1,
                        d1,
                        0,
                        old(self).max_retries,
                        addr,
                        bytes@,
                        old(buffer)@,
                        bq,
                        rr,
                    ),
            decreases self.max_retries - attempt,
        {
            let ghost ip = self.inner;
            let ghost dp = self.delay;
            let ghost bp = buffer@;
            let ghost k = attempt;
            let res = self.inner.write_read(addr, bytes, buffer);
            let ghost gres = res;
            proof {
                assert(I2C::write_read_ens(ip, self.inner, addr, bytes@, bp, buffer@, gres));
            }
            match res {
                Ok(u) => {
                    proof {
                        assert(!retry_continues(gres, k, self.max_retries));
                        assert(write_read_retry_ens::<I2C, P>(
                            ip,
                            dp,
                            self.inner,
                            self.delay,
                            k,
                            self.max_retries,
                            addr,
                            bytes@,
                            bp,
                            buffer@,
                            gres,
                        ));
                        assert(self.inner_spec() == self.inner);
                        assert(self.delay_spec() == self.delay);
                    }
                    return Ok(u);
                },
                Err(e) => {
                    let retryable = kind_is_retryable(e.kind());
                    if retryable && attempt < self.max_retries {
                        let ms = compute_backoff_ms(attempt);
                        self.delay.delay_ms(ms);
                        proof {
                            assert(P::delay_ens(dp, self.delay, backoff_ms(k)));
                            assert(retry_continues(gres, k, self.max_retries));
                            assert forall|i1: I2C, d1: P, bq: Seq<u8>, rr: Result<(), I2C::Error>|
                                #[trigger] write_read_retry_ens::<I2C, P>(
                                    self.inner,
                                    self.delay,
                                    i1,
                                    d1,
                                    (k + 1) as u8,
                                    self.max_retries,
                                    addr,
                                    bytes@,
                                    buffer@,
                                    bq,
                                    rr,
                                ) implies write_read_retry_ens::<I2C, P>(
                                old(self).inner,
                                old(self).delay,
                                i1,
                                d1,
                                0,
                                old(self).max_retries,
                                addr,
                                bytes@,
                                old(buffer)@,
                                bq,
                                rr,
                            ) by {
                                assert(write_read_retry_ens::<I2C, P>(
                                    ip,
                                    dp,
                                    i1,
                                    d1,
                                    k,
                                    self.max_retries,
                                    addr,
                                    bytes@,
                                    bp,
                                    bq,
                                    rr,
                                ));
                            }
                        }
                        attempt = attempt + 1;
                    } else {
                        proof {
                            assert(!retry_continues(gres, k, self.max_retries));
                            assert(write_read_retry_ens::<I2C, P>(
                                ip,
                                dp,
                                self.inner,
                                self.delay,
                                k,
                                self.max_retries,
                                addr,
                                bytes@,
                                bp,
                                buffer@,
                                res,
                            ));
                            assert(self.inner_spec() == self.inner);
                            assert(self.delay_spec() == self.delay);
                        }
                        return Err(e);
                    }
                },
            }
        }
    }

    /// A chain of at most `max_retries + 1` transactions, the whole
    /// element sequence re-issued from its first element on every attempt
    /// with the caller's shape, every attempt but the last failing with a
    /// retryable kind, the backoff for each attempt handed to the delay
    /// provider, and the last attempt's outcome returned; the retry count
    /// is unchanged.
    open spec fn transaction_ens(
        pre: Self,
        post: Self,
        addr: SevenBitAddr,
        ops_pre: Seq<I2cOperation>,
        ops_post: Seq<I2cOperation>,
        r: Result<(), I2C::Error>,
    ) -> bool {
        post.max_retries_spec() == pre.max_retries_spec() && transaction_retry_ens::<I2C, P>(
            pre.inner_spec(),
            pre.delay_spec(),
            post.inner_spec(),
            post.delay_spec(),
            0,
            pre.max_retries_spec(),
            addr,
            ops_pre,
            ops_post,
            r,
        )
    }

    fn transaction(&mut self, addr: SevenBitAddr, operations: &mut Vec<I2cOperation>) -> (r:
        Result<(), I2C::Error>) {
        let mut attempt: u8 = 0;
        loop
            invariant
                attempt <= self.max_retries,
                self.max_retries == old(self).max_retries,
                ops_shape_kept(old(operations)@, operations@),
                forall|i1: I2C, d1: P, ops1: Seq<I2cOperation>, rr: Result<(), I2C::Error>|
                    #[trigger] transaction_retry_ens::<I2C, P>(
                        self.inner,
                        self.delay,
                        i1,
                        d1,
                        attempt,
                        self.max_retries,
                        addr,
                        operations@,
                        ops1,
                        rr,
                    ) ==> transaction_retry_ens::<I2C, P>(
                        old(self).inner,
                        old(self).delay,
                        i1,
                        d1,
                        0,
                        old(self).max_retries,
                        addr,
                        old(operations)@,
                        ops1,
                        rr,
                    ),
            decreases self.max_retries - attempt,
        {
            let ghost ip = self.inner;
            let ghost dp = self.delay;
            let ghost ops0 = operations@;
            let ghost k = attempt;
            let res = self.inner.transaction(addr, operations);
            let ghost gres = res;
            proof {
                assert(I2C::transaction_ens(ip, self.inner, addr, ops0, operations@, gres));
                crate::interface::lemma_ops_shape_trans(old(operations)@, ops0, operations@);
            }
            match res {
                Ok(u) => {
                    proof {
                        assert(!retry_continues(gres, k, self.max_retries));
                        assert(transaction_retry_ens::<I2C, P>(
                            ip,
                            dp,
                            self.inner,
                            self.delay,
                            k,
                            self.max_retries,
                            addr,
                            ops0,
                            operations@,
                            gres,
                        ));
                        assert(self.inner_spec() == self.inner);
                        assert(self.delay_spec() == self.delay);
                    }
                    return Ok(u);
                },
                Err(e) => {
                    let retryable = kind_is_retryable(e.kind());
                    if retryable && attempt < self.max_retries {
                        let ms = compute_backoff_ms(attempt);
                        self.delay.delay_ms(ms);
                        proof {
                            assert(P::delay_ens(dp, self.delay, backoff_ms(k)));
                            assert(retry_continues(gres, k, self.max_retries));
                            assert forall|
                                i1: I2C,
                                d1: P,
                                ops1: Seq<I2cOperation>,
                                rr: Result<(), I2C::Error>,
                            |
                                #[trigger] transaction_retry_ens::<I2C, P>(
                                    self.inner,
                                    self.delay,
                                    i1,
                                    d1,
                                    (k + 1) as u8,
                                    self.max_retries,
                                    addr,
                                    operations@,
                                    ops1,
                                    rr,
                                ) implies transaction_retry_ens::<I2C, P>(
                                old(self).inner,
                                old(self).delay,
                                i1,
                                d1,
                                0,
                                old(self).max_retries,
                                addr,
                                old(operations)@,
                                ops1,
                                rr,
                            ) by {
                                assert(transaction_retry_ens::<I2C, P>(
                                    ip,
                                    dp,
                                    i1,
                                    d1,
                                    k,
                                    self.max_retries,
                                    addr,
                                    ops0,
                                    ops1,
                                    rr,
                                ));
                            }
                        }
                        attempt = attempt + 1;
                    } else {
                        proof {
                            assert(!retry_continues(gres, k, self.max_retries));
                            assert(transaction_retry_ens::<I2C, P>(
                                ip,
                                dp,
                                self.inner,
                                self.delay,
                                k,
                                self.max_retries,
                                addr,
                                ops0,
                                operations@,
                                res,
                            ));
                            assert(self.inner_spec() == self.inner);
                            assert(self.delay_spec() == self.delay);
                        }
                        return Err(e);
                    }
                },
            }
        }
    }
}

} // verus!
