//! The Verification Harness: a scripted-expectation substitute for the
//! device client, for testing drivers against a predetermined operation
//! sequence.
//!
//! The harness holds an ordered sequence of expected operations and a
//! cursor. It is created empty, populated by the `expect_*` calls before
//! use, consumed call by call during the test, and checked complete at
//! teardown with [`MockI2c::verify_complete`].
//!
//! Each call compares the call's address, payload and buffer length
//! against the next expectation in sequence. A match advances the cursor
//! by exactly one and answers with the canned response; any mismatch —
//! wrong address, wrong payload, wrong buffer length, wrong operation
//! kind, or an exhausted script — is reported as a distinct descriptive
//! error and does **not** advance the cursor, so a driver under test
//! observes an ordinary I2C failure and a test can still see where the
//! sequence diverged.
//!
//! The harness answers both vocabularies. Through [`I2cTarget`] it checks
//! the per-call address against the expectation. Through [`DeviceClient`]
//! it stands for one bound endpoint, where calls carry no address, so the
//! expectations' addresses are not checked; a register read there matches
//! either one write-read expectation or a consecutive pair of a one-byte
//! write and a read — on the bus a register read is exactly that pair in
//! one round trip.

use crate::addr::SevenBitAddr;
use crate::buf::{copy_into, slice_eq, zero_vec};
use crate::interface::{DeviceClient, I2cError, I2cOperation, I2cTarget};
use crate::status::{ErrorKind, ResponseCode};
use vstd::prelude::*;

verus! {

/// One scripted expectation.
#[derive(Clone, Debug)]
pub enum MockOperation {
    /// Expect a read at `address`; answer with `response`.
    Read { address: SevenBitAddr, response: Vec<u8> },
    /// Expect a write at `address` of exactly `expected_data`.
    Write { address: SevenBitAddr, expected_data: Vec<u8> },
    /// Expect a write-then-read at `address` writing exactly
    /// `expected_write`; answer with `read_response`.
    WriteRead { address: SevenBitAddr, expected_write: Vec<u8>, read_response: Vec<u8> },
}

/// The error a mismatching or exhausted script reports through the
/// addressed vocabulary: a static message naming the divergence. It
/// classifies as the unclassified bucket.
#[derive(Clone, Copy, Debug, PartialEq, Eq)]
pub struct MockI2cError {
    /// What diverged.
    pub message: &'static str,
}

impl I2cError for MockI2cError {
    open spec fn kind_spec(&self) -> ErrorKind {
        ErrorKind::Other
    }

    fn kind(&self) -> (r: ErrorKind) {
        ErrorKind::Other
    }
}

/// The scripted harness.
pub struct MockI2c {
    expected_operations: Vec<MockOperation>,
    operation_index: usize,
}

/// The canned response of an expectation (empty for a write expectation).
pub open spec fn exp_response(exp: MockOperation) -> Seq<u8> {
    match exp {
        MockOperation::Read { response, .. } => response@,
        MockOperation::WriteRead { read_response, .. } => read_response@,
        MockOperation::Write { .. } => Seq::<u8>::empty(),
    }
}

/// Whether the expectation at `cursor` is a read at `addr` answering
/// exactly `len` bytes.
pub open spec fn read_matches(
    script: Seq<MockOperation>,
    cursor: int,
    addr: SevenBitAddr,
    len: nat,
) -> bool {
    0 <= cursor < script.len() && (script[cursor] matches MockOperation::Read {
        address,
        response,
    } && address == addr && response@.len() == len)
}

/// Whether the expectation at `cursor` is a write at `addr` of exactly
/// `data`.
pub open spec fn write_matches(
    script: Seq<MockOperation>,
    cursor: int,
    addr: SevenBitAddr,
    data: Seq<u8>,
) -> bool {
    0 <= cursor < script.len() && (script[cursor] matches MockOperation::Write {
        address,
        expected_data,
    } && address == addr && expected_data@ == data)
}

/// Whether the expectation at `cursor` is a write-read at `addr` writing
/// exactly `data` and answering exactly `len` bytes.
pub open spec fn write_read_matches(
    script: Seq<MockOperation>,
    cursor: int,
    addr: SevenBitAddr,
    data: Seq<u8>,
    len: nat,
) -> bool {
    0 <= cursor < script.len() && (script[cursor] matches MockOperation::WriteRead {
        address,
        expected_write,
        read_response,
    } && address == addr && expected_write@ == data && read_response@.len() == len)
}

/// The message a mismatching read reports.
pub open spec fn read_mismatch_message(
    script: Seq<MockOperation>,
    cursor: int,
    addr: SevenBitAddr,
) -> Seq<char> {
    if cursor >= script.len() {
        "Unexpected read operation"@
    } else {
        match script[cursor] {
            MockOperation::Read { address, .. } => if address != addr {
                "Read address mismatch"@
            } else {
                "Read buffer size mismatch"@
            },
            _ => "Expected read operation"@,
        }
    }
}

/// The message a mismatching write reports.
pub open spec fn write_mismatch_message(
    script: Seq<MockOperation>,
    cursor: int,
    addr: SevenBitAddr,
) -> Seq<char> {
    if cursor >= script.len() {
        "Unexpected write operation"@
    } else {
        match script[cursor] {
            MockOperation::Write { address, .. } => if address != addr {
                "Write address mismatch"@
            } else {
                "Write data mismatch"@
            },
            _ => "Expected write operation"@,
        }
    }
}

/// The message a mismatching write-read reports.
pub open spec fn write_read_mismatch_message(
    script: Seq<MockOperation>,
    cursor: int,
    addr: SevenBitAddr,
    data: Seq<u8>,
) -> Seq<char> {
    if cursor >= script.len() {
        "Unexpected write_read operation"@
    } else {
        match script[cursor] {
            MockOperation::WriteRead { address, expected_write, .. } => if address != addr {
                "WriteRead address mismatch"@
            } else if expected_write@ != data {
                "WriteRead write data mismatch"@
            } else {
                "WriteRead read buffer size mismatch"@
            },
            _ => "Expected write_read operation"@,
        }
    }
}

/// Whether the expectation at `cursor` answers a bound-endpoint write of
/// exactly `bytes` (the address is not checked: the endpoint is fixed).
pub open spec fn device_write_matches(
    script: Seq<MockOperation>,
    cursor: int,
    bytes: Seq<u8>,
) -> bool {
    0 <= cursor < script.len() && (script[cursor] matches MockOperation::Write {
        expected_data,
        ..
    } && expected_data@ == bytes)
}

/// Whether the expectation at `cursor` answers a bound-endpoint read of
/// exactly `len` bytes.
pub open spec fn device_read_matches(script: Seq<MockOperation>, cursor: int, len: nat) -> bool {
    0 <= cursor < script.len() && (script[cursor] matches MockOperation::Read {
        response,
        ..
    } && response@.len() == len)
}

/// Whether the expectation at `cursor` is a write-read of the single
/// register-select byte `reg` answering exactly `len` bytes.
pub open spec fn device_reg_matches(
    script: Seq<MockOperation>,
    cursor: int,
    reg: u8,
    len: nat,
) -> bool {
    0 <= cursor < script.len() && (script[cursor] matches MockOperation::WriteRead {
        expected_write,
        read_response,
        ..
    } && expected_write@ == seq![reg] && read_response@.len() == len)
}

/// Whether the expectations at `cursor` and `cursor + 1` together answer
/// a register read of `reg` into `len` bytes: a one-byte write of `reg`
/// followed by a read of `len` bytes — on the bus, a register read is
/// exactly that pair in one round trip.
pub open spec fn device_reg_pair_matches(
    script: Seq<MockOperation>,
    cursor: int,
    reg: u8,
    len: nat,
) -> bool {
    0 <= cursor && cursor + 1 < script.len() && (script[cursor] matches MockOperation::Write {
        expected_data,
        ..
    } && expected_data@ == seq![reg]) && (script[cursor + 1] matches MockOperation::Read {
        response,
        ..
    } && response@.len() == len)
}

/// What a bound-endpoint register read does to the harness: one matching
/// write-read expectation, or a matching write-then-read pair, is
/// consumed and answers; anything else is a bad-response error and the
/// cursor stays.
pub open spec fn device_reg_into_ens(
    pre: MockI2c,
    post: MockI2c,
    reg: u8,
    buf_pre: Seq<u8>,
    buf_post: Seq<u8>,
    r: Result<usize, ResponseCode>,
) -> bool {
    post.script() == pre.script() && if device_reg_matches(
        pre.script(),
        pre.cursor(),
        reg,
        buf_pre.len(),
    ) {
        post.cursor() == pre.cursor() + 1 && buf_post == exp_response(pre.script()[pre.cursor()])
            && r == Ok::<usize, ResponseCode>(buf_pre.len() as usize)
    } else if device_reg_pair_matches(pre.script(), pre.cursor(), reg, buf_pre.len()) {
        post.cursor() == pre.cursor() + 2 && buf_post == exp_response(
            pre.script()[pre.cursor() + 1],
        ) && r == Ok::<usize, ResponseCode>(buf_pre.len() as usize)
    } else {
        post.cursor() == pre.cursor() && buf_post == buf_pre && r == Err::<usize, ResponseCode>(
            ResponseCode::BadResponse,
        )
    }
}

impl MockI2c {
    /// The scripted expectations, for specification purposes.
    pub closed spec fn script(&self) -> Seq<MockOperation> {
        self.expected_operations@
    }

    /// The cursor into the script, for specification purposes.
    pub closed spec fn cursor(&self) -> int {
        self.operation_index as int
    }

    /// A harness with an empty script.
    pub fn new() -> (r: Self)
        ensures
            r.script() == Seq::<MockOperation>::empty(),
            r.cursor() == 0,
    {
        MockI2c { expected_operations: Vec::new(), operation_index: 0 }
    }

    /// Append an expected write of exactly `data` at `address`.
    pub fn expect_write(&mut self, address: SevenBitAddr, data: &[u8])
        ensures
            final(self).cursor() == old(self).cursor(),
            final(self).script().len() == old(self).script().len() + 1,
            final(self).script().subrange(0, old(self).script().len() as int) == old(
                self,
            ).script(),
            final(self).script().last() matches MockOperation::Write { address: a, expected_data }
                && a == address && expected_data@ == data@,
    {
        let expected_data = crate::buf::to_vec(data);
        self.expected_operations.push(MockOperation::Write { address, expected_data });
        proof {
            assert(self.script().subrange(0, old(self).script().len() as int) =~= old(
                self,
            ).script());
        }
    }

    /// Append an expected read at `address`, answered with `response`.
    pub fn expect_read(&mut self, address: SevenBitAddr, response: &[u8])
        ensures
            final(self).cursor() == old(self).cursor(),
            final(self).script().len() == old(self).script().len() + 1,
            final(self).script().subrange(0, old(self).script().len() as int) == old(
                self,
            ).script(),
            final(self).script().last() matches MockOperation::Read { address: a, response: rsp }
                && a == address && rsp@ == response@,
    {
        let response_data = crate::buf::to_vec(response);
        self.expected_operations.push(MockOperation::Read { address, response: response_data });
        proof {
            assert(self.script().subrange(0, old(self).script().len() as int) =~= old(
                self,
            ).script());
        }
    }

    /// Append an expected write-read at `address` writing exactly
    /// `write_data`, answered with `read_response`.
    pub fn expect_write_read(
        &mut self,
        address: SevenBitAddr,
        write_data: &[u8],
        read_response: &[u8],
    )
        ensures
            final(self).cursor() == old(self).cursor(),
            final(self).script().len() == old(self).script().len() + 1,
            final(self).script().subrange(0, old(self).script().len() as int) == old(
                self,
            ).script(),
            final(self).script().last() matches MockOperation::WriteRead {
                address: a,
                expected_write,
                read_response: rsp,
            } && a == address && expected_write@ == write_data@ && rsp@ == read_response@,
    {
        let expected_write = crate::buf::to_vec(write_data);
        let response = crate::buf::to_vec(read_response);
        self.expected_operations.push(
            MockOperation::WriteRead { address, expected_write, read_response: response },
        );
        proof {
            assert(self.script().subrange(0, old(self).script().len() as int) =~= old(
                self,
            ).script());
        }
    }

    /// Whether every scripted expectation was consumed. A test asserts
    /// this at teardown.
    pub fn verify_complete(&self) -> (r: bool)
        ensures
            r == (self.cursor() == self.script().len()),
    {
        self.operation_index == self.expected_operations.len()
    }
}

impl Default for MockI2c {
    /// A harness with an empty script.
    fn default() -> (r: Self)
        ensures
            r.script() == Seq::<MockOperation>::empty(),
            r.cursor() == 0,
    {
        MockI2c::new()
    }
}

impl DeviceClient for MockI2c {
    /// A matching write expectation is consumed (the endpoint is bound, so
    /// the expectation's address is not checked here); anything else is a
    /// bad-response error and the cursor stays.
    open spec fn write_ens(
        pre: Self,
        post: Self,
        bytes: Seq<u8>,
        r: Result<usize, ResponseCode>,
    ) -> bool {
        post.script() == pre.script() && if device_write_matches(pre.script(), pre.cursor(), bytes) {
            post.cursor() == pre.cursor() + 1 && r == Ok::<usize, ResponseCode>(
                bytes.len() as usize,
            )
        } else {
            post.cursor() == pre.cursor() && r == Err::<usize, ResponseCode>(
                ResponseCode::BadResponse,
            )
        }
    }

    fn write(&mut self, bytes: &[u8]) -> (r: Result<usize, ResponseCode>) {
        if self.operation_index >= self.expected_operations.len() {
            return Err(ResponseCode::BadResponse);
        }
        let matched = match &self.expected_operations[self.operation_index] {
            MockOperation::Write { expected_data, .. } => slice_eq(
                bytes,
                expected_data.as_slice(),
            ),
            _ => false,
        };
        if matched {
            self.operation_index = self.operation_index + 1;
            Ok(bytes.len())
        } else {
            Err(ResponseCode::BadResponse)
        }
    }

    /// A matching read expectation is consumed and its canned response
    /// fills the buffer; anything else is a bad-response error, the
    /// cursor stays and the buffer is untouched.
    open spec fn read_into_ens(
        pre: Self,
        post: Self,
        buf_pre: Seq<u8>,
        buf_post: Seq<u8>,
        r: Result<usize, ResponseCode>,
    ) -> bool {
        post.script() == pre.script() && if device_read_matches(
            pre.script(),
            pre.cursor(),
            buf_pre.len(),
        ) {
            post.cursor() == pre.cursor() + 1 && buf_post == exp_response(
                pre.script()[pre.cursor()],
            ) && r == Ok::<usize, ResponseCode>(buf_pre.len() as usize)
        } else {
            post.cursor() == pre.cursor() && buf_post == buf_pre && r == Err::<
                usize,
                ResponseCode,
            >(ResponseCode::BadResponse)
        }
    }

    fn read_into(&mut self, buffer: &mut Vec<u8>) -> (r: Result<usize, ResponseCode>) {
        if self.operation_index >= self.expected_operations.len() {
            return Err(ResponseCode::BadResponse);
        }
        match &self.expected_operations[self.operation_index] {
            MockOperation::Read { response, .. } => {
                if response.len() != buffer.len() {
                    return Err(ResponseCode::BadResponse);
                }
                copy_into(response.as_slice(), buffer);
                self.operation_index = self.operation_index + 1;
                Ok(buffer.len())
            },
            _ => Err(ResponseCode::BadResponse),
        }
    }

    /// A write-read expectation of exactly the one register-select byte,
    /// answering one byte, is consumed; anything else is a bad-response
    /// error and the cursor stays.
    open spec fn read_reg_ens(
        pre: Self,
        post: Self,
        reg: u8,
        r: Result<u8, ResponseCode>,
    ) -> bool {
        post.script() == pre.script() && if device_reg_matches(pre.script(), pre.cursor(), reg, 1) {
            post.cursor() == pre.cursor() + 1 && r == Ok::<u8, ResponseCode>(
                exp_response(pre.script()[pre.cursor()])[0],
            )
        } else {
            post.cursor() == pre.cursor() && r == Err::<u8, ResponseCode>(
                ResponseCode::BadResponse,
            )
        }
    }

    fn read_reg(&mut self, reg: u8) -> (r: Result<u8, ResponseCode>) {
        if self.operation_index >= self.expected_operations.len() {
            return Err(ResponseCode::BadResponse);
        }
        match &self.expected_operations[self.operation_index] {
            MockOperation::WriteRead { expected_write, read_response, .. } => {
                if expected_write.len() == 1 && expected_write[0] == reg
                    && read_response.len() == 1 {
                    let value = read_response[0];
                    proof {
                        assert(expected_write@ =~= seq![reg]);
                    }
                    self.operation_index = self.operation_index + 1;
                    Ok(value)
                } else {
                    proof {
                        assert(expected_write@ == seq![reg] ==> expected_write@.len() == 1
                            && expected_write@[0] == reg);
                    }
                    Err(ResponseCode::BadResponse)
                }
            },
            _ => Err(ResponseCode::BadResponse),
        }
    }

    /// One matching write-read expectation, or a matching pair of a
    /// one-byte write and a read, is consumed and answers; anything else
    /// is a bad-response error, the cursor stays and the buffer is
    /// untouched.
    open spec fn read_reg_into_ens(
        pre: Self,
        post: Self,
        reg: u8,
        buf_pre: Seq<u8>,
        buf_post: Seq<u8>,
        r: Result<usize, ResponseCode>,
    ) -> bool {
        device_reg_into_ens(pre, post, reg, buf_pre, buf_post, r)
    }

    fn read_reg_into(&mut self, reg: u8, buffer: &mut Vec<u8>) -> (r: Result<usize, ResponseCode>) {
        self.reg_read_step(reg, buffer)
    }

    /// An SMBus block read is answered exactly as a register read into the
    /// buffer: the byte count is the buffer's length.
    open spec fn read_block_ens(
        pre: Self,
        post: Self,
        reg: u8,
        buf_pre: Seq<u8>,
        buf_post: Seq<u8>,
        r: Result<usize, ResponseCode>,
    ) -> bool {
        device_reg_into_ens(pre, post, reg, buf_pre, buf_post, r)
    }

    fn read_block(&mut self, reg: u8, buffer: &mut Vec<u8>) -> (r: Result<usize, ResponseCode>) {
        self.reg_read_step(reg, buffer)
    }
}

/// What executing one transaction element does to the harness: a write
/// element goes through the harness's addressed write and stays unchanged;
/// a read element hands a scratch buffer of its length to the harness's
/// addressed read and, on success, holds the canned response received. A
/// failing element is surfaced unchanged, with the harness's own mismatch
/// message.
pub open spec fn mock_step(
    pre: MockI2c,
    post: MockI2c,
    addr: SevenBitAddr,
    op_pre: I2cOperation,
    op_post: I2cOperation,
    r: Result<(), MockI2cError>,
) -> bool {
    match op_pre {
        I2cOperation::Write(w) => op_post == op_pre && <MockI2c as I2cTarget>::write_ens(
            pre,
            post,
            addr,
            w@,
            r,
        ),
        I2cOperation::Read(b0) => exists|b_init: Seq<u8>, bq: Seq<u8>|
            b_init.len() == b0@.len() && #[trigger] <MockI2c as I2cTarget>::read_ens(
                pre,
                post,
                addr,
                b_init,
                bq,
                r,
            ) && (match r {
                Ok(_) => op_post matches I2cOperation::Read(b1) && b1@ == bq,
                Err(_) => op_post == op_pre,
            }),
    }
}

/// What a whole transaction does to the harness: the elements execute in
/// order, each through [`mock_step`] — matched against the scripted queue
/// one expectation at a time — threading the harness state. The first
/// mismatch stops the sequence and is surfaced with its message; the
/// failing element and every later one stay untouched.
pub open spec fn mock_transaction_chain(
    pre: MockI2c,
    post: MockI2c,
    addr: SevenBitAddr,
    ops_pre: Seq<I2cOperation>,
    ops_post: Seq<I2cOperation>,
    r: Result<(), MockI2cError>,
) -> bool
    decreases ops_pre.len(),
{
    if ops_pre.len() == 0 {
        post == pre && ops_post.len() == 0 && r is Ok
    } else {
        ops_post.len() == ops_pre.len() && exists|mid: MockI2c, r0: Result<(), MockI2cError>|
            #[trigger] mock_step(pre, mid, addr, ops_pre[0], ops_post[0], r0) && (match r0 {
                Ok(_) => mock_transaction_chain(mid, post, addr, ops_pre.skip(1), ops_post.skip(1), r),
                Err(e) => post == mid && r == Err::<(), MockI2cError>(e) && ops_post.skip(1)
                    == ops_pre.skip(1),
            })
    }
}

/// A completed harness chain extends by one more successful element.
proof fn lemma_mock_chain_snoc_ok(
    a: MockI2c,
    b: MockI2c,
    c: MockI2c,
    addr: SevenBitAddr,
    s: Seq<I2cOperation>,
    t: Seq<I2cOperation>,
    op: I2cOperation,
    opp: I2cOperation,
    r0: Result<(), MockI2cError>,
)
    requires
        mock_transaction_chain(a, b, addr, s, t, Ok::<(), MockI2cError>(())),
        mock_step(b, c, addr, op, opp, r0),
        r0 is Ok,
    ensures
        mock_transaction_chain(a, c, addr, s.push(op), t.push(opp), Ok::<(), MockI2cError>(())),
    decreases s.len(),
{
    if s.len() == 0 {
        assert(a == b);
        assert(mock_step(a, c, addr, s.push(op)[0], t.push(opp)[0], r0));
        assert(s.push(op).skip(1) =~= Seq::<I2cOperation>::empty());
        assert(t.push(opp).skip(1) =~= Seq::<I2cOperation>::empty());
        assert(mock_transaction_chain(
            c,
            c,
            addr,
            s.push(op).skip(1),
            t.push(opp).skip(1),
            Ok::<(), MockI2cError>(()),
        ));
    } else {
        let (mid, q0) = choose|mid: MockI2c, q0: Result<(), MockI2cError>|
            #[trigger] mock_step(a, mid, addr, s[0], t[0], q0) && (match q0 {
                Ok(_) => mock_transaction_chain(
                    mid,
                    b,
                    addr,
                    s.skip(1),
                    t.skip(1),
                    Ok::<(), MockI2cError>(()),
                ),
                Err(e) => b == mid && Ok::<(), MockI2cError>(()) == Err::<(), MockI2cError>(e)
                    && t.skip(1) == s.skip(1),
            });
        assert(q0 is Ok);
        lemma_mock_chain_snoc_ok(mid, b, c, addr, s.skip(1), t.skip(1), op, opp, r0);
        assert(s.push(op).skip(1) =~= s.skip(1).push(op));
        assert(t.push(opp).skip(1) =~= t.skip(1).push(opp));
        assert(mock_transaction_chain(
            mid,
            c,
            addr,
            s.push(op).skip(1),
            t.push(opp).skip(1),
            Ok::<(), MockI2cError>(()),
        ));
        assert(mock_step(a, mid, addr, s.push(op)[0], t.push(opp)[0], q0));
    }
}

/// A completed harness chain, one failing element, and an untouched rest
/// make a failed chain of the whole.
proof fn lemma_mock_chain_abort(
    a: MockI2c,
    b: MockI2c,
    c: MockI2c,
    addr: SevenBitAddr,
    s: Seq<I2cOperation>,
    t: Seq<I2cOperation>,
    op: I2cOperation,
    rest: Seq<I2cOperation>,
    e: MockI2cError,
)
    requires
        mock_transaction_chain(a, b, addr, s, t, Ok::<(), MockI2cError>(())),
        mock_step(b, c, addr, op, op, Err::<(), MockI2cError>(e)),
    ensures
        mock_transaction_chain(
            a,
            c,
            addr,
            s.push(op) + rest,
            t.push(op) + rest,
            Err::<(), MockI2cError>(e),
        ),
    decreases s.len(),
{
    if s.len() == 0 {
        assert(a == b);
        assert((s.push(op) + rest)[0] == op);
        assert((t.push(op) + rest)[0] == op);
        assert(mock_step(a, c, addr, (s.push(op) + rest)[0], (t.push(op) + rest)[0], Err::<
            (),
            MockI2cError,
        >(e)));
        assert((s.push(op) + rest).skip(1) =~= rest);
        assert((t.push(op) + rest).skip(1) =~= rest);
    } else {
        let (mid, q0) = choose|mid: MockI2c, q0: Result<(), MockI2cError>|
            #[trigger] mock_step(a, mid, addr, s[0], t[0], q0) && (match q0 {
                Ok(_) => mock_transaction_chain(
                    mid,
                    b,
                    addr,
                    s.skip(1),
                    t.skip(1),
                    Ok::<(), MockI2cError>(()),
                ),
                Err(e1) => b == mid && Ok::<(), MockI2cError>(()) == Err::<(), MockI2cError>(e1)
                    && t.skip(1) == s.skip(1),
            });
        assert(q0 is Ok);
        lemma_mock_chain_abort(mid, b, c, addr, s.skip(1), t.skip(1), op, rest, e);
        assert((s.push(op) + rest).skip(1) =~= s.skip(1).push(op) + rest);
        assert((t.push(op) + rest).skip(1) =~= t.skip(1).push(op) + rest);
        assert((s.push(op) + rest)[0] == s[0]);
        assert((t.push(op) + rest)[0] == t[0]);
        assert(mock_step(a, mid, addr, (s.push(op) + rest)[0], (t.push(op) + rest)[0], q0));
    }
}

impl I2cTarget for MockI2c {
    type Error = MockI2cError;

    /// A matching read expectation is consumed and answers; any mismatch
    /// names the divergence and leaves cursor and buffer untouched.
    open spec fn read_ens(
        pre: Self,
        post: Self,
        addr: SevenBitAddr,
        buf_pre: Seq<u8>,
        buf_post: Seq<u8>,
        r: Result<(), MockI2cError>,
    ) -> bool {
        post.script() == pre.script() && if read_matches(
            pre.script(),
            pre.cursor(),
            addr,
            buf_pre.len(),
        ) {
            post.cursor() == pre.cursor() + 1 && buf_post == exp_response(
                pre.script()[pre.cursor()],
            ) && r is Ok
        } else {
            post.cursor() == pre.cursor() && buf_post == buf_pre && (r matches Err(e) && e.message@
                == read_mismatch_message(pre.script(), pre.cursor(), addr))
        }
    }

    fn read(&mut self, addr: SevenBitAddr, buffer: &mut Vec<u8>) -> (r: Result<
        (),
        MockI2cError,
    >) {
        if self.operation_index >= self.expected_operations.len() {
            return Err(MockI2cError { message: "Unexpected read operation" });
        }
        match &self.expected_operations[self.operation_index] {
            MockOperation::Read { address, response } => {
                if *address != addr {
                    return Err(MockI2cError { message: "Read address mismatch" });
                }
                if response.len() != buffer.len() {
                    return Err(MockI2cError { message: "Read buffer size mismatch" });
                }
                copy_into(response.as_slice(), buffer);
                self.operation_index = self.operation_index + 1;
                Ok(())
            },
            _ => Err(MockI2cError { message: "Expected read operation" }),
        }
    }

    /// A matching write expectation is consumed; any mismatch names the
    /// divergence and leaves the cursor untouched.
    open spec fn write_ens(
        pre: Self,
        post: Self,
        addr: SevenBitAddr,
        bytes: Seq<u8>,
        r: Result<(), MockI2cError>,
    ) -> bool {
        post.script() == pre.script() && if write_matches(pre.script(), pre.cursor(), addr, bytes) {
            post.cursor() == pre.cursor() + 1 && r is Ok
        } else {
            post.cursor() == pre.cursor() && (r matches Err(e) && e.message@
                == write_mismatch_message(pre.script(), pre.cursor(), addr))
        }
    }

    fn write(&mut self, addr: SevenBitAddr, bytes: &[u8]) -> (r: Result<(), MockI2cError>) {
        if self.operation_index >= self.expected_operations.len() {
            return Err(MockI2cError { message: "Unexpected write operation" });
        }
        match &self.expected_operations[self.operation_index] {
            MockOperation::Write { address, expected_data } => {
                if *address != addr {
                    return Err(MockI2cError { message: "Write address mismatch" });
                }
                if !slice_eq(bytes, expected_data.as_slice()) {
                    return Err(MockI2cError { message: "Write data mismatch" });
                }
                self.operation_index = self.operation_index + 1;
                Ok(())
            },
            _ => Err(MockI2cError { message: "Expected write operation" }),
        }
    }

    /// A matching write-read expectation is consumed and answers; any
    /// mismatch names the divergence and leaves cursor and buffer
    /// untouched.
    open spec fn write_read_ens(
        pre: Self,
        post: Self,
        addr: SevenBitAddr,
        bytes: Seq<u8>,
        buf_pre: Seq<u8>,
        buf_post: Seq<u8>,
        r: Result<(), MockI2cError>,
    ) -> bool {
        post.script() == pre.script() && if write_read_matches(
            pre.script(),
            pre.cursor(),
            addr,
            bytes,
            buf_pre.len(),
        ) {
            post.cursor() == pre.cursor() + 1 && buf_post == exp_response(
                pre.script()[pre.cursor()],
            ) && r is Ok
        } else {
            post.cursor() == pre.cursor() && buf_post == buf_pre && (r matches Err(e) && e.message@
                == write_read_mismatch_message(pre.script(), pre.cursor(), addr, bytes))
        }
    }

    fn write_read(&mut self, addr: SevenBitAddr, bytes: &[u8], buffer: &mut Vec<u8>) -> (r: Result<
        (),
        MockI2cError,
    >) {
        if self.operation_index >= self.expected_operations.len() {
            return Err(MockI2cError { message: "Unexpected write_read operation" });
        }
        match &self.expected_operations[self.operation_index] {
            MockOperation::WriteRead { address, expected_write, read_response } => {
                if *address != addr {
                    return Err(MockI2cError { message: "WriteRead address mismatch" });
                }
                if !slice_eq(bytes, expected_write.as_slice()) {
                    return Err(MockI2cError { message: "WriteRead write data mismatch" });
                }
                if read_response.len() != buffer.len() {
                    return Err(MockI2cError { message: "WriteRead read buffer size mismatch" });
                }
                copy_into(read_response.as_slice(), buffer);
                self.operation_index = self.operation_index + 1;
                Ok(())
            },
            _ => Err(MockI2cError { message: "Expected write_read operation" }),
        }
    }

    /// Sequential execution of the elements through the addressed read and
    /// write above, stated element by element as [`mock_transaction_chain`]:
    /// each element is matched against the next expectation in order, reads
    /// are filled with the canned response, the first mismatch is surfaced
    /// with its message and leaves the failing and later elements
    /// untouched. The script is never changed, the cursor advances once per
    /// completed element, and a completed transaction consumed exactly one
    /// expectation per element.
    open spec fn transaction_ens(
        pre: Self,
        post: Self,
        addr: SevenBitAddr,
        ops_pre: Seq<I2cOperation>,
        ops_post: Seq<I2cOperation>,
        r: Result<(), MockI2cError>,
    ) -> bool {
        mock_transaction_chain(pre, post, addr, ops_pre, ops_post, r) && post.script()
            == pre.script() && pre.cursor() <= post.cursor() && post.cursor() <= pre.cursor()
            + ops_pre.len() && (r is Ok ==> post.cursor() == pre.cursor() + ops_pre.len())
    }

    fn transaction(&mut self, addr: SevenBitAddr, operations: &mut Vec<I2cOperation>) -> (r:
        Result<(), MockI2cError>) {
        let n = operations.len();
        let mut idx: usize = 0;
        proof {
            assert(old(operations)@.take(0) =~= Seq::<I2cOperation>::empty());
            assert(operations@.take(0) =~= Seq::<I2cOperation>::empty());
        }
        while idx < n
            invariant
                idx <= n,
                n == old(operations)@.len(),
                operations@.len() == old(operations)@.len(),
                forall|j: int| idx <= j < n ==> operations@[j] == old(operations)@[j],
                forall|j: int|
                    0 <= j < n ==> crate::interface::op_shape_kept(
                        old(operations)@[j],
                        #[trigger] operations@[j],
                    ),
                self.script() == old(self).script(),
                self.cursor() == old(self).cursor() + idx,
                mock_transaction_chain(
                    *old(self),
                    *self,
                    addr,
                    old(operations)@.take(idx as int),
                    operations@.take(idx as int),
                    Ok::<(), MockI2cError>(()),
                ),
            decreases n - idx,
        {
            let ghost old_take = old(operations)@.take(idx as int);
            let ghost cur_take = operations@.take(idx as int);
            let ghost cur_elem = operations@[idx as int];
            let ghost pre_h = *self;
            let is_read = matches!(&operations[idx], I2cOperation::Read(_));
            if is_read {
                let len = match &operations[idx] {
                    I2cOperation::Read(b) => b.len(),
                    I2cOperation::Write(_) => 0,
                };
                let mut scratch = zero_vec(len);
                let ghost scratch_init = scratch@;
                let res = I2cTarget::read(self, addr, &mut scratch);
                let ghost gres = res;
                proof {
                    assert(<MockI2c as I2cTarget>::read_ens(
                        pre_h,
                        *self,
                        addr,
                        scratch_init,
                        scratch@,
                        gres,
                    ));
                }
                match res {
                    Ok(_) => {
                        let ghost new_elem = I2cOperation::Read(scratch);
                        proof {
                            assert(mock_step(pre_h, *self, addr, cur_elem, new_elem, gres));
                            lemma_mock_chain_snoc_ok(
                                *old(self),
                                pre_h,
                                *self,
                                addr,
                                old_take,
                                cur_take,
                                cur_elem,
                                new_elem,
                                gres,
                            );
                        }
                        operations[idx] = I2cOperation::Read(scratch);
                        proof {
                            assert(old(operations)@.take(idx as int + 1) =~= old_take.push(
                                cur_elem,
                            ));
                            assert(operations@.take(idx as int + 1) =~= cur_take.push(new_elem));
                        }
                    },
                    Err(e) => {
                        proof {
                            assert(mock_step(pre_h, *self, addr, cur_elem, cur_elem, gres));
                            lemma_mock_chain_abort(
                                *old(self),
                                pre_h,
                                *self,
                                addr,
                                old_take,
                                cur_take,
                                cur_elem,
                                old(operations)@.skip(idx as int + 1),
                                e,
                            );
                            assert(old_take.push(cur_elem) + old(operations)@.skip(idx as int + 1)
                                =~= old(operations)@);
                            assert(cur_take.push(cur_elem) + old(operations)@.skip(idx as int + 1)
                                =~= operations@);
                        }
                        return Err(e);
                    },
                }
            } else {
                let outcome = match &operations[idx] {
                    I2cOperation::Write(data) => I2cTarget::write(self, addr, data.as_slice()),
                    I2cOperation::Read(_) => Ok(()),
                };
                let ghost gres = outcome;
                match outcome {
                    Ok(_) => {
                        proof {
                            assert(mock_step(pre_h, *self, addr, cur_elem, cur_elem, gres));
                            lemma_mock_chain_snoc_ok(
                                *old(self),
                                pre_h,
                                *self,
                                addr,
                                old_take,
                                cur_take,
                                cur_elem,
                                cur_elem,
                                gres,
                            );
                            assert(old(operations)@.take(idx as int + 1) =~= old_take.push(
                                cur_elem,
                            ));
                            assert(operations@.take(idx as int + 1) =~= cur_take.push(cur_elem));
                        }
                    },
                    Err(e) => {
                        proof {
                            assert(mock_step(pre_h, *self, addr, cur_elem, cur_elem, gres));
                            lemma_mock_chain_abort(
                                *old(self),
                                pre_h,
                                *self,
                                addr,
                                old_take,
                                cur_take,
                                cur_elem,
                                old(operations)@.skip(idx as int + 1),
                                e,
                            );
                            assert(old_take.push(cur_elem) + old(operations)@.skip(idx as int + 1)
                                =~= old(operations)@);
                            assert(cur_take.push(cur_elem) + old(operations)@.skip(idx as int + 1)
                                =~= operations@);
                        }
                        return Err(e);
                    },
                }
            }
            idx += 1;
        }
        proof {
            assert(old(operations)@.take(n as int) =~= old(operations)@);
            assert(operations@.take(n as int) =~= operations@);
        }
        Ok(())
    }
}

/// Issuing the same read twice is answered independently: against a script
/// whose next two expectations both expect a read at the same address with
/// the same response length, a first read succeeds and consumes exactly
/// one expectation, and a second identical read succeeds again, each
/// answered by its own expectation.
pub proof fn lemma_read_idempotent(
    s0: MockI2c,
    s1: MockI2c,
    s2: MockI2c,
    addr: SevenBitAddr,
    b0: Seq<u8>,
    b1: Seq<u8>,
    b2: Seq<u8>,
    r1: Result<(), MockI2cError>,
    r2: Result<(), MockI2cError>,
)
    requires
        read_matches(s0.script(), s0.cursor(), addr, b0.len()),
        read_matches(s0.script(), s0.cursor() + 1, addr, b0.len()),
        <MockI2c as I2cTarget>::read_ens(s0, s1, addr, b0, b1, r1),
        <MockI2c as I2cTarget>::read_ens(s1, s2, addr, b1, b2, r2),
    ensures
        r1 is Ok,
        r2 is Ok,
        b1 == exp_response(s0.script()[s0.cursor()]),
        b2 == exp_response(s0.script()[s0.cursor() + 1]),
        s2.cursor() == s0.cursor() + 2,
        s2.script() == s0.script(),
{
    assert(b1.len() == b0.len());
    assert(read_matches(s1.script(), s1.cursor(), addr, b1.len()));
}

impl MockI2c {
    /// The shared register-read step of the bound-endpoint vocabulary.
    fn reg_read_step(&mut self, reg: u8, buffer: &mut Vec<u8>) -> (r: Result<usize, ResponseCode>)
        ensures
            final(buffer)@.len() == old(buffer)@.len(),
            device_reg_into_ens(*old(self), *final(self), reg, old(buffer)@, final(buffer)@, r),
    {
        let idx = self.operation_index;
        if idx >= self.expected_operations.len() {
            return Err(ResponseCode::BadResponse);
        }
        let single = match &self.expected_operations[idx] {
            MockOperation::WriteRead { expected_write, read_response, .. } => {
                if expected_write.len() == 1 && expected_write[0] == reg
                    && read_response.len() == buffer.len() {
                    proof {
                        assert(expected_write@ =~= seq![reg]);
                    }
                    true
                } else {
                    proof {
                        assert(expected_write@ == seq![reg] ==> expected_write@.len() == 1
                            && expected_write@[0] == reg);
                    }
                    false
                }
            },
            _ => false,
        };
        if single {
            match &self.expected_operations[idx] {
                MockOperation::WriteRead { read_response, .. } => {
                    copy_into(read_response.as_slice(), buffer);
                },
                _ => {},
            }
            self.operation_index = idx + 1;
            return Ok(buffer.len());
        }
        let first = match &self.expected_operations[idx] {
            MockOperation::Write { expected_data, .. } => {
                if expected_data.len() == 1 && expected_data[0] == reg {
                    proof {
                        assert(expected_data@ =~= seq![reg]);
                    }
                    true
                } else {
                    proof {
                        assert(expected_data@ == seq![reg] ==> expected_data@.len() == 1
                            && expected_data@[0] == reg);
                    }
                    false
                }
            },
            _ => false,
        };
        if first && idx + 1 < self.expected_operations.len() {
            let second = match &self.expected_operations[idx + 1] {
                MockOperation::Read { response, .. } => response.len() == buffer.len(),
                _ => false,
            };
            if second {
                match &self.expected_operations[idx + 1] {
                    MockOperation::Read { response, .. } => {
                        copy_into(response.as_slice(), buffer);
                    },
                    _ => {},
                }
                self.operation_index = idx + 2;
                return Ok(buffer.len());
            }
        }
        Err(ResponseCode::BadResponse)
    }
}

} // verus!
