use vstd::prelude::*;

use crate::checksum::{checksum_matches, word_checksum};
use crate::protocol::{be_bytes, u16_from_be_bytes, u16_to_be_bytes, word_value};
use crate::types::Error;

verus! {

/// Most words a single transaction reads back.
pub const MAX_REPLY_WORDS: usize = 2;

/// Bytes on the wire for each word read back: two data bytes and a checksum.
pub const BYTES_PER_WORD: usize = 3;

/// Milliseconds to wait between plain reads while recovering from a failed
/// write-then-read.
pub const RETRY_DELAY_MS: u32 = 1;

/// One bus transaction: a 16-bit opcode, an optional 16-bit parameter word sent
/// right after it, and the number of checksummed words to read back.
#[derive(Debug, Clone, Copy, PartialEq, Eq, Structural)]
pub struct Request {
    /// the command opcode
    pub opcode: u16,
    /// a parameter word appended to the opcode
    pub param: Option<u16>,
    /// how many words the sensor answers with
    pub words: usize,
}

impl Request {
    /// At most two words come back, and a command with a parameter has no reply.
    pub open spec fn wf(&self) -> bool {
        &&& self.words <= MAX_REPLY_WORDS
        &&& (self.param is Some ==> self.words == 0)
    }

    /// The bytes written to the bus for this request.
    pub open spec fn wire(&self) -> Seq<u8> {
        match self.param {
            Some(p) => be_bytes(self.opcode) + be_bytes(p),
            None => be_bytes(self.opcode),
        }
    }

    /// The number of bytes read back for this request.
    pub open spec fn read_len(&self) -> nat {
        (BYTES_PER_WORD * self.words) as nat
    }

    /// A request for `words` reply words to `opcode`.
    pub fn command(opcode: u16, words: usize) -> (r: Request)
        requires
            words <= MAX_REPLY_WORDS,
        ensures
            r == (Request { opcode, param: None, words }),
            r.wf(),
    {
        Request { opcode, param: None, words }
    }

    /// A request that writes `opcode` followed by the parameter word `param`.
    pub fn with_param(opcode: u16, param: u16) -> (r: Request)
        ensures
            r == (Request { opcode, param: Some(param), words: 0 }),
            r.wf(),
    {
        Request { opcode, param: Some(param), words: 0 }
    }

    /// Whether the request is well formed.
    pub fn is_valid(&self) -> (r: bool)
        ensures
            r == self.wf(),
    {
        self.words <= MAX_REPLY_WORDS && (self.param.is_none() || self.words == 0)
    }

    /// The bytes written to the bus for this request.
    pub fn wire_bytes(&self) -> (r: Vec<u8>)
        ensures
            r@ == self.wire(),
    {
        let op = u16_to_be_bytes(self.opcode);
        let mut v: Vec<u8> = Vec::new();
        v.push(op[0]);
        v.push(op[1]);
        match self.param {
            Some(p) => {
                let pb = u16_to_be_bytes(p);
                v.push(pb[0]);
                v.push(pb[1]);
            },
            None => {},
        }
        assert(v@ =~= self.wire());
        v
    }
}

/// Word `k` of a reply: its two data bytes, most significant first.
pub open spec fn reply_word(buf: Seq<u8>, k: int) -> u16 {
    word_value(buf[BYTES_PER_WORD * k], buf[BYTES_PER_WORD * k + 1])
}

/// Whether word `k` of a reply is followed by its correct checksum byte.
pub open spec fn word_intact(buf: Seq<u8>, k: int) -> bool {
    buf[BYTES_PER_WORD * k + 2] == word_checksum(
        seq![buf[BYTES_PER_WORD * k], buf[BYTES_PER_WORD * k + 1]],
    )
}

/// Whether each of the first `n` words of a reply carries its correct checksum.
pub open spec fn reply_intact(buf: Seq<u8>, n: nat) -> bool {
    forall|k: int| 0 <= k < n ==> #[trigger] word_intact(buf, k)
}

/// The first `n` words of a reply.
pub open spec fn reply_words(buf: Seq<u8>, n: nat) -> Seq<u16> {
    Seq::new(n, |k: int| reply_word(buf, k))
}

/// What a reply of `n` words in `buf` yields: its words when every checksum
/// matches, a checksum mismatch otherwise.
pub open spec fn decoded<E>(buf: Seq<u8>, n: nat, r: Result<Vec<u16>, Error<E>>) -> bool {
    if reply_intact(buf, n) {
        r is Ok && r->Ok_0@ == reply_words(buf, n)
    } else {
        r == Err::<Vec<u16>, Error<E>>(Error::CrcMismatch)
    }
}

/// Validate and extract the `n` words of a reply, each two data bytes and a
/// checksum byte; the first word whose checksum does not match ends the work
/// with a checksum mismatch.
pub fn decode_reply<E>(buf: &Vec<u8>, n: usize) -> (r: Result<Vec<u16>, Error<E>>)
    requires
        n <= MAX_REPLY_WORDS,
        buf@.len() == BYTES_PER_WORD * n,
    ensures
        decoded(buf@, n as nat, r),
{
    let mut words: Vec<u16> = Vec::new();
    let mut i: usize = 0;
    while i < n
        invariant
            i <= n,
            n <= MAX_REPLY_WORDS,
            buf@.len() == BYTES_PER_WORD * n,
            forall|k: int| 0 <= k < i ==> #[trigger] word_intact(buf@, k),
            words@ == reply_words(buf@, i as nat),
        decreases n - i,
    {
        let hi = buf[3 * i];
        let lo = buf[3 * i + 1];
        let crc = buf[3 * i + 2];
        let ok = checksum_matches([hi, lo], crc);
        assert([hi, lo]@ =~= seq![hi, lo]);
        if !ok {
            assert(!word_intact(buf@, i as int));
            return Err(Error::CrcMismatch);
        }
        words.push(u16_from_be_bytes(hi, lo));
        i += 1;
        assert(words@ =~= reply_words(buf@, i as nat));
    }
    Ok(words)
}

/// A bus operation the transaction asks its runner to perform.
#[derive(Debug, Clone, PartialEq, Eq)]
pub enum BusOp {
    /// write these bytes, with no data phase
    Write(Vec<u8>),
    /// write these bytes, then read this many bytes without releasing the bus
    WriteRead(Vec<u8>, usize),
    /// read this many bytes
    Read(usize),
    /// wait this many milliseconds
    DelayMs(u32),
}

/// What came of the bus operation last asked for.
#[derive(Debug, PartialEq, Eq)]
pub enum Outcome<E> {
    /// the outcome of a `Write`
    Written(Result<(), E>),
    /// the outcome of a `WriteRead` or a `Read`: the bytes read
    Received(Result<Vec<u8>, E>),
    /// a `DelayMs` has elapsed
    Slept,
}

/// What a transaction does next.
#[derive(Debug, PartialEq, Eq)]
pub enum Next<E> {
    /// perform this bus operation and report its outcome
    Perform(BusOp),
    /// the transaction is over, with the words read or an error
    Finish(Result<Vec<u16>, Error<E>>),
}

/// Where a transaction stands.
#[derive(Debug, Clone, Copy, PartialEq, Eq, Structural)]
pub enum Phase {
    /// nothing sent yet
    Idle,
    /// waiting on a write
    Writing,
    /// waiting on the combined write-then-read
    WriteReading,
    /// waiting on a plain read, retrying after a failed write-then-read
    Reading,
    /// waiting between two plain reads
    Sleeping,
    /// finished
    Done,
}

/// One command/response exchange with the sensor, as a state machine: the
/// runner performs each `BusOp` it hands out and reports the `Outcome`.
#[derive(Debug, Clone, Copy)]
pub struct Transaction {
    request: Request,
    phase: Phase,
}

/// Whether `outcome` answers the operation a transaction in `phase` asked for,
/// with exactly `len` bytes where bytes were read.
pub open spec fn answers<E>(phase: Phase, len: nat, outcome: Outcome<E>) -> bool {
    match outcome {
        Outcome::Written(_) => phase == Phase::Writing,
        Outcome::Received(res) => (phase == Phase::WriteReading || phase == Phase::Reading) && (
        res is Ok ==> res->Ok_0@.len() == len),
        Outcome::Slept => phase == Phase::Sleeping,
    }
}

/// The operation that opens a transaction for `req`.
pub open spec fn opening(req: Request, op: BusOp) -> bool {
    if req.words == 0 {
        op is Write && op->Write_0@ == req.wire()
    } else {
        op is WriteRead && op->WriteRead_0@ == req.wire() && op->WriteRead_1 == req.read_len()
    }
}

/// The phase a transaction for `req` is in once opened.
pub open spec fn opening_phase(req: Request) -> Phase {
    if req.words == 0 {
        Phase::Writing
    } else {
        Phase::WriteReading
    }
}

/// One step of a transaction for `req`: from `phase`, on `outcome`, it moves
/// to `phase2` and answers `next`.
pub open spec fn step<E>(
    req: Request,
    phase: Phase,
    outcome: Outcome<E>,
    phase2: Phase,
    next: Next<E>,
) -> bool {
    match outcome {
        Outcome::Written(res) => phase2 == Phase::Done && next is Finish && match res {
            Ok(_) => next->Finish_0 is Ok && next->Finish_0->Ok_0@.len() == 0,
            Err(e) => next->Finish_0 == Err::<Vec<u16>, Error<E>>(Error::I2c(e)),
        },
        Outcome::Received(Ok(buf)) => phase2 == Phase::Done && next is Finish && decoded(
            buf@,
            req.words as nat,
            next->Finish_0,
        ),
        Outcome::Received(Err(_)) => if phase == Phase::WriteReading {
            phase2 == Phase::Reading && next == Next::<E>::Perform(BusOp::Read(req.read_len() as usize))
        } else {
            phase2 == Phase::Sleeping && next == Next::<E>::Perform(BusOp::DelayMs(RETRY_DELAY_MS))
        },
        Outcome::Slept => phase2 == Phase::Reading && next == Next::<E>::Perform(
            BusOp::Read(req.read_len() as usize),
        ),
    }
}

impl Transaction {
    /// The request this transaction carries out.
    pub closed spec fn spec_request(&self) -> Request {
        self.request
    }

    /// Where this transaction stands.
    pub closed spec fn spec_phase(&self) -> Phase {
        self.phase
    }

    /// A transaction that has not started yet.
    pub fn new(request: Request) -> (r: Transaction)
        requires
            request.wf(),
        ensures
            r.spec_request() == request,
            r.spec_phase() == Phase::Idle,
    {
        Transaction { request, phase: Phase::Idle }
    }

    /// The request this transaction carries out.
    pub fn request(&self) -> (r: Request)
        ensures
            r == self.spec_request(),
    {
        self.request
    }

    /// Where this transaction stands.
    pub fn phase(&self) -> (r: Phase)
        ensures
            r == self.spec_phase(),
    {
        self.phase
    }

    /// Whether `outcome` is a fitting answer to the operation last handed out.
    pub fn accepts<E>(&self, outcome: &Outcome<E>) -> (r: bool)
        requires
            self.spec_request().wf(),
        ensures
            r == answers(self.spec_phase(), self.spec_request().read_len(), *outcome),
    {
        match outcome {
            Outcome::Written(_) => self.phase == Phase::Writing,
            Outcome::Received(res) => {
                (self.phase == Phase::WriteReading || self.phase == Phase::Reading) && match res {
                    Ok(buf) => buf.len() == BYTES_PER_WORD * self.request.words,
                    Err(_) => true,
                }
            },
            Outcome::Slept => self.phase == Phase::Sleeping,
        }
    }

    /// Open the transaction: a plain write when no reply is expected, else a
    /// combined write-then-read of three bytes per expected word.
    pub fn start(&mut self) -> (op: BusOp)
        requires
            old(self).spec_request().wf(),
            old(self).spec_phase() == Phase::Idle,
        ensures
            final(self).spec_request() == old(self).spec_request(),
            opening(old(self).spec_request(), op),
            final(self).spec_phase() == opening_phase(old(self).spec_request()),
    {
        let bytes = self.request.wire_bytes();
        if self.request.words == 0 {
            self.phase = Phase::Writing;
            BusOp::Write(bytes)
        } else {
            self.phase = Phase::WriteReading;
            BusOp::WriteRead(bytes, BYTES_PER_WORD * self.request.words)
        }
    }

    /// Take in the outcome of the operation last handed out and decide what
    /// comes next. A failed write ends the transaction with that bus error. A
    /// failed write-then-read is followed by plain reads, one millisecond
    /// apart, until one succeeds. Bytes read end the transaction with their
    /// words, or with a checksum mismatch.
    pub fn resume<E>(&mut self, outcome: Outcome<E>) -> (next: Next<E>)
        requires
            old(self).spec_request().wf(),
            answers(old(self).spec_phase(), old(self).spec_request().read_len(), outcome),
        ensures
            final(self).spec_request() == old(self).spec_request(),
            step(old(self).spec_request(), old(self).spec_phase(), outcome, final(self).spec_phase(), next),
    {
        let n = self.request.words;
        match outcome {
            Outcome::Written(res) => {
                self.phase = Phase::Done;
                match res {
                    Ok(_) => Next::Finish(Ok(Vec::new())),
                    Err(e) => Next::Finish(Err(Error::I2c(e))),
                }
            },
            Outcome::Received(Ok(buf)) => {
                self.phase = Phase::Done;
                Next::Finish(decode_reply(&buf, n))
            },
            Outcome::Received(Err(_)) => {
                if self.phase == Phase::WriteReading {
                    self.phase = Phase::Reading;
                    Next::Perform(BusOp::Read(BYTES_PER_WORD * n))
                } else {
                    self.phase = Phase::Sleeping;
                    Next::Perform(BusOp::DelayMs(RETRY_DELAY_MS))
                }
            },
            Outcome::Slept => {
                self.phase = Phase::Reading;
                Next::Perform(BusOp::Read(BYTES_PER_WORD * n))
            },
        }
    }
}

/// A transaction that expects no reply opens with a plain write of its bytes
/// and never reads: whatever the write's outcome, it then finishes, and a
/// failed write finishes it with that same bus error.
pub proof fn no_reply_never_reads<E>(
    req: Request,
    op: BusOp,
    outcome: Outcome<E>,
    phase2: Phase,
    next: Next<E>,
)
    requires
        req.wf(),
        req.words == 0,
        opening(req, op),
        answers(Phase::Writing, req.read_len(), outcome),
        step(req, Phase::Writing, outcome, phase2, next),
    ensures
        op is Write,
        op->Write_0@ == req.wire(),
        phase2 == Phase::Done,
        next is Finish,
        forall|e: E|
            outcome == Outcome::<E>::Written(Err(e)) ==> next->Finish_0 == Err::<
                Vec<u16>,
                Error<E>,
            >(Error::I2c(e)),
{
}

/// A transaction that expects `n` words, one or two, asks for exactly three
/// bytes per word, and so does every plain read that retries it.
pub proof fn reply_read_length<E>(
    req: Request,
    op: BusOp,
    phase: Phase,
    outcome: Outcome<E>,
    phase2: Phase,
    next: Next<E>,
)
    requires
        req.wf(),
        1 <= req.words,
        opening(req, op),
        step(req, phase, outcome, phase2, next),
    ensures
        op is WriteRead,
        op->WriteRead_0@ == req.wire(),
        op->WriteRead_1 == 3 * req.words,
        next matches Next::Perform(BusOp::Read(len)) ==> len == 3 * req.words,
{
}

/// Changing only the checksum byte of one word of an intact reply makes the
/// reply yield a checksum mismatch, never words.
pub proof fn corrupted_checksum_is_rejected<E>(
    buf: Seq<u8>,
    n: nat,
    k: int,
    x: u8,
    r: Result<Vec<u16>, Error<E>>,
)
    requires
        n <= MAX_REPLY_WORDS,
        buf.len() == BYTES_PER_WORD * n,
        reply_intact(buf, n),
        0 <= k < n,
        x != buf[BYTES_PER_WORD * k + 2],
        decoded(buf.update(BYTES_PER_WORD * k + 2, x), n, r),
    ensures
        r == Err::<Vec<u16>, Error<E>>(Error::CrcMismatch),
{
    let bad = buf.update(BYTES_PER_WORD * k + 2, x);
    assert(word_intact(buf, k));
    assert(bad[BYTES_PER_WORD * k] == buf[BYTES_PER_WORD * k]);
    assert(bad[BYTES_PER_WORD * k + 1] == buf[BYTES_PER_WORD * k + 1]);
    assert(!word_intact(bad, k));
}

} // verus!
