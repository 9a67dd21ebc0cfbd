use vstd::prelude::*;

use crate::sequence::{plan_words, plan_wf, Sequence};
use crate::transaction::{
    answers, opening, opening_phase, reply_intact, reply_words, BusOp, Next, Outcome, Phase, Request, Transaction,
    RETRY_DELAY_MS,
};
use crate::types::Error;

verus! {

/// A whole driver operation in progress: a plan of transactions run in order,
/// each through the transaction engine. The runner that owns the bus performs
/// every `BusOp` handed out and reports its `Outcome`, until the session
/// finishes with all words read or with the first error.
#[derive(Debug)]
pub struct Session {
    sequence: Sequence,
    transaction: Transaction,
    finished: bool,
}

impl Session {
    /// The planned requests.
    pub closed spec fn spec_requests(&self) -> Seq<Request> {
        self.sequence.spec_requests()
    }

    /// How many requests have completed successfully.
    pub closed spec fn spec_done(&self) -> nat {
        self.sequence.spec_done()
    }

    /// The words read so far, in order.
    pub closed spec fn spec_words(&self) -> Seq<u16> {
        self.sequence.spec_words()
    }

    /// Whether the session has finished.
    pub closed spec fn spec_finished(&self) -> bool {
        self.finished
    }

    /// Where the transaction in progress stands.
    pub closed spec fn spec_phase(&self) -> Phase {
        self.transaction.spec_phase()
    }

    /// Internal consistency of the session.
    pub closed spec fn wf(&self) -> bool {
        &&& self.sequence.wf()
        &&& self.transaction.spec_request().wf()
        &&& (self.finished <==> self.sequence.spec_current() is None)
        &&& !self.finished ==> {
            &&& self.sequence.spec_current() == Some(self.transaction.spec_request())
            &&& self.transaction.spec_phase() != Phase::Idle
            &&& self.transaction.spec_phase() != Phase::Done
            &&& (self.transaction.spec_phase() == Phase::Writing <==> self.transaction.spec_request().words
                == 0)
        }
    }

    /// The request in progress.
    pub open spec fn spec_current(&self) -> Request {
        self.spec_requests()[self.spec_done() as int]
    }

    /// Whether `outcome` is a fitting answer to the operation last handed out.
    pub open spec fn expects<E>(&self, outcome: Outcome<E>) -> bool {
        !self.spec_finished() && answers(self.spec_phase(), self.spec_current().read_len(), outcome)
    }

    /// Begin running `plan`: hands out the operation that opens its first request.
    pub fn start(plan: Vec<Request>) -> (r: (Session, BusOp))
        requires
            plan_wf(plan@),
            plan@.len() > 0,
        ensures
            r.0.wf(),
            r.0.spec_requests() == plan@,
            r.0.spec_done() == 0,
            r.0.spec_words().len() == 0,
            !r.0.spec_finished(),
            r.0.spec_phase() == opening_phase(plan@[0]),
            opening(plan@[0], r.1),
    {
        let sequence = Sequence::new(plan);
        let req = match sequence.current() {
            Some(req) => req,
            None => {
                assert(false);
                Request::command(0, 0)
            },
        };
        let mut transaction = Transaction::new(req);
        let op = transaction.start();
        (Session { sequence, transaction, finished: false }, op)
    }

    /// Whether the session has finished.
    pub fn is_finished(&self) -> (r: bool)
        ensures
            r == self.spec_finished(),
    {
        self.finished
    }

    /// Whether `outcome` is a fitting answer to the operation last handed out.
    pub fn accepts<E>(&self, outcome: &Outcome<E>) -> (r: bool)
        requires
            self.wf(),
        ensures
            r == self.expects(*outcome),
    {
        !self.finished && self.transaction.accepts(outcome)
    }

    /// Take in the outcome of the operation last handed out and decide what
    /// comes next: another bus operation, or the end of the session.
    pub fn resume<E>(&mut self, outcome: Outcome<E>) -> (r: Next<E>)
        requires
            old(self).wf(),
            old(self).expects(outcome),
        ensures
            final(self).wf(),
            final(self).spec_requests() == old(self).spec_requests(),
            match outcome {
                Outcome::Written(Err(e)) => {
                    &&& r == Next::<E>::Finish(Err(Error::I2c(e)))
                    &&& final(self).spec_finished()
                },
                Outcome::Written(Ok(_)) => advanced(*old(self), *final(self), Seq::empty(), r),
                Outcome::Received(Ok(buf)) => if reply_intact(
                    buf@,
                    old(self).spec_current().words as nat,
                ) {
                    advanced(
                        *old(self),
                        *final(self),
                        reply_words(buf@, old(self).spec_current().words as nat),
                        r,
                    )
                } else {
                    &&& r == Next::<E>::Finish(Err(Error::CrcMismatch))
                    &&& final(self).spec_finished()
                },
                Outcome::Received(Err(_)) => {
                    &&& held(*old(self), *final(self))
                    &&& final(self).spec_phase() == if old(self).spec_phase() == Phase::WriteReading {
                        Phase::Reading
                    } else {
                        Phase::Sleeping
                    }
                    &&& r == Next::<E>::Perform(
                        if old(self).spec_phase() == Phase::WriteReading {
                            BusOp::Read(old(self).spec_current().read_len() as usize)
                        } else {
                            BusOp::DelayMs(RETRY_DELAY_MS)
                        },
                    )
                },
                Outcome::Slept => {
                    &&& held(*old(self), *final(self))
                    &&& final(self).spec_phase() == Phase::Reading
                    &&& r == Next::<E>::Perform(
                        BusOp::Read(old(self).spec_current().read_len() as usize),
                    )
                },
            },
    {
        let tnext = self.transaction.resume(outcome);
        match tnext {
            Next::Perform(op) => Next::Perform(op),
            Next::Finish(res) => {
                match self.sequence.complete(res) {
                    Some(end) => {
                        self.finished = true;
                        Next::Finish(end)
                    },
                    None => {
                        let req = match self.sequence.current() {
                            Some(req) => req,
                            None => {
                                assert(false);
                                Request::command(0, 0)
                            },
                        };
                        let mut transaction = Transaction::new(req);
                        let op = transaction.start();
                        self.transaction = transaction;
                        Next::Perform(op)
                    },
                }
            },
        }
    }
}

/// The request in progress stays in progress, with nothing added.
pub open spec fn held(old: Session, new: Session) -> bool {
    &&& !new.spec_finished()
    &&& new.spec_done() == old.spec_done()
    &&& new.spec_words() == old.spec_words()
}

/// The request in progress completed with the words `added`. After the last
/// request the session finishes with every word read; otherwise the next
/// request is opened at once.
pub open spec fn advanced<E>(old: Session, new: Session, added: Seq<u16>, r: Next<E>) -> bool {
    &&& new.spec_done() == old.spec_done() + 1
    &&& new.spec_words() == old.spec_words() + added
    &&& if new.spec_done() == new.spec_requests().len() {
        &&& new.spec_finished()
        &&& r is Finish
        &&& r->Finish_0 is Ok
        &&& r->Finish_0->Ok_0@ == new.spec_words()
        &&& new.spec_words().len() == plan_words(new.spec_requests())
    } else {
        &&& !new.spec_finished()
        &&& r is Perform
        &&& new.spec_phase() == opening_phase(new.spec_current())
        &&& opening(new.spec_current(), r->Perform_0)
    }
}

} // verus!
