use vstd::prelude::*;

use crate::transaction::Request;
use crate::types::Error;

verus! {

/// A fixed list of transactions run one after another. The first failure
/// ends the sequence with that error, and nothing after it is sent; when all
/// succeed, the sequence yields every word read, in order.
#[derive(Debug)]
pub struct Sequence {
    requests: Vec<Request>,
    done: usize,
    failed: bool,
    words: Vec<u16>,
}

/// Whether every request of a plan is well formed.
pub open spec fn plan_wf(requests: Seq<Request>) -> bool {
    forall|i: int| 0 <= i < requests.len() ==> (#[trigger] requests[i]).wf()
}

/// Total number of words a plan reads back.
pub open spec fn plan_words(requests: Seq<Request>) -> nat
    decreases requests.len(),
{
    if requests.len() == 0 {
        0
    } else {
        (plan_words(requests.drop_last()) + requests.last().words) as nat
    }
}

impl Sequence {
    /// The planned requests.
    pub closed spec fn spec_requests(&self) -> Seq<Request> {
        self.requests@
    }

    /// How many requests have completed successfully.
    pub closed spec fn spec_done(&self) -> nat {
        self.done as nat
    }

    /// Whether a request has failed.
    pub closed spec fn spec_failed(&self) -> bool {
        self.failed
    }

    /// The words read so far, in order.
    pub closed spec fn spec_words(&self) -> Seq<u16> {
        self.words@
    }

    /// Internal consistency of the sequence.
    pub closed spec fn wf(&self) -> bool {
        &&& plan_wf(self.requests@)
        &&& self.done <= self.requests@.len()
        &&& self.words@.len() == plan_words(self.requests@.take(self.done as int))
    }

    /// The request to run next, if the sequence is still going.
    pub open spec fn spec_current(&self) -> Option<Request> {
        if !self.spec_failed() && self.spec_done() < self.spec_requests().len() {
            Some(self.spec_requests()[self.spec_done() as int])
        } else {
            None
        }
    }

    /// A sequence that has run nothing yet.
    pub fn new(requests: Vec<Request>) -> (r: Sequence)
        requires
            plan_wf(requests@),
        ensures
            r.wf(),
            r.spec_requests() == requests@,
            r.spec_done() == 0,
            !r.spec_failed(),
            r.spec_words().len() == 0,
    {
        assert(requests@.take(0) =~= Seq::<Request>::empty());
        Sequence { requests, done: 0, failed: false, words: Vec::new() }
    }

    /// The request to run next; `None` once the sequence has ended.
    pub fn current(&self) -> (r: Option<Request>)
        requires
            self.wf(),
        ensures
            r == self.spec_current(),
            r matches Some(req) ==> req.wf(),
    {
        if !self.failed && self.done < self.requests.len() {
            Some(self.requests[self.done])
        } else {
            None
        }
    }

    /// Record the result of the current request. A failure ends the sequence
    /// with that error. A success adds its words; after the last request the
    /// sequence ends with every word read.
    pub fn complete<E>(&mut self, result: Result<Vec<u16>, Error<E>>) -> (r: Option<
        Result<Vec<u16>, Error<E>>,
    >)
        requires
            old(self).wf(),
            old(self).spec_current() is Some,
            result is Ok ==> result->Ok_0@.len() == old(self).spec_current()->Some_0.words,
        ensures
            final(self).wf(),
            final(self).spec_requests() == old(self).spec_requests(),
            match result {
                Err(e) => {
                    &&& r == Some(Err::<Vec<u16>, Error<E>>(e))
                    &&& final(self).spec_failed()
                    &&& final(self).spec_current() is None
                    &&& final(self).spec_done() == old(self).spec_done()
                },
                Ok(ws) => {
                    &&& !final(self).spec_failed()
                    &&& final(self).spec_done() == old(self).spec_done() + 1
                    &&& final(self).spec_words() == old(self).spec_words() + ws@
                    &&& if final(self).spec_done() == final(self).spec_requests().len() {
                        &&& r is Some
                        &&& r->Some_0 is Ok
                        &&& r->Some_0->Ok_0@ == final(self).spec_words()
                        &&& r->Some_0->Ok_0@.len() == plan_words(final(self).spec_requests())
                    } else {
                        r is None
                    }
                },
            },
    {
        match result {
            Err(e) => {
                self.failed = true;
                Some(Err(e))
            },
            Ok(ws) => {
                let len = self.requests.len();
                let mut i: usize = 0;
                let ghost before = self.words@;
                while i < ws.len()
                    invariant
                        i <= ws@.len(),
                        self.words@ == before + ws@.take(i as int),
                        self.requests@ == old(self).requests@,
                        self.done == old(self).done,
                        self.failed == old(self).failed,
                        !self.failed,
                        self.done < len,
                        len == self.requests@.len(),
                        plan_wf(self.requests@),
                    decreases ws@.len() - i,
                {
                    self.words.push(ws[i]);
                    i += 1;
                    assert(ws@.take(i as int) =~= ws@.take(i - 1) + seq![ws@[i - 1]]);
                }
                assert(ws@.take(ws@.len() as int) =~= ws@);
                assert(self.requests@.take(self.done + 1).drop_last() =~= self.requests@.take(
                    self.done as int,
                ));
                self.done += 1;

                if self.done == len {
                    assert(self.requests@.take(len as int) =~= self.requests@);
                    Some(Ok(self.words.clone()))
                } else {
                    None
                }
            },
        }
    }
}

} // verus!
