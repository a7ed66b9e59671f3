use vstd::prelude::*;

use crate::wire::{signals, Op, Signal};

verus! {

/// The mathematical state of an [`Exchange`]: its program, how many of its
/// operations have been handed out, and whether one of them failed.
pub struct Progress {
    pub program: Seq<Signal>,
    pub attempted: nat,
    pub failed: bool,
}

impl Progress {
    /// The operation to perform next, if any: none after a failure or once the
    /// whole program has been handed out.
    pub open spec fn pending(self) -> Option<Signal> {
        if !self.failed && self.attempted < self.program.len() {
            Some(self.program[self.attempted as int])
        } else {
            None
        }
    }

    /// The state after the pending operation is reported done (`ok`) or failed.
    /// With nothing pending the state stays as it is.
    pub open spec fn step(self, ok: bool) -> Progress {
        if self.pending() is Some {
            Progress { program: self.program, attempted: self.attempted + 1, failed: !ok }
        } else {
            self
        }
    }

    /// `None` while operations remain; then `Err` if one failed, else `Ok`.
    pub open spec fn outcome(self) -> Option<Result<(), ()>> {
        if self.failed {
            Some(Err(()))
        } else if self.attempted >= self.program.len() {
            Some(Ok(()))
        } else {
            None
        }
    }

    /// The operations handed out so far, in order.
    pub open spec fn handed_out(self) -> Seq<Signal> {
        self.program.take(self.attempted as int)
    }

    /// The state of a fresh exchange of `program`.
    pub open spec fn start(program: Seq<Signal>) -> Progress {
        Progress { program, attempted: 0, failed: false }
    }

    /// The state after reporting each of `reports` in turn.
    pub open spec fn run(self, reports: Seq<bool>) -> Progress
        decreases reports.len(),
    {
        if reports.len() == 0 {
            self
        } else {
            self.run(reports.drop_last()).step(reports.last())
        }
    }
}

/// A program of wire operations being carried out, one operation at a time,
/// by whoever owns the hardware. A failure of any operation ends it.
pub struct Exchange {
    ops: Vec<Op>,
    next: usize,
    failed: bool,
}

impl View for Exchange {
    type V = Progress;

    closed spec fn view(&self) -> Progress {
        Progress { program: signals(self.ops@), attempted: self.next as nat, failed: self.failed }
    }
}

impl Exchange {
    /// A fresh exchange of `ops`, nothing handed out yet.
    pub fn new(ops: Vec<Op>) -> (r: Exchange)
        ensures
            r@ == Progress::start(signals(ops@)),
    {
        Exchange { ops, next: 0, failed: false }
    }

    /// The operation to perform next, if any.
    pub fn pending(&self) -> (r: Option<&Op>)
        ensures
            match r {
                Some(op) => self@.pending() == Some(op@),
                None => self@.pending() is None,
            },
    {
        if !self.failed && self.next < self.ops.len() {
            Some(&self.ops[self.next])
        } else {
            None
        }
    }

    /// Reports the pending operation as done (`ok`) or failed.
    pub fn advance(&mut self, ok: bool)
        ensures
            final(self)@ == old(self)@.step(ok),
    {
        if !self.failed && self.next < self.ops.len() {
            self.next = self.next + 1;
            self.failed = !ok;
        }
    }

    /// `None` while operations remain; then `Err` if one failed, else `Ok`.
    pub fn outcome(&self) -> (r: Option<Result<(), ()>>)
        ensures
            r == self@.outcome(),
    {
        if self.failed {
            Some(Err(()))
        } else if self.next >= self.ops.len() {
            Some(Ok(()))
        } else {
            None
        }
    }
}

proof fn lemma_run_all_done(p: Progress, reports: Seq<bool>)
    requires
        p.attempted == 0,
        !p.failed,
        reports.len() <= p.program.len(),
        forall|i: int| 0 <= i < reports.len() ==> reports[i],
    ensures
        p.run(reports) == (Progress { program: p.program, attempted: reports.len(), failed: false }),
    decreases reports.len(),
{
    if reports.len() > 0 {
        lemma_run_all_done(p, reports.drop_last());
    }
}

/// An exchange stops at the first failure: when the operations reported before
/// it all succeeded and the `k`-th report is a failure, exactly `k + 1`
/// operations have been handed out, whatever is reported afterwards, and the
/// outcome is that failure.
pub proof fn lemma_first_failure_ends_exchange(program: Seq<Signal>, reports: Seq<bool>, k: int)
    requires
        0 <= k < reports.len(),
        k < program.len(),
        !reports[k],
        forall|i: int| 0 <= i < k ==> reports[i],
    ensures
        Progress::start(program).run(reports).attempted == k + 1,
        Progress::start(program).run(reports).handed_out() == program.take(k + 1),
        Progress::start(program).run(reports).pending() is None,
        Progress::start(program).run(reports).outcome() == Some(Err::<(), ()>(())),
    decreases reports.len(),
{
    let p = Progress::start(program);
    if reports.len() == k + 1 {
        assert(reports.drop_last() =~= reports.take(k));
        lemma_run_all_done(p, reports.drop_last());
    } else {
        lemma_first_failure_ends_exchange(program, reports.drop_last(), k);
    }
}

/// Reporting every operation of a program as done hands out the whole program
/// in order and ends in success.
pub proof fn lemma_success_hands_out_program(program: Seq<Signal>, reports: Seq<bool>)
    requires
        reports.len() == program.len(),
        forall|i: int| 0 <= i < reports.len() ==> reports[i],
    ensures
        Progress::start(program).run(reports).handed_out() == program,
        Progress::start(program).run(reports).outcome() == Some(Ok::<(), ()>(())),
{
    lemma_run_all_done(Progress::start(program), reports);
    assert(program.take(program.len() as int) =~= program);
}

} // verus!
