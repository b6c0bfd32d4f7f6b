//! Per-operation timing statistics: durations of successful calls are
//! recorded in order, failed calls leave no mark, and the reported average is
//! the arithmetic mean of exactly the recorded durations.
use vstd::prelude::*;

verus! {

/// The sum of a sequence of durations, as an unbounded integer.
pub open spec fn duration_sum(s: Seq<u64>) -> int
    decreases s.len(),
{
    if s.len() == 0 {
        0
    } else {
        duration_sum(s.drop_last()) + s.last()
    }
}

/// The durations of the successful calls among a sequence of per-call
/// outcomes, in call order: a `Some` records its duration, a `None` (a failed
/// call) records nothing.
pub open spec fn successes(outcomes: Seq<Option<u64>>) -> Seq<u64>
    decreases outcomes.len(),
{
    if outcomes.len() == 0 {
        Seq::empty()
    } else {
        successes(outcomes.drop_last()) + (match outcomes.last() {
            Some(d) => seq![d],
            None => Seq::empty(),
        })
    }
}

/// The recorded durations, in nanoseconds, of one operation kind across a
/// run's iterations.
pub struct DurationStats {
    durations: Vec<u64>,
}

impl DurationStats {
    /// The durations recorded so far, oldest first.
    pub closed spec fn recorded(self) -> Seq<u64> {
        self.durations@
    }

    pub fn new() -> (r: Self)
        ensures
            r.recorded() == Seq::<u64>::empty(),
    {
        DurationStats { durations: Vec::new() }
    }

    /// How many calls have been recorded.
    pub fn count(&self) -> (n: usize)
        ensures
            n == self.recorded().len(),
    {
        self.durations.len()
    }

    /// Record the duration of one successful call.
    pub fn record(&mut self, nanos: u64)
        ensures
            final(self).recorded() == old(self).recorded().push(nanos),
    {
        self.durations.push(nanos);
    }

    /// Record the outcome of one call: a successful call appends its
    /// duration, a failed call appends nothing.
    pub fn record_outcome(&mut self, outcome: Option<u64>)
        ensures
            match outcome {
                Some(nanos) => final(self).recorded() == old(self).recorded().push(nanos),
                None => *final(self) == *old(self),
            },
    {
        match outcome {
            Some(nanos) => self.record(nanos),
            None => (),
        }
    }

    /// Record a whole run's outcomes in order.
    pub fn record_outcomes(&mut self, outcomes: &Vec<Option<u64>>)
        ensures
            final(self).recorded() == old(self).recorded() + successes(outcomes@),
    {
        let mut i: usize = 0;
        while i < outcomes.len()
            invariant
                i <= outcomes@.len(),
                self.recorded() == old(self).recorded() + successes(
                    outcomes@.subrange(0, i as int),
                ),
            decreases outcomes@.len() - i,
        {
            let outcome = outcomes[i];
            self.record_outcome(outcome);
            i = i + 1;
            proof {
                let pre = outcomes@.subrange(0, i - 1);
                let cur = outcomes@.subrange(0, i as int);
                assert(cur.drop_last() =~= pre);
                assert(cur.last() == outcomes@[i - 1]);
            }
        }
        proof {
            assert(outcomes@.subrange(0, outcomes@.len() as int) =~= outcomes@);
        }
    }

    /// The arithmetic mean of the recorded durations, rounded down, or `None`
    /// when no call succeeded.
    pub fn average(&self) -> (r: Option<u128>)
        ensures
            match r {
                None => self.recorded().len() == 0,
                Some(a) => self.recorded().len() > 0 && a == duration_sum(self.recorded())
                    / self.recorded().len() as int,
            },
    {
        let n = self.durations.len();
        if n == 0 {
            return None;
        }
        let mut acc: u128 = 0;
        let mut i: usize = 0;
        while i < n
            invariant
                n == self.recorded().len(),
                i <= n,
                acc == duration_sum(self.recorded().subrange(0, i as int)),
                acc <= i * (u64::MAX as int),
            decreases n - i,
        {
            proof {
                let pre = self.recorded().subrange(0, i as int);
                let cur = self.recorded().subrange(0, i + 1);
                assert(cur.drop_last() =~= pre);
                assert((i + 1) * (u64::MAX as int) == i * (u64::MAX as int) + u64::MAX) by (nonlinear_arith);
                assert(i * (u64::MAX as int) <= (usize::MAX as int) * (u64::MAX as int)) by (nonlinear_arith)
                    requires
                        0 <= i <= usize::MAX,
                ;
            }
            acc = acc + (self.durations[i] as u128);
            i = i + 1;
        }
        proof {
            assert(self.recorded().subrange(0, n as int) =~= self.recorded());
        }
        Some(acc / (n as u128))
    }
}

/// Law: over any run, at most one duration is recorded per call, with
/// equality exactly when every call succeeded.
pub proof fn lemma_recorded_bounded_by_calls(outcomes: Seq<Option<u64>>)
    ensures
        successes(outcomes).len() <= outcomes.len(),
        (successes(outcomes).len() == outcomes.len()) <==> (forall|i: int|
            0 <= i < outcomes.len() ==> outcomes[i] is Some),
    decreases outcomes.len(),
{
    if outcomes.len() > 0 {
        let head = outcomes.drop_last();
        lemma_recorded_bounded_by_calls(head);
        if successes(outcomes).len() == outcomes.len() {
            assert(forall|i: int| 0 <= i < head.len() ==> head[i] == outcomes[i]);
        }
        if forall|i: int| 0 <= i < outcomes.len() ==> outcomes[i] is Some {
            assert(forall|i: int| 0 <= i < head.len() ==> head[i] == outcomes[i]);
            assert(outcomes.last() is Some);
        }
    }
}

} // verus!
