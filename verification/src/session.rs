//! The apply session: one artist's compiled operations applied in emission
//! order, each as its own transaction. A failing operation is recorded and
//! does not abort the session — the remaining operations are still handed
//! out, so a missed edge can be recovered by a later round.

use vstd::prelude::*;

verus! {

/// The per-artist application state machine. The driver repeatedly takes the
/// next query, runs it in its own transaction, and records whether it
/// succeeded; the session advances by exactly one operation either way.
pub struct ApplySession {
    queries: Vec<neo4rs::Query>,
    next: usize,
    outcomes: Vec<bool>,
}

impl ApplySession {
    /// The operations of the session, in emission order.
    pub closed spec fn ops(self) -> Seq<neo4rs::Query> {
        self.queries@
    }

    /// How many operations have been attempted so far.
    pub closed spec fn applied(self) -> int {
        self.next as int
    }

    /// The recorded outcome of each attempted operation, in order.
    pub closed spec fn outcomes_view(self) -> Seq<bool> {
        self.outcomes@
    }

    /// Every attempted operation has exactly one recorded outcome.
    pub closed spec fn wf(self) -> bool {
        self.next <= self.queries@.len() && self.outcomes@.len() == self.next as int
    }

    /// The operations not yet attempted, in order.
    pub open spec fn remaining(self) -> Seq<neo4rs::Query> {
        self.ops().skip(self.applied())
    }

    /// Starts a session over one artist's compiled queries.
    pub fn new(queries: Vec<neo4rs::Query>) -> (s: ApplySession)
        ensures
            s.wf(),
            s.ops() == queries@,
            s.applied() == 0,
            s.outcomes_view() == Seq::<bool>::empty(),
    {
        let s = ApplySession { queries, next: 0, outcomes: Vec::new() };
        proof {
            assert(s.outcomes_view() =~= Seq::<bool>::empty());
        }
        s
    }

    /// Whether every operation has been attempted.
    pub fn is_done(&self) -> (r: bool)
        ensures
            r == (self.applied() == self.ops().len()),
    {
        self.next == self.queries.len()
    }

    /// The next operation to run in its own transaction.
    pub fn next_query(&self) -> (q: &neo4rs::Query)
        requires
            self.wf(),
            self.applied() < self.ops().len(),
        ensures
            *q == self.ops()[self.applied()],
    {
        &self.queries[self.next]
    }

    /// Records the outcome of the operation just attempted. The session
    /// advances by exactly one operation whether it succeeded or failed:
    /// a failure never skips or aborts the operations after it.
    pub fn record(&mut self, ok: bool)
        requires
            old(self).wf(),
            old(self).applied() < old(self).ops().len(),
        ensures
            final(self).wf(),
            final(self).ops() == old(self).ops(),
            final(self).applied() == old(self).applied() + 1,
            final(self).outcomes_view() == old(self).outcomes_view().push(ok),
    {
        let n = self.queries.len();
        self.outcomes.push(ok);
        proof {
            assert(self.next < n);
        }
        self.next = self.next + 1;
    }

    /// How many attempted operations failed.
    pub fn failures(&self) -> (n: usize)
        ensures
            n == self.outcomes_view().filter(|b: bool| !b).len(),
    {
        let mut n: usize = 0;
        let mut i: usize = 0;
        while i < self.outcomes.len()
            invariant
                i <= self.outcomes.len(),
                n == self.outcomes_view().take(i as int).filter(|b: bool| !b).len(),
                n <= i,
            decreases self.outcomes.len() - i,
        {
            proof {
                reveal(Seq::filter);
                assert(self.outcomes_view().take(i + 1).drop_last() =~= self.outcomes_view().take(
                    i as int,
                ));
                assert(self.outcomes_view().take(i + 1).last() == self.outcomes_view()[i as int]);
            }
            if !self.outcomes[i] {
                n = n + 1;
            }
            i = i + 1;
        }
        proof {
            assert(self.outcomes_view().take(self.outcomes@.len() as int)
                =~= self.outcomes_view());
        }
        n
    }
}

/// A finished session attempted every operation and reported an outcome for
/// each, however many of them failed.
pub proof fn lemma_every_outcome_reported(s: ApplySession)
    requires
        s.wf(),
        s.applied() == s.ops().len(),
    ensures
        s.outcomes_view().len() == s.ops().len(),
        s.remaining() == Seq::<neo4rs::Query>::empty(),
{
    assert(s.remaining() =~= Seq::<neo4rs::Query>::empty());
}

/// Partial-failure isolation: which operations remain to be attempted
/// depends only on how many were attempted, never on whether any of them
/// failed. Two sessions over the same operations that have attempted equally
/// many have the same remaining work, whatever their recorded outcomes.
pub proof fn lemma_partial_failure_isolation(a: ApplySession, b: ApplySession)
    requires
        a.wf(),
        b.wf(),
        a.ops() == b.ops(),
        a.applied() == b.applied(),
    ensures
        a.remaining() == b.remaining(),
{
}

} // verus!
