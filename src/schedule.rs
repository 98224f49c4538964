//! The concurrency budget of a batch: which item may start, and the count of
//! items that have reported completion, whatever their outcome.

use vstd::prelude::*;

verus! {

/// A batch of `total` items of which at most `capacity` run at once. Items
/// start in order; `started` permits were taken and `completed` given back.
#[derive(Clone, Copy, Debug, PartialEq, Eq, Structural)]
pub struct Scheduler {
    pub capacity: usize,
    pub total: usize,
    pub started: usize,
    pub completed: usize,
    pub failed: usize,
}

impl Scheduler {
    /// The counts agree: no more than `capacity` items hold a permit, and no
    /// item completes before it starts.
    pub open spec fn wf(&self) -> bool {
        &&& self.capacity > 0
        &&& self.completed <= self.started <= self.total
        &&& self.started - self.completed <= self.capacity
        &&& self.failed <= self.completed
    }

    /// Number of items that hold a permit.
    pub open spec fn active_spec(&self) -> int {
        self.started - self.completed
    }
}

/// A batch of `total` items with `capacity` permits, before anything started.
pub open spec fn fresh(total: usize, capacity: usize) -> Scheduler {
    Scheduler { capacity, total, started: 0, completed: 0, failed: 0 }
}

/// Starts the next item when one is left and a permit is free.
pub open spec fn start_spec(s: Scheduler) -> (Scheduler, Option<usize>) {
    if s.started < s.total && s.started - s.completed < s.capacity {
        (Scheduler { started: (s.started + 1) as usize, ..s }, Some(s.started))
    } else {
        (s, None)
    }
}

/// A running item reported completion, successful or not.
pub open spec fn finish_spec(s: Scheduler, ok: bool) -> Scheduler {
    if s.completed < s.started {
        Scheduler {
            completed: (s.completed + 1) as usize,
            failed: if ok { s.failed } else { (s.failed + 1) as usize },
            ..s
        }
    } else {
        s
    }
}

impl Scheduler {
    /// A batch of `total` items of which at most `capacity` run at once.
    pub fn new(total: usize, capacity: usize) -> (r: Scheduler)
        requires
            capacity > 0,
        ensures
            r == fresh(total, capacity),
            r.wf(),
    {
        Scheduler { capacity, total, started: 0, completed: 0, failed: 0 }
    }

    /// Takes a permit for the next item, when one is left and a permit is free,
    /// and returns that item's index.
    pub fn try_start(&mut self) -> (r: Option<usize>)
        requires
            old(self).wf(),
        ensures
            (*final(self), r) == start_spec(*old(self)),
            final(self).wf(),
    {
        if self.started < self.total && self.started - self.completed < self.capacity {
            let i = self.started;
            self.started = self.started + 1;
            Some(i)
        } else {
            None
        }
    }

    /// A running item ended, successfully when `ok`; its permit is given back.
    pub fn finish(&mut self, ok: bool)
        requires
            old(self).wf(),
        ensures
            *final(self) == finish_spec(*old(self), ok),
            final(self).wf(),
    {
        if self.completed < self.started {
            self.completed = self.completed + 1;
            if !ok {
                self.failed = self.failed + 1;
            }
        }
    }

    /// Number of items that hold a permit.
    pub fn active(&self) -> (r: usize)
        requires
            self.wf(),
        ensures
            r == self.active_spec(),
    {
        self.started - self.completed
    }

    /// Whether every item has reported completion.
    pub fn is_done(&self) -> (r: bool)
        ensures
            r == (self.completed == self.total),
    {
        self.completed == self.total
    }
}

/// The batch after as many items as the permits allow have started.
pub open spec fn fill(s: Scheduler) -> Scheduler
    decreases s.total - s.started,
{
    let (u, o) = start_spec(s);
    if o is Some {
        fill(u)
    } else {
        s
    }
}

/// The batch driven to its end: fill the permits, then let one running item
/// complete with the next of `outcomes`, and again.
pub open spec fn drive(s: Scheduler, outcomes: Seq<bool>) -> Scheduler
    decreases outcomes.len(),
{
    let f = fill(s);
    if outcomes.len() == 0 {
        f
    } else {
        drive(finish_spec(f, outcomes[0]), outcomes.drop_first())
    }
}

/// Number of failures among `outcomes`.
pub open spec fn failures(outcomes: Seq<bool>) -> nat
    decreases outcomes.len(),
{
    if outcomes.len() == 0 {
        0
    } else {
        (if outcomes[0] { 0nat } else { 1nat }) + failures(outcomes.drop_first())
    }
}

proof fn lemma_fill(s: Scheduler)
    requires
        s.wf(),
    ensures
        fill(s).wf(),
        fill(s) == (Scheduler {
            started: if s.total <= s.completed + s.capacity { s.total } else { (s.completed + s.capacity) as usize },
            ..s
        }),
    decreases s.total - s.started,
{
    let (u, o) = start_spec(s);
    if o is Some {
        lemma_fill(u);
    }
}

proof fn lemma_drive(s: Scheduler, outcomes: Seq<bool>)
    requires
        s.wf(),
        outcomes.len() == s.total - s.completed,
    ensures
        drive(s, outcomes).wf(),
        drive(s, outcomes).completed == s.total,
        drive(s, outcomes).started == s.total,
        drive(s, outcomes).failed == s.failed + failures(outcomes),
    decreases outcomes.len(),
{
    lemma_fill(s);
    let f = fill(s);
    if outcomes.len() > 0 {
        assert(f.completed < f.started);
        lemma_drive(finish_spec(f, outcomes[0]), outcomes.drop_first());
    }
}

/// Whatever each item's outcome, failures included, a batch driven to its end
/// has started every item once and counted every item as completed; at no
/// point do more than `capacity` items hold a permit.
pub proof fn lemma_batch_completes(total: usize, capacity: usize, outcomes: Seq<bool>)
    requires
        capacity > 0,
        outcomes.len() == total,
    ensures
        drive(fresh(total, capacity), outcomes).started == total,
        drive(fresh(total, capacity), outcomes).completed == total,
        drive(fresh(total, capacity), outcomes).failed == failures(outcomes),
        drive(fresh(total, capacity), outcomes).active_spec() <= capacity,
{
    lemma_drive(fresh(total, capacity), outcomes);
}

} // verus!
