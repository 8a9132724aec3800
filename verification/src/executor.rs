//! The bounded executor: the decision state of "map over N items with at
//! most K in flight at once".
//!
//! The runner owns every scheduling decision — which item starts next and
//! when the run is complete — while the caller performs the work itself and
//! reports each completion. The runner guarantees that the number of items
//! in flight never exceeds the bound, that every item is started exactly
//! once, and that the run only finishes after every item has completed.

use vstd::prelude::*;

verus! {

/// Clamp a requested concurrency into the sane range 1..=10 used for
/// collector fan-out.
pub fn clamp_concurrency(n: usize) -> (r: usize)
    ensures
        1 <= r <= 10,
        r == if n < 1 {
            1usize
        } else if n > 10 {
            10usize
        } else {
            n
        },
{
    if n < 1 {
        1
    } else if n > 10 {
        10
    } else {
        n
    }
}

/// The scheduling state of one bounded fan-out: how many of the `total`
/// items have been started and how many have completed.
pub struct BoundedRunner {
    total: usize,
    limit: usize,
    started: usize,
    completed: usize,
}

impl BoundedRunner {
    /// How many items the run covers.
    pub closed spec fn total(self) -> int {
        self.total as int
    }

    /// The concurrency bound.
    pub closed spec fn limit(self) -> int {
        self.limit as int
    }

    /// How many items have been started.
    pub closed spec fn started(self) -> int {
        self.started as int
    }

    /// How many items have completed.
    pub closed spec fn completed(self) -> int {
        self.completed as int
    }

    /// How many items are in flight right now.
    pub open spec fn in_flight(self) -> int {
        self.started() - self.completed()
    }

    /// The runner's invariant: starts never pass the total, completions
    /// never pass the starts, and — the concurrency bound — no more than
    /// `limit` items are ever in flight at once.
    pub open spec fn wf(self) -> bool {
        &&& self.limit() >= 1
        &&& self.completed() <= self.started() <= self.total()
        &&& self.in_flight() <= self.limit()
    }

    /// A runner for `total` items with at most `limit` in flight.
    pub fn new(total: usize, limit: usize) -> (r: Self)
        requires
            limit >= 1,
        ensures
            r.wf(),
            r.total() == total,
            r.limit() == limit,
            r.started() == 0,
            r.completed() == 0,
    {
        BoundedRunner { total, limit, started: 0, completed: 0 }
    }

    /// Decide whether the next item may start now. When it may, it is
    /// counted as started and its index is returned; the bound is never
    /// exceeded.
    pub fn try_start(&mut self) -> (r: Option<usize>)
        requires
            old(self).wf(),
        ensures
            final(self).wf(),
            final(self).total() == old(self).total(),
            final(self).limit() == old(self).limit(),
            final(self).completed() == old(self).completed(),
            r matches Some(i) ==> {
                &&& old(self).started() < old(self).total()
                &&& old(self).in_flight() < old(self).limit()
                &&& i == old(self).started()
                &&& final(self).started() == old(self).started() + 1
            },
            r is None ==> {
                &&& old(self).started() == old(self).total() || old(self).in_flight() == old(
                    self,
                ).limit()
                &&& final(self).started() == old(self).started()
            },
            final(self).in_flight() <= final(self).limit(),
    {
        if self.started < self.total && self.started - self.completed < self.limit {
            let i = self.started;
            self.started = self.started + 1;
            Some(i)
        } else {
            None
        }
    }

    /// Report that one in-flight item has completed.
    pub fn complete(&mut self)
        requires
            old(self).wf(),
            old(self).in_flight() > 0,
        ensures
            final(self).wf(),
            final(self).total() == old(self).total(),
            final(self).limit() == old(self).limit(),
            final(self).started() == old(self).started(),
            final(self).completed() == old(self).completed() + 1,
    {
        self.completed = self.completed + 1;
    }

    /// How many items are in flight.
    pub fn in_flight_now(&self) -> (r: usize)
        requires
            self.wf(),
        ensures
            r == self.in_flight(),
    {
        self.started - self.completed
    }

    /// Whether every item has completed: only then is the run finished, so
    /// no work is ever dropped.
    pub fn is_finished(&self) -> (r: bool)
        requires
            self.wf(),
        ensures
            r == (self.completed() == self.total()),
    {
        self.completed == self.total
    }
}

/// The concurrency bound is respected in every reachable state: a
/// well-formed runner never has more than its limit in flight.
pub proof fn lemma_bound_respected(r: BoundedRunner)
    requires
        r.wf(),
    ensures
        r.in_flight() <= r.limit(),
{
}

} // verus!
