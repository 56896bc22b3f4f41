//! The adaptive-rate draining queue: a FIFO of jobs together with the
//! feedback-control state that derives the next drain interval from the
//! trend of the backlog length.
//!
//! On every drain attempt the backlog length is compared with the length
//! observed on the previous attempt: a growing backlog slows the cadence
//! (interval times eleven tenths, truncating), a shrinking backlog speeds it
//! up (interval times nine tenths, truncating), an unchanged backlog leaves
//! it alone. The adaptation is driven purely by the sign of the length
//! delta, never by its magnitude, and runs on empty attempts too. This
//! deliberately favours smoothness over catch-up latency: under sustained
//! overload the interval keeps growing, which further slows draining.

use std::collections::VecDeque;
use vstd::prelude::*;

verus! {

/// The interval that one drain attempt leaves behind, given the interval it
/// started from, the backlog length it observed, and the length observed on
/// the previous attempt. Truncating integer arithmetic, as the drain step
/// performs it.
pub open spec fn next_interval(interval: int, len: int, last: int) -> int {
    if len > last {
        interval / 10 * 11
    } else if len < last {
        interval / 10 * 9
    } else {
        interval
    }
}

/// What one drain attempt leaves of a backlog: the head is removed when
/// there is one.
pub open spec fn spec_popped(b: Seq<Seq<char>>) -> Seq<Seq<char>> {
    if b.len() == 0 {
        b
    } else {
        b.drop_first()
    }
}

/// What one drain attempt returns: the head of the backlog, when there is
/// one.
pub open spec fn spec_pop_result(b: Seq<Seq<char>>) -> Option<Seq<char>> {
    if b.len() == 0 {
        None
    } else {
        Some(b[0])
    }
}

/// Sustained overload slows the drain: whenever a drain attempt observes a
/// longer backlog than the previous attempt did, the interval strictly
/// grows — a self-reinforcing trend with no cap, which is the intended
/// smoothness-over-latency trade-off of the policy.
///
/// Truncation makes this false for small intervals (from `19` the grow
/// branch yields `11`), so the statement asks for an interval of at least
/// `100`, where the gained tenth outweighs the truncated remainder; every
/// interval reachable from the default of `1000` under growth stays far
/// above that.
pub proof fn lemma_overload_slows_drain(interval: int, len: int, last: int)
    requires
        100 <= interval,
        len > last,
    ensures
        next_interval(interval, len, last) > interval,
{
    vstd::arithmetic::div_mod::lemma_fundamental_div_mod(interval, 10);
    assert(interval / 10 >= 10) by {
        vstd::arithmetic::div_mod::lemma_div_is_ordered(100, interval, 10);
    }
}

/// A FIFO of jobs whose drain interval adapts to the trend of its own
/// backlog.
pub struct SmoothQueue {
    last_len: usize,
    interval: i32,
    queue: VecDeque<String>,
}

impl SmoothQueue {
    /// The pending jobs, in insertion order.
    pub closed spec fn backlog(&self) -> Seq<Seq<char>> {
        self.queue.deep_view()
    }

    /// The current drain interval, in time units.
    pub closed spec fn spec_interval(&self) -> int {
        self.interval as int
    }

    /// The backlog length observed on the previous drain attempt.
    pub closed spec fn spec_last_len(&self) -> int {
        self.last_len as int
    }

    /// The interval starts positive and each adaptation multiplies it by a
    /// non-negative factor, so it never goes negative. No floor or ceiling
    /// beyond that is enforced: the absence of both is a deliberate design
    /// trade-off of the adaptation policy.
    pub open spec fn wf(&self) -> bool {
        0 <= self.spec_interval()
    }

    /// A fresh queue: empty backlog, the configured default interval, no
    /// previously observed length.
    pub fn new() -> (q: SmoothQueue)
        ensures
            q.wf(),
            q.backlog() == Seq::<Seq<char>>::empty(),
            q.spec_interval() == 1000,
            q.spec_last_len() == 0,
    {
        let q = SmoothQueue { last_len: 0, interval: 1000, queue: VecDeque::new() };
        proof {
            assert(q.backlog() =~= Seq::<Seq<char>>::empty());
        }
        q
    }

    /// Appends a job at the tail of the backlog. Never rejects and never
    /// inspects the job; the producer side has no other mutation, and it
    /// leaves the interval state alone — there is deliberately no
    /// backpressure toward the producer.
    pub fn push(&mut self, job: String)
        ensures
            final(self).wf() == old(self).wf(),
            final(self).backlog() == old(self).backlog().push(job@),
            final(self).spec_interval() == old(self).spec_interval(),
            final(self).spec_last_len() == old(self).spec_last_len(),
    {
        let ghost prev = self.queue.deep_view();
        let ghost j = job@;
        self.queue.push_back(job);
        proof {
            assert(self.queue.deep_view() =~= prev.push(j));
        }
    }

    /// One drain attempt, in one logical step: observe the backlog length,
    /// adapt the interval by the sign of its delta against the previously
    /// observed length, record the observation, and remove and return the
    /// head if there is one.
    ///
    /// The comparison runs even when the backlog is empty: an empty queue
    /// observed after a non-empty one still takes the shrink branch, and an
    /// empty queue observed twice takes the steady branch.
    ///
    /// The one demand on the caller beyond well-formedness is a machine
    /// limit: the adapted interval must still fit an `i32`.
    pub fn pop(&mut self) -> (r: Option<String>)
        requires
            old(self).wf(),
            next_interval(
                old(self).spec_interval(),
                old(self).backlog().len() as int,
                old(self).spec_last_len(),
            ) <= i32::MAX,
        ensures
            final(self).wf(),
            final(self).spec_interval() == next_interval(
                old(self).spec_interval(),
                old(self).backlog().len() as int,
                old(self).spec_last_len(),
            ),
            final(self).spec_last_len() == old(self).backlog().len() as int,
            final(self).backlog() == spec_popped(old(self).backlog()),
            match r {
                Some(j) => spec_pop_result(old(self).backlog()) == Some(j@),
                None => spec_pop_result(old(self).backlog()) is None,
            },
    {
        let ghost prev = self.queue.deep_view();
        let len = self.queue.len();
        if len > self.last_len {
            self.interval = self.interval / 10 * 11;
        } else if len < self.last_len {
            self.interval = self.interval / 10 * 9;
        }
        self.last_len = len;
        let r = self.queue.pop_front();
        proof {
            assert(self.queue.deep_view() =~= spec_popped(prev));
        }
        r
    }

    /// The current drain interval, read by the driver when it re-arms
    /// itself after a cycle.
    pub fn interval(&self) -> (r: i32)
        ensures
            r as int == self.spec_interval(),
    {
        self.interval
    }

    /// The number of pending jobs.
    pub fn len(&self) -> (r: usize)
        ensures
            r as int == self.backlog().len() as int,
    {
        self.queue.len()
    }

    /// The backlog length observed on the previous drain attempt.
    pub fn last_observed_len(&self) -> (r: usize)
        ensures
            r as int == self.spec_last_len(),
    {
        self.last_len
    }
}

} // verus!
