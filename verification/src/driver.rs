//! The drain driver: a self-rearming periodic task that, once per interval,
//! asks the queue for the next job and hands it to the renderer.
//!
//! The surrounding event loop performs the actual timing, rendering and
//! rescheduling; this module holds the decisions — the lifecycle state
//! machine, and what a single cycle does with what the queue returned. The
//! loop never runs two cycles at once: each cycle completes, reschedule
//! included, before the next begins.

use crate::queue::{next_interval, spec_pop_result, spec_popped, SmoothQueue};
use vstd::prelude::*;

verus! {

/// The lifecycle of the driver: not yet started, waiting for its timer,
/// executing a cycle, or torn down.
#[derive(Clone, Copy, PartialEq, Eq, Structural, Debug)]
pub enum DriverState {
    Idle,
    Scheduled,
    Running,
    Stopped,
}

/// The events that move the driver through its lifecycle: a start request,
/// the timer firing, a cycle completing, and a stop request.
#[derive(Clone, Copy, PartialEq, Eq, Structural, Debug)]
pub enum DriverEvent {
    Start,
    Fire,
    Finish,
    Stop,
}

/// The lifecycle transition relation. A start only arms an idle driver;
/// the timer only begins a cycle on a scheduled one; a finishing cycle
/// re-arms the driver unless a stop intervened; a stop tears the driver
/// down from any state and is idempotent once stopped.
pub open spec fn spec_step(s: DriverState, e: DriverEvent) -> DriverState {
    match e {
        DriverEvent::Start => if s is Idle {
            DriverState::Scheduled
        } else {
            s
        },
        DriverEvent::Fire => if s is Scheduled {
            DriverState::Running
        } else {
            s
        },
        DriverEvent::Finish => if s is Running {
            DriverState::Scheduled
        } else {
            s
        },
        DriverEvent::Stop => DriverState::Stopped,
    }
}

/// The driver state after a whole sequence of events.
pub open spec fn run_events(s: DriverState, es: Seq<DriverEvent>) -> DriverState
    decreases es.len(),
{
    if es.len() == 0 {
        s
    } else {
        spec_step(run_events(s, es.drop_last()), es.last())
    }
}

/// Stopped is final: once the driver is stopped, no sequence of further
/// events moves it anywhere else — in particular no later timer fire ever
/// begins another cycle, however many jobs remain pending.
pub proof fn lemma_stopped_is_final(es: Seq<DriverEvent>)
    ensures
        run_events(DriverState::Stopped, es) == DriverState::Stopped,
    decreases es.len(),
{
    if es.len() > 0 {
        lemma_stopped_is_final(es.drop_last());
    }
}

/// What one drain cycle decided: render this job, or do nothing because
/// the backlog was empty. The renderer is never handed an absent value.
pub enum CycleAction {
    Render(String),
    Skip,
}

/// The drain decision of one cycle: one drain attempt on the queue, whose
/// returned job — if any — is to be handed to the renderer. The queue's
/// interval adapts exactly as one drain attempt adapts it; the caller then
/// reads the possibly-updated interval to schedule the next cycle.
pub fn drain_step(q: &mut SmoothQueue) -> (a: CycleAction)
    requires
        old(q).wf(),
        next_interval(
            old(q).spec_interval(),
            old(q).backlog().len() as int,
            old(q).spec_last_len(),
        ) <= i32::MAX,
    ensures
        final(q).wf(),
        final(q).backlog() == spec_popped(old(q).backlog()),
        final(q).spec_interval() == next_interval(
            old(q).spec_interval(),
            old(q).backlog().len() as int,
            old(q).spec_last_len(),
        ),
        final(q).spec_last_len() == old(q).backlog().len() as int,
        match a {
            CycleAction::Render(j) => spec_pop_result(old(q).backlog()) == Some(j@),
            CycleAction::Skip => spec_pop_result(old(q).backlog()) is None,
        },
{
    match q.pop() {
        Some(job) => CycleAction::Render(job),
        None => CycleAction::Skip,
    }
}

/// The lifecycle state of the drain driver. The owning context drives it
/// with the events below and performs the timing in between.
pub struct Driver {
    state: DriverState,
}

impl Driver {
    /// The current lifecycle state.
    pub closed spec fn spec_state(&self) -> DriverState {
        self.state
    }

    /// A fresh driver, not yet started.
    pub fn new() -> (d: Driver)
        ensures
            d.spec_state() is Idle,
    {
        Driver { state: DriverState::Idle }
    }

    /// Arms the first cycle. Only an idle driver is armed; the result says
    /// whether the caller should now schedule the first timer.
    pub fn start(&mut self) -> (armed: bool)
        ensures
            final(self).spec_state() == spec_step(old(self).spec_state(), DriverEvent::Start),
            armed == (old(self).spec_state() is Idle),
    {
        match self.state {
            DriverState::Idle => {
                self.state = DriverState::Scheduled;
                true
            },
            _ => false,
        }
    }

    /// The timer fired. Only a scheduled driver begins a cycle; the result
    /// says whether the caller should now run one — in particular a
    /// stopped driver refuses, so no cycle runs after a stop.
    pub fn begin_cycle(&mut self) -> (running: bool)
        ensures
            final(self).spec_state() == spec_step(old(self).spec_state(), DriverEvent::Fire),
            running == (old(self).spec_state() is Scheduled),
    {
        match self.state {
            DriverState::Scheduled => {
                self.state = DriverState::Running;
                true
            },
            _ => false,
        }
    }

    /// The cycle completed: a running driver re-arms itself. A driver
    /// stopped mid-cycle stays stopped and is not re-armed; the result
    /// says whether the caller should schedule the next timer.
    pub fn finish_cycle(&mut self) -> (rearmed: bool)
        ensures
            final(self).spec_state() == spec_step(old(self).spec_state(), DriverEvent::Finish),
            rearmed == (old(self).spec_state() is Running),
    {
        match self.state {
            DriverState::Running => {
                self.state = DriverState::Scheduled;
                true
            },
            _ => false,
        }
    }

    /// Tears the driver down. Idempotent; pending jobs stay in the queue,
    /// but no further cycle will begin.
    pub fn stop(&mut self)
        ensures
            final(self).spec_state() == spec_step(old(self).spec_state(), DriverEvent::Stop),
            final(self).spec_state() is Stopped,
    {
        self.state = DriverState::Stopped;
    }

    /// Whether the driver has been torn down.
    pub fn is_stopped(&self) -> (r: bool)
        ensures
            r == (self.spec_state() is Stopped),
    {
        match self.state {
            DriverState::Stopped => true,
            _ => false,
        }
    }
}

} // verus!
