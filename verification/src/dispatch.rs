//! The event dispatch loop's control skeleton, as a state machine the host
//! integration drives. The integration performs the outside work — polling
//! the native event queue with an already-elapsed deadline, extracting a
//! payload, forwarding the raw event for default handling, updating the
//! windows — and this machine makes every decision: whether to poll at
//! all, whether an event is in flight, and whether to update the windows
//! or stop once an iteration has run its course.
//!
//! The termination flag is read twice per iteration: once at the loop
//! header, to decide whether to poll at all, and once right after
//! forwarding, so that a termination requested mid-iteration stops the
//! loop without one more windows update.

use vstd::prelude::*;

verus! {

/// The loop's three logical states: ready at the loop header; mid-iteration
/// with an event in flight (a termination requested meanwhile is honored
/// before the next windows update); and stopped for good.
#[derive(Clone, Copy, PartialEq, Eq, Structural, Debug)]
pub enum LoopPhase {
    Running,
    Draining,
    Stopped,
}

/// The phase after the loop-header check: stopped when termination has
/// been requested, else still running and about to poll.
pub open spec fn after_header_check(terminate_requested: bool) -> LoopPhase {
    if terminate_requested {
        LoopPhase::Stopped
    } else {
        LoopPhase::Running
    }
}

/// The phase after a poll: an event in flight means the iteration is
/// draining; an empty poll simply returns to the loop header.
pub open spec fn after_poll(received: bool) -> LoopPhase {
    if received {
        LoopPhase::Draining
    } else {
        LoopPhase::Running
    }
}

/// The phase after the post-forward check: stopped when termination was
/// requested mid-iteration, else back to the loop header after a windows
/// update.
pub open spec fn after_forward_check(terminate_requested: bool) -> LoopPhase {
    if terminate_requested {
        LoopPhase::Stopped
    } else {
        LoopPhase::Running
    }
}

/// The event dispatch loop's control state.
pub struct DispatchLoop {
    pub phase: LoopPhase,
}

impl DispatchLoop {
    /// A fresh loop, entered once the one-time window and menu setup is
    /// done and the window is visible.
    pub fn new() -> (r: DispatchLoop)
        ensures
            r.phase == LoopPhase::Running,
    {
        DispatchLoop { phase: LoopPhase::Running }
    }

    /// The loop-header termination check. Given the flag as the host
    /// integration read it, decides whether to poll the native event queue
    /// at all: a set flag stops the loop before any further poll.
    pub fn begin_iteration(&mut self, terminate_requested: bool) -> (poll: bool)
        requires
            old(self).phase == LoopPhase::Running,
        ensures
            poll == !terminate_requested,
            final(self).phase == after_header_check(terminate_requested),
    {
        if terminate_requested {
            self.phase = LoopPhase::Stopped;
            false
        } else {
            true
        }
    }

    /// Records the poll's outcome. An empty poll is not an error: the loop
    /// returns to the header check. A received event is now in flight and
    /// must be classified, emitted if classified, and forwarded.
    pub fn on_poll(&mut self, received: bool) -> (process: bool)
        requires
            old(self).phase == LoopPhase::Running,
        ensures
            process == received,
            final(self).phase == after_poll(received),
    {
        if received {
            self.phase = LoopPhase::Draining;
            true
        } else {
            false
        }
    }

    /// The post-forward termination check, made right after the raw event
    /// was forwarded for default handling. Decides whether the host
    /// integration issues one more windows update: a termination requested
    /// mid-iteration stops the loop here, with no further update.
    pub fn after_forward(&mut self, terminate_requested: bool) -> (update: bool)
        requires
            old(self).phase == LoopPhase::Draining,
        ensures
            update == !terminate_requested,
            final(self).phase == after_forward_check(terminate_requested),
    {
        if terminate_requested {
            self.phase = LoopPhase::Stopped;
            false
        } else {
            self.phase = LoopPhase::Running;
            true
        }
    }
}

/// Law: once termination is requested, the loop stops without further
/// work. Whatever check reads the flag next — the loop header or the
/// post-forward check — it observes true, decides against polling
/// respectively against a further windows update, and the loop is stopped.
pub proof fn lemma_termination_stops_loop(s: crate::lifecycle::LifecycleState)
    ensures
        crate::lifecycle::after_terminate_request(s).terminate_requested,
        after_header_check(crate::lifecycle::after_terminate_request(s).terminate_requested)
            == LoopPhase::Stopped,
        after_forward_check(crate::lifecycle::after_terminate_request(s).terminate_requested)
            == LoopPhase::Stopped,
{
}

} // verus!
