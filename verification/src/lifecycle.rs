//! The process-wide lifecycle state and the two callback entry points the
//! windowing system invokes on it: an application-level termination
//! request and a per-window close notification. Both communicate with the
//! event dispatch loop solely through this state.
//!
//! The windowing system may invoke either entry point reentrantly, while
//! the loop is itself inside a call into the system; the host integration
//! therefore keeps the state behind an atomic or otherwise synchronized
//! cell and applies these transitions to it. The transitions themselves
//! are sequential functions over a snapshot of the state.

use vstd::prelude::*;

verus! {

/// The reply a termination-request handler gives the windowing system:
/// terminate at once, defer, or refuse. This design never defers and never
/// refuses.
#[derive(Clone, Copy, PartialEq, Eq, Structural, Debug)]
pub enum TerminateReply {
    Now,
    Later,
    Cancel,
}

/// The shared lifecycle flags: whether termination has been requested, and
/// how many windows are open. `terminate_requested` starts false, is set
/// true by either callback, and is never reset. `open_window_count` starts
/// at zero, is set to one when the single window is created, and is never
/// decremented: this shell terminates on the first close.
#[derive(Clone, Copy, PartialEq, Eq, Structural, Debug)]
pub struct LifecycleState {
    pub terminate_requested: bool,
    pub open_window_count: i32,
}

/// The state after a termination request: the flag is set, whatever it
/// was; the window count is untouched.
pub open spec fn after_terminate_request(s: LifecycleState) -> LifecycleState {
    LifecycleState { terminate_requested: true, open_window_count: s.open_window_count }
}

/// The state after a window-close notification: the flag is set, the count
/// is untouched (this single-window design never decrements it).
pub open spec fn after_window_close(s: LifecycleState) -> LifecycleState {
    LifecycleState { terminate_requested: true, open_window_count: s.open_window_count }
}

impl LifecycleState {
    /// A lifecycle state never holds a negative window count.
    pub open spec fn wf(self) -> bool {
        self.open_window_count >= 0
    }

    /// The initial state: no termination requested, no window open yet.
    pub fn new() -> (r: LifecycleState)
        ensures
            r == (LifecycleState { terminate_requested: false, open_window_count: 0 }),
            r.wf(),
    {
        LifecycleState { terminate_requested: false, open_window_count: 0 }
    }

    /// Records the creation of the shell's single window: the open count
    /// becomes one. Never called twice in this single-window design, so it
    /// stores rather than increments.
    pub fn record_window_opened(&mut self)
        ensures
            final(self).open_window_count == 1,
            final(self).terminate_requested == old(self).terminate_requested,
            final(self).wf(),
    {
        self.open_window_count = 1;
    }

    /// The application-level termination request, invoked by the windowing
    /// system when the user or the system asks the application to quit. It
    /// unconditionally sets the termination flag, whatever the prior
    /// state, and replies that the application may terminate at once.
    pub fn on_terminate_requested(&mut self) -> (r: TerminateReply)
        ensures
            *final(self) == after_terminate_request(*old(self)),
            final(self).terminate_requested,
            r == TerminateReply::Now,
    {
        self.terminate_requested = true;
        TerminateReply::Now
    }

    /// The window-close notification, invoked when the window's close
    /// control fires. A close for a window the system never registered as
    /// open is an internal-consistency failure, so the count must be
    /// positive; on success the termination flag is set and the count is
    /// left as it is.
    pub fn on_window_will_close(&mut self)
        requires
            old(self).open_window_count > 0,
        ensures
            *final(self) == after_window_close(*old(self)),
            final(self).terminate_requested,
    {
        self.terminate_requested = true;
    }

    /// The window-close notification, with the internal-consistency check
    /// made explicit: returns whether a window was registered as open.
    /// When it was, the close is handled as by `on_window_will_close`;
    /// when it was not, the state is left untouched and the host
    /// integration aborts, since the windowing system delivered a close
    /// for a window this design never opened.
    pub fn try_on_window_will_close(&mut self) -> (ok: bool)
        ensures
            ok == (old(self).open_window_count > 0),
            ok ==> *final(self) == after_window_close(*old(self)),
            !ok ==> *final(self) == *old(self),
    {
        if self.open_window_count > 0 {
            self.on_window_will_close();
            true
        } else {
            false
        }
    }
}

/// Law: the termination flag is monotone. Once set, no lifecycle
/// transition — a further termination request or a window-close
/// notification — ever clears it.
pub proof fn lemma_terminate_flag_monotone(s: LifecycleState)
    requires
        s.terminate_requested,
    ensures
        after_terminate_request(s).terminate_requested,
        after_window_close(s).terminate_requested,
{
}

/// Law: a termination request is idempotent. Requesting termination once
/// sets the flag; requesting it again changes nothing — the flag never
/// toggles back, and the window count is never touched.
pub proof fn lemma_terminate_request_idempotent(s: LifecycleState)
    ensures
        after_terminate_request(s).terminate_requested,
        after_terminate_request(after_terminate_request(s)) == after_terminate_request(s),
{
}

} // verus!
