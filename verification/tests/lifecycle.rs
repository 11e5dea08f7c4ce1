use appshell::dispatch::{DispatchLoop, LoopPhase};
use appshell::lifecycle::{LifecycleState, TerminateReply};

#[test]
fn fresh_state_is_clear() {
    let s = LifecycleState::new();
    assert!(!s.terminate_requested);
    assert_eq!(s.open_window_count, 0);
}

#[test]
fn window_creation_sets_count_to_one() {
    let mut s = LifecycleState::new();
    s.record_window_opened();
    assert_eq!(s.open_window_count, 1);
    assert!(!s.terminate_requested);
}

#[test]
fn terminate_request_sets_flag_and_replies_now() {
    let mut s = LifecycleState::new();
    s.record_window_opened();
    let reply = s.on_terminate_requested();
    assert_eq!(reply, TerminateReply::Now);
    assert!(s.terminate_requested);
    assert_eq!(s.open_window_count, 1);
}

#[test]
fn terminate_request_unconditional_on_prior_state() {
    // with the flag already set, the reply and the state are the same
    let mut s = LifecycleState::new();
    s.on_terminate_requested();
    let reply = s.on_terminate_requested();
    assert_eq!(reply, TerminateReply::Now);
    assert!(s.terminate_requested);
}

#[test]
fn terminate_request_is_idempotent() {
    let mut s = LifecycleState::new();
    for _ in 0..5 {
        let reply = s.on_terminate_requested();
        assert_eq!(reply, TerminateReply::Now);
        assert!(s.terminate_requested, "the flag never toggles back");
    }
}

#[test]
fn window_close_with_open_window_succeeds() {
    let mut s = LifecycleState::new();
    s.record_window_opened();
    let ok = s.try_on_window_will_close();
    assert!(ok);
    assert!(s.terminate_requested);
    assert_eq!(s.open_window_count, 1, "the count is never decremented");
}

#[test]
fn window_close_without_open_window_is_fatal() {
    // a close notification with no window registered as open signals the
    // fatal internal-consistency path: the host integration aborts on it
    let mut s = LifecycleState::new();
    let ok = s.try_on_window_will_close();
    assert!(!ok);
    assert!(!s.terminate_requested);
    assert_eq!(s.open_window_count, 0);
}

#[test]
fn quit_request_stops_loop_before_next_poll() {
    // end to end: the loop starts with the flag clear, runs an empty-poll
    // iteration, the termination request arrives, and the next header
    // check stops the loop without polling again
    let mut s = LifecycleState::new();
    s.record_window_opened();
    let mut machine = DispatchLoop::new();

    assert!(machine.begin_iteration(s.terminate_requested));
    let process = machine.on_poll(false);
    assert!(!process);
    assert_eq!(machine.phase, LoopPhase::Running);

    // the windowing system invokes the termination callback
    assert_eq!(s.on_terminate_requested(), TerminateReply::Now);

    assert!(!machine.begin_iteration(s.terminate_requested));
    assert_eq!(machine.phase, LoopPhase::Stopped);
}

#[test]
fn quit_request_mid_iteration_skips_windows_update() {
    // the termination request arrives while an event is in flight: the
    // post-forward check stops the loop with no further windows update
    let mut s = LifecycleState::new();
    s.record_window_opened();
    let mut machine = DispatchLoop::new();

    assert!(machine.begin_iteration(s.terminate_requested));
    assert!(machine.on_poll(true));
    assert_eq!(machine.phase, LoopPhase::Draining);

    // the callback fires during the loop's own call into the system
    s.on_terminate_requested();

    let update = machine.after_forward(s.terminate_requested);
    assert!(!update, "no windows update once termination is requested");
    assert_eq!(machine.phase, LoopPhase::Stopped);
}

#[test]
fn quiet_iteration_updates_windows_and_loops() {
    let mut s = LifecycleState::new();
    s.record_window_opened();
    let mut machine = DispatchLoop::new();

    assert!(machine.begin_iteration(s.terminate_requested));
    assert!(machine.on_poll(true));
    let update = machine.after_forward(s.terminate_requested);
    assert!(update);
    assert_eq!(machine.phase, LoopPhase::Running);
}

#[test]
fn window_close_stops_loop_like_a_quit() {
    let mut s = LifecycleState::new();
    s.record_window_opened();
    let mut machine = DispatchLoop::new();

    assert!(machine.begin_iteration(s.terminate_requested));
    assert!(machine.on_poll(true));
    assert!(s.try_on_window_will_close());
    assert!(!machine.after_forward(s.terminate_requested));
    assert_eq!(machine.phase, LoopPhase::Stopped);
}
