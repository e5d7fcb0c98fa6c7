use zenoh_sandbox::registry::Lifecycle;
use zenoh_sandbox::teardown::{
    stop_step, StopAction, StopEvent, StopPhase, EXIT_WAIT_TIMEOUT_SECS, STOP_ACK_TIMEOUT_SECS,
};

#[test]
fn timeouts() {
    assert_eq!(STOP_ACK_TIMEOUT_SECS, 2);
    assert_eq!(EXIT_WAIT_TIMEOUT_SECS, 5);
}

#[test]
fn running_worker_is_asked_then_awaited() {
    assert_eq!(
        stop_step(StopPhase::Idle, StopEvent::Begin(Lifecycle::Running)),
        (StopPhase::AwaitingAck, StopAction::RequestStop { timeout_secs: 2 })
    );
    assert_eq!(
        stop_step(StopPhase::AwaitingAck, StopEvent::Acknowledged),
        (StopPhase::AwaitingExit, StopAction::AwaitExit { timeout_secs: 5 })
    );
    assert_eq!(
        stop_step(StopPhase::AwaitingExit, StopEvent::Exited),
        (
            StopPhase::Finished,
            StopAction::Finish { kill_child: false, abort_loop: true }
        )
    );
}

#[test]
fn worker_that_stays_is_killed() {
    for event in [StopEvent::TimedOut, StopEvent::Failed, StopEvent::Acknowledged] {
        assert_eq!(
            stop_step(StopPhase::AwaitingExit, event),
            (
                StopPhase::Finished,
                StopAction::Finish { kill_child: true, abort_loop: true }
            )
        );
    }
}

#[test]
fn a_stop_that_is_not_acknowledged_goes_on() {
    for event in [StopEvent::TimedOut, StopEvent::Failed, StopEvent::Exited] {
        assert_eq!(
            stop_step(StopPhase::AwaitingAck, event),
            (StopPhase::AwaitingExit, StopAction::AwaitExit { timeout_secs: 5 })
        );
    }
}

#[test]
fn runtime_without_a_worker_needs_no_teardown() {
    for lifecycle in [Lifecycle::Declared, Lifecycle::Stopped] {
        assert_eq!(
            stop_step(StopPhase::Idle, StopEvent::Begin(lifecycle)),
            (
                StopPhase::Finished,
                StopAction::Finish { kill_child: false, abort_loop: false }
            )
        );
    }
}

#[test]
fn finished_stop_stays_finished() {
    for event in [
        StopEvent::Begin(Lifecycle::Running),
        StopEvent::Acknowledged,
        StopEvent::Exited,
        StopEvent::TimedOut,
        StopEvent::Failed,
    ] {
        assert_eq!(
            stop_step(StopPhase::Finished, event),
            (
                StopPhase::Finished,
                StopAction::Finish { kill_child: false, abort_loop: false }
            )
        );
    }
    assert_eq!(
        stop_step(StopPhase::Idle, StopEvent::Exited),
        (
            StopPhase::Finished,
            StopAction::Finish { kill_child: false, abort_loop: false }
        )
    );
}
