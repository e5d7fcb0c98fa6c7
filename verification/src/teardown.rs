//! Taking a worker down, step by step: ask it to stop, wait for it to leave,
//! kill it where it stays, and end its event loop.

use crate::registry::Lifecycle;
use vstd::prelude::*;

verus! {

/// Seconds to wait for the event loop to say that the stop was sent.
pub const STOP_ACK_TIMEOUT_SECS: u64 = 2;

/// Seconds to wait for the worker to leave by itself.
pub const EXIT_WAIT_TIMEOUT_SECS: u64 = 5;

/// How far a stop has come.
#[derive(Debug, Clone, Copy, PartialEq, Eq, Structural)]
pub enum StopPhase {
    /// Nothing was done yet.
    Idle,
    /// The event loop was asked to send the stop.
    AwaitingAck,
    /// The worker is given time to leave.
    AwaitingExit,
    /// The stop is over.
    Finished,
}

/// What happened.
#[derive(Debug, Clone, Copy, PartialEq, Eq, Structural)]
pub enum StopEvent {
    /// The stop begins, for a runtime that stands here in its life.
    Begin(Lifecycle),
    /// The event loop said that the stop was sent.
    Acknowledged,
    /// The worker left.
    Exited,
    /// The wait ran out of time.
    TimedOut,
    /// The wait failed.
    Failed,
}

/// What to do next.
#[derive(Debug, Clone, Copy, PartialEq, Eq, Structural)]
pub enum StopAction {
    /// Ask the event loop to send the stop, and wait for its word, for so
    /// many seconds at most.
    RequestStop { timeout_secs: u64 },
    /// Wait for the worker to leave, for so many seconds at most.
    AwaitExit { timeout_secs: u64 },
    /// End the stop: kill the worker and end its event loop where the flags
    /// say so, then mark the runtime as stopped.
    Finish { kill_child: bool, abort_loop: bool },
}

/// One step of a stop. Only a runtime that runs has a worker to take down;
/// nothing that goes wrong on the way keeps the stop from finishing.
pub open spec fn step(phase: StopPhase, event: StopEvent) -> (StopPhase, StopAction) {
    match phase {
        StopPhase::Idle => match event {
            StopEvent::Begin(Lifecycle::Running) => (
                StopPhase::AwaitingAck,
                StopAction::RequestStop { timeout_secs: STOP_ACK_TIMEOUT_SECS },
            ),
            _ => (StopPhase::Finished, StopAction::Finish { kill_child: false, abort_loop: false }),
        },
        StopPhase::AwaitingAck => (
            StopPhase::AwaitingExit,
            StopAction::AwaitExit { timeout_secs: EXIT_WAIT_TIMEOUT_SECS },
        ),
        StopPhase::AwaitingExit => match event {
            StopEvent::Exited => (
                StopPhase::Finished,
                StopAction::Finish { kill_child: false, abort_loop: true },
            ),
            _ => (StopPhase::Finished, StopAction::Finish { kill_child: true, abort_loop: true }),
        },
        StopPhase::Finished => (
            StopPhase::Finished,
            StopAction::Finish { kill_child: false, abort_loop: false },
        ),
    }
}

/// The place of a phase in the order of a stop.
pub open spec fn rank(phase: StopPhase) -> int {
    match phase {
        StopPhase::Idle => 0,
        StopPhase::AwaitingAck => 1,
        StopPhase::AwaitingExit => 2,
        StopPhase::Finished => 3,
    }
}

/// One step of a stop: takes what happened and gives the next phase with
/// what to do.
pub fn stop_step(phase: StopPhase, event: StopEvent) -> (r: (StopPhase, StopAction))
    ensures
        r == step(phase, event),
{
    match phase {
        StopPhase::Idle => match event {
            StopEvent::Begin(Lifecycle::Running) => (
                StopPhase::AwaitingAck,
                StopAction::RequestStop { timeout_secs: STOP_ACK_TIMEOUT_SECS },
            ),
            _ => (StopPhase::Finished, StopAction::Finish { kill_child: false, abort_loop: false }),
        },
        StopPhase::AwaitingAck => (
            StopPhase::AwaitingExit,
            StopAction::AwaitExit { timeout_secs: EXIT_WAIT_TIMEOUT_SECS },
        ),
        StopPhase::AwaitingExit => match event {
            StopEvent::Exited => (
                StopPhase::Finished,
                StopAction::Finish { kill_child: false, abort_loop: true },
            ),
            _ => (StopPhase::Finished, StopAction::Finish { kill_child: true, abort_loop: true }),
        },
        StopPhase::Finished => (
            StopPhase::Finished,
            StopAction::Finish { kill_child: false, abort_loop: false },
        ),
    }
}

/// Every step of a stop moves on, so a stop finishes after three steps at
/// most, whatever happens on the way.
pub proof fn lemma_stop_advances(phase: StopPhase, event: StopEvent)
    requires
        phase != StopPhase::Finished,
    ensures
        rank(step(phase, event).0) > rank(phase),
        step(phase, event).0 == StopPhase::Finished <==> step(phase, event).1 is Finish,
{
}

/// The stop of a running worker goes through all its phases, and at its end
/// the event loop is ended and the worker is killed unless it left.
pub proof fn lemma_running_stop(acknowledgement: StopEvent, exit: StopEvent)
    ensures
        ({
            let asked = step(StopPhase::Idle, StopEvent::Begin(Lifecycle::Running));
            let waited = step(asked.0, acknowledgement);
            let finished = step(waited.0, exit);
            &&& asked.1 == StopAction::RequestStop { timeout_secs: 2 }
            &&& waited.1 == StopAction::AwaitExit { timeout_secs: 5 }
            &&& finished.0 == StopPhase::Finished
            &&& finished.1 == StopAction::Finish {
                kill_child: exit != StopEvent::Exited,
                abort_loop: true,
            }
        }),
{
}

/// The stop of a runtime that does not run takes nothing down.
pub proof fn lemma_idle_stop(lifecycle: Lifecycle)
    requires
        lifecycle != Lifecycle::Running,
    ensures
        step(StopPhase::Idle, StopEvent::Begin(lifecycle)) == (
            StopPhase::Finished,
            StopAction::Finish { kill_child: false, abort_loop: false },
        ),
{
}

} // verus!
