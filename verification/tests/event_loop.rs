use zenoh_sandbox::error::SupervisorError;
use zenoh_sandbox::event_loop::{
    is_terminated, live_config_result, loop_step, start_loop, ConfigWait, LoopEffect, LoopEvent,
    LoopPhase, LoopState, WorkerRequest, LIVE_CONFIG_TIMEOUT_SECS,
};
use zenoh_sandbox::json::Json;
use zenoh_sandbox::logs::{LogEntry, LogStorage};
use zenoh_sandbox::protocol::RuntimeToMain;
use zenoh_sandbox::ts::log::LogEntryLevel;

fn entry(message: &str) -> LogEntry {
    LogEntry {
        timestamp: "2024-05-01T12:00:00Z".to_string(),
        level: LogEntryLevel::INFO,
        target: "zenoh".to_string(),
        message: message.to_string(),
    }
}

fn state(phase: LoopPhase) -> LoopState {
    LoopState { runtime_id: 7, phase }
}

fn config() -> Json {
    Json::Object(vec![("mode".to_string(), Json::String("peer".to_string()))])
}

#[test]
fn loop_starts_idle() {
    assert_eq!(start_loop(7), state(LoopPhase::Idle));
    assert!(!is_terminated(start_loop(7)));
    assert!(is_terminated(state(LoopPhase::Terminated)));
    assert_eq!(LIVE_CONFIG_TIMEOUT_SECS, 5);
}

#[test]
fn log_entries_are_forwarded_under_the_runtime() {
    for phase in [LoopPhase::Idle, LoopPhase::Writing(1), LoopPhase::Pending(1)] {
        assert_eq!(
            loop_step(state(phase), LoopEvent::Message(RuntimeToMain::Log(entry("a")))),
            (
                state(phase),
                vec![LoopEffect::Forward { runtime_id: 7, entry: entry("a") }]
            )
        );
    }
}

#[test]
fn forwarded_entries_come_out_newest_first() {
    let mut storage = LogStorage::new(100);
    let mut current = start_loop(3);
    for message in ["E1", "E2", "E3"] {
        let (next, effects) =
            loop_step(current, LoopEvent::Message(RuntimeToMain::Log(entry(message))));
        current = next;
        for effect in effects {
            if let LoopEffect::Forward { runtime_id, entry } = effect {
                storage.add_log(runtime_id, entry);
            }
        }
    }
    assert_eq!(
        storage.get_page(3, None, 0),
        vec![entry("E3"), entry("E2"), entry("E1")]
    );
}

#[test]
fn configuration_request_is_served() {
    let (asked, effects) = loop_step(
        state(LoopPhase::Idle),
        LoopEvent::Request(WorkerRequest::GetConfig(11)),
    );
    assert_eq!(asked, state(LoopPhase::Writing(11)));
    assert_eq!(effects, vec![LoopEffect::WriteGetConfig]);
    let (written, effects) = loop_step(asked, LoopEvent::Written(true));
    assert_eq!(written, state(LoopPhase::Pending(11)));
    assert_eq!(effects, vec![]);
    let (answered, effects) =
        loop_step(written, LoopEvent::Message(RuntimeToMain::Config(config())));
    assert_eq!(answered, state(LoopPhase::Idle));
    assert_eq!(effects, vec![LoopEffect::Deliver { slot: 11, config: config() }]);
}

#[test]
fn second_request_in_flight_is_rejected() {
    for phase in [LoopPhase::Writing(11), LoopPhase::Pending(11)] {
        assert_eq!(
            loop_step(state(phase), LoopEvent::Request(WorkerRequest::GetConfig(12))),
            (state(phase), vec![LoopEffect::Reject { slot: 12 }])
        );
    }
}

#[test]
fn requests_are_served_one_after_the_other() {
    let mut current = start_loop(7);
    for slot in [1u64, 2, 3] {
        let (a, _) = loop_step(current, LoopEvent::Request(WorkerRequest::GetConfig(slot)));
        let (b, _) = loop_step(a, LoopEvent::Written(true));
        let (c, effects) = loop_step(b, LoopEvent::Message(RuntimeToMain::Config(config())));
        assert_eq!(effects, vec![LoopEffect::Deliver { slot, config: config() }]);
        current = c;
    }
    assert_eq!(current, start_loop(7));
}

#[test]
fn request_that_cannot_be_written_is_cancelled() {
    assert_eq!(
        loop_step(state(LoopPhase::Writing(11)), LoopEvent::Written(false)),
        (state(LoopPhase::Idle), vec![LoopEffect::Cancel { slot: 11 }])
    );
}

#[test]
fn abandoned_request_frees_the_loop() {
    for phase in [LoopPhase::Writing(11), LoopPhase::Pending(11)] {
        assert_eq!(
            loop_step(state(phase), LoopEvent::Abandoned(11)),
            (state(LoopPhase::Idle), vec![LoopEffect::Cancel { slot: 11 }])
        );
        assert_eq!(
            loop_step(state(phase), LoopEvent::Abandoned(12)),
            (state(phase), vec![])
        );
    }
    assert_eq!(
        loop_step(state(LoopPhase::Idle), LoopEvent::Abandoned(11)),
        (state(LoopPhase::Idle), vec![])
    );
    assert_eq!(
        loop_step(state(LoopPhase::Terminated), LoopEvent::Abandoned(11)),
        (state(LoopPhase::Terminated), vec![])
    );
    let (freed, _) = loop_step(state(LoopPhase::Pending(11)), LoopEvent::Abandoned(11));
    assert_eq!(
        loop_step(freed, LoopEvent::Request(WorkerRequest::GetConfig(12))),
        (state(LoopPhase::Writing(12)), vec![LoopEffect::WriteGetConfig])
    );
}

#[test]
fn unasked_configuration_is_dropped() {
    for phase in [LoopPhase::Idle, LoopPhase::Writing(4)] {
        assert_eq!(
            loop_step(state(phase), LoopEvent::Message(RuntimeToMain::Config(config()))),
            (state(phase), vec![])
        );
    }
}

#[test]
fn other_messages_change_nothing() {
    for phase in [LoopPhase::Idle, LoopPhase::Writing(4), LoopPhase::Pending(4)] {
        assert_eq!(
            loop_step(state(phase), LoopEvent::Message(RuntimeToMain::Stopped)),
            (state(phase), vec![])
        );
        assert_eq!(
            loop_step(
                state(phase),
                LoopEvent::Message(RuntimeToMain::Started("abc".to_string()))
            ),
            (state(phase), vec![])
        );
        assert_eq!(
            loop_step(
                state(phase),
                LoopEvent::Message(RuntimeToMain::StartError("x".to_string()))
            ),
            (state(phase), vec![])
        );
        assert_eq!(loop_step(state(phase), LoopEvent::Undecodable), (state(phase), vec![]));
    }
    assert_eq!(
        loop_step(state(LoopPhase::Idle), LoopEvent::Written(true)),
        (state(LoopPhase::Idle), vec![])
    );
    assert_eq!(
        loop_step(state(LoopPhase::Pending(4)), LoopEvent::Written(false)),
        (state(LoopPhase::Pending(4)), vec![])
    );
}

#[test]
fn closed_connection_ends_the_loop() {
    assert_eq!(
        loop_step(state(LoopPhase::Idle), LoopEvent::Closed),
        (state(LoopPhase::Terminated), vec![])
    );
    assert_eq!(
        loop_step(state(LoopPhase::Pending(5)), LoopEvent::Closed),
        (state(LoopPhase::Terminated), vec![LoopEffect::Cancel { slot: 5 }])
    );
    assert_eq!(
        loop_step(state(LoopPhase::Writing(5)), LoopEvent::ReadFailed),
        (state(LoopPhase::Terminated), vec![LoopEffect::Cancel { slot: 5 }])
    );
}

#[test]
fn stop_request_ends_the_loop() {
    assert_eq!(
        loop_step(state(LoopPhase::Idle), LoopEvent::Request(WorkerRequest::Stop(9))),
        (
            state(LoopPhase::Terminated),
            vec![LoopEffect::WriteStop, LoopEffect::Acknowledge { slot: 9 }]
        )
    );
    assert_eq!(
        loop_step(
            state(LoopPhase::Pending(5)),
            LoopEvent::Request(WorkerRequest::Stop(9))
        ),
        (
            state(LoopPhase::Terminated),
            vec![
                LoopEffect::WriteStop,
                LoopEffect::Acknowledge { slot: 9 },
                LoopEffect::Cancel { slot: 5 }
            ]
        )
    );
}

#[test]
fn ended_loop_cancels_what_comes() {
    let done = state(LoopPhase::Terminated);
    assert_eq!(
        loop_step(done, LoopEvent::Request(WorkerRequest::GetConfig(1))),
        (done, vec![LoopEffect::Cancel { slot: 1 }])
    );
    assert_eq!(
        loop_step(done, LoopEvent::Request(WorkerRequest::Stop(2))),
        (done, vec![LoopEffect::Cancel { slot: 2 }])
    );
    assert_eq!(
        loop_step(done, LoopEvent::Message(RuntimeToMain::Log(entry("late")))),
        (done, vec![])
    );
    assert_eq!(loop_step(done, LoopEvent::Closed), (done, vec![]));
    assert_eq!(loop_step(done, LoopEvent::Written(true)), (done, vec![]));
}

#[test]
fn what_a_caller_gets() {
    assert_eq!(live_config_result(ConfigWait::Delivered(config())), Ok(config()));
    assert_eq!(
        live_config_result(ConfigWait::Rejected),
        Err(SupervisorError::RequestInFlight)
    );
    assert_eq!(
        live_config_result(ConfigWait::Cancelled),
        Err(SupervisorError::RequestCancelled)
    );
    assert_eq!(
        live_config_result(ConfigWait::TimedOut),
        Err(SupervisorError::RequestTimeout)
    );
    assert_eq!(
        live_config_result(ConfigWait::NotSent),
        Err(SupervisorError::RequestCancelled)
    );
}
