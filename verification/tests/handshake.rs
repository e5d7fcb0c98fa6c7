use zenoh_sandbox::error::SupervisorError;
use zenoh_sandbox::handshake::{
    begin, reply_step, start_step, HandshakeReply, StartAction, StartEvent, StartPhase,
    ACCEPT_TIMEOUT_SECS,
};
use zenoh_sandbox::json::Json;
use zenoh_sandbox::logs::LogEntry;
use zenoh_sandbox::protocol::RuntimeToMain;
use zenoh_sandbox::ts::log::LogEntryLevel;

fn abort(kill_child: bool, error: SupervisorError) -> (StartPhase, StartAction) {
    (StartPhase::Finished, StartAction::Abort { kill_child, error })
}

fn reply(message: RuntimeToMain) -> StartEvent {
    StartEvent::Reply(HandshakeReply::Message(message))
}

#[test]
fn a_start_that_goes_well() {
    assert_eq!(ACCEPT_TIMEOUT_SECS, 10);
    assert_eq!(begin(), (StartPhase::Preparing, StartAction::PrepareConfig));
    assert_eq!(
        start_step(StartPhase::Preparing, StartEvent::Succeeded),
        (StartPhase::Binding, StartAction::Bind)
    );
    assert_eq!(
        start_step(StartPhase::Binding, StartEvent::Succeeded),
        (StartPhase::Locating, StartAction::LocateBinary)
    );
    assert_eq!(
        start_step(StartPhase::Locating, StartEvent::Succeeded),
        (StartPhase::Spawning, StartAction::Spawn)
    );
    assert_eq!(
        start_step(StartPhase::Spawning, StartEvent::Succeeded),
        (StartPhase::Connecting, StartAction::Accept { timeout_secs: 10 })
    );
    assert_eq!(
        start_step(StartPhase::Connecting, StartEvent::Succeeded),
        (StartPhase::Sending, StartAction::SendStart)
    );
    assert_eq!(
        start_step(StartPhase::Sending, StartEvent::Succeeded),
        (StartPhase::AwaitingReply, StartAction::ReadReply)
    );
    assert_eq!(
        start_step(
            StartPhase::AwaitingReply,
            reply(RuntimeToMain::Started("c0ffee".to_string()))
        ),
        (
            StartPhase::Finished,
            StartAction::Complete { zenoh_id: "c0ffee".to_string() }
        )
    );
}

#[test]
fn failures_before_the_worker_is_spawned_kill_nothing() {
    let why = || StartEvent::Failed("why".to_string());
    assert_eq!(
        start_step(StartPhase::Preparing, why()),
        abort(false, SupervisorError::ConfigInvalid("why".to_string()))
    );
    assert_eq!(
        start_step(StartPhase::Binding, why()),
        abort(
            false,
            SupervisorError::ConnectFailed("Failed to create UDS listener: why".to_string())
        )
    );
    assert_eq!(
        start_step(StartPhase::Locating, why()),
        abort(false, SupervisorError::SpawnFailed("why".to_string()))
    );
    assert_eq!(
        start_step(
            StartPhase::Locating,
            StartEvent::BinaryMissing("/opt/app/zenoh_runtime".to_string())
        ),
        abort(
            false,
            SupervisorError::BinaryNotFound("/opt/app/zenoh_runtime".to_string())
        )
    );
    assert_eq!(
        start_step(StartPhase::Spawning, why()),
        abort(false, SupervisorError::SpawnFailed("why".to_string()))
    );
}

#[test]
fn worker_that_never_connects() {
    assert_eq!(
        start_step(StartPhase::Connecting, StartEvent::TimedOut),
        abort(true, SupervisorError::ConnectTimeout)
    );
}

#[test]
fn failures_after_the_worker_is_spawned_kill_it() {
    let why = || StartEvent::Failed("why".to_string());
    assert_eq!(
        start_step(StartPhase::Connecting, why()),
        abort(
            true,
            SupervisorError::ConnectFailed("Failed to accept connection: why".to_string())
        )
    );
    assert_eq!(
        start_step(StartPhase::Sending, why()),
        abort(
            true,
            SupervisorError::ConnectFailed("Failed to send start message: why".to_string())
        )
    );
    assert_eq!(
        start_step(StartPhase::Sending, StartEvent::TimedOut),
        abort(true, SupervisorError::RequestTimeout)
    );
    assert_eq!(
        start_step(StartPhase::AwaitingReply, why()),
        abort(
            true,
            SupervisorError::ConnectFailed("Failed to read response: why".to_string())
        )
    );
    assert_eq!(
        start_step(StartPhase::AwaitingReply, StartEvent::TimedOut),
        abort(true, SupervisorError::RequestTimeout)
    );
}

#[test]
fn worker_that_rejects_the_start() {
    let (phase, action) = start_step(
        StartPhase::AwaitingReply,
        reply(RuntimeToMain::StartError("x".to_string())),
    );
    assert_eq!(phase, StartPhase::Finished);
    assert_eq!(
        action,
        StartAction::Abort {
            kill_child: true,
            error: SupervisorError::StartRejectedByWorker("x".to_string())
        }
    );
    if let StartAction::Abort { error, .. } = action {
        assert!(error.message().contains("x"));
        assert_eq!(error.message(), "x");
    }
}

#[test]
fn replies_that_are_no_answer() {
    assert_eq!(
        start_step(StartPhase::AwaitingReply, StartEvent::Reply(HandshakeReply::Closed)),
        abort(
            true,
            SupervisorError::ProtocolDecodeError(
                "Failed to parse response: the connection was closed".to_string()
            )
        )
    );
    assert_eq!(
        start_step(
            StartPhase::AwaitingReply,
            StartEvent::Reply(HandshakeReply::Undecodable("expected value".to_string()))
        ),
        abort(
            true,
            SupervisorError::ProtocolDecodeError(
                "Failed to parse response: expected value".to_string()
            )
        )
    );
    let log = LogEntry {
        timestamp: "2024-05-01T12:00:00Z".to_string(),
        level: LogEntryLevel::INFO,
        target: "t".to_string(),
        message: "m".to_string(),
    };
    for message in [
        RuntimeToMain::Stopped,
        RuntimeToMain::Config(Json::Null),
        RuntimeToMain::Log(log),
    ] {
        assert_eq!(
            start_step(StartPhase::AwaitingReply, reply(message)),
            abort(true, SupervisorError::UnexpectedMessage)
        );
    }
}

#[test]
fn identity_is_read_by_zenoh() {
    let started = |id: &str| {
        start_step(
            StartPhase::AwaitingReply,
            reply(RuntimeToMain::Started(id.to_string())),
        )
    };
    assert_eq!(
        started("1bc0"),
        (StartPhase::Finished, StartAction::Complete { zenoh_id: "1bc0".to_string() })
    );
    assert_eq!(
        started("+ff"),
        (StartPhase::Finished, StartAction::Complete { zenoh_id: "ff".to_string() })
    );
    for bad in ["", "ABC", "0ff", "xyz", "0", "123456789012345678901234567890123"] {
        assert_eq!(
            started(bad),
            abort(
                true,
                SupervisorError::ProtocolDecodeError(format!("Invalid ZenohId: {}", bad))
            )
        );
    }
}

#[test]
fn reply_with_a_given_verdict() {
    assert_eq!(
        reply_step(
            HandshakeReply::Message(RuntimeToMain::Started("anything".to_string())),
            Some("canonical".to_string())
        ),
        (
            StartPhase::Finished,
            StartAction::Complete { zenoh_id: "canonical".to_string() }
        )
    );
    assert_eq!(
        reply_step(
            HandshakeReply::Message(RuntimeToMain::Started("abc".to_string())),
            None
        ),
        abort(
            true,
            SupervisorError::ProtocolDecodeError("Invalid ZenohId: abc".to_string())
        )
    );
    assert_eq!(
        reply_step(
            HandshakeReply::Message(RuntimeToMain::StartError("x".to_string())),
            Some("ignored".to_string())
        ),
        abort(true, SupervisorError::StartRejectedByWorker("x".to_string()))
    );
}

#[test]
fn outcomes_out_of_place_give_the_start_up() {
    assert_eq!(
        start_step(StartPhase::Preparing, StartEvent::TimedOut),
        abort(false, SupervisorError::UnexpectedMessage)
    );
    assert_eq!(
        start_step(
            StartPhase::Binding,
            reply(RuntimeToMain::Started("abc".to_string()))
        ),
        abort(false, SupervisorError::UnexpectedMessage)
    );
    assert_eq!(
        start_step(StartPhase::Connecting, StartEvent::BinaryMissing("p".to_string())),
        abort(true, SupervisorError::UnexpectedMessage)
    );
    assert_eq!(
        start_step(StartPhase::AwaitingReply, StartEvent::Succeeded),
        abort(true, SupervisorError::UnexpectedMessage)
    );
    assert_eq!(
        start_step(StartPhase::Finished, StartEvent::Succeeded),
        abort(false, SupervisorError::UnexpectedMessage)
    );
}

#[test]
fn phases_with_a_worker() {
    for phase in [
        StartPhase::Preparing,
        StartPhase::Binding,
        StartPhase::Locating,
        StartPhase::Spawning,
        StartPhase::Finished,
    ] {
        assert!(!phase.has_child());
    }
    for phase in [StartPhase::Connecting, StartPhase::Sending, StartPhase::AwaitingReply] {
        assert!(phase.has_child());
    }
}
