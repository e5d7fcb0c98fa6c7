use zenoh_sandbox::json::Json;
use zenoh_sandbox::logs::LogEntry;
use zenoh_sandbox::protocol::{MainToRuntime, RuntimeToMain};
use zenoh_sandbox::ts::log::LogEntryLevel;
use zenoh_sandbox::worker::{
    extract_message, final_entry, final_entry_at, final_messages, parse_args, strip_quotes,
    worker_step, WorkerEffect, WorkerEvent, WorkerPhase,
};

fn entry(message: &str) -> LogEntry {
    LogEntry {
        timestamp: "2024-05-01T12:00:00Z".to_string(),
        level: LogEntryLevel::DEBUG,
        target: "zenoh".to_string(),
        message: message.to_string(),
    }
}

fn field(name: &str, value: &str) -> (String, String) {
    (name.to_string(), value.to_string())
}

fn leave(reason: &str) -> Vec<WorkerEffect> {
    vec![WorkerEffect::Flush(reason.to_string()), WorkerEffect::Exit(Ok(()))]
}

#[test]
fn quotes_are_stripped() {
    assert_eq!(strip_quotes("\"hello\""), "hello");
    assert_eq!(strip_quotes("\"\""), "");
    assert_eq!(strip_quotes("\""), "\"");
    assert_eq!(strip_quotes("hello"), "hello");
    assert_eq!(strip_quotes("\"hello"), "\"hello");
    assert_eq!(strip_quotes("hello\""), "hello\"");
    assert_eq!(strip_quotes(""), "");
    assert_eq!(strip_quotes("\"a\"b\""), "a\"b");
    assert_eq!(strip_quotes("\"h\u{e9}llo \u{4e16}\u{754c}\""), "h\u{e9}llo \u{4e16}\u{754c}");
}

#[test]
fn message_is_the_field_of_that_name() {
    assert_eq!(
        extract_message(&vec![field("message", "Runtime started"), field("port", "10000")]),
        "Runtime started"
    );
    assert_eq!(
        extract_message(&vec![field("port", "10000"), field("message", "\"quoted\"")]),
        "quoted"
    );
    assert_eq!(extract_message(&vec![field("port", "10000")]), "");
    assert_eq!(extract_message(&vec![]), "");
    assert_eq!(
        extract_message(&vec![field("message", "first"), field("message", "second")]),
        "second"
    );
    assert_eq!(extract_message(&vec![field("Message", "x")]), "");
}

#[test]
fn arguments() {
    let args = |list: &[&str]| list.iter().map(|a| a.to_string()).collect::<Vec<String>>();
    assert_eq!(
        parse_args(&args(&["zenoh_runtime", "/tmp/z1.sock"])),
        Ok("/tmp/z1.sock".to_string())
    );
    assert_eq!(
        parse_args(&args(&["./worker"])),
        Err("Usage: ./worker <socket_path>".to_string())
    );
    assert_eq!(
        parse_args(&args(&["./worker", "a", "b"])),
        Err("Usage: ./worker <socket_path>".to_string())
    );
    assert_eq!(
        parse_args(&args(&[])),
        Err("Usage: zenoh_runtime <socket_path>".to_string())
    );
}

#[test]
fn last_entry_of_a_worker() {
    assert_eq!(
        final_entry_at("2024-05-01T12:00:00Z".to_string(), "Runtime stopped".to_string()),
        LogEntry {
            timestamp: "2024-05-01T12:00:00Z".to_string(),
            level: LogEntryLevel::ERROR,
            target: "zenoh_runtime".to_string(),
            message: "Runtime stopped".to_string(),
        }
    );
    let now = final_entry("Runtime stopped".to_string());
    assert_eq!(now.level, LogEntryLevel::ERROR);
    assert_eq!(now.target, "zenoh_runtime");
    assert_eq!(now.message, "Runtime stopped");
}

#[test]
fn last_messages_of_a_worker() {
    assert_eq!(
        final_messages(vec![entry("a"), entry("b")], entry("last")),
        vec![
            RuntimeToMain::Log(entry("a")),
            RuntimeToMain::Log(entry("b")),
            RuntimeToMain::Log(entry("last")),
        ]
    );
    assert_eq!(
        final_messages(vec![], entry("last")),
        vec![RuntimeToMain::Log(entry("last"))]
    );
}

#[test]
fn worker_waits_for_the_command_to_start() {
    assert_eq!(
        worker_step(
            WorkerPhase::AwaitingStart,
            WorkerEvent::Command(MainToRuntime::Start(Json::Null))
        ),
        (WorkerPhase::Starting, vec![WorkerEffect::StartRuntime(Json::Null)])
    );
    for event in [
        WorkerEvent::Command(MainToRuntime::Stop),
        WorkerEvent::Command(MainToRuntime::GetConfig),
        WorkerEvent::Closed,
    ] {
        assert_eq!(
            worker_step(WorkerPhase::AwaitingStart, event),
            (WorkerPhase::Finished, vec![WorkerEffect::Exit(Ok(()))])
        );
    }
    assert_eq!(
        worker_step(
            WorkerPhase::AwaitingStart,
            WorkerEvent::ReadFailed("Parse error: eof".to_string())
        ),
        (
            WorkerPhase::Finished,
            vec![WorkerEffect::Exit(Err("Parse error: eof".to_string()))]
        )
    );
    assert_eq!(
        worker_step(WorkerPhase::AwaitingStart, WorkerEvent::LogProduced(entry("early"))),
        (WorkerPhase::AwaitingStart, vec![])
    );
}

#[test]
fn worker_announces_its_runtime() {
    assert_eq!(
        worker_step(WorkerPhase::Starting, WorkerEvent::RuntimeStarted("abc".to_string())),
        (
            WorkerPhase::Announcing,
            vec![WorkerEffect::Send(RuntimeToMain::Started("abc".to_string()))]
        )
    );
    assert_eq!(
        worker_step(WorkerPhase::Announcing, WorkerEvent::Sent),
        (WorkerPhase::Running, vec![])
    );
    assert_eq!(
        worker_step(WorkerPhase::Announcing, WorkerEvent::SendFailed("gone".to_string())),
        (
            WorkerPhase::Finished,
            vec![WorkerEffect::Exit(Err("gone".to_string()))]
        )
    );
    assert_eq!(
        worker_step(WorkerPhase::Starting, WorkerEvent::LogProduced(entry("early"))),
        (WorkerPhase::Starting, vec![])
    );
}

#[test]
fn worker_reports_a_runtime_that_did_not_start() {
    assert_eq!(
        worker_step(WorkerPhase::Starting, WorkerEvent::RuntimeFailed("x".to_string())),
        (
            WorkerPhase::Rejecting("x".to_string()),
            vec![WorkerEffect::Send(RuntimeToMain::StartError("x".to_string()))]
        )
    );
    assert_eq!(
        worker_step(WorkerPhase::Rejecting("x".to_string()), WorkerEvent::Sent),
        (WorkerPhase::Finished, leave("Failed to start: x"))
    );
    assert_eq!(
        worker_step(
            WorkerPhase::Rejecting("x".to_string()),
            WorkerEvent::SendFailed("gone".to_string())
        ),
        (
            WorkerPhase::Finished,
            vec![WorkerEffect::Exit(Err("gone".to_string()))]
        )
    );
    assert_eq!(
        worker_step(WorkerPhase::Rejecting("x".to_string()), WorkerEvent::Closed),
        (WorkerPhase::Rejecting("x".to_string()), vec![])
    );
}

#[test]
fn running_worker_serves_commands() {
    assert_eq!(
        worker_step(WorkerPhase::Running, WorkerEvent::Command(MainToRuntime::GetConfig)),
        (WorkerPhase::Replying, vec![WorkerEffect::SendConfig])
    );
    assert_eq!(
        worker_step(WorkerPhase::Replying, WorkerEvent::Sent),
        (WorkerPhase::Running, vec![])
    );
    assert_eq!(
        worker_step(WorkerPhase::Replying, WorkerEvent::SendFailed("gone".to_string())),
        (WorkerPhase::Finished, leave("Runtime error: gone"))
    );
    assert_eq!(
        worker_step(
            WorkerPhase::Running,
            WorkerEvent::Command(MainToRuntime::Start(Json::Null))
        ),
        (WorkerPhase::Running, vec![])
    );
    assert_eq!(
        worker_step(WorkerPhase::Running, WorkerEvent::LogProduced(entry("a"))),
        (WorkerPhase::Running, vec![WorkerEffect::SendLog(entry("a"))])
    );
}

#[test]
fn running_worker_stops() {
    assert_eq!(
        worker_step(WorkerPhase::Running, WorkerEvent::Command(MainToRuntime::Stop)),
        (
            WorkerPhase::Stopping,
            vec![WorkerEffect::Send(RuntimeToMain::Stopped)]
        )
    );
    assert_eq!(
        worker_step(WorkerPhase::Stopping, WorkerEvent::Sent),
        (WorkerPhase::Finished, leave("Runtime stopped"))
    );
    assert_eq!(
        worker_step(WorkerPhase::Stopping, WorkerEvent::SendFailed("gone".to_string())),
        (WorkerPhase::Finished, leave("Runtime error: gone"))
    );
    assert_eq!(
        worker_step(WorkerPhase::Running, WorkerEvent::Closed),
        (WorkerPhase::Finished, leave("Runtime stopped"))
    );
    assert_eq!(
        worker_step(
            WorkerPhase::Running,
            WorkerEvent::ReadFailed("Read error: reset".to_string())
        ),
        (WorkerPhase::Finished, leave("Runtime error: Read error: reset"))
    );
}

#[test]
fn finished_worker_does_nothing() {
    for event in [
        WorkerEvent::Closed,
        WorkerEvent::Sent,
        WorkerEvent::Command(MainToRuntime::Stop),
        WorkerEvent::LogProduced(entry("late")),
    ] {
        assert_eq!(
            worker_step(WorkerPhase::Finished, event),
            (WorkerPhase::Finished, vec![])
        );
    }
}
