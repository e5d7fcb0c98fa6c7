//! The worker's side: how it reads its arguments, what it does with each
//! command of the supervisor, and what it sends before it leaves.

use crate::json::{Json, JsonValue};
use crate::logs::{LogEntry, LogEntryView};
use crate::protocol::{MainToRuntime, MainToRuntimeView, RuntimeToMain, RuntimeToMainView};
use crate::text::str_eq;
use crate::ts::log::LogEntryLevel;
use vstd::prelude::*;

verus! {

/// The text of a value without the double quotes around it, if it has them.
pub open spec fn unquoted(text: Seq<char>) -> Seq<char> {
    if text.len() >= 2 && text[0] == '"' && text.last() == '"' {
        text.subrange(1, text.len() - 1)
    } else {
        text
    }
}

/// The message of an event: the value of the last field named `message`,
/// without quotes around it; empty where no field has that name.
pub open spec fn message_of(fields: Seq<(String, String)>) -> Seq<char>
    decreases fields.len(),
{
    if fields.len() == 0 {
        Seq::empty()
    } else if fields.last().0@ == "message"@ {
        unquoted(fields.last().1@)
    } else {
        message_of(fields.drop_last())
    }
}

/// Takes the double quotes off a text that stands between them.
pub fn strip_quotes(text: &str) -> (r: String)
    ensures
        r@ == unquoted(text@),
{
    let n = text.unicode_len();
    if n >= 2 && text.get_char(0) == '"' && text.get_char(n - 1) == '"' {
        String::from_str(text.substring_char(1, n - 1))
    } else {
        String::from_str(text)
    }
}

/// Extracts the message of an event from its fields, each given by its name
/// and its value as debugging prints it.
pub fn extract_message(fields: &Vec<(String, String)>) -> (r: String)
    ensures
        r@ == message_of(fields@),
{
    let mut i: usize = fields.len();
    assert(fields@.take(fields.len() as int) == fields@);
    while i > 0
        invariant
            i <= fields.len(),
            message_of(fields@) == message_of(fields@.take(i as int)),
        decreases i,
    {
        i -= 1;
        assert(fields@.take(i as int + 1).drop_last() == fields@.take(i as int));
        if str_eq(fields[i].0.as_str(), "message") {
            return strip_quotes(fields[i].1.as_str());
        }
    }
    String::new()
}

/// The text that tells how to call the worker.
pub open spec fn usage_of(args: Seq<String>) -> Seq<char> {
    "Usage: "@ + (if args.len() > 0 {
        args[0]@
    } else {
        "zenoh_runtime"@
    }) + " <socket_path>"@
}

/// Reads the worker's arguments: its own name and the path of the socket to
/// connect to, nothing else. Other arguments give the text that tells how to
/// call the worker.
pub fn parse_args(args: &Vec<String>) -> (r: Result<String, String>)
    ensures
        match r {
            Ok(path) => args.len() == 2 && path@ == args[1]@,
            Err(usage) => args.len() != 2 && usage@ == usage_of(args@),
        },
{
    if args.len() == 2 {
        Ok(args[1].clone())
    } else {
        let mut usage = String::from_str("Usage: ");
        if args.len() > 0 {
            usage.append(args[0].as_str());
        } else {
            usage.append("zenoh_runtime");
        }
        usage.append(" <socket_path>");
        Err(usage)
    }
}

/// The name under which the worker writes log entries of its own.
pub open spec fn worker_target() -> Seq<char> {
    "zenoh_runtime"@
}

/// The entry that a worker writes at an instant before it leaves, with the
/// reason.
pub fn final_entry_at(timestamp: String, reason: String) -> (r: LogEntry)
    ensures
        r@ == (LogEntryView {
            timestamp: timestamp@,
            level: LogEntryLevel::ERROR,
            target: worker_target(),
            message: reason@,
        }),
{
    LogEntry::at(timestamp, LogEntryLevel::ERROR, "zenoh_runtime", reason)
}

/// The entry that a worker writes now, before it leaves, with the reason.
pub fn final_entry(reason: String) -> (r: LogEntry)
    ensures
        r.level == LogEntryLevel::ERROR,
        r.target@ == worker_target(),
        r.message@ == reason@,
{
    LogEntry::now(LogEntryLevel::ERROR, "zenoh_runtime", reason)
}

/// The messages of a sequence of entries, one for each, in order.
pub open spec fn log_messages(entries: Seq<LogEntry>) -> Seq<RuntimeToMainView> {
    entries.map_values(|entry: LogEntry| RuntimeToMainView::Log(entry@))
}

/// What a sequence of messages holds.
pub open spec fn messages_view(messages: Seq<RuntimeToMain>) -> Seq<RuntimeToMainView> {
    messages.map_values(|message: RuntimeToMain| message@)
}

/// The last messages of a worker: the log entries that were still waiting, in
/// their order, and after them the entry that says why the worker leaves.
pub fn final_messages(waiting: Vec<LogEntry>, last: LogEntry) -> (r: Vec<RuntimeToMain>)
    ensures
        messages_view(r@) == log_messages(waiting@).push(RuntimeToMainView::Log(last@)),
{
    let mut messages: Vec<RuntimeToMain> = Vec::new();
    let mut i: usize = 0;
    assert(messages_view(messages@) =~= log_messages(waiting@.take(0)));
    while i < waiting.len()
        invariant
            i <= waiting.len(),
            messages_view(messages@) == log_messages(waiting@.take(i as int)),
        decreases waiting.len() - i,
    {
        let ghost before = messages_view(messages@);
        let entry = waiting[i].clone();
        messages.push(RuntimeToMain::Log(entry));
        assert(messages_view(messages@) =~= before.push(RuntimeToMainView::Log(entry@)));
        assert(waiting@.take(i as int + 1) =~= waiting@.take(i as int).push(waiting@[i as int]));
        assert(log_messages(waiting@.take(i as int + 1)) =~= log_messages(
            waiting@.take(i as int),
        ).push(RuntimeToMainView::Log(waiting@[i as int]@)));
        i += 1;
    }
    assert(waiting@.take(waiting.len() as int) == waiting@);
    messages.push(RuntimeToMain::Log(last));
    assert(messages_view(messages@) =~= log_messages(waiting@).push(
        RuntimeToMainView::Log(last@),
    ));
    messages
}

/// Where a worker stands.
#[derive(Debug, PartialEq, Eq)]
pub enum WorkerPhase {
    /// The command to start is awaited.
    AwaitingStart,
    /// The runtime is being built and started.
    Starting,
    /// The supervisor is being told that the runtime started.
    Announcing,
    /// The supervisor is being told that the runtime did not start, for this
    /// reason.
    Rejecting(String),
    /// The runtime runs; commands and log entries are served.
    Running,
    /// The supervisor is being sent the runtime's configuration.
    Replying,
    /// The supervisor is being told that the runtime stops.
    Stopping,
    /// The worker is done.
    Finished,
}

/// What happened.
#[derive(Debug, PartialEq)]
pub enum WorkerEvent {
    /// A command came from the supervisor.
    Command(MainToRuntime),
    /// The supervisor closed the connection.
    Closed,
    /// Reading a command failed, for this reason.
    ReadFailed(String),
    /// The runtime started, under this identity.
    RuntimeStarted(String),
    /// The runtime did not start, for this reason.
    RuntimeFailed(String),
    /// The runtime wrote a log entry.
    LogProduced(LogEntry),
    /// The message that had to be sent was sent.
    Sent,
    /// The message that had to be sent was not, for this reason.
    SendFailed(String),
}

/// What the worker has its driver do.
#[derive(Debug, PartialEq)]
pub enum WorkerEffect {
    /// Build and start the runtime with this configuration, and report how
    /// that went.
    StartRuntime(Json),
    /// Send a message, and report whether that worked.
    Send(RuntimeToMain),
    /// Send the runtime's configuration, and report whether that worked.
    SendConfig,
    /// Send a log entry; whether that works does not matter.
    SendLog(LogEntry),
    /// Send the log entries that still wait and a last entry with this
    /// reason; whether that works does not matter.
    Flush(String),
    /// Leave, with this result.
    Exit(Result<(), String>),
}

/// What a phase holds.
pub enum WorkerPhaseView {
    AwaitingStart,
    Starting,
    Announcing,
    Rejecting(Seq<char>),
    Running,
    Replying,
    Stopping,
    Finished,
}

/// What an event holds.
pub enum WorkerEventView {
    Command(MainToRuntimeView),
    Closed,
    ReadFailed(Seq<char>),
    RuntimeStarted(Seq<char>),
    RuntimeFailed(Seq<char>),
    LogProduced(LogEntryView),
    Sent,
    SendFailed(Seq<char>),
}

/// What an effect holds.
pub enum WorkerEffectView {
    StartRuntime(JsonValue),
    Send(RuntimeToMainView),
    SendConfig,
    SendLog(LogEntryView),
    Flush(Seq<char>),
    Exit(Result<(), Seq<char>>),
}

impl View for WorkerPhase {
    type V = WorkerPhaseView;

    open spec fn view(&self) -> WorkerPhaseView {
        match self {
            WorkerPhase::AwaitingStart => WorkerPhaseView::AwaitingStart,
            WorkerPhase::Starting => WorkerPhaseView::Starting,
            WorkerPhase::Announcing => WorkerPhaseView::Announcing,
            WorkerPhase::Rejecting(reason) => WorkerPhaseView::Rejecting(reason@),
            WorkerPhase::Running => WorkerPhaseView::Running,
            WorkerPhase::Replying => WorkerPhaseView::Replying,
            WorkerPhase::Stopping => WorkerPhaseView::Stopping,
            WorkerPhase::Finished => WorkerPhaseView::Finished,
        }
    }
}

impl View for WorkerEvent {
    type V = WorkerEventView;

    open spec fn view(&self) -> WorkerEventView {
        match self {
            WorkerEvent::Command(command) => WorkerEventView::Command(command@),
            WorkerEvent::Closed => WorkerEventView::Closed,
            WorkerEvent::ReadFailed(reason) => WorkerEventView::ReadFailed(reason@),
            WorkerEvent::RuntimeStarted(id) => WorkerEventView::RuntimeStarted(id@),
            WorkerEvent::RuntimeFailed(reason) => WorkerEventView::RuntimeFailed(reason@),
            WorkerEvent::LogProduced(entry) => WorkerEventView::LogProduced(entry@),
            WorkerEvent::Sent => WorkerEventView::Sent,
            WorkerEvent::SendFailed(reason) => WorkerEventView::SendFailed(reason@),
        }
    }
}

impl View for WorkerEffect {
    type V = WorkerEffectView;

    open spec fn view(&self) -> WorkerEffectView {
        match self {
            WorkerEffect::StartRuntime(config) => WorkerEffectView::StartRuntime(config@),
            WorkerEffect::Send(message) => WorkerEffectView::Send(message@),
            WorkerEffect::SendConfig => WorkerEffectView::SendConfig,
            WorkerEffect::SendLog(entry) => WorkerEffectView::SendLog(entry@),
            WorkerEffect::Flush(reason) => WorkerEffectView::Flush(reason@),
            WorkerEffect::Exit(result) => WorkerEffectView::Exit(
                match result {
                    Ok(()) => Ok(()),
                    Err(reason) => Err(reason@),
                },
            ),
        }
    }
}

/// What a sequence of effects holds.
pub open spec fn effects_view(effects: Seq<WorkerEffect>) -> Seq<WorkerEffectView> {
    effects.map_values(|effect: WorkerEffect| effect@)
}

/// The effects of a worker that leaves after its runtime ran: a last flush
/// with the reason, then the exit.
pub open spec fn leave(reason: Seq<char>) -> Seq<WorkerEffectView> {
    seq![WorkerEffectView::Flush(reason), WorkerEffectView::Exit(Ok(()))]
}

/// One step of the worker: the phase after an event, and what the driver has
/// to do, in order. An event that has no place in a phase changes nothing.
pub open spec fn step(phase: WorkerPhaseView, event: WorkerEventView) -> (
    WorkerPhaseView,
    Seq<WorkerEffectView>,
) {
    match phase {
        WorkerPhaseView::AwaitingStart => match event {
            WorkerEventView::Command(MainToRuntimeView::Start(config)) => (
                WorkerPhaseView::Starting,
                seq![WorkerEffectView::StartRuntime(config)],
            ),
            WorkerEventView::Command(_) => (
                WorkerPhaseView::Finished,
                seq![WorkerEffectView::Exit(Ok(()))],
            ),
            WorkerEventView::Closed => (
                WorkerPhaseView::Finished,
                seq![WorkerEffectView::Exit(Ok(()))],
            ),
            WorkerEventView::ReadFailed(reason) => (
                WorkerPhaseView::Finished,
                seq![WorkerEffectView::Exit(Err(reason))],
            ),
            _ => (phase, Seq::empty()),
        },
        WorkerPhaseView::Starting => match event {
            WorkerEventView::RuntimeStarted(id) => (
                WorkerPhaseView::Announcing,
                seq![WorkerEffectView::Send(RuntimeToMainView::Started(id))],
            ),
            WorkerEventView::RuntimeFailed(reason) => (
                WorkerPhaseView::Rejecting(reason),
                seq![WorkerEffectView::Send(RuntimeToMainView::StartError(reason))],
            ),
            _ => (phase, Seq::empty()),
        },
        WorkerPhaseView::Announcing => match event {
            WorkerEventView::Sent => (WorkerPhaseView::Running, Seq::empty()),
            WorkerEventView::SendFailed(reason) => (
                WorkerPhaseView::Finished,
                seq![WorkerEffectView::Exit(Err(reason))],
            ),
            _ => (phase, Seq::empty()),
        },
        WorkerPhaseView::Rejecting(why) => match event {
            WorkerEventView::Sent => (
                WorkerPhaseView::Finished,
                leave("Failed to start: "@ + why),
            ),
            WorkerEventView::SendFailed(reason) => (
                WorkerPhaseView::Finished,
                seq![WorkerEffectView::Exit(Err(reason))],
            ),
            _ => (phase, Seq::empty()),
        },
        WorkerPhaseView::Running => match event {
            WorkerEventView::Command(MainToRuntimeView::Stop) => (
                WorkerPhaseView::Stopping,
                seq![WorkerEffectView::Send(RuntimeToMainView::Stopped)],
            ),
            WorkerEventView::Command(MainToRuntimeView::GetConfig) => (
                WorkerPhaseView::Replying,
                seq![WorkerEffectView::SendConfig],
            ),
            WorkerEventView::Command(MainToRuntimeView::Start(_)) => (phase, Seq::empty()),
            WorkerEventView::Closed => (WorkerPhaseView::Finished, leave("Runtime stopped"@)),
            WorkerEventView::ReadFailed(reason) => (
                WorkerPhaseView::Finished,
                leave("Runtime error: "@ + reason),
            ),
            WorkerEventView::LogProduced(entry) => (phase, seq![WorkerEffectView::SendLog(entry)]),
            _ => (phase, Seq::empty()),
        },
        WorkerPhaseView::Replying => match event {
            WorkerEventView::Sent => (WorkerPhaseView::Running, Seq::empty()),
            WorkerEventView::SendFailed(reason) => (
                WorkerPhaseView::Finished,
                leave("Runtime error: "@ + reason),
            ),
            _ => (phase, Seq::empty()),
        },
        WorkerPhaseView::Stopping => match event {
            WorkerEventView::Sent => (WorkerPhaseView::Finished, leave("Runtime stopped"@)),
            WorkerEventView::SendFailed(reason) => (
                WorkerPhaseView::Finished,
                leave("Runtime error: "@ + reason),
            ),
            _ => (phase, Seq::empty()),
        },
        WorkerPhaseView::Finished => (phase, Seq::empty()),
    }
}

/// The effects of a worker that leaves after its runtime ran.
fn leaving(reason: String) -> (r: Vec<WorkerEffect>)
    ensures
        effects_view(r@) == leave(reason@),
{
    let mut effects: Vec<WorkerEffect> = Vec::new();
    effects.push(WorkerEffect::Flush(reason));
    effects.push(WorkerEffect::Exit(Ok(())));
    assert(effects_view(effects@) =~= leave(reason@));
    effects
}

/// One effect.
fn only(effect: WorkerEffect) -> (r: Vec<WorkerEffect>)
    ensures
        effects_view(r@) == seq![effect@],
{
    let mut effects: Vec<WorkerEffect> = Vec::new();
    effects.push(effect);
    assert(effects_view(effects@) =~= seq![effect@]);
    effects
}

/// No effect.
fn nothing() -> (r: Vec<WorkerEffect>)
    ensures
        effects_view(r@) == Seq::<WorkerEffectView>::empty(),
{
    let effects: Vec<WorkerEffect> = Vec::new();
    assert(effects_view(effects@) =~= Seq::<WorkerEffectView>::empty());
    effects
}

/// A reason with what failed written before it.
fn prefixed(prefix: &str, reason: &str) -> (r: String)
    ensures
        r@ == prefix@ + reason@,
{
    let mut text = String::from_str(prefix);
    text.append(reason);
    text
}

/// One step of the worker: takes one event and gives the phase after it with
/// what the driver has to do, in order.
pub fn worker_step(phase: WorkerPhase, event: WorkerEvent) -> (r: (WorkerPhase, Vec<WorkerEffect>))
    ensures
        (r.0@, effects_view(r.1@)) == step(phase@, event@),
{
    match phase {
        WorkerPhase::AwaitingStart => match event {
            WorkerEvent::Command(MainToRuntime::Start(config)) => (
                WorkerPhase::Starting,
                only(WorkerEffect::StartRuntime(config)),
            ),
            WorkerEvent::Command(_) => (WorkerPhase::Finished, only(WorkerEffect::Exit(Ok(())))),
            WorkerEvent::Closed => (WorkerPhase::Finished, only(WorkerEffect::Exit(Ok(())))),
            WorkerEvent::ReadFailed(reason) => (
                WorkerPhase::Finished,
                only(WorkerEffect::Exit(Err(reason))),
            ),
            _ => (phase, nothing()),
        },
        WorkerPhase::Starting => match event {
            WorkerEvent::RuntimeStarted(id) => (
                WorkerPhase::Announcing,
                only(WorkerEffect::Send(RuntimeToMain::Started(id))),
            ),
            WorkerEvent::RuntimeFailed(reason) => {
                let effects = only(WorkerEffect::Send(RuntimeToMain::StartError(reason.clone())));
                (WorkerPhase::Rejecting(reason), effects)
            },
            _ => (phase, nothing()),
        },
        WorkerPhase::Announcing => match event {
            WorkerEvent::Sent => (WorkerPhase::Running, nothing()),
            WorkerEvent::SendFailed(reason) => (
                WorkerPhase::Finished,
                only(WorkerEffect::Exit(Err(reason))),
            ),
            _ => (phase, nothing()),
        },
        WorkerPhase::Rejecting(why) => match event {
            WorkerEvent::Sent => (
                WorkerPhase::Finished,
                leaving(prefixed("Failed to start: ", why.as_str())),
            ),
            WorkerEvent::SendFailed(reason) => (
                WorkerPhase::Finished,
                only(WorkerEffect::Exit(Err(reason))),
            ),
            _ => (WorkerPhase::Rejecting(why), nothing()),
        },
        WorkerPhase::Running => match event {
            WorkerEvent::Command(MainToRuntime::Stop) => (
                WorkerPhase::Stopping,
                only(WorkerEffect::Send(RuntimeToMain::Stopped)),
            ),
            WorkerEvent::Command(MainToRuntime::GetConfig) => (
                WorkerPhase::Replying,
                only(WorkerEffect::SendConfig),
            ),
            WorkerEvent::Command(MainToRuntime::Start(_)) => (phase, nothing()),
            WorkerEvent::Closed => (
                WorkerPhase::Finished,
                leaving(String::from_str("Runtime stopped")),
            ),
            WorkerEvent::ReadFailed(reason) => (
                WorkerPhase::Finished,
                leaving(prefixed("Runtime error: ", reason.as_str())),
            ),
            WorkerEvent::LogProduced(entry) => (phase, only(WorkerEffect::SendLog(entry))),
            _ => (phase, nothing()),
        },
        WorkerPhase::Replying => match event {
            WorkerEvent::Sent => (WorkerPhase::Running, nothing()),
            WorkerEvent::SendFailed(reason) => (
                WorkerPhase::Finished,
                leaving(prefixed("Runtime error: ", reason.as_str())),
            ),
            _ => (phase, nothing()),
        },
        WorkerPhase::Stopping => match event {
            WorkerEvent::Sent => (
                WorkerPhase::Finished,
                leaving(String::from_str("Runtime stopped")),
            ),
            WorkerEvent::SendFailed(reason) => (
                WorkerPhase::Finished,
                leaving(prefixed("Runtime error: ", reason.as_str())),
            ),
            _ => (phase, nothing()),
        },
        WorkerPhase::Finished => (phase, nothing()),
    }
}

/// Whether an effect sends something to the supervisor.
pub open spec fn sends(effect: WorkerEffectView) -> bool {
    effect is Send || effect is SendConfig || effect is SendLog || effect is Flush
}

/// The first thing that a worker sends is its answer to the command to
/// start: until the runtime has started or failed nothing is sent, and then
/// the one message that says which.
pub proof fn lemma_answer_comes_first(phase: WorkerPhaseView, event: WorkerEventView, i: int)
    requires
        phase is AwaitingStart || phase is Starting,
        0 <= i < step(phase, event).1.len(),
        sends(step(phase, event).1[i]),
    ensures
        phase is Starting,
        step(phase, event).1.len() == 1,
        step(phase, event).1[i] matches WorkerEffectView::Send(message) && (message is Started
            || message is StartError),
{
}

/// A worker that was told to stop says so to the supervisor, and leaves once
/// that was sent or could not be sent.
pub proof fn lemma_stop_is_answered(outcome: WorkerEventView)
    requires
        outcome is Sent || outcome is SendFailed,
    ensures
        ({
            let told = step(
                WorkerPhaseView::Running,
                WorkerEventView::Command(MainToRuntimeView::Stop),
            );
            &&& told.1 == seq![WorkerEffectView::Send(RuntimeToMainView::Stopped)]
            &&& step(told.0, outcome).0 is Finished
            &&& step(told.0, outcome).1.last() == WorkerEffectView::Exit(Ok(()))
        }),
{
}

/// A worker that is done stays done and does nothing more.
pub proof fn lemma_finished_is_final(event: WorkerEventView)
    ensures
        step(WorkerPhaseView::Finished, event) == (
            WorkerPhaseView::Finished,
            Seq::<WorkerEffectView>::empty(),
        ),
{
}

/// Log entries go to the supervisor in the order in which the runtime wrote
/// them, each as it is, and only while the runtime runs.
pub proof fn lemma_log_sent_in_order(entry: LogEntryView)
    ensures
        step(WorkerPhaseView::Running, WorkerEventView::LogProduced(entry)) == (
            WorkerPhaseView::Running,
            seq![WorkerEffectView::SendLog(entry)],
        ),
{
}

} // verus!
