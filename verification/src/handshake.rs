//! The start of a worker, step by step: each step takes what the last action
//! gave and says what to do next. Whoever drives the start performs the
//! actions; what follows from their outcome is decided here.

use crate::error::{ErrorView, SupervisorError};
use crate::protocol::{RuntimeToMain, RuntimeToMainView};
use vstd::prelude::*;

verus! {

/// Seconds that a worker has to connect after it was spawned.
pub const ACCEPT_TIMEOUT_SECS: u64 = 10;

/// How far a start has come. Each phase waits for the outcome of one action.
#[derive(Debug, Clone, Copy, PartialEq, Eq, Structural)]
pub enum StartPhase {
    /// The configuration is made ready for the runtime.
    Preparing,
    /// The endpoint is bound at a fresh path.
    Binding,
    /// The worker's binary is looked for.
    Locating,
    /// The worker is spawned.
    Spawning,
    /// The worker is awaited on the endpoint.
    Connecting,
    /// The start message is sent.
    Sending,
    /// The worker's reply is awaited.
    AwaitingReply,
    /// The start is over, well or not.
    Finished,
}

/// What was read where the worker's reply was awaited.
#[derive(Debug, PartialEq)]
pub enum HandshakeReply {
    /// Nothing: the worker closed the connection.
    Closed,
    /// A line that holds no message, with the reason.
    Undecodable(String),
    /// A message.
    Message(RuntimeToMain),
}

/// The outcome of the action that a phase waits for.
#[derive(Debug, PartialEq)]
pub enum StartEvent {
    /// The action was done.
    Succeeded,
    /// The action failed, for this reason.
    Failed(String),
    /// The action did not end in time.
    TimedOut,
    /// There is no worker binary at this path.
    BinaryMissing(String),
    /// This was read from the worker.
    Reply(HandshakeReply),
}

/// What to do next.
#[derive(Debug, PartialEq, Eq)]
pub enum StartAction {
    /// Turn the declared configuration into the one the runtime starts with.
    PrepareConfig,
    /// Bind the endpoint.
    Bind,
    /// Look for the worker's binary.
    LocateBinary,
    /// Spawn the worker, its output going to the two files.
    Spawn,
    /// Accept one connection, within the time given.
    Accept { timeout_secs: u64 },
    /// Send the start message with the configuration, and flush.
    SendStart,
    /// Read one line from the worker.
    ReadReply,
    /// Give the start up with this error; kill the worker where one was spawned.
    Abort { kill_child: bool, error: SupervisorError },
    /// The runtime runs under this identity: mark it so, hand the connection to
    /// its event loop, and remove the endpoint's path.
    Complete { zenoh_id: String },
}

/// What a reply holds.
pub enum HandshakeReplyView {
    Closed,
    Undecodable(Seq<char>),
    Message(RuntimeToMainView),
}

/// What an outcome holds.
pub enum StartEventView {
    Succeeded,
    Failed(Seq<char>),
    TimedOut,
    BinaryMissing(Seq<char>),
    Reply(HandshakeReplyView),
}

/// What an action holds.
pub enum StartActionView {
    PrepareConfig,
    Bind,
    LocateBinary,
    Spawn,
    Accept { timeout_secs: u64 },
    SendStart,
    ReadReply,
    Abort { kill_child: bool, error: ErrorView },
    Complete { zenoh_id: Seq<char> },
}

impl View for HandshakeReply {
    type V = HandshakeReplyView;

    open spec fn view(&self) -> HandshakeReplyView {
        match self {
            HandshakeReply::Closed => HandshakeReplyView::Closed,
            HandshakeReply::Undecodable(reason) => HandshakeReplyView::Undecodable(reason@),
            HandshakeReply::Message(message) => HandshakeReplyView::Message(message@),
        }
    }
}

impl View for StartEvent {
    type V = StartEventView;

    open spec fn view(&self) -> StartEventView {
        match self {
            StartEvent::Succeeded => StartEventView::Succeeded,
            StartEvent::Failed(reason) => StartEventView::Failed(reason@),
            StartEvent::TimedOut => StartEventView::TimedOut,
            StartEvent::BinaryMissing(path) => StartEventView::BinaryMissing(path@),
            StartEvent::Reply(reply) => StartEventView::Reply(reply@),
        }
    }
}

impl View for StartAction {
    type V = StartActionView;

    open spec fn view(&self) -> StartActionView {
        match self {
            StartAction::PrepareConfig => StartActionView::PrepareConfig,
            StartAction::Bind => StartActionView::Bind,
            StartAction::LocateBinary => StartActionView::LocateBinary,
            StartAction::Spawn => StartActionView::Spawn,
            StartAction::Accept { timeout_secs } => StartActionView::Accept {
                timeout_secs: *timeout_secs,
            },
            StartAction::SendStart => StartActionView::SendStart,
            StartAction::ReadReply => StartActionView::ReadReply,
            StartAction::Abort { kill_child, error } => StartActionView::Abort {
                kill_child: *kill_child,
                error: error@,
            },
            StartAction::Complete { zenoh_id } => StartActionView::Complete { zenoh_id: zenoh_id@ },
        }
    }
}

/// The identity that zenoh reads from a text, written as zenoh writes it;
/// none where zenoh refuses the text.
pub uninterp spec fn zenoh_id_text(text: Seq<char>) -> Option<Seq<char>>;

/// Reads an identity with `ZenohId`'s `FromStr` and writes it back with its
/// `Display`. What comes out depends on the text alone; which texts zenoh
/// accepts, and how it writes them, is zenoh's to say.
#[verifier::external_body]
fn parse_zenoh_id(text: &str) -> (r: Option<String>)
    ensures
        match r {
            Some(id) => zenoh_id_text(text@) == Some(id@),
            None => zenoh_id_text(text@) is None,
        },
{
    match text.parse::<zenoh::session::ZenohId>() {
        Ok(id) => Some(id.to_string()),
        Err(_) => None,
    }
}

impl StartPhase {
    /// Whether a worker was spawned and is not yet known to be gone.
    pub open spec fn child_alive(self) -> bool {
        self == StartPhase::Connecting || self == StartPhase::Sending || self
            == StartPhase::AwaitingReply
    }

    /// The place of a phase in the order of a start.
    pub open spec fn rank(self) -> int {
        match self {
            StartPhase::Preparing => 0,
            StartPhase::Binding => 1,
            StartPhase::Locating => 2,
            StartPhase::Spawning => 3,
            StartPhase::Connecting => 4,
            StartPhase::Sending => 5,
            StartPhase::AwaitingReply => 6,
            StartPhase::Finished => 7,
        }
    }

    /// The action whose outcome a phase waits for.
    pub open spec fn awaits(self) -> Option<StartActionView> {
        match self {
            StartPhase::Preparing => Some(StartActionView::PrepareConfig),
            StartPhase::Binding => Some(StartActionView::Bind),
            StartPhase::Locating => Some(StartActionView::LocateBinary),
            StartPhase::Spawning => Some(StartActionView::Spawn),
            StartPhase::Connecting => Some(
                StartActionView::Accept { timeout_secs: ACCEPT_TIMEOUT_SECS },
            ),
            StartPhase::Sending => Some(StartActionView::SendStart),
            StartPhase::AwaitingReply => Some(StartActionView::ReadReply),
            StartPhase::Finished => None,
        }
    }

    /// Whether a worker was spawned and is not yet known to be gone.
    pub fn has_child(self) -> (r: bool)
        ensures
            r == self.child_alive(),
    {
        match self {
            StartPhase::Connecting | StartPhase::Sending | StartPhase::AwaitingReply => true,
            _ => false,
        }
    }
}

/// Giving a start up in a phase: the worker is killed exactly where one lives.
pub open spec fn abort_in(phase: StartPhase, error: ErrorView) -> (StartPhase, StartActionView) {
    (StartPhase::Finished, StartActionView::Abort { kill_child: phase.child_alive(), error })
}

/// Going on to the next phase, with the action that it waits for.
pub open spec fn proceed_to(phase: StartPhase) -> (StartPhase, StartActionView) {
    (phase, phase.awaits()->Some_0)
}

/// What follows from the worker's reply. `parsed` is what zenoh made of the
/// identity, where the reply reports one.
pub open spec fn reply_outcome(reply: HandshakeReplyView, parsed: Option<Seq<char>>) -> (
    StartPhase,
    StartActionView,
) {
    let phase = StartPhase::AwaitingReply;
    match reply {
        HandshakeReplyView::Closed => abort_in(
            phase,
            ErrorView::ProtocolDecodeError(
                "Failed to parse response: the connection was closed"@,
            ),
        ),
        HandshakeReplyView::Undecodable(reason) => abort_in(
            phase,
            ErrorView::ProtocolDecodeError("Failed to parse response: "@ + reason),
        ),
        HandshakeReplyView::Message(RuntimeToMainView::Started(id)) => match parsed {
            Some(zenoh_id) => (StartPhase::Finished, StartActionView::Complete { zenoh_id }),
            None => abort_in(phase, ErrorView::ProtocolDecodeError("Invalid ZenohId: "@ + id)),
        },
        HandshakeReplyView::Message(RuntimeToMainView::StartError(reason)) => abort_in(
            phase,
            ErrorView::StartRejectedByWorker(reason),
        ),
        HandshakeReplyView::Message(_) => abort_in(phase, ErrorView::UnexpectedMessage),
    }
}

/// What zenoh makes of the identity that a reply reports.
pub open spec fn reported_id(reply: HandshakeReplyView) -> Option<Seq<char>> {
    match reply {
        HandshakeReplyView::Message(RuntimeToMainView::Started(id)) => zenoh_id_text(id),
        _ => None,
    }
}

/// One step of a start: the phase and the action that follow from the
/// outcome of the action that the phase waited for. An outcome that has no
/// place in the phase gives the start up.
pub open spec fn step(phase: StartPhase, event: StartEventView) -> (StartPhase, StartActionView) {
    match phase {
        StartPhase::Preparing => match event {
            StartEventView::Succeeded => proceed_to(StartPhase::Binding),
            StartEventView::Failed(reason) => abort_in(phase, ErrorView::ConfigInvalid(reason)),
            _ => abort_in(phase, ErrorView::UnexpectedMessage),
        },
        StartPhase::Binding => match event {
            StartEventView::Succeeded => proceed_to(StartPhase::Locating),
            StartEventView::Failed(reason) => abort_in(
                phase,
                ErrorView::ConnectFailed("Failed to create UDS listener: "@ + reason),
            ),
            _ => abort_in(phase, ErrorView::UnexpectedMessage),
        },
        StartPhase::Locating => match event {
            StartEventView::Succeeded => proceed_to(StartPhase::Spawning),
            StartEventView::BinaryMissing(path) => abort_in(phase, ErrorView::BinaryNotFound(path)),
            StartEventView::Failed(reason) => abort_in(phase, ErrorView::SpawnFailed(reason)),
            _ => abort_in(phase, ErrorView::UnexpectedMessage),
        },
        StartPhase::Spawning => match event {
            StartEventView::Succeeded => proceed_to(StartPhase::Connecting),
            StartEventView::Failed(reason) => abort_in(phase, ErrorView::SpawnFailed(reason)),
            _ => abort_in(phase, ErrorView::UnexpectedMessage),
        },
        StartPhase::Connecting => match event {
            StartEventView::Succeeded => proceed_to(StartPhase::Sending),
            StartEventView::TimedOut => abort_in(phase, ErrorView::ConnectTimeout),
            StartEventView::Failed(reason) => abort_in(
                phase,
                ErrorView::ConnectFailed("Failed to accept connection: "@ + reason),
            ),
            _ => abort_in(phase, ErrorView::UnexpectedMessage),
        },
        StartPhase::Sending => match event {
            StartEventView::Succeeded => proceed_to(StartPhase::AwaitingReply),
            StartEventView::TimedOut => abort_in(phase, ErrorView::RequestTimeout),
            StartEventView::Failed(reason) => abort_in(
                phase,
                ErrorView::ConnectFailed("Failed to send start message: "@ + reason),
            ),
            _ => abort_in(phase, ErrorView::UnexpectedMessage),
        },
        StartPhase::AwaitingReply => match event {
            StartEventView::Reply(reply) => reply_outcome(reply, reported_id(reply)),
            StartEventView::TimedOut => abort_in(phase, ErrorView::RequestTimeout),
            StartEventView::Failed(reason) => abort_in(
                phase,
                ErrorView::ConnectFailed("Failed to read response: "@ + reason),
            ),
            _ => abort_in(phase, ErrorView::UnexpectedMessage),
        },
        StartPhase::Finished => abort_in(phase, ErrorView::UnexpectedMessage),
    }
}

/// The first phase of a start and the action that it waits for.
pub fn begin() -> (r: (StartPhase, StartAction))
    ensures
        (r.0, r.1@) == proceed_to(StartPhase::Preparing),
{
    (StartPhase::Preparing, StartAction::PrepareConfig)
}

/// A reason with what failed written before it.
fn prefixed(prefix: &str, reason: &str) -> (r: String)
    ensures
        r@ == prefix@ + reason@,
{
    let mut text = String::from_str(prefix);
    text.append(reason);
    text
}

/// Gives a start up in a phase.
fn abort(phase: StartPhase, error: SupervisorError) -> (r: (StartPhase, StartAction))
    ensures
        (r.0, r.1@) == abort_in(phase, error@),
{
    (StartPhase::Finished, StartAction::Abort { kill_child: phase.has_child(), error })
}

/// Goes on to a phase that waits for an action.
fn proceed(phase: StartPhase) -> (r: (StartPhase, StartAction))
    requires
        phase != StartPhase::Finished,
    ensures
        (r.0, r.1@) == proceed_to(phase),
{
    let action = match phase {
        StartPhase::Preparing => StartAction::PrepareConfig,
        StartPhase::Binding => StartAction::Bind,
        StartPhase::Locating => StartAction::LocateBinary,
        StartPhase::Spawning => StartAction::Spawn,
        StartPhase::Connecting => StartAction::Accept { timeout_secs: ACCEPT_TIMEOUT_SECS },
        StartPhase::Sending => StartAction::SendStart,
        _ => StartAction::ReadReply,
    };
    (phase, action)
}

/// What follows from the worker's reply, given what zenoh made of the
/// identity that the reply reports: a worker that started under an identity
/// zenoh accepts completes the start; every other reply gives it up and has
/// the worker killed.
pub fn reply_step(reply: HandshakeReply, parsed: Option<String>) -> (r: (StartPhase, StartAction))
    ensures
        (r.0, r.1@) == reply_outcome(
            reply@,
            match parsed {
                Some(id) => Some(id@),
                None => None,
            },
        ),
{
    let phase = StartPhase::AwaitingReply;
    match reply {
        HandshakeReply::Closed => abort(
            phase,
            SupervisorError::ProtocolDecodeError(
                String::from_str("Failed to parse response: the connection was closed"),
            ),
        ),
        HandshakeReply::Undecodable(reason) => abort(
            phase,
            SupervisorError::ProtocolDecodeError(
                prefixed("Failed to parse response: ", reason.as_str()),
            ),
        ),
        HandshakeReply::Message(RuntimeToMain::Started(id)) => match parsed {
            Some(zenoh_id) => (StartPhase::Finished, StartAction::Complete { zenoh_id }),
            None => abort(
                phase,
                SupervisorError::ProtocolDecodeError(prefixed("Invalid ZenohId: ", id.as_str())),
            ),
        },
        HandshakeReply::Message(RuntimeToMain::StartError(reason)) => abort(
            phase,
            SupervisorError::StartRejectedByWorker(reason),
        ),
        HandshakeReply::Message(_) => abort(phase, SupervisorError::UnexpectedMessage),
    }
}

/// One step of a start: takes the outcome of the action that the phase
/// waited for, and gives the next phase with the next action.
pub fn start_step(phase: StartPhase, event: StartEvent) -> (r: (StartPhase, StartAction))
    ensures
        (r.0, r.1@) == step(phase, event@),
{
    match phase {
        StartPhase::Preparing => match event {
            StartEvent::Succeeded => proceed(StartPhase::Binding),
            StartEvent::Failed(reason) => abort(phase, SupervisorError::ConfigInvalid(reason)),
            _ => abort(phase, SupervisorError::UnexpectedMessage),
        },
        StartPhase::Binding => match event {
            StartEvent::Succeeded => proceed(StartPhase::Locating),
            StartEvent::Failed(reason) => abort(
                phase,
                SupervisorError::ConnectFailed(
                    prefixed("Failed to create UDS listener: ", reason.as_str()),
                ),
            ),
            _ => abort(phase, SupervisorError::UnexpectedMessage),
        },
        StartPhase::Locating => match event {
            StartEvent::Succeeded => proceed(StartPhase::Spawning),
            StartEvent::BinaryMissing(path) => abort(phase, SupervisorError::BinaryNotFound(path)),
            StartEvent::Failed(reason) => abort(phase, SupervisorError::SpawnFailed(reason)),
            _ => abort(phase, SupervisorError::UnexpectedMessage),
        },
        StartPhase::Spawning => match event {
            StartEvent::Succeeded => proceed(StartPhase::Connecting),
            StartEvent::Failed(reason) => abort(phase, SupervisorError::SpawnFailed(reason)),
            _ => abort(phase, SupervisorError::UnexpectedMessage),
        },
        StartPhase::Connecting => match event {
            StartEvent::Succeeded => proceed(StartPhase::Sending),
            StartEvent::TimedOut => abort(phase, SupervisorError::ConnectTimeout),
            StartEvent::Failed(reason) => abort(
                phase,
                SupervisorError::ConnectFailed(
                    prefixed("Failed to accept connection: ", reason.as_str()),
                ),
            ),
            _ => abort(phase, SupervisorError::UnexpectedMessage),
        },
        StartPhase::Sending => match event {
            StartEvent::Succeeded => proceed(StartPhase::AwaitingReply),
            StartEvent::TimedOut => abort(phase, SupervisorError::RequestTimeout),
            StartEvent::Failed(reason) => abort(
                phase,
                SupervisorError::ConnectFailed(
                    prefixed("Failed to send start message: ", reason.as_str()),
                ),
            ),
            _ => abort(phase, SupervisorError::UnexpectedMessage),
        },
        StartPhase::AwaitingReply => match event {
            StartEvent::Reply(reply) => {
                let parsed = match &reply {
                    HandshakeReply::Message(RuntimeToMain::Started(id)) => parse_zenoh_id(
                        id.as_str(),
                    ),
                    _ => None,
                };
                reply_step(reply, parsed)
            },
            StartEvent::TimedOut => abort(phase, SupervisorError::RequestTimeout),
            StartEvent::Failed(reason) => abort(
                phase,
                SupervisorError::ConnectFailed(
                    prefixed("Failed to read response: ", reason.as_str()),
                ),
            ),
            _ => abort(phase, SupervisorError::UnexpectedMessage),
        },
        StartPhase::Finished => abort(phase, SupervisorError::UnexpectedMessage),
    }
}

/// A start that is given up has the worker killed exactly where one was
/// spawned: no worker outlives a failed start, and nothing is killed that was
/// never there.
pub proof fn lemma_abort_kills_worker(phase: StartPhase, event: StartEventView)
    ensures
        step(phase, event).1 matches StartActionView::Abort { kill_child, .. } ==> kill_child
            == phase.child_alive() && step(phase, event).0 == StartPhase::Finished,
{
}

/// A worker that was spawned is never forgotten: after each step it is still
/// held by the start, or the start completes and hands it on, or the step has
/// it killed.
pub proof fn lemma_worker_never_forgotten(phase: StartPhase, event: StartEventView)
    requires
        phase.child_alive(),
    ensures
        step(phase, event).0.child_alive() || step(phase, event).1 is Complete || step(
            phase,
            event,
        ).1 matches StartActionView::Abort { kill_child: true, .. },
{
}

/// A worker comes to live only by the spawning that succeeds.
pub proof fn lemma_worker_spawned_once(phase: StartPhase, event: StartEventView)
    requires
        !phase.child_alive(),
        step(phase, event).0.child_alive(),
    ensures
        phase == StartPhase::Spawning,
        event is Succeeded,
        step(phase, event).0 == StartPhase::Connecting,
{
}

/// Every step of a start moves on: a start comes to its end after seven
/// steps at most, whatever happens.
pub proof fn lemma_step_advances(phase: StartPhase, event: StartEventView)
    requires
        phase != StartPhase::Finished,
    ensures
        step(phase, event).0.rank() > phase.rank(),
        step(phase, event).0.rank() <= StartPhase::Finished.rank(),
{
}

/// A start that goes on asks for the action that its next phase waits for;
/// a start that ends either completes or is given up.
pub proof fn lemma_step_action(phase: StartPhase, event: StartEventView)
    ensures
        step(phase, event).0 != StartPhase::Finished ==> step(phase, event).0.awaits() == Some(
            step(phase, event).1,
        ),
        step(phase, event).0 == StartPhase::Finished ==> (step(phase, event).1 is Abort || step(
            phase,
            event,
        ).1 is Complete),
{
}

/// A start completes only on the reply of a worker that started, read while
/// the reply was awaited, and under the identity as zenoh writes it.
pub proof fn lemma_complete_only_on_started(phase: StartPhase, event: StartEventView)
    requires
        step(phase, event).1 is Complete,
    ensures
        phase == StartPhase::AwaitingReply,
        event matches StartEventView::Reply(
            HandshakeReplyView::Message(RuntimeToMainView::Started(id)),
        ) && zenoh_id_text(id) == Some(step(phase, event).1->Complete_zenoh_id),
{
}

/// A worker that does not connect in time: the start ends with
/// `ConnectTimeout` and the worker is killed.
pub proof fn lemma_connect_timeout()
    ensures
        step(StartPhase::Connecting, StartEventView::TimedOut) == (
            StartPhase::Finished,
            StartActionView::Abort { kill_child: true, error: ErrorView::ConnectTimeout },
        ),
{
}

/// A worker that answers the start message with an error: the start ends
/// with the worker's reason, which is the text shown to the user, and the
/// worker is killed.
pub proof fn lemma_start_rejected(reason: Seq<char>)
    ensures
        step(
            StartPhase::AwaitingReply,
            StartEventView::Reply(
                HandshakeReplyView::Message(RuntimeToMainView::StartError(reason)),
            ),
        ) == (
            StartPhase::Finished,
            StartActionView::Abort {
                kill_child: true,
                error: ErrorView::StartRejectedByWorker(reason),
            },
        ),
        ErrorView::StartRejectedByWorker(reason).message() == reason,
{
}

} // verus!
