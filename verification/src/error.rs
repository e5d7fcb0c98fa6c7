//! The failures of supervising a worker, each with the reason shown to a user.

use crate::text::{decimal, push_decimal};
use crate::RuntimeId;
use vstd::prelude::*;

verus! {

/// Why an operation on a runtime failed.
#[derive(Debug, PartialEq, Eq)]
pub enum SupervisorError {
    /// The runtime refuses the configuration; nothing was spawned.
    ConfigInvalid(String),
    /// Every port of the pool is reserved.
    PortPoolExhausted,
    /// Every runtime identifier has been handed out.
    IdSpaceExhausted,
    /// There is no worker binary at the path.
    BinaryNotFound(String),
    /// The worker process could not be spawned.
    SpawnFailed(String),
    /// The worker did not connect in time.
    ConnectTimeout,
    /// The endpoint could not be set up, or the connection failed.
    ConnectFailed(String),
    /// What the worker sent could not be read as a message.
    ProtocolDecodeError(String),
    /// The worker sent a message that has no place in the exchange.
    UnexpectedMessage,
    /// The worker reported that it could not start, with its reason.
    StartRejectedByWorker(String),
    /// No answer came in time.
    RequestTimeout,
    /// The request was given up before an answer came.
    RequestCancelled,
    /// Another request of the same kind is still waiting for its answer.
    RequestInFlight,
    /// No runtime has this identifier.
    WorkerNotFound(RuntimeId),
    /// The runtime was started or stopped before and cannot start again.
    NotDeclared(RuntimeId),
    /// The runtime is not running.
    NotRunning(RuntimeId),
}

/// What an error holds.
pub enum ErrorView {
    ConfigInvalid(Seq<char>),
    PortPoolExhausted,
    IdSpaceExhausted,
    BinaryNotFound(Seq<char>),
    SpawnFailed(Seq<char>),
    ConnectTimeout,
    ConnectFailed(Seq<char>),
    ProtocolDecodeError(Seq<char>),
    UnexpectedMessage,
    StartRejectedByWorker(Seq<char>),
    RequestTimeout,
    RequestCancelled,
    RequestInFlight,
    WorkerNotFound(RuntimeId),
    NotDeclared(RuntimeId),
    NotRunning(RuntimeId),
}

impl View for SupervisorError {
    type V = ErrorView;

    open spec fn view(&self) -> ErrorView {
        match self {
            SupervisorError::ConfigInvalid(reason) => ErrorView::ConfigInvalid(reason@),
            SupervisorError::PortPoolExhausted => ErrorView::PortPoolExhausted,
            SupervisorError::IdSpaceExhausted => ErrorView::IdSpaceExhausted,
            SupervisorError::BinaryNotFound(path) => ErrorView::BinaryNotFound(path@),
            SupervisorError::SpawnFailed(reason) => ErrorView::SpawnFailed(reason@),
            SupervisorError::ConnectTimeout => ErrorView::ConnectTimeout,
            SupervisorError::ConnectFailed(reason) => ErrorView::ConnectFailed(reason@),
            SupervisorError::ProtocolDecodeError(reason) => ErrorView::ProtocolDecodeError(reason@),
            SupervisorError::UnexpectedMessage => ErrorView::UnexpectedMessage,
            SupervisorError::StartRejectedByWorker(reason) => ErrorView::StartRejectedByWorker(
                reason@,
            ),
            SupervisorError::RequestTimeout => ErrorView::RequestTimeout,
            SupervisorError::RequestCancelled => ErrorView::RequestCancelled,
            SupervisorError::RequestInFlight => ErrorView::RequestInFlight,
            SupervisorError::WorkerNotFound(id) => ErrorView::WorkerNotFound(*id),
            SupervisorError::NotDeclared(id) => ErrorView::NotDeclared(*id),
            SupervisorError::NotRunning(id) => ErrorView::NotRunning(*id),
        }
    }
}

impl Clone for SupervisorError {
    fn clone(&self) -> (r: Self)
        ensures
            r@ == self@,
    {
        match self {
            SupervisorError::ConfigInvalid(reason) => SupervisorError::ConfigInvalid(
                reason.clone(),
            ),
            SupervisorError::PortPoolExhausted => SupervisorError::PortPoolExhausted,
            SupervisorError::IdSpaceExhausted => SupervisorError::IdSpaceExhausted,
            SupervisorError::BinaryNotFound(path) => SupervisorError::BinaryNotFound(path.clone()),
            SupervisorError::SpawnFailed(reason) => SupervisorError::SpawnFailed(reason.clone()),
            SupervisorError::ConnectTimeout => SupervisorError::ConnectTimeout,
            SupervisorError::ConnectFailed(reason) => SupervisorError::ConnectFailed(
                reason.clone(),
            ),
            SupervisorError::ProtocolDecodeError(reason) => SupervisorError::ProtocolDecodeError(
                reason.clone(),
            ),
            SupervisorError::UnexpectedMessage => SupervisorError::UnexpectedMessage,
            SupervisorError::StartRejectedByWorker(reason) => SupervisorError::StartRejectedByWorker(
                reason.clone(),
            ),
            SupervisorError::RequestTimeout => SupervisorError::RequestTimeout,
            SupervisorError::RequestCancelled => SupervisorError::RequestCancelled,
            SupervisorError::RequestInFlight => SupervisorError::RequestInFlight,
            SupervisorError::WorkerNotFound(id) => SupervisorError::WorkerNotFound(*id),
            SupervisorError::NotDeclared(id) => SupervisorError::NotDeclared(*id),
            SupervisorError::NotRunning(id) => SupervisorError::NotRunning(*id),
        }
    }
}

impl ErrorView {
    /// The reason shown to a user.
    pub open spec fn message(self) -> Seq<char> {
        match self {
            ErrorView::ConfigInvalid(reason) => reason,
            ErrorView::PortPoolExhausted => "No free port is left for a runtime"@,
            ErrorView::IdSpaceExhausted => "No runtime identifier is left"@,
            ErrorView::BinaryNotFound(path) => "Runtime binary not found at: "@ + path
                + ". Did you run 'cargo build --bins'?"@,
            ErrorView::SpawnFailed(reason) => "Failed to spawn runtime process: "@ + reason,
            ErrorView::ConnectTimeout =>
                "Timeout waiting for runtime to connect (10s). Check stderr output."@,
            ErrorView::ConnectFailed(reason) => reason,
            ErrorView::ProtocolDecodeError(reason) => reason,
            ErrorView::UnexpectedMessage => "Unexpected response from runtime"@,
            ErrorView::StartRejectedByWorker(reason) => reason,
            ErrorView::RequestTimeout => "Timeout waiting for config response"@,
            ErrorView::RequestCancelled => "Config request was cancelled"@,
            ErrorView::RequestInFlight => "A config request is already in flight"@,
            ErrorView::WorkerNotFound(id) => "Runtime "@ + decimal(id as nat) + " not found"@,
            ErrorView::NotDeclared(id) => "Runtime "@ + decimal(id as nat)
                + " was already started"@,
            ErrorView::NotRunning(_) => "Runtime not started yet"@,
        }
    }
}

impl SupervisorError {
    /// The reason shown to a user.
    pub fn message(&self) -> (r: String)
        ensures
            r@ == self@.message(),
    {
        match self {
            SupervisorError::ConfigInvalid(reason) => reason.clone(),
            SupervisorError::PortPoolExhausted => String::from_str(
                "No free port is left for a runtime",
            ),
            SupervisorError::IdSpaceExhausted => String::from_str("No runtime identifier is left"),
            SupervisorError::BinaryNotFound(path) => {
                let mut message = String::from_str("Runtime binary not found at: ");
                message.append(path.as_str());
                message.append(". Did you run 'cargo build --bins'?");
                message
            },
            SupervisorError::SpawnFailed(reason) => {
                let mut message = String::from_str("Failed to spawn runtime process: ");
                message.append(reason.as_str());
                message
            },
            SupervisorError::ConnectTimeout => String::from_str(
                "Timeout waiting for runtime to connect (10s). Check stderr output.",
            ),
            SupervisorError::ConnectFailed(reason) => reason.clone(),
            SupervisorError::ProtocolDecodeError(reason) => reason.clone(),
            SupervisorError::UnexpectedMessage => String::from_str(
                "Unexpected response from runtime",
            ),
            SupervisorError::StartRejectedByWorker(reason) => reason.clone(),
            SupervisorError::RequestTimeout => String::from_str(
                "Timeout waiting for config response",
            ),
            SupervisorError::RequestCancelled => String::from_str("Config request was cancelled"),
            SupervisorError::RequestInFlight => String::from_str(
                "A config request is already in flight",
            ),
            SupervisorError::WorkerNotFound(id) => {
                let mut message = String::from_str("Runtime ");
                push_decimal(&mut message, *id as u64);
                message.append(" not found");
                message
            },
            SupervisorError::NotDeclared(id) => {
                let mut message = String::from_str("Runtime ");
                push_decimal(&mut message, *id as u64);
                message.append(" was already started");
                message
            },
            SupervisorError::NotRunning(_) => String::from_str("Runtime not started yet"),
        }
    }
}

} // verus!
