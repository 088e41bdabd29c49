//! Why the agent stops.

use vstd::prelude::*;

verus! {

/// Why no verified connection to the server came about.
#[derive(Debug)]
pub enum ConnectFailure {
    /// The server proved another identity than the pinned one.
    IdentityMismatch,
    /// Anything else, as the transport describes it.
    Other(String),
}

/// The mathematical content of a [`ConnectFailure`].
pub enum ConnectFailureView {
    IdentityMismatch,
    Other(Seq<char>),
}

impl View for ConnectFailure {
    type V = ConnectFailureView;

    open spec fn view(&self) -> ConnectFailureView {
        match *self {
            ConnectFailure::IdentityMismatch => ConnectFailureView::IdentityMismatch,
            ConnectFailure::Other(detail) => ConnectFailureView::Other(detail@),
        }
    }
}

/// An error that ends the agent. Each `cause` is the text of the error underneath.
#[derive(Debug)]
pub enum AgentError {
    /// The state file could not be read or parsed.
    LoadState { path: String, cause: String },
    /// The state could not be persisted.
    SaveState { cause: String },
    /// The persisted machine key seed has the wrong length.
    BadKeySeed,
    /// The operating system had no randomness for a new machine key.
    NoRandomness,
    /// The persisted server identity has the wrong length.
    BadServerIdentity,
    /// No verified connection to the server.
    Connect(ConnectFailure),
    /// The server refused the registration, or it never arrived.
    Register { cause: String },
    /// A liveness check-in failed.
    CheckIn { cause: String },
    /// The push stream could not be opened.
    Subscribe { cause: String },
    /// The push stream broke.
    PushStream { cause: String },
}

/// The mathematical content of an [`AgentError`].
pub enum ErrorView {
    LoadState { path: Seq<char>, cause: Seq<char> },
    SaveState { cause: Seq<char> },
    BadKeySeed,
    NoRandomness,
    BadServerIdentity,
    Connect(ConnectFailureView),
    Register { cause: Seq<char> },
    CheckIn { cause: Seq<char> },
    Subscribe { cause: Seq<char> },
    PushStream { cause: Seq<char> },
}

impl View for AgentError {
    type V = ErrorView;

    open spec fn view(&self) -> ErrorView {
        match *self {
            AgentError::LoadState { path, cause } => ErrorView::LoadState {
                path: path@,
                cause: cause@,
            },
            AgentError::SaveState { cause } => ErrorView::SaveState { cause: cause@ },
            AgentError::BadKeySeed => ErrorView::BadKeySeed,
            AgentError::NoRandomness => ErrorView::NoRandomness,
            AgentError::BadServerIdentity => ErrorView::BadServerIdentity,
            AgentError::Connect(failure) => ErrorView::Connect(failure@),
            AgentError::Register { cause } => ErrorView::Register { cause: cause@ },
            AgentError::CheckIn { cause } => ErrorView::CheckIn { cause: cause@ },
            AgentError::Subscribe { cause } => ErrorView::Subscribe { cause: cause@ },
            AgentError::PushStream { cause } => ErrorView::PushStream { cause: cause@ },
        }
    }
}

/// What the operator reads where the server could not be trusted or reached.
pub open spec fn connect_message(failure: ConnectFailureView) -> Seq<char> {
    match failure {
        ConnectFailureView::IdentityMismatch =>
            "server identity does not match the pinned key — refusing to connect (delete the agent state to re-pin a known-good server)"@,
        ConnectFailureView::Other(detail) => "could not reach or verify the server: "@ + detail,
    }
}

/// What the operator reads where the agent stops with an error.
pub open spec fn error_message(error: ErrorView) -> Seq<char> {
    match error {
        ErrorView::LoadState { path, cause } => "loading agent state from "@ + path,
        ErrorView::SaveState { cause } => cause,
        ErrorView::BadKeySeed => "stored machine key seed is not 32 bytes"@,
        ErrorView::NoRandomness => "no randomness for a new machine key"@,
        ErrorView::BadServerIdentity => "stored server identity is not 32 bytes"@,
        ErrorView::Connect(failure) => connect_message(failure),
        ErrorView::Register { cause } => "register_machine failed"@,
        ErrorView::CheckIn { cause } => "check-in failed"@,
        ErrorView::Subscribe { cause } => "subscribe failed"@,
        ErrorView::PushStream { cause } => "server push stream error"@,
    }
}

/// The error that lies under an error's message, where there is one.
pub open spec fn error_cause(error: ErrorView) -> Option<Seq<char>> {
    match error {
        ErrorView::LoadState { path, cause } => Some(cause),
        ErrorView::Register { cause } => Some(cause),
        ErrorView::CheckIn { cause } => Some(cause),
        ErrorView::Subscribe { cause } => Some(cause),
        ErrorView::PushStream { cause } => Some(cause),
        _ => None,
    }
}

/// Describes a failed connection: a server whose identity does not match the pinned key
/// is told apart from one that could not be reached or verified.
pub fn describe_connect(failure: &ConnectFailure) -> (text: String)
    ensures
        text@ == connect_message(failure@),
{
    match failure {
        ConnectFailure::IdentityMismatch =>
            "server identity does not match the pinned key — refusing to connect (delete the agent state to re-pin a known-good server)".to_owned(),
        ConnectFailure::Other(detail) =>
            "could not reach or verify the server: ".to_owned().concat(detail.as_str()),
    }
}

impl AgentError {
    /// The message of this error.
    pub fn message(&self) -> (text: String)
        ensures
            text@ == error_message(self@),
    {
        match self {
            AgentError::LoadState { path, cause } =>
                "loading agent state from ".to_owned().concat(path.as_str()),
            AgentError::SaveState { cause } => cause.clone(),
            AgentError::BadKeySeed => "stored machine key seed is not 32 bytes".to_owned(),
            AgentError::NoRandomness => "no randomness for a new machine key".to_owned(),
            AgentError::BadServerIdentity => "stored server identity is not 32 bytes".to_owned(),
            AgentError::Connect(failure) => describe_connect(failure),
            AgentError::Register { cause } => "register_machine failed".to_owned(),
            AgentError::CheckIn { cause } => "check-in failed".to_owned(),
            AgentError::Subscribe { cause } => "subscribe failed".to_owned(),
            AgentError::PushStream { cause } => "server push stream error".to_owned(),
        }
    }

    /// The text of the error underneath, where this error wraps one.
    pub fn cause(&self) -> (text: Option<String>)
        ensures
            crate::state::text_of(text) == error_cause(self@),
    {
        match self {
            AgentError::LoadState { path, cause } => Some(cause.clone()),
            AgentError::Register { cause } => Some(cause.clone()),
            AgentError::CheckIn { cause } => Some(cause.clone()),
            AgentError::Subscribe { cause } => Some(cause.clone()),
            AgentError::PushStream { cause } => Some(cause.clone()),
            AgentError::SaveState { .. } => None,
            AgentError::BadKeySeed => None,
            AgentError::NoRandomness => None,
            AgentError::BadServerIdentity => None,
            AgentError::Connect(_) => None,
        }
    }
}

/// What the operator reads of each error, and what lies underneath it: a path and a detail
/// are shown whole, and a cause is kept for every error that wraps one.
pub proof fn law_error_texts(path: Seq<char>, cause: Seq<char>)
    ensures
        error_message(ErrorView::LoadState { path, cause }) == "loading agent state from "@ + path,
        error_message(ErrorView::SaveState { cause }) == cause,
        error_message(ErrorView::BadKeySeed) == "stored machine key seed is not 32 bytes"@,
        error_message(ErrorView::NoRandomness) == "no randomness for a new machine key"@,
        error_message(ErrorView::BadServerIdentity) == "stored server identity is not 32 bytes"@,
        error_message(ErrorView::Connect(ConnectFailureView::IdentityMismatch))
            == "server identity does not match the pinned key — refusing to connect (delete the agent state to re-pin a known-good server)"@,
        error_message(ErrorView::Connect(ConnectFailureView::Other(cause)))
            == "could not reach or verify the server: "@ + cause,
        error_message(ErrorView::Register { cause }) == "register_machine failed"@,
        error_message(ErrorView::CheckIn { cause }) == "check-in failed"@,
        error_message(ErrorView::Subscribe { cause }) == "subscribe failed"@,
        error_message(ErrorView::PushStream { cause }) == "server push stream error"@,
        connect_message(ConnectFailureView::IdentityMismatch)
            == "server identity does not match the pinned key — refusing to connect (delete the agent state to re-pin a known-good server)"@,
        connect_message(ConnectFailureView::Other(cause))
            == "could not reach or verify the server: "@ + cause,
        error_cause(ErrorView::LoadState { path, cause }) == Some(cause),
        error_cause(ErrorView::Register { cause }) == Some(cause),
        error_cause(ErrorView::CheckIn { cause }) == Some(cause),
        error_cause(ErrorView::Subscribe { cause }) == Some(cause),
        error_cause(ErrorView::PushStream { cause }) == Some(cause),
        error_cause(ErrorView::SaveState { cause }) is None,
        error_cause(ErrorView::BadKeySeed) is None,
        error_cause(ErrorView::NoRandomness) is None,
        error_cause(ErrorView::BadServerIdentity) is None,
        error_cause(ErrorView::Connect(ConnectFailureView::IdentityMismatch)) is None,
        error_cause(ErrorView::Connect(ConnectFailureView::Other(cause))) is None,
{
}

} // verus!
