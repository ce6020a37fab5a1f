//! The failures the library reports.

use vstd::prelude::*;
use vstd::string::StringExecFns;

verus! {

/// Everything that can go wrong while driving the agent CLI.
#[derive(Debug, PartialEq, Eq)]
pub enum ClaudeError {
    /// No executable of the agent CLI could be located.
    CliNotFound,
    /// The CLI is installed, but nobody has logged in with it.
    NotAuthenticated,
    /// The operating system refused to start the process.
    SpawnFailed(String),
    /// The standard output of the process could not be captured.
    PtyError(String),
    /// Any other input or output failure, by its message.
    IoError(String),
    SessionNotFound(String),
    /// A message was sent while no session was able to take it.
    NoActiveSession,
    /// A session was started while another one was still tracked.
    SessionAlreadyExists(String),
    SendFailed(String),
    ProcessTerminated,
    /// The stored conversation history could not be read.
    HistoryParseError(String),
}

/// A [`ClaudeError`] with its texts as character sequences.
pub enum ClaudeErrorView {
    CliNotFound,
    NotAuthenticated,
    SpawnFailed(Seq<char>),
    PtyError(Seq<char>),
    IoError(Seq<char>),
    SessionNotFound(Seq<char>),
    NoActiveSession,
    SessionAlreadyExists(Seq<char>),
    SendFailed(Seq<char>),
    ProcessTerminated,
    HistoryParseError(Seq<char>),
}

impl View for ClaudeError {
    type V = ClaudeErrorView;

    open spec fn view(&self) -> ClaudeErrorView {
        match self {
            ClaudeError::CliNotFound => ClaudeErrorView::CliNotFound,
            ClaudeError::NotAuthenticated => ClaudeErrorView::NotAuthenticated,
            ClaudeError::SpawnFailed(m) => ClaudeErrorView::SpawnFailed(m@),
            ClaudeError::PtyError(m) => ClaudeErrorView::PtyError(m@),
            ClaudeError::IoError(m) => ClaudeErrorView::IoError(m@),
            ClaudeError::SessionNotFound(m) => ClaudeErrorView::SessionNotFound(m@),
            ClaudeError::NoActiveSession => ClaudeErrorView::NoActiveSession,
            ClaudeError::SessionAlreadyExists(m) => ClaudeErrorView::SessionAlreadyExists(m@),
            ClaudeError::SendFailed(m) => ClaudeErrorView::SendFailed(m@),
            ClaudeError::ProcessTerminated => ClaudeErrorView::ProcessTerminated,
            ClaudeError::HistoryParseError(m) => ClaudeErrorView::HistoryParseError(m@),
        }
    }
}

/// The sentence shown to a person for each failure.
pub open spec fn error_text(e: ClaudeErrorView) -> Seq<char> {
    match e {
        ClaudeErrorView::CliNotFound => "Agent CLI not found. Please install the agent CLI."@,
        ClaudeErrorView::NotAuthenticated =>
            "Agent CLI not authenticated. Please log in with the CLI first."@,
        ClaudeErrorView::SpawnFailed(m) => "Failed to spawn agent process: "@ + m,
        ClaudeErrorView::PtyError(m) => "PTY error: "@ + m,
        ClaudeErrorView::IoError(m) => "IO error: "@ + m,
        ClaudeErrorView::SessionNotFound(m) => "Session not found: "@ + m,
        ClaudeErrorView::NoActiveSession => "No active session"@,
        ClaudeErrorView::SessionAlreadyExists(m) => "Session already exists: "@ + m,
        ClaudeErrorView::SendFailed(m) => "Failed to send message: "@ + m,
        ClaudeErrorView::ProcessTerminated => "Process terminated unexpectedly"@,
        ClaudeErrorView::HistoryParseError(m) => "Failed to parse conversation history: "@ + m,
    }
}

/// `head` followed by `tail`.
fn prefixed(head: &str, tail: &String) -> (r: String)
    ensures
        r@ == head@ + tail@,
{
    let mut out = String::from_str(head);
    out.append(tail.as_str());
    out
}

impl ClaudeError {
    /// The human-readable rendering of the failure.
    pub fn message(&self) -> (r: String)
        ensures
            r@ == error_text(self@),
    {
        match self {
            ClaudeError::CliNotFound => String::from_str(
                "Agent CLI not found. Please install the agent CLI.",
            ),
            ClaudeError::NotAuthenticated => String::from_str(
                "Agent CLI not authenticated. Please log in with the CLI first.",
            ),
            ClaudeError::SpawnFailed(m) => prefixed("Failed to spawn agent process: ", m),
            ClaudeError::PtyError(m) => prefixed("PTY error: ", m),
            ClaudeError::IoError(m) => prefixed("IO error: ", m),
            ClaudeError::SessionNotFound(m) => prefixed("Session not found: ", m),
            ClaudeError::NoActiveSession => String::from_str("No active session"),
            ClaudeError::SessionAlreadyExists(m) => prefixed("Session already exists: ", m),
            ClaudeError::SendFailed(m) => prefixed("Failed to send message: ", m),
            ClaudeError::ProcessTerminated => String::from_str("Process terminated unexpectedly"),
            ClaudeError::HistoryParseError(m) => prefixed(
                "Failed to parse conversation history: ",
                m,
            ),
        }
    }
}

} // verus!
