use claude_session::error::ClaudeError;

#[test]
fn every_error_has_its_sentence() {
    let cases = vec![
        (ClaudeError::CliNotFound, "Agent CLI not found. Please install the agent CLI."),
        (
            ClaudeError::NotAuthenticated,
            "Agent CLI not authenticated. Please log in with the CLI first.",
        ),
        (ClaudeError::SpawnFailed("no such file".to_string()), "Failed to spawn agent process: no such file"),
        (ClaudeError::PtyError("closed".to_string()), "PTY error: closed"),
        (ClaudeError::IoError("disk full".to_string()), "IO error: disk full"),
        (ClaudeError::SessionNotFound("s1".to_string()), "Session not found: s1"),
        (ClaudeError::NoActiveSession, "No active session"),
        (ClaudeError::SessionAlreadyExists("s2".to_string()), "Session already exists: s2"),
        (ClaudeError::SendFailed("busy".to_string()), "Failed to send message: busy"),
        (ClaudeError::ProcessTerminated, "Process terminated unexpectedly"),
        (
            ClaudeError::HistoryParseError("bad".to_string()),
            "Failed to parse conversation history: bad",
        ),
    ];
    for (error, sentence) in cases {
        assert_eq!(error.message(), sentence);
    }
}

#[test]
fn empty_detail_leaves_the_prefix() {
    assert_eq!(ClaudeError::IoError(String::new()).message(), "IO error: ");
}
