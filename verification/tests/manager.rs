use claude_session::claude_check_status;
use claude_session::claude_get_session_state;
use claude_session::claude_list_conversations;
use claude_session::claude_send_message;
use claude_session::claude_start_session;
use claude_session::claude_stop_session;
use claude_session::manager::ClaudeEvent;
use claude_session::manager::ClaudeOutput;
use claude_session::manager::SessionStatus;
use claude_session::pty::LineInput;
use claude_session::pty::SpawnOutcome;
use claude_session::sessions::AuthProbe;
use claude_session::sessions::ConversationDir;
use claude_session::sessions::Timestamp;
use claude_session::ClaudeError;
use claude_session::ClaudeManager;

const SYSTEM: &str = r#"{"type":"system","session_id":"abc"}"#;
const HELLO: &str = r#"{"type":"assistant","message":{"content":[{"type":"text","text":"hello"}]}}"#;
const DONE: &str = r#"{"type":"result","subtype":"success","result":"ok","session_id":"abc","is_error":false}"#;
const BOOM: &str = r#"{"type":"result","subtype":"success","result":"boom","session_id":"abc","is_error":true}"#;
const PROMPT: &str = "You are an assistant for the Personal Assistant app. You have access to MCP tools to manage tasks, projects, and time entries. Use list_tasks, create_task, list_projects, and other tools to help the user. Be concise and helpful.";

fn manager() -> ClaudeManager {
    ClaudeManager::new("/work".to_string(), &Some("/home/ann".to_string()), ".agent")
}

fn path() -> Option<String> {
    Some("/usr/local/bin/agent".to_string())
}

fn line(s: &str) -> LineInput {
    LineInput::Line(s.to_string())
}

fn text_event(content: &str, session_id: &str) -> ClaudeEvent {
    ClaudeEvent::Output(ClaudeOutput {
        content: content.to_string(),
        is_complete: false,
        session_id: session_id.to_string(),
    })
}

fn marker(session_id: &str) -> ClaudeEvent {
    ClaudeEvent::Output(ClaudeOutput {
        content: String::new(),
        is_complete: true,
        session_id: session_id.to_string(),
    })
}

fn is_uuid(id: &str) -> bool {
    let chars: Vec<char> = id.chars().collect();
    chars.len() == 36
        && chars.iter().enumerate().all(|(i, c)| {
            if i == 8 || i == 13 || i == 18 || i == 23 {
                *c == '-'
            } else {
                c.is_ascii_digit() || ('a'..='f').contains(c)
            }
        })
        && chars[14] == '4'
}

#[test]
fn new_manager_is_inactive() {
    let manager = manager();
    let state = manager.get_state();
    assert_eq!(state.status, SessionStatus::Inactive);
    assert_eq!(state.session_id, None);
    assert_eq!(state.error, None);
    assert!(!manager.is_active());
    assert_eq!(manager.session_manager().get_claude_dir(), "/home/ann/.agent");
    assert!(manager.session_manager().project_hash().is_some());
}

#[test]
fn send_before_start_fails() {
    let mut manager = manager();
    assert_eq!(manager.send_message(&path(), "hi"), Err(ClaudeError::NoActiveSession));
    assert_eq!(manager.send_message(&None, "hi"), Err(ClaudeError::NoActiveSession));
    assert_eq!(manager.get_state().status, SessionStatus::Inactive);
}

#[test]
fn start_without_resume_generates_an_id() {
    let mut manager = manager();
    let id = manager.start_session(None).unwrap();
    assert!(is_uuid(&id), "{}", id);
    let state = manager.get_state();
    assert_eq!(state.status, SessionStatus::Active);
    assert_eq!(state.session_id, Some(id));
    assert!(manager.is_active());
}

#[test]
fn generated_ids_differ() {
    let mut first = manager();
    let mut second = manager();
    assert_ne!(first.start_session(None).unwrap(), second.start_session(None).unwrap());
}

#[test]
fn start_with_resume_uses_the_given_id() {
    let mut manager = manager();
    assert_eq!(manager.start_session(Some("earlier".to_string())), Ok("earlier".to_string()));
    assert_eq!(manager.get_state().session_id, Some("earlier".to_string()));
}

#[test]
fn start_under_a_chosen_id() {
    let mut manager = manager();
    assert_eq!(manager.start_session_as("mine".to_string()), Ok("mine".to_string()));
    assert_eq!(manager.get_state().status, SessionStatus::Active);
    assert_eq!(
        manager.start_session_as("other".to_string()),
        Err(ClaudeError::SessionAlreadyExists("A session is already active".to_string()))
    );
    assert_eq!(manager.get_state().session_id, Some("mine".to_string()));
}

#[test]
fn start_while_active_fails() {
    let mut manager = manager();
    manager.start_session(Some("one".to_string())).unwrap();
    assert_eq!(
        manager.start_session(Some("two".to_string())),
        Err(ClaudeError::SessionAlreadyExists("A session is already active".to_string()))
    );
    assert_eq!(manager.get_state().session_id, Some("one".to_string()));
    assert_eq!(manager.get_state().status, SessionStatus::Active);
}

#[test]
fn start_while_processing_fails() {
    let mut manager = manager();
    manager.start_session(Some("one".to_string())).unwrap();
    manager.send_message(&path(), "hi").unwrap();
    assert_eq!(
        manager.start_session(None),
        Err(ClaudeError::SessionAlreadyExists("A session is already active".to_string()))
    );
    assert_eq!(manager.get_state().status, SessionStatus::Processing);
}

#[test]
fn send_gives_the_command_line_and_marks_processing() {
    let mut manager = manager();
    manager.start_session(Some("s-9".to_string())).unwrap();
    let invocation = manager.send_message(&path(), "hi").unwrap();
    assert_eq!(invocation.program, "/usr/local/bin/agent");
    assert_eq!(
        invocation.args,
        vec![
            "-p",
            "--output-format",
            "stream-json",
            "--verbose",
            "--resume",
            "s-9",
            "--system-prompt",
            PROMPT,
            "hi",
        ]
    );
    assert_eq!(invocation.working_dir, Some("/work".to_string()));
    assert_eq!(manager.get_state().status, SessionStatus::Processing);
    assert!(manager.is_active());
}

#[test]
fn configuration_shows_in_the_command_line() {
    let mut manager = manager();
    manager.set_mcp_config("/etc/tools.json".to_string());
    manager.set_system_prompt("short".to_string());
    manager.start_session(Some("s".to_string())).unwrap();
    let invocation = manager.send_message(&path(), "m").unwrap();
    assert_eq!(
        invocation.args,
        vec![
            "-p",
            "--output-format",
            "stream-json",
            "--verbose",
            "--resume",
            "s",
            "--mcp-config",
            "/etc/tools.json",
            "--system-prompt",
            "short",
            "m",
        ]
    );
}

#[test]
fn second_send_while_processing_fails() {
    let mut manager = manager();
    manager.start_session(None).unwrap();
    manager.send_message(&path(), "first").unwrap();
    assert_eq!(manager.send_message(&path(), "second"), Err(ClaudeError::NoActiveSession));
    assert_eq!(manager.get_state().status, SessionStatus::Processing);
    assert!(manager.process_started(SpawnOutcome::Started).is_empty());
    assert_eq!(manager.send_message(&path(), "second"), Err(ClaudeError::NoActiveSession));
    manager.process_line(&line(HELLO));
    assert_eq!(manager.send_message(&path(), "second"), Err(ClaudeError::NoActiveSession));
    manager.process_line(&line(DONE));
    assert_eq!(manager.send_message(&path(), "second"), Err(ClaudeError::NoActiveSession));
    manager.process_finished();
    assert!(manager.send_message(&path(), "second").is_ok());
}

#[test]
fn scenario_with_a_successful_exchange() {
    let mut manager = manager();
    let id = manager.start_session(None).unwrap();
    assert!(is_uuid(&id));
    let inputs = vec![line(SYSTEM), line(HELLO), line(DONE)];
    let events = manager.run_exchange(&path(), "hi", SpawnOutcome::Started, &inputs).unwrap();
    assert_eq!(events, vec![text_event("hello", &id), marker(&id)]);
    let state = manager.get_state();
    assert_eq!(state.status, SessionStatus::Active);
    assert_eq!(state.session_id, Some(id));
    assert_eq!(state.error, None);
}

#[test]
fn scenario_with_an_error_result() {
    let mut manager = manager();
    let id = manager.start_session(None).unwrap();
    let inputs = vec![line(SYSTEM), line(HELLO), line(BOOM)];
    let events = manager.run_exchange(&path(), "hi", SpawnOutcome::Started, &inputs).unwrap();
    assert_eq!(
        events,
        vec![text_event("hello", &id), ClaudeEvent::Error("boom".to_string()), marker(&id)]
    );
    assert_eq!(manager.get_state().status, SessionStatus::Active);
}

#[test]
fn scenario_without_an_executable() {
    let mut manager = manager();
    manager.start_session(None).unwrap();
    let inputs = vec![line(HELLO)];
    assert_eq!(manager.send_message(&None, "hi"), Err(ClaudeError::CliNotFound));
    assert_eq!(manager.get_state().status, SessionStatus::Active);
    assert_eq!(
        manager.run_exchange(&None, "hi", SpawnOutcome::Started, &inputs),
        Err(ClaudeError::CliNotFound)
    );
    assert_eq!(manager.get_state().status, SessionStatus::Active);
}

#[test]
fn exchange_step_by_step() {
    let mut manager = manager();
    manager.start_session(Some("sid".to_string())).unwrap();
    manager.send_message(&path(), "hi").unwrap();
    assert_eq!(manager.process_started(SpawnOutcome::Started), vec![]);
    let read = manager.process_line(&line(SYSTEM));
    assert_eq!(read.events, vec![]);
    assert!(!read.stop);
    let read = manager.process_line(&line(HELLO));
    assert_eq!(read.events, vec![text_event("hello", "sid")]);
    assert!(!read.stop);
    let read = manager.process_line(&line("{"));
    assert_eq!(read.events, vec![]);
    assert!(read.diagnostic.is_some());
    assert!(!read.stop);
    let read = manager.process_line(&line(DONE));
    assert_eq!(read.events, vec![]);
    assert!(read.stop);
    assert_eq!(manager.get_state().status, SessionStatus::Processing);
    let read = manager.process_line(&line(HELLO));
    assert_eq!(read.events, vec![]);
    assert!(read.stop);
    assert_eq!(manager.process_finished(), vec![marker("sid")]);
    assert_eq!(manager.get_state().status, SessionStatus::Active);
    assert_eq!(manager.process_finished(), vec![]);
}

#[test]
fn exchange_that_ends_without_a_result_line() {
    let mut manager = manager();
    manager.start_session(Some("sid".to_string())).unwrap();
    let inputs = vec![line(HELLO), line(HELLO)];
    let events = manager.run_exchange(&path(), "hi", SpawnOutcome::Started, &inputs).unwrap();
    assert_eq!(events, vec![text_event("hello", "sid"), text_event("hello", "sid"), marker("sid")]);
    assert_eq!(manager.get_state().status, SessionStatus::Active);
}

#[test]
fn failed_read_is_published_as_an_error() {
    let mut manager = manager();
    manager.start_session(Some("sid".to_string())).unwrap();
    let inputs = vec![line(HELLO), LineInput::ReadError("cut".to_string()), line(HELLO)];
    let events = manager.run_exchange(&path(), "hi", SpawnOutcome::Started, &inputs).unwrap();
    assert_eq!(
        events,
        vec![
            text_event("hello", "sid"),
            ClaudeEvent::Error("Read error: cut".to_string()),
            marker("sid"),
        ]
    );
    assert_eq!(manager.get_state().status, SessionStatus::Active);
}

#[test]
fn spawn_failure_leaves_the_session_in_error() {
    let mut manager = manager();
    manager.start_session(Some("sid".to_string())).unwrap();
    let events = manager
        .run_exchange(&path(), "hi", SpawnOutcome::Failed("denied".to_string()), &vec![line(HELLO)])
        .unwrap();
    assert_eq!(
        events,
        vec![
            ClaudeEvent::Error("Failed to spawn agent process: denied".to_string()),
            marker("sid"),
        ]
    );
    let state = manager.get_state();
    assert_eq!(state.status, SessionStatus::Error);
    assert_eq!(state.error, Some("Failed to spawn agent process: denied".to_string()));
    assert_eq!(state.session_id, Some("sid".to_string()));
    assert_eq!(manager.send_message(&path(), "again"), Err(ClaudeError::NoActiveSession));
    assert!(manager.start_session(None).is_err());
    assert!(!manager.stop_session());
    assert_eq!(manager.get_state().status, SessionStatus::Inactive);
    assert!(manager.start_session(None).is_ok());
}

#[test]
fn missing_stdout_leaves_the_session_in_error() {
    let mut manager = manager();
    manager.start_session(Some("sid".to_string())).unwrap();
    manager.send_message(&path(), "hi").unwrap();
    let events = manager.process_started(SpawnOutcome::NoStdout);
    assert_eq!(
        events,
        vec![ClaudeEvent::Error("PTY error: Failed to capture stdout".to_string()), marker("sid")]
    );
    assert_eq!(manager.get_state().status, SessionStatus::Error);
}

#[test]
fn reports_out_of_turn_change_nothing() {
    let mut manager = manager();
    assert_eq!(manager.process_started(SpawnOutcome::Started), vec![]);
    let read = manager.process_line(&line(HELLO));
    assert_eq!(read.events, vec![]);
    assert!(read.stop);
    assert_eq!(manager.process_finished(), vec![]);
    assert_eq!(manager.get_state().status, SessionStatus::Inactive);
    manager.start_session(Some("s".to_string())).unwrap();
    assert_eq!(manager.process_started(SpawnOutcome::Failed("x".to_string())), vec![]);
    assert_eq!(manager.get_state().status, SessionStatus::Active);
}

#[test]
fn stop_from_every_status_gives_inactive() {
    let mut manager = manager();
    assert!(!manager.stop_session());
    assert_eq!(manager.get_state().status, SessionStatus::Inactive);

    manager.start_session(None).unwrap();
    assert!(!manager.stop_session());
    let state = manager.get_state();
    assert_eq!(state.status, SessionStatus::Inactive);
    assert_eq!(state.session_id, None);

    manager.start_session(None).unwrap();
    manager.send_message(&path(), "hi").unwrap();
    assert!(!manager.stop_session());
    assert_eq!(manager.get_state().status, SessionStatus::Inactive);

    manager.start_session(None).unwrap();
    manager.send_message(&path(), "hi").unwrap();
    manager.process_started(SpawnOutcome::Started);
    manager.process_line(&line(HELLO));
    assert!(manager.stop_session());
    let state = manager.get_state();
    assert_eq!(state.status, SessionStatus::Inactive);
    assert_eq!(state.session_id, None);
    assert_eq!(state.error, None);
    assert!(!manager.stop_session());
    let read = manager.process_line(&line(HELLO));
    assert_eq!(read.events, vec![]);
    assert!(read.stop);
}

#[test]
fn availability_follows_the_resolved_path() {
    let manager = manager();
    assert!(manager.is_cli_available(&path()));
    assert!(!manager.is_cli_available(&None));
}

#[test]
fn authentication_follows_traces_or_version_check() {
    let manager = manager();
    let none = AuthProbe { settings_file: false, history_file: false, projects_dir: false };
    let full = AuthProbe { settings_file: true, history_file: false, projects_dir: true };
    assert!(!manager.is_authenticated(&none, false));
    assert!(manager.is_authenticated(&none, true));
    assert!(manager.is_authenticated(&full, false));
}

#[test]
fn status_report_holds_what_it_was_given() {
    let mut manager = manager();
    manager.start_session(Some("s".to_string())).unwrap();
    let report = claude_check_status(&manager, &path(), false);
    assert!(report.cli_available);
    assert!(!report.authenticated);
    assert_eq!(report.session_state.status, SessionStatus::Active);
    assert_eq!(report.session_state.session_id, Some("s".to_string()));
    let report = claude_check_status(&manager, &None, true);
    assert!(!report.cli_available);
    assert!(report.authenticated);
}

#[test]
fn boundary_start_needs_the_cli() {
    let mut manager = manager();
    assert_eq!(
        claude_start_session(&mut manager, &None, None),
        Err("Agent CLI not found. Please install the agent CLI.".to_string())
    );
    assert_eq!(claude_get_session_state(&manager).status, SessionStatus::Inactive);
    assert_eq!(
        claude_start_session(&mut manager, &path(), Some("r".to_string())),
        Ok("r".to_string())
    );
    assert_eq!(
        claude_start_session(&mut manager, &path(), None),
        Err("Session already exists: A session is already active".to_string())
    );
}

#[test]
fn boundary_send_renders_refusals() {
    let mut manager = manager();
    assert_eq!(
        claude_send_message(&mut manager, &path(), "hi"),
        Err("No active session".to_string())
    );
    claude_start_session(&mut manager, &path(), Some("r".to_string())).unwrap();
    assert_eq!(
        claude_send_message(&mut manager, &None, "hi"),
        Err("Agent CLI not found. Please install the agent CLI.".to_string())
    );
    let invocation = claude_send_message(&mut manager, &path(), "hi").unwrap();
    assert_eq!(invocation.args.last(), Some(&"hi".to_string()));
    assert_eq!(claude_get_session_state(&manager).status, SessionStatus::Processing);
    assert!(!claude_stop_session(&mut manager));
    assert_eq!(claude_get_session_state(&manager).status, SessionStatus::Inactive);
}

#[test]
fn boundary_lists_conversations_latest_first() {
    let manager = manager();
    let dirs = vec![
        ConversationDir {
            name: "old".to_string(),
            messages: None,
            created_at: Timestamp { secs: 1, nanos: 0 },
            updated_at: Timestamp { secs: 10, nanos: 0 },
        },
        ConversationDir {
            name: "new".to_string(),
            messages: None,
            created_at: Timestamp { secs: 2, nanos: 0 },
            updated_at: Timestamp { secs: 20, nanos: 0 },
        },
    ];
    let list = claude_list_conversations(&manager, &dirs);
    assert_eq!(list.len(), 2);
    assert_eq!(list[0].id, "new");
    assert_eq!(list[1].id, "old");
    assert_eq!(manager.get_conversation(&None), None);
    assert_eq!(manager.list_conversations(&dirs)[0].id, "new");
}

#[test]
fn closed_output_stops_the_reading() {
    let mut manager = manager();
    manager.start_session(Some("sid".to_string())).unwrap();
    manager.send_message(&path(), "hi").unwrap();
    manager.process_started(SpawnOutcome::Started);
    manager.process_line(&line(HELLO));
    manager.output_closed();
    let read = manager.process_line(&line(HELLO));
    assert_eq!(read.events, vec![]);
    assert!(read.stop);
    assert_eq!(manager.get_state().status, SessionStatus::Processing);
    assert_eq!(manager.process_finished(), vec![marker("sid")]);
    assert_eq!(manager.get_state().status, SessionStatus::Active);
    manager.output_closed();
    assert_eq!(manager.get_state().status, SessionStatus::Active);
}
