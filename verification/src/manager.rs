//! The orchestrator: one session at a time, one exchange at a time.
//!
//! [`ClaudeManager`] keeps the status of the session and admits a message
//! only while the session is `Active`. For an admitted message it hands out
//! the command line, takes what the caller learns of the process (how its
//! start went, each line it printed, its end) and says which events to
//! publish. Starting the process, reading it and publishing are left to the
//! caller.

use vstd::prelude::*;
use vstd::string::StringExecFns;
use crate::error::error_text;
use crate::error::ClaudeError;
use crate::error::ClaudeErrorView;
use crate::pty::after_line;
use crate::pty::after_lines;
use crate::pty::after_started;
use crate::pty::cleared;
use crate::pty::inputs_view;
use crate::pty::invocation_of;
use crate::pty::invocation_result_view;
use crate::pty::items_of_lines;
use crate::pty::lemma_lines_concat;
use crate::pty::lemma_lines_keep_config;
use crate::pty::lemma_stopped_stays;
use crate::pty::line_item;
use crate::pty::streaming;
use crate::pty::ClaudeProcess;
use crate::pty::Invocation;
use crate::pty::InvocationView;
use crate::pty::LineInput;
use crate::pty::LineInputView;
use crate::pty::ProcessConfig;
use crate::pty::ProcessConfigView;
use crate::pty::ProcessPhase;
use crate::pty::ProcessView;
use crate::pty::SpawnOutcome;
use crate::pty::SpawnOutcomeView;
use crate::pty::StreamItem;
use crate::pty::StreamItemView;
use crate::sessions::config_dir;
use crate::sessions::conversation_of;
use crate::sessions::conversations_of;
use crate::sessions::dirs_view;
use crate::sessions::info_view;
use crate::sessions::infos_view;
use crate::sessions::is_latest_first;
use crate::sessions::latest_first;
use crate::sessions::project_key;
use crate::sessions::shows_login;
use crate::sessions::AuthProbe;
use crate::sessions::ConversationDir;
use crate::sessions::ConversationInfo;
use crate::sessions::SessionManager;
use crate::sessions::SessionManagerView;
use crate::stream::LineDiagnostic;

verus! {

/// One piece of output of the agent, as it is published.
#[derive(Debug, PartialEq, Eq)]
pub struct ClaudeOutput {
    pub content: String,
    /// Set on the marker that closes an exchange, whose content is empty.
    pub is_complete: bool,
    pub session_id: String,
}

pub struct ClaudeOutputView {
    pub content: Seq<char>,
    pub is_complete: bool,
    pub session_id: Seq<char>,
}

impl View for ClaudeOutput {
    type V = ClaudeOutputView;

    open spec fn view(&self) -> ClaudeOutputView {
        ClaudeOutputView {
            content: self.content@,
            is_complete: self.is_complete,
            session_id: self.session_id@,
        }
    }
}

/// What is published on the channel: output, or the message of a failure.
#[derive(Debug, PartialEq, Eq)]
pub enum ClaudeEvent {
    Output(ClaudeOutput),
    Error(String),
}

pub enum ClaudeEventView {
    Output(ClaudeOutputView),
    Error(Seq<char>),
}

impl View for ClaudeEvent {
    type V = ClaudeEventView;

    open spec fn view(&self) -> ClaudeEventView {
        match self {
            ClaudeEvent::Output(output) => ClaudeEventView::Output(output@),
            ClaudeEvent::Error(message) => ClaudeEventView::Error(message@),
        }
    }
}

/// Events by their views.
pub open spec fn events_view(events: Seq<ClaudeEvent>) -> Seq<ClaudeEventView> {
    Seq::new(events.len(), |i: int| events[i]@)
}

/// The status of the session.
#[derive(Debug, Clone, Copy, PartialEq, Eq, Structural)]
pub enum SessionStatus {
    Inactive,
    Starting,
    Active,
    Processing,
    Stopping,
    Error,
}

/// The session as its owner sees it.
#[derive(Debug, PartialEq, Eq)]
pub struct SessionState {
    pub status: SessionStatus,
    pub session_id: Option<String>,
    pub error: Option<String>,
}

pub struct SessionStateView {
    pub status: SessionStatus,
    pub session_id: Option<Seq<char>>,
    pub error: Option<Seq<char>>,
}

impl View for SessionState {
    type V = SessionStateView;

    open spec fn view(&self) -> SessionStateView {
        SessionStateView {
            status: self.status,
            session_id: self.session_id.deep_view(),
            error: self.error.deep_view(),
        }
    }
}

/// What the owner is told of the installation and of the session.
#[derive(Debug, PartialEq, Eq)]
pub struct StatusReport {
    pub cli_available: bool,
    pub authenticated: bool,
    pub session_state: SessionState,
}

/// The system prompt of a manager that was given no other.
pub open spec fn default_system_prompt() -> Seq<char> {
    "You are an assistant for the Personal Assistant app. You have access to MCP tools to manage tasks, projects, and time entries. Use list_tasks, create_task, list_projects, and other tools to help the user. Be concise and helpful."@
}

/// The orchestrator of one session.
pub struct ClaudeManager {
    process: ClaudeProcess,
    session_manager: SessionManager,
    current_session_id: Option<String>,
    status: SessionStatus,
    last_error: Option<String>,
    working_dir: String,
    mcp_config_path: Option<String>,
    system_prompt: Option<String>,
}

pub struct ManagerView {
    pub status: SessionStatus,
    pub session_id: Option<Seq<char>>,
    /// The message of the failure that put the session in `Error`.
    pub error: Option<Seq<char>>,
    /// How the process of the next exchange is configured.
    pub config: ProcessConfigView,
    /// The supervisor of the process of the exchange under way.
    pub process: ProcessView,
    pub sessions: SessionManagerView,
}

impl View for ClaudeManager {
    type V = ManagerView;

    closed spec fn view(&self) -> ManagerView {
        ManagerView {
            status: self.status,
            session_id: self.current_session_id.deep_view(),
            error: self.last_error.deep_view(),
            config: ProcessConfigView {
                working_dir: self.working_dir@,
                mcp_config_path: self.mcp_config_path.deep_view(),
                system_prompt: self.system_prompt.deep_view(),
            },
            process: self.process@,
            sessions: self.session_manager@,
        }
    }
}

// ---------------------------------------------------------------------
// The transitions
// ---------------------------------------------------------------------

/// The manager as [`ClaudeManager::new`] makes it.
pub open spec fn initial_manager(
    working_dir: Seq<char>,
    home: Option<Seq<char>>,
    dir_name: Seq<char>,
) -> ManagerView {
    let config = ProcessConfigView {
        working_dir,
        mcp_config_path: None,
        system_prompt: Some(default_system_prompt()),
    };
    ManagerView {
        status: SessionStatus::Inactive,
        session_id: None,
        error: None,
        config,
        process: ProcessView { config, phase: ProcessPhase::Idle, session_id: None },
        sessions: SessionManagerView {
            claude_dir: config_dir(home, dir_name),
            project_hash: Some(project_key(working_dir)),
        },
    }
}

/// The name under which the events of the session are published.
pub open spec fn session_tag(m: ManagerView) -> Seq<char> {
    match m.session_id {
        Some(id) => id,
        None => "unknown"@,
    }
}

/// The marker that closes an exchange.
pub open spec fn completion_marker(tag: Seq<char>) -> ClaudeEventView {
    ClaudeEventView::Output(
        ClaudeOutputView { content: Seq::empty(), is_complete: true, session_id: tag },
    )
}

/// The event that publishes an item of the stream.
pub open spec fn item_event(tag: Seq<char>, item: StreamItemView) -> ClaudeEventView {
    match item {
        StreamItemView::Text(text) => ClaudeEventView::Output(
            ClaudeOutputView { content: text, is_complete: false, session_id: tag },
        ),
        StreamItemView::Error(message) => ClaudeEventView::Error(message),
    }
}

/// The events that publish the items of the stream, in their order.
pub open spec fn item_events(tag: Seq<char>, items: Seq<StreamItemView>) -> Seq<ClaudeEventView> {
    Seq::new(items.len(), |i: int| item_event(tag, items[i]))
}

/// What starting a session gives: a refusal unless the manager is
/// `Inactive`, and else the identifier.
pub open spec fn start_result(m: ManagerView, id: Seq<char>) -> Result<Seq<char>, ClaudeErrorView> {
    if m.status is Inactive {
        Ok(id)
    } else {
        Err(ClaudeErrorView::SessionAlreadyExists("A session is already active"@))
    }
}

/// The manager after a session was started under `id`.
pub open spec fn after_start(m: ManagerView, id: Seq<char>) -> ManagerView {
    if m.status is Inactive {
        ManagerView {
            status: SessionStatus::Active,
            session_id: Some(id),
            error: None,
            config: m.config,
            process: m.process,
            sessions: m.sessions,
        }
    } else {
        m
    }
}

/// What sending a message gives: `NoActiveSession` unless the session is
/// `Active`, `CliNotFound` without an executable, and else the command line
/// of the exchange, which resumes the conversation of the session.
pub open spec fn admit_result(
    m: ManagerView,
    cli_path: Option<Seq<char>>,
    message: Seq<char>,
) -> Result<InvocationView, ClaudeErrorView> {
    if !(m.status is Active) {
        Err(ClaudeErrorView::NoActiveSession)
    } else if cli_path is None {
        Err(ClaudeErrorView::CliNotFound)
    } else {
        Ok(invocation_of(m.config, cli_path->Some_0, message, m.session_id))
    }
}

/// The manager after a message was sent: `Processing` where the message was
/// admitted, and as before where it was not.
pub open spec fn after_admit(m: ManagerView, cli_path: Option<Seq<char>>) -> ManagerView {
    if m.status is Active && cli_path is Some {
        ManagerView {
            status: SessionStatus::Processing,
            session_id: m.session_id,
            error: m.error,
            config: m.config,
            process: ProcessView {
                config: m.config,
                phase: ProcessPhase::Launching,
                session_id: None,
            },
            sessions: m.sessions,
        }
    } else {
        m
    }
}

/// The failure that an attempt to start the process amounts to, if any.
pub open spec fn spawn_failure(outcome: SpawnOutcomeView) -> Option<ClaudeErrorView> {
    match outcome {
        SpawnOutcomeView::Started => None,
        SpawnOutcomeView::Failed(message) => Some(ClaudeErrorView::SpawnFailed(message)),
        SpawnOutcomeView::NoStdout => Some(ClaudeErrorView::PtyError("Failed to capture stdout"@)),
    }
}

/// Whether the manager waits to hear how the start of the process went.
pub open spec fn awaits_start(m: ManagerView) -> bool {
    m.status is Processing && m.process.phase is Launching
}

/// The manager after it heard how the start of the process went. A start
/// that failed leaves the session in `Error`, with the message of the failure.
pub open spec fn after_spawn(m: ManagerView, outcome: SpawnOutcomeView) -> ManagerView {
    if awaits_start(m) {
        match spawn_failure(outcome) {
            None => ManagerView {
                status: m.status,
                session_id: m.session_id,
                error: m.error,
                config: m.config,
                process: after_started(m.process, outcome),
                sessions: m.sessions,
            },
            Some(e) => ManagerView {
                status: SessionStatus::Error,
                session_id: m.session_id,
                error: Some(error_text(e)),
                config: m.config,
                process: after_started(m.process, outcome),
                sessions: m.sessions,
            },
        }
    } else {
        m
    }
}

/// What is published when the manager hears how the start went: nothing
/// for a process that runs, and for a start that failed the failure and
/// then the marker that closes the exchange.
pub open spec fn spawn_events(m: ManagerView, outcome: SpawnOutcomeView) -> Seq<ClaudeEventView> {
    if awaits_start(m) {
        match spawn_failure(outcome) {
            None => seq![],
            Some(e) => seq![
                ClaudeEventView::Error(error_text(e)),
                completion_marker(session_tag(m)),
            ],
        }
    } else {
        seq![]
    }
}

/// The manager after one read of the output of the process.
pub open spec fn after_input(m: ManagerView, input: LineInputView) -> ManagerView {
    if m.status is Processing {
        ManagerView {
            status: m.status,
            session_id: m.session_id,
            error: m.error,
            config: m.config,
            process: after_line(m.process, input),
            sessions: m.sessions,
        }
    } else {
        m
    }
}

/// What is published for one read of the output of the process.
pub open spec fn input_events(m: ManagerView, input: LineInputView) -> Seq<ClaudeEventView> {
    if m.status is Processing {
        match line_item(m.process, input) {
            Some(item) => seq![item_event(session_tag(m), item)],
            None => seq![],
        }
    } else {
        seq![]
    }
}

/// Whether reading stops after this read.
pub open spec fn input_stops(m: ManagerView, input: LineInputView) -> bool {
    !(after_input(m, input).status is Processing && after_input(m, input).process.phase
        is Streaming)
}

/// The manager after nobody takes the output any more: the reading stops.
pub open spec fn after_output_closed(m: ManagerView) -> ManagerView {
    if m.status is Processing && m.process.phase is Streaming {
        ManagerView {
            status: m.status,
            session_id: m.session_id,
            error: m.error,
            config: m.config,
            process: ProcessView {
                config: m.process.config,
                phase: ProcessPhase::Draining,
                session_id: m.process.session_id,
            },
            sessions: m.sessions,
        }
    } else {
        m
    }
}

/// The manager after the process has ended: back to `Active`.
pub open spec fn after_finish(m: ManagerView) -> ManagerView {
    if m.status is Processing {
        ManagerView {
            status: SessionStatus::Active,
            session_id: m.session_id,
            error: m.error,
            config: m.config,
            process: cleared(m.process),
            sessions: m.sessions,
        }
    } else {
        m
    }
}

/// What is published when the process has ended: the marker that closes
/// the exchange.
pub open spec fn finish_events(m: ManagerView) -> Seq<ClaudeEventView> {
    if m.status is Processing {
        seq![completion_marker(session_tag(m))]
    } else {
        seq![]
    }
}

/// The manager after the session was stopped.
pub open spec fn after_stop(m: ManagerView) -> ManagerView {
    ManagerView {
        status: SessionStatus::Inactive,
        session_id: None,
        error: None,
        config: m.config,
        process: cleared(m.process),
        sessions: m.sessions,
    }
}

// ---------------------------------------------------------------------
// Session identifiers
// ---------------------------------------------------------------------

/// A lower-case hexadecimal digit.
pub open spec fn is_lower_hex(c: char) -> bool {
    let n = c as u32;
    (0x30 <= n <= 0x39) || (0x61 <= n <= 0x66)
}

/// The hyphenated text of a version 4 UUID: 36 characters, hyphens
/// after the 8th, 12th, 16th and 20th digit, lower-case hexadecimal digits
/// elsewhere, and `4` as the 13th digit.
pub open spec fn is_uuid_text(s: Seq<char>) -> bool {
    &&& s.len() == 36
    &&& forall|i: int|
        0 <= i < 36 ==> if i == 8 || i == 13 || i == 18 || i == 23 {
            #[trigger] s[i] == '-'
        } else {
            is_lower_hex(s[i])
        }
    &&& s[14] == '4'
}

/// Calls `uuid::Uuid::new_v4` and `to_string` on what it gives. The
/// identifier is random: the contract states its form, which is the same for
/// every outcome, and nothing of its value. `new_v4` panics where the
/// operating system has no random bytes to give.
#[verifier::external_body]
fn fresh_session_id() -> (r: String)
    ensures
        is_uuid_text(r@),
{
    uuid::Uuid::new_v4().to_string()
}

/// A result by the views of what it holds.
pub open spec fn id_result_view(r: Result<String, ClaudeError>) -> Result<
    Seq<char>,
    ClaudeErrorView,
> {
    match r {
        Ok(id) => Ok(id@),
        Err(e) => Err(e@),
    }
}

/// What the manager asks of its caller after one read.
#[derive(Debug, PartialEq, Eq)]
pub struct ReadOutcome {
    /// What to publish now, in this order.
    pub events: Vec<ClaudeEvent>,
    /// Whether to stop reading.
    pub stop: bool,
    /// Why the line was dropped, if it was.
    pub diagnostic: Option<LineDiagnostic>,
}

impl ClaudeManager {
    /// A manager for the project in `working_dir`, with no session. The
    /// history of the project is looked for under the configuration
    /// directory `dir_name` of the user whose home directory is `home`.
    pub fn new(working_dir: String, home: &Option<String>, dir_name: &str) -> (r: ClaudeManager)
        ensures
            r@ == initial_manager(working_dir@, home.deep_view(), dir_name@),
    {
        let mut session_manager = SessionManager::new(home, dir_name);
        session_manager.set_project_dir(working_dir.as_str());
        let prompt = String::from_str(
            "You are an assistant for the Personal Assistant app. You have access to MCP tools to manage tasks, projects, and time entries. Use list_tasks, create_task, list_projects, and other tools to help the user. Be concise and helpful.",
        );
        let config = ProcessConfig {
            working_dir: working_dir.clone(),
            mcp_config_path: None,
            system_prompt: Some(prompt.clone()),
        };
        ClaudeManager {
            process: ClaudeProcess::new(config),
            session_manager,
            current_session_id: None,
            status: SessionStatus::Inactive,
            last_error: None,
            working_dir,
            mcp_config_path: None,
            system_prompt: Some(prompt),
        }
    }

    /// How the process of an exchange is configured now.
    fn config(&self) -> (r: ProcessConfig)
        ensures
            r@ == self@.config,
    {
        ProcessConfig {
            working_dir: self.working_dir.clone(),
            mcp_config_path: self.mcp_config_path.clone(),
            system_prompt: self.system_prompt.clone(),
        }
    }

    /// The name under which the events of the session are published.
    fn tag(&self) -> (r: String)
        ensures
            r@ == session_tag(self@),
    {
        match &self.current_session_id {
            Some(id) => id.clone(),
            None => String::from_str("unknown"),
        }
    }

    /// The marker that closes an exchange.
    fn marker(&self) -> (r: ClaudeEvent)
        ensures
            r@ == completion_marker(session_tag(self@)),
    {
        ClaudeEvent::Output(
            ClaudeOutput { content: String::new(), is_complete: true, session_id: self.tag() },
        )
    }

    /// Sets the file that configures the tool integration of later exchanges.
    pub fn set_mcp_config(&mut self, path: String)
        ensures
            final(self)@ == (ManagerView {
                config: ProcessConfigView {
                    mcp_config_path: Some(path@),
                    ..old(self)@.config
                },
                ..old(self)@
            }),
    {
        self.mcp_config_path = Some(path);
    }

    /// Sets the system prompt of later exchanges.
    pub fn set_system_prompt(&mut self, prompt: String)
        ensures
            final(self)@ == (ManagerView {
                config: ProcessConfigView { system_prompt: Some(prompt@), ..old(self)@.config },
                ..old(self)@
            }),
    {
        self.system_prompt = Some(prompt);
    }

    /// Whether the agent CLI is installed, given the executable that was
    /// looked for.
    pub fn is_cli_available(&self, resolved: &Option<String>) -> (r: bool)
        ensures
            r == resolved is Some,
    {
        resolved.is_some()
    }

    /// The history index of the project.
    pub fn session_manager(&self) -> (r: &SessionManager)
        ensures
            r@ == self@.sessions,
    {
        &self.session_manager
    }

    /// The session as its owner sees it. This changes nothing.
    pub fn get_state(&self) -> (r: SessionState)
        ensures
            r@ == (SessionStateView {
                status: self@.status,
                session_id: self@.session_id,
                error: self@.error,
            }),
    {
        SessionState {
            status: self.status,
            session_id: self.current_session_id.clone(),
            error: self.last_error.clone(),
        }
    }

    /// Whether a session is under way.
    pub fn is_active(&self) -> (r: bool)
        ensures
            r == (self@.status is Active || self@.status is Processing),
    {
        match self.status {
            SessionStatus::Active => true,
            SessionStatus::Processing => true,
            _ => false,
        }
    }

    /// Starts a session under the identifier `id`. This is refused, with
    /// `SessionAlreadyExists`, unless the manager is `Inactive`.
    pub fn start_session_as(&mut self, id: String) -> (r: Result<String, ClaudeError>)
        ensures
            id_result_view(r) == start_result(old(self)@, id@),
            final(self)@ == after_start(old(self)@, id@),
    {
        match self.status {
            SessionStatus::Inactive => {
                self.current_session_id = Some(id.clone());
                self.last_error = None;
                self.status = SessionStatus::Active;
                Ok(id)
            },
            _ => Err(
                ClaudeError::SessionAlreadyExists(String::from_str("A session is already active")),
            ),
        }
    }

    /// Starts a session: under `resume_id` where one is given, and else
    /// under a fresh identifier. This is refused, with
    /// `SessionAlreadyExists`, unless the manager is `Inactive`; on success
    /// the session is `Active` under the identifier that is returned.
    pub fn start_session(&mut self, resume_id: Option<String>) -> (r: Result<String, ClaudeError>)
        ensures
            r is Ok <==> old(self)@.status is Inactive,
            r matches Ok(id) ==> {
                &&& final(self)@ == after_start(old(self)@, id@)
                &&& match resume_id {
                    Some(given) => id@ == given@,
                    None => is_uuid_text(id@),
                }
            },
            r matches Err(e) ==> {
                &&& e@ == ClaudeErrorView::SessionAlreadyExists("A session is already active"@)
                &&& final(self)@ == old(self)@
            },
    {
        match self.status {
            SessionStatus::Inactive => {},
            _ => {
                return Err(
                    ClaudeError::SessionAlreadyExists(
                        String::from_str("A session is already active"),
                    ),
                );
            },
        }
        let id = match resume_id {
            Some(given) => given,
            None => fresh_session_id(),
        };
        self.start_session_as(id)
    }

    /// Admits a message: gives the command line of its exchange, to be run
    /// through the executable at `cli_path`. This is refused with
    /// `NoActiveSession` unless the session is `Active`, so also while an
    /// earlier message is being processed, and with `CliNotFound` where no
    /// executable was found; a refusal changes nothing. An admitted message
    /// leaves the session `Processing`.
    pub fn send_message(&mut self, cli_path: &Option<String>, message: &str) -> (r: Result<
        Invocation,
        ClaudeError,
    >)
        ensures
            invocation_result_view(r) == admit_result(old(self)@, cli_path.deep_view(), message@),
            final(self)@ == after_admit(old(self)@, cli_path.deep_view()),
    {
        match self.status {
            SessionStatus::Active => {},
            _ => {
                return Err(ClaudeError::NoActiveSession);
            },
        }
        if cli_path.is_none() {
            return Err(ClaudeError::CliNotFound);
        }
        let mut process = ClaudeProcess::new(self.config());
        let prepared = process.prepare(cli_path, message, &self.current_session_id);
        self.process = process;
        self.status = SessionStatus::Processing;
        prepared
    }

    /// Takes the report of how starting the process went, and gives what to
    /// publish. A start that failed ends the exchange: the failure and the
    /// closing marker are published, and the session is left in `Error`.
    pub fn process_started(&mut self, outcome: SpawnOutcome) -> (r: Vec<ClaudeEvent>)
        ensures
            events_view(r@) == spawn_events(old(self)@, outcome@),
            final(self)@ == after_spawn(old(self)@, outcome@),
    {
        let mut events: Vec<ClaudeEvent> = Vec::new();
        let waiting = match self.status {
            SessionStatus::Processing => match self.process.phase() {
                ProcessPhase::Launching => true,
                _ => false,
            },
            _ => false,
        };
        if !waiting {
            assert(events_view(events@) =~= Seq::<ClaudeEventView>::empty());
            return events;
        }
        match self.process.started(outcome) {
            Ok(_) => {
                assert(events_view(events@) =~= Seq::<ClaudeEventView>::empty());
            },
            Err(e) => {
                let marker = self.marker();
                let text = e.message();
                events.push(ClaudeEvent::Error(text.clone()));
                events.push(marker);
                self.last_error = Some(text);
                self.status = SessionStatus::Error;
                assert(events_view(events@) =~= spawn_events(old(self)@, outcome@));
            },
        }
        events
    }

    /// Takes what one read of the output of the process gave, and says what
    /// to publish and whether to stop reading.
    pub fn process_line(&mut self, input: &LineInput) -> (r: ReadOutcome)
        ensures
            events_view(r.events@) == input_events(old(self)@, input@),
            r.stop == input_stops(old(self)@, input@),
            final(self)@ == after_input(old(self)@, input@),
    {
        let mut events: Vec<ClaudeEvent> = Vec::new();
        match self.status {
            SessionStatus::Processing => {},
            _ => {
                assert(events_view(events@) =~= Seq::<ClaudeEventView>::empty());
                return ReadOutcome { events, stop: true, diagnostic: None };
            },
        }
        let step = self.process.read_line(input);
        match step.forward {
            Some(StreamItem::Text(text)) => {
                events.push(
                    ClaudeEvent::Output(
                        ClaudeOutput { content: text, is_complete: false, session_id: self.tag() },
                    ),
                );
            },
            Some(StreamItem::Error(message)) => {
                events.push(ClaudeEvent::Error(message));
            },
            None => {},
        }
        assert(events_view(events@) =~= input_events(old(self)@, input@));
        ReadOutcome { events, stop: step.stop, diagnostic: step.diagnostic }
    }

    /// Stops the reading because nobody takes what is published any more.
    /// The exchange is still to be closed by [`Self::process_finished`].
    pub fn output_closed(&mut self)
        ensures
            final(self)@ == after_output_closed(old(self)@),
    {
        match self.status {
            SessionStatus::Processing => {
                self.process.sink_closed();
            },
            _ => {},
        }
    }

    /// Closes the exchange once the process has ended: gives the closing
    /// marker to publish, and leaves the session `Active` again.
    pub fn process_finished(&mut self) -> (r: Vec<ClaudeEvent>)
        ensures
            events_view(r@) == finish_events(old(self)@),
            final(self)@ == after_finish(old(self)@),
    {
        let mut events: Vec<ClaudeEvent> = Vec::new();
        match self.status {
            SessionStatus::Processing => {
                events.push(self.marker());
                let _ = self.process.finish();
                self.status = SessionStatus::Active;
            },
            _ => {},
        }
        assert(events_view(events@) =~= finish_events(old(self)@));
        events
    }

    /// Stops the session, whatever it was doing: no session is tracked
    /// after, and the manager is `Inactive`. The result says whether a
    /// process is still held by the caller and has to be killed.
    pub fn stop_session(&mut self) -> (r: bool)
        ensures
            r == crate::pty::holds_process(old(self)@.process.phase),
            final(self)@ == after_stop(old(self)@),
    {
        self.status = SessionStatus::Stopping;
        let held = self.process.kill();
        self.current_session_id = None;
        self.last_error = None;
        self.status = SessionStatus::Inactive;
        held
    }
}

// ---------------------------------------------------------------------
// A whole exchange
// ---------------------------------------------------------------------

/// What is published for the exchange of an admitted message: for a
/// process that could not be started, the failure; for one that ran, what
/// its output forwards, in order; and in both cases the closing marker last.
pub open spec fn exchange_events(
    m: ManagerView,
    outcome: SpawnOutcomeView,
    inputs: Seq<LineInputView>,
) -> Seq<ClaudeEventView> {
    match spawn_failure(outcome) {
        Some(e) => seq![ClaudeEventView::Error(error_text(e)), completion_marker(session_tag(m))],
        None => item_events(session_tag(m), items_of_lines(streaming(m.process), inputs)) + seq![
            completion_marker(session_tag(m)),
        ],
    }
}

/// The manager after the exchange of an admitted message: `Active` again,
/// unless the process could not be started, which leaves it in `Error`.
pub open spec fn after_exchange(m: ManagerView, outcome: SpawnOutcomeView) -> ManagerView {
    ManagerView {
        status: if spawn_failure(outcome) is None {
            SessionStatus::Active
        } else {
            SessionStatus::Error
        },
        session_id: m.session_id,
        error: match spawn_failure(outcome) {
            Some(e) => Some(error_text(e)),
            None => m.error,
        },
        config: m.config,
        process: cleared(m.process),
        sessions: m.sessions,
    }
}

/// A result by the views of what it holds.
pub open spec fn events_result_view(r: Result<Vec<ClaudeEvent>, ClaudeError>) -> Result<
    Seq<ClaudeEventView>,
    ClaudeErrorView,
> {
    match r {
        Ok(events) => Ok(events_view(events@)),
        Err(e) => Err(e@),
    }
}

/// Moves the events of `more` to the end of `events`.
fn append_events(events: &mut Vec<ClaudeEvent>, more: Vec<ClaudeEvent>)
    ensures
        events_view(final(events)@) == events_view(old(events)@) + events_view(more@),
{
    let mut more = more;
    let ghost added = events_view(more@);
    events.append(&mut more);
    assert(events_view(events@) =~= events_view(old(events)@) + added);
}

impl ClaudeManager {
    /// Runs one whole exchange over what has already happened outside: the
    /// executable that was found, how starting it went, and what reading its
    /// output gave. A message that is not admitted changes nothing and
    /// publishes nothing; for an admitted one the events to publish come
    /// back in order, the closing marker last.
    pub fn run_exchange(
        &mut self,
        cli_path: &Option<String>,
        message: &str,
        outcome: SpawnOutcome,
        inputs: &Vec<LineInput>,
    ) -> (r: Result<Vec<ClaudeEvent>, ClaudeError>)
        ensures
            match admit_result(old(self)@, cli_path.deep_view(), message@) {
                Err(e) => events_result_view(r) == Err::<Seq<ClaudeEventView>, ClaudeErrorView>(e)
                    && final(self)@ == old(self)@,
                Ok(_) => {
                    let admitted = after_admit(old(self)@, cli_path.deep_view());
                    &&& events_result_view(r) == Ok::<Seq<ClaudeEventView>, ClaudeErrorView>(
                        exchange_events(admitted, outcome@, inputs_view(inputs@)),
                    )
                    &&& final(self)@ == after_exchange(admitted, outcome@)
                },
            },
    {
        match self.send_message(cli_path, message) {
            Err(e) => {
                return Err(e);
            },
            Ok(_) => {},
        }
        let ghost admitted = self@;
        let ghost tag = session_tag(admitted);
        let mut events = self.process_started(outcome);
        match self.status {
            SessionStatus::Processing => {},
            _ => {
                return Ok(events);
            },
        }
        let ghost start = self@;
        let ghost all = inputs_view(inputs@);
        let mut i: usize = 0;
        let mut stop = false;
        proof {
            assert(all.take(0) =~= Seq::<LineInputView>::empty());
            assert(events_view(events@) =~= item_events(
                tag,
                items_of_lines(start.process, all.take(0)),
            ));
        }
        while i < inputs.len() && !stop
            invariant
                i <= inputs.len(),
                all == inputs_view(inputs@),
                start.status is Processing,
                tag == session_tag(start),
                self@ == (ManagerView {
                    process: after_lines(start.process, all.take(i as int)),
                    ..start
                }),
                events_view(events@) == item_events(
                    tag,
                    items_of_lines(start.process, all.take(i as int)),
                ),
                stop == !(self@.process.phase is Streaming),
            decreases inputs.len() - i,
        {
            let ghost early = items_of_lines(start.process, all.take(i as int));
            proof {
                assert(all.take(i as int + 1).drop_last() =~= all.take(i as int));
                assert(all.take(i as int + 1).last() == inputs@[i as int]@);
            }
            let outcome_of_line = self.process_line(&inputs[i]);
            stop = outcome_of_line.stop;
            append_events(&mut events, outcome_of_line.events);
            proof {
                let now = items_of_lines(start.process, all.take(i as int + 1));
                assert(events_view(events@) =~= item_events(tag, now));
            }
            i += 1;
        }
        proof {
            let head = all.take(i as int);
            let tail = all.skip(i as int);
            assert(head + tail =~= all);
            lemma_lines_concat(start.process, head, tail);
            if i < inputs.len() {
                lemma_stopped_stays(self@.process, tail);
            } else {
                assert(tail =~= Seq::<LineInputView>::empty());
            }
            assert(items_of_lines(start.process, head) + Seq::<StreamItemView>::empty()
                =~= items_of_lines(start.process, head));
            lemma_lines_keep_config(start.process, all);
        }
        let closing = self.process_finished();
        append_events(&mut events, closing);
        Ok(events)
    }
}

impl ClaudeManager {
    /// Whether somebody has logged in with the CLI; see
    /// [`SessionManager::is_authenticated`].
    pub fn is_authenticated(&self, probe: &AuthProbe, version_check_passed: bool) -> (r: bool)
        ensures
            r == (shows_login(*probe) || version_check_passed),
    {
        self.session_manager.is_authenticated(probe, version_check_passed)
    }

    /// The conversations of the project, latest first; see
    /// [`SessionManager::list_conversations`].
    pub fn list_conversations(&self, dirs: &Vec<ConversationDir>) -> (r: Vec<ConversationInfo>)
        ensures
            infos_view(r@) == (if self@.sessions.project_hash is Some {
                latest_first(conversations_of(dirs_view(dirs@)))
            } else {
                Seq::empty()
            }),
            is_latest_first(infos_view(r@)),
    {
        self.session_manager.list_conversations(dirs)
    }

    /// One conversation of the project; see
    /// [`SessionManager::get_conversation`].
    pub fn get_conversation(&self, found: &Option<ConversationDir>) -> (r: Option<ConversationInfo>)
        ensures
            info_view(r) == (match found {
                Some(dir) if self@.sessions.project_hash is Some => Some(conversation_of(dir@)),
                _ => None,
            }),
    {
        self.session_manager.get_conversation(found)
    }
}

// ---------------------------------------------------------------------
// The interface to the surrounding application
// ---------------------------------------------------------------------

/// A result by the views of what it holds.
pub open spec fn invocation_or_text_view(r: Result<Invocation, String>) -> Result<
    InvocationView,
    Seq<char>,
> {
    match r {
        Ok(invocation) => Ok(invocation@),
        Err(message) => Err(message@),
    }
}

/// Reports on the installation and on the session.
pub fn claude_check_status(manager: &ClaudeManager, resolved: &Option<String>, authenticated: bool) -> (r:
    StatusReport)
    ensures
        r.cli_available == resolved is Some,
        r.authenticated == authenticated,
        r.session_state@ == (SessionStateView {
            status: manager@.status,
            session_id: manager@.session_id,
            error: manager@.error,
        }),
{
    StatusReport {
        cli_available: manager.is_cli_available(resolved),
        authenticated,
        session_state: manager.get_state(),
    }
}

/// Starts a session for the surrounding application, which is told of a
/// failure in words. Without an executable nothing is started.
pub fn claude_start_session(
    manager: &mut ClaudeManager,
    resolved: &Option<String>,
    resume_id: Option<String>,
) -> (r: Result<String, String>)
    ensures
        r is Ok <==> (resolved is Some && old(manager)@.status is Inactive),
        r matches Ok(id) ==> {
            &&& final(manager)@ == after_start(old(manager)@, id@)
            &&& match resume_id {
                Some(given) => id@ == given@,
                None => is_uuid_text(id@),
            }
        },
        r matches Err(message) ==> {
            &&& final(manager)@ == old(manager)@
            &&& message@ == (if resolved is None {
                error_text(ClaudeErrorView::CliNotFound)
            } else {
                error_text(ClaudeErrorView::SessionAlreadyExists("A session is already active"@))
            })
        },
{
    if !manager.is_cli_available(resolved) {
        return Err(ClaudeError::CliNotFound.message());
    }
    match manager.start_session(resume_id) {
        Ok(id) => Ok(id),
        Err(e) => Err(e.message()),
    }
}

/// Admits a message for the surrounding application, which is told of a
/// refusal in words.
pub fn claude_send_message(manager: &mut ClaudeManager, cli_path: &Option<String>, message: &str) -> (r:
    Result<Invocation, String>)
    ensures
        invocation_or_text_view(r) == (match admit_result(
            old(manager)@,
            cli_path.deep_view(),
            message@,
        ) {
            Ok(invocation) => Ok::<InvocationView, Seq<char>>(invocation),
            Err(e) => Err::<InvocationView, Seq<char>>(error_text(e)),
        }),
        final(manager)@ == after_admit(old(manager)@, cli_path.deep_view()),
{
    match manager.send_message(cli_path, message) {
        Ok(invocation) => Ok(invocation),
        Err(e) => Err(e.message()),
    }
}

/// Stops the session for the surrounding application; the result says
/// whether a process has to be killed.
pub fn claude_stop_session(manager: &mut ClaudeManager) -> (r: bool)
    ensures
        r == crate::pty::holds_process(old(manager)@.process.phase),
        final(manager)@ == after_stop(old(manager)@),
{
    manager.stop_session()
}

/// Lists the conversations of the project for the surrounding application.
pub fn claude_list_conversations(manager: &ClaudeManager, dirs: &Vec<ConversationDir>) -> (r: Vec<
    ConversationInfo,
>)
    ensures
        infos_view(r@) == (if manager@.sessions.project_hash is Some {
            latest_first(conversations_of(dirs_view(dirs@)))
        } else {
            Seq::empty()
        }),
        is_latest_first(infos_view(r@)),
{
    manager.list_conversations(dirs)
}

/// The session as the surrounding application sees it.
pub fn claude_get_session_state(manager: &ClaudeManager) -> (r: SessionState)
    ensures
        r@ == (SessionStateView {
            status: manager@.status,
            session_id: manager@.session_id,
            error: manager@.error,
        }),
{
    manager.get_state()
}

// ---------------------------------------------------------------------
// What holds of every session
// ---------------------------------------------------------------------

/// The manager after the reads of the output of the process, in order.
pub open spec fn after_inputs(m: ManagerView, inputs: Seq<LineInputView>) -> ManagerView
    decreases inputs.len(),
{
    if inputs.len() == 0 {
        m
    } else {
        after_input(after_inputs(m, inputs.drop_last()), inputs.last())
    }
}

/// What is published for the reads of the output of the process, in order.
pub open spec fn events_of_inputs(m: ManagerView, inputs: Seq<LineInputView>) -> Seq<
    ClaudeEventView,
>
    decreases inputs.len(),
{
    if inputs.len() == 0 {
        seq![]
    } else {
        let before = inputs.drop_last();
        events_of_inputs(m, before) + input_events(after_inputs(m, before), inputs.last())
    }
}

/// Reading the output changes only the supervisor of the process: the
/// status, the session and the configuration stay.
pub proof fn lemma_inputs_keep_session(m: ManagerView, inputs: Seq<LineInputView>)
    ensures
        after_inputs(m, inputs).status == m.status,
        after_inputs(m, inputs).session_id == m.session_id,
        after_inputs(m, inputs).error == m.error,
        after_inputs(m, inputs).config == m.config,
        after_inputs(m, inputs).sessions == m.sessions,
        m.status is Processing ==> after_inputs(m, inputs).process == after_lines(
            m.process,
            inputs,
        ),
        m.status is Processing ==> events_of_inputs(m, inputs) == item_events(
            session_tag(m),
            items_of_lines(m.process, inputs),
        ),
    decreases inputs.len(),
{
    if inputs.len() > 0 {
        lemma_inputs_keep_session(m, inputs.drop_last());
        if m.status is Processing {
            assert(events_of_inputs(m, inputs) =~= item_events(
                session_tag(m),
                items_of_lines(m.process, inputs),
            ));
        }
    } else {
        if m.status is Processing {
            assert(events_of_inputs(m, inputs) =~= item_events(
                session_tag(m),
                items_of_lines(m.process, inputs),
            ));
        }
    }
}

/// A message sent before a session was started is refused with
/// `NoActiveSession`: so it is in every status but `Active`, and a manager
/// that was just made is `Inactive`. The refusal changes nothing.
pub proof fn law_send_needs_a_session(
    m: ManagerView,
    cli_path: Option<Seq<char>>,
    message: Seq<char>,
)
    requires
        !(m.status is Active),
    ensures
        admit_result(m, cli_path, message) == Err::<InvocationView, ClaudeErrorView>(
            ClaudeErrorView::NoActiveSession,
        ),
        after_admit(m, cli_path) == m,
{
}

/// A manager that was just made has no session: a message sent to it is
/// refused with `NoActiveSession`.
pub proof fn law_send_before_start(
    working_dir: Seq<char>,
    home: Option<Seq<char>>,
    dir_name: Seq<char>,
    cli_path: Option<Seq<char>>,
    message: Seq<char>,
)
    ensures
        admit_result(initial_manager(working_dir, home, dir_name), cli_path, message) == Err::<
            InvocationView,
            ClaudeErrorView,
        >(ClaudeErrorView::NoActiveSession),
{
}

/// A session started while one is `Active` or `Processing` is refused
/// with `SessionAlreadyExists`, and the session under way is not touched.
/// The same holds in every status but `Inactive`.
pub proof fn law_start_needs_no_session(m: ManagerView, id: Seq<char>)
    requires
        !(m.status is Inactive),
    ensures
        start_result(m, id) == Err::<Seq<char>, ClaudeErrorView>(
            ClaudeErrorView::SessionAlreadyExists("A session is already active"@),
        ),
        after_start(m, id) == m,
{
}

/// However the exchange of an admitted message goes, the session is
/// `Active` when it is over, unless the process could not be started: then
/// it is in `Error`. This holds of the exchange as one step and of the
/// exchange taken report by report.
pub proof fn law_exchange_restores_the_session(
    m: ManagerView,
    cli_path: Seq<char>,
    outcome: SpawnOutcomeView,
    inputs: Seq<LineInputView>,
)
    requires
        m.status is Active,
    ensures
        after_exchange(after_admit(m, Some(cli_path)), outcome).status == (if outcome is Started {
            SessionStatus::Active
        } else {
            SessionStatus::Error
        }),
        outcome is Started ==> after_finish(
            after_inputs(after_spawn(after_admit(m, Some(cli_path)), outcome), inputs),
        ) == after_exchange(after_admit(m, Some(cli_path)), outcome),
        !(outcome is Started) ==> after_spawn(after_admit(m, Some(cli_path)), outcome)
            == after_exchange(after_admit(m, Some(cli_path)), outcome),
        outcome is Started ==> spawn_events(after_admit(m, Some(cli_path)), outcome)
            + events_of_inputs(after_spawn(after_admit(m, Some(cli_path)), outcome), inputs)
            + finish_events(
            after_inputs(after_spawn(after_admit(m, Some(cli_path)), outcome), inputs),
        ) == exchange_events(after_admit(m, Some(cli_path)), outcome, inputs),
        !(outcome is Started) ==> spawn_events(after_admit(m, Some(cli_path)), outcome)
            == exchange_events(after_admit(m, Some(cli_path)), outcome, inputs),
{
    let admitted = after_admit(m, Some(cli_path));
    let spawned = after_spawn(admitted, outcome);
    if outcome is Started {
        lemma_inputs_keep_session(spawned, inputs);
        lemma_lines_keep_config(spawned.process, inputs);
        assert(spawned.process == streaming(admitted.process));
        assert(spawn_events(admitted, outcome) + events_of_inputs(spawned, inputs) + finish_events(
            after_inputs(spawned, inputs),
        ) =~= exchange_events(admitted, outcome, inputs));
    }
}

/// Of the events of an exchange exactly one is the closing marker, and it
/// comes last: every event before it is output that is not complete, tagged
/// with the session, or the message of a failure.
pub proof fn law_marker_closes_the_exchange(
    m: ManagerView,
    outcome: SpawnOutcomeView,
    inputs: Seq<LineInputView>,
)
    ensures
        exchange_events(m, outcome, inputs).len() >= 1,
        exchange_events(m, outcome, inputs).last() == completion_marker(session_tag(m)),
        forall|i: int|
            0 <= i < exchange_events(m, outcome, inputs).len() - 1 ==> match (
                #[trigger] exchange_events(m, outcome, inputs)[i]) {
                ClaudeEventView::Output(output) => !output.is_complete && output.session_id
                    == session_tag(m),
                ClaudeEventView::Error(_) => true,
            },
{
}

/// Stopping leaves the manager `Inactive` with no session, whatever its
/// status was, and stopping twice is stopping once.
pub proof fn law_stop_resets(m: ManagerView)
    ensures
        after_stop(m).status is Inactive,
        after_stop(m).session_id is None,
        !crate::pty::holds_process(after_stop(m).process.phase),
        after_stop(after_stop(m)) == after_stop(m),
{
}

/// While a message is being processed a second one is refused: from the
/// moment a message is admitted, through the start of its process and every
/// read of its output, another message gets `NoActiveSession`, and the
/// refusal leaves the process of the first untouched.
pub proof fn law_second_send_is_refused(
    m: ManagerView,
    cli_path: Seq<char>,
    inputs: Seq<LineInputView>,
    second_path: Option<Seq<char>>,
    second_message: Seq<char>,
)
    requires
        m.status is Active,
    ensures
        ({
            let busy = after_inputs(
                after_spawn(after_admit(m, Some(cli_path)), SpawnOutcomeView::Started),
                inputs,
            );
            &&& busy.status is Processing
            &&& admit_result(busy, second_path, second_message) == Err::<
                InvocationView,
                ClaudeErrorView,
            >(ClaudeErrorView::NoActiveSession)
            &&& after_admit(busy, second_path) == busy
        }),
        admit_result(after_admit(m, Some(cli_path)), second_path, second_message) == Err::<
            InvocationView,
            ClaudeErrorView,
        >(ClaudeErrorView::NoActiveSession),
        after_admit(after_admit(m, Some(cli_path)), second_path) == after_admit(
            m,
            Some(cli_path),
        ),
{
    let spawned = after_spawn(after_admit(m, Some(cli_path)), SpawnOutcomeView::Started);
    lemma_inputs_keep_session(spawned, inputs);
}

} // verus!
