//! The process supervisor: how the agent CLI is found and invoked, and what
//! is done with each line it prints.
//!
//! Starting the process and reading its output are left to the caller. The
//! supervisor decides: it assembles the command line, takes each line that
//! was read, says what to forward and when to stop, and keeps track of
//! whether a process is held.

use vstd::prelude::*;
use vstd::string::StringExecFns;
use crate::error::ClaudeError;
use crate::error::ClaudeErrorView;
use crate::stream::diagnostic_kind;
use crate::stream::inspect_stream_line;
use crate::stream::line_diagnostic;
use crate::stream::line_output;
use crate::stream::DiagnosticKind;
use crate::stream::LineDiagnostic;
use crate::stream::ParsedOutput;
use crate::stream::ParsedOutputView;
use crate::text::trim;
use crate::text::trimmed;

verus! {

/// How the process is to be started.
#[derive(Debug, PartialEq, Eq)]
pub struct ProcessConfig {
    /// The directory the process runs in; empty for the caller's own.
    pub working_dir: String,
    /// The file that configures the tool integration, if there is one.
    pub mcp_config_path: Option<String>,
    pub system_prompt: Option<String>,
}

pub struct ProcessConfigView {
    pub working_dir: Seq<char>,
    pub mcp_config_path: Option<Seq<char>>,
    pub system_prompt: Option<Seq<char>>,
}

impl View for ProcessConfig {
    type V = ProcessConfigView;

    open spec fn view(&self) -> ProcessConfigView {
        ProcessConfigView {
            working_dir: self.working_dir@,
            mcp_config_path: self.mcp_config_path.deep_view(),
            system_prompt: self.system_prompt.deep_view(),
        }
    }
}

impl Default for ProcessConfig {
    fn default() -> (r: ProcessConfig)
        ensures
            r@ == (ProcessConfigView {
                working_dir: Seq::empty(),
                mcp_config_path: None,
                system_prompt: None,
            }),
    {
        ProcessConfig { working_dir: String::new(), mcp_config_path: None, system_prompt: None }
    }
}

/// A command line: the program, its arguments, and the directory to run in.
#[derive(Debug, PartialEq, Eq)]
pub struct Invocation {
    pub program: String,
    pub args: Vec<String>,
    /// The directory to run in; `None` leaves the caller's own.
    pub working_dir: Option<String>,
}

pub struct InvocationView {
    pub program: Seq<char>,
    pub args: Seq<Seq<char>>,
    pub working_dir: Option<Seq<char>>,
}

impl View for Invocation {
    type V = InvocationView;

    open spec fn view(&self) -> InvocationView {
        InvocationView {
            program: self.program@,
            args: self.args.deep_view(),
            working_dir: self.working_dir.deep_view(),
        }
    }
}

/// A flag and its value, where there is a value.
pub open spec fn optional_flag(flag: Seq<char>, value: Option<Seq<char>>) -> Seq<Seq<char>> {
    match value {
        Some(v) => seq![flag, v],
        None => seq![],
    }
}

/// The arguments of one exchange: print mode with streamed JSON lines, then
/// the conversation to resume, the tool configuration and the system prompt
/// where each is given, and the message last.
pub open spec fn invocation_args(
    config: ProcessConfigView,
    message: Seq<char>,
    resume_id: Option<Seq<char>>,
) -> Seq<Seq<char>> {
    seq!["-p"@, "--output-format"@, "stream-json"@, "--verbose"@] + optional_flag(
        "--resume"@,
        resume_id,
    ) + optional_flag("--mcp-config"@, config.mcp_config_path) + optional_flag(
        "--system-prompt"@,
        config.system_prompt,
    ) + seq![message]
}

/// The command line of one exchange.
pub open spec fn invocation_of(
    config: ProcessConfigView,
    program: Seq<char>,
    message: Seq<char>,
    resume_id: Option<Seq<char>>,
) -> InvocationView {
    InvocationView {
        program,
        args: invocation_args(config, message, resume_id),
        working_dir: if config.working_dir.len() > 0 {
            Some(config.working_dir)
        } else {
            None
        },
    }
}

/// Appends a flag and its value to `args`, where there is a value.
fn push_optional_flag(args: &mut Vec<String>, flag: &str, value: &Option<String>)
    ensures
        final(args).deep_view() == old(args).deep_view() + optional_flag(
            flag@,
            value.deep_view(),
        ),
{
    let ghost before = args.deep_view();
    match value {
        Some(v) => {
            args.push(String::from_str(flag));
            args.push(v.clone());
            assert(args.deep_view() =~= before + seq![flag@, v@]);
        },
        None => {
            assert(args.deep_view() =~= before + Seq::<Seq<char>>::empty());
        },
    }
}

impl ProcessConfig {
    /// Assembles the command line that sends `message` through `program`.
    pub fn invocation(&self, program: &str, message: &str, resume_id: &Option<String>) -> (r:
        Invocation)
        ensures
            r@ == invocation_of(self@, program@, message@, resume_id.deep_view()),
    {
        let mut args: Vec<String> = Vec::new();
        args.push(String::from_str("-p"));
        args.push(String::from_str("--output-format"));
        args.push(String::from_str("stream-json"));
        args.push(String::from_str("--verbose"));
        assert(args.deep_view() =~= seq![
            "-p"@,
            "--output-format"@,
            "stream-json"@,
            "--verbose"@,
        ]);
        push_optional_flag(&mut args, "--resume", resume_id);
        push_optional_flag(&mut args, "--mcp-config", &self.mcp_config_path);
        push_optional_flag(&mut args, "--system-prompt", &self.system_prompt);
        let ghost before = args.deep_view();
        args.push(String::from_str(message));
        assert(args.deep_view() =~= before + seq![message@]);
        let working_dir = if self.working_dir.as_str().is_empty() {
            None
        } else {
            Some(self.working_dir.clone())
        };
        Invocation { program: String::from_str(program), args, working_dir }
    }
}

// ---------------------------------------------------------------------
// Finding the executable
// ---------------------------------------------------------------------

/// The places where `binary` is conventionally installed, in the order in
/// which they are tried: two system directories, then two below `home`.
pub open spec fn candidate_paths(home: Seq<char>, binary: Seq<char>) -> Seq<Seq<char>> {
    seq![
        "/usr/local/bin/"@ + binary,
        "/opt/homebrew/bin/"@ + binary,
        home + "/.local/bin/"@ + binary,
        home + "/.npm-global/bin/"@ + binary,
    ]
}

/// The first candidate that is present. A candidate of which `present` says
/// nothing counts as absent.
pub open spec fn first_present(candidates: Seq<Seq<char>>, present: Seq<bool>) -> Option<
    Seq<char>,
>
    decreases candidates.len(),
{
    if candidates.len() == 0 || present.len() == 0 {
        None
    } else if present[0] {
        Some(candidates[0])
    } else {
        first_present(candidates.drop_first(), present.drop_first())
    }
}

/// The path of the executable: what the lookup on the search path printed,
/// without the white space around it, unless that is empty; otherwise the
/// first candidate that is present.
pub open spec fn resolved_path(
    lookup: Option<Seq<char>>,
    candidates: Seq<Seq<char>>,
    present: Seq<bool>,
) -> Option<Seq<char>> {
    if lookup is Some && trimmed(lookup->Some_0).len() > 0 {
        Some(trimmed(lookup->Some_0))
    } else {
        first_present(candidates, present)
    }
}

/// `head`, `middle` and `tail` in one string.
fn joined(head: &str, middle: &str, tail: &str) -> (r: String)
    ensures
        r@ == head@ + middle@ + tail@,
{
    let mut out = String::from_str(head);
    out.append(middle);
    out.append(tail);
    out
}

/// The conventional install locations of `binary` for a user whose home
/// directory is `home`.
pub fn install_candidates(home: &str, binary: &str) -> (r: Vec<String>)
    ensures
        r.deep_view() == candidate_paths(home@, binary@),
{
    let mut out: Vec<String> = Vec::new();
    out.push(joined("", "/usr/local/bin/", binary));
    out.push(joined("", "/opt/homebrew/bin/", binary));
    out.push(joined(home, "/.local/bin/", binary));
    out.push(joined(home, "/.npm-global/bin/", binary));
    proof {
        reveal_strlit("");
        assert(""@ + "/usr/local/bin/"@ =~= "/usr/local/bin/"@);
        assert(""@ + "/opt/homebrew/bin/"@ =~= "/opt/homebrew/bin/"@);
        assert(out.deep_view() =~= candidate_paths(home@, binary@));
    }
    out
}

/// Picks the executable. `lookup` is what the search on the path printed,
/// if it succeeded; `present[i]` says whether `candidates[i]` exists.
pub fn find_claude_path(lookup: &Option<String>, candidates: &Vec<String>, present: &Vec<bool>) -> (r:
    Option<String>)
    ensures
        r.deep_view() == resolved_path(lookup.deep_view(), candidates.deep_view(), present@),
{
    match lookup {
        Some(printed) => {
            let found = trim(printed.as_str());
            if !found.is_empty() {
                return Some(String::from_str(found));
            }
        },
        None => {},
    }
    let ghost all = candidates.deep_view();
    let ghost wanted = resolved_path(lookup.deep_view(), all, present@);
    proof {
        assert(all.skip(0) =~= all);
        assert(present@.skip(0) =~= present@);
    }
    let mut i: usize = 0;
    while i < candidates.len() && i < present.len()
        invariant
            i <= candidates.len(),
            i <= present.len(),
            all == candidates.deep_view(),
            wanted == first_present(all, present@),
            wanted == resolved_path(lookup.deep_view(), candidates.deep_view(), present@),
            first_present(all, present@) == first_present(
                all.skip(i as int),
                present@.skip(i as int),
            ),
        decreases candidates.len() - i,
    {
        proof {
            assert(all.skip(i as int).drop_first() =~= all.skip(i as int + 1));
            assert(present@.skip(i as int).drop_first() =~= present@.skip(i as int + 1));
            assert(all.skip(i as int)[0] == candidates@[i as int]@);
            assert(present@.skip(i as int)[0] == present@[i as int]);
        }
        if present[i] {
            return Some(candidates[i].clone());
        }
        i += 1;
    }
    None
}

/// Whether the agent CLI is installed, given what [`find_claude_path`] gave.
pub fn check_claude_cli(resolved: &Option<String>) -> (r: Result<bool, ClaudeError>)
    ensures
        r is Ok,
        r->Ok_0 == resolved is Some,
{
    Ok(resolved.is_some())
}

// ---------------------------------------------------------------------
// Reading the stream
// ---------------------------------------------------------------------

/// What one read from the output of the process gave: a line, or the
/// message of the failure to read one.
#[derive(Debug, PartialEq, Eq)]
pub enum LineInput {
    Line(String),
    ReadError(String),
}

pub enum LineInputView {
    Line(Seq<char>),
    ReadError(Seq<char>),
}

impl View for LineInput {
    type V = LineInputView;

    open spec fn view(&self) -> LineInputView {
        match self {
            LineInput::Line(line) => LineInputView::Line(line@),
            LineInput::ReadError(message) => LineInputView::ReadError(message@),
        }
    }
}

/// What the supervisor hands down the output channel.
#[derive(Debug, PartialEq, Eq)]
pub enum StreamItem {
    /// Text to display.
    Text(String),
    /// The failure that ended the exchange.
    Error(String),
}

pub enum StreamItemView {
    Text(Seq<char>),
    Error(Seq<char>),
}

impl View for StreamItem {
    type V = StreamItemView;

    open spec fn view(&self) -> StreamItemView {
        match self {
            StreamItem::Text(text) => StreamItemView::Text(text@),
            StreamItem::Error(message) => StreamItemView::Error(message@),
        }
    }
}

/// An optional item by its view.
pub open spec fn item_view(item: Option<StreamItem>) -> Option<StreamItemView> {
    match item {
        Some(i) => Some(i@),
        None => None,
    }
}

/// Items by their views.
pub open spec fn items_view(items: Seq<StreamItem>) -> Seq<StreamItemView> {
    Seq::new(items.len(), |i: int| items[i]@)
}

/// Inputs by their views.
pub open spec fn inputs_view(inputs: Seq<LineInput>) -> Seq<LineInputView> {
    Seq::new(inputs.len(), |i: int| inputs[i]@)
}

/// What the supervisor asks of its caller after one read.
#[derive(Debug, PartialEq, Eq)]
pub struct ReadStep {
    /// What to hand down the output channel now, if anything.
    pub forward: Option<StreamItem>,
    /// Whether to stop reading.
    pub stop: bool,
    /// Why the line was dropped, if it was.
    pub diagnostic: Option<LineDiagnostic>,
}

/// How the attempt to start the process ended.
#[derive(Debug, PartialEq, Eq)]
pub enum SpawnOutcome {
    Started,
    /// The operating system refused, with this message.
    Failed(String),
    /// The process runs, but its standard output is not to be had.
    NoStdout,
}

pub enum SpawnOutcomeView {
    Started,
    Failed(Seq<char>),
    NoStdout,
}

impl View for SpawnOutcome {
    type V = SpawnOutcomeView;

    open spec fn view(&self) -> SpawnOutcomeView {
        match self {
            SpawnOutcome::Started => SpawnOutcomeView::Started,
            SpawnOutcome::Failed(message) => SpawnOutcomeView::Failed(message@),
            SpawnOutcome::NoStdout => SpawnOutcomeView::NoStdout,
        }
    }
}

/// Where the supervisor stands in an exchange.
#[derive(Debug, Clone, Copy, PartialEq, Eq, Structural)]
pub enum ProcessPhase {
    /// No process is held.
    Idle,
    /// A command line was handed out, and the process is not started yet.
    Launching,
    /// The process runs and its output is being read.
    Streaming,
    /// Reading has stopped; the process is still to be waited for.
    Draining,
}

/// Whether a process is held in this phase.
pub open spec fn holds_process(phase: ProcessPhase) -> bool {
    phase is Streaming || phase is Draining
}

/// What an input amounts to: what its line parses to, or for a failed read
/// the failure, which ends the exchange as an `Error` output does.
pub open spec fn input_output(input: LineInputView) -> Option<ParsedOutputView> {
    match input {
        LineInputView::Line(line) => line_output(line),
        LineInputView::ReadError(message) => Some(
            ParsedOutputView::Error("Read error: "@ + message),
        ),
    }
}

/// Whether an output ends the exchange.
pub open spec fn ends_stream(output: Option<ParsedOutputView>) -> bool {
    output matches Some(o) && (o is Complete || o is Error)
}

/// What is forwarded for an output: text, and the failure that ends the
/// exchange. A session identifier is kept, not forwarded.
pub open spec fn output_item(output: Option<ParsedOutputView>) -> Option<StreamItemView> {
    match output {
        Some(ParsedOutputView::Text(text)) => Some(StreamItemView::Text(text)),
        Some(ParsedOutputView::Error(message)) => Some(StreamItemView::Error(message)),
        _ => None,
    }
}

/// The session identifier kept after an output.
pub open spec fn output_session(kept: Option<Seq<char>>, output: Option<ParsedOutputView>) -> Option<
    Seq<char>,
> {
    match output {
        Some(ParsedOutputView::SessionId(id)) => Some(id),
        _ => kept,
    }
}

/// The diagnostic for an input: that of its line, and none for a failed read.
pub open spec fn input_diagnostic(input: LineInputView) -> Option<DiagnosticKind> {
    match input {
        LineInputView::Line(line) => line_diagnostic(line),
        LineInputView::ReadError(_) => None,
    }
}

/// The supervisor of the one process of an exchange.
pub struct ClaudeProcess {
    config: ProcessConfig,
    phase: ProcessPhase,
    session_id: Option<String>,
}

pub struct ProcessView {
    pub config: ProcessConfigView,
    pub phase: ProcessPhase,
    /// The session identifier the process has reported so far.
    pub session_id: Option<Seq<char>>,
}

impl View for ClaudeProcess {
    type V = ProcessView;

    closed spec fn view(&self) -> ProcessView {
        ProcessView {
            config: self.config@,
            phase: self.phase,
            session_id: self.session_id.deep_view(),
        }
    }
}

/// The supervisor after one input. Only while it is streaming does an input
/// change anything: it may bring a session identifier, and it ends the
/// reading where its output ends the exchange.
pub open spec fn after_line(p: ProcessView, input: LineInputView) -> ProcessView {
    if p.phase is Streaming {
        let output = input_output(input);
        ProcessView {
            config: p.config,
            phase: if ends_stream(output) {
                ProcessPhase::Draining
            } else {
                ProcessPhase::Streaming
            },
            session_id: output_session(p.session_id, output),
        }
    } else {
        p
    }
}

/// What is forwarded for one input.
pub open spec fn line_item(p: ProcessView, input: LineInputView) -> Option<StreamItemView> {
    if p.phase is Streaming {
        output_item(input_output(input))
    } else {
        None
    }
}

/// The supervisor after the inputs, taken in order.
pub open spec fn after_lines(p: ProcessView, inputs: Seq<LineInputView>) -> ProcessView
    decreases inputs.len(),
{
    if inputs.len() == 0 {
        p
    } else {
        after_line(after_lines(p, inputs.drop_last()), inputs.last())
    }
}

/// None or one item as a sequence.
pub open spec fn optional_item(item: Option<StreamItemView>) -> Seq<StreamItemView> {
    match item {
        Some(i) => seq![i],
        None => seq![],
    }
}

/// What is forwarded for the inputs, in their order.
pub open spec fn items_of_lines(p: ProcessView, inputs: Seq<LineInputView>) -> Seq<StreamItemView>
    decreases inputs.len(),
{
    if inputs.len() == 0 {
        seq![]
    } else {
        let before = inputs.drop_last();
        items_of_lines(p, before) + optional_item(line_item(after_lines(p, before), inputs.last()))
    }
}

/// How many of the inputs are read: those that arrive while the supervisor
/// is streaming.
pub open spec fn lines_read(p: ProcessView, inputs: Seq<LineInputView>) -> nat
    decreases inputs.len(),
{
    if inputs.len() == 0 {
        0
    } else {
        let before = inputs.drop_last();
        if after_lines(p, before).phase is Streaming {
            lines_read(p, before) + 1
        } else {
            lines_read(p, before)
        }
    }
}

/// What asking for a command line gives: a refusal while an exchange is
/// under way, `CliNotFound` without an executable, and else the command line.
pub open spec fn prepare_result(
    p: ProcessView,
    cli_path: Option<Seq<char>>,
    message: Seq<char>,
    resume_id: Option<Seq<char>>,
) -> Result<InvocationView, ClaudeErrorView> {
    if !(p.phase is Idle) {
        Err(ClaudeErrorView::SendFailed("a process is already running"@))
    } else if cli_path is None {
        Err(ClaudeErrorView::CliNotFound)
    } else {
        Ok(invocation_of(p.config, cli_path->Some_0, message, resume_id))
    }
}

/// The supervisor after it was asked for a command line.
pub open spec fn after_prepare(p: ProcessView, cli_path: Option<Seq<char>>) -> ProcessView {
    if p.phase is Idle && cli_path is Some {
        ProcessView { config: p.config, phase: ProcessPhase::Launching, session_id: None }
    } else {
        p
    }
}

/// What reporting the start of the process gives.
pub open spec fn started_result(p: ProcessView, outcome: SpawnOutcomeView) -> Result<
    (),
    ClaudeErrorView,
> {
    if !(p.phase is Launching) {
        Err(ClaudeErrorView::SendFailed("no launch is pending"@))
    } else {
        match outcome {
            SpawnOutcomeView::Started => Ok(()),
            SpawnOutcomeView::Failed(message) => Err(ClaudeErrorView::SpawnFailed(message)),
            SpawnOutcomeView::NoStdout => Err(
                ClaudeErrorView::PtyError("Failed to capture stdout"@),
            ),
        }
    }
}

/// The supervisor after the start of the process was reported.
pub open spec fn after_started(p: ProcessView, outcome: SpawnOutcomeView) -> ProcessView {
    if p.phase is Launching {
        ProcessView {
            config: p.config,
            phase: if outcome is Started {
                ProcessPhase::Streaming
            } else {
                ProcessPhase::Idle
            },
            session_id: p.session_id,
        }
    } else {
        p
    }
}

/// The supervisor with no process and nothing kept.
pub open spec fn cleared(p: ProcessView) -> ProcessView {
    ProcessView { config: p.config, phase: ProcessPhase::Idle, session_id: None }
}

/// A result by the views of what it holds.
pub open spec fn invocation_result_view(r: Result<Invocation, ClaudeError>) -> Result<
    InvocationView,
    ClaudeErrorView,
> {
    match r {
        Ok(invocation) => Ok(invocation@),
        Err(e) => Err(e@),
    }
}

/// A result by the view of its error.
pub open spec fn unit_result_view(r: Result<(), ClaudeError>) -> Result<(), ClaudeErrorView> {
    match r {
        Ok(_) => Ok(()),
        Err(e) => Err(e@),
    }
}

impl ClaudeProcess {
    /// A supervisor that holds no process.
    pub fn new(config: ProcessConfig) -> (r: ClaudeProcess)
        ensures
            r@ == (ProcessView { config: config@, phase: ProcessPhase::Idle, session_id: None }),
    {
        ClaudeProcess { config, phase: ProcessPhase::Idle, session_id: None }
    }

    /// Where the supervisor stands.
    pub fn phase(&self) -> (r: ProcessPhase)
        ensures
            r == self@.phase,
    {
        self.phase
    }

    /// Whether a process is held.
    pub fn is_running(&self) -> (r: bool)
        ensures
            r == holds_process(self@.phase),
    {
        match self.phase {
            ProcessPhase::Streaming => true,
            ProcessPhase::Draining => true,
            _ => false,
        }
    }

    /// Opens an exchange: gives the command line that sends `message`
    /// through the executable at `cli_path`, resuming `resume_id` if given.
    /// Nothing changes where this fails.
    pub fn prepare(
        &mut self,
        cli_path: &Option<String>,
        message: &str,
        resume_id: &Option<String>,
    ) -> (r: Result<Invocation, ClaudeError>)
        ensures
            invocation_result_view(r) == prepare_result(
                old(self)@,
                cli_path.deep_view(),
                message@,
                resume_id.deep_view(),
            ),
            final(self)@ == after_prepare(old(self)@, cli_path.deep_view()),
    {
        match self.phase {
            ProcessPhase::Idle => {},
            _ => {
                return Err(ClaudeError::SendFailed(String::from_str("a process is already running")));
            },
        }
        match cli_path {
            None => Err(ClaudeError::CliNotFound),
            Some(program) => {
                let invocation = self.config.invocation(program.as_str(), message, resume_id);
                self.phase = ProcessPhase::Launching;
                self.session_id = None;
                Ok(invocation)
            },
        }
    }

    /// Takes the report of how starting the process went. From a start that
    /// failed the supervisor is idle again.
    pub fn started(&mut self, outcome: SpawnOutcome) -> (r: Result<(), ClaudeError>)
        ensures
            unit_result_view(r) == started_result(old(self)@, outcome@),
            final(self)@ == after_started(old(self)@, outcome@),
    {
        match self.phase {
            ProcessPhase::Launching => {},
            _ => {
                return Err(ClaudeError::SendFailed(String::from_str("no launch is pending")));
            },
        }
        match outcome {
            SpawnOutcome::Started => {
                self.phase = ProcessPhase::Streaming;
                Ok(())
            },
            SpawnOutcome::Failed(message) => {
                self.phase = ProcessPhase::Idle;
                Err(ClaudeError::SpawnFailed(message))
            },
            SpawnOutcome::NoStdout => {
                self.phase = ProcessPhase::Idle;
                Err(ClaudeError::PtyError(String::from_str("Failed to capture stdout")))
            },
        }
    }

    /// Takes what one read of the output gave, and says what to forward and
    /// whether to stop reading. Text is forwarded at once; a session
    /// identifier is kept; the end of the exchange, and a read that failed,
    /// stop the reading. Once reading has stopped nothing is forwarded.
    pub fn read_line(&mut self, input: &LineInput) -> (r: ReadStep)
        ensures
            final(self)@ == after_line(old(self)@, input@),
            item_view(r.forward) == line_item(old(self)@, input@),
            r.stop == !(final(self)@.phase is Streaming),
            diagnostic_kind(r.diagnostic) == if old(self)@.phase is Streaming {
                input_diagnostic(input@)
            } else {
                None
            },
    {
        match self.phase {
            ProcessPhase::Streaming => {},
            _ => {
                return ReadStep { forward: None, stop: true, diagnostic: None };
            },
        }
        let (output, diagnostic) = match input {
            LineInput::Line(line) => {
                let report = inspect_stream_line(line.as_str());
                (report.output, report.diagnostic)
            },
            LineInput::ReadError(message) => {
                let mut text = String::from_str("Read error: ");
                text.append(message.as_str());
                (Some(ParsedOutput::Error(text)), None)
            },
        };
        match output {
            None => ReadStep { forward: None, stop: false, diagnostic },
            Some(ParsedOutput::SessionId(id)) => {
                self.session_id = Some(id);
                ReadStep { forward: None, stop: false, diagnostic }
            },
            Some(ParsedOutput::Text(text)) => ReadStep {
                forward: Some(StreamItem::Text(text)),
                stop: false,
                diagnostic,
            },
            Some(ParsedOutput::Complete) => {
                self.phase = ProcessPhase::Draining;
                ReadStep { forward: None, stop: true, diagnostic }
            },
            Some(ParsedOutput::Error(message)) => {
                self.phase = ProcessPhase::Draining;
                ReadStep { forward: Some(StreamItem::Error(message)), stop: true, diagnostic }
            },
        }
    }

    /// Stops the reading because nobody takes the output any more.
    pub fn sink_closed(&mut self)
        ensures
            final(self)@ == (if old(self)@.phase is Streaming {
                ProcessView {
                    config: old(self)@.config,
                    phase: ProcessPhase::Draining,
                    session_id: old(self)@.session_id,
                }
            } else {
                old(self)@
            }),
    {
        match self.phase {
            ProcessPhase::Streaming => {
                self.phase = ProcessPhase::Draining;
            },
            _ => {},
        }
    }

    /// Closes the exchange once the process has been waited for: gives the
    /// session identifier the process reported, and holds no process after.
    pub fn finish(&mut self) -> (r: Option<String>)
        ensures
            r.deep_view() == old(self)@.session_id,
            final(self)@ == cleared(old(self)@),
    {
        self.phase = ProcessPhase::Idle;
        self.session_id.take()
    }

    /// Gives up the process: says whether there is one to be killed. The
    /// supervisor is idle after, whatever it was doing.
    pub fn kill(&mut self) -> (r: bool)
        ensures
            r == holds_process(old(self)@.phase),
            final(self)@ == cleared(old(self)@),
    {
        let held = self.is_running();
        self.phase = ProcessPhase::Idle;
        self.session_id = None;
        held
    }
}

/// The outcome of one exchange.
#[derive(Debug, PartialEq, Eq)]
pub struct Exchange {
    /// What was handed down the output channel, in order.
    pub forwarded: Vec<StreamItem>,
    /// The session identifier the process reported, if it did.
    pub session_id: Option<String>,
    /// How many of the inputs were read.
    pub lines_read: usize,
}

pub struct ExchangeView {
    pub forwarded: Seq<StreamItemView>,
    pub session_id: Option<Seq<char>>,
    pub lines_read: nat,
}

impl View for Exchange {
    type V = ExchangeView;

    open spec fn view(&self) -> ExchangeView {
        ExchangeView {
            forwarded: items_view(self.forwarded@),
            session_id: self.session_id.deep_view(),
            lines_read: self.lines_read as nat,
        }
    }
}

/// The supervisor as it reads the output of a process it has just started.
pub open spec fn streaming(p: ProcessView) -> ProcessView {
    ProcessView { config: p.config, phase: ProcessPhase::Streaming, session_id: None }
}

/// The outcome of the exchange whose process prints `inputs`.
pub open spec fn exchange_of(p: ProcessView, inputs: Seq<LineInputView>) -> ExchangeView {
    ExchangeView {
        forwarded: items_of_lines(streaming(p), inputs),
        session_id: after_lines(streaming(p), inputs).session_id,
        lines_read: lines_read(streaming(p), inputs),
    }
}

/// What a whole exchange gives: the refusal of [`prepare_result`] or of
/// [`started_result`] where there is one, and else the outcome of reading
/// the inputs.
pub open spec fn send_result(
    p: ProcessView,
    cli_path: Option<Seq<char>>,
    outcome: SpawnOutcomeView,
    inputs: Seq<LineInputView>,
) -> Result<ExchangeView, ClaudeErrorView> {
    if !(p.phase is Idle) {
        Err(ClaudeErrorView::SendFailed("a process is already running"@))
    } else if cli_path is None {
        Err(ClaudeErrorView::CliNotFound)
    } else {
        match outcome {
            SpawnOutcomeView::Started => Ok(exchange_of(p, inputs)),
            SpawnOutcomeView::Failed(message) => Err(ClaudeErrorView::SpawnFailed(message)),
            SpawnOutcomeView::NoStdout => Err(
                ClaudeErrorView::PtyError("Failed to capture stdout"@),
            ),
        }
    }
}

/// The supervisor after a whole exchange: as before where the exchange was
/// refused, and else idle with nothing kept.
pub open spec fn after_send(p: ProcessView, cli_path: Option<Seq<char>>) -> ProcessView {
    if p.phase is Idle && cli_path is Some {
        cleared(p)
    } else {
        p
    }
}

/// A result by the views of what it holds.
pub open spec fn exchange_result_view(r: Result<Exchange, ClaudeError>) -> Result<
    ExchangeView,
    ClaudeErrorView,
> {
    match r {
        Ok(exchange) => Ok(exchange@),
        Err(e) => Err(e@),
    }
}

impl ClaudeProcess {
    /// Takes the inputs in order, up to the one that stops the reading, and
    /// gives what they forward together with the number of inputs taken.
    pub fn read_lines(&mut self, inputs: &Vec<LineInput>) -> (r: (Vec<StreamItem>, usize))
        ensures
            final(self)@ == after_lines(old(self)@, inputs_view(inputs@)),
            items_view(r.0@) == items_of_lines(old(self)@, inputs_view(inputs@)),
            r.1 == lines_read(old(self)@, inputs_view(inputs@)),
    {
        let ghost start = self@;
        let ghost all = inputs_view(inputs@);
        let mut out: Vec<StreamItem> = Vec::new();
        let mut i: usize = 0;
        proof {
            assert(all.take(0) =~= Seq::<LineInputView>::empty());
            assert(items_view(out@) =~= Seq::<StreamItemView>::empty());
        }
        while i < inputs.len() && self.phase == ProcessPhase::Streaming
            invariant
                i <= inputs.len(),
                all == inputs_view(inputs@),
                self@ == after_lines(start, all.take(i as int)),
                items_view(out@) == items_of_lines(start, all.take(i as int)),
                i == lines_read(start, all.take(i as int)),
            decreases inputs.len() - i,
        {
            let ghost before = all.take(i as int);
            let ghost early = items_view(out@);
            proof {
                assert(all.take(i as int + 1).drop_last() =~= before);
                assert(all.take(i as int + 1).last() == inputs@[i as int]@);
            }
            let step = self.read_line(&inputs[i]);
            match step.forward {
                Some(item) => {
                    out.push(item);
                    assert(items_view(out@) =~= early + seq![item@]);
                },
                None => {
                    assert(early + Seq::<StreamItemView>::empty() =~= early);
                },
            }
            i += 1;
        }
        proof {
            let head = all.take(i as int);
            let tail = all.skip(i as int);
            assert(head + tail =~= all);
            lemma_lines_concat(start, head, tail);
            if i < inputs.len() {
                lemma_stopped_stays(self@, tail);
            } else {
                assert(tail =~= Seq::<LineInputView>::empty());
            }
            assert(items_of_lines(start, head) + Seq::<StreamItemView>::empty()
                =~= items_of_lines(start, head));
        }
        (out, i)
    }

    /// Runs one whole exchange over what has already happened outside: the
    /// executable that was found, how starting it went, and what reading its
    /// output gave. A refusal changes nothing; after an exchange that was
    /// begun the supervisor is idle, however the exchange went.
    pub fn send_message(
        &mut self,
        cli_path: &Option<String>,
        message: &str,
        resume_id: &Option<String>,
        outcome: SpawnOutcome,
        inputs: &Vec<LineInput>,
    ) -> (r: Result<Exchange, ClaudeError>)
        ensures
            exchange_result_view(r) == send_result(
                old(self)@,
                cli_path.deep_view(),
                outcome@,
                inputs_view(inputs@),
            ),
            final(self)@ == after_send(old(self)@, cli_path.deep_view()),
    {
        match self.prepare(cli_path, message, resume_id) {
            Err(e) => {
                return Err(e);
            },
            Ok(_) => {},
        }
        match self.started(outcome) {
            Err(e) => {
                return Err(e);
            },
            Ok(_) => {},
        }
        proof {
            lemma_lines_keep_config(self@, inputs_view(inputs@));
        }
        let (forwarded, lines_read) = self.read_lines(inputs);
        let session_id = self.finish();
        Ok(Exchange { forwarded, session_id, lines_read })
    }
}

// ---------------------------------------------------------------------
// What holds of every stream
// ---------------------------------------------------------------------

/// Inputs taken in two runs have the effect of the two runs one after the
/// other: the items come out in the order of the inputs.
pub proof fn lemma_lines_concat(p: ProcessView, a: Seq<LineInputView>, b: Seq<LineInputView>)
    ensures
        after_lines(p, a + b) == after_lines(after_lines(p, a), b),
        items_of_lines(p, a + b) == items_of_lines(p, a) + items_of_lines(after_lines(p, a), b),
        lines_read(p, a + b) == lines_read(p, a) + lines_read(after_lines(p, a), b),
    decreases b.len(),
{
    if b.len() == 0 {
        assert(a + b =~= a);
        assert(items_of_lines(p, a) + Seq::<StreamItemView>::empty() =~= items_of_lines(p, a));
    } else {
        lemma_lines_concat(p, a, b.drop_last());
        assert((a + b).drop_last() =~= a + b.drop_last());
        assert((a + b).last() == b.last());
        let q = after_lines(p, a);
        let tail = optional_item(line_item(after_lines(q, b.drop_last()), b.last()));
        assert(items_of_lines(p, a) + items_of_lines(q, b.drop_last()) + tail =~= items_of_lines(
            p,
            a,
        ) + (items_of_lines(q, b.drop_last()) + tail));
    }
}

/// Reading never touches the configuration.
pub proof fn lemma_lines_keep_config(p: ProcessView, inputs: Seq<LineInputView>)
    ensures
        after_lines(p, inputs).config == p.config,
    decreases inputs.len(),
{
    if inputs.len() > 0 {
        lemma_lines_keep_config(p, inputs.drop_last());
    }
}

/// Once the reading has stopped, further inputs change nothing, forward
/// nothing and are not read.
pub proof fn lemma_stopped_stays(p: ProcessView, inputs: Seq<LineInputView>)
    requires
        !(p.phase is Streaming),
    ensures
        after_lines(p, inputs) == p,
        items_of_lines(p, inputs) == Seq::<StreamItemView>::empty(),
        lines_read(p, inputs) == 0,
    decreases inputs.len(),
{
    if inputs.len() > 0 {
        lemma_stopped_stays(p, inputs.drop_last());
        assert(items_of_lines(p, inputs) =~= Seq::<StreamItemView>::empty());
    }
}

/// Nothing follows the end of the exchange: where the input at `k` arrives
/// while the stream is read and its output is `Complete` or `Error`, the
/// reading stops there, and the stream forwards what its first `k + 1`
/// inputs forward, whatever comes after them.
pub proof fn law_nothing_follows_the_end(p: ProcessView, inputs: Seq<LineInputView>, k: int)
    requires
        0 <= k < inputs.len(),
        after_lines(p, inputs.take(k)).phase is Streaming,
        ends_stream(input_output(inputs[k])),
    ensures
        !(after_lines(p, inputs.take(k + 1)).phase is Streaming),
        after_lines(p, inputs) == after_lines(p, inputs.take(k + 1)),
        items_of_lines(p, inputs) == items_of_lines(p, inputs.take(k + 1)),
        lines_read(p, inputs) == lines_read(p, inputs.take(k + 1)),
{
    let head = inputs.take(k + 1);
    let tail = inputs.skip(k + 1);
    assert(head.drop_last() =~= inputs.take(k));
    assert(head.last() == inputs[k]);
    assert(head + tail =~= inputs);
    lemma_lines_concat(p, head, tail);
    lemma_stopped_stays(after_lines(p, head), tail);
    assert(items_of_lines(p, head) + Seq::<StreamItemView>::empty() =~= items_of_lines(p, head));
}

/// Only the last item of a stream can be a failure: every item before the
/// last is text.
pub proof fn law_failure_comes_last(p: ProcessView, inputs: Seq<LineInputView>)
    ensures
        forall|i: int|
            0 <= i < items_of_lines(p, inputs).len() - 1 ==> #[trigger] items_of_lines(
                p,
                inputs,
            )[i] is Text,
        items_of_lines(p, inputs).len() > 0 && items_of_lines(p, inputs).last() is Error ==> !(
        after_lines(p, inputs).phase is Streaming),
    decreases inputs.len(),
{
    if inputs.len() > 0 {
        let before = inputs.drop_last();
        law_failure_comes_last(p, before);
        let q = after_lines(p, before);
        if !(q.phase is Streaming) {
            assert(items_of_lines(p, inputs) =~= items_of_lines(p, before));
        } else {
            let early = items_of_lines(p, before);
            if early.len() > 0 && early.last() is Error {
                assert(false);
            }
            assert forall|i: int| 0 <= i < early.len() implies early[i] is Text by {
                if i == early.len() - 1 {
                    assert(early.last() == early[i]);
                }
            }
        }
    }
}

} // verus!
