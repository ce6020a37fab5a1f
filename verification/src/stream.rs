//! The stream protocol: one line of text in, at most one parsed output out.
//!
//! Every line the agent CLI prints is a JSON object tagged by its `type`
//! member. A line is decoded to a [`Json`] document, the document is matched
//! against the known event shapes ([`StreamEvent::from_json`]), and the event
//! is reduced to what the rest of the system acts on ([`parse_event`]).

use vstd::prelude::*;
use vstd::string::StringExecFns;
use crate::json::decode_json;
use crate::json::fault_text;
use crate::json::items_model;
use crate::json::json_document;
use crate::json::lemma_model_shape;
use crate::json::member_of;
use crate::json::Json;
use crate::json::JsonValue;
use crate::text::str_eq;

verus! {

/// One block of an assistant message.
#[derive(Debug, PartialEq, Eq)]
pub enum ContentBlock {
    Text { text: String },
    /// A block of any other kind: it carries nothing to display.
    Other,
}

pub enum ContentBlockView {
    Text { text: Seq<char> },
    Other,
}

impl View for ContentBlock {
    type V = ContentBlockView;

    open spec fn view(&self) -> ContentBlockView {
        match self {
            ContentBlock::Text { text } => ContentBlockView::Text { text: text@ },
            ContentBlock::Other => ContentBlockView::Other,
        }
    }
}

/// The message inside an `assistant` event.
#[derive(Debug, PartialEq, Eq)]
pub struct AssistantMessage {
    pub id: String,
    pub content: Vec<ContentBlock>,
    pub stop_reason: Option<String>,
}

pub struct AssistantMessageView {
    pub id: Seq<char>,
    pub content: Seq<ContentBlockView>,
    pub stop_reason: Option<Seq<char>>,
}

/// The blocks of a message, each by its view.
pub open spec fn blocks_view(blocks: Seq<ContentBlock>) -> Seq<ContentBlockView> {
    Seq::new(blocks.len(), |i: int| blocks[i]@)
}

impl View for AssistantMessage {
    type V = AssistantMessageView;

    open spec fn view(&self) -> AssistantMessageView {
        AssistantMessageView {
            id: self.id@,
            content: blocks_view(self.content@),
            stop_reason: self.stop_reason.deep_view(),
        }
    }
}

/// One event of the stream, as the agent CLI prints it.
#[derive(Debug, PartialEq, Eq)]
pub enum StreamEvent {
    System { subtype: String, session_id: String, tools: Vec<String> },
    Assistant { message: AssistantMessage, session_id: String },
    Result { subtype: String, result: String, session_id: String, is_error: bool },
    /// An event of a kind this library does not know.
    Unknown,
}

pub enum StreamEventView {
    System { subtype: Seq<char>, session_id: Seq<char>, tools: Seq<Seq<char>> },
    Assistant { message: AssistantMessageView, session_id: Seq<char> },
    Result { subtype: Seq<char>, result: Seq<char>, session_id: Seq<char>, is_error: bool },
    Unknown,
}

impl View for StreamEvent {
    type V = StreamEventView;

    open spec fn view(&self) -> StreamEventView {
        match self {
            StreamEvent::System { subtype, session_id, tools } => StreamEventView::System {
                subtype: subtype@,
                session_id: session_id@,
                tools: tools.deep_view(),
            },
            StreamEvent::Assistant { message, session_id } => StreamEventView::Assistant {
                message: message@,
                session_id: session_id@,
            },
            StreamEvent::Result { subtype, result, session_id, is_error } => StreamEventView::Result {
                subtype: subtype@,
                result: result@,
                session_id: session_id@,
                is_error: *is_error,
            },
            StreamEvent::Unknown => StreamEventView::Unknown,
        }
    }
}

/// What one line of the stream amounts to.
#[derive(Debug, PartialEq, Eq)]
pub enum ParsedOutput {
    /// The identifier under which the agent CLI keeps the conversation.
    SessionId(String),
    /// Text to display.
    Text(String),
    /// The exchange ended well.
    Complete,
    /// The exchange ended with this failure.
    Error(String),
}

pub enum ParsedOutputView {
    SessionId(Seq<char>),
    Text(Seq<char>),
    Complete,
    Error(Seq<char>),
}

impl View for ParsedOutput {
    type V = ParsedOutputView;

    open spec fn view(&self) -> ParsedOutputView {
        match self {
            ParsedOutput::SessionId(id) => ParsedOutputView::SessionId(id@),
            ParsedOutput::Text(text) => ParsedOutputView::Text(text@),
            ParsedOutput::Complete => ParsedOutputView::Complete,
            ParsedOutput::Error(message) => ParsedOutputView::Error(message@),
        }
    }
}

/// An optional output by its view.
pub open spec fn output_view(output: Option<ParsedOutput>) -> Option<ParsedOutputView> {
    match output {
        Some(o) => Some(o@),
        None => None,
    }
}

/// An optional event by its view.
pub open spec fn event_view(event: Option<StreamEvent>) -> Option<StreamEventView> {
    match event {
        Some(e) => Some(e@),
        None => None,
    }
}

// ---------------------------------------------------------------------
// The shapes of the events
// ---------------------------------------------------------------------

/// A member that must be there and be a string.
pub open spec fn required_text(doc: JsonValue, name: Seq<char>) -> Option<Seq<char>> {
    match member_of(doc, name) {
        Some(JsonValue::Text(s)) => Some(s),
        _ => None,
    }
}

/// A member that is a string where it is there: absent it reads as the empty
/// text, and as anything but a string it spoils the document.
pub open spec fn text_field(doc: JsonValue, name: Seq<char>) -> Option<Seq<char>> {
    match member_of(doc, name) {
        None => Some(Seq::empty()),
        Some(JsonValue::Text(s)) => Some(s),
        Some(_) => None,
    }
}

/// A member that is a boolean where it is there, and reads as `false` absent.
pub open spec fn flag_field(doc: JsonValue, name: Seq<char>) -> Option<bool> {
    match member_of(doc, name) {
        None => Some(false),
        Some(JsonValue::Bool(b)) => Some(b),
        Some(_) => None,
    }
}

/// A member that is a string or `null` where it is there.
pub open spec fn optional_text_field(doc: JsonValue, name: Seq<char>) -> Option<
    Option<Seq<char>>,
> {
    match member_of(doc, name) {
        None => Some(None),
        Some(JsonValue::Null) => Some(None),
        Some(JsonValue::Text(s)) => Some(Some(s)),
        Some(_) => None,
    }
}

/// The texts of an array whose items are all strings.
pub open spec fn text_items(items: Seq<JsonValue>) -> Option<Seq<Seq<char>>> {
    if forall|i: int| 0 <= i < items.len() ==> items[i] is Text {
        Some(Seq::new(items.len(), |i: int| items[i]->Text_0))
    } else {
        None
    }
}

/// A member that is an array of strings where it is there, and empty absent.
pub open spec fn text_list_field(doc: JsonValue, name: Seq<char>) -> Option<Seq<Seq<char>>> {
    match member_of(doc, name) {
        None => Some(Seq::empty()),
        Some(JsonValue::Array(items)) => text_items(items),
        Some(_) => None,
    }
}

/// The block a document stands for: an object tagged `text` is a text block,
/// an object with any other tag is some other block.
pub open spec fn decode_block(doc: JsonValue) -> Option<ContentBlockView> {
    match required_text(doc, "type"@) {
        Some(kind) => if kind == "text"@ {
            match text_field(doc, "text"@) {
                Some(text) => Some(ContentBlockView::Text { text }),
                None => None,
            }
        } else {
            Some(ContentBlockView::Other)
        },
        None => None,
    }
}

/// The blocks of an array whose items are all blocks.
pub open spec fn decode_blocks(items: Seq<JsonValue>) -> Option<Seq<ContentBlockView>> {
    if forall|i: int| 0 <= i < items.len() ==> decode_block(#[trigger] items[i]) is Some {
        Some(Seq::new(items.len(), |i: int| decode_block(items[i])->Some_0))
    } else {
        None
    }
}

/// The `content` member of a message: an array of blocks, empty where absent.
pub open spec fn content_field(doc: JsonValue) -> Option<Seq<ContentBlockView>> {
    match member_of(doc, "content"@) {
        None => Some(Seq::empty()),
        Some(JsonValue::Array(items)) => decode_blocks(items),
        Some(_) => None,
    }
}

/// The message with nothing in it.
pub open spec fn empty_message() -> AssistantMessageView {
    AssistantMessageView { id: Seq::empty(), content: Seq::empty(), stop_reason: None }
}

/// The `message` member of an `assistant` event: an object, and the empty
/// message where the member is absent.
pub open spec fn decode_message(member: Option<JsonValue>) -> Option<AssistantMessageView> {
    match member {
        None => Some(empty_message()),
        Some(doc) => if doc is Object {
            match (
                text_field(doc, "id"@),
                content_field(doc),
                optional_text_field(doc, "stop_reason"@),
            ) {
                (Some(id), Some(content), Some(stop_reason)) => Some(
                    AssistantMessageView { id, content, stop_reason },
                ),
                _ => None,
            }
        } else {
            None
        },
    }
}

/// A `system` event: its `session_id` has to be there.
pub open spec fn decode_system(doc: JsonValue) -> Option<StreamEventView> {
    match (
        text_field(doc, "subtype"@),
        required_text(doc, "session_id"@),
        text_list_field(doc, "tools"@),
    ) {
        (Some(subtype), Some(session_id), Some(tools)) => Some(
            StreamEventView::System { subtype, session_id, tools },
        ),
        _ => None,
    }
}

/// An `assistant` event.
pub open spec fn decode_assistant(doc: JsonValue) -> Option<StreamEventView> {
    match (decode_message(member_of(doc, "message"@)), text_field(doc, "session_id"@)) {
        (Some(message), Some(session_id)) => Some(
            StreamEventView::Assistant { message, session_id },
        ),
        _ => None,
    }
}

/// A `result` event.
pub open spec fn decode_result(doc: JsonValue) -> Option<StreamEventView> {
    match (
        text_field(doc, "subtype"@),
        text_field(doc, "result"@),
        text_field(doc, "session_id"@),
        flag_field(doc, "is_error"@),
    ) {
        (Some(subtype), Some(result), Some(session_id), Some(is_error)) => Some(
            StreamEventView::Result { subtype, result, session_id, is_error },
        ),
        _ => None,
    }
}

/// The event a document stands for, or nothing where the document does not
/// have the expected shape: an object with a string `type`, and for the three
/// known types members of the right kinds. A member that is absent reads as
/// empty, except the `session_id` of a `system` event.
pub open spec fn decode_event(doc: JsonValue) -> Option<StreamEventView> {
    match required_text(doc, "type"@) {
        Some(kind) => if kind == "system"@ {
            decode_system(doc)
        } else if kind == "assistant"@ {
            decode_assistant(doc)
        } else if kind == "result"@ {
            decode_result(doc)
        } else {
            Some(StreamEventView::Unknown)
        },
        None => None,
    }
}

// ---------------------------------------------------------------------
// Reading the shapes
// ---------------------------------------------------------------------

fn read_required_text(doc: &Json, name: &str) -> (r: Option<String>)
    ensures
        r.deep_view() == required_text(doc.model(), name@),
{
    match doc.member(name) {
        Some(Json::Text(s)) => Some(s.clone()),
        _ => None,
    }
}

fn read_text(doc: &Json, name: &str) -> (r: Option<String>)
    ensures
        r.deep_view() == text_field(doc.model(), name@),
{
    match doc.member(name) {
        None => Some(String::new()),
        Some(Json::Text(s)) => Some(s.clone()),
        Some(_) => None,
    }
}

fn read_flag(doc: &Json, name: &str) -> (r: Option<bool>)
    ensures
        r == flag_field(doc.model(), name@),
{
    match doc.member(name) {
        None => Some(false),
        Some(Json::Bool(b)) => Some(*b),
        Some(_) => None,
    }
}

fn read_optional_text(doc: &Json, name: &str) -> (r: Option<Option<String>>)
    ensures
        r.deep_view() == optional_text_field(doc.model(), name@),
{
    match doc.member(name) {
        None => Some(None),
        Some(Json::Null) => Some(None),
        Some(Json::Text(s)) => Some(Some(s.clone())),
        Some(_) => None,
    }
}

fn read_text_items(items: &Vec<Json>) -> (r: Option<Vec<String>>)
    ensures
        r.deep_view() == text_items(items_model(items@)),
{
    let ghost models = items_model(items@);
    let mut out: Vec<String> = Vec::new();
    let mut i: usize = 0;
    while i < items.len()
        invariant
            i <= items.len(),
            models == items_model(items@),
            out@.len() == i,
            forall|k: int| 0 <= k < i ==> models[k] == JsonValue::Text(#[trigger] out@[k]@),
        decreases items.len() - i,
    {
        match &items[i] {
            Json::Text(s) => {
                out.push(s.clone());
            },
            _ => {
                assert(!(models[i as int] is Text));
                return None;
            },
        }
        i += 1;
    }
    proof {
        assert forall|k: int| 0 <= k < models.len() implies models[k] is Text by {
            assert(models[k] == JsonValue::Text(out@[k]@));
        }
        assert(out.deep_view() =~= Seq::new(models.len(), |i: int| models[i]->Text_0));
    }
    Some(out)
}

fn read_text_list(doc: &Json, name: &str) -> (r: Option<Vec<String>>)
    ensures
        r.deep_view() == text_list_field(doc.model(), name@),
{
    match doc.member(name) {
        None => {
            let out: Vec<String> = Vec::new();
            assert(out.deep_view() =~= Seq::<Seq<char>>::empty());
            Some(out)
        },
        Some(Json::Array(items)) => {
            proof {
                lemma_model_shape(Json::Array(*items));
            }
            read_text_items(items)
        },
        Some(_) => None,
    }
}

/// An optional block by its view.
pub open spec fn block_view(block: Option<ContentBlock>) -> Option<ContentBlockView> {
    match block {
        Some(b) => Some(b@),
        None => None,
    }
}

/// An optional list of blocks by its view.
pub open spec fn content_view(content: Option<Vec<ContentBlock>>) -> Option<
    Seq<ContentBlockView>,
> {
    match content {
        Some(blocks) => Some(blocks_view(blocks@)),
        None => None,
    }
}

/// An optional message by its view.
pub open spec fn message_view(message: Option<AssistantMessage>) -> Option<AssistantMessageView> {
    match message {
        Some(m) => Some(m@),
        None => None,
    }
}

impl ContentBlock {
    /// Reads a block off a document.
    pub fn from_json(doc: &Json) -> (r: Option<ContentBlock>)
        ensures
            block_view(r) == decode_block(doc.model()),
    {
        match read_required_text(doc, "type") {
            Some(kind) => {
                if str_eq(kind.as_str(), "text") {
                    match read_text(doc, "text") {
                        Some(text) => Some(ContentBlock::Text { text }),
                        None => None,
                    }
                } else {
                    Some(ContentBlock::Other)
                }
            },
            None => None,
        }
    }
}

fn read_blocks(items: &Vec<Json>) -> (r: Option<Vec<ContentBlock>>)
    ensures
        content_view(r) == decode_blocks(items_model(items@)),
{
    let ghost models = items_model(items@);
    let mut out: Vec<ContentBlock> = Vec::new();
    let mut i: usize = 0;
    while i < items.len()
        invariant
            i <= items.len(),
            models == items_model(items@),
            out@.len() == i,
            forall|k: int| 0 <= k < i ==> decode_block(models[k]) == Some(#[trigger] out@[k]@),
        decreases items.len() - i,
    {
        match ContentBlock::from_json(&items[i]) {
            Some(block) => {
                out.push(block);
            },
            None => {
                assert(decode_block(models[i as int]) is None);
                return None;
            },
        }
        i += 1;
    }
    proof {
        assert forall|k: int| 0 <= k < models.len() implies decode_block(
            #[trigger] models[k],
        ) is Some by {
            assert(decode_block(models[k]) == Some(out@[k]@));
        }
        assert(blocks_view(out@) =~= Seq::new(
            models.len(),
            |i: int| decode_block(models[i])->Some_0,
        ));
    }
    Some(out)
}

fn read_content(doc: &Json) -> (r: Option<Vec<ContentBlock>>)
    ensures
        content_view(r) == content_field(doc.model()),
{
    match doc.member("content") {
        None => {
            let out: Vec<ContentBlock> = Vec::new();
            assert(blocks_view(out@) =~= Seq::<ContentBlockView>::empty());
            Some(out)
        },
        Some(Json::Array(items)) => {
            proof {
                lemma_model_shape(Json::Array(*items));
            }
            read_blocks(items)
        },
        Some(_) => None,
    }
}

impl AssistantMessage {
    /// The message with nothing in it.
    pub fn empty() -> (r: AssistantMessage)
        ensures
            r@ == empty_message(),
    {
        let content: Vec<ContentBlock> = Vec::new();
        assert(blocks_view(content@) =~= Seq::<ContentBlockView>::empty());
        AssistantMessage { id: String::new(), content, stop_reason: None }
    }

    /// Reads the `message` member of the event `doc`.
    pub fn from_json(doc: &Json) -> (r: Option<AssistantMessage>)
        ensures
            message_view(r) == decode_message(member_of(doc.model(), "message"@)),
    {
        match doc.member("message") {
            None => Some(AssistantMessage::empty()),
            Some(inner) => {
                match inner {
                    Json::Object(_) => {},
                    _ => {
                        return None;
                    },
                }
                let id = match read_text(inner, "id") {
                    Some(id) => id,
                    None => {
                        return None;
                    },
                };
                let content = match read_content(inner) {
                    Some(content) => content,
                    None => {
                        return None;
                    },
                };
                let stop_reason = match read_optional_text(inner, "stop_reason") {
                    Some(stop_reason) => stop_reason,
                    None => {
                        return None;
                    },
                };
                Some(AssistantMessage { id, content, stop_reason })
            },
        }
    }
}

fn read_system(doc: &Json) -> (r: Option<StreamEvent>)
    ensures
        event_view(r) == decode_system(doc.model()),
{
    let subtype = match read_text(doc, "subtype") {
        Some(subtype) => subtype,
        None => {
            return None;
        },
    };
    let session_id = match read_required_text(doc, "session_id") {
        Some(session_id) => session_id,
        None => {
            return None;
        },
    };
    let tools = match read_text_list(doc, "tools") {
        Some(tools) => tools,
        None => {
            return None;
        },
    };
    Some(StreamEvent::System { subtype, session_id, tools })
}

fn read_assistant(doc: &Json) -> (r: Option<StreamEvent>)
    ensures
        event_view(r) == decode_assistant(doc.model()),
{
    let message = match AssistantMessage::from_json(doc) {
        Some(message) => message,
        None => {
            return None;
        },
    };
    let session_id = match read_text(doc, "session_id") {
        Some(session_id) => session_id,
        None => {
            return None;
        },
    };
    Some(StreamEvent::Assistant { message, session_id })
}

fn read_result(doc: &Json) -> (r: Option<StreamEvent>)
    ensures
        event_view(r) == decode_result(doc.model()),
{
    let subtype = match read_text(doc, "subtype") {
        Some(subtype) => subtype,
        None => {
            return None;
        },
    };
    let result = match read_text(doc, "result") {
        Some(result) => result,
        None => {
            return None;
        },
    };
    let session_id = match read_text(doc, "session_id") {
        Some(session_id) => session_id,
        None => {
            return None;
        },
    };
    let is_error = match read_flag(doc, "is_error") {
        Some(is_error) => is_error,
        None => {
            return None;
        },
    };
    Some(StreamEvent::Result { subtype, result, session_id, is_error })
}

impl StreamEvent {
    /// Matches a document against the shapes of the events. Nothing comes
    /// back exactly where the document has none of them.
    pub fn from_json(doc: &Json) -> (r: Option<StreamEvent>)
        ensures
            event_view(r) == decode_event(doc.model()),
    {
        match read_required_text(doc, "type") {
            Some(kind) => {
                if str_eq(kind.as_str(), "system") {
                    read_system(doc)
                } else if str_eq(kind.as_str(), "assistant") {
                    read_assistant(doc)
                } else if str_eq(kind.as_str(), "result") {
                    read_result(doc)
                } else {
                    Some(StreamEvent::Unknown)
                }
            },
            None => None,
        }
    }
}

// ---------------------------------------------------------------------
// From an event to an output
// ---------------------------------------------------------------------

/// The text a block shows: its own for a text block, none for another.
pub open spec fn block_text(block: ContentBlockView) -> Seq<char> {
    match block {
        ContentBlockView::Text { text } => text,
        ContentBlockView::Other => Seq::empty(),
    }
}

/// The texts of the text blocks, in the order of the blocks, with nothing
/// between them.
pub open spec fn joined_text(blocks: Seq<ContentBlockView>) -> Seq<char>
    decreases blocks.len(),
{
    if blocks.len() == 0 {
        Seq::empty()
    } else {
        joined_text(blocks.drop_last()) + block_text(blocks.last())
    }
}

/// What an event amounts to.
pub open spec fn event_output(event: StreamEventView) -> Option<ParsedOutputView> {
    match event {
        StreamEventView::System { session_id, .. } => Some(ParsedOutputView::SessionId(session_id)),
        StreamEventView::Assistant { message, .. } => {
            let text = joined_text(message.content);
            if text.len() > 0 {
                Some(ParsedOutputView::Text(text))
            } else {
                None
            }
        },
        StreamEventView::Result { result, is_error, .. } => if is_error {
            Some(ParsedOutputView::Error(result))
        } else {
            Some(ParsedOutputView::Complete)
        },
        StreamEventView::Unknown => None,
    }
}

/// The event on a line, if the line is JSON of the expected shape.
pub open spec fn line_event(line: Seq<char>) -> Option<StreamEventView> {
    match json_document(line) {
        Some(doc) => decode_event(doc),
        None => None,
    }
}

/// What a line amounts to.
pub open spec fn line_output(line: Seq<char>) -> Option<ParsedOutputView> {
    match line_event(line) {
        Some(event) => event_output(event),
        None => None,
    }
}

/// Why a line was dropped.
#[derive(Debug, PartialEq, Eq)]
pub enum LineDiagnostic {
    /// The line is not JSON; the text is what the decoder said of it.
    InvalidJson(String),
    /// The line is JSON, but not of the shape of any event.
    UnexpectedShape,
    /// The line is an event of a type this library does not know.
    UnknownEvent,
}

/// A [`LineDiagnostic`] without its text.
pub enum DiagnosticKind {
    InvalidJson,
    UnexpectedShape,
    UnknownEvent,
}

impl LineDiagnostic {
    pub open spec fn kind(self) -> DiagnosticKind {
        match self {
            LineDiagnostic::InvalidJson(_) => DiagnosticKind::InvalidJson,
            LineDiagnostic::UnexpectedShape => DiagnosticKind::UnexpectedShape,
            LineDiagnostic::UnknownEvent => DiagnosticKind::UnknownEvent,
        }
    }
}

/// The diagnostic a line calls for: one for each line that is not JSON, has
/// not the shape of an event, or is an event of an unknown type.
pub open spec fn line_diagnostic(line: Seq<char>) -> Option<DiagnosticKind> {
    match json_document(line) {
        None => Some(DiagnosticKind::InvalidJson),
        Some(doc) => match decode_event(doc) {
            None => Some(DiagnosticKind::UnexpectedShape),
            Some(StreamEventView::Unknown) => Some(DiagnosticKind::UnknownEvent),
            Some(_) => None,
        },
    }
}

/// An optional diagnostic without its text.
pub open spec fn diagnostic_kind(diagnostic: Option<LineDiagnostic>) -> Option<DiagnosticKind> {
    match diagnostic {
        Some(d) => Some(d.kind()),
        None => None,
    }
}

/// What became of one line: its output, and the diagnostic to record where
/// the line was dropped.
#[derive(Debug, PartialEq, Eq)]
pub struct LineReport {
    pub output: Option<ParsedOutput>,
    pub diagnostic: Option<LineDiagnostic>,
}

/// Adding a block to the blocks adds its text to the joined text.
pub proof fn lemma_joined_text_push(blocks: Seq<ContentBlockView>, block: ContentBlockView)
    ensures
        joined_text(blocks.push(block)) == joined_text(blocks) + block_text(block),
{
    assert(blocks.push(block).drop_last() =~= blocks);
}

/// Reduces an event to the output it amounts to: the session identifier of
/// a `system` event, the joined text of an `assistant` event unless it is
/// empty, and the end of the exchange for a `result` event.
pub fn parse_event(event: StreamEvent) -> (r: Option<ParsedOutput>)
    ensures
        output_view(r) == event_output(event@),
{
    match event {
        StreamEvent::System { session_id, .. } => Some(ParsedOutput::SessionId(session_id)),
        StreamEvent::Assistant { message, .. } => {
            let mut combined = String::new();
            let mut i: usize = 0;
            while i < message.content.len()
                invariant
                    i <= message.content.len(),
                    combined@ == joined_text(blocks_view(message.content@).take(i as int)),
                decreases message.content.len() - i,
            {
                let ghost all = blocks_view(message.content@);
                proof {
                    lemma_joined_text_push(all.take(i as int), all[i as int]);
                    assert(all.take(i as int).push(all[i as int]) =~= all.take(i as int + 1));
                }
                match &message.content[i] {
                    ContentBlock::Text { text } => {
                        combined.append(text.as_str());
                    },
                    ContentBlock::Other => {
                        assert(combined@ + Seq::<char>::empty() =~= combined@);
                    },
                }
                i += 1;
            }
            proof {
                let all = blocks_view(message.content@);
                assert(all.take(all.len() as int) =~= all);
            }
            if combined.as_str().is_empty() {
                None
            } else {
                Some(ParsedOutput::Text(combined))
            }
        },
        StreamEvent::Result { result, is_error, .. } => {
            if is_error {
                Some(ParsedOutput::Error(result))
            } else {
                Some(ParsedOutput::Complete)
            }
        },
        StreamEvent::Unknown => None,
    }
}

/// Parses one line of the stream and says why it was dropped, if it was.
/// A line that is not JSON, or not an event, gives no output and a
/// diagnostic; the function has no other way to fail.
pub fn inspect_stream_line(line: &str) -> (r: LineReport)
    ensures
        output_view(r.output) == line_output(line@),
        diagnostic_kind(r.diagnostic) == line_diagnostic(line@),
{
    match decode_json(line) {
        Err(fault) => LineReport {
            output: None,
            diagnostic: Some(LineDiagnostic::InvalidJson(fault_text(&fault))),
        },
        Ok(doc) => match StreamEvent::from_json(&doc) {
            None => LineReport { output: None, diagnostic: Some(LineDiagnostic::UnexpectedShape) },
            Some(StreamEvent::Unknown) => LineReport {
                output: None,
                diagnostic: Some(LineDiagnostic::UnknownEvent),
            },
            Some(event) => LineReport { output: parse_event(event), diagnostic: None },
        },
    }
}

/// Parses one line of the stream.
pub fn parse_stream_line(line: &str) -> (r: Option<ParsedOutput>)
    ensures
        output_view(r) == line_output(line@),
{
    inspect_stream_line(line).output
}

// ---------------------------------------------------------------------
// What holds of every line
// ---------------------------------------------------------------------

/// The joined text of two runs of blocks is the joined text of the first
/// followed by that of the second: joining keeps the order of the blocks and
/// puts nothing between them.
pub proof fn law_joining_keeps_the_order(a: Seq<ContentBlockView>, b: Seq<ContentBlockView>)
    ensures
        joined_text(a + b) == joined_text(a) + joined_text(b),
    decreases b.len(),
{
    if b.len() == 0 {
        assert(a + b =~= a);
        assert(joined_text(a) + Seq::<char>::empty() =~= joined_text(a));
    } else {
        law_joining_keeps_the_order(a, b.drop_last());
        assert((a + b).drop_last() =~= a + b.drop_last());
        assert((a + b).last() == b.last());
        assert(joined_text(a) + joined_text(b.drop_last()) + block_text(b.last()) =~= joined_text(a)
            + (joined_text(b.drop_last()) + block_text(b.last())));
    }
}

/// Blocks none of which is a text block join to the empty text.
pub proof fn lemma_no_text_blocks_join_to_nothing(blocks: Seq<ContentBlockView>)
    requires
        forall|i: int| 0 <= i < blocks.len() ==> blocks[i] is Other,
    ensures
        joined_text(blocks).len() == 0,
    decreases blocks.len(),
{
    if blocks.len() > 0 {
        lemma_no_text_blocks_join_to_nothing(blocks.drop_last());
    }
}

/// A line that holds an `assistant` event displays the texts of its text
/// blocks, joined in the order of the blocks, provided that joined text is
/// not empty. Where it is empty, and so where the message has no text block
/// at all, the line displays nothing.
pub proof fn law_assistant_line_joins_its_text(
    line: Seq<char>,
    message: AssistantMessageView,
    session_id: Seq<char>,
)
    requires
        line_event(line) == Some(StreamEventView::Assistant { message, session_id }),
    ensures
        joined_text(message.content).len() > 0 ==> line_output(line) == Some(
            ParsedOutputView::Text(joined_text(message.content)),
        ),
        joined_text(message.content).len() == 0 ==> line_output(line) is None,
        (forall|i: int| 0 <= i < message.content.len() ==> message.content[i] is Other)
            ==> line_output(line) is None,
{
    if forall|i: int| 0 <= i < message.content.len() ==> message.content[i] is Other {
        lemma_no_text_blocks_join_to_nothing(message.content);
    }
}

/// A line that holds a `result` event ends the exchange: with the failure
/// it carries where `is_error` is set, and well where it is not.
pub proof fn law_result_line_ends_the_exchange(
    line: Seq<char>,
    subtype: Seq<char>,
    result: Seq<char>,
    session_id: Seq<char>,
    is_error: bool,
)
    requires
        line_event(line) == Some(StreamEventView::Result { subtype, result, session_id, is_error }),
    ensures
        is_error ==> line_output(line) == Some(ParsedOutputView::Error(result)),
        !is_error ==> line_output(line) == Some(ParsedOutputView::Complete),
{
}

/// A line that is not JSON gives no output, and a diagnostic says so.
pub proof fn law_malformed_line_is_dropped(line: Seq<char>)
    requires
        json_document(line) is None,
    ensures
        line_output(line) is None,
        line_diagnostic(line) == Some(DiagnosticKind::InvalidJson),
{
}

/// Every line that gives no diagnostic holds an event of a known type, and
/// every line that gives an output gives no diagnostic.
pub proof fn law_diagnostic_iff_dropped(line: Seq<char>)
    ensures
        line_diagnostic(line) is None <==> (line_event(line) is Some && !(line_event(
            line,
        )->Some_0 is Unknown)),
        line_output(line) is Some ==> line_diagnostic(line) is None,
{
}

} // verus!
