//! The conversation history index: what the agent CLI has stored of earlier
//! conversations, read off the listing of its storage directory.
//!
//! Looking into the file system is left to the caller, who hands over what
//! was found there; the index says where to look and what the findings mean.

use vstd::prelude::*;
use vstd::string::StringExecFns;
use crate::error::ClaudeError;
use crate::json::decode_json;
use crate::json::fault_text;
use crate::json::items_model;
use crate::json::json_document;
use crate::json::lemma_model_shape;
use crate::json::member_of;
use crate::json::Json;
use crate::json::JsonValue;
use crate::text::hex_text;
use crate::text::join_path;
use crate::text::joined_path;
use crate::text::shorten;
use crate::text::shortened;
use crate::text::str_eq;
use crate::text::to_hex;

verus! {

/// A point in time: seconds since the Unix epoch, and the nanoseconds into
/// that second.
#[derive(Debug, Clone, Copy, PartialEq, Eq, Structural)]
pub struct Timestamp {
    pub secs: i64,
    pub nanos: u32,
}

/// Whether `a` is strictly later than `b`.
pub open spec fn later(a: Timestamp, b: Timestamp) -> bool {
    a.secs > b.secs || (a.secs == b.secs && a.nanos > b.nanos)
}

impl Timestamp {
    /// Whether `self` is strictly later than `other`.
    pub fn is_later_than(&self, other: &Timestamp) -> (r: bool)
        ensures
            r == later(*self, *other),
    {
        self.secs > other.secs || (self.secs == other.secs && self.nanos > other.nanos)
    }
}

/// One stored conversation.
#[derive(Debug, PartialEq, Eq)]
pub struct ConversationInfo {
    pub id: String,
    pub title: Option<String>,
    pub preview: Option<String>,
    pub created_at: Timestamp,
    pub updated_at: Timestamp,
    pub message_count: usize,
}

pub struct ConversationInfoView {
    pub id: Seq<char>,
    pub title: Option<Seq<char>>,
    pub preview: Option<Seq<char>>,
    pub created_at: Timestamp,
    pub updated_at: Timestamp,
    pub message_count: nat,
}

impl View for ConversationInfo {
    type V = ConversationInfoView;

    open spec fn view(&self) -> ConversationInfoView {
        ConversationInfoView {
            id: self.id@,
            title: self.title.deep_view(),
            preview: self.preview.deep_view(),
            created_at: self.created_at,
            updated_at: self.updated_at,
            message_count: self.message_count as nat,
        }
    }
}

/// What the file system holds of one conversation: the name of its
/// directory, the times of the directory, and the text of its messages file
/// where there is one that can be read.
#[derive(Debug, PartialEq, Eq)]
pub struct ConversationDir {
    pub name: String,
    pub messages: Option<String>,
    pub created_at: Timestamp,
    pub updated_at: Timestamp,
}

pub struct ConversationDirView {
    pub name: Seq<char>,
    pub messages: Option<Seq<char>>,
    pub created_at: Timestamp,
    pub updated_at: Timestamp,
}

impl View for ConversationDir {
    type V = ConversationDirView;

    open spec fn view(&self) -> ConversationDirView {
        ConversationDirView {
            name: self.name@,
            messages: self.messages.deep_view(),
            created_at: self.created_at,
            updated_at: self.updated_at,
        }
    }
}

/// What a messages file says of its conversation.
#[derive(Debug, PartialEq, Eq)]
pub struct MessageSummary {
    pub title: Option<String>,
    pub preview: Option<String>,
    pub message_count: usize,
}

pub struct MessageSummaryView {
    pub title: Option<Seq<char>>,
    pub preview: Option<Seq<char>>,
    pub message_count: nat,
}

impl View for MessageSummary {
    type V = MessageSummaryView;

    open spec fn view(&self) -> MessageSummaryView {
        MessageSummaryView {
            title: self.title.deep_view(),
            preview: self.preview.deep_view(),
            message_count: self.message_count as nat,
        }
    }
}

/// The longest title, in characters.
pub const TITLE_LIMIT: usize = 50;

/// The longest preview, in characters.
pub const PREVIEW_LIMIT: usize = 100;

/// Whether a message was written by the user.
pub open spec fn is_user_message(message: JsonValue) -> bool {
    member_of(message, "role"@) == Some(JsonValue::Text("user"@))
}

/// The first message written by the user.
pub open spec fn first_user_message(messages: Seq<JsonValue>) -> Option<JsonValue>
    decreases messages.len(),
{
    if messages.len() == 0 {
        None
    } else if is_user_message(messages[0]) {
        Some(messages[0])
    } else {
        first_user_message(messages.drop_first())
    }
}

/// The text of the first message written by the user, where its `content`
/// is a string.
pub open spec fn first_user_text(messages: Seq<JsonValue>) -> Option<Seq<char>> {
    match first_user_message(messages) {
        Some(message) => match member_of(message, "content"@) {
            Some(JsonValue::Text(text)) => Some(text),
            _ => None,
        },
        None => None,
    }
}

/// An optional text, cut to `limit` characters.
pub open spec fn shortened_option(text: Option<Seq<char>>, limit: nat) -> Option<Seq<char>> {
    match text {
        Some(t) => Some(shortened(t, limit)),
        None => None,
    }
}

/// What a document says of its conversation, where it is an array: the
/// number of its messages, and the first message of the user as title and
/// as preview.
pub open spec fn summary_of(doc: JsonValue) -> Option<MessageSummaryView> {
    match doc {
        JsonValue::Array(messages) => Some(
            MessageSummaryView {
                title: shortened_option(first_user_text(messages), TITLE_LIMIT as nat),
                preview: shortened_option(first_user_text(messages), PREVIEW_LIMIT as nat),
                message_count: messages.len(),
            },
        ),
        _ => None,
    }
}

/// What the text of a messages file says of its conversation.
pub open spec fn summary_of_text(content: Seq<char>) -> Option<MessageSummaryView> {
    match json_document(content) {
        Some(doc) => summary_of(doc),
        None => None,
    }
}

/// An optional summary by its view.
pub open spec fn summary_view(summary: Option<MessageSummary>) -> Option<MessageSummaryView> {
    match summary {
        Some(s) => Some(s@),
        None => None,
    }
}

/// The text of the first message of the user among `messages`.
fn find_first_user_text(messages: &Vec<Json>) -> (r: Option<String>)
    ensures
        r.deep_view() == first_user_text(items_model(messages@)),
{
    let ghost all = items_model(messages@);
    proof {
        assert(all.skip(0) =~= all);
    }
    let mut i: usize = 0;
    while i < messages.len()
        invariant
            i <= messages.len(),
            all == items_model(messages@),
            first_user_message(all) == first_user_message(all.skip(i as int)),
        decreases messages.len() - i,
    {
        proof {
            assert(all.skip(i as int).drop_first() =~= all.skip(i as int + 1));
            assert(all.skip(i as int)[0] == messages@[i as int].model());
        }
        let by_user = match messages[i].member("role") {
            Some(Json::Text(role)) => str_eq(role.as_str(), "user"),
            _ => false,
        };
        if by_user {
            return match messages[i].member("content") {
                Some(Json::Text(text)) => Some(text.clone()),
                _ => None,
            };
        }
        i += 1;
    }
    None
}

impl MessageSummary {
    /// Reads the summary off the document of a messages file. Nothing comes
    /// back exactly where the document is not an array.
    pub fn from_json(doc: &Json) -> (r: Option<MessageSummary>)
        ensures
            summary_view(r) == summary_of(doc.model()),
    {
        match doc {
            Json::Array(messages) => {
                proof {
                    lemma_model_shape(*doc);
                }
                let first = find_first_user_text(messages);
                let (title, preview) = match &first {
                    Some(text) => (
                        Some(shorten(text.as_str(), TITLE_LIMIT)),
                        Some(shorten(text.as_str(), PREVIEW_LIMIT)),
                    ),
                    None => (None, None),
                };
                Some(MessageSummary { title, preview, message_count: messages.len() })
            },
            _ => None,
        }
    }
}

/// Reads the summary off the text of a messages file. It fails, with
/// `HistoryParseError`, exactly where the text is not a JSON array.
pub fn summarize_messages(content: &str) -> (r: Result<MessageSummary, ClaudeError>)
    ensures
        match r {
            Ok(summary) => summary_of_text(content@) == Some(summary@),
            Err(e) => summary_of_text(content@) is None && e is HistoryParseError,
        },
{
    match decode_json(content) {
        Err(fault) => Err(ClaudeError::HistoryParseError(fault_text(&fault))),
        Ok(doc) => match MessageSummary::from_json(&doc) {
            Some(summary) => Ok(summary),
            None => Err(
                ClaudeError::HistoryParseError(String::from_str("expected an array of messages")),
            ),
        },
    }
}

// ---------------------------------------------------------------------
// Conversations and their order
// ---------------------------------------------------------------------

/// The conversation that a directory holds. A messages file that is missing
/// or that cannot be understood leaves the title and the preview out and the
/// count at zero.
pub open spec fn conversation_of(dir: ConversationDirView) -> ConversationInfoView {
    let summary = match dir.messages {
        Some(content) => summary_of_text(content),
        None => None,
    };
    ConversationInfoView {
        id: dir.name,
        title: match summary {
            Some(s) => s.title,
            None => None,
        },
        preview: match summary {
            Some(s) => s.preview,
            None => None,
        },
        created_at: dir.created_at,
        updated_at: dir.updated_at,
        message_count: match summary {
            Some(s) => s.message_count,
            None => 0,
        },
    }
}

/// The conversations of the directories, in the order of the directories.
pub open spec fn conversations_of(dirs: Seq<ConversationDirView>) -> Seq<ConversationInfoView> {
    Seq::new(dirs.len(), |i: int| conversation_of(dirs[i]))
}

/// Directories by their views.
pub open spec fn dirs_view(dirs: Seq<ConversationDir>) -> Seq<ConversationDirView> {
    Seq::new(dirs.len(), |i: int| dirs[i]@)
}

/// Conversations by their views.
pub open spec fn infos_view(infos: Seq<ConversationInfo>) -> Seq<ConversationInfoView> {
    Seq::new(infos.len(), |i: int| infos[i]@)
}

/// `list` with `item` put in before the first conversation that was not
/// updated later than it.
pub open spec fn inserted(list: Seq<ConversationInfoView>, item: ConversationInfoView) -> Seq<
    ConversationInfoView,
>
    decreases list.len(),
{
    if list.len() > 0 && later(list[0].updated_at, item.updated_at) {
        seq![list[0]] + inserted(list.drop_first(), item)
    } else {
        seq![item] + list
    }
}

/// `list` ordered by the time of the last update, latest first;
/// conversations updated at the same time keep the order they had.
pub open spec fn latest_first(list: Seq<ConversationInfoView>) -> Seq<ConversationInfoView>
    decreases list.len(),
{
    if list.len() == 0 {
        seq![]
    } else {
        inserted(latest_first(list.drop_first()), list[0])
    }
}

/// No conversation of `list` was updated later than one that stands before it.
pub open spec fn is_latest_first(list: Seq<ConversationInfoView>) -> bool {
    forall|i: int, j: int|
        0 <= i < j < list.len() ==> !later(#[trigger] list[j].updated_at, #[trigger] list[
            i
        ].updated_at)
}

/// Inserting keeps every conversation, adds the one inserted, and keeps the
/// order.
pub proof fn lemma_inserted(list: Seq<ConversationInfoView>, item: ConversationInfoView)
    ensures
        inserted(list, item).to_multiset() == list.to_multiset().insert(item),
        inserted(list, item).len() == list.len() + 1,
        is_latest_first(list) ==> is_latest_first(inserted(list, item)),
    decreases list.len(),
{
    broadcast use vstd::seq_lib::group_to_multiset_ensures;

    let out = inserted(list, item);
    if list.len() > 0 && later(list[0].updated_at, item.updated_at) {
        let rest = list.drop_first();
        lemma_inserted(rest, item);
        let tail = inserted(rest, item);
        assert(list =~= seq![list[0]] + rest);
        assert(out =~= seq![list[0]] + tail);
        assert(out.drop_first() =~= tail);
        assert(out.to_multiset() =~= tail.to_multiset().insert(list[0])) by {
            assert(out =~= tail.insert(0, list[0]));
            vstd::seq_lib::to_multiset_insert(tail, 0, list[0]);
        }
        assert(list.to_multiset() =~= rest.to_multiset().insert(list[0])) by {
            assert(list =~= rest.insert(0, list[0]));
            vstd::seq_lib::to_multiset_insert(rest, 0, list[0]);
        }
        assert(out.to_multiset() =~= list.to_multiset().insert(item));
        if is_latest_first(list) {
            assert(is_latest_first(rest)) by {
                assert forall|i: int, j: int| 0 <= i < j < rest.len() implies !later(
                    #[trigger] rest[j].updated_at,
                    #[trigger] rest[i].updated_at,
                ) by {
                    assert(rest[i] == list[i + 1]);
                    assert(rest[j] == list[j + 1]);
                }
            }
            assert forall|i: int, j: int| 0 <= i < j < out.len() implies !later(
                #[trigger] out[j].updated_at,
                #[trigger] out[i].updated_at,
            ) by {
                if i == 0 {
                    // every conversation of `tail` is `item` or one of `rest`
                    let x = tail[j - 1];
                    assert(out[j] == x);
                    assert(tail.to_multiset().count(x) > 0);
                    if x != item {
                        assert(rest.to_multiset().count(x) > 0);
                        let k = choose|k: int| 0 <= k < rest.len() && rest[k] == x;
                        assert(list[k + 1] == x);
                    }
                } else {
                    assert(out[i] == tail[i - 1]);
                    assert(out[j] == tail[j - 1]);
                }
            }
        }
    } else {
        assert(out =~= list.insert(0, item));
        vstd::seq_lib::to_multiset_insert(list, 0, item);
        if is_latest_first(list) {
            assert forall|i: int, j: int| 0 <= i < j < out.len() implies !later(
                #[trigger] out[j].updated_at,
                #[trigger] out[i].updated_at,
            ) by {
                if i == 0 {
                    if list.len() > 0 {
                        assert(out[j] == list[j - 1]);
                        if j - 1 > 0 {
                            assert(!later(list[j - 1].updated_at, list[0].updated_at));
                        }
                    }
                } else {
                    assert(out[i] == list[i - 1]);
                    assert(out[j] == list[j - 1]);
                }
            }
        }
    }
}

/// Ordering keeps every conversation, as often as it occurs, and puts the
/// latest first.
pub proof fn lemma_latest_first(list: Seq<ConversationInfoView>)
    ensures
        latest_first(list).to_multiset() == list.to_multiset(),
        latest_first(list).len() == list.len(),
        is_latest_first(latest_first(list)),
    decreases list.len(),
{
    broadcast use vstd::seq_lib::group_to_multiset_ensures;

    if list.len() == 0 {
        assert(latest_first(list) =~= list);
    } else {
        let rest = list.drop_first();
        lemma_latest_first(rest);
        lemma_inserted(latest_first(rest), list[0]);
        assert(list =~= rest.insert(0, list[0]));
        vstd::seq_lib::to_multiset_insert(rest, 0, list[0]);
    }
}

/// Inserting puts the conversation at the first place where the one that
/// stands there was not updated later than it.
pub proof fn lemma_inserted_at(
    list: Seq<ConversationInfoView>,
    item: ConversationInfoView,
    place: int,
)
    requires
        0 <= place <= list.len(),
        forall|i: int| 0 <= i < place ==> later(#[trigger] list[i].updated_at, item.updated_at),
        place < list.len() ==> !later(list[place].updated_at, item.updated_at),
    ensures
        inserted(list, item) == list.insert(place, item),
    decreases list.len(),
{
    if place == 0 {
        assert(seq![item] + list =~= list.insert(0, item));
    } else {
        let rest = list.drop_first();
        assert forall|i: int| 0 <= i < place - 1 implies later(
            #[trigger] rest[i].updated_at,
            item.updated_at,
        ) by {
            assert(rest[i] == list[i + 1]);
        }
        lemma_inserted_at(rest, item, place - 1);
        assert(later(list[0].updated_at, item.updated_at));
        assert(seq![list[0]] + rest.insert(place - 1, item) =~= list.insert(place, item));
    }
}

/// Orders conversations by the time of their last update, latest first.
/// Every conversation is kept, and those updated at the same time keep the
/// order they came in.
pub fn sort_conversations(list: Vec<ConversationInfo>) -> (r: Vec<ConversationInfo>)
    ensures
        infos_view(r@) == latest_first(infos_view(list@)),
        is_latest_first(infos_view(r@)),
        infos_view(r@).to_multiset() == infos_view(list@).to_multiset(),
        r@.len() == list@.len(),
{
    let ghost all = infos_view(list@);
    let mut list = list;
    let mut out: Vec<ConversationInfo> = Vec::new();
    proof {
        assert(all.skip(all.len() as int) =~= Seq::<ConversationInfoView>::empty());
        assert(infos_view(out@) =~= Seq::<ConversationInfoView>::empty());
    }
    while list.len() > 0
        invariant
            list@.len() <= all.len(),
            infos_view(list@) == all.take(list@.len() as int),
            infos_view(out@) == latest_first(all.skip(list@.len() as int)),
        decreases list@.len(),
    {
        let ghost before = infos_view(list@);
        let ghost sorted = infos_view(out@);
        let ghost n = list@.len() as int;
        let item = list.pop().unwrap();
        proof {
            assert(item@ == before[n - 1]);
            assert(before[n - 1] == all[n - 1]);
            assert(infos_view(list@) =~= all.take(n - 1));
            assert(all.skip(n - 1).drop_first() =~= all.skip(n));
            assert(all.skip(n - 1)[0] == item@);
        }
        let mut place: usize = 0;
        while place < out.len() && out[place].updated_at.is_later_than(&item.updated_at)
            invariant
                place <= out.len(),
                sorted == infos_view(out@),
                forall|i: int|
                    0 <= i < place ==> later(#[trigger] sorted[i].updated_at, item.updated_at),
            decreases out.len() - place,
        {
            place += 1;
        }
        proof {
            lemma_inserted_at(sorted, item@, place as int);
        }
        out.insert(place, item);
        proof {
            assert(infos_view(out@) =~= sorted.insert(place as int, item@));
        }
    }
    proof {
        assert(all.skip(0) =~= all);
        lemma_latest_first(all);
    }
    out
}

/// Reads the conversation that a directory holds.
pub fn parse_conversation_dir(dir: &ConversationDir) -> (r: ConversationInfo)
    ensures
        r@ == conversation_of(dir@),
{
    let summary = match &dir.messages {
        Some(content) => match summarize_messages(content.as_str()) {
            Ok(summary) => Some(summary),
            Err(_) => None,
        },
        None => None,
    };
    let (title, preview, message_count) = match summary {
        Some(s) => (s.title, s.preview, s.message_count),
        None => (None, None, 0),
    };
    ConversationInfo {
        id: dir.name.clone(),
        title,
        preview,
        created_at: dir.created_at,
        updated_at: dir.updated_at,
        message_count,
    }
}

// ---------------------------------------------------------------------
// The index
// ---------------------------------------------------------------------

/// The 64-bit digest that std's `DefaultHasher`, as `DefaultHasher::new`
/// makes it, gives for a string.
pub uninterp spec fn project_digest(path: Seq<char>) -> u64;

/// Hashes `path` with std's `DefaultHasher` by `BuildHasher::hash_one`. The
/// contract only names the digest. `DefaultHasher::new` takes no seed, so the
/// digest of a path is the same in every process; std does not promise that
/// it stays the same from one release of std to the next.
#[verifier::external_body]
fn digest(path: &str) -> (r: u64)
    ensures
        r == project_digest(path@),
{
    let hashers = std::hash::BuildHasherDefault::<std::hash::DefaultHasher>::default();
    std::hash::BuildHasher::hash_one(&hashers, path)
}

/// The key under which the conversations of a project are stored: the
/// digest of the path of its directory, in hexadecimal.
pub open spec fn project_key(project_dir: Seq<char>) -> Seq<char> {
    hex_text(project_digest(project_dir) as nat)
}

/// Which traces of a login were found in the configuration directory.
#[derive(Debug, Clone, Copy, PartialEq, Eq, Structural)]
pub struct AuthProbe {
    pub settings_file: bool,
    pub history_file: bool,
    pub projects_dir: bool,
}

/// Whether the traces alone show a login: the settings, and with them a
/// history or stored projects.
pub open spec fn shows_login(probe: AuthProbe) -> bool {
    probe.settings_file && (probe.history_file || probe.projects_dir)
}

/// The conversation history of one project.
pub struct SessionManager {
    claude_dir: String,
    project_hash: Option<String>,
}

pub struct SessionManagerView {
    /// The configuration directory of the agent CLI.
    pub claude_dir: Seq<char>,
    /// The key of the project, once its directory is known.
    pub project_hash: Option<Seq<char>>,
}

impl View for SessionManager {
    type V = SessionManagerView;

    closed spec fn view(&self) -> SessionManagerView {
        SessionManagerView {
            claude_dir: self.claude_dir@,
            project_hash: self.project_hash.deep_view(),
        }
    }
}

/// The configuration directory: `dir_name` below the home directory, or
/// `dir_name` by itself where no home directory is known.
pub open spec fn config_dir(home: Option<Seq<char>>, dir_name: Seq<char>) -> Seq<char> {
    match home {
        Some(h) => joined_path(h, dir_name),
        None => dir_name,
    }
}

/// The directory under which the conversations of all projects are stored.
pub open spec fn projects_path(m: SessionManagerView) -> Seq<char> {
    joined_path(m.claude_dir, "projects"@)
}

/// The directory of the conversations of the project, once it is known.
pub open spec fn project_path(m: SessionManagerView) -> Option<Seq<char>> {
    match m.project_hash {
        Some(key) => Some(joined_path(projects_path(m), key)),
        None => None,
    }
}

/// The directory of one conversation of the project.
pub open spec fn conversation_path(m: SessionManagerView, id: Seq<char>) -> Option<Seq<char>> {
    match project_path(m) {
        Some(dir) => Some(joined_path(dir, id)),
        None => None,
    }
}

/// An optional conversation by its view.
pub open spec fn info_view(info: Option<ConversationInfo>) -> Option<ConversationInfoView> {
    match info {
        Some(i) => Some(i@),
        None => None,
    }
}

impl SessionManager {
    /// The index over the configuration directory `dir_name` of the user
    /// whose home directory is `home`. No project is chosen yet.
    pub fn new(home: &Option<String>, dir_name: &str) -> (r: SessionManager)
        ensures
            r@ == (SessionManagerView {
                claude_dir: config_dir(home.deep_view(), dir_name@),
                project_hash: None,
            }),
    {
        let claude_dir = match home {
            Some(h) => join_path(h.as_str(), dir_name),
            None => String::from_str(dir_name),
        };
        SessionManager { claude_dir, project_hash: None }
    }

    /// Chooses the project by the path of its directory.
    pub fn set_project_dir(&mut self, project_dir: &str)
        ensures
            final(self)@ == (SessionManagerView {
                claude_dir: old(self)@.claude_dir,
                project_hash: Some(project_key(project_dir@)),
            }),
    {
        self.project_hash = Some(to_hex(digest(project_dir)));
    }

    /// The configuration directory of the agent CLI.
    pub fn get_claude_dir(&self) -> (r: &String)
        ensures
            r@ == self@.claude_dir,
    {
        &self.claude_dir
    }

    /// The key of the project, once one is chosen.
    pub fn project_hash(&self) -> (r: &Option<String>)
        ensures
            r.deep_view() == self@.project_hash,
    {
        &self.project_hash
    }

    /// The directory under which the conversations of all projects are stored.
    pub fn projects_dir(&self) -> (r: String)
        ensures
            r@ == projects_path(self@),
    {
        join_path(self.claude_dir.as_str(), "projects")
    }

    /// The directory of the conversations of the project, once one is chosen.
    pub fn project_conversations_dir(&self) -> (r: Option<String>)
        ensures
            r.deep_view() == project_path(self@),
    {
        match &self.project_hash {
            Some(key) => Some(join_path(self.projects_dir().as_str(), key.as_str())),
            None => None,
        }
    }

    /// The directory of the conversation `id`, once a project is chosen.
    pub fn conversation_dir(&self, id: &str) -> (r: Option<String>)
        ensures
            r.deep_view() == conversation_path(self@, id@),
    {
        match self.project_conversations_dir() {
            Some(dir) => Some(join_path(dir.as_str(), id)),
            None => None,
        }
    }

    /// The file whose presence shows that the CLI has been configured.
    pub fn settings_file(&self) -> (r: String)
        ensures
            r@ == joined_path(self@.claude_dir, "settings.json"@),
    {
        join_path(self.claude_dir.as_str(), "settings.json")
    }

    /// The file whose presence shows that the CLI has been used.
    pub fn history_file(&self) -> (r: String)
        ensures
            r@ == joined_path(self@.claude_dir, "history.jsonl"@),
    {
        join_path(self.claude_dir.as_str(), "history.jsonl")
    }

    /// Whether somebody has logged in with the CLI: the traces in the
    /// configuration directory show it, or else the CLI answered a request
    /// for its version, which the caller makes only where the traces fail.
    pub fn is_authenticated(&self, probe: &AuthProbe, version_check_passed: bool) -> (r: bool)
        ensures
            r == (shows_login(*probe) || version_check_passed),
    {
        (probe.settings_file && (probe.history_file || probe.projects_dir))
            || version_check_passed
    }

    /// The conversations of the project, latest first, given the
    /// directories found under [`Self::project_conversations_dir`]. Without
    /// a project there are none.
    pub fn list_conversations(&self, dirs: &Vec<ConversationDir>) -> (r: Vec<ConversationInfo>)
        ensures
            infos_view(r@) == (if self@.project_hash is Some {
                latest_first(conversations_of(dirs_view(dirs@)))
            } else {
                Seq::empty()
            }),
            is_latest_first(infos_view(r@)),
    {
        let mut found: Vec<ConversationInfo> = Vec::new();
        if self.project_hash.is_none() {
            assert(infos_view(found@) =~= Seq::<ConversationInfoView>::empty());
            return found;
        }
        let ghost all = conversations_of(dirs_view(dirs@));
        proof {
            assert(infos_view(found@) =~= all.take(0));
        }
        let mut i: usize = 0;
        while i < dirs.len()
            invariant
                i <= dirs.len(),
                all == conversations_of(dirs_view(dirs@)),
                infos_view(found@) == all.take(i as int),
            decreases dirs.len() - i,
        {
            let ghost before = infos_view(found@);
            let info = parse_conversation_dir(&dirs[i]);
            proof {
                assert(dirs_view(dirs@)[i as int] == dirs@[i as int]@);
                assert(all[i as int] == info@);
            }
            found.push(info);
            proof {
                assert(infos_view(found@) =~= before.push(info@));
                assert(all.take(i as int + 1) =~= all.take(i as int).push(all[i as int]));
            }
            i += 1;
        }
        proof {
            assert(all.take(dirs@.len() as int) =~= all);
        }
        sort_conversations(found)
    }

    /// The conversation `id`, given what was found at
    /// [`Self::conversation_dir`]: nothing without a project, and nothing
    /// where no such directory exists.
    pub fn get_conversation(&self, found: &Option<ConversationDir>) -> (r: Option<ConversationInfo>)
        ensures
            info_view(r) == (match found {
                Some(dir) if self@.project_hash is Some => Some(conversation_of(dir@)),
                _ => None,
            }),
    {
        if self.project_hash.is_none() {
            return None;
        }
        match found {
            Some(dir) => Some(parse_conversation_dir(dir)),
            None => None,
        }
    }
}

} // verus!
