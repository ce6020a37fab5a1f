use claude_session::error::ClaudeError;
use claude_session::json::Json;
use claude_session::sessions::parse_conversation_dir;
use claude_session::sessions::sort_conversations;
use claude_session::sessions::summarize_messages;
use claude_session::sessions::AuthProbe;
use claude_session::sessions::ConversationDir;
use claude_session::sessions::ConversationInfo;
use claude_session::sessions::MessageSummary;
use claude_session::sessions::SessionManager;
use claude_session::sessions::Timestamp;
use claude_session::sessions::PREVIEW_LIMIT;
use claude_session::sessions::TITLE_LIMIT;
use std::hash::Hash;
use std::hash::Hasher;

fn at(secs: i64, nanos: u32) -> Timestamp {
    Timestamp { secs, nanos }
}

fn dir(name: &str, messages: Option<&str>, updated: Timestamp) -> ConversationDir {
    ConversationDir {
        name: name.to_string(),
        messages: messages.map(|m| m.to_string()),
        created_at: at(1, 0),
        updated_at: updated,
    }
}

fn info(id: &str, updated: Timestamp) -> ConversationInfo {
    ConversationInfo {
        id: id.to_string(),
        title: None,
        preview: None,
        created_at: at(0, 0),
        updated_at: updated,
        message_count: 0,
    }
}

fn ids(list: &[ConversationInfo]) -> Vec<&str> {
    list.iter().map(|c| c.id.as_str()).collect()
}

fn with_project() -> SessionManager {
    let mut manager = SessionManager::new(&Some("/home/ann".to_string()), ".agent");
    manager.set_project_dir("/Users/test/project");
    manager
}

#[test]
fn test_session_manager_creation() {
    let manager = SessionManager::new(&Some("/home/ann".to_string()), ".agent");
    assert!(manager.get_claude_dir().ends_with(".agent"));
}

#[test]
fn test_project_hash() {
    let mut manager = SessionManager::new(&Some("/home/ann".to_string()), ".agent");
    manager.set_project_dir("/Users/test/project");
    assert!(manager.project_hash().is_some());
}

#[test]
fn configuration_directory_lies_below_home() {
    let manager = SessionManager::new(&Some("/home/ann".to_string()), ".agent");
    assert_eq!(manager.get_claude_dir(), "/home/ann/.agent");
    assert_eq!(manager.project_hash(), &None);
    let manager = SessionManager::new(&Some("/home/ann/".to_string()), ".agent");
    assert_eq!(manager.get_claude_dir(), "/home/ann/.agent");
    let manager = SessionManager::new(&None, ".agent");
    assert_eq!(manager.get_claude_dir(), ".agent");
}

#[test]
fn project_key_is_the_digest_in_hexadecimal() {
    let mut hasher = std::collections::hash_map::DefaultHasher::new();
    "/Users/test/project".hash(&mut hasher);
    let expected = format!("{:x}", hasher.finish());
    let manager = with_project();
    assert_eq!(manager.project_hash(), &Some(expected));
}

#[test]
fn project_keys_of_two_directories_differ() {
    let mut one = SessionManager::new(&None, ".agent");
    let mut two = SessionManager::new(&None, ".agent");
    one.set_project_dir("/a");
    two.set_project_dir("/b");
    assert_ne!(one.project_hash(), two.project_hash());
    two.set_project_dir("/a");
    assert_eq!(one.project_hash(), two.project_hash());
}

#[test]
fn paths_of_the_index() {
    let mut manager = SessionManager::new(&Some("/home/ann".to_string()), ".agent");
    assert_eq!(manager.projects_dir(), "/home/ann/.agent/projects");
    assert_eq!(manager.settings_file(), "/home/ann/.agent/settings.json");
    assert_eq!(manager.history_file(), "/home/ann/.agent/history.jsonl");
    assert_eq!(manager.project_conversations_dir(), None);
    assert_eq!(manager.conversation_dir("c1"), None);
    manager.set_project_dir("/work");
    let key = manager.project_hash().clone().unwrap();
    assert_eq!(
        manager.project_conversations_dir(),
        Some(format!("/home/ann/.agent/projects/{}", key))
    );
    assert_eq!(
        manager.conversation_dir("c1"),
        Some(format!("/home/ann/.agent/projects/{}/c1", key))
    );
}

#[test]
fn authentication_truth_table() {
    let manager = SessionManager::new(&None, ".agent");
    for settings in [false, true] {
        for history in [false, true] {
            for projects in [false, true] {
                for version in [false, true] {
                    let probe = AuthProbe {
                        settings_file: settings,
                        history_file: history,
                        projects_dir: projects,
                    };
                    let expected = (settings && (history || projects)) || version;
                    assert_eq!(manager.is_authenticated(&probe, version), expected);
                }
            }
        }
    }
}

#[test]
fn two_directories_come_latest_first() {
    let manager = with_project();
    let dirs = vec![dir("first", None, at(100, 0)), dir("second", None, at(200, 0))];
    let list = manager.list_conversations(&dirs);
    assert_eq!(ids(&list), vec!["second", "first"]);
    let dirs = vec![dir("second", None, at(200, 0)), dir("first", None, at(100, 0))];
    let list = manager.list_conversations(&dirs);
    assert_eq!(ids(&list), vec!["second", "first"]);
}

#[test]
fn nanoseconds_break_ties_of_seconds() {
    let manager = with_project();
    let dirs = vec![dir("a", None, at(5, 1)), dir("b", None, at(5, 2)), dir("c", None, at(4, 999))];
    assert_eq!(ids(&manager.list_conversations(&dirs)), vec!["b", "a", "c"]);
}

#[test]
fn without_a_project_there_are_no_conversations() {
    let manager = SessionManager::new(&None, ".agent");
    let dirs = vec![dir("a", None, at(5, 1))];
    assert!(manager.list_conversations(&dirs).is_empty());
    assert_eq!(manager.get_conversation(&Some(dir("a", None, at(5, 1)))), None);
}

#[test]
fn no_directories_give_no_conversations() {
    assert!(with_project().list_conversations(&vec![]).is_empty());
}

#[test]
fn sorting_is_stable_and_keeps_everything() {
    let list = vec![
        info("a", at(3, 0)),
        info("b", at(7, 0)),
        info("c", at(3, 0)),
        info("d", at(-1, 0)),
        info("e", at(7, 0)),
        info("f", at(3, 0)),
    ];
    let sorted = sort_conversations(list);
    assert_eq!(ids(&sorted), vec!["b", "e", "a", "c", "f", "d"]);
    assert!(sort_conversations(vec![]).is_empty());
    assert_eq!(ids(&sort_conversations(vec![info("x", at(0, 0))])), vec!["x"]);
}

#[test]
fn later_compares_seconds_then_nanoseconds() {
    assert!(at(2, 0).is_later_than(&at(1, 999)));
    assert!(at(1, 5).is_later_than(&at(1, 4)));
    assert!(!at(1, 4).is_later_than(&at(1, 4)));
    assert!(!at(1, 4).is_later_than(&at(1, 5)));
    assert!(!at(-3, 0).is_later_than(&at(-2, 0)));
}

#[test]
fn conversation_takes_its_summary_from_the_messages() {
    let messages = r#"[{"role":"system","content":"rules"},{"role":"user","content":"What is up?"},{"role":"assistant","content":"Not much"},{"role":"user","content":"later"}]"#;
    let found = dir("c-1", Some(messages), at(9, 9));
    let conversation = parse_conversation_dir(&found);
    assert_eq!(
        conversation,
        ConversationInfo {
            id: "c-1".to_string(),
            title: Some("What is up?".to_string()),
            preview: Some("What is up?".to_string()),
            created_at: at(1, 0),
            updated_at: at(9, 9),
            message_count: 4,
        }
    );
    assert_eq!(with_project().get_conversation(&Some(found)), Some(conversation));
    assert_eq!(with_project().get_conversation(&None), None);
}

#[test]
fn conversation_without_readable_messages_has_no_summary() {
    for messages in [None, Some("not json"), Some("{\"role\":\"user\"}")] {
        let conversation = parse_conversation_dir(&dir("c", messages, at(3, 0)));
        assert_eq!(conversation.title, None);
        assert_eq!(conversation.preview, None);
        assert_eq!(conversation.message_count, 0);
        assert_eq!(conversation.id, "c");
        assert_eq!(conversation.updated_at, at(3, 0));
    }
}

#[test]
fn long_first_message_is_cut_for_title_and_preview() {
    let long: String = "abcdefghij".repeat(12);
    let messages = format!(r#"[{{"role":"user","content":"{}"}}]"#, long);
    let summary = summarize_messages(&messages).unwrap();
    assert_eq!(
        summary.title,
        Some("abcdefghijabcdefghijabcdefghijabcdefghijabcdefg...".to_string())
    );
    let preview = summary.preview.unwrap();
    assert_eq!(preview.chars().count(), 100);
    assert_eq!(preview, format!("{}...", &long[..97]));
    assert_eq!(summary.message_count, 1);
    assert_eq!(TITLE_LIMIT, 50);
    assert_eq!(PREVIEW_LIMIT, 100);
}

#[test]
fn message_of_exactly_the_limit_is_not_cut() {
    let fifty: String = "x".repeat(50);
    let messages = format!(r#"[{{"role":"user","content":"{}"}}]"#, fifty);
    let summary = summarize_messages(&messages).unwrap();
    assert_eq!(summary.title, Some(fifty.clone()));
    assert_eq!(summary.preview, Some(fifty));
    let fifty_one: String = "x".repeat(51);
    let messages = format!(r#"[{{"role":"user","content":"{}"}}]"#, fifty_one);
    let summary = summarize_messages(&messages).unwrap();
    assert_eq!(summary.title, Some(format!("{}...", "x".repeat(47))));
    assert_eq!(summary.preview, Some(fifty_one));
}

#[test]
fn cutting_counts_characters_not_bytes() {
    let long: String = "\u{e9}".repeat(60);
    let messages = format!(r#"[{{"role":"user","content":"{}"}}]"#, long);
    let summary = summarize_messages(&messages).unwrap();
    assert_eq!(summary.title, Some(format!("{}...", "\u{e9}".repeat(47))));
    assert_eq!(summary.preview, Some(long));
}

#[test]
fn summary_without_a_user_message() {
    let summary = summarize_messages(r#"[{"role":"assistant","content":"hi"},3,"x"]"#).unwrap();
    assert_eq!(summary, MessageSummary { title: None, preview: None, message_count: 3 });
    let summary = summarize_messages("[]").unwrap();
    assert_eq!(summary, MessageSummary { title: None, preview: None, message_count: 0 });
}

#[test]
fn only_the_first_user_message_counts() {
    let messages = r#"[{"role":"user","content":[{"type":"text"}]},{"role":"user","content":"second"}]"#;
    let summary = summarize_messages(messages).unwrap();
    assert_eq!(summary, MessageSummary { title: None, preview: None, message_count: 2 });
}

#[test]
fn messages_that_are_no_array_fail() {
    for content in ["", "{", "{}", "\"text\"", "7", "null"] {
        match summarize_messages(content) {
            Err(ClaudeError::HistoryParseError(message)) => assert!(!message.is_empty()),
            other => panic!("{:?} gave {:?}", content, other),
        }
    }
}

#[test]
fn summary_is_read_off_a_document() {
    let user = Json::Object(vec![
        ("role".to_string(), Json::Text("user".to_string())),
        ("content".to_string(), Json::Text("hello".to_string())),
    ]);
    let doc = Json::Array(vec![Json::Null, user]);
    assert_eq!(
        MessageSummary::from_json(&doc),
        Some(MessageSummary {
            title: Some("hello".to_string()),
            preview: Some("hello".to_string()),
            message_count: 2,
        })
    );
    assert_eq!(MessageSummary::from_json(&Json::Null), None);
    assert_eq!(MessageSummary::from_json(&Json::Object(vec![])), None);
}
