use claude_session::json::Json;
use claude_session::stream::inspect_stream_line;
use claude_session::stream::parse_event;
use claude_session::stream::parse_stream_line;
use claude_session::stream::AssistantMessage;
use claude_session::stream::ContentBlock;
use claude_session::stream::LineDiagnostic;
use claude_session::stream::ParsedOutput;
use claude_session::stream::StreamEvent;

fn text(s: &str) -> Json {
    Json::Text(s.to_string())
}

fn object(members: Vec<(&str, Json)>) -> Json {
    Json::Object(members.into_iter().map(|(k, v)| (k.to_string(), v)).collect())
}

#[test]
fn system_line_gives_the_session_id() {
    let line = r#"{"type":"system","subtype":"init","session_id":"abc","tools":["a","b"]}"#;
    assert_eq!(parse_stream_line(line), Some(ParsedOutput::SessionId("abc".to_string())));
}

#[test]
fn system_line_without_subtype_is_accepted() {
    let line = r#"{"type":"system","session_id":"abc"}"#;
    assert_eq!(parse_stream_line(line), Some(ParsedOutput::SessionId("abc".to_string())));
}

#[test]
fn system_line_without_session_id_is_dropped() {
    let report = inspect_stream_line(r#"{"type":"system","subtype":"init"}"#);
    assert_eq!(report.output, None);
    assert_eq!(report.diagnostic, Some(LineDiagnostic::UnexpectedShape));
}

#[test]
fn system_line_with_a_number_for_session_id_is_dropped() {
    let report = inspect_stream_line(r#"{"type":"system","session_id":7}"#);
    assert_eq!(report.output, None);
    assert_eq!(report.diagnostic, Some(LineDiagnostic::UnexpectedShape));
}

#[test]
fn system_line_with_tools_that_are_not_strings_is_dropped() {
    let report = inspect_stream_line(r#"{"type":"system","session_id":"a","tools":[1]}"#);
    assert_eq!(report.output, None);
    assert_eq!(report.diagnostic, Some(LineDiagnostic::UnexpectedShape));
}

#[test]
fn assistant_line_joins_text_blocks_in_order() {
    let line = r#"{"type":"assistant","message":{"id":"m1","content":[{"type":"text","text":"hel"},{"type":"tool_use","name":"x"},{"type":"text","text":"lo"},{"type":"text","text":" world"}],"stop_reason":null},"session_id":"abc"}"#;
    assert_eq!(parse_stream_line(line), Some(ParsedOutput::Text("hello world".to_string())));
}

#[test]
fn assistant_line_with_one_block_gives_its_text() {
    let line = r#"{"type":"assistant","message":{"content":[{"type":"text","text":"hello"}]}}"#;
    assert_eq!(parse_stream_line(line), Some(ParsedOutput::Text("hello".to_string())));
}

#[test]
fn assistant_line_without_text_blocks_gives_nothing() {
    let line = r#"{"type":"assistant","message":{"content":[{"type":"tool_use"}]},"session_id":"s"}"#;
    let report = inspect_stream_line(line);
    assert_eq!(report.output, None);
    assert_eq!(report.diagnostic, None);
}

#[test]
fn assistant_line_with_no_content_gives_nothing() {
    let report = inspect_stream_line(r#"{"type":"assistant","message":{},"session_id":"s"}"#);
    assert_eq!(report.output, None);
    assert_eq!(report.diagnostic, None);
    let report = inspect_stream_line(r#"{"type":"assistant"}"#);
    assert_eq!(report.output, None);
    assert_eq!(report.diagnostic, None);
}

#[test]
fn assistant_line_whose_text_is_empty_gives_nothing() {
    let line = r#"{"type":"assistant","message":{"content":[{"type":"text","text":""}]}}"#;
    assert_eq!(parse_stream_line(line), None);
}

#[test]
fn assistant_line_with_a_block_that_is_no_object_is_dropped() {
    let report = inspect_stream_line(r#"{"type":"assistant","message":{"content":["x"]}}"#);
    assert_eq!(report.output, None);
    assert_eq!(report.diagnostic, Some(LineDiagnostic::UnexpectedShape));
}

#[test]
fn assistant_line_whose_message_is_no_object_is_dropped() {
    let report = inspect_stream_line(r#"{"type":"assistant","message":"hi"}"#);
    assert_eq!(report.output, None);
    assert_eq!(report.diagnostic, Some(LineDiagnostic::UnexpectedShape));
}

#[test]
fn result_line_without_error_completes() {
    let line = r#"{"type":"result","subtype":"success","result":"ok","session_id":"abc","is_error":false}"#;
    assert_eq!(parse_stream_line(line), Some(ParsedOutput::Complete));
}

#[test]
fn result_line_without_the_flag_completes() {
    let line = r#"{"type":"result","subtype":"success","result":"ok","session_id":"abc"}"#;
    assert_eq!(parse_stream_line(line), Some(ParsedOutput::Complete));
}

#[test]
fn result_line_with_error_gives_the_error() {
    let line = r#"{"type":"result","subtype":"error","result":"boom","session_id":"abc","is_error":true}"#;
    assert_eq!(parse_stream_line(line), Some(ParsedOutput::Error("boom".to_string())));
}

#[test]
fn result_line_with_error_and_no_text_gives_an_empty_error() {
    let line = r#"{"type":"result","is_error":true}"#;
    assert_eq!(parse_stream_line(line), Some(ParsedOutput::Error(String::new())));
}

#[test]
fn result_line_with_a_flag_that_is_no_boolean_is_dropped() {
    let report = inspect_stream_line(r#"{"type":"result","result":"x","is_error":"yes"}"#);
    assert_eq!(report.output, None);
    assert_eq!(report.diagnostic, Some(LineDiagnostic::UnexpectedShape));
}

#[test]
fn unknown_type_is_dropped_with_a_diagnostic() {
    let report = inspect_stream_line(r#"{"type":"user","message":{"content":[]}}"#);
    assert_eq!(report.output, None);
    assert_eq!(report.diagnostic, Some(LineDiagnostic::UnknownEvent));
}

#[test]
fn malformed_json_is_dropped_with_a_diagnostic() {
    for line in ["", "not json", "{\"type\":\"result\"", "{\"type\":\"result\"} trailing", "{'type':1}"] {
        let report = inspect_stream_line(line);
        assert_eq!(report.output, None, "line {:?}", line);
        match report.diagnostic {
            Some(LineDiagnostic::InvalidJson(message)) => assert!(!message.is_empty()),
            other => panic!("line {:?} gave {:?}", line, other),
        }
        assert_eq!(parse_stream_line(line), None);
    }
}

#[test]
fn json_that_is_no_tagged_object_is_dropped() {
    for line in ["[]", "3", "\"text\"", "null", "{}", "{\"type\":5}", "{\"kind\":\"result\"}"] {
        let report = inspect_stream_line(line);
        assert_eq!(report.output, None, "line {:?}", line);
        assert_eq!(report.diagnostic, Some(LineDiagnostic::UnexpectedShape), "line {:?}", line);
    }
}

#[test]
fn escapes_in_the_line_are_decoded() {
    let line = r#"{"type":"assistant","message":{"content":[{"type":"text","text":"a\nb é \"q\""}]}}"#;
    assert_eq!(parse_stream_line(line), Some(ParsedOutput::Text("a\nb \u{e9} \"q\"".to_string())));
}

#[test]
fn the_last_of_two_members_of_one_name_counts() {
    let line = r#"{"type":"result","is_error":true,"result":"first","result":"second"}"#;
    assert_eq!(parse_stream_line(line), Some(ParsedOutput::Error("second".to_string())));
}

#[test]
fn member_finds_the_first_member_of_that_name() {
    let doc = object(vec![("a", text("1")), ("b", Json::Bool(true)), ("a", text("2"))]);
    assert_eq!(doc.member("a"), Some(&text("1")));
    assert_eq!(doc.member("b"), Some(&Json::Bool(true)));
    assert_eq!(doc.member("c"), None);
    assert_eq!(text("a").member("a"), None);
    assert_eq!(Json::Array(vec![text("a")]).member("a"), None);
}

#[test]
fn event_is_read_off_a_document() {
    let doc = object(vec![
        ("type", text("system")),
        ("subtype", text("init")),
        ("session_id", text("s-1")),
        ("tools", Json::Array(vec![text("read"), text("write")])),
    ]);
    assert_eq!(
        StreamEvent::from_json(&doc),
        Some(StreamEvent::System {
            subtype: "init".to_string(),
            session_id: "s-1".to_string(),
            tools: vec!["read".to_string(), "write".to_string()],
        })
    );
}

#[test]
fn assistant_event_is_read_off_a_document() {
    let block = object(vec![("type", text("text")), ("text", text("hi"))]);
    let other = object(vec![("type", text("image"))]);
    let message = object(vec![
        ("id", text("m")),
        ("content", Json::Array(vec![block, other])),
        ("stop_reason", text("end_turn")),
        ("usage", Json::Number("3".to_string())),
    ]);
    let doc = object(vec![("type", text("assistant")), ("message", message)]);
    assert_eq!(
        StreamEvent::from_json(&doc),
        Some(StreamEvent::Assistant {
            message: AssistantMessage {
                id: "m".to_string(),
                content: vec![ContentBlock::Text { text: "hi".to_string() }, ContentBlock::Other],
                stop_reason: Some("end_turn".to_string()),
            },
            session_id: String::new(),
        })
    );
}

#[test]
fn result_event_is_read_off_a_document() {
    let doc = object(vec![
        ("type", text("result")),
        ("result", text("done")),
        ("is_error", Json::Bool(true)),
    ]);
    assert_eq!(
        StreamEvent::from_json(&doc),
        Some(StreamEvent::Result {
            subtype: String::new(),
            result: "done".to_string(),
            session_id: String::new(),
            is_error: true,
        })
    );
}

#[test]
fn documents_of_no_event_shape_give_no_event() {
    assert_eq!(StreamEvent::from_json(&Json::Null), None);
    assert_eq!(StreamEvent::from_json(&object(vec![])), None);
    assert_eq!(StreamEvent::from_json(&object(vec![("type", Json::Bool(true))])), None);
    assert_eq!(
        StreamEvent::from_json(&object(vec![("type", text("other"))])),
        Some(StreamEvent::Unknown)
    );
    assert_eq!(
        StreamEvent::from_json(&object(vec![("type", text("result")), ("result", Json::Null)])),
        None
    );
}

#[test]
fn block_is_read_off_a_document() {
    assert_eq!(
        ContentBlock::from_json(&object(vec![("type", text("text")), ("text", text("x"))])),
        Some(ContentBlock::Text { text: "x".to_string() })
    );
    assert_eq!(
        ContentBlock::from_json(&object(vec![("type", text("text"))])),
        Some(ContentBlock::Text { text: String::new() })
    );
    assert_eq!(
        ContentBlock::from_json(&object(vec![("type", text("thinking"))])),
        Some(ContentBlock::Other)
    );
    assert_eq!(ContentBlock::from_json(&object(vec![("text", text("x"))])), None);
    assert_eq!(
        ContentBlock::from_json(&object(vec![("type", text("text")), ("text", Json::Bool(true))])),
        None
    );
}

#[test]
fn events_reduce_to_outputs() {
    let system = StreamEvent::System {
        subtype: "init".to_string(),
        session_id: "id".to_string(),
        tools: vec![],
    };
    assert_eq!(parse_event(system), Some(ParsedOutput::SessionId("id".to_string())));
    let assistant = StreamEvent::Assistant {
        message: AssistantMessage {
            id: String::new(),
            content: vec![
                ContentBlock::Other,
                ContentBlock::Text { text: "a".to_string() },
                ContentBlock::Text { text: String::new() },
                ContentBlock::Text { text: "bc".to_string() },
            ],
            stop_reason: None,
        },
        session_id: String::new(),
    };
    assert_eq!(parse_event(assistant), Some(ParsedOutput::Text("abc".to_string())));
    let silent = StreamEvent::Assistant {
        message: AssistantMessage::empty(),
        session_id: String::new(),
    };
    assert_eq!(parse_event(silent), None);
    assert_eq!(parse_event(StreamEvent::Unknown), None);
}
