use nanocode::ApiError;
use nanocode::ContentBlock;
use nanocode::CoreEvent;
use nanocode::Delta;
use nanocode::Driver;
use nanocode::Flow;
use nanocode::Message;
use nanocode::Phase;
use nanocode::Role;
use nanocode::StreamEvent;

fn text_delta(text: &str) -> StreamEvent {
    StreamEvent::ContentBlockDelta {
        index: 0,
        delta: Delta::Text {
            text: text.to_string(),
        },
    }
}

fn start_tool_block(index: u32, id: &str, name: &str) -> StreamEvent {
    StreamEvent::ContentBlockStart {
        index,
        content_block: ContentBlock::ToolUse {
            id: id.to_string(),
            name: name.to_string(),
            input: String::new(),
        },
    }
}

fn input_fragment(index: u32, fragment: &str) -> StreamEvent {
    StreamEvent::ContentBlockDelta {
        index,
        delta: Delta::InputJson {
            partial_json: fragment.to_string(),
        },
    }
}

#[test]
fn single_text_round_appends_one_assistant_message() {
    let mut driver = Driver::new(Vec::new());
    let start = driver.begin_round();
    assert!(matches!(start, CoreEvent::MessageStart));

    let events = [
        StreamEvent::MessageStart,
        text_delta("Hello"),
        text_delta(" world"),
        StreamEvent::MessageDelta,
        StreamEvent::MessageStop,
    ];
    for event in &events {
        let (_, flow) = driver.on_event(event);
        if !matches!(flow, Flow::Continue) {
            break;
        }
    }
    let more = driver.end_round();
    assert!(!more);
    assert!(matches!(driver.phase(), Phase::Done));

    let history = driver.into_history();
    assert_eq!(history.len(), 1);
    assert!(matches!(history[0].role, Role::Assistant));
    assert_eq!(history[0].content.len(), 1);
    match &history[0].content[0] {
        ContentBlock::Text { text } => assert_eq!(text, "Hello world"),
        other => panic!("unexpected block {:?}", other),
    }
}

#[test]
fn empty_round_ends_without_touching_history() {
    let mut driver = Driver::new(Vec::new());
    driver.begin_round();
    let (_, flow) = driver.on_event(&StreamEvent::MessageStop);
    assert!(matches!(flow, Flow::EndOfMessage));
    let more = driver.end_round();
    assert!(!more);
    assert!(matches!(driver.phase(), Phase::Done));
    assert!(driver.into_history().is_empty());
}

#[test]
fn tool_round_trip_orders_messages_like_the_calls() {
    let mut driver = Driver::new(Vec::new());
    driver.begin_round();

    let events = [
        StreamEvent::MessageStart,
        text_delta("Let me look."),
        start_tool_block(1, "call_read", "read"),
        input_fragment(1, r#"{"path":"a.rs"}"#),
        StreamEvent::ContentBlockStop { index: 1 },
        start_tool_block(2, "call_bash", "bash"),
        input_fragment(2, r#"{"cmd":"ls"}"#),
        StreamEvent::ContentBlockStop { index: 2 },
        StreamEvent::MessageStop,
    ];
    for event in &events {
        driver.on_event(event);
    }
    let more = driver.end_round();
    assert!(more);
    assert!(matches!(driver.phase(), Phase::ExecutingTools));

    let (first, executing) = driver.begin_tool().unwrap();
    assert_eq!(first.name, "read");
    assert!(matches!(executing, CoreEvent::ToolExecuting { .. }));
    let result_event = driver.finish_tool("contents of a.rs".to_string());
    match result_event {
        CoreEvent::ToolResult { name, result } => {
            assert_eq!(name, "read");
            assert_eq!(result, "contents of a.rs");
        }
        other => panic!("unexpected event {:?}", other),
    }

    let (second, _) = driver.begin_tool().unwrap();
    assert_eq!(second.name, "bash");
    driver.finish_tool("a.rs".to_string());

    assert!(driver.begin_tool().is_none());
    assert!(matches!(driver.phase(), Phase::Requesting));

    let history = driver.into_history();
    assert_eq!(history.len(), 3);

    assert!(matches!(history[0].role, Role::Assistant));
    assert_eq!(history[0].content.len(), 3);
    match &history[0].content[0] {
        ContentBlock::Text { text } => assert_eq!(text, "Let me look."),
        other => panic!("unexpected block {:?}", other),
    }
    match &history[0].content[1] {
        ContentBlock::ToolUse { id, name, input } => {
            assert_eq!(id, "call_read");
            assert_eq!(name, "read");
            assert_eq!(input, r#"{"path":"a.rs"}"#);
        }
        other => panic!("unexpected block {:?}", other),
    }
    match &history[0].content[2] {
        ContentBlock::ToolUse { id, name, .. } => {
            assert_eq!(id, "call_bash");
            assert_eq!(name, "bash");
        }
        other => panic!("unexpected block {:?}", other),
    }

    assert!(matches!(history[1].role, Role::User));
    match &history[1].content[0] {
        ContentBlock::ToolResult {
            tool_use_id,
            content,
        } => {
            assert_eq!(tool_use_id, "call_read");
            assert_eq!(content, "contents of a.rs");
        }
        other => panic!("unexpected block {:?}", other),
    }
    assert!(matches!(history[2].role, Role::User));
    match &history[2].content[0] {
        ContentBlock::ToolResult { tool_use_id, .. } => {
            assert_eq!(tool_use_id, "call_bash");
        }
        other => panic!("unexpected block {:?}", other),
    }
}

#[test]
fn translation_matches_the_event_kind() {
    let mut driver = Driver::new(Vec::new());
    driver.begin_round();

    let (out, flow) = driver.on_event(&text_delta("hi"));
    assert!(matches!(flow, Flow::Continue));
    match out.unwrap() {
        CoreEvent::TextDelta(t) => assert_eq!(t, "hi"),
        other => panic!("unexpected event {:?}", other),
    }

    let (out, _) = driver.on_event(&start_tool_block(0, "call_9", "grep"));
    match out.unwrap() {
        CoreEvent::ToolCallStart { id, name } => {
            assert_eq!(id, "call_9");
            assert_eq!(name, "grep");
        }
        other => panic!("unexpected event {:?}", other),
    }

    let (out, _) = driver.on_event(&StreamEvent::MessageStart);
    assert!(out.is_none());
}

#[test]
fn parse_error_event_is_shown_and_stream_continues() {
    let mut driver = Driver::new(Vec::new());
    driver.begin_round();
    let (out, flow) = driver.on_event(&StreamEvent::Error {
        error: ApiError::ParseError("bad frame".to_string()),
    });
    assert!(matches!(flow, Flow::Continue));
    match out.unwrap() {
        CoreEvent::Error(m) => assert_eq!(m, "Parse error: bad frame"),
        other => panic!("unexpected event {:?}", other),
    }
    assert!(matches!(driver.phase(), Phase::Streaming));
}

#[test]
fn server_error_ends_the_message() {
    let mut driver = Driver::new(Vec::new());
    driver.begin_round();
    driver.on_event(&text_delta("partial"));
    let (out, flow) = driver.on_event(&StreamEvent::Error {
        error: ApiError::Api("overloaded".to_string()),
    });
    assert!(matches!(flow, Flow::EndOfMessage));
    match out.unwrap() {
        CoreEvent::Error(m) => assert_eq!(m, "API error: overloaded"),
        other => panic!("unexpected event {:?}", other),
    }
}

#[test]
fn transport_error_is_fatal_and_history_is_untouched() {
    let seed = vec![Message {
        role: Role::User,
        content: vec![ContentBlock::Text {
            text: "hi".to_string(),
        }],
    }];
    let mut driver = Driver::new(seed);
    driver.begin_round();
    driver.on_event(&text_delta("half a rep"));
    let (out, flow) = driver.on_event(&StreamEvent::Error {
        error: ApiError::StreamError("connection reset".to_string()),
    });
    assert!(matches!(flow, Flow::Fatal));
    match out.unwrap() {
        CoreEvent::Error(m) => assert_eq!(m, "Stream error: connection reset"),
        other => panic!("unexpected event {:?}", other),
    }
    assert!(matches!(driver.phase(), Phase::Done));
    let history = driver.into_history();
    assert_eq!(history.len(), 1);
}

#[test]
fn second_round_continues_from_existing_history() {
    let mut driver = Driver::new(Vec::new());
    driver.begin_round();
    driver.on_event(&start_tool_block(0, "c1", "bash"));
    driver.on_event(&input_fragment(0, r#"{"cmd":"pwd"}"#));
    driver.on_event(&StreamEvent::ContentBlockStop { index: 0 });
    driver.on_event(&StreamEvent::MessageStop);
    assert!(driver.end_round());
    let (_, _) = driver.begin_tool().unwrap();
    driver.finish_tool("/tmp".to_string());
    assert!(driver.begin_tool().is_none());

    driver.begin_round();
    driver.on_event(&text_delta("done"));
    driver.on_event(&StreamEvent::MessageStop);
    assert!(!driver.end_round());

    let history = driver.into_history();
    assert_eq!(history.len(), 3);
    assert!(matches!(history[2].role, Role::Assistant));
}
