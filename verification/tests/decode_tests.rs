use nanocode::ApiError;
use nanocode::ContentBlock;
use nanocode::Delta;
use nanocode::StreamEvent;
use nanocode::ToolCallCollector;
use nanocode::decode::StreamDecoder;
use nanocode::decode::decode_line;
use nanocode::decode::parse_content_block;
use nanocode::decode::parse_delta;

#[test]
fn api_test_content_block_deserialize() {
    let text = parse_content_block(br#"{"type": "text", "text": "Hello"}"#).unwrap();
    match text {
        ContentBlock::Text { text: t } => assert_eq!(t, "Hello"),
        _ => panic!("Expected Text variant"),
    }

    let tool = parse_content_block(
        br#"{"type": "tool_use", "id": "call_123", "name": "read", "input": {"path": "test.rs"}}"#,
    )
    .unwrap();
    match tool {
        ContentBlock::ToolUse { id, name, .. } => {
            assert_eq!(id, "call_123");
            assert_eq!(name, "read");
        }
        _ => panic!("Expected ToolUse variant"),
    }
}

#[test]
fn anthropic_test_content_block_deserialize() {
    let text = parse_content_block(br#"{"type": "text", "text": "Hello"}"#).unwrap();
    match text {
        ContentBlock::Text { text: t } => assert_eq!(t, "Hello"),
        _ => panic!("Expected Text variant"),
    }

    let tool = parse_content_block(
        br#"{"type": "tool_use", "id": "call_123", "name": "read", "input": {"path": "test.rs"}}"#,
    )
    .unwrap();
    match tool {
        ContentBlock::ToolUse { id, name, .. } => {
            assert_eq!(id, "call_123");
            assert_eq!(name, "read");
        }
        _ => panic!("Expected ToolUse variant"),
    }
}

#[test]
fn api_test_delta_deserialize() {
    let delta = parse_delta(br#"{"type": "text_delta", "text": "Hello"}"#).unwrap();
    match delta {
        Delta::Text { text } => assert_eq!(text, "Hello"),
        Delta::InputJson { .. } => panic!("Expected Text variant"),
    }

    let delta = parse_delta(br#"{"type": "input_json_delta", "partial_json": "{}"}"#).unwrap();
    match delta {
        Delta::InputJson { partial_json } => assert_eq!(partial_json, "{}"),
        Delta::Text { .. } => panic!("Expected InputJson variant"),
    }
}

#[test]
fn anthropic_test_delta_deserialize() {
    let delta = parse_delta(br#"{"type": "text_delta", "text": "Hello"}"#).unwrap();
    match delta {
        Delta::Text { text } => assert_eq!(text, "Hello"),
        Delta::InputJson { .. } => panic!("Expected Text variant"),
    }

    let delta = parse_delta(br#"{"type": "input_json_delta", "partial_json": "{}"}"#).unwrap();
    match delta {
        Delta::InputJson { partial_json } => assert_eq!(partial_json, "{}"),
        Delta::Text { .. } => panic!("Expected InputJson variant"),
    }
}

#[test]
fn scenario_streamed_tool_call_round_trips() {
    let mut decoder = StreamDecoder::new();
    let mut collector = ToolCallCollector::new();
    let chunks: [&[u8]; 4] = [
        br#"data: {"type":"content_block_start","index":0,"content_block":{"type":"tool_use","id":"call_1","name":"read","input":""}}

"#,
        br#"data: {"type":"content_block_delta","index":0,"delta":{"type":"input_json_delta","partial_json":"{\"path\":\"a.rs\"}"}}

"#,
        br#"data: {"type":"content_block_stop","index":0}

"#,
        b"data: [DONE]\n\n",
    ];
    let mut saw_stop = false;
    for chunk in chunks {
        for event in decoder.push_chunk(chunk) {
            if matches!(event, StreamEvent::MessageStop) {
                saw_stop = true;
            }
            collector.process_event(&event);
        }
    }
    assert!(saw_stop);
    let calls = collector.take_completed();
    assert_eq!(calls.len(), 1);
    assert_eq!(calls[0].id, "call_1");
    assert_eq!(calls[0].name, "read");
    assert_eq!(calls[0].input, r#"{"path":"a.rs"}"#);
}

#[test]
fn malformed_line_yields_one_error_and_decoding_continues() {
    let mut decoder = StreamDecoder::new();
    let events = decoder.push_chunk(
        b"data: {not json}\ndata: {\"type\":\"message_start\"}\n",
    );
    assert_eq!(events.len(), 2);
    match &events[0] {
        StreamEvent::Error {
            error: ApiError::ParseError(_),
        } => {}
        other => panic!("expected a parse error, got {:?}", other),
    }
    assert!(matches!(events[1], StreamEvent::MessageStart));
}

#[test]
fn invalid_utf8_chunk_is_reported_and_dropped() {
    let mut decoder = StreamDecoder::new();
    let events = decoder.push_chunk(b"data: {\"type\":\"message_st");
    assert!(events.is_empty());
    let bad: [u8; 3] = [0xff, 0xfe, 0x0a];
    let events = decoder.push_chunk(&bad);
    assert_eq!(events.len(), 1);
    assert!(matches!(
        events[0],
        StreamEvent::Error {
            error: ApiError::ParseError(_)
        }
    ));
    let events = decoder.push_chunk(b"op\"}\n");
    assert_eq!(events.len(), 1);
    assert!(matches!(events[0], StreamEvent::MessageStop));
}

#[test]
fn lines_split_across_chunks_reassemble() {
    let mut decoder = StreamDecoder::new();
    assert!(decoder.push_chunk(b"data: {\"type\":\"content_block_delta\",\"index\":0,").is_empty());
    let events = decoder.push_chunk(
        b"\"delta\":{\"type\":\"text_delta\",\"text\":\"Hi\"}}\n",
    );
    assert_eq!(events.len(), 1);
    match &events[0] {
        StreamEvent::ContentBlockDelta {
            index,
            delta: Delta::Text { text },
        } => {
            assert_eq!(*index, 0);
            assert_eq!(text, "Hi");
        }
        other => panic!("unexpected event {:?}", other),
    }
}

#[test]
fn second_done_marker_is_harmless() {
    let mut decoder = StreamDecoder::new();
    let events = decoder.push_chunk(b"data: [DONE]\ndata: [DONE]\ntrailing: junk\n");
    assert_eq!(events.len(), 2);
    assert!(matches!(events[0], StreamEvent::MessageStop));
    assert!(matches!(events[1], StreamEvent::MessageStop));
}

#[test]
fn non_data_and_blank_lines_are_ignored() {
    assert!(decode_line(b"").is_none());
    assert!(decode_line(b"event: ping").is_none());
    assert!(decode_line(b"dat: x").is_none());
}

#[test]
fn unknown_event_type_is_ignored() {
    assert!(decode_line(br#"data: {"type":"ping"}"#).is_none());
    assert!(decode_line(br#"data: {"no_type":1}"#).is_none());
}

#[test]
fn out_of_range_index_defaults_to_zero() {
    let event = decode_line(br#"data: {"type":"content_block_stop","index":5000000000}"#).unwrap();
    match event {
        StreamEvent::ContentBlockStop { index } => assert_eq!(index, 0),
        other => panic!("unexpected event {:?}", other),
    }
    let event = decode_line(br#"data: {"type":"content_block_stop"}"#).unwrap();
    match event {
        StreamEvent::ContentBlockStop { index } => assert_eq!(index, 0),
        other => panic!("unexpected event {:?}", other),
    }
}

#[test]
fn server_error_event_carries_its_message() {
    let event =
        decode_line(br#"data: {"type":"error","error":{"message":"boom"}}"#).unwrap();
    match event {
        StreamEvent::Error {
            error: ApiError::Api(m),
        } => assert_eq!(m, "boom"),
        other => panic!("unexpected event {:?}", other),
    }
    let event = decode_line(br#"data: {"type":"error"}"#).unwrap();
    match event {
        StreamEvent::Error {
            error: ApiError::Api(m),
        } => assert_eq!(m, "Unknown error"),
        other => panic!("unexpected event {:?}", other),
    }
}

#[test]
fn malformed_content_block_falls_back_to_empty_text() {
    let event = decode_line(
        br#"data: {"type":"content_block_start","index":1,"content_block":{"type":"mystery"}}"#,
    )
    .unwrap();
    match event {
        StreamEvent::ContentBlockStart {
            index,
            content_block: ContentBlock::Text { text },
        } => {
            assert_eq!(index, 1);
            assert_eq!(text, "");
        }
        other => panic!("unexpected event {:?}", other),
    }
    assert!(decode_line(br#"data: {"type":"content_block_start","index":1}"#).is_none());
}

#[test]
fn tool_use_block_seeds_buffer_from_input() {
    let seeded = parse_content_block(
        br#"{"type":"tool_use","id":"c","name":"bash","input":{"cmd":"ls"}}"#,
    )
    .unwrap();
    match seeded {
        ContentBlock::ToolUse { input, .. } => assert_eq!(input, r#"{"cmd":"ls"}"#),
        other => panic!("unexpected block {:?}", other),
    }
    let empty_object = parse_content_block(
        br#"{"type":"tool_use","id":"c","name":"bash","input":{}}"#,
    )
    .unwrap();
    match empty_object {
        ContentBlock::ToolUse { input, .. } => assert_eq!(input, ""),
        other => panic!("unexpected block {:?}", other),
    }
    let from_string = parse_content_block(
        br#"{"type":"tool_use","id":"c","name":"bash","input":"seed"}"#,
    )
    .unwrap();
    match from_string {
        ContentBlock::ToolUse { input, .. } => assert_eq!(input, "seed"),
        other => panic!("unexpected block {:?}", other),
    }
}

#[test]
fn malformed_delta_falls_back_to_empty_text_delta() {
    let event = decode_line(
        br#"data: {"type":"content_block_delta","index":0,"delta":{"type":"odd"}}"#,
    )
    .unwrap();
    match event {
        StreamEvent::ContentBlockDelta {
            delta: Delta::Text { text },
            ..
        } => assert_eq!(text, ""),
        other => panic!("unexpected event {:?}", other),
    }
    let event = decode_line(br#"data: {"type":"content_block_delta","index":0}"#).unwrap();
    match event {
        StreamEvent::ContentBlockDelta {
            delta: Delta::Text { text },
            ..
        } => assert_eq!(text, ""),
        other => panic!("unexpected event {:?}", other),
    }
}
