//! Tests for the stream decoder.

use claude_terminal::parser::StreamParser;
use claude_terminal::types::StreamEvent;

#[test]
fn test_parse_assistant_message() {
    let mut parser = StreamParser::new();
    let line = r#"{"type":"assistant","message":{"content":[{"type":"text","text":"Hello!"}],"usage":{"input_tokens":10,"output_tokens":5,"cache_read_input_tokens":0,"cache_creation_input_tokens":0}}}"#;

    let events = parser.parse_line(line);

    assert!(!events.is_empty());
    let has_text = events
        .iter()
        .any(|e| matches!(e, StreamEvent::Text(t) if t == "Hello!"));
    assert!(has_text, "Should contain text event with 'Hello!'");
}

#[test]
fn test_parse_content_block_delta() {
    let mut parser = StreamParser::new();
    let line = r#"{"type":"content_block_delta","index":0,"delta":{"type":"text_delta","text":"World"}}"#;

    let events = parser.parse_line(line);

    assert_eq!(events.len(), 1);
    assert!(matches!(&events[0], StreamEvent::Text(t) if t == "World"));
}

#[test]
fn test_parse_tool_use() {
    let mut parser = StreamParser::new();

    // Start tool use
    let start = r#"{"type":"content_block_start","index":0,"content_block":{"type":"tool_use","id":"123","name":"Read","input":{}}}"#;
    let events = parser.parse_line(start);
    // Tool use with its input present should emit immediately
    assert!(events
        .iter()
        .any(|e| matches!(e, StreamEvent::ToolUse { name, .. } if name == "Read")));
}

#[test]
fn test_parse_system_event_ignored() {
    let mut parser = StreamParser::new();
    let line = r#"{"type":"system","subtype":"init","session_id":"abc"}"#;

    let events = parser.parse_line(line);
    assert!(events.is_empty(), "System events should be ignored");
}

#[test]
fn test_parse_empty_line() {
    let mut parser = StreamParser::new();
    let events = parser.parse_line("");
    assert!(events.is_empty());
}

#[test]
fn test_parse_invalid_json() {
    let mut parser = StreamParser::new();
    let events = parser.parse_line("not json");
    assert!(events.is_empty(), "Invalid JSON should return empty events");
}

#[test]
fn test_parse_usage_info() {
    let mut parser = StreamParser::new();
    let line = r#"{"type":"message_delta","delta":{"stop_reason":"end_turn"},"usage":{"input_tokens":100,"output_tokens":50,"cache_read_input_tokens":25,"cache_creation_input_tokens":10}}"#;

    let events = parser.parse_line(line);

    let usage = events.iter().find_map(|e| {
        if let StreamEvent::Usage {
            input_tokens,
            output_tokens,
            cache_read_tokens,
            cache_write_tokens,
        } = e
        {
            Some((
                *input_tokens,
                *output_tokens,
                *cache_read_tokens,
                *cache_write_tokens,
            ))
        } else {
            None
        }
    });

    assert_eq!(usage, Some((100, 50, 25, 10)));
}

#[test]
fn test_parse_thinking_delta() {
    let mut parser = StreamParser::new();
    let line = r#"{"type":"content_block_delta","index":0,"delta":{"type":"thinking_delta","thinking":"Let me think..."}}"#;

    let events = parser.parse_line(line);

    assert_eq!(events.len(), 1);
    assert!(matches!(&events[0], StreamEvent::Thinking(t) if t == "Let me think..."));
}

#[test]
fn test_streaming_accumulation() {
    let mut parser = StreamParser::new();

    // Simulate multiple text deltas
    let events1 = parser
        .parse_line(r#"{"type":"content_block_delta","index":0,"delta":{"type":"text_delta","text":"Hello"}}"#);
    let events2 = parser
        .parse_line(r#"{"type":"content_block_delta","index":0,"delta":{"type":"text_delta","text":" "}}"#);
    let events3 = parser
        .parse_line(r#"{"type":"content_block_delta","index":0,"delta":{"type":"text_delta","text":"World"}}"#);

    assert!(matches!(&events1[0], StreamEvent::Text(t) if t == "Hello"));
    assert!(matches!(&events2[0], StreamEvent::Text(t) if t == " "));
    assert!(matches!(&events3[0], StreamEvent::Text(t) if t == "World"));
}

#[test]
fn test_text_deltas_concatenate_to_whole() {
    // Decoding a block streamed as deltas gives the same text, in order, as
    // the whole string presented at once.
    let mut parser = StreamParser::new();
    let mut streamed = String::new();
    for line in [
        r#"{"type":"content_block_delta","index":0,"delta":{"type":"text_delta","text":"Hel"}}"#,
        r#"{"type":"content_block_delta","index":0,"delta":{"type":"text_delta","text":"lo "}}"#,
        r#"{"type":"content_block_delta","index":0,"delta":{"type":"text_delta","text":"World"}}"#,
    ] {
        for e in parser.parse_line(line) {
            if let StreamEvent::Text(t) = e {
                streamed.push_str(&t);
            }
        }
    }
    let mut parser2 = StreamParser::new();
    let whole = parser2.parse_line(
        r#"{"type":"content_block_start","index":0,"content_block":{"type":"text","text":"Hello World"}}"#,
    );
    assert_eq!(whole.len(), 1);
    assert!(matches!(&whole[0], StreamEvent::Text(t) if *t == streamed));
    assert_eq!(streamed, "Hello World");
}

#[test]
fn test_tool_use_streamed_fragments() {
    // A tool invocation whose input arrives as partial fragments emits
    // exactly one event, at block close, with the fragments concatenated.
    let mut parser = StreamParser::new();
    let start = r#"{"type":"content_block_start","index":0,"content_block":{"type":"tool_use","id":"1","name":"Write"}}"#;
    assert!(parser.parse_line(start).is_empty());
    let f1 = r#"{"type":"content_block_delta","index":0,"delta":{"type":"input_json_delta","partial_json":"{\"path\":"}}"#;
    let f2 = r#"{"type":"content_block_delta","index":0,"delta":{"type":"input_json_delta","partial_json":"\"a.txt\"}"}}"#;
    assert!(parser.parse_line(f1).is_empty());
    assert!(parser.parse_line(f2).is_empty());
    let stop = r#"{"type":"content_block_stop","index":0}"#;
    let events = parser.parse_line(stop);
    assert_eq!(events.len(), 1);
    assert!(matches!(
        &events[0],
        StreamEvent::ToolUse { name, input }
            if name == "Write" && input == "{\"path\":\"a.txt\"}"
    ));
}

#[test]
fn test_tool_use_immediate_then_stop_adds_nothing() {
    // An invocation with input present at block start emits immediately and
    // the following block close emits nothing more.
    let mut parser = StreamParser::new();
    let start = r#"{"type":"content_block_start","index":0,"content_block":{"type":"tool_use","id":"1","name":"Read","input":{"path":"f"}}}"#;
    let events = parser.parse_line(start);
    assert_eq!(events.len(), 1);
    assert!(matches!(&events[0], StreamEvent::ToolUse { name, .. } if name == "Read"));
    let stop = r#"{"type":"content_block_stop","index":0}"#;
    assert!(parser.parse_line(stop).is_empty());
}

#[test]
fn test_block_close_without_pending_tool_is_noop() {
    let mut parser = StreamParser::new();
    let stop = r#"{"type":"content_block_stop","index":0}"#;
    assert!(parser.parse_line(stop).is_empty());
}

#[test]
fn test_parse_tool_result() {
    let mut parser = StreamParser::new();
    let line = r#"{"type":"result","subtype":"tool_result","result":"file contents"}"#;
    let events = parser.parse_line(line);
    assert_eq!(events.len(), 1);
    assert!(matches!(
        &events[0],
        StreamEvent::ToolResult { result, .. } if result == "file contents"
    ));
}

#[test]
fn test_parse_unknown_tag_ignored() {
    let mut parser = StreamParser::new();
    let events = parser.parse_line(r#"{"type":"something_new","payload":[1,2,3]}"#);
    assert!(events.is_empty());
}
