//! Tests for the orchestrator state machine: busy-gating, queue release
//! order, abort, shell entries, usage counters, and the command surface.

use claude_terminal::app::{
    Action, App, AppMessage, ConversationContent, InputMode, KeyInput, Role, TokenUsage,
};
use claude_terminal::parser::StreamParser;
use claude_terminal::sessions::{SessionInfo, SessionMessage};

fn new_app() -> App {
    App::new(String::from("sonnet"), false, None)
}

#[test]
fn test_usage_counters_additive() {
    let mut usage = TokenUsage::new();
    usage.add(10, 5, 0, 0);
    usage.add(20, 1, 2, 0);
    assert_eq!(usage.input_tokens, 30);
    assert_eq!(usage.output_tokens, 6);
    assert_eq!(usage.cache_read_tokens, 2);
    assert_eq!(usage.cache_write_tokens, 0);
}

#[test]
fn test_submit_while_idle_starts_turn() {
    let mut app = new_app();
    let actions = app.send_to_claude("hello", 1);
    assert_eq!(app.messages.len(), 1);
    assert_eq!(app.messages[0].role, Role::User);
    assert!(matches!(&app.messages[0].content, ConversationContent::Text(t) if t == "hello"));
    assert!(app.claude_busy);
    assert_eq!(actions.len(), 1);
    assert!(matches!(
        &actions[0],
        Action::StartTurn { message, model, .. } if message == "hello" && model == "sonnet"
    ));
}

#[test]
fn test_busy_submissions_queue_and_release_in_order() {
    let mut app = new_app();
    app.claude_busy = true;
    let a1 = app.send_to_claude("M1", 1);
    let a2 = app.send_to_claude("M2", 2);
    assert!(a1.is_empty() && a2.is_empty(), "both queued, not sent");
    assert_eq!(app.message_queue, vec!["M1", "M2"]);
    assert_eq!(app.messages.len(), 0, "no entries while queued");
    assert_eq!(app.status_message.as_deref(), Some("Queued (2 pending)"));

    // Turn completes: the first-submitted message is released.
    let actions = app.handle_app_message(AppMessage::ClaudeFinished, 3);
    assert_eq!(app.message_queue, vec!["M2"]);
    assert!(app.claude_busy, "released message started the next turn");
    assert_eq!(actions.len(), 1);
    assert!(matches!(
        &actions[0],
        Action::StartTurn { message, .. } if message == "M1"
    ));
    assert_eq!(app.messages.len(), 1);
    assert!(matches!(&app.messages[0].content, ConversationContent::Text(t) if t == "M1"));
    assert_eq!(app.status_message.as_deref(), Some("1 more queued"));
}

#[test]
fn test_abort_discards_streaming_buffer() {
    let mut app = new_app();
    app.send_to_claude("hello", 1);
    app.handle_app_message(
        AppMessage::ClaudeEvent(claude_terminal::types::StreamEvent::Text(String::from(
            "partial out",
        ))),
        2,
    );
    assert_eq!(app.streaming_buffer, "partial out");

    let actions = app.handle_key_event(KeyInput::CtrlC, 3);
    assert!(!app.claude_busy, "busy flag clears immediately");
    assert_eq!(app.streaming_buffer, "", "partial output discarded");
    assert!(matches!(actions[0], Action::AbortTurn));

    // The killed process's stale completion must not create an entry.
    let before = app.messages.len();
    app.handle_app_message(AppMessage::ClaudeFinished, 4);
    assert_eq!(app.messages.len(), before, "no assistant entry for the partial output");
}

#[test]
fn test_shell_entry_updated_in_place() {
    let mut app = new_app();
    let actions = app.execute_bash("ls", 1);
    assert!(matches!(&actions[0], Action::RunShell { command } if command == "ls"));
    assert_eq!(app.messages.len(), 1);
    assert!(matches!(
        &app.messages[0].content,
        ConversationContent::BashCommand { command, output, exit_code }
            if command == "ls" && output.is_empty() && exit_code.is_none()
    ));

    app.handle_app_message(AppMessage::BashOutput(String::from("file1\nfile2\n")), 2);
    app.handle_app_message(AppMessage::BashFinished(0), 3);
    assert_eq!(app.messages.len(), 1, "still a single entry");
    assert!(matches!(
        &app.messages[0].content,
        ConversationContent::BashCommand { command, output, exit_code }
            if command == "ls" && output == "file1\nfile2\n" && *exit_code == Some(0)
    ));
}

#[test]
fn test_end_to_end_hello_turn() {
    let mut app = new_app();
    // Submit "hello" while idle through the input line.
    for c in "hello".chars() {
        app.handle_key_event(KeyInput::Char { c, shift: false }, 0);
    }
    let actions = app.handle_key_event(KeyInput::Enter, 1);
    assert_eq!(app.messages.len(), 1, "one user entry appended");
    assert_eq!(app.messages[0].role, Role::User);
    assert!(app.claude_busy, "supervisor started");
    assert!(matches!(&actions[0], Action::StartTurn { message, .. } if message == "hello"));

    // The supervisor's reader decodes one text delta.
    let mut parser = StreamParser::new();
    let events =
        parser.parse_line(r#"{"type":"content_block_delta","index":0,"delta":{"type":"text_delta","text":"Hi"}}"#);
    assert_eq!(events.len(), 1);
    for e in events {
        app.handle_app_message(AppMessage::ClaudeEvent(e), 2);
    }
    assert_eq!(app.streaming_buffer, "Hi");

    // Turn finishes: the buffer becomes one assistant entry.
    app.handle_app_message(AppMessage::ClaudeFinished, 3);
    assert_eq!(app.messages.len(), 2);
    assert_eq!(app.messages[1].role, Role::Assistant);
    assert!(matches!(&app.messages[1].content, ConversationContent::Text(t) if t == "Hi"));
    assert!(!app.claude_busy);
    assert!(app.message_queue.is_empty());
}

#[test]
fn test_turn_error_appends_system_entry() {
    let mut app = new_app();
    app.send_to_claude("hello", 1);
    app.handle_app_message(AppMessage::ClaudeError(String::from("broken pipe")), 2);
    assert!(!app.claude_busy);
    let last = app.messages.last().unwrap();
    assert_eq!(last.role, Role::System);
    assert!(matches!(&last.content, ConversationContent::Text(t) if t == "Error: broken pipe"));
}

#[test]
fn test_voice_transcription_inserted_into_input() {
    let mut app = new_app();
    app.handle_app_message(AppMessage::VoiceTranscription(String::from("dictated")), 1);
    assert_eq!(app.input, "dictated");
    assert_eq!(app.cursor_position, 8);
    assert_eq!(app.status_message.as_deref(), Some("Transcription complete"));
}

#[test]
fn test_voice_transcription_inserted_at_cursor() {
    // The transcript lands at the cursor, not at the end of the line.
    let mut app = new_app();
    app.input = String::from("say  now");
    app.cursor_position = 4;
    app.handle_app_message(AppMessage::VoiceTranscription(String::from("this")), 1);
    assert_eq!(app.input, "say this now");
    assert_eq!(app.cursor_position, 8);
}

#[test]
fn test_voice_error_reverts_to_normal_mode() {
    let mut app = new_app();
    app.input_mode = InputMode::Recording;
    app.handle_app_message(AppMessage::VoiceError(String::from("no device")), 1);
    assert_eq!(app.input_mode, InputMode::Normal);
    assert_eq!(app.status_message.as_deref(), Some("Voice error: no device"));
}

#[test]
fn test_recording_mode_keys() {
    let mut app = new_app();
    let start = app.handle_key_event(KeyInput::Char { c: '*', shift: false }, 1);
    assert!(matches!(start[0], Action::StartRecording));
    assert_eq!(app.input_mode, InputMode::Recording);

    let cancel = app.handle_key_event(KeyInput::Esc, 2);
    assert!(matches!(cancel[0], Action::CancelRecording));
    assert_eq!(app.input_mode, InputMode::Normal);
    assert_eq!(app.status_message.as_deref(), Some("Recording cancelled"));
}

#[test]
fn test_slash_commands() {
    let mut app = new_app();
    app.handle_slash_command("/model opus", 1);
    assert_eq!(app.model, "opus");
    assert_eq!(app.status_message.as_deref(), Some("Model set to: opus"));

    let send = app.handle_slash_command("/send peer-1 hi there", 2);
    assert!(matches!(
        &send[0],
        Action::SendSessionMessage { target, message } if target == "peer-1" && message == "hi there"
    ));

    let bc = app.handle_slash_command("/broadcast all hands", 3);
    assert!(matches!(&bc[0], Action::Broadcast { message } if message == "all hands"));

    let inbox = app.handle_slash_command("/inbox", 4);
    assert!(matches!(inbox[0], Action::ReadInbox));

    let sessions = app.handle_slash_command("/sessions", 5);
    assert!(matches!(sessions[0], Action::ListSessions));

    app.handle_slash_command("/bogus", 6);
    assert_eq!(app.status_message.as_deref(), Some("Unknown command: /bogus"));

    app.handle_slash_command("/quit", 7);
    assert!(app.should_quit);
}

#[test]
fn test_clear_command_empties_transcript() {
    let mut app = new_app();
    app.execute_bash("ls", 1);
    app.handle_slash_command("/clear", 2);
    assert!(app.messages.is_empty());
    assert_eq!(app.scroll_offset, 0);
}

#[test]
fn test_bash_submission_creates_provisional_entry() {
    let mut app = new_app();
    for c in "!echo hi".chars() {
        app.handle_key_event(KeyInput::Char { c, shift: false }, 0);
    }
    let actions = app.handle_key_event(KeyInput::Enter, 1);
    assert!(matches!(&actions[0], Action::RunShell { command } if command == "echo hi"));
    assert_eq!(app.messages.len(), 1);
    assert_eq!(app.messages[0].role, Role::Bash);
    assert_eq!(app.input, "");
    assert_eq!(app.input_history, vec!["!echo hi"]);
}

#[test]
fn test_shell_context_prepended_to_next_turn() {
    let mut app = new_app();
    app.execute_bash("ls", 1);
    app.handle_app_message(AppMessage::BashOutput(String::from("a.txt\n")), 2);
    app.handle_app_message(AppMessage::BashFinished(0), 3);
    let actions = app.send_to_claude("what is there?", 4);
    match &actions[0] {
        Action::StartTurn { message, .. } => {
            assert_eq!(
                message,
                "[Recent terminal activity]\n$ ls\na.txt\n\n(exit code: 0)\n\n\nwhat is there?"
            );
        }
        other => panic!("expected StartTurn, got {:?}", other),
    }
}

#[test]
fn test_history_navigation() {
    let mut app = new_app();
    app.input = String::from("first");
    app.handle_key_event(KeyInput::Enter, 1);
    app.input = String::from("second");
    app.handle_key_event(KeyInput::Enter, 2);

    app.handle_key_event(KeyInput::Up, 3);
    assert_eq!(app.input, "second");
    app.handle_key_event(KeyInput::Up, 4);
    assert_eq!(app.input, "first");
    app.handle_key_event(KeyInput::Down, 5);
    assert_eq!(app.input, "second");
    app.handle_key_event(KeyInput::Down, 6);
    assert_eq!(app.input, "");
}

#[test]
fn test_editing_keys() {
    let mut app = new_app();
    for c in "abd".chars() {
        app.handle_key_event(KeyInput::Char { c, shift: false }, 0);
    }
    app.handle_key_event(KeyInput::Left, 1);
    app.handle_key_event(KeyInput::Char { c: 'c', shift: false }, 2);
    assert_eq!(app.input, "abcd");
    assert_eq!(app.cursor_position, 3);
    app.handle_key_event(KeyInput::Backspace, 3);
    assert_eq!(app.input, "abd");
    app.handle_key_event(KeyInput::Home, 4);
    app.handle_key_event(KeyInput::Delete, 5);
    assert_eq!(app.input, "bd");
    app.handle_key_event(KeyInput::End, 6);
    assert_eq!(app.cursor_position, 2);
}

#[test]
fn test_report_sessions_and_inbox() {
    let mut app = new_app();
    let sessions = vec![SessionInfo {
        id: String::from("terminal-42-7"),
        pid: 42,
        cwd: String::from("/work"),
        task: String::from("interactive"),
        started: 7,
        app: None,
        tmux_window: None,
    }];
    app.report_sessions(&sessions, 1);
    let last = app.messages.last().unwrap();
    assert!(matches!(
        &last.content,
        ConversationContent::Text(t)
            if t == "Active sessions:\n  terminal-42-7 (/work) - interactive"
    ));

    app.report_inbox(&Vec::new(), 2);
    assert_eq!(app.status_message.as_deref(), Some("No messages"));

    let inbox = vec![SessionMessage {
        from: String::from("peer-1"),
        message: String::from("ping"),
        time: String::from("12:00"),
    }];
    app.report_inbox(&inbox, 3);
    let last = app.messages.last().unwrap();
    assert_eq!(last.role, Role::System);
    assert!(matches!(
        &last.content,
        ConversationContent::Text(t) if t == "[12:00] peer-1: ping"
    ));
}

#[test]
fn test_stale_stream_events_ignored_when_idle() {
    let mut app = new_app();
    app.handle_app_message(
        AppMessage::ClaudeEvent(claude_terminal::types::StreamEvent::Text(String::from("late"))),
        1,
    );
    assert_eq!(app.streaming_buffer, "", "events outside a turn are ignored");
}
