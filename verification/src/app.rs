//! The orchestrator: a single-threaded state machine that applies user
//! input and inbound bus events to the conversation state, enforces
//! busy-gating with an ordered pending queue, and answers with the actions
//! the embedding program must perform (start a turn, abort it, run a shell
//! command, drive the recorder, talk to the peer mailbox).
//!
//! Every transition is pinned by a spec-level function over `AppView`, the
//! mathematical model of the state; the proof functions at the end state
//! the queueing, abort and shell-entry laws.

use vstd::prelude::*;

use crate::sessions::{SessionInfo, SessionMessage};
use crate::strutil;
use crate::strutil::{dec_str, first_space_at, int_str, spec_trim};
use crate::types::{StreamEvent, StreamEventView};

verus! {

/// Messages that reach the orchestrator from the asynchronous sources: the
/// assistant's reader task, the shell executor, the transcriber, and the
/// peer-mailbox poller.
#[derive(Debug)]
pub enum AppMessage {
    /// The assistant's stream decoder produced an event.
    ClaudeEvent(StreamEvent),
    /// The assistant's output stream ended: the turn finished.
    ClaudeFinished,
    /// Reading the assistant's output failed: the turn failed.
    ClaudeError(String),
    /// A chunk of shell-command output.
    BashOutput(String),
    /// The shell command finished with this exit code.
    BashFinished(i32),
    /// A transcription finished with this text.
    VoiceTranscription(String),
    /// Recording or transcription failed.
    VoiceError(String),
    /// A peer session sent a message.
    SessionMessage { from: String, message: String },
}

/// Spec-level mirror of `AppMessage`.
#[verifier::ext_equal]
pub enum AppMessageView {
    ClaudeEvent(StreamEventView),
    ClaudeFinished,
    ClaudeError(Seq<char>),
    BashOutput(Seq<char>),
    BashFinished(i32),
    VoiceTranscription(Seq<char>),
    VoiceError(Seq<char>),
    SessionMessage { from: Seq<char>, message: Seq<char> },
}

impl View for AppMessage {
    type V = AppMessageView;

    open spec fn view(&self) -> AppMessageView {
        match self {
            AppMessage::ClaudeEvent(e) => AppMessageView::ClaudeEvent(e@),
            AppMessage::ClaudeFinished => AppMessageView::ClaudeFinished,
            AppMessage::ClaudeError(e) => AppMessageView::ClaudeError(e@),
            AppMessage::BashOutput(o) => AppMessageView::BashOutput(o@),
            AppMessage::BashFinished(c) => AppMessageView::BashFinished(*c),
            AppMessage::VoiceTranscription(t) => AppMessageView::VoiceTranscription(t@),
            AppMessage::VoiceError(e) => AppMessageView::VoiceError(e@),
            AppMessage::SessionMessage { from, message } => AppMessageView::SessionMessage {
                from: from@,
                message: message@,
            },
        }
    }
}

/// Who a conversation entry belongs to.
#[derive(Debug, Clone, Copy, PartialEq, Eq, Structural)]
pub enum Role {
    User,
    Assistant,
    System,
    Tool,
    Bash,
}

/// What a conversation entry holds. A shell command is created provisionally
/// (empty output, no exit code yet) and is the only kind of entry mutated
/// after creation.
#[derive(Debug, Clone)]
pub enum ConversationContent {
    Text(String),
    ToolUse { name: String, input: String },
    ToolResult { name: String, result: String },
    Thinking(String),
    BashCommand { command: String, output: String, exit_code: Option<i32> },
}

/// Spec-level mirror of `ConversationContent`.
#[verifier::ext_equal]
pub enum ConversationContentView {
    Text(Seq<char>),
    ToolUse { name: Seq<char>, input: Seq<char> },
    ToolResult { name: Seq<char>, result: Seq<char> },
    Thinking(Seq<char>),
    BashCommand { command: Seq<char>, output: Seq<char>, exit_code: Option<i32> },
}

impl View for ConversationContent {
    type V = ConversationContentView;

    open spec fn view(&self) -> ConversationContentView {
        match self {
            ConversationContent::Text(t) => ConversationContentView::Text(t@),
            ConversationContent::ToolUse { name, input } => ConversationContentView::ToolUse {
                name: name@,
                input: input@,
            },
            ConversationContent::ToolResult { name, result } => ConversationContentView::ToolResult {
                name: name@,
                result: result@,
            },
            ConversationContent::Thinking(t) => ConversationContentView::Thinking(t@),
            ConversationContent::BashCommand { command, output, exit_code } => ConversationContentView::BashCommand {
                command: command@,
                output: output@,
                exit_code: *exit_code,
            },
        }
    }
}

impl DeepView for ConversationContent {
    type V = ConversationContentView;

    open spec fn deep_view(&self) -> ConversationContentView {
        self.view()
    }
}

/// A single entry in the conversation transcript.
#[derive(Debug, Clone)]
pub struct ConversationEntry {
    pub role: Role,
    pub content: ConversationContent,
    /// Creation time, as milliseconds since the epoch, supplied by the caller.
    pub timestamp: u64,
}

/// Spec-level mirror of `ConversationEntry`.
#[verifier::ext_equal]
pub struct ConversationEntryView {
    pub role: Role,
    pub content: ConversationContentView,
    pub timestamp: u64,
}

impl View for ConversationEntry {
    type V = ConversationEntryView;

    open spec fn view(&self) -> ConversationEntryView {
        ConversationEntryView { role: self.role, content: self.content@, timestamp: self.timestamp }
    }
}

impl DeepView for ConversationEntry {
    type V = ConversationEntryView;

    open spec fn deep_view(&self) -> ConversationEntryView {
        self.view()
    }
}

/// The four token counters, summed cumulatively for the process lifetime;
/// they only ever grow (saturating at the numeric limit), and are never
/// reset.
#[derive(Debug, Clone, Copy, PartialEq, Eq, Structural)]
pub struct TokenUsage {
    pub input_tokens: u64,
    pub output_tokens: u64,
    pub cache_read_tokens: u64,
    pub cache_write_tokens: u64,
}

/// `a + b`, saturating at the largest u64.
pub open spec fn sat_add64(a: u64, b: u64) -> u64 {
    if a + b > u64::MAX {
        u64::MAX
    } else {
        (a + b) as u64
    }
}

/// One usage report added on top of the running totals, field by field.
pub open spec fn usage_add(u: TokenUsage, i: u64, o: u64, cr: u64, cw: u64) -> TokenUsage {
    TokenUsage {
        input_tokens: sat_add64(u.input_tokens, i),
        output_tokens: sat_add64(u.output_tokens, o),
        cache_read_tokens: sat_add64(u.cache_read_tokens, cr),
        cache_write_tokens: sat_add64(u.cache_write_tokens, cw),
    }
}

impl TokenUsage {
    /// Fresh counters, all zero.
    pub fn new() -> (r: TokenUsage)
        ensures
            r == (TokenUsage {
                input_tokens: 0,
                output_tokens: 0,
                cache_read_tokens: 0,
                cache_write_tokens: 0,
            }),
    {
        TokenUsage { input_tokens: 0, output_tokens: 0, cache_read_tokens: 0, cache_write_tokens: 0 }
    }

    /// Adds one usage report to the running totals.
    pub fn add(&mut self, i: u64, o: u64, cr: u64, cw: u64)
        ensures
            *final(self) == usage_add(*old(self), i, o, cr, cw),
    {
        self.input_tokens = if self.input_tokens > u64::MAX - i {
            u64::MAX
        } else {
            self.input_tokens + i
        };
        self.output_tokens = if self.output_tokens > u64::MAX - o {
            u64::MAX
        } else {
            self.output_tokens + o
        };
        self.cache_read_tokens = if self.cache_read_tokens > u64::MAX - cr {
            u64::MAX
        } else {
            self.cache_read_tokens + cr
        };
        self.cache_write_tokens = if self.cache_write_tokens > u64::MAX - cw {
            u64::MAX
        } else {
            self.cache_write_tokens + cw
        };
    }
}

/// Law: usage counters are strictly additive — two consecutive reports add
/// field by field onto the running totals, whenever the sums stay within
/// the numeric range.
pub proof fn lemma_usage_additive(
    u: TokenUsage,
    i1: u64,
    o1: u64,
    cr1: u64,
    cw1: u64,
    i2: u64,
    o2: u64,
    cr2: u64,
    cw2: u64,
)
    requires
        u.input_tokens + i1 + i2 <= u64::MAX,
        u.output_tokens + o1 + o2 <= u64::MAX,
        u.cache_read_tokens + cr1 + cr2 <= u64::MAX,
        u.cache_write_tokens + cw1 + cw2 <= u64::MAX,
    ensures
        usage_add(usage_add(u, i1, o1, cr1, cw1), i2, o2, cr2, cw2) == (TokenUsage {
            input_tokens: (u.input_tokens + i1 + i2) as u64,
            output_tokens: (u.output_tokens + o1 + o2) as u64,
            cache_read_tokens: (u.cache_read_tokens + cr1 + cr2) as u64,
            cache_write_tokens: (u.cache_write_tokens + cw1 + cw2) as u64,
        }),
{
}

/// Input mode for the application.
#[derive(Debug, Clone, Copy, PartialEq, Eq, Structural)]
pub enum InputMode {
    /// Normal text input.
    Normal,
    /// Recording voice.
    Recording,
}

/// A keystroke, as the orchestrator sees it; the embedding program maps the
/// terminal's raw key events onto this.
#[derive(Debug, Clone, Copy, PartialEq, Eq, Structural)]
pub enum KeyInput {
    /// A printable character, with whether shift was held.
    Char { c: char, shift: bool },
    CtrlC,
    CtrlQ,
    Enter,
    Backspace,
    Delete,
    Left,
    Right,
    Home,
    End,
    Up,
    Down,
    PageUp,
    PageDown,
    Esc,
    /// Any key the orchestrator does not react to.
    Other,
}

/// What the embedding program must do after a step: the orchestrator itself
/// performs no I/O.
#[derive(Debug, Clone)]
pub enum Action {
    /// Start a fresh assistant turn carrying this (possibly context-prefixed)
    /// message, with these settings.
    StartTurn {
        message: String,
        model: String,
        continue_session: bool,
        resume_session: Option<String>,
    },
    /// Forcibly terminate the active assistant process.
    AbortTurn,
    /// Hand this command to the shell executor.
    RunShell { command: String },
    /// Start capturing audio.
    StartRecording,
    /// Stop capturing and transcribe.
    StopRecording,
    /// Stop capturing and discard the audio.
    CancelRecording,
    /// Ask the peer mailbox for the active sessions.
    ListSessions,
    /// Send a message to one peer session.
    SendSessionMessage { target: String, message: String },
    /// Send a message to every peer session.
    Broadcast { message: String },
    /// Drain this instance's inbox.
    ReadInbox,
}

/// Spec-level mirror of `Action`.
#[verifier::ext_equal]
pub enum ActionView {
    StartTurn {
        message: Seq<char>,
        model: Seq<char>,
        continue_session: bool,
        resume_session: Option<Seq<char>>,
    },
    AbortTurn,
    RunShell { command: Seq<char> },
    StartRecording,
    StopRecording,
    CancelRecording,
    ListSessions,
    SendSessionMessage { target: Seq<char>, message: Seq<char> },
    Broadcast { message: Seq<char> },
    ReadInbox,
}

impl View for Action {
    type V = ActionView;

    open spec fn view(&self) -> ActionView {
        match self {
            Action::StartTurn { message, model, continue_session, resume_session } => ActionView::StartTurn {
                message: message@,
                model: model@,
                continue_session: *continue_session,
                resume_session: resume_session.deep_view(),
            },
            Action::AbortTurn => ActionView::AbortTurn,
            Action::RunShell { command } => ActionView::RunShell { command: command@ },
            Action::StartRecording => ActionView::StartRecording,
            Action::StopRecording => ActionView::StopRecording,
            Action::CancelRecording => ActionView::CancelRecording,
            Action::ListSessions => ActionView::ListSessions,
            Action::SendSessionMessage { target, message } => ActionView::SendSessionMessage {
                target: target@,
                message: message@,
            },
            Action::Broadcast { message } => ActionView::Broadcast { message: message@ },
            Action::ReadInbox => ActionView::ReadInbox,
        }
    }
}

impl DeepView for Action {
    type V = ActionView;

    open spec fn deep_view(&self) -> ActionView {
        self.view()
    }
}

/// The mathematical model of the orchestrator's state.
#[verifier::ext_equal]
pub struct AppView {
    pub model: Seq<char>,
    pub continue_session: bool,
    pub resume_session: Option<Seq<char>>,
    pub session_id: Option<Seq<char>>,
    pub messages: Seq<ConversationEntryView>,
    pub input: Seq<char>,
    pub cursor_position: int,
    pub input_mode: InputMode,
    pub message_queue: Seq<Seq<char>>,
    pub claude_busy: bool,
    pub streaming_buffer: Seq<char>,
    pub scroll_offset: int,
    pub input_history: Seq<Seq<char>>,
    pub history_index: Option<int>,
    pub should_quit: bool,
    pub status_message: Option<Seq<char>>,
    pub token_usage: TokenUsage,
}

impl AppView {
    /// The editing state is sound: the cursor sits inside the input line and
    /// the history index inside the history.
    pub open spec fn wf(self) -> bool {
        &&& 0 <= self.cursor_position <= self.input.len()
        &&& match self.history_index {
            Some(i) => 0 <= i < self.input_history.len(),
            None => true,
        }
    }
}

/// The orchestrator's state: the conversation, the input line, the pending
/// queue, the busy flag, the streaming buffer and the counters. All actual
/// I/O happens outside, driven by the returned `Action`s.
#[derive(Debug)]
pub struct App {
    /// Current model name.
    pub model: String,
    /// Continue the most recent conversation on the next turn.
    pub continue_session: bool,
    /// Resume this specific session on the next turn.
    pub resume_session: Option<String>,
    /// This instance's peer-session identity, assigned once at startup.
    pub session_id: Option<String>,
    /// Conversation history for display.
    pub messages: Vec<ConversationEntry>,
    /// Current input text.
    pub input: String,
    /// Input cursor position, in characters.
    pub cursor_position: usize,
    /// Input mode (normal, recording).
    pub input_mode: InputMode,
    /// Messages submitted while the assistant was busy, oldest first.
    pub message_queue: Vec<String>,
    /// Is the assistant currently processing?
    pub claude_busy: bool,
    /// Streaming text not yet finalized into an entry.
    pub streaming_buffer: String,
    /// Scroll offset for the conversation view.
    pub scroll_offset: usize,
    /// Previously submitted input lines.
    pub input_history: Vec<String>,
    /// Current position while walking the input history.
    pub history_index: Option<usize>,
    /// The user asked to quit.
    pub should_quit: bool,
    /// Status line message.
    pub status_message: Option<String>,
    /// Cumulative token usage.
    pub token_usage: TokenUsage,
}

impl View for App {
    type V = AppView;

    open spec fn view(&self) -> AppView {
        AppView {
            model: self.model@,
            continue_session: self.continue_session,
            resume_session: self.resume_session.deep_view(),
            session_id: self.session_id.deep_view(),
            messages: self.messages.deep_view(),
            input: self.input@,
            cursor_position: self.cursor_position as int,
            input_mode: self.input_mode,
            message_queue: self.message_queue.deep_view(),
            claude_busy: self.claude_busy,
            streaming_buffer: self.streaming_buffer@,
            scroll_offset: self.scroll_offset as int,
            input_history: self.input_history.deep_view(),
            history_index: match self.history_index {
                Some(i) => Some(i as int),
                None => None,
            },
            should_quit: self.should_quit,
            status_message: self.status_message.deep_view(),
            token_usage: self.token_usage,
        }
    }
}

/// A fresh transcript entry.
pub open spec fn entry(role: Role, content: ConversationContentView, now: u64) -> ConversationEntryView {
    ConversationEntryView { role, content, timestamp: now }
}

/// A non-empty streaming buffer finalized into one assistant text entry;
/// an empty buffer changes nothing.
pub open spec fn flush_buffer_spec(a: AppView, now: u64) -> AppView {
    if a.streaming_buffer.len() > 0 {
        AppView {
            messages: a.messages.push(
                entry(Role::Assistant, ConversationContentView::Text(a.streaming_buffer), now),
            ),
            streaming_buffer: Seq::<char>::empty(),
            ..a
        }
    } else {
        a
    }
}

/// What one decoded stream event does to the state: text accumulates in the
/// streaming buffer; a tool invocation first finalizes buffered prose, so
/// the transcript keeps its order; results and reasoning become entries of
/// their own; usage adds to the counters.
pub open spec fn claude_event_spec(a: AppView, ev: StreamEventView, now: u64) -> AppView {
    match ev {
        StreamEventView::Text(t) => AppView { streaming_buffer: a.streaming_buffer + t, ..a },
        StreamEventView::ToolUse { name, input } => {
            let a1 = flush_buffer_spec(a, now);
            AppView {
                messages: a1.messages.push(
                    entry(Role::Tool, ConversationContentView::ToolUse { name, input }, now),
                ),
                ..a1
            }
        },
        StreamEventView::ToolResult { name, result } => AppView {
            messages: a.messages.push(
                entry(Role::Tool, ConversationContentView::ToolResult { name, result }, now),
            ),
            ..a
        },
        StreamEventView::Thinking(t) => AppView {
            messages: a.messages.push(
                entry(Role::Assistant, ConversationContentView::Thinking(t), now),
            ),
            ..a
        },
        StreamEventView::Usage { input_tokens, output_tokens, cache_read_tokens, cache_write_tokens } => AppView {
            token_usage: usage_add(
                a.token_usage,
                input_tokens,
                output_tokens,
                cache_read_tokens,
                cache_write_tokens,
            ),
            ..a
        },
    }
}

/// The snippet of shell context one finished command contributes: the
/// command line, its output, and the exit code when one has arrived.
pub open spec fn bash_snippet(command: Seq<char>, output: Seq<char>, exit_code: Option<i32>) -> Seq<
    char,
> {
    let base = "$ "@ + command + "\n"@ + output;
    match exit_code {
        Some(ec) => base + "\n(exit code: "@ + int_str(ec as int) + ")"@,
        None => base,
    }
}

/// The snippets of the shell-command entries in `ms`, in order.
pub open spec fn bash_snippets(ms: Seq<ConversationEntryView>) -> Seq<Seq<char>>
    decreases ms.len(),
{
    if ms.len() == 0 {
        Seq::<Seq<char>>::empty()
    } else {
        let rest = bash_snippets(ms.drop_first());
        match ms[0].content {
            ConversationContentView::BashCommand { command, output, exit_code } => seq![
                bash_snippet(command, output, exit_code),
            ] + rest,
            _ => rest,
        }
    }
}

/// The bounded lookback for context: the five most recent entries.
pub open spec fn recent_window(ms: Seq<ConversationEntryView>) -> Seq<ConversationEntryView> {
    if ms.len() <= 5 {
        ms
    } else {
        ms.skip(ms.len() - 5)
    }
}

/// `parts` joined with `sep` between consecutive parts.
pub open spec fn join_sep(parts: Seq<Seq<char>>, sep: Seq<char>) -> Seq<char>
    decreases parts.len(),
{
    if parts.len() == 0 {
        Seq::<char>::empty()
    } else if parts.len() == 1 {
        parts[0]
    } else {
        parts[0] + sep + join_sep(parts.drop_first(), sep)
    }
}

proof fn lemma_join_sep_push(parts: Seq<Seq<char>>, sep: Seq<char>, x: Seq<char>)
    ensures
        parts.len() == 0 ==> join_sep(parts.push(x), sep) == x,
        parts.len() > 0 ==> join_sep(parts.push(x), sep) == join_sep(parts, sep) + sep + x,
    decreases parts.len(),
{
    if parts.len() == 0 {
        assert(parts.push(x) =~= seq![x]);
        assert(join_sep(seq![x], sep) == x);
    } else if parts.len() == 1 {
        assert(parts.push(x)[0] == parts[0]);
        assert(parts.push(x).drop_first() =~= seq![x]);
        assert(join_sep(seq![x], sep) == x);
        assert(parts.push(x).len() == 2);
        assert(join_sep(parts.push(x), sep) == parts[0] + sep + join_sep(
            parts.push(x).drop_first(),
            sep,
        ));
        assert(join_sep(parts, sep) == parts[0]);
    } else {
        assert(parts.push(x)[0] == parts[0]);
        assert(parts.push(x).drop_first() =~= parts.drop_first().push(x));
        lemma_join_sep_push(parts.drop_first(), sep, x);
        assert(join_sep(parts.push(x), sep) == parts[0] + sep + join_sep(
            parts.drop_first().push(x),
            sep,
        ));
        assert(join_sep(parts.drop_first().push(x), sep) == join_sep(parts.drop_first(), sep) + sep
            + x);
        assert(parts[0] + sep + (join_sep(parts.drop_first(), sep) + sep + x) =~= (parts[0] + sep
            + join_sep(parts.drop_first(), sep)) + sep + x);
    }
}

/// The shell-activity context prepended to a new message: the snippets of
/// the shell-command entries among the five most recent, most recent last,
/// under a heading — or nothing when there are none.
pub open spec fn spec_context(ms: Seq<ConversationEntryView>) -> Seq<char> {
    let parts = bash_snippets(recent_window(ms));
    if parts.len() == 0 {
        Seq::<char>::empty()
    } else {
        "[Recent terminal activity]\n"@ + join_sep(parts, "\n\n"@) + "\n"@
    }
}

/// The status line after queueing a message, with the queue's new depth.
pub open spec fn queued_status(n: int) -> Seq<char> {
    "Queued ("@ + dec_str(n) + " pending)"@
}

/// The status line after releasing a queued message, with the depth left.
pub open spec fn more_queued_status(n: int) -> Seq<char> {
    dec_str(n) + " more queued"@
}

/// What submitting a message to the assistant does. While a turn is active
/// the message only joins the pending queue (nothing is sent and no entry
/// appears). While idle, a user entry is appended, recent shell activity is
/// prepended to the outgoing text, the busy flag is set, the streaming
/// buffer cleared, and one StartTurn action carries the message out; a
/// pending resume token is consumed by the turn it starts.
/// The text a new turn carries out: the message itself, prefixed with the
/// recent shell-activity context when there is any.
pub open spec fn outgoing_message(ms1: Seq<ConversationEntryView>, msg: Seq<char>) -> Seq<char> {
    let ctx = spec_context(ms1);
    if ctx.len() == 0 {
        msg
    } else {
        ctx + "\n\n"@ + msg
    }
}

pub open spec fn send_spec(a: AppView, msg: Seq<char>, now: u64) -> (AppView, Seq<ActionView>) {
    if a.claude_busy {
        (
            AppView {
                message_queue: a.message_queue.push(msg),
                status_message: Some(queued_status(a.message_queue.len() as int + 1)),
                ..a
            },
            Seq::<ActionView>::empty(),
        )
    } else {
        let ms1 = a.messages.push(entry(Role::User, ConversationContentView::Text(msg), now));
        let full = outgoing_message(ms1, msg);
        (
            AppView {
                messages: ms1,
                claude_busy: true,
                streaming_buffer: Seq::<char>::empty(),
                resume_session: None,
                scroll_offset: 0,
                ..a
            },
            seq![
                ActionView::StartTurn {
                    message: full,
                    model: a.model,
                    continue_session: a.continue_session,
                    resume_session: a.resume_session,
                },
            ],
        )
    }
}

/// What creating a shell-command entry does: a provisional entry (empty
/// output, no exit code yet) is appended, and one RunShell action carries
/// the command out.
pub open spec fn execute_bash_spec(a: AppView, cmd: Seq<char>, now: u64) -> (AppView, Seq<
    ActionView,
>) {
    (
        AppView {
            messages: a.messages.push(
                entry(
                    Role::Bash,
                    ConversationContentView::BashCommand {
                        command: cmd,
                        output: Seq::<char>::empty(),
                        exit_code: None,
                    },
                    now,
                ),
            ),
            ..a
        },
        seq![ActionView::RunShell { command: cmd }],
    )
}

/// What a finished turn does. A stale completion (no turn active, as after
/// an abort) is ignored. Otherwise the busy flag clears, a non-empty
/// streaming buffer becomes one assistant entry, and — first submitted,
/// first released — exactly one queued message starts the next turn.
pub open spec fn finished_spec(a: AppView, now: u64) -> (AppView, Seq<ActionView>) {
    if !a.claude_busy {
        (a, Seq::<ActionView>::empty())
    } else {
        let a1 = flush_buffer_spec(AppView { claude_busy: false, ..a }, now);
        if a1.message_queue.len() > 0 {
            let msg = a1.message_queue[0];
            let a2 = AppView {
                message_queue: a1.message_queue.drop_first(),
                status_message: Some(more_queued_status(a1.message_queue.len() - 1)),
                ..a1
            };
            send_spec(a2, msg, now)
        } else {
            (a1, Seq::<ActionView>::empty())
        }
    }
}

/// What a failed turn does: the busy flag clears and a system entry records
/// the failure; the queue is left untouched. A stale failure (no turn
/// active) is ignored.
pub open spec fn turn_error_spec(a: AppView, err: Seq<char>, now: u64) -> AppView {
    if !a.claude_busy {
        a
    } else {
        AppView {
            claude_busy: false,
            messages: a.messages.push(
                entry(Role::System, ConversationContentView::Text("Error: "@ + err), now),
            ),
            ..a
        }
    }
}

/// What a chunk of shell output does: it is appended, in place, to the most
/// recently appended entry if that entry is a shell command; otherwise the
/// event is a no-op.
pub open spec fn bash_output_spec(a: AppView, chunk: Seq<char>) -> AppView {
    if a.messages.len() > 0 {
        match a.messages.last().content {
            ConversationContentView::BashCommand { command, output, exit_code } => AppView {
                messages: a.messages.update(
                    a.messages.len() - 1,
                    ConversationEntryView {
                        content: ConversationContentView::BashCommand {
                            command,
                            output: output + chunk,
                            exit_code,
                        },
                        ..a.messages.last()
                    },
                ),
                ..a
            },
            _ => a,
        }
    } else {
        a
    }
}

/// What a shell exit code does: it is recorded, in place, on the most
/// recently appended entry if that entry is a shell command; otherwise the
/// event is a no-op.
pub open spec fn bash_finished_spec(a: AppView, code: i32) -> AppView {
    if a.messages.len() > 0 {
        match a.messages.last().content {
            ConversationContentView::BashCommand { command, output, exit_code } => AppView {
                messages: a.messages.update(
                    a.messages.len() - 1,
                    ConversationEntryView {
                        content: ConversationContentView::BashCommand {
                            command,
                            output,
                            exit_code: Some(code),
                        },
                        ..a.messages.last()
                    },
                ),
                ..a
            },
            _ => a,
        }
    } else {
        a
    }
}

/// What a finished transcription does: its text is inserted at the input
/// cursor, which moves past it.
pub open spec fn voice_transcription_spec(a: AppView, text: Seq<char>) -> AppView {
    AppView {
        input: a.input.take(a.cursor_position) + text + a.input.skip(a.cursor_position),
        cursor_position: a.cursor_position + text.len(),
        status_message: Some("Transcription complete"@),
        ..a
    }
}

/// What a voice error does: recording mode reverts to normal input and the
/// status line reports the error.
pub open spec fn voice_error_spec(a: AppView, err: Seq<char>) -> AppView {
    AppView {
        input_mode: InputMode::Normal,
        status_message: Some("Voice error: "@ + err),
        ..a
    }
}

/// What a peer message does: a system entry records it.
pub open spec fn session_message_spec(
    a: AppView,
    from: Seq<char>,
    message: Seq<char>,
    now: u64,
) -> AppView {
    AppView {
        messages: a.messages.push(
            entry(
                Role::System,
                ConversationContentView::Text("[Session "@ + from + "]: "@ + message),
                now,
            ),
        ),
        ..a
    }
}

/// What one inbound bus event does to the state, and the actions it causes.
/// Decoded stream events apply only while a turn is active; stale ones (as
/// after an abort) are ignored.
pub open spec fn message_spec(a: AppView, m: AppMessageView, now: u64) -> (AppView, Seq<
    ActionView,
>) {
    match m {
        AppMessageView::ClaudeEvent(e) => (
            if a.claude_busy {
                claude_event_spec(a, e, now)
            } else {
                a
            },
            Seq::<ActionView>::empty(),
        ),
        AppMessageView::ClaudeFinished => finished_spec(a, now),
        AppMessageView::ClaudeError(err) => (turn_error_spec(a, err, now), Seq::<
            ActionView,
        >::empty()),
        AppMessageView::BashOutput(o) => (bash_output_spec(a, o), Seq::<ActionView>::empty()),
        AppMessageView::BashFinished(c) => (bash_finished_spec(a, c), Seq::<ActionView>::empty()),
        AppMessageView::VoiceTranscription(t) => (voice_transcription_spec(a, t), Seq::<
            ActionView,
        >::empty()),
        AppMessageView::VoiceError(e) => (voice_error_spec(a, e), Seq::<ActionView>::empty()),
        AppMessageView::SessionMessage { from, message } => (
            session_message_spec(a, from, message, now),
            Seq::<ActionView>::empty(),
        ),
    }
}

/// What an interrupt request does. With a turn active, the busy flag clears
/// immediately, the partially streamed buffer is discarded — interruption
/// never salvages in-flight output — and one AbortTurn action kills the
/// process. While idle, the input line is cleared instead.
pub open spec fn interrupt_spec(a: AppView) -> (AppView, Seq<ActionView>) {
    if a.claude_busy {
        (
            AppView {
                claude_busy: false,
                streaming_buffer: Seq::<char>::empty(),
                status_message: Some("Interrupted"@),
                ..a
            },
            seq![ActionView::AbortTurn],
        )
    } else {
        (AppView { input: Seq::<char>::empty(), cursor_position: 0, ..a }, Seq::<
            ActionView,
        >::empty())
    }
}

/// What toggling voice recording does: normal mode starts capturing,
/// recording mode stops it and hands the audio to the transcriber.
pub open spec fn toggle_voice_spec(a: AppView) -> (AppView, Seq<ActionView>) {
    match a.input_mode {
        InputMode::Normal => (
            AppView {
                input_mode: InputMode::Recording,
                status_message: Some("Recording..."@),
                ..a
            },
            seq![ActionView::StartRecording],
        ),
        InputMode::Recording => (
            AppView {
                input_mode: InputMode::Normal,
                status_message: Some("Transcribing..."@),
                ..a
            },
            seq![ActionView::StopRecording],
        ),
    }
}

/// What walking the input history does: up from the end starts at the most
/// recent line; down past the most recent line returns to an empty line.
pub open spec fn history_nav_spec(a: AppView, direction: int) -> AppView {
    if a.input_history.len() == 0 {
        a
    } else {
        let n = a.input_history.len() as int;
        let new_index = match a.history_index {
            None => if direction < 0 {
                Some(n - 1)
            } else {
                None
            },
            Some(i) => if direction < 0 && i > 0 {
                Some(i - 1)
            } else if direction > 0 && i < n - 1 {
                Some(i + 1)
            } else if direction > 0 {
                None
            } else {
                Some(i)
            },
        };
        let input = match new_index {
            Some(i) => a.input_history[i],
            None => Seq::<char>::empty(),
        };
        AppView {
            history_index: new_index,
            input,
            cursor_position: input.len() as int,
            ..a
        }
    }
}

/// The help text shown for the command list.
pub open spec fn help_text() -> Seq<char> {
    "Commands:\n  !<cmd>         Run bash command\n  /quit          Exit\n  /clear         Clear conversation\n  /model <name>  Set model\n  /sessions      List active sessions\n  /send <id> <m> Send message to session\n  /broadcast <m> Broadcast to all sessions\n  /inbox         Read incoming messages\n  *              Toggle voice recording\n  Ctrl+C         Interrupt assistant\n  Ctrl+Q         Quit"@
}

/// What a `/`-prefixed command does; each maps to one state change or one
/// collaborator action.
pub open spec fn slash_spec(a: AppView, input: Seq<char>, now: u64) -> (AppView, Seq<ActionView>) {
    let rest = input.skip(1);
    let k = first_space_at(rest, 0);
    let cmd = rest.take(k);
    let args = if k == rest.len() {
        Seq::<char>::empty()
    } else {
        rest.subrange(k + 1, rest.len() as int)
    };
    if cmd == "quit"@ || cmd == "q"@ {
        (AppView { should_quit: true, ..a }, Seq::<ActionView>::empty())
    } else if cmd == "clear"@ {
        (
            AppView { messages: Seq::<ConversationEntryView>::empty(), scroll_offset: 0, ..a },
            Seq::<ActionView>::empty(),
        )
    } else if cmd == "model"@ {
        if args.len() > 0 {
            (
                AppView { model: args, status_message: Some("Model set to: "@ + args), ..a },
                Seq::<ActionView>::empty(),
            )
        } else {
            (
                AppView { status_message: Some("Current model: "@ + a.model), ..a },
                Seq::<ActionView>::empty(),
            )
        }
    } else if cmd == "sessions"@ {
        (a, seq![ActionView::ListSessions])
    } else if cmd == "send"@ {
        let k2 = first_space_at(args, 0);
        if k2 < args.len() {
            let target = args.take(k2);
            let m = args.subrange(k2 + 1, args.len() as int);
            (
                AppView { status_message: Some("Sent to "@ + target), ..a },
                seq![ActionView::SendSessionMessage { target, message: m }],
            )
        } else {
            (
                AppView {
                    status_message: Some("Usage: /send <session-id> <message>"@),
                    ..a
                },
                Seq::<ActionView>::empty(),
            )
        }
    } else if cmd == "broadcast"@ {
        if args.len() > 0 {
            (
                AppView { status_message: Some("Broadcast sent"@), ..a },
                seq![ActionView::Broadcast { message: args }],
            )
        } else {
            (
                AppView { status_message: Some("Usage: /broadcast <message>"@), ..a },
                Seq::<ActionView>::empty(),
            )
        }
    } else if cmd == "inbox"@ {
        (a, seq![ActionView::ReadInbox])
    } else if cmd == "help"@ {
        (
            AppView {
                messages: a.messages.push(
                    entry(Role::System, ConversationContentView::Text(help_text()), now),
                ),
                ..a
            },
            Seq::<ActionView>::empty(),
        )
    } else {
        (
            AppView { status_message: Some("Unknown command: /"@ + cmd), ..a },
            Seq::<ActionView>::empty(),
        )
    }
}

/// What submitting the input line does: the line is cleared into the
/// history, then routed — `!` to the shell, `/` to the command set,
/// anything else to the assistant.
pub open spec fn submit_spec(a: AppView, now: u64) -> (AppView, Seq<ActionView>) {
    let text = a.input;
    let a0 = AppView {
        input: Seq::<char>::empty(),
        cursor_position: 0,
        input_history: a.input_history.push(text),
        history_index: None,
        ..a
    };
    if text[0] == '!' {
        execute_bash_spec(a0, spec_trim(text.skip(1)), now)
    } else if text[0] == '/' {
        slash_spec(a0, text, now)
    } else {
        send_spec(a0, text, now)
    }
}

/// What one keystroke does in normal input mode.
pub open spec fn normal_key_spec(a: AppView, key: KeyInput, now: u64) -> (AppView, Seq<
    ActionView,
>) {
    match key {
        KeyInput::CtrlQ => (AppView { should_quit: true, ..a }, Seq::<ActionView>::empty()),
        KeyInput::CtrlC => interrupt_spec(a),
        KeyInput::Enter => if a.input.len() > 0 {
            submit_spec(a, now)
        } else {
            (a, Seq::<ActionView>::empty())
        },
        KeyInput::Char { c, shift } => if c == '*' && !shift {
            toggle_voice_spec(a)
        } else {
            (
                AppView {
                    input: a.input.take(a.cursor_position).push(c) + a.input.skip(
                        a.cursor_position,
                    ),
                    cursor_position: a.cursor_position + 1,
                    ..a
                },
                Seq::<ActionView>::empty(),
            )
        },
        KeyInput::Backspace => if a.cursor_position > 0 {
            (
                AppView {
                    input: a.input.take(a.cursor_position - 1) + a.input.skip(a.cursor_position),
                    cursor_position: a.cursor_position - 1,
                    ..a
                },
                Seq::<ActionView>::empty(),
            )
        } else {
            (a, Seq::<ActionView>::empty())
        },
        KeyInput::Delete => if a.cursor_position < a.input.len() {
            (
                AppView {
                    input: a.input.take(a.cursor_position) + a.input.skip(a.cursor_position + 1),
                    ..a
                },
                Seq::<ActionView>::empty(),
            )
        } else {
            (a, Seq::<ActionView>::empty())
        },
        KeyInput::Left => (
            AppView {
                cursor_position: if a.cursor_position > 0 {
                    a.cursor_position - 1
                } else {
                    0
                },
                ..a
            },
            Seq::<ActionView>::empty(),
        ),
        KeyInput::Right => (
            AppView {
                cursor_position: if a.cursor_position < a.input.len() {
                    a.cursor_position + 1
                } else {
                    a.cursor_position
                },
                ..a
            },
            Seq::<ActionView>::empty(),
        ),
        KeyInput::Home => (AppView { cursor_position: 0, ..a }, Seq::<ActionView>::empty()),
        KeyInput::End => (
            AppView { cursor_position: a.input.len() as int, ..a },
            Seq::<ActionView>::empty(),
        ),
        KeyInput::Up => (history_nav_spec(a, -1), Seq::<ActionView>::empty()),
        KeyInput::Down => (history_nav_spec(a, 1), Seq::<ActionView>::empty()),
        KeyInput::PageUp => (
            AppView {
                scroll_offset: if a.scroll_offset + 10 > usize::MAX {
                    usize::MAX as int
                } else {
                    a.scroll_offset + 10
                },
                ..a
            },
            Seq::<ActionView>::empty(),
        ),
        KeyInput::PageDown => (
            AppView {
                scroll_offset: if a.scroll_offset >= 10 {
                    a.scroll_offset - 10
                } else {
                    0
                },
                ..a
            },
            Seq::<ActionView>::empty(),
        ),
        KeyInput::Esc => (a, Seq::<ActionView>::empty()),
        KeyInput::Other => (a, Seq::<ActionView>::empty()),
    }
}

/// What one keystroke does while recording: `*` stops and transcribes,
/// Esc cancels, everything else is ignored.
pub open spec fn recording_key_spec(a: AppView, key: KeyInput) -> (AppView, Seq<ActionView>) {
    match key {
        KeyInput::Char { c, shift } => if c == '*' {
            toggle_voice_spec(a)
        } else {
            (a, Seq::<ActionView>::empty())
        },
        KeyInput::Esc => (
            AppView {
                input_mode: InputMode::Normal,
                status_message: Some("Recording cancelled"@),
                ..a
            },
            seq![ActionView::CancelRecording],
        ),
        _ => (a, Seq::<ActionView>::empty()),
    }
}

/// What one keystroke does, by input mode.
pub open spec fn key_spec(a: AppView, key: KeyInput, now: u64) -> (AppView, Seq<ActionView>) {
    match a.input_mode {
        InputMode::Normal => normal_key_spec(a, key, now),
        InputMode::Recording => recording_key_spec(a, key),
    }
}

/// One line of the session listing.
pub open spec fn session_line(s: crate::sessions::SessionInfoView) -> Seq<char> {
    "  "@ + s.id + " ("@ + s.cwd + ") - "@ + s.task
}

/// The text of the entry recording a session listing.
pub open spec fn sessions_entry_text(ss: Seq<crate::sessions::SessionInfoView>) -> Seq<char> {
    if ss.len() == 0 {
        "Active sessions:\n"@ + "No other active sessions"@
    } else {
        "Active sessions:\n"@ + join_sep(
            ss.map_values(|s: crate::sessions::SessionInfoView| session_line(s)),
            "\n"@,
        )
    }
}

/// What reporting a session listing does: one system entry records it.
pub open spec fn report_sessions_spec(
    a: AppView,
    ss: Seq<crate::sessions::SessionInfoView>,
    now: u64,
) -> AppView {
    AppView {
        messages: a.messages.push(
            entry(Role::System, ConversationContentView::Text(sessions_entry_text(ss)), now),
        ),
        ..a
    }
}

/// One line of the inbox listing.
pub open spec fn inbox_line(m: crate::sessions::SessionMessageView) -> Seq<char> {
    "["@ + m.time + "] "@ + m.from + ": "@ + m.message
}

/// What reporting a drained inbox does: one system entry per message, in
/// order; an empty inbox only sets the status line.
pub open spec fn report_inbox_spec(
    a: AppView,
    ms: Seq<crate::sessions::SessionMessageView>,
    now: u64,
) -> AppView {
    if ms.len() == 0 {
        AppView { status_message: Some("No messages"@), ..a }
    } else {
        AppView {
            messages: a.messages + ms.map_values(
                |m: crate::sessions::SessionMessageView| entry(
                    Role::System,
                    ConversationContentView::Text(inbox_line(m)),
                    now,
                ),
            ),
            ..a
        }
    }
}

/// One snippet of shell context, built from a shell-command entry.
fn bash_snippet_exec(command: &String, output: &String, exit_code: &Option<i32>) -> (r: String)
    ensures
        r@ == bash_snippet(command@, output@, *exit_code),
{
    let mut s = String::from_str("$ ");
    s.append(command.as_str());
    s.append("\n");
    s.append(output.as_str());
    match exit_code {
        Some(ec) => {
            s.append("\n(exit code: ");
            let ecs = strutil::i32_to_string(*ec);
            s.append(ecs.as_str());
            s.append(")");
        },
        None => {},
    }
    proof {
        assert(s@ =~= bash_snippet(command@, output@, *exit_code));
    }
    s
}

/// `parts` joined with `sep`.
fn join_strings(parts: &Vec<String>, sep: &str) -> (r: String)
    ensures
        r@ == join_sep(parts.deep_view(), sep@),
{
    let mut out = String::new();
    if parts.len() == 0 {
        return out;
    }
    out.append(parts[0].as_str());
    proof {
        assert(parts.deep_view().take(1) =~= seq![parts.deep_view()[0]]);
    }
    let mut i: usize = 1;
    while i < parts.len()
        invariant
            1 <= i <= parts.deep_view().len(),
            parts.deep_view().len() == parts@.len(),
            out@ == join_sep(parts.deep_view().take(i as int), sep@),
        decreases parts@.len() - i,
    {
        out.append(sep);
        out.append(parts[i].as_str());
        proof {
            assert(parts.deep_view().take(i as int).push(parts.deep_view()[i as int])
                =~= parts.deep_view().take(i as int + 1));
            lemma_join_sep_push(parts.deep_view().take(i as int), sep@, parts.deep_view()[i as int]);
        }
        i += 1;
    }
    proof {
        assert(parts.deep_view().take(parts.deep_view().len() as int) =~= parts.deep_view());
    }
    out
}

impl App {
    pub fn new(model: String, continue_session: bool, resume_session: Option<String>) -> (r: App)
        ensures
            r@ == (AppView {
                model: model@,
                continue_session,
                resume_session: resume_session.deep_view(),
                session_id: None,
                messages: Seq::<ConversationEntryView>::empty(),
                input: Seq::<char>::empty(),
                cursor_position: 0,
                input_mode: InputMode::Normal,
                message_queue: Seq::<Seq<char>>::empty(),
                claude_busy: false,
                streaming_buffer: Seq::<char>::empty(),
                scroll_offset: 0,
                input_history: Seq::<Seq<char>>::empty(),
                history_index: None,
                should_quit: false,
                status_message: None,
                token_usage: TokenUsage {
                    input_tokens: 0,
                    output_tokens: 0,
                    cache_read_tokens: 0,
                    cache_write_tokens: 0,
                },
            }),
            r@.wf(),
    {
        let r = App {
            model,
            continue_session,
            resume_session,
            session_id: None,
            messages: Vec::new(),
            input: String::new(),
            cursor_position: 0,
            input_mode: InputMode::Normal,
            message_queue: Vec::new(),
            claude_busy: false,
            streaming_buffer: String::new(),
            scroll_offset: 0,
            input_history: Vec::new(),
            history_index: None,
            should_quit: false,
            status_message: None,
            token_usage: TokenUsage::new(),
        };
        proof {
            assert(r@ =~~= AppView {
                model: r.model@,
                continue_session: r.continue_session,
                resume_session: r.resume_session.deep_view(),
                session_id: None,
                messages: Seq::<ConversationEntryView>::empty(),
                input: Seq::<char>::empty(),
                cursor_position: 0,
                input_mode: InputMode::Normal,
                message_queue: Seq::<Seq<char>>::empty(),
                claude_busy: false,
                streaming_buffer: Seq::<char>::empty(),
                scroll_offset: 0,
                input_history: Seq::<Seq<char>>::empty(),
                history_index: None,
                should_quit: false,
                status_message: None,
                token_usage: TokenUsage {
                    input_tokens: 0,
                    output_tokens: 0,
                    cache_read_tokens: 0,
                    cache_write_tokens: 0,
                },
            });
        }
        r
    }

    /// Finalizes a non-empty streaming buffer into one assistant entry.
    fn flush_streaming_buffer(&mut self, now: u64)
        ensures
            final(self)@ == flush_buffer_spec(old(self)@, now),
            old(self)@.wf() ==> final(self)@.wf(),
    {
        if !self.streaming_buffer.as_str().is_empty() {
            let mut buf = String::new();
            core::mem::swap(&mut self.streaming_buffer, &mut buf);
            self.messages.push(
                ConversationEntry {
                    role: Role::Assistant,
                    content: ConversationContent::Text(buf),
                    timestamp: now,
                },
            );
            proof {
                assert(self@ =~~= flush_buffer_spec(old(self)@, now));
            }
        } else {
            proof {
                assert(self@ =~~= flush_buffer_spec(old(self)@, now));
            }
        }
    }

    /// Applies one decoded stream event, exactly as `claude_event_spec` says.
    pub fn handle_claude_event(&mut self, event: StreamEvent, now: u64)
        ensures
            final(self)@ == claude_event_spec(old(self)@, event@, now),
            old(self)@.wf() ==> final(self)@.wf(),
    {
        match event {
            StreamEvent::Text(text) => {
                self.streaming_buffer.append(text.as_str());
            },
            StreamEvent::ToolUse { name, input } => {
                self.flush_streaming_buffer(now);
                self.messages.push(
                    ConversationEntry {
                        role: Role::Tool,
                        content: ConversationContent::ToolUse { name, input },
                        timestamp: now,
                    },
                );
            },
            StreamEvent::ToolResult { name, result } => {
                self.messages.push(
                    ConversationEntry {
                        role: Role::Tool,
                        content: ConversationContent::ToolResult { name, result },
                        timestamp: now,
                    },
                );
            },
            StreamEvent::Thinking(text) => {
                self.messages.push(
                    ConversationEntry {
                        role: Role::Assistant,
                        content: ConversationContent::Thinking(text),
                        timestamp: now,
                    },
                );
            },
            StreamEvent::Usage { input_tokens, output_tokens, cache_read_tokens, cache_write_tokens } => {
                self.token_usage.add(
                    input_tokens,
                    output_tokens,
                    cache_read_tokens,
                    cache_write_tokens,
                );
            },
        }
        proof {
            assert(self@ =~~= claude_event_spec(old(self)@, event@, now));
        }
    }

    /// Build context from recent shell commands to include with a message.
    pub fn build_context(&self) -> (r: String)
        ensures
            r@ == spec_context(self@.messages),
    {
        let ghost window = recent_window(self@.messages);
        let len = self.messages.len();
        let start: usize = if len > 5 {
            len - 5
        } else {
            0
        };
        proof {
            assert(window =~= self@.messages.skip(start as int));
        }
        let mut parts: Vec<String> = Vec::new();
        proof {
            assert(parts.deep_view() + bash_snippets(self@.messages.skip(start as int))
                =~= bash_snippets(self@.messages.skip(start as int)));
        }
        let mut i: usize = start;
        while i < len
            invariant
                start <= i <= len,
                len == self@.messages.len(),
                self@.messages == self.messages.deep_view(),
                bash_snippets(window) == parts.deep_view() + bash_snippets(
                    self@.messages.skip(i as int),
                ),
                window == recent_window(self@.messages),
            decreases len - i,
        {
            let ghost pre_parts = parts.deep_view();
            proof {
                assert(self@.messages.skip(i as int)[0] == self@.messages[i as int]);
                assert(self@.messages.skip(i as int).drop_first() =~= self@.messages.skip(
                    i as int + 1,
                ));
            }
            match &self.messages[i].content {
                ConversationContent::BashCommand { command, output, exit_code } => {
                    parts.push(bash_snippet_exec(command, output, exit_code));
                    proof {
                        assert(parts.deep_view() =~= pre_parts.push(
                            bash_snippet(command@, output@, *exit_code),
                        ));
                        assert(pre_parts.push(bash_snippet(command@, output@, *exit_code))
                            + bash_snippets(self@.messages.skip(i as int + 1)) =~= pre_parts + (seq![
                            bash_snippet(command@, output@, *exit_code),
                        ] + bash_snippets(self@.messages.skip(i as int + 1))));
                    }
                },
                _ => {},
            }
            i += 1;
        }
        proof {
            assert(self@.messages.skip(len as int) =~= Seq::<ConversationEntryView>::empty());
            assert(parts.deep_view() + Seq::<Seq<char>>::empty() =~= parts.deep_view());
            assert(parts.deep_view() == bash_snippets(window));
        }
        if parts.len() == 0 {
            let r = String::new();
            return r;
        }
        let joined = join_strings(&parts, "\n\n");
        let mut out = String::from_str("[Recent terminal activity]\n");
        out.append(joined.as_str());
        out.append("\n");
        proof {
            assert(out@ =~= spec_context(self@.messages));
        }
        out
    }

    /// Submit a message to the assistant: queued while busy, otherwise a
    /// user entry is appended and a turn starts, exactly as `send_spec`
    /// says.
    pub fn send_to_claude(&mut self, message: &str, now: u64) -> (r: Vec<Action>)
        ensures
            final(self)@ == send_spec(old(self)@, message@, now).0,
            r.deep_view() == send_spec(old(self)@, message@, now).1,
            old(self)@.wf() ==> final(self)@.wf(),
    {
        if self.claude_busy {
            self.message_queue.push(String::from_str(message));
            let depth = self.message_queue.len();
            let mut st = String::from_str("Queued (");
            let ds = strutil::u64_to_string(depth as u64);
            st.append(ds.as_str());
            st.append(" pending)");
            self.status_message = Some(st);
            let r: Vec<Action> = Vec::new();
            proof {
                assert(self@ =~~= send_spec(old(self)@, message@, now).0);
                assert(r.deep_view() =~= send_spec(old(self)@, message@, now).1);
            }
            r
        } else {
            self.messages.push(
                ConversationEntry {
                    role: Role::User,
                    content: ConversationContent::Text(String::from_str(message)),
                    timestamp: now,
                },
            );
            proof {
                assert(self.messages.deep_view() =~= old(self)@.messages.push(
                    entry(Role::User, ConversationContentView::Text(message@), now),
                ));
            }
            let context = self.build_context();
            self.claude_busy = true;
            self.streaming_buffer = String::new();
            let resume = self.resume_session.take();
            let full = if context.as_str().is_empty() {
                String::from_str(message)
            } else {
                let mut f = context;
                f.append("\n\n");
                f.append(message);
                f
            };
            self.scroll_offset = 0;
            let mut r: Vec<Action> = Vec::new();
            r.push(
                Action::StartTurn {
                    message: full,
                    model: self.model.clone(),
                    continue_session: self.continue_session,
                    resume_session: resume,
                },
            );
            proof {
                assert(self@ =~~= send_spec(old(self)@, message@, now).0);
                assert(r.deep_view() =~~= send_spec(old(self)@, message@, now).1);
            }
            r
        }
    }

    /// Create a provisional shell-command entry and hand the command out,
    /// exactly as `execute_bash_spec` says.
    pub fn execute_bash(&mut self, command: &str, now: u64) -> (r: Vec<Action>)
        ensures
            final(self)@ == execute_bash_spec(old(self)@, command@, now).0,
            r.deep_view() == execute_bash_spec(old(self)@, command@, now).1,
            old(self)@.wf() ==> final(self)@.wf(),
    {
        self.messages.push(
            ConversationEntry {
                role: Role::Bash,
                content: ConversationContent::BashCommand {
                    command: String::from_str(command),
                    output: String::new(),
                    exit_code: None,
                },
                timestamp: now,
            },
        );
        let mut r: Vec<Action> = Vec::new();
        r.push(Action::RunShell { command: String::from_str(command) });
        proof {
            assert(self@ =~~= execute_bash_spec(old(self)@, command@, now).0);
            assert(r.deep_view() =~~= execute_bash_spec(old(self)@, command@, now).1);
        }
        r
    }

    /// Applies one inbound bus event, exactly as `message_spec` says.
    pub fn handle_app_message(&mut self, msg: AppMessage, now: u64) -> (r: Vec<Action>)
        requires
            old(self)@.wf(),
        ensures
            final(self)@ == message_spec(old(self)@, msg@, now).0,
            r.deep_view() == message_spec(old(self)@, msg@, now).1,
            final(self)@.wf(),
    {
        match msg {
            AppMessage::ClaudeEvent(event) => {
                if self.claude_busy {
                    self.handle_claude_event(event, now);
                }
                let r: Vec<Action> = Vec::new();
                proof {
                    assert(r.deep_view() =~= Seq::<ActionView>::empty());
                }
                r
            },
            AppMessage::ClaudeFinished => {
                if !self.claude_busy {
                    let r: Vec<Action> = Vec::new();
                    proof {
                        assert(r.deep_view() =~= Seq::<ActionView>::empty());
                    }
                    return r;
                }
                self.claude_busy = false;
                self.flush_streaming_buffer(now);
                if self.message_queue.len() > 0 {
                    let queued = self.message_queue.remove(0);
                    let depth = self.message_queue.len();
                    let mut st = strutil::u64_to_string(depth as u64);
                    st.append(" more queued");
                    self.status_message = Some(st);
                    let ghost mid = self@;
                    proof {
                        assert(mid =~~= AppView {
                            message_queue: flush_buffer_spec(
                                AppView { claude_busy: false, ..old(self)@ },
                                now,
                            ).message_queue.drop_first(),
                            status_message: Some(
                                more_queued_status(
                                    flush_buffer_spec(
                                        AppView { claude_busy: false, ..old(self)@ },
                                        now,
                                    ).message_queue.len() - 1,
                                ),
                            ),
                            ..flush_buffer_spec(
                                AppView { claude_busy: false, ..old(self)@ },
                                now,
                            )
                        });
                    }
                    let r = self.send_to_claude(queued.as_str(), now);
                    proof {
                        assert(self@ == finished_spec(old(self)@, now).0);
                        assert(r.deep_view() == finished_spec(old(self)@, now).1);
                    }
                    r
                } else {
                    let r: Vec<Action> = Vec::new();
                    proof {
                        assert(r.deep_view() =~= Seq::<ActionView>::empty());
                    }
                    r
                }
            },
            AppMessage::ClaudeError(err) => {
                if self.claude_busy {
                    self.claude_busy = false;
                    let mut text = String::from_str("Error: ");
                    text.append(err.as_str());
                    self.messages.push(
                        ConversationEntry {
                            role: Role::System,
                            content: ConversationContent::Text(text),
                            timestamp: now,
                        },
                    );
                }
                let r: Vec<Action> = Vec::new();
                proof {
                    assert(self@ =~~= turn_error_spec(old(self)@, err@, now));
                    assert(r.deep_view() =~= Seq::<ActionView>::empty());
                }
                r
            },
            AppMessage::BashOutput(chunk) => {
                match self.messages.pop() {
                    Some(e) => {
                        let ConversationEntry { role, content, timestamp } = e;
                        match content {
                            ConversationContent::BashCommand { command, mut output, exit_code } => {
                                output.append(chunk.as_str());
                                self.messages.push(
                                    ConversationEntry {
                                        role,
                                        content: ConversationContent::BashCommand {
                                            command,
                                            output,
                                            exit_code,
                                        },
                                        timestamp,
                                    },
                                );
                            },
                            other => {
                                self.messages.push(
                                    ConversationEntry { role, content: other, timestamp },
                                );
                            },
                        }
                    },
                    None => {},
                }
                let r: Vec<Action> = Vec::new();
                proof {
                    assert(self@ =~~= bash_output_spec(old(self)@, chunk@));
                    assert(r.deep_view() =~= Seq::<ActionView>::empty());
                }
                r
            },
            AppMessage::BashFinished(code) => {
                match self.messages.pop() {
                    Some(e) => {
                        let ConversationEntry { role, content, timestamp } = e;
                        match content {
                            ConversationContent::BashCommand { command, output, exit_code } => {
                                self.messages.push(
                                    ConversationEntry {
                                        role,
                                        content: ConversationContent::BashCommand {
                                            command,
                                            output,
                                            exit_code: Some(code),
                                        },
                                        timestamp,
                                    },
                                );
                            },
                            other => {
                                self.messages.push(
                                    ConversationEntry { role, content: other, timestamp },
                                );
                            },
                        }
                    },
                    None => {},
                }
                let r: Vec<Action> = Vec::new();
                proof {
                    assert(self@ =~~= bash_finished_spec(old(self)@, code));
                    assert(r.deep_view() =~= Seq::<ActionView>::empty());
                }
                r
            },
            AppMessage::VoiceTranscription(text) => {
                let len = self.input.as_str().unicode_len();
                let before = self.input.as_str().substring_char(0, self.cursor_position);
                let after = self.input.as_str().substring_char(self.cursor_position, len);
                let mut prefix = String::from_str(before);
                prefix.append(text.as_str());
                let cursor = prefix.as_str().unicode_len();
                prefix.append(after);
                self.input = prefix;
                self.cursor_position = cursor;
                self.status_message = Some(String::from_str("Transcription complete"));
                let r: Vec<Action> = Vec::new();
                proof {
                    assert(self@ =~~= voice_transcription_spec(old(self)@, text@));
                    assert(r.deep_view() =~= Seq::<ActionView>::empty());
                }
                r
            },
            AppMessage::VoiceError(err) => {
                self.input_mode = InputMode::Normal;
                let mut st = String::from_str("Voice error: ");
                st.append(err.as_str());
                self.status_message = Some(st);
                let r: Vec<Action> = Vec::new();
                proof {
                    assert(self@ =~~= voice_error_spec(old(self)@, err@));
                    assert(r.deep_view() =~= Seq::<ActionView>::empty());
                }
                r
            },
            AppMessage::SessionMessage { from, message } => {
                let mut text = String::from_str("[Session ");
                text.append(from.as_str());
                text.append("]: ");
                text.append(message.as_str());
                self.messages.push(
                    ConversationEntry {
                        role: Role::System,
                        content: ConversationContent::Text(text),
                        timestamp: now,
                    },
                );
                let r: Vec<Action> = Vec::new();
                proof {
                    assert(self@ =~~= session_message_spec(old(self)@, from@, message@, now));
                    assert(r.deep_view() =~= Seq::<ActionView>::empty());
                }
                r
            },
        }
    }

    /// Walk the input history: negative is up (older), positive is down.
    pub fn navigate_history(&mut self, direction: i32)
        requires
            old(self)@.wf(),
        ensures
            final(self)@ == history_nav_spec(old(self)@, direction as int),
            final(self)@.wf(),
    {
        if self.input_history.len() == 0 {
            return;
        }
        let n = self.input_history.len();
        let new_index: Option<usize> = match self.history_index {
            None => if direction < 0 {
                Some(n - 1)
            } else {
                None
            },
            Some(i) => if direction < 0 && i > 0 {
                Some(i - 1)
            } else if direction > 0 && i < n - 1 {
                Some(i + 1)
            } else if direction > 0 {
                None
            } else {
                Some(i)
            },
        };
        self.history_index = new_index;
        self.input = match new_index {
            Some(i) => self.input_history[i].clone(),
            None => String::new(),
        };
        self.cursor_position = self.input.as_str().unicode_len();
        proof {
            assert(self@ =~~= history_nav_spec(old(self)@, direction as int));
        }
    }

    /// Toggle voice recording, exactly as `toggle_voice_spec` says.
    pub fn toggle_voice_recording(&mut self) -> (r: Vec<Action>)
        ensures
            final(self)@ == toggle_voice_spec(old(self)@).0,
            r.deep_view() == toggle_voice_spec(old(self)@).1,
            old(self)@.wf() ==> final(self)@.wf(),
    {
        let mut r: Vec<Action> = Vec::new();
        match self.input_mode {
            InputMode::Normal => {
                self.input_mode = InputMode::Recording;
                self.status_message = Some(String::from_str("Recording..."));
                r.push(Action::StartRecording);
            },
            InputMode::Recording => {
                self.input_mode = InputMode::Normal;
                self.status_message = Some(String::from_str("Transcribing..."));
                r.push(Action::StopRecording);
            },
        }
        proof {
            assert(self@ =~~= toggle_voice_spec(old(self)@).0);
            assert(r.deep_view() =~~= toggle_voice_spec(old(self)@).1);
        }
        r
    }

    /// Handle a `/`-prefixed command line, exactly as `slash_spec` says.
    pub fn handle_slash_command(&mut self, input: &str, now: u64) -> (r: Vec<Action>)
        requires
            input@.len() >= 1,
            input@[0] == '/',
        ensures
            final(self)@ == slash_spec(old(self)@, input@, now).0,
            r.deep_view() == slash_spec(old(self)@, input@, now).1,
            old(self)@.wf() ==> final(self)@.wf(),
    {
        let len = input.unicode_len();
        let rest = input.substring_char(1, len);
        proof {
            assert(rest@ =~= input@.skip(1));
        }
        let (cmd, args) = strutil::split_first_space(rest);
        proof {
            let k = first_space_at(rest@, 0);
            assert(k == rest@.len() ==> args@ =~= Seq::<char>::empty());
            assert(cmd@ =~= rest@.take(k));
        }
        let mut r: Vec<Action> = Vec::new();
        if strutil::str_eq(cmd.as_str(), "quit") || strutil::str_eq(cmd.as_str(), "q") {
            self.should_quit = true;
        } else if strutil::str_eq(cmd.as_str(), "clear") {
            self.messages.clear();
            self.scroll_offset = 0;
        } else if strutil::str_eq(cmd.as_str(), "model") {
            if !args.as_str().is_empty() {
                let mut st = String::from_str("Model set to: ");
                st.append(args.as_str());
                self.status_message = Some(st);
                self.model = args;
            } else {
                let mut st = String::from_str("Current model: ");
                st.append(self.model.as_str());
                self.status_message = Some(st);
            }
        } else if strutil::str_eq(cmd.as_str(), "sessions") {
            r.push(Action::ListSessions);
        } else if strutil::str_eq(cmd.as_str(), "send") {
            let alen = args.as_str().unicode_len();
            let k2 = strutil::first_space_index(args.as_str());
            if k2 < alen {
                let target = args.as_str().substring_char(0, k2);
                let m = args.as_str().substring_char(k2 + 1, alen);
                let mut st = String::from_str("Sent to ");
                st.append(target);
                self.status_message = Some(st);
                r.push(
                    Action::SendSessionMessage {
                        target: String::from_str(target),
                        message: String::from_str(m),
                    },
                );
            } else {
                self.status_message = Some(String::from_str("Usage: /send <session-id> <message>"));
            }
        } else if strutil::str_eq(cmd.as_str(), "broadcast") {
            if !args.as_str().is_empty() {
                self.status_message = Some(String::from_str("Broadcast sent"));
                r.push(Action::Broadcast { message: args });
            } else {
                self.status_message = Some(String::from_str("Usage: /broadcast <message>"));
            }
        } else if strutil::str_eq(cmd.as_str(), "inbox") {
            r.push(Action::ReadInbox);
        } else if strutil::str_eq(cmd.as_str(), "help") {
            self.messages.push(
                ConversationEntry {
                    role: Role::System,
                    content: ConversationContent::Text(
                        String::from_str(
                            "Commands:\n  !<cmd>         Run bash command\n  /quit          Exit\n  /clear         Clear conversation\n  /model <name>  Set model\n  /sessions      List active sessions\n  /send <id> <m> Send message to session\n  /broadcast <m> Broadcast to all sessions\n  /inbox         Read incoming messages\n  *              Toggle voice recording\n  Ctrl+C         Interrupt assistant\n  Ctrl+Q         Quit",
                        ),
                    ),
                    timestamp: now,
                },
            );
        } else {
            let mut st = String::from_str("Unknown command: /");
            st.append(cmd.as_str());
            self.status_message = Some(st);
        }
        proof {
            assert(self@ =~~= slash_spec(old(self)@, input@, now).0);
            assert(r.deep_view() =~~= slash_spec(old(self)@, input@, now).1);
        }
        r
    }

    /// Submit the current input line, exactly as `submit_spec` says.
    pub fn submit_input(&mut self, now: u64) -> (r: Vec<Action>)
        requires
            old(self)@.input.len() > 0,
        ensures
            final(self)@ == submit_spec(old(self)@, now).0,
            r.deep_view() == submit_spec(old(self)@, now).1,
            old(self)@.wf() ==> final(self)@.wf(),
    {
        let mut input = String::new();
        core::mem::swap(&mut self.input, &mut input);
        self.cursor_position = 0;
        self.input_history.push(input.clone());
        self.history_index = None;
        let first = input.as_str().get_char(0);
        if first == '!' {
            let len = input.as_str().unicode_len();
            let rest = input.as_str().substring_char(1, len);
            let command = strutil::trim_str(rest);
            proof {
                assert(rest@ =~= input@.skip(1));
            }
            let r = self.execute_bash(command, now);
            proof {
                assert(self@ =~~= submit_spec(old(self)@, now).0);
                assert(r.deep_view() =~~= submit_spec(old(self)@, now).1);
            }
            r
        } else if first == '/' {
            let r = self.handle_slash_command(input.as_str(), now);
            proof {
                assert(self@ =~~= submit_spec(old(self)@, now).0);
                assert(r.deep_view() =~~= submit_spec(old(self)@, now).1);
            }
            r
        } else {
            let r = self.send_to_claude(input.as_str(), now);
            proof {
                assert(self@ =~~= submit_spec(old(self)@, now).0);
                assert(r.deep_view() =~~= submit_spec(old(self)@, now).1);
            }
            r
        }
    }

    /// Handle one keystroke in normal input mode, exactly as
    /// `normal_key_spec` says.
    pub fn handle_normal_mode_key(&mut self, key: KeyInput, now: u64) -> (r: Vec<Action>)
        requires
            old(self)@.wf(),
            old(self)@.input.len() < usize::MAX,
        ensures
            final(self)@ == normal_key_spec(old(self)@, key, now).0,
            r.deep_view() == normal_key_spec(old(self)@, key, now).1,
            final(self)@.wf(),
    {
        match key {
            KeyInput::CtrlQ => {
                self.should_quit = true;
                let r: Vec<Action> = Vec::new();
                proof {
                    assert(self@ =~~= normal_key_spec(old(self)@, key, now).0);
                    assert(r.deep_view() =~= normal_key_spec(old(self)@, key, now).1);
                }
                r
            },
            KeyInput::CtrlC => {
                let mut r: Vec<Action> = Vec::new();
                if self.claude_busy {
                    self.claude_busy = false;
                    self.streaming_buffer = String::new();
                    self.status_message = Some(String::from_str("Interrupted"));
                    r.push(Action::AbortTurn);
                } else {
                    self.input = String::new();
                    self.cursor_position = 0;
                }
                proof {
                    assert(self@ =~~= normal_key_spec(old(self)@, key, now).0);
                    assert(r.deep_view() =~~= normal_key_spec(old(self)@, key, now).1);
                }
                r
            },
            KeyInput::Enter => {
                if !self.input.as_str().is_empty() {
                    let r = self.submit_input(now);
                    proof {
                        assert(self@ =~~= normal_key_spec(old(self)@, key, now).0);
                        assert(r.deep_view() =~~= normal_key_spec(old(self)@, key, now).1);
                    }
                    r
                } else {
                    let r: Vec<Action> = Vec::new();
                    proof {
                        assert(r.deep_view() =~= normal_key_spec(old(self)@, key, now).1);
                    }
                    r
                }
            },
            KeyInput::Char { c, shift } => {
                if c == '*' && !shift {
                    let r = self.toggle_voice_recording();
                    proof {
                        assert(self@ =~~= normal_key_spec(old(self)@, key, now).0);
                        assert(r.deep_view() =~~= normal_key_spec(old(self)@, key, now).1);
                    }
                    r
                } else {
                    let len = self.input.as_str().unicode_len();
                    let before = self.input.as_str().substring_char(0, self.cursor_position);
                    let after = self.input.as_str().substring_char(self.cursor_position, len);
                    let mut newin = String::from_str(before);
                    strutil::push_char(&mut newin, c);
                    newin.append(after);
                    self.input = newin;
                    self.cursor_position += 1;
                    let r: Vec<Action> = Vec::new();
                    proof {
                        assert(self@.input =~= old(self)@.input.take(old(self)@.cursor_position)
                            .push(c) + old(self)@.input.skip(old(self)@.cursor_position));
                        assert(self@ =~~= normal_key_spec(old(self)@, key, now).0);
                        assert(r.deep_view() =~= normal_key_spec(old(self)@, key, now).1);
                    }
                    r
                }
            },
            KeyInput::Backspace => {
                if self.cursor_position > 0 {
                    let len = self.input.as_str().unicode_len();
                    let before = self.input.as_str().substring_char(0, self.cursor_position - 1);
                    let after = self.input.as_str().substring_char(self.cursor_position, len);
                    let mut newin = String::from_str(before);
                    newin.append(after);
                    self.input = newin;
                    self.cursor_position -= 1;
                }
                let r: Vec<Action> = Vec::new();
                proof {
                    assert(self@ =~~= normal_key_spec(old(self)@, key, now).0);
                    assert(r.deep_view() =~= normal_key_spec(old(self)@, key, now).1);
                }
                r
            },
            KeyInput::Delete => {
                let len = self.input.as_str().unicode_len();
                if self.cursor_position < len {
                    let before = self.input.as_str().substring_char(0, self.cursor_position);
                    let after = self.input.as_str().substring_char(self.cursor_position + 1, len);
                    let mut newin = String::from_str(before);
                    newin.append(after);
                    self.input = newin;
                }
                let r: Vec<Action> = Vec::new();
                proof {
                    assert(self@ =~~= normal_key_spec(old(self)@, key, now).0);
                    assert(r.deep_view() =~= normal_key_spec(old(self)@, key, now).1);
                }
                r
            },
            KeyInput::Left => {
                if self.cursor_position > 0 {
                    self.cursor_position -= 1;
                }
                let r: Vec<Action> = Vec::new();
                proof {
                    assert(self@ =~~= normal_key_spec(old(self)@, key, now).0);
                    assert(r.deep_view() =~= normal_key_spec(old(self)@, key, now).1);
                }
                r
            },
            KeyInput::Right => {
                let len = self.input.as_str().unicode_len();
                if self.cursor_position < len {
                    self.cursor_position += 1;
                }
                let r: Vec<Action> = Vec::new();
                proof {
                    assert(self@ =~~= normal_key_spec(old(self)@, key, now).0);
                    assert(r.deep_view() =~= normal_key_spec(old(self)@, key, now).1);
                }
                r
            },
            KeyInput::Home => {
                self.cursor_position = 0;
                let r: Vec<Action> = Vec::new();
                proof {
                    assert(self@ =~~= normal_key_spec(old(self)@, key, now).0);
                    assert(r.deep_view() =~= normal_key_spec(old(self)@, key, now).1);
                }
                r
            },
            KeyInput::End => {
                self.cursor_position = self.input.as_str().unicode_len();
                let r: Vec<Action> = Vec::new();
                proof {
                    assert(self@ =~~= normal_key_spec(old(self)@, key, now).0);
                    assert(r.deep_view() =~= normal_key_spec(old(self)@, key, now).1);
                }
                r
            },
            KeyInput::Up => {
                self.navigate_history(-1);
                let r: Vec<Action> = Vec::new();
                proof {
                    assert(self@ =~~= normal_key_spec(old(self)@, key, now).0);
                    assert(r.deep_view() =~= normal_key_spec(old(self)@, key, now).1);
                }
                r
            },
            KeyInput::Down => {
                self.navigate_history(1);
                let r: Vec<Action> = Vec::new();
                proof {
                    assert(self@ =~~= normal_key_spec(old(self)@, key, now).0);
                    assert(r.deep_view() =~= normal_key_spec(old(self)@, key, now).1);
                }
                r
            },
            KeyInput::PageUp => {
                self.scroll_offset = if self.scroll_offset > usize::MAX - 10 {
                    usize::MAX
                } else {
                    self.scroll_offset + 10
                };
                let r: Vec<Action> = Vec::new();
                proof {
                    assert(self@ =~~= normal_key_spec(old(self)@, key, now).0);
                    assert(r.deep_view() =~= normal_key_spec(old(self)@, key, now).1);
                }
                r
            },
            KeyInput::PageDown => {
                self.scroll_offset = if self.scroll_offset >= 10 {
                    self.scroll_offset - 10
                } else {
                    0
                };
                let r: Vec<Action> = Vec::new();
                proof {
                    assert(self@ =~~= normal_key_spec(old(self)@, key, now).0);
                    assert(r.deep_view() =~= normal_key_spec(old(self)@, key, now).1);
                }
                r
            },
            KeyInput::Esc => {
                let r: Vec<Action> = Vec::new();
                proof {
                    assert(r.deep_view() =~= normal_key_spec(old(self)@, key, now).1);
                }
                r
            },
            KeyInput::Other => {
                let r: Vec<Action> = Vec::new();
                proof {
                    assert(r.deep_view() =~= normal_key_spec(old(self)@, key, now).1);
                }
                r
            },
        }
    }

    /// Handle one keystroke while recording, exactly as
    /// `recording_key_spec` says.
    pub fn handle_recording_mode_key(&mut self, key: KeyInput) -> (r: Vec<Action>)
        ensures
            final(self)@ == recording_key_spec(old(self)@, key).0,
            r.deep_view() == recording_key_spec(old(self)@, key).1,
            old(self)@.wf() ==> final(self)@.wf(),
    {
        match key {
            KeyInput::Char { c, shift } => {
                if c == '*' {
                    let r = self.toggle_voice_recording();
                    proof {
                        assert(self@ =~~= recording_key_spec(old(self)@, key).0);
                        assert(r.deep_view() =~~= recording_key_spec(old(self)@, key).1);
                    }
                    r
                } else {
                    let r: Vec<Action> = Vec::new();
                    proof {
                        assert(r.deep_view() =~= recording_key_spec(old(self)@, key).1);
                    }
                    r
                }
            },
            KeyInput::Esc => {
                self.input_mode = InputMode::Normal;
                self.status_message = Some(String::from_str("Recording cancelled"));
                let mut r: Vec<Action> = Vec::new();
                r.push(Action::CancelRecording);
                proof {
                    assert(self@ =~~= recording_key_spec(old(self)@, key).0);
                    assert(r.deep_view() =~~= recording_key_spec(old(self)@, key).1);
                }
                r
            },
            _ => {
                let r: Vec<Action> = Vec::new();
                proof {
                    assert(r.deep_view() =~= recording_key_spec(old(self)@, key).1);
                }
                r
            },
        }
    }

    /// Handle one keystroke, dispatched by input mode, exactly as
    /// `key_spec` says.
    pub fn handle_key_event(&mut self, key: KeyInput, now: u64) -> (r: Vec<Action>)
        requires
            old(self)@.wf(),
            old(self)@.input.len() < usize::MAX,
        ensures
            final(self)@ == key_spec(old(self)@, key, now).0,
            r.deep_view() == key_spec(old(self)@, key, now).1,
            final(self)@.wf(),
    {
        match self.input_mode {
            InputMode::Normal => self.handle_normal_mode_key(key, now),
            InputMode::Recording => self.handle_recording_mode_key(key),
        }
    }

    /// Record a session listing as one system entry, exactly as
    /// `report_sessions_spec` says.
    pub fn report_sessions(&mut self, sessions: &Vec<SessionInfo>, now: u64)
        ensures
            final(self)@ == report_sessions_spec(old(self)@, sessions.deep_view(), now),
            old(self)@.wf() ==> final(self)@.wf(),
    {
        let ghost ss = sessions.deep_view();
        let mut text = String::from_str("Active sessions:\n");
        if sessions.len() == 0 {
            text.append("No other active sessions");
        } else {
            let mut lines: Vec<String> = Vec::new();
            let mut i: usize = 0;
            while i < sessions.len()
                invariant
                    0 <= i <= sessions@.len(),
                    ss == sessions.deep_view(),
                    ss.len() == sessions@.len(),
                    lines.deep_view() == ss.take(i as int).map_values(
                        |s: crate::sessions::SessionInfoView| session_line(s),
                    ),
                decreases sessions@.len() - i,
            {
                let s = &sessions[i];
                let mut line = String::from_str("  ");
                line.append(s.id.as_str());
                line.append(" (");
                line.append(s.cwd.as_str());
                line.append(") - ");
                line.append(s.task.as_str());
                proof {
                    assert(line@ =~= session_line(ss[i as int]));
                }
                lines.push(line);
                proof {
                    assert(ss.take(i as int + 1) =~= ss.take(i as int).push(ss[i as int]));
                    assert(lines.deep_view() =~= ss.take(i as int).map_values(
                        |s: crate::sessions::SessionInfoView| session_line(s),
                    ).push(session_line(ss[i as int])));
                    assert(ss.take(i as int).push(ss[i as int]).map_values(
                        |s: crate::sessions::SessionInfoView| session_line(s),
                    ) =~= ss.take(i as int).map_values(
                        |s: crate::sessions::SessionInfoView| session_line(s),
                    ).push(session_line(ss[i as int])));
                }
                i += 1;
            }
            proof {
                assert(ss.take(ss.len() as int) =~= ss);
            }
            let joined = join_strings(&lines, "\n");
            text.append(joined.as_str());
        }
        proof {
            assert(text@ =~= sessions_entry_text(ss));
        }
        self.messages.push(
            ConversationEntry {
                role: Role::System,
                content: ConversationContent::Text(text),
                timestamp: now,
            },
        );
        proof {
            assert(self@ =~~= report_sessions_spec(old(self)@, ss, now));
        }
    }

    /// Record a drained inbox, one system entry per message, exactly as
    /// `report_inbox_spec` says.
    pub fn report_inbox(&mut self, messages: &Vec<SessionMessage>, now: u64)
        ensures
            final(self)@ == report_inbox_spec(old(self)@, messages.deep_view(), now),
            old(self)@.wf() ==> final(self)@.wf(),
    {
        let ghost ms = messages.deep_view();
        if messages.len() == 0 {
            self.status_message = Some(String::from_str("No messages"));
            proof {
                assert(self@ =~~= report_inbox_spec(old(self)@, ms, now));
            }
            return;
        }
        let mut i: usize = 0;
        while i < messages.len()
            invariant
                0 <= i <= messages@.len(),
                ms == messages.deep_view(),
                ms.len() == messages@.len(),
                self@ == (AppView {
                    messages: old(self)@.messages + ms.take(i as int).map_values(
                        |m: crate::sessions::SessionMessageView| entry(
                            Role::System,
                            ConversationContentView::Text(inbox_line(m)),
                            now,
                        ),
                    ),
                    ..old(self)@
                }),
            decreases messages@.len() - i,
        {
            let m = &messages[i];
            let mut line = String::from_str("[");
            line.append(m.time.as_str());
            line.append("] ");
            line.append(m.from.as_str());
            line.append(": ");
            line.append(m.message.as_str());
            proof {
                assert(line@ =~= inbox_line(ms[i as int]));
            }
            self.messages.push(
                ConversationEntry {
                    role: Role::System,
                    content: ConversationContent::Text(line),
                    timestamp: now,
                },
            );
            proof {
                let f = |m: crate::sessions::SessionMessageView| entry(
                    Role::System,
                    ConversationContentView::Text(inbox_line(m)),
                    now,
                );
                assert(ms.take(i as int + 1) =~= ms.take(i as int).push(ms[i as int]));
                assert(ms.take(i as int).push(ms[i as int]).map_values(f) =~= ms.take(
                    i as int,
                ).map_values(f).push(f(ms[i as int])));
                assert(old(self)@.messages + ms.take(i as int + 1).map_values(f) =~= (old(
                    self,
                )@.messages + ms.take(i as int).map_values(f)).push(f(ms[i as int])));
                assert(self@ =~~= AppView {
                    messages: old(self)@.messages + ms.take(i as int + 1).map_values(f),
                    ..old(self)@
                });
            }
            i += 1;
        }
        proof {
            assert(ms.take(ms.len() as int) =~= ms);
            assert(self@ =~~= report_inbox_spec(old(self)@, ms, now));
        }
    }
}

/// Law: when an active turn finishes, the busy flag clears and a non-empty
/// streaming buffer becomes exactly one assistant text entry; then, from
/// any pending queue, exactly one message — the first submitted — is
/// released as the next turn, and the others keep their order behind it.
pub proof fn lemma_turn_finished_release(a: AppView, now: u64)
    requires
        a.claude_busy,
    ensures
        ({
            let flushed = flush_buffer_spec(AppView { claude_busy: false, ..a }, now);
            let (a2, acts) = finished_spec(a, now);
            &&& (a.message_queue.len() == 0 ==> !a2.claude_busy && a2 == flushed && acts == Seq::<
                ActionView,
            >::empty())
            &&& (a.message_queue.len() > 0 ==> ({
                let released = a.message_queue[0];
                let ms1 = flushed.messages.push(
                    entry(Role::User, ConversationContentView::Text(released), now),
                );
                &&& a2.claude_busy
                &&& a2.message_queue == a.message_queue.drop_first()
                &&& a2.messages == ms1
                &&& acts == seq![
                    ActionView::StartTurn {
                        message: outgoing_message(ms1, released),
                        model: a.model,
                        continue_session: a.continue_session,
                        resume_session: a.resume_session,
                    },
                ]
            }))
        }),
{
    let flushed = flush_buffer_spec(AppView { claude_busy: false, ..a }, now);
    if a.message_queue.len() > 0 {
        let released = a.message_queue[0];
        let a2r = AppView {
            message_queue: flushed.message_queue.drop_first(),
            status_message: Some(more_queued_status(flushed.message_queue.len() - 1)),
            ..flushed
        };
        assert(finished_spec(a, now) == send_spec(a2r, released, now));
        let (a2, acts) = send_spec(a2r, released, now);
        let ms1 = flushed.messages.push(
            entry(Role::User, ConversationContentView::Text(released), now),
        );
        assert(a2.messages =~= ms1);
        assert(acts =~~= seq![
            ActionView::StartTurn {
                message: outgoing_message(ms1, released),
                model: a.model,
                continue_session: a.continue_session,
                resume_session: a.resume_session,
            },
        ]);
    }
}

/// Law: while a turn is active, submissions only queue — no transcript
/// entry is appended and nothing is sent — and on completion exactly one
/// queued message is released, first submitted first: with M1 then M2
/// queued, M1 starts the next turn and M2 stays queued.
pub proof fn lemma_busy_queue_fifo(
    a: AppView,
    m1: Seq<char>,
    m2: Seq<char>,
    t1: u64,
    t2: u64,
    t3: u64,
)
    requires
        a.claude_busy,
        a.message_queue.len() == 0,
        a.streaming_buffer.len() == 0,
    ensures
        ({
            let (a1, acts1) = send_spec(a, m1, t1);
            let (a2, acts2) = send_spec(a1, m2, t2);
            let (a3, acts3) = finished_spec(a2, t3);
            &&& acts1 == Seq::<ActionView>::empty()
            &&& acts2 == Seq::<ActionView>::empty()
            &&& a1.messages == a.messages
            &&& a2.messages == a.messages
            &&& a2.message_queue == seq![m1, m2]
            &&& a2.claude_busy
            &&& a3.claude_busy
            &&& a3.message_queue == seq![m2]
            &&& a3.messages == a.messages.push(
                entry(Role::User, ConversationContentView::Text(m1), t3),
            )
            &&& acts3 == seq![
                ActionView::StartTurn {
                    message: outgoing_message(
                        a.messages.push(entry(Role::User, ConversationContentView::Text(m1), t3)),
                        m1,
                    ),
                    model: a.model,
                    continue_session: a.continue_session,
                    resume_session: a.resume_session,
                },
            ]
        }),
{
    let (a1, acts1) = send_spec(a, m1, t1);
    let (a2, acts2) = send_spec(a1, m2, t2);
    assert(a2.message_queue =~= seq![m1, m2]);
    let ab = AppView { claude_busy: false, ..a2 };
    assert(flush_buffer_spec(ab, t3) == ab);
    assert(ab.message_queue[0] == m1);
    assert(ab.message_queue.drop_first() =~= seq![m2]);
    let a2r = AppView {
        message_queue: ab.message_queue.drop_first(),
        status_message: Some(more_queued_status(ab.message_queue.len() - 1)),
        ..ab
    };
    assert(finished_spec(a2, t3) == send_spec(a2r, m1, t3));
    let (a3, acts3) = send_spec(a2r, m1, t3);
    assert(a3.message_queue =~= seq![m2]);
    assert(a3.messages =~= a.messages.push(
        entry(Role::User, ConversationContentView::Text(m1), t3),
    ));
    assert(acts3 =~~= seq![
        ActionView::StartTurn {
            message: outgoing_message(
                a.messages.push(entry(Role::User, ConversationContentView::Text(m1), t3)),
                m1,
            ),
            model: a.model,
            continue_session: a.continue_session,
            resume_session: a.resume_session,
        },
    ]);
}

/// Law: aborting an active turn clears the busy flag immediately and
/// discards the un-finalized streaming buffer: no assistant entry ever
/// appears for the partial output, even when the killed process's stale
/// completion event arrives afterwards.
pub proof fn lemma_abort_discards_buffer(a: AppView, t: u64)
    requires
        a.claude_busy,
    ensures
        ({
            let (a1, acts1) = interrupt_spec(a);
            let (a2, acts2) = finished_spec(a1, t);
            &&& !a1.claude_busy
            &&& a1.streaming_buffer.len() == 0
            &&& a1.messages == a.messages
            &&& a1.message_queue == a.message_queue
            &&& acts1 == seq![ActionView::AbortTurn]
            &&& a2 == a1
            &&& acts2 == Seq::<ActionView>::empty()
        }),
{
}

/// Law: a shell command produces a single transcript entry for its whole
/// life: created provisionally with empty output and no exit code, filled
/// in place by an output chunk, and completed in place by the exit code —
/// never a second entry, and the entries before it are untouched.
pub proof fn lemma_shell_entry_single(
    a: AppView,
    cmd: Seq<char>,
    chunk: Seq<char>,
    code: i32,
    t: u64,
)
    ensures
        ({
            let (a1, acts1) = execute_bash_spec(a, cmd, t);
            let a2 = bash_output_spec(a1, chunk);
            let a3 = bash_finished_spec(a2, code);
            &&& acts1 == seq![ActionView::RunShell { command: cmd }]
            &&& a1.messages.len() == a.messages.len() + 1
            &&& a1.messages.last() == entry(
                Role::Bash,
                ConversationContentView::BashCommand {
                    command: cmd,
                    output: Seq::<char>::empty(),
                    exit_code: None,
                },
                t,
            )
            &&& a2.messages.len() == a.messages.len() + 1
            &&& a2.messages.last() == entry(
                Role::Bash,
                ConversationContentView::BashCommand {
                    command: cmd,
                    output: chunk,
                    exit_code: None,
                },
                t,
            )
            &&& a3.messages.len() == a.messages.len() + 1
            &&& a3.messages.last() == entry(
                Role::Bash,
                ConversationContentView::BashCommand {
                    command: cmd,
                    output: chunk,
                    exit_code: Some(code),
                },
                t,
            )
            &&& a3.messages.take(a.messages.len() as int) == a.messages
        }),
{
    let (a1, acts1) = execute_bash_spec(a, cmd, t);
    let a2 = bash_output_spec(a1, chunk);
    let a3 = bash_finished_spec(a2, code);
    assert(Seq::<char>::empty() + chunk =~= chunk);
    assert(a2.messages.last() =~~= entry(
        Role::Bash,
        ConversationContentView::BashCommand { command: cmd, output: chunk, exit_code: None },
        t,
    ));
    assert(a3.messages.take(a.messages.len() as int) =~= a.messages);
}

} // verus!
