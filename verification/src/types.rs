//! Records of the assistant subprocess's line-delimited event protocol, and
//! the semantic events the decoder emits from them.
//!
//! Each executable type has a spec-level mirror (`...View`) over `Seq<char>`
//! so that the decoder's transition function can be stated mathematically.

use vstd::prelude::*;

verus! {

/// Token usage counters carried by a protocol record.
#[derive(Debug, Clone, Copy, PartialEq, Eq, Structural)]
pub struct Usage {
    pub input_tokens: u64,
    pub output_tokens: u64,
    pub cache_read_input_tokens: u64,
    pub cache_creation_input_tokens: u64,
}

/// Semantic events emitted by the stream decoder.
#[derive(Debug, Clone)]
pub enum StreamEvent {
    /// Text content (delta or full).
    Text(String),
    /// A complete tool invocation.
    ToolUse { name: String, input: String },
    /// A tool result.
    ToolResult { name: String, result: String },
    /// Reasoning text.
    Thinking(String),
    /// Token usage update.
    Usage {
        input_tokens: u64,
        output_tokens: u64,
        cache_read_tokens: u64,
        cache_write_tokens: u64,
    },
}

/// Spec-level mirror of `StreamEvent`.
#[verifier::ext_equal]
pub enum StreamEventView {
    Text(Seq<char>),
    ToolUse { name: Seq<char>, input: Seq<char> },
    ToolResult { name: Seq<char>, result: Seq<char> },
    Thinking(Seq<char>),
    Usage {
        input_tokens: u64,
        output_tokens: u64,
        cache_read_tokens: u64,
        cache_write_tokens: u64,
    },
}

impl View for StreamEvent {
    type V = StreamEventView;

    open spec fn view(&self) -> StreamEventView {
        match self {
            StreamEvent::Text(t) => StreamEventView::Text(t@),
            StreamEvent::ToolUse { name, input } => StreamEventView::ToolUse {
                name: name@,
                input: input@,
            },
            StreamEvent::ToolResult { name, result } => StreamEventView::ToolResult {
                name: name@,
                result: result@,
            },
            StreamEvent::Thinking(t) => StreamEventView::Thinking(t@),
            StreamEvent::Usage { input_tokens, output_tokens, cache_read_tokens, cache_write_tokens } => StreamEventView::Usage {
                input_tokens: *input_tokens,
                output_tokens: *output_tokens,
                cache_read_tokens: *cache_read_tokens,
                cache_write_tokens: *cache_write_tokens,
            },
        }
    }
}

impl DeepView for StreamEvent {
    type V = StreamEventView;

    open spec fn deep_view(&self) -> StreamEventView {
        self.view()
    }
}

/// One content block of a protocol record. The serialized tool input is kept
/// as text; an empty input at block start means the input will instead arrive
/// through partial-fragment deltas.
#[derive(Debug, Clone)]
pub enum ContentBlock {
    Text { text: String },
    ToolUse { id: String, name: String, input: String },
    ToolResult { tool_use_id: String, content: String },
    Thinking { thinking: String },
    Unknown,
}

/// Spec-level mirror of `ContentBlock`.
#[verifier::ext_equal]
pub enum ContentBlockView {
    Text { text: Seq<char> },
    ToolUse { id: Seq<char>, name: Seq<char>, input: Seq<char> },
    ToolResult { tool_use_id: Seq<char>, content: Seq<char> },
    Thinking { thinking: Seq<char> },
    Unknown,
}

impl View for ContentBlock {
    type V = ContentBlockView;

    open spec fn view(&self) -> ContentBlockView {
        match self {
            ContentBlock::Text { text } => ContentBlockView::Text { text: text@ },
            ContentBlock::ToolUse { id, name, input } => ContentBlockView::ToolUse {
                id: id@,
                name: name@,
                input: input@,
            },
            ContentBlock::ToolResult { tool_use_id, content } => ContentBlockView::ToolResult {
                tool_use_id: tool_use_id@,
                content: content@,
            },
            ContentBlock::Thinking { thinking } => ContentBlockView::Thinking { thinking: thinking@ },
            ContentBlock::Unknown => ContentBlockView::Unknown,
        }
    }
}

impl DeepView for ContentBlock {
    type V = ContentBlockView;

    open spec fn deep_view(&self) -> ContentBlockView {
        self.view()
    }
}

/// A message envelope embedded in a protocol record.
#[derive(Debug, Clone)]
pub struct ClaudeMessage {
    pub id: Option<String>,
    pub role: Option<String>,
    pub content: Option<Vec<ContentBlock>>,
    pub model: Option<String>,
    pub stop_reason: Option<String>,
    pub usage: Option<Usage>,
}

/// Spec-level mirror of `ClaudeMessage`.
#[verifier::ext_equal]
pub struct ClaudeMessageView {
    pub id: Option<Seq<char>>,
    pub role: Option<Seq<char>>,
    pub content: Option<Seq<ContentBlockView>>,
    pub model: Option<Seq<char>>,
    pub stop_reason: Option<Seq<char>>,
    pub usage: Option<Usage>,
}

impl View for ClaudeMessage {
    type V = ClaudeMessageView;

    open spec fn view(&self) -> ClaudeMessageView {
        ClaudeMessageView {
            id: self.id.deep_view(),
            role: self.role.deep_view(),
            content: self.content.deep_view(),
            model: self.model.deep_view(),
            stop_reason: self.stop_reason.deep_view(),
            usage: self.usage,
        }
    }
}

impl DeepView for ClaudeMessage {
    type V = ClaudeMessageView;

    open spec fn deep_view(&self) -> ClaudeMessageView {
        self.view()
    }
}

/// A delta for one content block.
#[derive(Debug, Clone)]
pub enum ContentDelta {
    TextDelta { text: String },
    InputJsonDelta { partial_json: String },
    ThinkingDelta { thinking: String },
    Unknown,
}

/// Spec-level mirror of `ContentDelta`.
#[verifier::ext_equal]
pub enum ContentDeltaView {
    TextDelta { text: Seq<char> },
    InputJsonDelta { partial_json: Seq<char> },
    ThinkingDelta { thinking: Seq<char> },
    Unknown,
}

impl View for ContentDelta {
    type V = ContentDeltaView;

    open spec fn view(&self) -> ContentDeltaView {
        match self {
            ContentDelta::TextDelta { text } => ContentDeltaView::TextDelta { text: text@ },
            ContentDelta::InputJsonDelta { partial_json } => ContentDeltaView::InputJsonDelta {
                partial_json: partial_json@,
            },
            ContentDelta::ThinkingDelta { thinking } => ContentDeltaView::ThinkingDelta {
                thinking: thinking@,
            },
            ContentDelta::Unknown => ContentDeltaView::Unknown,
        }
    }
}

impl DeepView for ContentDelta {
    type V = ContentDeltaView;

    open spec fn deep_view(&self) -> ContentDeltaView {
        self.view()
    }
}

/// A message-level delta.
#[derive(Debug, Clone)]
pub struct MessageDeltaData {
    pub stop_reason: Option<String>,
    pub stop_sequence: Option<String>,
}

/// Spec-level mirror of `MessageDeltaData`.
#[verifier::ext_equal]
pub struct MessageDeltaDataView {
    pub stop_reason: Option<Seq<char>>,
    pub stop_sequence: Option<Seq<char>>,
}

impl View for MessageDeltaData {
    type V = MessageDeltaDataView;

    open spec fn view(&self) -> MessageDeltaDataView {
        MessageDeltaDataView {
            stop_reason: self.stop_reason.deep_view(),
            stop_sequence: self.stop_sequence.deep_view(),
        }
    }
}

impl DeepView for MessageDeltaData {
    type V = MessageDeltaDataView;

    open spec fn deep_view(&self) -> MessageDeltaDataView {
        self.view()
    }
}

/// A root-level protocol record, tag-dispatched from one line of output.
/// Unrecognized tags and lines that are not well-formed records map to
/// `Unknown`, which decodes to zero events.
#[derive(Debug, Clone)]
pub enum RawStreamEvent {
    System { subtype: Option<String> },
    Assistant { message: ClaudeMessage },
    User { message: ClaudeMessage },
    ContentBlockStart { index: u64, content_block: ContentBlock },
    ContentBlockDelta { index: u64, delta: ContentDelta },
    ContentBlockStop { index: u64 },
    MessageStart { message: ClaudeMessage },
    MessageDelta { delta: MessageDeltaData, usage: Option<Usage> },
    MessageStop,
    TurnResult { subtype: Option<String>, result: Option<String>, is_error: Option<bool> },
    Unknown,
}

/// Spec-level mirror of `RawStreamEvent`.
#[verifier::ext_equal]
pub enum RawStreamEventView {
    System { subtype: Option<Seq<char>> },
    Assistant { message: ClaudeMessageView },
    User { message: ClaudeMessageView },
    ContentBlockStart { index: u64, content_block: ContentBlockView },
    ContentBlockDelta { index: u64, delta: ContentDeltaView },
    ContentBlockStop { index: u64 },
    MessageStart { message: ClaudeMessageView },
    MessageDelta { delta: MessageDeltaDataView, usage: Option<Usage> },
    MessageStop,
    TurnResult { subtype: Option<Seq<char>>, result: Option<Seq<char>>, is_error: Option<bool> },
    Unknown,
}

impl View for RawStreamEvent {
    type V = RawStreamEventView;

    open spec fn view(&self) -> RawStreamEventView {
        match self {
            RawStreamEvent::System { subtype } => RawStreamEventView::System {
                subtype: subtype.deep_view(),
            },
            RawStreamEvent::Assistant { message } => RawStreamEventView::Assistant {
                message: message@,
            },
            RawStreamEvent::User { message } => RawStreamEventView::User { message: message@ },
            RawStreamEvent::ContentBlockStart { index, content_block } => RawStreamEventView::ContentBlockStart {
                index: *index,
                content_block: content_block@,
            },
            RawStreamEvent::ContentBlockDelta { index, delta } => RawStreamEventView::ContentBlockDelta {
                index: *index,
                delta: delta@,
            },
            RawStreamEvent::ContentBlockStop { index } => RawStreamEventView::ContentBlockStop {
                index: *index,
            },
            RawStreamEvent::MessageStart { message } => RawStreamEventView::MessageStart {
                message: message@,
            },
            RawStreamEvent::MessageDelta { delta, usage } => RawStreamEventView::MessageDelta {
                delta: delta@,
                usage: *usage,
            },
            RawStreamEvent::MessageStop => RawStreamEventView::MessageStop,
            RawStreamEvent::TurnResult { subtype, result, is_error } => RawStreamEventView::TurnResult {
                subtype: subtype.deep_view(),
                result: result.deep_view(),
                is_error: *is_error,
            },
            RawStreamEvent::Unknown => RawStreamEventView::Unknown,
        }
    }
}

impl DeepView for RawStreamEvent {
    type V = RawStreamEventView;

    open spec fn deep_view(&self) -> RawStreamEventView {
        self.view()
    }
}

} // verus!
