//! The stream decoder: turns one line of the subprocess's event protocol
//! into zero or more semantic events, accumulating streamed tool input
//! across lines until the block-closing signal arrives.
//!
//! The decoder's behaviour is pinned by the spec-level transition function
//! `event_step`; `decode_seq` folds it over a run of records, and the proof
//! functions at the end state the streaming laws of the protocol.

use vstd::prelude::*;

use crate::json;
use crate::strutil;
use crate::types::{
    ClaudeMessageView, ContentBlock, ContentBlockView, ContentDelta, ContentDeltaView,
    RawStreamEvent, RawStreamEventView, StreamEvent, StreamEventView, Usage,
};

verus! {

/// The decoder's accumulator: at most one in-flight tool name, plus the
/// partial serialized input gathered for it so far.
#[verifier::ext_equal]
pub struct ParserView {
    pub tool_name: Option<Seq<char>>,
    pub tool_input: Seq<char>,
}

impl ParserView {
    /// The accumulator at rest: no tool in flight, nothing gathered.
    pub open spec fn idle() -> ParserView {
        ParserView { tool_name: None, tool_input: Seq::<char>::empty() }
    }
}

/// Parser state for accumulating tool use inputs.
#[derive(Debug)]
pub struct StreamParser {
    current_tool_name: Option<String>,
    current_tool_input: String,
}

impl View for StreamParser {
    type V = ParserView;

    closed spec fn view(&self) -> ParserView {
        ParserView {
            tool_name: self.current_tool_name.deep_view(),
            tool_input: self.current_tool_input@,
        }
    }
}

/// The usage event a record's counters decode to.
pub open spec fn usage_event(u: Usage) -> StreamEventView {
    StreamEventView::Usage {
        input_tokens: u.input_tokens,
        output_tokens: u.output_tokens,
        cache_read_tokens: u.cache_read_input_tokens,
        cache_write_tokens: u.cache_creation_input_tokens,
    }
}

/// What one content block does to the accumulator, and the events it emits.
/// A tool invocation whose input is present emits immediately; one with an
/// empty input arms the accumulator instead.
pub open spec fn block_step(p: ParserView, b: ContentBlockView) -> (ParserView, Seq<
    StreamEventView,
>) {
    match b {
        ContentBlockView::Text { text } => (p, seq![StreamEventView::Text(text)]),
        ContentBlockView::ToolUse { id, name, input } => {
            if input.len() > 0 {
                (ParserView::idle(), seq![StreamEventView::ToolUse { name, input }])
            } else {
                (
                    ParserView { tool_name: Some(name), tool_input: Seq::<char>::empty() },
                    Seq::<StreamEventView>::empty(),
                )
            }
        },
        ContentBlockView::ToolResult { tool_use_id, content } => (
            p,
            seq![StreamEventView::ToolResult { name: "tool"@, result: content }],
        ),
        ContentBlockView::Thinking { thinking } => (
            p,
            seq![StreamEventView::Thinking(thinking)],
        ),
        ContentBlockView::Unknown => (p, Seq::<StreamEventView>::empty()),
    }
}

/// `block_step` folded over a run of content blocks.
pub open spec fn blocks_step(p: ParserView, bs: Seq<ContentBlockView>) -> (ParserView, Seq<
    StreamEventView,
>)
    decreases bs.len(),
{
    if bs.len() == 0 {
        (p, Seq::<StreamEventView>::empty())
    } else {
        let (p1, e1) = block_step(p, bs[0]);
        let (p2, e2) = blocks_step(p1, bs.drop_first());
        (p2, e1 + e2)
    }
}

/// What a message envelope decodes to: its content blocks in order, then a
/// usage event if the envelope carries counters.
pub open spec fn message_step(p: ParserView, m: ClaudeMessageView) -> (ParserView, Seq<
    StreamEventView,
>) {
    let (p1, evs) = match m.content {
        Some(bs) => blocks_step(p, bs),
        None => (p, Seq::<StreamEventView>::empty()),
    };
    match m.usage {
        Some(u) => (p1, evs.push(usage_event(u))),
        None => (p1, evs),
    }
}

/// What one protocol record does to the accumulator, and the events it
/// emits: the decoder's transition function.
pub open spec fn event_step(p: ParserView, e: RawStreamEventView) -> (ParserView, Seq<
    StreamEventView,
>) {
    match e {
        RawStreamEventView::Assistant { message } => message_step(p, message),
        RawStreamEventView::MessageStart { message } => message_step(p, message),
        RawStreamEventView::ContentBlockStart { index, content_block } => block_step(
            p,
            content_block,
        ),
        RawStreamEventView::ContentBlockDelta { index, delta } => match delta {
            ContentDeltaView::TextDelta { text } => (p, seq![StreamEventView::Text(text)]),
            ContentDeltaView::InputJsonDelta { partial_json } => (
                ParserView { tool_name: p.tool_name, tool_input: p.tool_input + partial_json },
                Seq::<StreamEventView>::empty(),
            ),
            ContentDeltaView::ThinkingDelta { thinking } => (
                p,
                seq![StreamEventView::Thinking(thinking)],
            ),
            ContentDeltaView::Unknown => (p, Seq::<StreamEventView>::empty()),
        },
        RawStreamEventView::ContentBlockStop { index } => match p.tool_name {
            Some(name) => (
                ParserView::idle(),
                seq![StreamEventView::ToolUse { name, input: p.tool_input }],
            ),
            None => (p, Seq::<StreamEventView>::empty()),
        },
        RawStreamEventView::MessageDelta { delta, usage } => match usage {
            Some(u) => (p, seq![usage_event(u)]),
            None => (p, Seq::<StreamEventView>::empty()),
        },
        RawStreamEventView::TurnResult { subtype, result, is_error } => {
            if subtype == Some("tool_result"@) {
                match result {
                    Some(s) => (
                        p,
                        seq![StreamEventView::ToolResult { name: "tool"@, result: s }],
                    ),
                    None => (p, Seq::<StreamEventView>::empty()),
                }
            } else {
                (p, Seq::<StreamEventView>::empty())
            }
        },
        RawStreamEventView::System { subtype } => (p, Seq::<StreamEventView>::empty()),
        RawStreamEventView::User { message } => (p, Seq::<StreamEventView>::empty()),
        RawStreamEventView::MessageStop => (p, Seq::<StreamEventView>::empty()),
        RawStreamEventView::Unknown => (p, Seq::<StreamEventView>::empty()),
    }
}

/// `event_step` folded over a run of records.
pub open spec fn decode_seq(p: ParserView, rs: Seq<RawStreamEventView>) -> (ParserView, Seq<
    StreamEventView,
>)
    decreases rs.len(),
{
    if rs.len() == 0 {
        (p, Seq::<StreamEventView>::empty())
    } else {
        let (p1, e1) = event_step(p, rs[0]);
        let (p2, e2) = decode_seq(p1, rs.drop_first());
        (p2, e1 + e2)
    }
}

/// The concatenation, in order, of the payloads of the Text events in `evs`;
/// events of any other kind contribute nothing.
pub open spec fn text_of(evs: Seq<StreamEventView>) -> Seq<char>
    decreases evs.len(),
{
    if evs.len() == 0 {
        Seq::<char>::empty()
    } else {
        (match evs[0] {
            StreamEventView::Text(t) => t,
            _ => Seq::<char>::empty(),
        }) + text_of(evs.drop_first())
    }
}

/// The record carrying one text fragment of a streamed content block.
pub open spec fn text_delta_rec(index: u64, text: Seq<char>) -> RawStreamEventView {
    RawStreamEventView::ContentBlockDelta {
        index,
        delta: ContentDeltaView::TextDelta { text },
    }
}

/// The record opening a streamed tool invocation; an empty input arms the
/// accumulator.
pub open spec fn tool_start_rec(
    index: u64,
    id: Seq<char>,
    name: Seq<char>,
    input: Seq<char>,
) -> RawStreamEventView {
    RawStreamEventView::ContentBlockStart {
        index,
        content_block: ContentBlockView::ToolUse { id, name, input },
    }
}

/// The record carrying one fragment of a streamed tool input.
pub open spec fn tool_frag_rec(index: u64, partial_json: Seq<char>) -> RawStreamEventView {
    RawStreamEventView::ContentBlockDelta {
        index,
        delta: ContentDeltaView::InputJsonDelta { partial_json },
    }
}

/// The record closing a content block.
pub open spec fn block_stop_rec(index: u64) -> RawStreamEventView {
    RawStreamEventView::ContentBlockStop { index }
}

/// Decoding a concatenation of record runs is decoding one run after the
/// other.
pub proof fn lemma_decode_seq_append(p: ParserView, rs1: Seq<RawStreamEventView>, rs2: Seq<
    RawStreamEventView,
>)
    ensures
        decode_seq(p, rs1 + rs2).0 == decode_seq(decode_seq(p, rs1).0, rs2).0,
        decode_seq(p, rs1 + rs2).1 == decode_seq(p, rs1).1 + decode_seq(
            decode_seq(p, rs1).0,
            rs2,
        ).1,
    decreases rs1.len(),
{
    if rs1.len() == 0 {
        assert(rs1 + rs2 =~= rs2);
        assert(decode_seq(p, rs1).1 + decode_seq(decode_seq(p, rs1).0, rs2).1 =~= decode_seq(
            p,
            rs2,
        ).1);
    } else {
        let (p1, e1) = event_step(p, rs1[0]);
        assert((rs1 + rs2)[0] == rs1[0]);
        assert((rs1 + rs2).drop_first() =~= rs1.drop_first() + rs2);
        lemma_decode_seq_append(p1, rs1.drop_first(), rs2);
        assert(decode_seq(p, rs1 + rs2).1 =~= decode_seq(p, rs1).1 + decode_seq(
            decode_seq(p, rs1).0,
            rs2,
        ).1);
    }
}

/// Law: a well-formed run of text deltas decodes to one Text event per
/// fragment, leaves the accumulator untouched, and the concatenation of the
/// emitted payloads equals the concatenation of the fragments — the same
/// text that a single full-text block decodes to.
pub proof fn lemma_text_deltas_concat(p: ParserView, index: u64, ts: Seq<Seq<char>>)
    ensures
        decode_seq(p, ts.map_values(|t: Seq<char>| text_delta_rec(index, t))).0 == p,
        text_of(decode_seq(p, ts.map_values(|t: Seq<char>| text_delta_rec(index, t))).1)
            == ts.flatten(),
        text_of(event_step(
            p,
            RawStreamEventView::ContentBlockStart {
                index,
                content_block: ContentBlockView::Text { text: ts.flatten() },
            },
        ).1) == ts.flatten(),
    decreases ts.len(),
{
    let rs = ts.map_values(|t: Seq<char>| text_delta_rec(index, t));
    let one = event_step(
        p,
        RawStreamEventView::ContentBlockStart {
            index,
            content_block: ContentBlockView::Text { text: ts.flatten() },
        },
    ).1;
    assert(one =~= seq![StreamEventView::Text(ts.flatten())]);
    assert(one.drop_first() =~= Seq::<StreamEventView>::empty());
    assert(ts.flatten() + text_of(one.drop_first()) =~= ts.flatten());
    assert(text_of(one) =~= ts.flatten());
    if ts.len() == 0 {
        assert(ts.flatten() =~= Seq::<char>::empty());
    } else {
        assert(rs[0] == text_delta_rec(index, ts[0]));
        let e1 = seq![StreamEventView::Text(ts[0])];
        assert(event_step(p, rs[0]).1 == e1);
        assert(rs.drop_first() =~= ts.drop_first().map_values(
            |t: Seq<char>| text_delta_rec(index, t),
        ));
        lemma_text_deltas_concat(p, index, ts.drop_first());
        let rest = decode_seq(p, rs.drop_first()).1;
        assert(decode_seq(p, rs).1 == e1 + rest);
        assert((e1 + rest)[0] == StreamEventView::Text(ts[0]));
        assert((e1 + rest).drop_first() =~= rest);
        assert(text_of(e1 + rest) == ts[0] + text_of(rest));
        assert(ts.flatten() == ts[0] + ts.drop_first().flatten());
    }
}

/// Fragments of a streamed tool input accumulate in order and emit nothing.
proof fn lemma_tool_frags_accumulate(p: ParserView, index: u64, frags: Seq<Seq<char>>)
    ensures
        decode_seq(p, frags.map_values(|f: Seq<char>| tool_frag_rec(index, f))).0 == (ParserView {
            tool_name: p.tool_name,
            tool_input: p.tool_input + frags.flatten(),
        }),
        decode_seq(p, frags.map_values(|f: Seq<char>| tool_frag_rec(index, f))).1 == Seq::<
            StreamEventView,
        >::empty(),
    decreases frags.len(),
{
    let rs = frags.map_values(|f: Seq<char>| tool_frag_rec(index, f));
    if frags.len() == 0 {
        assert(frags.flatten() =~= Seq::<char>::empty());
        assert(p.tool_input + frags.flatten() =~= p.tool_input);
        assert(decode_seq(p, rs).0 =~~= ParserView {
            tool_name: p.tool_name,
            tool_input: p.tool_input + frags.flatten(),
        });
    } else {
        assert(rs[0] == tool_frag_rec(index, frags[0]));
        let p1 = ParserView { tool_name: p.tool_name, tool_input: p.tool_input + frags[0] };
        assert(event_step(p, rs[0]).0 == p1);
        assert(rs.drop_first() =~= frags.drop_first().map_values(
            |f: Seq<char>| tool_frag_rec(index, f),
        ));
        lemma_tool_frags_accumulate(p1, index, frags.drop_first());
        assert(frags.flatten() == frags[0] + frags.drop_first().flatten());
        assert(p.tool_input + frags[0] + frags.drop_first().flatten() =~= p.tool_input
            + frags.flatten());
        assert(decode_seq(p, rs).0 =~~= ParserView {
            tool_name: p.tool_name,
            tool_input: p.tool_input + frags.flatten(),
        });
        assert(decode_seq(p, rs).1 =~= Seq::<StreamEventView>::empty());
    }
}

/// Law: a tool invocation delivered as a block start with empty input, N
/// partial fragments, and a block close decodes to exactly one ToolUse
/// event whose input is the in-order concatenation of the fragments, and
/// resets the accumulator.
pub proof fn lemma_tool_fragments(
    p: ParserView,
    index: u64,
    id: Seq<char>,
    name: Seq<char>,
    frags: Seq<Seq<char>>,
)
    ensures
        ({
            let rs = seq![tool_start_rec(index, id, name, Seq::<char>::empty())]
                + frags.map_values(|f: Seq<char>| tool_frag_rec(index, f))
                + seq![block_stop_rec(index)];
            decode_seq(p, rs).0 == ParserView::idle() && decode_seq(p, rs).1 == seq![
                StreamEventView::ToolUse { name, input: frags.flatten() },
            ]
        }),
{
    let start = seq![tool_start_rec(index, id, name, Seq::<char>::empty())];
    let mid = frags.map_values(|f: Seq<char>| tool_frag_rec(index, f));
    let stop = seq![block_stop_rec(index)];
    let p1 = ParserView { tool_name: Some(name), tool_input: Seq::<char>::empty() };
    assert(start.drop_first() =~= Seq::<RawStreamEventView>::empty());
    assert(start[0] == tool_start_rec(index, id, name, Seq::<char>::empty()));
    assert(event_step(p, start[0]).0 =~~= p1);
    assert(event_step(p, start[0]).1 =~= Seq::<StreamEventView>::empty());
    assert(decode_seq(event_step(p, start[0]).0, start.drop_first()).0 == event_step(
        p,
        start[0],
    ).0);
    assert(decode_seq(p, start).0 =~~= p1);
    assert(decode_seq(p, start).1 =~= Seq::<StreamEventView>::empty());
    lemma_tool_frags_accumulate(p1, index, frags);
    let p2 = decode_seq(p1, mid).0;
    assert(p2.tool_name == Some(name));
    assert(p2.tool_input =~= frags.flatten());
    assert(stop.drop_first() =~= Seq::<RawStreamEventView>::empty());
    assert(stop[0] == block_stop_rec(index));
    assert(event_step(p2, stop[0]).0 =~~= ParserView::idle());
    assert(event_step(p2, stop[0]).1 =~= seq![
        StreamEventView::ToolUse { name, input: p2.tool_input },
    ]);
    assert(decode_seq(event_step(p2, stop[0]).0, stop.drop_first()).0 == event_step(
        p2,
        stop[0],
    ).0);
    assert(decode_seq(p2, stop).0 == ParserView::idle());
    assert(decode_seq(p2, stop).1 =~= seq![
        StreamEventView::ToolUse { name, input: p2.tool_input },
    ]);
    lemma_decode_seq_append(p, start, mid);
    lemma_decode_seq_append(p, start + mid, stop);
    lemma_decode_seq_append(decode_seq(p, start).0, mid, stop);
    assert((start + mid) + stop =~= start + mid + stop);
    assert(decode_seq(p, start + mid).0 =~~= p2);
    assert(decode_seq(p, start + mid + stop).0 =~~= ParserView::idle());
    assert(decode_seq(p, start + mid).1 =~= Seq::<StreamEventView>::empty());
    assert(decode_seq(p, start + mid + stop).1 =~= seq![
        StreamEventView::ToolUse { name, input: frags.flatten() },
    ]);
}

/// Law: a tool invocation whose input is present at block start decodes to
/// exactly one immediate ToolUse event, and the block close that follows it
/// adds no further event.
pub proof fn lemma_tool_immediate(
    p: ParserView,
    index: u64,
    id: Seq<char>,
    name: Seq<char>,
    input: Seq<char>,
)
    requires
        input.len() > 0,
    ensures
        ({
            let rs = seq![tool_start_rec(index, id, name, input), block_stop_rec(index)];
            decode_seq(p, rs).0 == ParserView::idle() && decode_seq(p, rs).1 == seq![
                StreamEventView::ToolUse { name, input },
            ]
        }),
{
    let rs = seq![tool_start_rec(index, id, name, input), block_stop_rec(index)];
    let p1 = ParserView::idle();
    assert(rs[0] == tool_start_rec(index, id, name, input));
    assert(event_step(p, rs[0]).0 =~~= p1);
    assert(event_step(p, rs[0]).1 =~= seq![StreamEventView::ToolUse { name, input }]);
    assert(rs.drop_first() =~= seq![block_stop_rec(index)]);
    assert(rs.drop_first().drop_first() =~= Seq::<RawStreamEventView>::empty());
    assert(rs.drop_first()[0] == block_stop_rec(index));
    assert(event_step(p1, block_stop_rec(index)).0 =~~= p1);
    assert(event_step(p1, block_stop_rec(index)).1 =~= Seq::<StreamEventView>::empty());
    assert(decode_seq(p1, rs.drop_first().drop_first()).0 == p1);
    assert(decode_seq(p1, rs.drop_first()).0 =~~= p1);
    assert(decode_seq(p1, rs.drop_first()).1 =~= Seq::<StreamEventView>::empty());
    assert(decode_seq(p, rs).0 =~~= p1);
    assert(decode_seq(p, rs).1 =~= seq![StreamEventView::ToolUse { name, input }]);
}

impl StreamParser {
    pub fn new() -> (r: StreamParser)
        ensures
            r@ == ParserView::idle(),
    {
        let r = StreamParser { current_tool_name: None, current_tool_input: String::new() };
        proof {
            assert(r@ =~~= ParserView::idle());
        }
        r
    }

    /// Applies one content block to the accumulator, returning the events it
    /// emits, exactly as `block_step` says.
    pub fn process_content_block(&mut self, block: &ContentBlock) -> (r: Vec<StreamEvent>)
        ensures
            final(self)@ == block_step(old(self)@, block@).0,
            r.deep_view() == block_step(old(self)@, block@).1,
    {
        let mut events: Vec<StreamEvent> = Vec::new();
        match block {
            ContentBlock::Text { text } => {
                events.push(StreamEvent::Text(text.clone()));
            },
            ContentBlock::ToolUse { id, name, input } => {
                if !input.as_str().is_empty() {
                    self.current_tool_name = None;
                    self.current_tool_input = String::new();
                    events.push(StreamEvent::ToolUse { name: name.clone(), input: input.clone() });
                } else {
                    self.current_tool_name = Some(name.clone());
                    self.current_tool_input = String::new();
                }
            },
            ContentBlock::ToolResult { tool_use_id, content } => {
                events.push(
                    StreamEvent::ToolResult {
                        name: String::from_str("tool"),
                        result: content.clone(),
                    },
                );
            },
            ContentBlock::Thinking { thinking } => {
                events.push(StreamEvent::Thinking(thinking.clone()));
            },
            ContentBlock::Unknown => {},
        }
        proof {
            assert(final(self)@ =~~= block_step(old(self)@, block@).0);
            assert(events.deep_view() =~~= block_step(old(self)@, block@).1);
        }
        events
    }

    /// Applies one protocol record to the accumulator, returning the events
    /// it emits, exactly as `event_step` says.
    pub fn process_event(&mut self, event: &RawStreamEvent) -> (r: Vec<StreamEvent>)
        ensures
            final(self)@ == event_step(old(self)@, event@).0,
            r.deep_view() == event_step(old(self)@, event@).1,
    {
        let mut events: Vec<StreamEvent> = Vec::new();
        match event {
            RawStreamEvent::Assistant { message } | RawStreamEvent::MessageStart { message } => {
                match &message.content {
                    Some(content) => {
                        let ghost bs = content.deep_view();
                        proof {
                            assert(bs.skip(0) =~= bs);
                            assert(events.deep_view() + blocks_step(self@, bs).1 =~= blocks_step(
                                self@,
                                bs,
                            ).1);
                        }
                        let mut i: usize = 0;
                        while i < content.len()
                            invariant
                                0 <= i <= content@.len(),
                                bs == content.deep_view(),
                                bs.len() == content@.len(),
                                blocks_step(old(self)@, bs).0 == blocks_step(
                                    self@,
                                    bs.skip(i as int),
                                ).0,
                                blocks_step(old(self)@, bs).1 == events.deep_view() + blocks_step(
                                    self@,
                                    bs.skip(i as int),
                                ).1,
                            decreases content@.len() - i,
                        {
                            let ghost pre = self@;
                            let ghost pre_events = events.deep_view();
                            let mut evs = self.process_content_block(&content[i]);
                            proof {
                                assert(bs.skip(i as int)[0] == bs[i as int]);
                                assert(bs.skip(i as int).drop_first() =~= bs.skip(i as int + 1));
                            }
                            events.append(&mut evs);
                            proof {
                                assert(events.deep_view() =~= pre_events + block_step(
                                    pre,
                                    bs[i as int],
                                ).1);
                                assert(events.deep_view() + blocks_step(
                                    self@,
                                    bs.skip(i as int + 1),
                                ).1 =~= pre_events + blocks_step(pre, bs.skip(i as int)).1);
                            }
                            i += 1;
                        }
                        proof {
                            assert(bs.skip(bs.len() as int) =~= Seq::<ContentBlockView>::empty());
                            assert(events.deep_view() + Seq::<StreamEventView>::empty()
                                =~= events.deep_view());
                        }
                    },
                    None => {},
                }
                match &message.usage {
                    Some(u) => {
                        events.push(
                            StreamEvent::Usage {
                                input_tokens: u.input_tokens,
                                output_tokens: u.output_tokens,
                                cache_read_tokens: u.cache_read_input_tokens,
                                cache_write_tokens: u.cache_creation_input_tokens,
                            },
                        );
                    },
                    None => {},
                }
            },
            RawStreamEvent::ContentBlockStart { index, content_block } => {
                let mut evs = self.process_content_block(content_block);
                events.append(&mut evs);
                proof {
                    assert(events.deep_view() =~= block_step(old(self)@, content_block@).1);
                }
            },
            RawStreamEvent::ContentBlockDelta { index, delta } => {
                match delta {
                    ContentDelta::TextDelta { text } => {
                        events.push(StreamEvent::Text(text.clone()));
                    },
                    ContentDelta::InputJsonDelta { partial_json } => {
                        self.current_tool_input.append(partial_json.as_str());
                    },
                    ContentDelta::ThinkingDelta { thinking } => {
                        events.push(StreamEvent::Thinking(thinking.clone()));
                    },
                    ContentDelta::Unknown => {},
                }
            },
            RawStreamEvent::ContentBlockStop { index } => {
                let taken = self.current_tool_name.take();
                match taken {
                    Some(name) => {
                        let mut input = String::new();
                        core::mem::swap(&mut self.current_tool_input, &mut input);
                        events.push(StreamEvent::ToolUse { name, input });
                    },
                    None => {},
                }
            },
            RawStreamEvent::MessageDelta { delta, usage } => {
                match usage {
                    Some(u) => {
                        events.push(
                            StreamEvent::Usage {
                                input_tokens: u.input_tokens,
                                output_tokens: u.output_tokens,
                                cache_read_tokens: u.cache_read_input_tokens,
                                cache_write_tokens: u.cache_creation_input_tokens,
                            },
                        );
                    },
                    None => {},
                }
            },
            RawStreamEvent::TurnResult { subtype, result, is_error } => {
                let is_tool_result = match subtype {
                    Some(s) => strutil::str_eq(s.as_str(), "tool_result"),
                    None => false,
                };
                if is_tool_result {
                    match result {
                        Some(s) => {
                            events.push(
                                StreamEvent::ToolResult {
                                    name: String::from_str("tool"),
                                    result: s.clone(),
                                },
                            );
                        },
                        None => {},
                    }
                }
            },
            RawStreamEvent::System { subtype } => {},
            RawStreamEvent::User { message } => {},
            RawStreamEvent::MessageStop => {},
            RawStreamEvent::Unknown => {},
        }
        proof {
            assert(final(self)@ =~~= event_step(old(self)@, event@).0);
            assert(events.deep_view() =~~= event_step(old(self)@, event@).1);
        }
        events
    }

    /// Parses one line of the subprocess's output. An all-whitespace line or
    /// one that is not well-formed JSON yields zero events and leaves the
    /// accumulator untouched; any other line acts as `event_step` on the
    /// record its text denotes, so the decoding of a line depends on the
    /// accumulator and the line's text alone.
    pub fn parse_line(&mut self, line: &str) -> (r: Vec<StreamEvent>)
        ensures
            strutil::spec_trim(line@).len() == 0 ==> final(self)@ == old(self)@ && r@.len() == 0,
            !json::json_wf(strutil::spec_trim(line@)) ==> final(self)@ == old(self)@ && r@.len()
                == 0,
            strutil::spec_trim(line@).len() > 0 && json::json_wf(strutil::spec_trim(line@))
                ==> final(self)@ == event_step(
                old(self)@,
                json::record_of(strutil::spec_trim(line@)),
            ).0 && r.deep_view() == event_step(
                old(self)@,
                json::record_of(strutil::spec_trim(line@)),
            ).1,
    {
        let trimmed = strutil::trim_str(line);
        if trimmed.is_empty() {
            let r: Vec<StreamEvent> = Vec::new();
            proof {
                assert(r.deep_view() =~= Seq::<StreamEventView>::empty());
            }
            return r;
        }
        match json::json_from_str(trimmed) {
            None => {
                let r: Vec<StreamEvent> = Vec::new();
                proof {
                    assert(r.deep_view() =~= Seq::<StreamEventView>::empty());
                }
                r
            },
            Some(v) => {
                let raw = json::extract_event(&v);
                let r = self.process_event(&raw);
                proof {
                    assert(raw@ == json::record_of(trimmed@));
                    assert(final(self)@ == event_step(old(self)@, raw@).0 && r.deep_view()
                        == event_step(old(self)@, raw@).1);
                }
                r
            },
        }
    }
}

} // verus!
