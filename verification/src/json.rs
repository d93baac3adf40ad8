//! The crate's only window onto serde_json: a declared opaque value type,
//! trusted wrappers around its parsing and accessor functions, and the
//! verified extraction of protocol records from parsed values.
//!
//! `JsonView` is the library's model of a parsed JSON value. The trusted
//! names tie the outside calls to it — `json_of` names the value a piece of
//! text parses to, `json_view` names the model of a held value, and
//! `pretty_of` names serde_json's pretty-printed form — and every accessor
//! wrapper states its result over the model. On top of them the extraction
//! is ordinary verified code, proved equal to the spec-level dispatch
//! `record_of_json`, so a whole line's decoding is pinned to
//! `record_of(text)`.
//!
//! Extraction is tolerant by design: a line that is not a well-formed record
//! becomes `RawStreamEvent::Unknown`, which decodes to zero events, and an
//! ill-typed embedded field is treated as absent where the record as a whole
//! can still be read.

use vstd::prelude::*;

use crate::types::{
    ClaudeMessage, ClaudeMessageView, ContentBlock, ContentBlockView, ContentDelta,
    ContentDeltaView, MessageDeltaData, MessageDeltaDataView, RawStreamEvent, RawStreamEventView,
    Usage,
};

verus! {

#[verifier::external_type_specification]
#[verifier::external_body]
pub struct ExValue(serde_json::Value);

/// The library's model of a JSON value. Numbers representable as u64 carry
/// that number; any other number is held as its printed text, which keeps
/// floating point out of the crate while keeping distinct numbers distinct.
/// An object is its entries, keys unique, as the map holds them.
#[verifier::ext_equal]
pub enum JsonView {
    Null,
    Bool(bool),
    NumU64(u64),
    NumOther(Seq<char>),
    Str(Seq<char>),
    Arr(Seq<JsonView>),
    Obj(Seq<(Seq<char>, JsonView)>),
}

/// Whether a piece of text is well-formed JSON, as serde_json's parser
/// accepts it. The parser's verdict depends on the text alone.
pub uninterp spec fn json_wf(s: Seq<char>) -> bool;

/// The value a piece of well-formed JSON text parses to, as a model. The
/// parse depends on the text alone.
pub uninterp spec fn json_of(s: Seq<char>) -> JsonView;

/// The model of a held JSON value.
pub uninterp spec fn json_view(v: serde_json::Value) -> JsonView;

/// serde_json's pretty-printed form of a value; it depends on the value's
/// content alone.
pub uninterp spec fn pretty_of(j: JsonView) -> Seq<char>;

/// The entry for `key` among an object's entries, if any.
pub open spec fn obj_entries_get(fields: Seq<(Seq<char>, JsonView)>, key: Seq<char>) -> Option<
    JsonView,
>
    decreases fields.len(),
{
    if fields.len() == 0 {
        None
    } else if fields[0].0 == key {
        Some(fields[0].1)
    } else {
        obj_entries_get(fields.drop_first(), key)
    }
}

/// The member `key` of `j`: `None` when `j` is not an object or has no such
/// member.
pub open spec fn obj_get(j: JsonView, key: Seq<char>) -> Option<JsonView> {
    match j {
        JsonView::Obj(fields) => obj_entries_get(fields, key),
        _ => None,
    }
}

/// Relies on serde_json::from_str: parses text into a JSON value,
/// succeeding exactly on well-formed JSON; the value parsed is a function
/// of the text alone.
#[verifier::external_body]
pub fn json_from_str(s: &str) -> (r: Option<serde_json::Value>)
    ensures
        r is Some <==> json_wf(s@),
        r matches Some(v) ==> json_view(v) == json_of(s@),
{
    serde_json::from_str(s).ok()
}

/// Relies on serde_json::Value::get: looks a member up in a JSON object,
/// `None` when the value is not an object or has no such member.
#[verifier::external_body]
pub(crate) fn value_get<'a>(v: &'a serde_json::Value, key: &str) -> (r: Option<
    &'a serde_json::Value,
>)
    ensures
        ({
            match r {
                Some(f) => obj_get(json_view(*v), key@) == Some(json_view(*f)),
                None => obj_get(json_view(*v), key@) is None,
            }
        }),
{
    v.get(key)
}

/// Relies on serde_json::Value::as_str: `Some` exactly when the value is a
/// JSON string, and then that string.
#[verifier::external_body]
pub(crate) fn value_as_string(v: &serde_json::Value) -> (r: Option<String>)
    ensures
        r.deep_view() == (match json_view(*v) {
            JsonView::Str(s) => Some(s),
            _ => None,
        }),
{
    v.as_str().map(|s| s.to_string())
}

/// Relies on serde_json::Value::as_u64: `Some` exactly when the value is an
/// unsigned integer that fits in a u64, and then that integer.
#[verifier::external_body]
pub(crate) fn value_as_u64(v: &serde_json::Value) -> (r: Option<u64>)
    ensures
        r == (match json_view(*v) {
            JsonView::NumU64(n) => Some(n),
            _ => None,
        }),
{
    v.as_u64()
}

/// Relies on serde_json::Value::as_bool: `Some` exactly when the value is a
/// JSON boolean, and then that boolean.
#[verifier::external_body]
pub(crate) fn value_as_bool(v: &serde_json::Value) -> (r: Option<bool>)
    ensures
        r == (match json_view(*v) {
            JsonView::Bool(b) => Some(b),
            _ => None,
        }),
{
    v.as_bool()
}

/// Relies on serde_json::Value::as_array: `Some` exactly when the value is
/// a JSON array, and then its elements in order.
#[verifier::external_body]
pub(crate) fn value_as_array<'a>(v: &'a serde_json::Value) -> (r: Option<
    &'a Vec<serde_json::Value>,
>)
    ensures
        ({
            match json_view(*v) {
                JsonView::Arr(elems) => r matches Some(a) && a@.len() == elems.len() && (forall|
                    i: int,
                |
                    0 <= i < elems.len() ==> json_view(#[trigger] a@[i]) == elems[i]),
                _ => r is None,
            }
        }),
{
    v.as_array()
}

/// Relies on serde_json::to_string_pretty: pretty-prints a JSON value, a
/// function of its content alone. A `Value` itself always serializes — its
/// maps have string keys and its numbers are finite — so the error arm,
/// defaulted to the empty string, is never taken.
#[verifier::external_body]
pub(crate) fn value_to_pretty(v: &serde_json::Value) -> (r: String)
    ensures
        r@ == pretty_of(json_view(*v)),
{
    serde_json::to_string_pretty(v).unwrap_or_default()
}

/// The string member `key` of `j`, `None` when absent or not a string.
pub open spec fn str_field(j: JsonView, key: Seq<char>) -> Option<Seq<char>> {
    match obj_get(j, key) {
        Some(JsonView::Str(s)) => Some(s),
        _ => None,
    }
}

/// The u64 member `key` of `j`, `None` when absent or not such a number.
pub open spec fn u64_field(j: JsonView, key: Seq<char>) -> Option<u64> {
    match obj_get(j, key) {
        Some(JsonView::NumU64(n)) => Some(n),
        _ => None,
    }
}

/// The u64 member `key` of `j`, reading zero when absent or ill-typed.
pub open spec fn u64_field_or_zero(j: JsonView, key: Seq<char>) -> u64 {
    match u64_field(j, key) {
        Some(n) => n,
        None => 0,
    }
}

/// A value rendered as text: the string itself when it is a JSON string,
/// otherwise its pretty-printed form.
pub open spec fn text_of_json(j: JsonView) -> Seq<char> {
    match j {
        JsonView::Str(s) => s,
        _ => pretty_of(j),
    }
}

/// The token usage a usage object denotes; absent counters read as zero.
pub open spec fn usage_of_json(j: JsonView) -> Usage {
    Usage {
        input_tokens: u64_field_or_zero(j, "input_tokens"@),
        output_tokens: u64_field_or_zero(j, "output_tokens"@),
        cache_read_input_tokens: u64_field_or_zero(j, "cache_read_input_tokens"@),
        cache_creation_input_tokens: u64_field_or_zero(j, "cache_creation_input_tokens"@),
    }
}

/// The content block a value denotes, dispatched on its type tag. A tool
/// invocation's input, when present, is its pretty-printed text; when
/// absent it is empty, which arms the decoder's accumulator.
pub open spec fn block_of_json(j: JsonView) -> ContentBlockView {
    match str_field(j, "type"@) {
        None => ContentBlockView::Unknown,
        Some(tag) => if tag == "text"@ {
            match str_field(j, "text"@) {
                Some(text) => ContentBlockView::Text { text },
                None => ContentBlockView::Unknown,
            }
        } else if tag == "tool_use"@ {
            match (str_field(j, "id"@), str_field(j, "name"@)) {
                (Some(id), Some(name)) => ContentBlockView::ToolUse {
                    id,
                    name,
                    input: match obj_get(j, "input"@) {
                        Some(inp) => pretty_of(inp),
                        None => Seq::<char>::empty(),
                    },
                },
                _ => ContentBlockView::Unknown,
            }
        } else if tag == "tool_result"@ {
            match (str_field(j, "tool_use_id"@), obj_get(j, "content"@)) {
                (Some(tool_use_id), Some(c)) => ContentBlockView::ToolResult {
                    tool_use_id,
                    content: text_of_json(c),
                },
                _ => ContentBlockView::Unknown,
            }
        } else if tag == "thinking"@ {
            match str_field(j, "thinking"@) {
                Some(thinking) => ContentBlockView::Thinking { thinking },
                None => ContentBlockView::Unknown,
            }
        } else {
            ContentBlockView::Unknown
        },
    }
}

/// The content-block delta a value denotes.
pub open spec fn delta_of_json(j: JsonView) -> ContentDeltaView {
    match str_field(j, "type"@) {
        None => ContentDeltaView::Unknown,
        Some(tag) => if tag == "text_delta"@ {
            match str_field(j, "text"@) {
                Some(text) => ContentDeltaView::TextDelta { text },
                None => ContentDeltaView::Unknown,
            }
        } else if tag == "input_json_delta"@ {
            match str_field(j, "partial_json"@) {
                Some(partial_json) => ContentDeltaView::InputJsonDelta { partial_json },
                None => ContentDeltaView::Unknown,
            }
        } else if tag == "thinking_delta"@ {
            match str_field(j, "thinking"@) {
                Some(thinking) => ContentDeltaView::ThinkingDelta { thinking },
                None => ContentDeltaView::Unknown,
            }
        } else {
            ContentDeltaView::Unknown
        },
    }
}

/// The message envelope a value denotes: its content blocks when `content`
/// is an array, its usage when a usage object is present.
pub open spec fn message_of_json(j: JsonView) -> ClaudeMessageView {
    ClaudeMessageView {
        id: str_field(j, "id"@),
        role: str_field(j, "role"@),
        content: match obj_get(j, "content"@) {
            Some(JsonView::Arr(elems)) => Some(
                elems.map_values(|e: JsonView| block_of_json(e)),
            ),
            _ => None,
        },
        model: str_field(j, "model"@),
        stop_reason: str_field(j, "stop_reason"@),
        usage: match obj_get(j, "usage"@) {
            Some(u) => Some(usage_of_json(u)),
            None => None,
        },
    }
}

/// The protocol record a parsed value denotes, dispatched on its type tag;
/// unrecognized tags and records missing a required member denote
/// `Unknown`, which decodes to zero events.
pub open spec fn record_of_json(j: JsonView) -> RawStreamEventView {
    match str_field(j, "type"@) {
        None => RawStreamEventView::Unknown,
        Some(tag) => if tag == "system"@ {
            RawStreamEventView::System { subtype: str_field(j, "subtype"@) }
        } else if tag == "assistant"@ {
            match obj_get(j, "message"@) {
                Some(m) => RawStreamEventView::Assistant { message: message_of_json(m) },
                None => RawStreamEventView::Unknown,
            }
        } else if tag == "user"@ {
            match obj_get(j, "message"@) {
                Some(m) => RawStreamEventView::User { message: message_of_json(m) },
                None => RawStreamEventView::Unknown,
            }
        } else if tag == "content_block_start"@ {
            match (u64_field(j, "index"@), obj_get(j, "content_block"@)) {
                (Some(index), Some(b)) => RawStreamEventView::ContentBlockStart {
                    index,
                    content_block: block_of_json(b),
                },
                _ => RawStreamEventView::Unknown,
            }
        } else if tag == "content_block_delta"@ {
            match (u64_field(j, "index"@), obj_get(j, "delta"@)) {
                (Some(index), Some(d)) => RawStreamEventView::ContentBlockDelta {
                    index,
                    delta: delta_of_json(d),
                },
                _ => RawStreamEventView::Unknown,
            }
        } else if tag == "content_block_stop"@ {
            match u64_field(j, "index"@) {
                Some(index) => RawStreamEventView::ContentBlockStop { index },
                None => RawStreamEventView::Unknown,
            }
        } else if tag == "message_start"@ {
            match obj_get(j, "message"@) {
                Some(m) => RawStreamEventView::MessageStart { message: message_of_json(m) },
                None => RawStreamEventView::Unknown,
            }
        } else if tag == "message_delta"@ {
            match obj_get(j, "delta"@) {
                Some(d) => RawStreamEventView::MessageDelta {
                    delta: MessageDeltaDataView {
                        stop_reason: str_field(d, "stop_reason"@),
                        stop_sequence: str_field(d, "stop_sequence"@),
                    },
                    usage: match obj_get(j, "usage"@) {
                        Some(u) => Some(usage_of_json(u)),
                        None => None,
                    },
                },
                None => RawStreamEventView::Unknown,
            }
        } else if tag == "message_stop"@ {
            RawStreamEventView::MessageStop
        } else if tag == "result"@ {
            RawStreamEventView::TurnResult {
                subtype: str_field(j, "subtype"@),
                result: match obj_get(j, "result"@) {
                    Some(rj) => Some(text_of_json(rj)),
                    None => None,
                },
                is_error: match obj_get(j, "is_error"@) {
                    Some(b) => match b {
                        JsonView::Bool(x) => Some(x),
                        _ => None,
                    },
                    None => None,
                },
            }
        } else {
            RawStreamEventView::Unknown
        },
    }
}

/// The protocol record a piece of well-formed JSON text denotes.
pub open spec fn record_of(s: Seq<char>) -> RawStreamEventView {
    record_of_json(json_of(s))
}

/// The string member `key` of `v`, `None` when absent or not a string.
pub(crate) fn get_string_field(v: &serde_json::Value, key: &str) -> (r: Option<String>)
    ensures
        r.deep_view() == str_field(json_view(*v), key@),
{
    match value_get(v, key) {
        Some(f) => value_as_string(f),
        None => None,
    }
}

/// The u64 member `key` of `v`, `None` when absent or not such a number.
pub(crate) fn get_u64_field(v: &serde_json::Value, key: &str) -> (r: Option<u64>)
    ensures
        r == u64_field(json_view(*v), key@),
{
    match value_get(v, key) {
        Some(f) => value_as_u64(f),
        None => None,
    }
}

/// Token usage counters from a usage object; absent counters read as zero.
pub(crate) fn extract_usage(v: &serde_json::Value) -> (r: Usage)
    ensures
        r == usage_of_json(json_view(*v)),
{
    let input_tokens = match get_u64_field(v, "input_tokens") {
        Some(n) => n,
        None => 0,
    };
    let output_tokens = match get_u64_field(v, "output_tokens") {
        Some(n) => n,
        None => 0,
    };
    let cache_read_input_tokens = match get_u64_field(v, "cache_read_input_tokens") {
        Some(n) => n,
        None => 0,
    };
    let cache_creation_input_tokens = match get_u64_field(v, "cache_creation_input_tokens") {
        Some(n) => n,
        None => 0,
    };
    Usage { input_tokens, output_tokens, cache_read_input_tokens, cache_creation_input_tokens }
}

/// A value rendered as text: the string itself when it is a JSON string,
/// otherwise its pretty-printed form.
pub(crate) fn value_as_text(v: &serde_json::Value) -> (r: String)
    ensures
        r@ == text_of_json(json_view(*v)),
{
    match value_as_string(v) {
        Some(s) => s,
        None => value_to_pretty(v),
    }
}

/// One content block of a record.
pub(crate) fn extract_block(v: &serde_json::Value) -> (r: ContentBlock)
    ensures
        r@ == block_of_json(json_view(*v)),
{
    let tag = match get_string_field(v, "type") {
        Some(t) => t,
        None => {
            return ContentBlock::Unknown;
        },
    };
    if crate::strutil::str_eq(tag.as_str(), "text") {
        match get_string_field(v, "text") {
            Some(text) => ContentBlock::Text { text },
            None => ContentBlock::Unknown,
        }
    } else if crate::strutil::str_eq(tag.as_str(), "tool_use") {
        let id = match get_string_field(v, "id") {
            Some(s) => s,
            None => {
                return ContentBlock::Unknown;
            },
        };
        let name = match get_string_field(v, "name") {
            Some(s) => s,
            None => {
                return ContentBlock::Unknown;
            },
        };
        let input = match value_get(v, "input") {
            Some(inp) => value_to_pretty(inp),
            None => String::new(),
        };
        ContentBlock::ToolUse { id, name, input }
    } else if crate::strutil::str_eq(tag.as_str(), "tool_result") {
        let tool_use_id = match get_string_field(v, "tool_use_id") {
            Some(s) => s,
            None => {
                return ContentBlock::Unknown;
            },
        };
        match value_get(v, "content") {
            Some(c) => ContentBlock::ToolResult { tool_use_id, content: value_as_text(c) },
            None => ContentBlock::Unknown,
        }
    } else if crate::strutil::str_eq(tag.as_str(), "thinking") {
        match get_string_field(v, "thinking") {
            Some(thinking) => ContentBlock::Thinking { thinking },
            None => ContentBlock::Unknown,
        }
    } else {
        ContentBlock::Unknown
    }
}

/// A content-block delta.
pub(crate) fn extract_delta(v: &serde_json::Value) -> (r: ContentDelta)
    ensures
        r@ == delta_of_json(json_view(*v)),
{
    let tag = match get_string_field(v, "type") {
        Some(t) => t,
        None => {
            return ContentDelta::Unknown;
        },
    };
    if crate::strutil::str_eq(tag.as_str(), "text_delta") {
        match get_string_field(v, "text") {
            Some(text) => ContentDelta::TextDelta { text },
            None => ContentDelta::Unknown,
        }
    } else if crate::strutil::str_eq(tag.as_str(), "input_json_delta") {
        match get_string_field(v, "partial_json") {
            Some(partial_json) => ContentDelta::InputJsonDelta { partial_json },
            None => ContentDelta::Unknown,
        }
    } else if crate::strutil::str_eq(tag.as_str(), "thinking_delta") {
        match get_string_field(v, "thinking") {
            Some(thinking) => ContentDelta::ThinkingDelta { thinking },
            None => ContentDelta::Unknown,
        }
    } else {
        ContentDelta::Unknown
    }
}

/// A message envelope.
pub(crate) fn extract_message(v: &serde_json::Value) -> (r: ClaudeMessage)
    ensures
        r@ == message_of_json(json_view(*v)),
{
    let content = match value_get(v, "content") {
        Some(c) => match value_as_array(c) {
            Some(blocks) => {
                let ghost elems = (match json_view(*c) {
                    JsonView::Arr(es) => es,
                    _ => Seq::<JsonView>::empty(),
                });
                let mut out: Vec<ContentBlock> = Vec::new();
                proof {
                    assert(out.deep_view() =~= elems.take(0).map_values(
                        |e: JsonView| block_of_json(e),
                    ));
                }
                let mut i: usize = 0;
                while i < blocks.len()
                    invariant
                        0 <= i <= blocks@.len(),
                        blocks@.len() == elems.len(),
                        forall|k: int|
                            0 <= k < elems.len() ==> json_view(#[trigger] blocks@[k]) == elems[k],
                        out.deep_view() == elems.take(i as int).map_values(
                            |e: JsonView| block_of_json(e),
                        ),
                    decreases blocks@.len() - i,
                {
                    let b = extract_block(&blocks[i]);
                    out.push(b);
                    proof {
                        let f = |e: JsonView| block_of_json(e);
                        assert(elems.take(i as int + 1) =~= elems.take(i as int).push(
                            elems[i as int],
                        ));
                        assert(elems.take(i as int).push(elems[i as int]).map_values(f)
                            =~= elems.take(i as int).map_values(f).push(f(elems[i as int])));
                        assert(out.deep_view() =~= elems.take(i as int + 1).map_values(f));
                    }
                    i += 1;
                }
                proof {
                    assert(elems.take(elems.len() as int) =~= elems);
                }
                Some(out)
            },
            None => None,
        },
        None => None,
    };
    let usage = match value_get(v, "usage") {
        Some(u) => Some(extract_usage(u)),
        None => None,
    };
    let r = ClaudeMessage {
        id: get_string_field(v, "id"),
        role: get_string_field(v, "role"),
        content,
        model: get_string_field(v, "model"),
        stop_reason: get_string_field(v, "stop_reason"),
        usage,
    };
    proof {
        assert(r@ =~~= message_of_json(json_view(*v)));
    }
    r
}

/// A root-level record, dispatched on its type tag.
pub(crate) fn extract_event(v: &serde_json::Value) -> (r: RawStreamEvent)
    ensures
        r@ == record_of_json(json_view(*v)),
{
    let tag = match get_string_field(v, "type") {
        Some(t) => t,
        None => {
            return RawStreamEvent::Unknown;
        },
    };
    let r = if crate::strutil::str_eq(tag.as_str(), "system") {
        RawStreamEvent::System { subtype: get_string_field(v, "subtype") }
    } else if crate::strutil::str_eq(tag.as_str(), "assistant") {
        match value_get(v, "message") {
            Some(m) => RawStreamEvent::Assistant { message: extract_message(m) },
            None => RawStreamEvent::Unknown,
        }
    } else if crate::strutil::str_eq(tag.as_str(), "user") {
        match value_get(v, "message") {
            Some(m) => RawStreamEvent::User { message: extract_message(m) },
            None => RawStreamEvent::Unknown,
        }
    } else if crate::strutil::str_eq(tag.as_str(), "content_block_start") {
        let index = match get_u64_field(v, "index") {
            Some(n) => n,
            None => {
                return RawStreamEvent::Unknown;
            },
        };
        match value_get(v, "content_block") {
            Some(b) => RawStreamEvent::ContentBlockStart { index, content_block: extract_block(b) },
            None => RawStreamEvent::Unknown,
        }
    } else if crate::strutil::str_eq(tag.as_str(), "content_block_delta") {
        let index = match get_u64_field(v, "index") {
            Some(n) => n,
            None => {
                return RawStreamEvent::Unknown;
            },
        };
        match value_get(v, "delta") {
            Some(d) => RawStreamEvent::ContentBlockDelta { index, delta: extract_delta(d) },
            None => RawStreamEvent::Unknown,
        }
    } else if crate::strutil::str_eq(tag.as_str(), "content_block_stop") {
        match get_u64_field(v, "index") {
            Some(index) => RawStreamEvent::ContentBlockStop { index },
            None => RawStreamEvent::Unknown,
        }
    } else if crate::strutil::str_eq(tag.as_str(), "message_start") {
        match value_get(v, "message") {
            Some(m) => RawStreamEvent::MessageStart { message: extract_message(m) },
            None => RawStreamEvent::Unknown,
        }
    } else if crate::strutil::str_eq(tag.as_str(), "message_delta") {
        match value_get(v, "delta") {
            Some(d) => {
                let delta = MessageDeltaData {
                    stop_reason: get_string_field(d, "stop_reason"),
                    stop_sequence: get_string_field(d, "stop_sequence"),
                };
                let usage = match value_get(v, "usage") {
                    Some(u) => Some(extract_usage(u)),
                    None => None,
                };
                RawStreamEvent::MessageDelta { delta, usage }
            },
            None => RawStreamEvent::Unknown,
        }
    } else if crate::strutil::str_eq(tag.as_str(), "message_stop") {
        RawStreamEvent::MessageStop
    } else if crate::strutil::str_eq(tag.as_str(), "result") {
        let result = match value_get(v, "result") {
            Some(rj) => Some(value_as_text(rj)),
            None => None,
        };
        let is_error = match value_get(v, "is_error") {
            Some(b) => value_as_bool(b),
            None => None,
        };
        RawStreamEvent::TurnResult { subtype: get_string_field(v, "subtype"), result, is_error }
    } else {
        RawStreamEvent::Unknown
    };
    proof {
        assert(r@ =~~= record_of_json(json_view(*v)));
    }
    r
}

} // verus!
