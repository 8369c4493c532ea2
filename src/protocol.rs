use vstd::prelude::*;

use crate::json::{field, get_field, json_view, Json, JsonValue};
use crate::text::same_text;

verus! {

/// The kind of a message, as far as the referee tells kinds apart.
#[derive(Clone, Copy, Debug, PartialEq, Eq, Structural)]
pub enum MessageKind {
    Start,
    Define,
    Evaluate,
    /// Any other value of the `kind` member.
    Other,
}

/// What the referee reads of a message: its `id` and its `kind`.
#[derive(Clone, Copy, Debug, PartialEq, Eq, Structural)]
pub struct MessageHeader {
    pub id: u64,
    pub kind: MessageKind,
}

/// What the referee reads of a response: its `id` and its `success`.
#[derive(Clone, Copy, Debug, PartialEq, Eq, Structural)]
pub struct ResponseHeader {
    pub id: u64,
    pub success: bool,
}

/// The kind named by the value of a `kind` member.
pub open spec fn kind_of(v: JsonValue) -> MessageKind {
    if v == JsonValue::Str("start"@) {
        MessageKind::Start
    } else if v == JsonValue::Str("define"@) {
        MessageKind::Define
    } else if v == JsonValue::Str("evaluate"@) {
        MessageKind::Evaluate
    } else {
        MessageKind::Other
    }
}

/// The header of a well-formed message: an object with a non-negative integer `id` and a
/// `kind`; `None` for anything else.
pub open spec fn message_header(v: JsonValue) -> Option<MessageHeader> {
    match (field(v, "id"@), field(v, "kind"@)) {
        (Some(JsonValue::UInt(id)), Some(k)) => Some(MessageHeader { id, kind: kind_of(k) }),
        _ => None,
    }
}

/// The header of a well-formed response: an object with a non-negative integer `id` and a
/// boolean `success`; `None` for anything else, a negative `id` included, since it can never
/// match a message's.
pub open spec fn response_header(v: JsonValue) -> Option<ResponseHeader> {
    match (field(v, "id"@), field(v, "success"@)) {
        (Some(JsonValue::UInt(id)), Some(JsonValue::Bool(success))) => Some(
            ResponseHeader { id, success },
        ),
        _ => None,
    }
}

fn read_kind(k: &Json) -> (r: MessageKind)
    ensures
        r == kind_of(json_view(*k)),
{
    proof {
        reveal_strlit("start");
        reveal_strlit("define");
        reveal_strlit("evaluate");
    }
    match k {
        Json::Str(s) => {
            if same_text(s.as_str(), "start") {
                MessageKind::Start
            } else if same_text(s.as_str(), "define") {
                MessageKind::Define
            } else if same_text(s.as_str(), "evaluate") {
                MessageKind::Evaluate
            } else {
                MessageKind::Other
            }
        },
        _ => MessageKind::Other,
    }
}

/// Reads the header of a message.
pub fn read_message_header(j: &Json) -> (r: Option<MessageHeader>)
    ensures
        r == message_header(json_view(*j)),
{
    match (get_field(j, "id"), get_field(j, "kind")) {
        (Some(Json::UInt(id)), Some(k)) => Some(MessageHeader { id: *id, kind: read_kind(k) }),
        (Some(id), Some(_)) => {
            assert(!(json_view(*id) is UInt));
            None
        },
        _ => None,
    }
}

/// Reads the header of a response.
pub fn read_response_header(j: &Json) -> (r: Option<ResponseHeader>)
    ensures
        r == response_header(json_view(*j)),
{
    match (get_field(j, "id"), get_field(j, "success")) {
        (Some(Json::UInt(id)), Some(Json::Bool(success))) => Some(
            ResponseHeader { id: *id, success: *success },
        ),
        (Some(id), Some(s)) => {
            assert(!(json_view(*id) is UInt) || !(json_view(*s) is Bool));
            None
        },
        _ => None,
    }
}

} // verus!
