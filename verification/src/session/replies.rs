//! The answers that the model gets to its tool calls.

use crate::protocol::items::{FunctionCallOutputPayload, ResponseInputItem};
use crate::text::{push_str, string_of};
use vstd::prelude::*;

verus! {

/// Whether an answer is the output of a function call under the call
/// id given, with the content and the mark of success given.
pub open spec fn is_reply(
    r: ResponseInputItem,
    call_id: Seq<char>,
    content: Seq<char>,
    success: Option<bool>,
) -> bool {
    r matches ResponseInputItem::FunctionCallOutput { call_id: id, output } && (id@ == call_id
        && output.content@ == content && output.success == success)
}

/// Whether an answer is the output of a custom tool call under the
/// call id given, with the text given.
pub open spec fn is_custom_reply(r: ResponseInputItem, call_id: Seq<char>, text: Seq<char>) -> bool {
    r matches ResponseInputItem::CustomToolCallOutput { call_id: id, output } && (id@ == call_id
        && output@ == text)
}

/// The output of a function call.
pub fn reply(call_id: &str, content: String, success: Option<bool>) -> (r: ResponseInputItem)
    ensures
        is_reply(r, call_id@, content@, success),
{
    ResponseInputItem::FunctionCallOutput {
        call_id: String::from_str(call_id),
        output: FunctionCallOutputPayload { content, success },
    }
}

/// The output of a function call, its content in two parts.
pub fn reply_about(call_id: &str, lead: &str, detail: &str, success: Option<bool>) -> (r:
    ResponseInputItem)
    ensures
        is_reply(r, call_id@, lead@ + detail@, success),
{
    let mut m: Vec<char> = Vec::new();
    push_str(&mut m, lead);
    push_str(&mut m, detail);
    reply(call_id, string_of(&m), success)
}

/// The output of a function call, its content in three parts.
pub fn reply_around(
    call_id: &str,
    lead: &str,
    detail: &str,
    tail: &str,
    success: Option<bool>,
) -> (r: ResponseInputItem)
    ensures
        is_reply(r, call_id@, lead@ + detail@ + tail@, success),
{
    let mut m: Vec<char> = Vec::new();
    push_str(&mut m, lead);
    push_str(&mut m, detail);
    push_str(&mut m, tail);
    reply(call_id, string_of(&m), success)
}

/// An answer to a custom tool call in place of the output of a
/// function call with the same content; any other answer stays.
pub fn as_custom_reply(answer: ResponseInputItem) -> (r: ResponseInputItem)
    ensures
        match answer {
            ResponseInputItem::FunctionCallOutput { call_id, output } => is_custom_reply(
                r,
                call_id@,
                output.content@,
            ),
            _ => r == answer,
        },
{
    match answer {
        ResponseInputItem::FunctionCallOutput {
            call_id,
            output,
        } => ResponseInputItem::CustomToolCallOutput { call_id, output: output.content },
        other => other,
    }
}

} // verus!
