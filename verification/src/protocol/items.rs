//! The items a conversation is made of.

use crate::copying::{copy_opt_string, copy_strings};
use vstd::prelude::*;

verus! {

#[derive(Debug, PartialEq, Eq)]
pub enum ContentItem {
    InputText { text: String },
    InputImage { image_url: String },
    OutputText { text: String },
}

pub enum ContentItemView {
    InputText { text: Seq<char> },
    InputImage { image_url: Seq<char> },
    OutputText { text: Seq<char> },
}

impl DeepView for ContentItem {
    type V = ContentItemView;

    open spec fn deep_view(&self) -> ContentItemView {
        match self {
            ContentItem::InputText { text } => ContentItemView::InputText { text: text@ },
            ContentItem::InputImage { image_url } => ContentItemView::InputImage {
                image_url: image_url@,
            },
            ContentItem::OutputText { text } => ContentItemView::OutputText { text: text@ },
        }
    }
}

impl Clone for ContentItem {
    fn clone(&self) -> (r: Self)
        ensures
            r.deep_view() == self.deep_view(),
    {
        match self {
            ContentItem::InputText { text } => ContentItem::InputText { text: text.clone() },
            ContentItem::InputImage { image_url } => ContentItem::InputImage {
                image_url: image_url.clone(),
            },
            ContentItem::OutputText { text } => ContentItem::OutputText { text: text.clone() },
        }
    }
}

/// A copy of `v`.
pub fn copy_content(v: &Vec<ContentItem>) -> (r: Vec<ContentItem>)
    ensures
        r.deep_view() == v.deep_view(),
{
    let mut out: Vec<ContentItem> = Vec::new();
    let mut i: usize = 0;
    while i < v.len()
        invariant
            i <= v.len(),
            out@.len() == i,
            forall|j: int| 0 <= j < i ==> (#[trigger] out@[j]).deep_view() == v@[j].deep_view(),
        decreases v.len() - i,
    {
        out.push(v[i].clone());
        i += 1;
    }
    proof {
        assert(out.deep_view() =~= v.deep_view());
    }
    out
}

/// What a tool call came to, as the model is told.
#[derive(Debug, PartialEq, Eq)]
pub struct FunctionCallOutputPayload {
    pub content: String,
    pub success: Option<bool>,
}

pub struct FunctionCallOutputPayloadView {
    pub content: Seq<char>,
    pub success: Option<bool>,
}

impl DeepView for FunctionCallOutputPayload {
    type V = FunctionCallOutputPayloadView;

    open spec fn deep_view(&self) -> FunctionCallOutputPayloadView {
        FunctionCallOutputPayloadView { content: self.content@, success: self.success }
    }
}

impl Clone for FunctionCallOutputPayload {
    fn clone(&self) -> (r: Self)
        ensures
            r.deep_view() == self.deep_view(),
    {
        FunctionCallOutputPayload { content: self.content.clone(), success: self.success }
    }
}

/// The command of a local shell call.
#[derive(Debug, PartialEq, Eq)]
pub struct LocalShellAction {
    pub command: Vec<String>,
    pub working_directory: Option<String>,
    pub timeout_ms: Option<u64>,
}

pub struct LocalShellActionView {
    pub command: Seq<Seq<char>>,
    pub working_directory: Option<Seq<char>>,
    pub timeout_ms: Option<u64>,
}

impl DeepView for LocalShellAction {
    type V = LocalShellActionView;

    open spec fn deep_view(&self) -> LocalShellActionView {
        LocalShellActionView {
            command: self.command.deep_view(),
            working_directory: self.working_directory.deep_view(),
            timeout_ms: self.timeout_ms,
        }
    }
}

impl Clone for LocalShellAction {
    fn clone(&self) -> (r: Self)
        ensures
            r.deep_view() == self.deep_view(),
    {
        LocalShellAction {
            command: copy_strings(&self.command),
            working_directory: copy_opt_string(&self.working_directory),
            timeout_ms: self.timeout_ms,
        }
    }
}

#[allow(inconsistent_fields)]
#[derive(Debug, PartialEq, Eq)]
pub enum ResponseItem {
    Message { id: Option<String>, role: String, content: Vec<ContentItem> },
    Reasoning {
        id: String,
        summary: Vec<String>,
        content: Option<Vec<String>>,
        encrypted_content: Option<String>,
    },
    FunctionCall { id: Option<String>, name: String, arguments: String, call_id: String },
    FunctionCallOutput { call_id: String, output: FunctionCallOutputPayload },
    LocalShellCall {
        id: Option<String>,
        call_id: Option<String>,
        status: String,
        action: LocalShellAction,
    },
    CustomToolCall {
        id: Option<String>,
        status: Option<String>,
        call_id: String,
        name: String,
        input: String,
    },
    CustomToolCallOutput { call_id: String, output: String },
    WebSearchCall { id: Option<String>, status: Option<String>, query: String },
    Other,
}

#[allow(inconsistent_fields)]
pub enum ResponseItemView {
    Message { id: Option<Seq<char>>, role: Seq<char>, content: Seq<ContentItemView> },
    Reasoning {
        id: Seq<char>,
        summary: Seq<Seq<char>>,
        content: Option<Seq<Seq<char>>>,
        encrypted_content: Option<Seq<char>>,
    },
    FunctionCall { id: Option<Seq<char>>, name: Seq<char>, arguments: Seq<char>, call_id: Seq<char> },
    FunctionCallOutput { call_id: Seq<char>, output: FunctionCallOutputPayloadView },
    LocalShellCall {
        id: Option<Seq<char>>,
        call_id: Option<Seq<char>>,
        status: Seq<char>,
        action: LocalShellActionView,
    },
    CustomToolCall {
        id: Option<Seq<char>>,
        status: Option<Seq<char>>,
        call_id: Seq<char>,
        name: Seq<char>,
        input: Seq<char>,
    },
    CustomToolCallOutput { call_id: Seq<char>, output: Seq<char> },
    WebSearchCall { id: Option<Seq<char>>, status: Option<Seq<char>>, query: Seq<char> },
    Other,
}

impl DeepView for ResponseItem {
    type V = ResponseItemView;

    open spec fn deep_view(&self) -> ResponseItemView {
        match self {
            ResponseItem::Message { id, role, content } => ResponseItemView::Message {
                id: id.deep_view(),
                role: role@,
                content: content.deep_view(),
            },
            ResponseItem::Reasoning {
                id,
                summary,
                content,
                encrypted_content,
            } => ResponseItemView::Reasoning {
                id: id@,
                summary: summary.deep_view(),
                content: content.deep_view(),
                encrypted_content: encrypted_content.deep_view(),
            },
            ResponseItem::FunctionCall {
                id,
                name,
                arguments,
                call_id,
            } => ResponseItemView::FunctionCall {
                id: id.deep_view(),
                name: name@,
                arguments: arguments@,
                call_id: call_id@,
            },
            ResponseItem::FunctionCallOutput {
                call_id,
                output,
            } => ResponseItemView::FunctionCallOutput {
                call_id: call_id@,
                output: output.deep_view(),
            },
            ResponseItem::LocalShellCall {
                id,
                call_id,
                status,
                action,
            } => ResponseItemView::LocalShellCall {
                id: id.deep_view(),
                call_id: call_id.deep_view(),
                status: status@,
                action: action.deep_view(),
            },
            ResponseItem::CustomToolCall {
                id,
                status,
                call_id,
                name,
                input,
            } => ResponseItemView::CustomToolCall {
                id: id.deep_view(),
                status: status.deep_view(),
                call_id: call_id@,
                name: name@,
                input: input@,
            },
            ResponseItem::CustomToolCallOutput {
                call_id,
                output,
            } => ResponseItemView::CustomToolCallOutput { call_id: call_id@, output: output@ },
            ResponseItem::WebSearchCall { id, status, query } => ResponseItemView::WebSearchCall {
                id: id.deep_view(),
                status: status.deep_view(),
                query: query@,
            },
            ResponseItem::Other => ResponseItemView::Other,
        }
    }
}

impl Clone for ResponseItem {
    fn clone(&self) -> (r: Self)
        ensures
            r.deep_view() == self.deep_view(),
    {
        match self {
            ResponseItem::Message { id, role, content } => ResponseItem::Message {
                id: copy_opt_string(id),
                role: role.clone(),
                content: copy_content(content),
            },
            ResponseItem::Reasoning { id, summary, content, encrypted_content } => {
                let c = match content {
                    Some(v) => Some(copy_strings(v)),
                    None => None,
                };
                ResponseItem::Reasoning {
                    id: id.clone(),
                    summary: copy_strings(summary),
                    content: c,
                    encrypted_content: copy_opt_string(encrypted_content),
                }
            },
            ResponseItem::FunctionCall { id, name, arguments, call_id } => ResponseItem::FunctionCall {
                id: copy_opt_string(id),
                name: name.clone(),
                arguments: arguments.clone(),
                call_id: call_id.clone(),
            },
            ResponseItem::FunctionCallOutput {
                call_id,
                output,
            } => ResponseItem::FunctionCallOutput {
                call_id: call_id.clone(),
                output: output.clone(),
            },
            ResponseItem::LocalShellCall {
                id,
                call_id,
                status,
                action,
            } => ResponseItem::LocalShellCall {
                id: copy_opt_string(id),
                call_id: copy_opt_string(call_id),
                status: status.clone(),
                action: action.clone(),
            },
            ResponseItem::CustomToolCall {
                id,
                status,
                call_id,
                name,
                input,
            } => ResponseItem::CustomToolCall {
                id: copy_opt_string(id),
                status: copy_opt_string(status),
                call_id: call_id.clone(),
                name: name.clone(),
                input: input.clone(),
            },
            ResponseItem::CustomToolCallOutput {
                call_id,
                output,
            } => ResponseItem::CustomToolCallOutput {
                call_id: call_id.clone(),
                output: output.clone(),
            },
            ResponseItem::WebSearchCall { id, status, query } => ResponseItem::WebSearchCall {
                id: copy_opt_string(id),
                status: copy_opt_string(status),
                query: query.clone(),
            },
            ResponseItem::Other => ResponseItem::Other,
        }
    }
}

/// A copy of `v`.
pub fn copy_items(v: &Vec<ResponseItem>) -> (r: Vec<ResponseItem>)
    ensures
        r.deep_view() == v.deep_view(),
{
    let mut out: Vec<ResponseItem> = Vec::new();
    let mut i: usize = 0;
    while i < v.len()
        invariant
            i <= v.len(),
            out@.len() == i,
            forall|j: int| 0 <= j < i ==> (#[trigger] out@[j]).deep_view() == v@[j].deep_view(),
        decreases v.len() - i,
    {
        out.push(v[i].clone());
        i += 1;
    }
    proof {
        assert(out.deep_view() =~= v.deep_view());
    }
    out
}

/// What a tool of an MCP server answered: whether it reports an error,
/// its structured content as JSON text where it has any that is not
/// `null`, and its content as JSON text, or why that could not be
/// written as JSON.
#[derive(Debug, PartialEq, Eq)]
pub struct CallToolOutcome {
    pub is_error: Option<bool>,
    pub structured_content: Option<String>,
    pub content: Result<String, String>,
}

impl Clone for CallToolOutcome {
    fn clone(&self) -> (r: Self)
        ensures
            r == *self || (r.is_error == self.is_error && r.structured_content.deep_view()
                == self.structured_content.deep_view() && match (r.content, self.content) {
                (Ok(a), Ok(b)) => a@ == b@,
                (Err(a), Err(b)) => a@ == b@,
                _ => false,
            }),
    {
        CallToolOutcome {
            is_error: self.is_error,
            structured_content: copy_opt_string(&self.structured_content),
            content: match &self.content {
                Ok(s) => Ok(s.clone()),
                Err(e) => Err(e.clone()),
            },
        }
    }
}

/// The payload that tells the model what an MCP tool answered: its
/// structured content where it has any, else its content. It counts as
/// a success unless the tool reports an error or its content could not
/// be written.
pub open spec fn tool_payload(outcome: CallToolOutcome) -> FunctionCallOutputPayloadView {
    match outcome.structured_content {
        Some(s) => FunctionCallOutputPayloadView {
            content: s@,
            success: Some(outcome.is_error != Some(true)),
        },
        None => match outcome.content {
            Ok(c) => FunctionCallOutputPayloadView {
                content: c@,
                success: Some(outcome.is_error != Some(true)),
            },
            Err(e) => FunctionCallOutputPayloadView { content: e@, success: Some(false) },
        },
    }
}

pub fn convert_call_tool_result_to_function_call_output_payload(outcome: &CallToolOutcome) -> (r:
    FunctionCallOutputPayload)
    ensures
        r.deep_view() == tool_payload(*outcome),
{
    let ok = match outcome.is_error {
        Some(true) => false,
        _ => true,
    };
    match &outcome.structured_content {
        Some(s) => FunctionCallOutputPayload { content: s.clone(), success: Some(ok) },
        None => match &outcome.content {
            Ok(c) => FunctionCallOutputPayload { content: c.clone(), success: Some(ok) },
            Err(e) => FunctionCallOutputPayload { content: e.clone(), success: Some(false) },
        },
    }
}

/// What is handed to the model in answer to one of its items.
#[allow(inconsistent_fields)]
#[derive(Debug, PartialEq, Eq)]
pub enum ResponseInputItem {
    Message { role: String, content: Vec<ContentItem> },
    FunctionCallOutput { call_id: String, output: FunctionCallOutputPayload },
    McpToolCallOutput { call_id: String, result: Result<CallToolOutcome, String> },
    CustomToolCallOutput { call_id: String, output: String },
}

/// The item that an answer becomes in the conversation.
pub open spec fn answer_item(answer: ResponseInputItem) -> ResponseItemView {
    match answer {
        ResponseInputItem::Message { role, content } => ResponseItemView::Message {
            id: None,
            role: role@,
            content: content.deep_view(),
        },
        ResponseInputItem::FunctionCallOutput {
            call_id,
            output,
        } => ResponseItemView::FunctionCallOutput {
            call_id: call_id@,
            output: output.deep_view(),
        },
        ResponseInputItem::McpToolCallOutput {
            call_id,
            result,
        } => ResponseItemView::FunctionCallOutput {
            call_id: call_id@,
            output: match result {
                Ok(outcome) => tool_payload(outcome),
                Err(e) => FunctionCallOutputPayloadView { content: e@, success: Some(false) },
            },
        },
        ResponseInputItem::CustomToolCallOutput {
            call_id,
            output,
        } => ResponseItemView::CustomToolCallOutput { call_id: call_id@, output: output@ },
    }
}

impl ResponseInputItem {
    /// The item that this answer becomes in the conversation.
    pub fn to_item(&self) -> (r: ResponseItem)
        ensures
            r.deep_view() == answer_item(*self),
    {
        match self {
            ResponseInputItem::Message { role, content } => ResponseItem::Message {
                id: None,
                role: role.clone(),
                content: copy_content(content),
            },
            ResponseInputItem::FunctionCallOutput {
                call_id,
                output,
            } => ResponseItem::FunctionCallOutput {
                call_id: call_id.clone(),
                output: output.clone(),
            },
            ResponseInputItem::McpToolCallOutput {
                call_id,
                result,
            } => ResponseItem::FunctionCallOutput {
                call_id: call_id.clone(),
                output: match result {
                    Ok(outcome) => convert_call_tool_result_to_function_call_output_payload(
                        outcome,
                    ),
                    Err(e) => FunctionCallOutputPayload { content: e.clone(), success: Some(false) },
                },
            },
            ResponseInputItem::CustomToolCallOutput {
                call_id,
                output,
            } => ResponseItem::CustomToolCallOutput {
                call_id: call_id.clone(),
                output: output.clone(),
            },
        }
    }
}

/// What a user hands in.
#[derive(Debug, PartialEq, Eq)]
pub enum InputItem {
    Text { text: String },
    Image { image_url: String },
    LocalImage { path: String },
}

impl Clone for InputItem {
    fn clone(&self) -> (r: Self)
        ensures
            match (r, *self) {
                (InputItem::Text { text: a }, InputItem::Text { text: b }) => a@ == b@,
                (InputItem::Image { image_url: a }, InputItem::Image { image_url: b }) => a@ == b@,
                (InputItem::LocalImage { path: a }, InputItem::LocalImage { path: b }) => a@ == b@,
                _ => false,
            },
    {
        match self {
            InputItem::Text { text } => InputItem::Text { text: text.clone() },
            InputItem::Image { image_url } => InputItem::Image { image_url: image_url.clone() },
            InputItem::LocalImage { path } => InputItem::LocalImage { path: path.clone() },
        }
    }
}

} // verus!
