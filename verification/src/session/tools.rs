//! Which tool a call of the model is for, and what the call becomes.

use crate::paths;
use crate::protocol::events::{notice_of, notices_of, EventMsg};
use crate::protocol::items::{
    ContentItem, ContentItemView, LocalShellAction, ResponseInputItem, ResponseItem,
    ResponseItemView,
};
use crate::session::exec::ExecParams;
use crate::session::replies::{is_custom_reply, is_reply, reply, reply_about};
use crate::text::{push_str, same_text, string_of};
use vstd::prelude::*;

verus! {

/// The tools that a function call can be for.
#[derive(Debug, PartialEq, Eq)]
pub enum ToolCall {
    Shell,
    UnifiedExec,
    ViewImage,
    InvokeSubagent,
    ApplyPatch,
    UpdatePlan,
    ExecCommand,
    WriteStdin,
    Mcp { server: String, tool: String },
    Unsupported,
}

/// The tool that a name stands for, by its kind: 0 for the shell, 1
/// for the unified exec, 2 for viewing an image, 3 for a sub-agent, 4
/// for a patch, 5 for the plan, 6 for a command of an exec session, 7
/// for input to one; `None` for any other name.
pub open spec fn builtin_tool(name: Seq<char>) -> Option<int> {
    if name == "container.exec"@ || name == "shell"@ {
        Some(0)
    } else if name == "unified_exec"@ {
        Some(1)
    } else if name == "view_image"@ {
        Some(2)
    } else if name == "invoke_subagent"@ {
        Some(3)
    } else if name == "apply_patch"@ {
        Some(4)
    } else if name == "update_plan"@ {
        Some(5)
    } else if name == "exec_command"@ {
        Some(6)
    } else if name == "write_stdin"@ {
        Some(7)
    } else {
        None
    }
}

/// The kind of a tool, as `builtin_tool` counts; 8 for a tool of an
/// MCP server, 9 for none.
pub open spec fn tool_kind(t: ToolCall) -> int {
    match t {
        ToolCall::Shell => 0,
        ToolCall::UnifiedExec => 1,
        ToolCall::ViewImage => 2,
        ToolCall::InvokeSubagent => 3,
        ToolCall::ApplyPatch => 4,
        ToolCall::UpdatePlan => 5,
        ToolCall::ExecCommand => 6,
        ToolCall::WriteStdin => 7,
        ToolCall::Mcp { .. } => 8,
        ToolCall::Unsupported => 9,
    }
}

/// The tool that a function call is for. A name of the session's own
/// tools stands for that tool; any other name stands for the tool of
/// an MCP server where it reads as one (`mcp` holds the server and the
/// tool then), and for nothing otherwise.
pub fn classify_function_call(name: &str, mcp: Option<(String, String)>) -> (r: ToolCall)
    ensures
        match builtin_tool(name@) {
            Some(k) => tool_kind(r) == k,
            None => match mcp {
                Some(pair) => r == (ToolCall::Mcp { server: pair.0, tool: pair.1 }),
                None => r == ToolCall::Unsupported,
            },
        },
{
    if same_text(name, "container.exec") || same_text(name, "shell") {
        ToolCall::Shell
    } else if same_text(name, "unified_exec") {
        ToolCall::UnifiedExec
    } else if same_text(name, "view_image") {
        ToolCall::ViewImage
    } else if same_text(name, "invoke_subagent") {
        ToolCall::InvokeSubagent
    } else if same_text(name, "apply_patch") {
        ToolCall::ApplyPatch
    } else if same_text(name, "update_plan") {
        ToolCall::UpdatePlan
    } else if same_text(name, "exec_command") {
        ToolCall::ExecCommand
    } else if same_text(name, "write_stdin") {
        ToolCall::WriteStdin
    } else {
        match mcp {
            Some(pair) => ToolCall::Mcp { server: pair.0, tool: pair.1 },
            None => ToolCall::Unsupported,
        }
    }
}

/// The answer to a call for a tool that the session does not have.
pub fn unsupported_call(call_id: &str, name: &str) -> (r: ResponseInputItem)
    ensures
        is_reply(r, call_id@, "unsupported call: "@ + name@, None),
{
    reply_about(call_id, "unsupported call: ", name, None)
}

/// How a failure to read the arguments of a call is marked: for the
/// shell and for a patch the model is left to try again, without a
/// mark; for every other tool the call has failed.
pub open spec fn parse_failure_mark(t: ToolCall) -> Option<bool> {
    match t {
        ToolCall::Shell | ToolCall::ApplyPatch | ToolCall::UpdatePlan => None,
        _ => Some(false),
    }
}

/// The answer to a call whose arguments could not be read.
pub fn parse_failure(call_id: &str, tool: &ToolCall, error: &str) -> (r: ResponseInputItem)
    ensures
        is_reply(
            r,
            call_id@,
            "failed to parse function arguments: "@ + error@,
            parse_failure_mark(*tool),
        ),
{
    let mark = match tool {
        ToolCall::Shell | ToolCall::ApplyPatch | ToolCall::UpdatePlan => None,
        _ => Some(false),
    };
    reply_about(call_id, "failed to parse function arguments: ", error, mark)
}

/// The path that a turn means by a path of the model: the path joined
/// to the working directory of the turn, and that directory where no
/// path is given.
pub open spec fn resolved_path(cwd: Seq<char>, path: Option<Seq<char>>) -> Seq<char> {
    match path {
        Some(p) => paths::joined_path(cwd, p),
        None => cwd,
    }
}

/// The path that a turn means by a path of the model: the path itself
/// under the working directory of the turn, and that directory where
/// no path is given.
pub fn resolve_path(cwd: &str, path: Option<String>) -> (r: String)
    ensures
        r@ == resolved_path(cwd@, path.deep_view()),
{
    match path {
        Some(p) => paths::join(cwd, p.as_str()),
        None => String::from_str(cwd),
    }
}

/// What the shell tool was called with.
#[derive(Debug, PartialEq, Eq)]
pub struct ShellToolCallParams {
    pub command: Vec<String>,
    pub workdir: Option<String>,
    pub timeout_ms: Option<u64>,
    pub with_escalated_permissions: Option<bool>,
    pub justification: Option<String>,
}

/// What is to be run for a call of the shell tool, in the environment
/// given.
pub fn to_exec_params(params: ShellToolCallParams, cwd: &str, env: Vec<(String, String)>) -> (r:
    ExecParams)
    ensures
        r.command == params.command,
        r.timeout_ms == params.timeout_ms,
        r.env == env,
        r.with_escalated_permissions == params.with_escalated_permissions,
        r.justification == params.justification,
        r.cwd@ == resolved_path(cwd@, params.workdir.deep_view()),
{
    let ShellToolCallParams {
        command,
        workdir,
        timeout_ms,
        with_escalated_permissions,
        justification,
    } = params;
    ExecParams {
        command,
        cwd: resolve_path(cwd, workdir),
        timeout_ms,
        env,
        with_escalated_permissions,
        justification,
    }
}

/// What is to be run for a call of the shell tool whose arguments were
/// read, and the answer to one whose arguments were not.
pub fn parse_container_exec_arguments(
    decoded: Result<ShellToolCallParams, String>,
    cwd: &str,
    env: Vec<(String, String)>,
    call_id: &str,
) -> (r: Result<ExecParams, ResponseInputItem>)
    ensures
        match decoded {
            Ok(params) => r is Ok && r->Ok_0.command == params.command && r->Ok_0.timeout_ms
                == params.timeout_ms && r->Ok_0.justification == params.justification
                && r->Ok_0.with_escalated_permissions == params.with_escalated_permissions
                && r->Ok_0.env == env && r->Ok_0.cwd@ == resolved_path(
                cwd@,
                params.workdir.deep_view(),
            ),
            Err(e) => r is Err && is_reply(
                r->Err_0,
                call_id@,
                "failed to parse function arguments: "@ + e@,
                None,
            ),
        },
{
    match decoded {
        Ok(params) => Ok(to_exec_params(params, cwd, env)),
        Err(e) => Err(reply_about(call_id, "failed to parse function arguments: ", e.as_str(), None)),
    }
}

/// What is to be run for a patch that the model hands in: the patch
/// tool with the patch as its one argument, in the working directory
/// of the turn, without a timeout and with an empty environment.
pub fn patch_params(input: &str, cwd: &str) -> (r: ExecParams)
    ensures
        r.command.deep_view() == seq!["apply_patch"@, input@],
        r.cwd@ == cwd@,
        r.timeout_ms is None,
        r.env@.len() == 0,
        r.with_escalated_permissions is None,
        r.justification is None,
{
    let mut command: Vec<String> = Vec::new();
    command.push(String::from_str("apply_patch"));
    command.push(String::from_str(input));
    proof {
        assert(command.deep_view() =~= seq!["apply_patch"@, input@]);
    }
    ExecParams {
        command,
        cwd: String::from_str(cwd),
        timeout_ms: None,
        env: Vec::new(),
        with_escalated_permissions: None,
        justification: None,
    }
}

/// What is to be run for a shell call that the model made by itself.
pub fn local_shell_params(action: LocalShellAction) -> (r: ShellToolCallParams)
    ensures
        r.command == action.command,
        r.workdir == action.working_directory,
        r.timeout_ms == action.timeout_ms,
        r.with_escalated_permissions is None,
        r.justification is None,
{
    ShellToolCallParams {
        command: action.command,
        workdir: action.working_directory,
        timeout_ms: action.timeout_ms,
        with_escalated_permissions: None,
        justification: None,
    }
}

/// The call id under which a shell call of the model is answered: its
/// call id, else its id.
pub open spec fn effective_call_id(call_id: Option<Seq<char>>, id: Option<Seq<char>>) -> Option<
    Seq<char>,
> {
    match call_id {
        Some(c) => Some(c),
        None => id,
    }
}

/// Where an item of the model's answer goes.
#[derive(Debug)]
pub enum ItemRoute {
    /// A function call, to be told apart by its name.
    Function { name: String, arguments: String, call_id: String },
    /// A command for the exec pipeline.
    Exec { params: ShellToolCallParams, call_id: String },
    /// A patch for the exec pipeline, to be answered as a custom tool
    /// call.
    CustomPatch { input: String, call_id: String },
    /// An answer that is known already.
    Reply(ResponseInputItem),
    /// Nothing to answer; the messages are for the client.
    Events(Vec<EventMsg>),
}

/// What the client is told of an item that needs no answer (see
/// `notice_of`): each text that an assistant put out, each summary of
/// a reasoning, its raw content where that is to be shown, and the
/// end of a web search.
pub open spec fn item_notices(item: ResponseItemView, show_raw: bool) -> Seq<
    Option<(int, Seq<char>, Seq<char>)>,
> {
    match item {
        ResponseItemView::Message { role, content, .. } => if role == "assistant"@ {
            output_notices(content, content.len())
        } else {
            Seq::empty()
        },
        ResponseItemView::Reasoning { summary, content, .. } => summary.map_values(
            |t: Seq<char>| Some((1int, t, Seq::<char>::empty())),
        ) + (match content {
            Some(raw) => if show_raw {
                raw.map_values(|t: Seq<char>| Some((2int, t, Seq::<char>::empty())))
            } else {
                Seq::empty()
            },
            None => Seq::empty(),
        }),
        ResponseItemView::WebSearchCall { id, query, .. } => seq![
            Some(
                (
                    8int,
                    match id {
                        Some(i) => i,
                        None => Seq::<char>::empty(),
                    },
                    query,
                ),
            ),
        ],
        _ => Seq::empty(),
    }
}

/// What the client is told of the first `n` parts of a message: each
/// text that was put out.
pub open spec fn output_notices(content: Seq<ContentItemView>, n: nat) -> Seq<
    Option<(int, Seq<char>, Seq<char>)>,
>
    decreases n,
{
    if n == 0 || n > content.len() {
        Seq::empty()
    } else {
        match content[n - 1] {
            ContentItemView::OutputText { text } => output_notices(content, (n - 1) as nat).push(
                Some((0int, text, Seq::<char>::empty())),
            ),
            _ => output_notices(content, (n - 1) as nat),
        }
    }
}

fn push_texts(out: &mut Vec<EventMsg>, texts: &Vec<String>, raw: bool)
    ensures
        notices_of(final(out)@) == notices_of(old(out)@) + texts.deep_view().map_values(
            |t: Seq<char>|
                Some(
                    (
                        if raw {
                            2int
                        } else {
                            1int
                        },
                        t,
                        Seq::<char>::empty(),
                    ),
                ),
        ),
{
    let ghost before = notices_of(out@);
    let ghost f = |t: Seq<char>|
        Some(
            (
                if raw {
                    2int
                } else {
                    1int
                },
                t,
                Seq::<char>::empty(),
            ),
        );
    let mut i: usize = 0;
    proof {
        assert(notices_of(out@) =~= before + texts.deep_view().take(0).map_values(f));
    }
    while i < texts.len()
        invariant
            i <= texts.len(),
            f == (|t: Seq<char>|
                Some(
                    (
                        if raw {
                            2int
                        } else {
                            1int
                        },
                        t,
                        Seq::<char>::empty(),
                    ),
                )),
            notices_of(out@) == before + texts.deep_view().take(i as int).map_values(f),
        decreases texts.len() - i,
    {
        let ghost o0 = out@;
        if raw {
            out.push(EventMsg::AgentReasoningRawContent { text: texts[i].clone() });
        } else {
            out.push(EventMsg::AgentReasoning { text: texts[i].clone() });
        }
        proof {
            assert(out@ =~= o0.push(out@.last()));
            assert(notices_of(out@) =~= notices_of(o0).push(notice_of(out@.last())));
            assert(texts.deep_view().take(i + 1) =~= texts.deep_view().take(i as int).push(
                texts@[i as int]@,
            ));
            assert(notices_of(out@) =~= before + texts.deep_view().take(i + 1).map_values(f));
        }
        i += 1;
    }
    proof {
        assert(texts.deep_view().take(texts.len() as int) =~= texts.deep_view());
    }
}

/// The messages that tell the client of an item that needs no answer.
pub fn item_messages(item: &ResponseItem, show_raw: bool) -> (r: Vec<EventMsg>)
    ensures
        notices_of(r@) == item_notices(item.deep_view(), show_raw),
{
    let mut out: Vec<EventMsg> = Vec::new();
    proof {
        assert(notices_of(out@) =~= Seq::empty());
    }
    match item {
        ResponseItem::Message { role, content, .. } => {
            if same_text(role.as_str(), "assistant") {
                let mut i: usize = 0;
                while i < content.len()
                    invariant
                        i <= content.len(),
                        notices_of(out@) == output_notices(content.deep_view(), i as nat),
                    decreases content.len() - i,
                {
                    let ghost o0 = out@;
                    match &content[i] {
                        ContentItem::OutputText { text } => {
                            out.push(EventMsg::AgentMessage { message: text.clone() });
                            proof {
                                assert(out@ =~= o0.push(out@.last()));
                                assert(notices_of(out@) =~= notices_of(o0).push(
                                    notice_of(out@.last()),
                                ));
                            }
                        },
                        _ => {},
                    }
                    i += 1;
                }
            }
        },
        ResponseItem::Reasoning { summary, content, .. } => {
            push_texts(&mut out, summary, false);
            match content {
                Some(raw) => {
                    if show_raw {
                        push_texts(&mut out, raw, true);
                    }
                },
                None => {},
            }
            proof {
                assert(notices_of(out@) =~= item_notices(item.deep_view(), show_raw));
            }
        },
        ResponseItem::WebSearchCall { id, query, .. } => {
            let call_id = match id {
                Some(i) => i.clone(),
                None => String::new(),
            };
            out.push(EventMsg::WebSearchEnd { call_id, query: query.clone() });
            proof {
                assert(notices_of(out@) =~= item_notices(item.deep_view(), show_raw));
            }
        },
        _ => {},
    }
    out
}

/// Where an item goes (see `route_response_item`), by its kind: 0 for
/// a function call, 1 for a command, 2 for a patch that a custom tool
/// call hands in, 3 for an answer that is known already, 4 for an item
/// that needs no answer.
pub open spec fn route_kind(item: ResponseItemView) -> int {
    match item {
        ResponseItemView::FunctionCall { .. } => 0,
        ResponseItemView::LocalShellCall { id, call_id, .. } => if effective_call_id(call_id, id)
            is Some {
            1
        } else {
            3
        },
        ResponseItemView::CustomToolCall { name, .. } => if name == "apply_patch"@ {
            2
        } else {
            3
        },
        _ => 4,
    }
}

/// Sends an item of the model's answer on its way. A function call is
/// to be told apart by its name. A shell call becomes a command under
/// its call id, else under its id; one that has neither is answered
/// at once. A custom tool call is a patch, or it is answered as
/// unsupported. Of every other item only the client is told, and in a
/// task that checks code not even of a message.
pub fn route_response_item(item: ResponseItem, is_review_mode: bool, show_raw: bool) -> (r:
    ItemRoute)
    ensures
        match r {
            ItemRoute::Function { name, arguments, call_id } => route_kind(item.deep_view()) == 0
                && name@ == item.deep_view()->FunctionCall_name && arguments@
                == item.deep_view()->FunctionCall_arguments && call_id@
                == item.deep_view()->FunctionCall_call_id,
            ItemRoute::Exec { params, call_id } => route_kind(item.deep_view()) == 1 && Some(
                call_id@,
            ) == effective_call_id(
                item.deep_view()->LocalShellCall_call_id,
                item.deep_view()->LocalShellCall_id,
            ) && params.command.deep_view() == item.deep_view()->LocalShellCall_action.command
                && params.workdir.deep_view()
                == item.deep_view()->LocalShellCall_action.working_directory && params.timeout_ms
                == item.deep_view()->LocalShellCall_action.timeout_ms
                && params.with_escalated_permissions is None && params.justification is None,
            ItemRoute::CustomPatch { input, call_id } => route_kind(item.deep_view()) == 2
                && input@ == item.deep_view()->CustomToolCall_input && call_id@
                == item.deep_view()->CustomToolCall_call_id,
            ItemRoute::Reply(answer) => route_kind(item.deep_view()) == 3 && (match item.deep_view() {
                ResponseItemView::CustomToolCall { call_id, name, .. } => is_custom_reply(
                    answer,
                    call_id,
                    "unsupported custom tool call: "@ + name,
                ),
                _ => is_reply(
                    answer,
                    Seq::empty(),
                    "LocalShellCall without call_id or id"@,
                    None,
                ),
            }),
            ItemRoute::Events(msgs) => route_kind(item.deep_view()) == 4 && notices_of(msgs@) == (
            if is_review_mode && item is Message {
                Seq::empty()
            } else {
                item_notices(item.deep_view(), show_raw)
            }),
        },
{
    match item {
        ResponseItem::FunctionCall { name, arguments, call_id, .. } => ItemRoute::Function {
            name,
            arguments,
            call_id,
        },
        ResponseItem::LocalShellCall { id, call_id, action, .. } => {
            let effective = match call_id {
                Some(c) => Some(c),
                None => id,
            };
            match effective {
                Some(call_id) => {
                    let params = local_shell_params(action);
                    ItemRoute::Exec { params, call_id }
                },
                None => {
                    let unknown = String::new();
                    ItemRoute::Reply(
                        reply(
                            unknown.as_str(),
                            String::from_str("LocalShellCall without call_id or id"),
                            None,
                        ),
                    )
                },
            }
        },
        ResponseItem::CustomToolCall { call_id, name, input, .. } => {
            if same_text(name.as_str(), "apply_patch") {
                ItemRoute::CustomPatch { input, call_id }
            } else {
                let mut m: Vec<char> = Vec::new();
                push_str(&mut m, "unsupported custom tool call: ");
                push_str(&mut m, name.as_str());
                ItemRoute::Reply(
                    ResponseInputItem::CustomToolCallOutput { call_id, output: string_of(&m) },
                )
            }
        },
        ResponseItem::Message { id, role, content } => {
            if is_review_mode {
                let msgs: Vec<EventMsg> = Vec::new();
                proof {
                    assert(notices_of(msgs@) =~= Seq::empty());
                }
                ItemRoute::Events(msgs)
            } else {
                let item = ResponseItem::Message { id, role, content };
                ItemRoute::Events(item_messages(&item, show_raw))
            }
        },
        other => {
            let msgs = item_messages(&other, show_raw);
            ItemRoute::Events(msgs)
        },
    }
}

} // verus!
