//! The run of a sub-agent: what it is told, what is taken from what
//! it says, and what the caller gets back.

use crate::clock::{compact_utc_text, to_compact_utc, Timestamp};
use crate::lines::{join, join_chars, joined, lines_of, split_lines, string_texts, texts};
use crate::protocol::events::{Event, EventMsg};
use crate::subagents::invocation::{InvocationSession, InvocationSessionView};
use crate::subagents::runner::{
    PreparedSubagentInvocation, PreparedSubagentInvocationView, SubagentInvocationError,
};
use crate::text::{chars_of, push_all, push_str, string_of, trim, trimmed};
use vstd::prelude::*;

verus! {

/// What a sub-agent is told: its instructions without white space
/// around them; then the request that came with the call, where it
/// says anything; then the tools that it may use, where it may use
/// any.
pub open spec fn instruction_block(
    definition_instructions: Seq<char>,
    extra: Option<Seq<char>>,
    effective_tools: Seq<Seq<char>>,
) -> Seq<char> {
    trimmed(definition_instructions) + (match extra {
        Some(e) => if trimmed(e).len() == 0 {
            Seq::empty()
        } else {
            "\n\nAdditional request:\n"@ + trimmed(e)
        },
        None => Seq::empty(),
    }) + (if effective_tools.len() == 0 {
        Seq::empty()
    } else {
        "\n\nAllowed tools: "@ + joined(effective_tools, ", "@)
    })
}

/// Words what a sub-agent is told.
pub fn format_instruction_block(
    definition_instructions: &str,
    extra: Option<&str>,
    record: &PreparedSubagentInvocation,
) -> (r: String)
    ensures
        r@ == instruction_block(
            definition_instructions@,
            match extra {
                Some(e) => Some(e@),
                None => None,
            },
            record.deep_view().record.effective_tools,
        ),
{
    let mut out: Vec<char> = Vec::new();
    let base = trim(definition_instructions);
    push_str(&mut out, base.as_str());
    let ghost first = out@;
    match extra {
        Some(e) => {
            let kept = trim(e);
            if !kept.as_str().is_empty() {
                push_str(&mut out, "\n\nAdditional request:\n");
                push_str(&mut out, kept.as_str());
            }
        },
        None => {},
    }
    let ghost second = out@;
    if record.record.effective_tools.len() > 0 {
        push_str(&mut out, "\n\nAllowed tools: ");
        let listed = join(&record.record.effective_tools, ", ");
        push_str(&mut out, listed.as_str());
        proof {
            assert(string_texts(record.record.effective_tools@)
                =~= record.record.effective_tools.deep_view());
        }
    }
    proof {
        let tools = record.deep_view().record.effective_tools;
        assert(tools == record.record.effective_tools.deep_view());
        let middle = match extra {
            Some(e) => if trimmed(e@).len() == 0 {
                Seq::<char>::empty()
            } else {
                "\n\nAdditional request:\n"@ + trimmed(e@)
            },
            None => Seq::<char>::empty(),
        };
        assert(second =~= first + middle);
        let tail = if tools.len() == 0 {
            Seq::<char>::empty()
        } else {
            "\n\nAllowed tools: "@ + joined(tools, ", "@)
        };
        assert(out@ =~= second + tail);
    }
    string_of(&out)
}

/// Where the model finds the last transcript of a sub-agent.
pub fn artifact_uri(name: &str) -> (r: String)
    ensures
        r@ == "agents://"@ + name@ + "/sessions/latest"@,
{
    let mut out: Vec<char> = Vec::new();
    push_str(&mut out, "agents://");
    push_str(&mut out, name);
    push_str(&mut out, "/sessions/latest");
    string_of(&out)
}

/// What is kept of what a sub-agent says, after one more message: the
/// text that is being put together, and the last message. A message
/// of the agent takes the place of both. A step of a message is added
/// to the text, which is the last message then. At the end of the
/// task the last message is the one that the end names, else the
/// text, else what it was.
pub open spec fn captured(
    msg: EventMsg,
    buffer: Option<Seq<char>>,
    last: Option<Seq<char>>,
) -> (Option<Seq<char>>, Option<Seq<char>>, bool) {
    match msg {
        EventMsg::AgentMessage { message } => (Some(message@), Some(message@), false),
        EventMsg::AgentMessageDelta { delta } => {
            let text = (match buffer {
                Some(b) => b,
                None => Seq::empty(),
            }) + delta@;
            (Some(text), Some(text), false)
        },
        EventMsg::TaskComplete { last_agent_message } => (
            buffer,
            match last_agent_message {
                Some(m) => Some(m@),
                None => match buffer {
                    Some(b) => Some(b),
                    None => last,
                },
            },
            true,
        ),
        _ => (buffer, last, false),
    }
}

/// Takes from a message of a sub-agent what is kept of it (see
/// `captured`), and says whether the task of the agent is over.
pub fn capture_agent_output(
    msg: &EventMsg,
    message_buffer: &mut Option<String>,
    last_message: &mut Option<String>,
) -> (done: bool)
    ensures
        (final(message_buffer).deep_view(), final(last_message).deep_view(), done) == captured(
            *msg,
            old(message_buffer).deep_view(),
            old(last_message).deep_view(),
        ),
{
    match msg {
        EventMsg::AgentMessage { message } => {
            *message_buffer = Some(message.clone());
            *last_message = Some(message.clone());
            false
        },
        EventMsg::AgentMessageDelta { delta } => {
            let mut text: Vec<char> = Vec::new();
            match message_buffer {
                Some(b) => {
                    push_str(&mut text, b.as_str());
                },
                None => {},
            }
            push_str(&mut text, delta.as_str());
            proof {
                let before = match old(message_buffer).deep_view() {
                    Some(b) => b,
                    None => Seq::<char>::empty(),
                };
                assert(text@ =~= before + delta@);
            }
            *message_buffer = Some(string_of(&text));
            *last_message = Some(string_of(&text));
            false
        },
        EventMsg::TaskComplete { last_agent_message } => {
            match last_agent_message {
                Some(m) => {
                    *last_message = Some(m.clone());
                },
                None => match message_buffer {
                    Some(b) => {
                        *last_message = Some(b.clone());
                    },
                    None => {},
                },
            }
            true
        },
        _ => false,
    }
}

/// The run of a sub-agent on its way.
#[derive(Debug)]
pub struct SubagentRun {
    /// What the agent was told.
    pub instructions: String,
    /// The model that answers, if one is named.
    pub resolved_model: Option<String>,
    /// The events of the run so far.
    pub transcript: Vec<Event>,
    pub message_buffer: Option<String>,
    pub last_message: Option<String>,
}

/// The model of a run: that of the request, else that of the agent,
/// else that of the session.
pub open spec fn run_model(prepared: PreparedSubagentInvocationView, base_model: Seq<char>) -> Seq<
    char,
> {
    match prepared.session.resolved_model {
        Some(m) => m,
        None => match prepared.record.effective_model {
            Some(m) => m,
            None => base_model,
        },
    }
}

/// Begins the run of a sub-agent. An agent without instructions is
/// invalid and does not run. Else the run begins with what the agent
/// is told and with the model that answers (see `run_model`), and
/// with nothing heard yet.
pub fn begin_subagent_run(prepared: &PreparedSubagentInvocation, base_model: &str) -> (r: Result<
    SubagentRun,
    SubagentInvocationError,
>)
    ensures
        match r {
            Err(e) => trimmed(prepared.deep_view().record.definition.instructions).len() == 0
                && e.deep_view() == crate::subagents::runner::SubagentInvocationErrorView::InvalidSubagent(
                prepared.deep_view().record.definition.name,
            ),
            Ok(run) => trimmed(prepared.deep_view().record.definition.instructions).len() > 0
                && run.instructions@ == instruction_block(
                prepared.deep_view().record.definition.instructions,
                prepared.deep_view().session.extra_instructions,
                prepared.deep_view().record.effective_tools,
            ) && run.resolved_model.deep_view() == Some(
                run_model(prepared.deep_view(), base_model@),
            ) && run.transcript@.len() == 0 && run.message_buffer is None
                && run.last_message is None,
        },
{
    let kept = trim(prepared.record.definition.instructions.as_str());
    if kept.as_str().is_empty() {
        return Err(
            SubagentInvocationError::InvalidSubagent(prepared.record.definition.name.clone()),
        );
    }
    let resolved_model = match &prepared.session.resolved_model {
        Some(m) => m.clone(),
        None => match &prepared.record.effective_model {
            Some(m) => m.clone(),
            None => String::from_str(base_model),
        },
    };
    let extra: Option<&str> = match &prepared.session.extra_instructions {
        Some(e) => Some(e.as_str()),
        None => None,
    };
    let block = format_instruction_block(
        prepared.record.definition.instructions.as_str(),
        extra,
        prepared,
    );
    Ok(
        SubagentRun {
            instructions: block,
            resolved_model: Some(resolved_model),
            transcript: Vec::new(),
            message_buffer: None,
            last_message: None,
        },
    )
}

/// What follows an event of a run.
#[derive(Debug)]
pub enum Observation {
    /// The run goes on.
    Continue,
    /// The task of the agent is over.
    Done,
    /// The run failed.
    Failed(SubagentInvocationError),
}

/// Takes up an event of the session in which the sub-agent runs. An
/// event of another submission than the one that set the agent to
/// work is passed over. Every other event joins the transcript, and
/// what the agent says is kept (see `captured`). An error ends the
/// run as failed, with its message; the end of the task ends it.
pub fn observe_event(run: &mut SubagentRun, event: Event, submit_id: &str) -> (r: Observation)
    ensures
        final(run).instructions == old(run).instructions,
        final(run).resolved_model == old(run).resolved_model,
        event.id@ != submit_id@ ==> r is Continue && *final(run) == *old(run),
        event.id@ == submit_id@ ==> {
            let kept = captured(
                event.msg,
                old(run).message_buffer.deep_view(),
                old(run).last_message.deep_view(),
            );
            &&& final(run).transcript@ == old(run).transcript@.push(event)
            &&& final(run).message_buffer.deep_view() == kept.0
            &&& final(run).last_message.deep_view() == kept.1
            &&& match event.msg {
                EventMsg::Error { message } => r matches Observation::Failed(e) && e.deep_view()
                    == crate::subagents::runner::SubagentInvocationErrorView::ExecutionFailed(
                    message@,
                ),
                _ => if kept.2 {
                    r is Done
                } else {
                    r is Continue
                },
            }
        },
{
    if !crate::text::same_text(event.id.as_str(), submit_id) {
        return Observation::Continue;
    }
    let failure = match &event.msg {
        EventMsg::Error { message } => Some(message.clone()),
        _ => None,
    };
    let done = capture_agent_output(&event.msg, &mut run.message_buffer, &mut run.last_message);
    run.transcript.push(event);
    match failure {
        Some(message) => Observation::Failed(SubagentInvocationError::ExecutionFailed(message)),
        None => if done {
            Observation::Done
        } else {
            Observation::Continue
        },
    }
}

/// The first four lines of a text, at most.
pub open spec fn preview(text: Seq<char>) -> Seq<char> {
    let lines = lines_of(text);
    joined(
        if lines.len() > 4 {
            lines.take(4)
        } else {
            lines
        },
        "\n"@,
    )
}

/// What a sub-agent is said to have answered where it has answered
/// nothing.
pub open spec fn silent_summary(name: Seq<char>) -> Seq<char> {
    "Subagent '"@ + name + "' completed without returning a final message."@
}

/// The request of a run that is over: its summary is the last message
/// of the agent, else the words that it gave none; its one artifact
/// is where the last transcript is found; its model is that of the
/// run; and its log has gained what the agent was told, in short, and
/// where the transcript was saved.
pub open spec fn finished_session(
    session: InvocationSessionView,
    instructions: Seq<char>,
    resolved_model: Option<Seq<char>>,
    last_message: Option<Seq<char>>,
    artifact_path: Seq<char>,
) -> InvocationSessionView {
    InvocationSessionView {
        summary: Some(
            match last_message {
                Some(m) => m,
                None => silent_summary(session.subagent_name),
            },
        ),
        detail_artifacts: seq!["agents://"@ + session.subagent_name + "/sessions/latest"@],
        resolved_model,
        execution_log: session.execution_log.push("instructions: "@ + preview(instructions)).push(
            "transcript saved to "@ + artifact_path,
        ),
        ..session
    }
}

/// Ends the run of a sub-agent whose transcript was saved at
/// `artifact_path`, and gives the request back with what came of it
/// (see `finished_session`).
pub fn finish_subagent_run(
    prepared: PreparedSubagentInvocation,
    run: SubagentRun,
    artifact_path: &str,
) -> (r: InvocationSession)
    ensures
        r.deep_view() == finished_session(
            prepared.deep_view().session,
            run.instructions@,
            run.resolved_model.deep_view(),
            run.last_message.deep_view(),
            artifact_path@,
        ),
{
    let mut session = prepared.session;
    let SubagentRun { instructions, resolved_model, transcript: _, message_buffer: _, last_message } =
        run;
    let summary = match last_message {
        Some(m) => m,
        None => {
            let mut s: Vec<char> = Vec::new();
            push_str(&mut s, "Subagent '");
            push_str(&mut s, session.subagent_name.as_str());
            push_str(&mut s, "' completed without returning a final message.");
            string_of(&s)
        },
    };
    let text = chars_of(instructions.as_str());
    let lines = split_lines(&text);
    let mut first: Vec<Vec<char>> = Vec::new();
    let mut i: usize = 0;
    while i < lines.len() && i < 4
        invariant
            i <= lines.len(),
            i <= 4,
            texts(first@) == texts(lines@).take(i as int),
        decreases lines.len() - i,
    {
        let ghost before = texts(first@);
        first.push(lines[i].clone());
        proof {
            assert(texts(first@) =~= before.push(lines@[i as int]@));
            assert(texts(lines@).take(i + 1) =~= texts(lines@).take(i as int).push(
                lines@[i as int]@,
            ));
        }
        i += 1;
    }
    proof {
        if lines.len() <= 4 {
            assert(texts(lines@).take(lines.len() as int) =~= texts(lines@));
        }
    }
    let sep = chars_of("\n");
    let shown = join_chars(&first, &sep);
    let mut line: Vec<char> = Vec::new();
    push_str(&mut line, "instructions: ");
    push_all(&mut line, &shown);
    let mut saved: Vec<char> = Vec::new();
    push_str(&mut saved, "transcript saved to ");
    push_str(&mut saved, artifact_path);
    let ghost log0 = session.execution_log.deep_view();
    session.execution_log.push(string_of(&line));
    session.execution_log.push(string_of(&saved));
    let mut artifacts: Vec<String> = Vec::new();
    artifacts.push(artifact_uri(session.subagent_name.as_str()));
    proof {
        assert(session.execution_log.deep_view() =~= log0.push(line@).push(saved@));
        assert(artifacts.deep_view() =~= seq![
            "agents://"@ + session.subagent_name@ + "/sessions/latest"@,
        ]);
    }
    session.summary = Some(summary);
    session.detail_artifacts = artifacts;
    session.resolved_model = resolved_model;
    session
}

/// The name of the file that holds the transcript of a run that ended
/// at the instant given: the instant in UTC, in the form
/// `yyyymmddThhmmssZ`, with the ending `.json`.
pub fn transcript_file_name(ended: Timestamp) -> (r: Option<String>)
    ensures
        r.deep_view() == (match compact_utc_text(ended.millis as int) {
            Some(stamp) => Some(stamp + ".json"@),
            None => None,
        }),
{
    match to_compact_utc(ended) {
        Some(stamp) => {
            let mut out: Vec<char> = Vec::new();
            push_str(&mut out, stamp.as_str());
            push_str(&mut out, ".json");
            Some(string_of(&out))
        },
        None => None,
    }
}

} // verus!
