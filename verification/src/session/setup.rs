//! How a session begins: its state, the context of its turns, and
//! what its clients are told first.

use crate::paths;
use crate::plan_mode::config::PlanModeConfig;
use crate::plan_mode::session::PlanModeSession;
use crate::protocol::events::{Event, EventMsg};
use crate::protocol::items::{ResponseItem, ResponseItemView};
use crate::protocol::{AskForApproval, SandboxPolicy};
use crate::session::guidance::{guidance_lines, merge_subagent_user_instructions, merged_instructions};
use crate::session::history::{reconstruct_history_from_rollout, replayed, RolloutItem};
use crate::lines::joined;
use crate::session::state::{plan_mode_capabilities, McpToolInfo, SessionState, TurnContext};
use crate::subagents::inventory::SubagentInventory;
use crate::text::{push_str, string_of};
use vstd::prelude::*;

verus! {

/// What a session starts from: nothing, the record of a session that
/// it takes up again, or the record of a session that it branches
/// from.
#[derive(Debug, PartialEq, Eq)]
pub enum InitialHistory {
    New,
    Resumed(Vec<RolloutItem>),
    Forked(Vec<RolloutItem>),
}

/// What is to be written to the record of a session that begins.
#[derive(Debug, PartialEq, Eq)]
pub struct InitialRecord {
    /// Items of the conversation.
    pub items: Vec<ResponseItem>,
    /// Whether the whole record that the session branches from is to
    /// be written as well.
    pub copy_rollout: bool,
}

/// The conversation that a session starts with: the initial context
/// where it starts from nothing, else what the record replays to.
pub open spec fn initial_conversation(
    context: Seq<ResponseItemView>,
    history: InitialHistory,
) -> Seq<ResponseItemView> {
    match history {
        InitialHistory::New => context,
        InitialHistory::Resumed(items) => replayed(
            context,
            items.deep_view(),
            items.deep_view().len() as int,
        ),
        InitialHistory::Forked(items) => replayed(
            context,
            items.deep_view(),
            items.deep_view().len() as int,
        ),
    }
}

/// Gives a session its first conversation. A session that starts from
/// nothing records its initial context, and writes it down. One that
/// takes up or branches from a record has the conversation that the
/// record replays to; where it branches, the record is copied to its
/// own.
pub fn record_initial_history(
    state: &mut SessionState,
    context: Vec<ResponseItem>,
    history: &InitialHistory,
) -> (r: InitialRecord)
    ensures
        final(state).history.deep_view() == old(state).history.deep_view() + initial_conversation(
            context.deep_view(),
            *history,
        ),
        r.items.deep_view() == (if *history is New {
            context.deep_view()
        } else {
            Seq::empty()
        }),
        r.copy_rollout == (*history matches InitialHistory::Forked(items) && items@.len() > 0),
        *final(state) == (SessionState { history: final(state).history, ..*old(state) }),
        final(state).current_task == old(state).current_task,
        final(state).plan_mode == old(state).plan_mode,
        final(state).plan_mode_prompt_recorded == old(state).plan_mode_prompt_recorded,
{
    match history {
        InitialHistory::New => {
            state.history.record_items(&context);
            InitialRecord { items: context, copy_rollout: false }
        },
        InitialHistory::Resumed(items) => {
            let rebuilt = reconstruct_history_from_rollout(&context, items);
            state.history.record_items(&rebuilt);
            let none: Vec<ResponseItem> = Vec::new();
            proof {
                assert(none.deep_view() =~= Seq::<ResponseItemView>::empty());
            }
            InitialRecord { items: none, copy_rollout: false }
        },
        InitialHistory::Forked(items) => {
            let rebuilt = reconstruct_history_from_rollout(&context, items);
            state.history.record_items(&rebuilt);
            let none: Vec<ResponseItem> = Vec::new();
            proof {
                assert(none.deep_view() =~= Seq::<ResponseItemView>::empty());
            }
            InitialRecord { items: none, copy_rollout: items.len() > 0 }
        },
    }
}

/// What went wrong while a session was set up, without keeping it
/// from starting.
#[derive(Debug, PartialEq, Eq)]
pub struct StartupFacts {
    /// Why the slash commands could not be loaded.
    pub slash_commands_error: Option<String>,
    /// Why the MCP servers could not be reached at all.
    pub mcp_manager_error: Option<String>,
    /// The MCP servers whose clients failed to start, each with the
    /// reason.
    pub failed_clients: Vec<(String, String)>,
}

/// The texts of the errors that the client is told of after the
/// session is configured: for the slash commands, for the MCP servers
/// as a whole, and for the first `n` clients that failed.
pub open spec fn startup_error_texts(facts: StartupFacts, n: int) -> Seq<Seq<char>>
    decreases n,
{
    if n <= 0 {
        (match facts.slash_commands_error {
            Some(e) => seq!["Failed to load slash commands: "@ + e@],
            None => Seq::empty(),
        }) + (match facts.mcp_manager_error {
            Some(e) => seq!["Failed to create MCP connection manager: "@ + e@],
            None => Seq::empty(),
        })
    } else {
        startup_error_texts(facts, n - 1).push(
            "MCP client for `"@ + facts.failed_clients@[n - 1].0@ + "` failed to start: "@
                + facts.failed_clients@[n - 1].1@,
        )
    }
}

/// The texts of the errors that the events tell of, one by one; the
/// empty text for an event that tells of none.
pub open spec fn error_texts(events: Seq<Event>) -> Seq<Seq<char>> {
    events.map_values(
        |e: Event|
            match e.msg {
                EventMsg::Error { message } => message@,
                _ => Seq::empty(),
            },
    )
}

/// The events that tell the client what went wrong while the session
/// was set up. They speak for the session itself.
pub fn startup_errors(facts: &StartupFacts) -> (r: Vec<Event>)
    ensures
        error_texts(r@) == startup_error_texts(*facts, facts.failed_clients@.len() as int),
        forall|i: int| 0 <= i < r@.len() ==> (#[trigger] r@[i]).msg is Error && r@[i].id@.len() == 0,
{
    let mut out: Vec<Event> = Vec::new();
    proof {
        assert(error_texts(out@) =~= Seq::empty());
    }
    match &facts.slash_commands_error {
        Some(e) => {
            let mut m: Vec<char> = Vec::new();
            push_str(&mut m, "Failed to load slash commands: ");
            push_str(&mut m, e.as_str());
            out.push(Event { id: String::new(), msg: EventMsg::Error { message: string_of(&m) } });
        },
        None => {},
    }
    let ghost first = error_texts(out@);
    match &facts.mcp_manager_error {
        Some(e) => {
            let mut m: Vec<char> = Vec::new();
            push_str(&mut m, "Failed to create MCP connection manager: ");
            push_str(&mut m, e.as_str());
            out.push(Event { id: String::new(), msg: EventMsg::Error { message: string_of(&m) } });
            proof {
                assert(error_texts(out@) =~= first.push(
                    "Failed to create MCP connection manager: "@ + e@,
                ));
            }
        },
        None => {},
    }
    proof {
        assert(error_texts(out@) =~= startup_error_texts(*facts, 0));
    }
    let mut i: usize = 0;
    while i < facts.failed_clients.len()
        invariant
            i <= facts.failed_clients.len(),
            error_texts(out@) == startup_error_texts(*facts, i as int),
            forall|k: int|
                0 <= k < out@.len() ==> (#[trigger] out@[k]).msg is Error && out@[k].id@.len() == 0,
        decreases facts.failed_clients.len() - i,
    {
        let mut m: Vec<char> = Vec::new();
        push_str(&mut m, "MCP client for `");
        push_str(&mut m, facts.failed_clients[i].0.as_str());
        push_str(&mut m, "` failed to start: ");
        push_str(&mut m, facts.failed_clients[i].1.as_str());
        let ghost before = error_texts(out@);
        out.push(Event { id: String::new(), msg: EventMsg::Error { message: string_of(&m) } });
        proof {
            assert(error_texts(out@) =~= before.push(m@));
        }
        i += 1;
    }
    out
}

/// What a session is configured with.
#[derive(Debug)]
pub struct ConfigureSession {
    pub model: String,
    pub user_instructions: Option<String>,
    pub base_instructions: Option<String>,
    pub approval_policy: AskForApproval,
    pub sandbox_policy: SandboxPolicy,
    pub cwd: String,
}

/// What the configuration of the program says of a session.
#[derive(Debug)]
pub struct SessionSettings {
    pub plan_mode: PlanModeConfig,
    pub include_plan_tool: bool,
    pub include_apply_patch_tool: bool,
    /// Whether the sandbox of the configuration lets the network be
    /// reached at will.
    pub network_enabled: bool,
}

/// A session that has begun.
#[derive(Debug)]
pub struct NewSession {
    pub state: SessionState,
    pub turn_context: TurnContext,
    /// What the clients are told first, in order.
    pub events: Vec<Event>,
    pub record: InitialRecord,
}

/// Whether the events of a new session are in order: first that the
/// session is configured; then what went wrong while it was set up;
/// last, where the session begins in Plan Mode, that Plan Mode is on.
/// All of them speak for the session itself.
pub open spec fn opening_events(events: Seq<Event>, facts: StartupFacts, plan: bool) -> bool {
    let n = startup_error_texts(facts, facts.failed_clients@.len() as int).len() as int;
    &&& events.len() == 1 + n + (if plan {
        1int
    } else {
        0int
    })
    &&& events[0].msg is SessionConfigured
    &&& error_texts(events.subrange(1, 1 + n)) == startup_error_texts(
        facts,
        facts.failed_clients@.len() as int,
    )
    &&& forall|i: int| 1 <= i < 1 + n ==> (#[trigger] events[i]).msg is Error
    &&& plan ==> events[1 + n].msg is PlanModeActivated
    &&& forall|i: int| 0 <= i < events.len() ==> (#[trigger] events[i]).id@.len() == 0
}

/// Whether a session began as it is to begin, given whether its
/// working directory is absolute and how the directory is shown: a
/// session in a relative directory does not begin, and the error says
/// so; else the session begins with its first conversation, in Plan
/// Mode where the settings say so, with the context of its turns as
/// configured, and with its first events in order.
pub open spec fn begun(
    r: Result<NewSession, String>,
    configure: ConfigureSession,
    settings: SessionSettings,
    inventory: Option<&SubagentInventory>,
    facts: StartupFacts,
    initial_context: Seq<ResponseItemView>,
    history: InitialHistory,
    cwd_is_absolute: bool,
    cwd_shown: Seq<char>,
) -> bool {
    &&& !cwd_is_absolute ==> r is Err && r->Err_0@ == "cwd is not absolute: "@ + cwd_shown
    &&& cwd_is_absolute ==> r is Ok && ({
            let s = r->Ok_0;
            &&& s.state.history.deep_view() == initial_conversation(
                initial_context,
                history,
            )
            &&& s.state.current_task is None
            &&& s.state.plan_mode is Some == settings.plan_mode.plan_enabled
            &&& s.state.plan_mode_prompt_recorded == settings.plan_mode.plan_enabled
            &&& s.state.plan_mode is Some ==> s.state.plan_mode->0.entered_from
                == configure.approval_policy
            &&& s.turn_context.cwd == configure.cwd
            &&& s.turn_context.model == configure.model
            &&& s.turn_context.base_instructions == configure.base_instructions
            &&& s.turn_context.approval_policy == configure.approval_policy
            &&& s.turn_context.sandbox_policy == configure.sandbox_policy
            &&& !s.turn_context.is_review_mode
            &&& s.turn_context.include_plan_tool == (settings.plan_mode.plan_enabled
                || settings.include_plan_tool)
            &&& s.turn_context.include_apply_patch_tool == (!settings.plan_mode.plan_enabled
                && settings.include_apply_patch_tool)
            &&& s.turn_context.user_instructions.deep_view() == merged_instructions(
                configure.user_instructions.deep_view(),
                match inventory {
                    Some(inv) => if inv.deep_view().subagents.len() == 0 {
                        None
                    } else {
                        Some(joined(guidance_lines(inv.deep_view().subagents), "\n"@))
                    },
                    None => None,
                },
            )
            &&& opening_events(s.events@, facts, settings.plan_mode.plan_enabled)
        })
}

/// Begins a session, given whether its working directory is an
/// absolute path (`cwd_shown` is how the path is shown where it is
/// not). A session in a relative directory does not begin. Else the
/// session begins with the conversation that `record_initial_history`
/// gives it, in Plan Mode where the settings say so (with the plan
/// tool and without the patch tool then, and with the Plan Mode
/// prompt to be sent), and with the guidance for its sub-agents in the
/// instructions of the user.
pub fn configure_session(
    configure: ConfigureSession,
    settings: &SessionSettings,
    session_id: uuid::Uuid,
    tools: &Vec<McpToolInfo>,
    inventory: Option<&SubagentInventory>,
    facts: &StartupFacts,
    initial_context: Vec<ResponseItem>,
    history: &InitialHistory,
    cwd_is_absolute: bool,
    cwd_shown: &str,
) -> (r: Result<NewSession, String>)
    ensures
        begun(
            r,
            configure,
            *settings,
            inventory,
            *facts,
            initial_context.deep_view(),
            *history,
            cwd_is_absolute,
            cwd_shown@,
        ),
{
    if !cwd_is_absolute {
        let mut m: Vec<char> = Vec::new();
        push_str(&mut m, "cwd is not absolute: ");
        push_str(&mut m, cwd_shown);
        return Err(string_of(&m));
    }
    let ConfigureSession {
        model,
        user_instructions,
        base_instructions,
        approval_policy,
        sandbox_policy,
        cwd,
    } = configure;
    let user_instructions = merge_subagent_user_instructions(user_instructions, inventory);
    let mut state = SessionState::new();
    let plan = settings.plan_mode.plan_enabled;
    if plan {
        state.plan_mode = Some(
            PlanModeSession::new(
                session_id,
                approval_policy,
                plan_mode_capabilities(tools),
                &settings.plan_mode,
                settings.network_enabled,
            ),
        );
        state.plan_mode_prompt_recorded = false;
    }
    let turn_context = TurnContext {
        cwd,
        base_instructions,
        user_instructions,
        approval_policy,
        sandbox_policy,
        model,
        is_review_mode: false,
        include_plan_tool: plan || settings.include_plan_tool,
        include_apply_patch_tool: !plan && settings.include_apply_patch_tool,
    };
    let ghost h0 = state.history.deep_view();
    let record = record_initial_history(&mut state, initial_context, history);
    proof {
        assert(h0 + initial_conversation(initial_context.deep_view(), *history)
            =~= initial_conversation(initial_context.deep_view(), *history));
    }
    state.ensure_plan_mode_prompt_recorded();
    let mut events: Vec<Event> = Vec::new();
    events.push(Event { id: String::new(), msg: EventMsg::SessionConfigured });
    let mut errors = startup_errors(facts);
    let ghost errs = errors@;
    events.append(&mut errors);
    proof {
        assert(events@.subrange(1, 1 + errs.len() as int) =~= errs);
        assert(error_texts(errs).len() == errs.len());
    }
    match state.plan_mode_payload() {
        Some(session) => {
            events.push(
                Event { id: String::new(), msg: EventMsg::PlanModeActivated { session } },
            );
            proof {
                assert(events@.subrange(1, 1 + errs.len() as int) =~= errs);
            }
        },
        None => {},
    }
    Ok(NewSession { state, turn_context, events, record })
}

/// Begins a session (see `configure_session`) in the working
/// directory that it is configured with.
pub fn new_session(
    configure: ConfigureSession,
    settings: &SessionSettings,
    session_id: uuid::Uuid,
    tools: &Vec<McpToolInfo>,
    inventory: Option<&SubagentInventory>,
    facts: &StartupFacts,
    initial_context: Vec<ResponseItem>,
    history: &InitialHistory,
) -> (r: Result<NewSession, String>)
    ensures
        begun(
            r,
            configure,
            *settings,
            inventory,
            *facts,
            initial_context.deep_view(),
            *history,
            paths::path_is_absolute(configure.cwd@),
            paths::path_debug_text(configure.cwd@),
        ),
{
    let absolute = paths::is_absolute(configure.cwd.as_str());
    let shown = paths::debug_text(configure.cwd.as_str());
    configure_session(
        configure,
        settings,
        session_id,
        tools,
        inventory,
        facts,
        initial_context,
        history,
        absolute,
        shown.as_str(),
    )
}

} // verus!
