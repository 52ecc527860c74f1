//! The lifecycle events, and what an event tells a hook.

use crate::clock::{now, Timestamp};
use crate::text::{char_lower, chars_of, lowered, same_chars};
use vstd::prelude::*;

verus! {

#[derive(Clone, Copy, Debug, PartialEq, Eq, Hash, Structural)]
pub enum HookEvent {
    PreToolUse,
    PostToolUse,
    UserPromptSubmit,
    Notification,
    Stop,
    SubagentStop,
    PreCompact,
    SessionStart,
    SessionEnd,
}

impl DeepView for HookEvent {
    type V = HookEvent;

    open spec fn deep_view(&self) -> HookEvent {
        *self
    }
}

pub const EVENT_COUNT: usize = 9;

/// The position of an event in the order in which they are listed.
pub open spec fn event_index(e: HookEvent) -> int {
    match e {
        HookEvent::PreToolUse => 0,
        HookEvent::PostToolUse => 1,
        HookEvent::UserPromptSubmit => 2,
        HookEvent::Notification => 3,
        HookEvent::Stop => 4,
        HookEvent::SubagentStop => 5,
        HookEvent::PreCompact => 6,
        HookEvent::SessionStart => 7,
        HookEvent::SessionEnd => 8,
    }
}

pub fn event_order(e: HookEvent) -> (r: usize)
    ensures
        r == event_index(e),
        r < EVENT_COUNT,
{
    match e {
        HookEvent::PreToolUse => 0,
        HookEvent::PostToolUse => 1,
        HookEvent::UserPromptSubmit => 2,
        HookEvent::Notification => 3,
        HookEvent::Stop => 4,
        HookEvent::SubagentStop => 5,
        HookEvent::PreCompact => 6,
        HookEvent::SessionStart => 7,
        HookEvent::SessionEnd => 8,
    }
}

/// The event at a position.
pub fn event_at(i: usize) -> (r: HookEvent)
    requires
        i < EVENT_COUNT,
    ensures
        event_index(r) == i,
{
    if i == 0 {
        HookEvent::PreToolUse
    } else if i == 1 {
        HookEvent::PostToolUse
    } else if i == 2 {
        HookEvent::UserPromptSubmit
    } else if i == 3 {
        HookEvent::Notification
    } else if i == 4 {
        HookEvent::Stop
    } else if i == 5 {
        HookEvent::SubagentStop
    } else if i == 6 {
        HookEvent::PreCompact
    } else if i == 7 {
        HookEvent::SessionStart
    } else {
        HookEvent::SessionEnd
    }
}

/// The name of an event.
pub open spec fn event_name(e: HookEvent) -> Seq<char> {
    match e {
        HookEvent::PreToolUse => "PreToolUse"@,
        HookEvent::PostToolUse => "PostToolUse"@,
        HookEvent::UserPromptSubmit => "UserPromptSubmit"@,
        HookEvent::Notification => "Notification"@,
        HookEvent::Stop => "Stop"@,
        HookEvent::SubagentStop => "SubagentStop"@,
        HookEvent::PreCompact => "PreCompact"@,
        HookEvent::SessionStart => "SessionStart"@,
        HookEvent::SessionEnd => "SessionEnd"@,
    }
}

pub fn format_event(e: HookEvent) -> (r: String)
    ensures
        r@ == event_name(e),
{
    match e {
        HookEvent::PreToolUse => String::from_str("PreToolUse"),
        HookEvent::PostToolUse => String::from_str("PostToolUse"),
        HookEvent::UserPromptSubmit => String::from_str("UserPromptSubmit"),
        HookEvent::Notification => String::from_str("Notification"),
        HookEvent::Stop => String::from_str("Stop"),
        HookEvent::SubagentStop => String::from_str("SubagentStop"),
        HookEvent::PreCompact => String::from_str("PreCompact"),
        HookEvent::SessionStart => String::from_str("SessionStart"),
        HookEvent::SessionEnd => String::from_str("SessionEnd"),
    }
}

/// The event that a name given on a command line stands for: the
/// event's name in lower case, with or without hyphens between its
/// words. Case does not matter.
pub open spec fn event_named(name: Seq<char>) -> Option<HookEvent> {
    let n = lowered(name);
    if n == "pretooluse"@ || n == "pre-tool-use"@ {
        Some(HookEvent::PreToolUse)
    } else if n == "posttooluse"@ || n == "post-tool-use"@ {
        Some(HookEvent::PostToolUse)
    } else if n == "userpromptsubmit"@ || n == "user-prompt-submit"@ {
        Some(HookEvent::UserPromptSubmit)
    } else if n == "notification"@ {
        Some(HookEvent::Notification)
    } else if n == "stop"@ {
        Some(HookEvent::Stop)
    } else if n == "subagentstop"@ || n == "subagent-stop"@ {
        Some(HookEvent::SubagentStop)
    } else if n == "precompact"@ || n == "pre-compact"@ {
        Some(HookEvent::PreCompact)
    } else if n == "sessionstart"@ || n == "session-start"@ {
        Some(HookEvent::SessionStart)
    } else if n == "sessionend"@ || n == "session-end"@ {
        Some(HookEvent::SessionEnd)
    } else {
        None
    }
}

fn is_text(v: &Vec<char>, literal: &str) -> (r: bool)
    ensures
        r == (v@ == literal@),
{
    let l = chars_of(literal);
    same_chars(v, &l)
}

/// Reads the name of an event.
pub fn parse_hook_event(name: &str) -> (r: Option<HookEvent>)
    ensures
        r == event_named(name@),
{
    let v = chars_of(name);
    let mut n: Vec<char> = Vec::new();
    let mut i: usize = 0;
    while i < v.len()
        invariant
            i <= v.len(),
            n@ == lowered(v@).take(i as int),
        decreases v.len() - i,
    {
        n.push(char_lower(v[i]));
        proof {
            assert(n@ =~= lowered(v@).take(i + 1));
        }
        i += 1;
    }
    proof {
        assert(lowered(v@).take(v.len() as int) =~= lowered(v@));
    }
    if is_text(&n, "pretooluse") || is_text(&n, "pre-tool-use") {
        Some(HookEvent::PreToolUse)
    } else if is_text(&n, "posttooluse") || is_text(&n, "post-tool-use") {
        Some(HookEvent::PostToolUse)
    } else if is_text(&n, "userpromptsubmit") || is_text(&n, "user-prompt-submit") {
        Some(HookEvent::UserPromptSubmit)
    } else if is_text(&n, "notification") {
        Some(HookEvent::Notification)
    } else if is_text(&n, "stop") {
        Some(HookEvent::Stop)
    } else if is_text(&n, "subagentstop") || is_text(&n, "subagent-stop") {
        Some(HookEvent::SubagentStop)
    } else if is_text(&n, "precompact") || is_text(&n, "pre-compact") {
        Some(HookEvent::PreCompact)
    } else if is_text(&n, "sessionstart") || is_text(&n, "session-start") {
        Some(HookEvent::SessionStart)
    } else if is_text(&n, "sessionend") || is_text(&n, "session-end") {
        Some(HookEvent::SessionEnd)
    } else {
        None
    }
}

#[derive(Clone, Copy, Debug, PartialEq, Eq, Structural)]
pub enum SandboxMode {
    WorkspaceWrite,
    DangerFullAccess,
    ReadOnly,
}

#[derive(Debug, PartialEq, Eq)]
pub struct SandboxContext {
    pub mode: SandboxMode,
    pub network_access: bool,
    pub writable_roots: Vec<String>,
}

impl Clone for SandboxContext {
    fn clone(&self) -> (r: Self)
        ensures
            r.mode == self.mode,
            r.network_access == self.network_access,
            r.writable_roots.deep_view() == self.writable_roots.deep_view(),
    {
        SandboxContext {
            mode: self.mode,
            network_access: self.network_access,
            writable_roots: crate::copying::copy_strings(&self.writable_roots),
        }
    }
}

/// What a hook is told of an event. `event_context` holds JSON text;
/// `None` stands for JSON `null`.
#[derive(Debug)]
pub struct HookEventPayload {
    pub schema_version: String,
    pub event: HookEvent,
    pub session_id: uuid::Uuid,
    pub timestamp: Timestamp,
    pub workspace_root: String,
    pub cwd: String,
    pub transcript_path: Option<String>,
    pub schema: Option<String>,
    pub sandbox: Option<SandboxContext>,
    pub event_context: Option<String>,
}

impl HookEventPayload {
    /// A payload for `event` in schema version 1.0, with nothing else
    /// filled in, for the session `session_id`, stamped with the
    /// present instant.
    pub fn with_event(event: HookEvent, session_id: uuid::Uuid) -> (r: Self)
        ensures
            r.schema_version@ == "1.0"@,
            r.event == event,
            r.session_id == session_id,
            r.workspace_root@.len() == 0,
            r.cwd@.len() == 0,
            r.transcript_path is None,
            r.schema is None,
            r.sandbox is None,
            r.event_context is None,
    {
        HookEventPayload {
            schema_version: String::from_str("1.0"),
            event,
            session_id,
            timestamp: now(),
            workspace_root: String::new(),
            cwd: String::new(),
            transcript_path: None,
            schema: None,
            sandbox: None,
            event_context: None,
        }
    }
}

} // verus!
