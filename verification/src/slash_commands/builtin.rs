//! The commands that are built in.

use crate::copying::copy_opt_string;
use crate::slash_commands::command::{full, qualified, Command};
use crate::slash_commands::scope::{scope_text, CommandScope};
use vstd::prelude::*;

verus! {

/// The built-in commands, in the order in which they are offered.
#[derive(Clone, Copy, Debug, PartialEq, Eq, Hash, Structural)]
pub enum SlashCommand {
    Model,
    Approvals,
    Help,
    New,
    Init,
    Compact,
    Diff,
    Mention,
    Status,
    Mcp,
    Logout,
    Quit,
}

pub open spec fn command_text(c: SlashCommand) -> Seq<char> {
    match c {
        SlashCommand::Model => "model"@,
        SlashCommand::Approvals => "approvals"@,
        SlashCommand::Help => "help"@,
        SlashCommand::New => "new"@,
        SlashCommand::Init => "init"@,
        SlashCommand::Compact => "compact"@,
        SlashCommand::Diff => "diff"@,
        SlashCommand::Mention => "mention"@,
        SlashCommand::Status => "status"@,
        SlashCommand::Mcp => "mcp"@,
        SlashCommand::Logout => "logout"@,
        SlashCommand::Quit => "quit"@,
    }
}

pub open spec fn description_text(c: SlashCommand) -> Seq<char> {
    match c {
        SlashCommand::New => "start a new chat during a conversation"@,
        SlashCommand::Init => "create an AGENTS.md file with instructions for Codex"@,
        SlashCommand::Compact => "summarize conversation to prevent hitting the context limit"@,
        SlashCommand::Quit => "exit Codex"@,
        SlashCommand::Diff => "show git diff (including untracked files)"@,
        SlashCommand::Mention => "mention a file"@,
        SlashCommand::Status => "show current session configuration and token usage"@,
        SlashCommand::Model => "choose what model and reasoning effort to use"@,
        SlashCommand::Approvals => "choose what Codex can do without approval"@,
        SlashCommand::Help => "show slash command help and reload custom commands"@,
        SlashCommand::Mcp => "list configured MCP tools"@,
        SlashCommand::Logout => "log out of Codex"@,
    }
}

/// A command may run while a task is in progress unless it changes the
/// conversation or the configuration.
pub open spec fn usable_during_task(c: SlashCommand) -> bool {
    match c {
        SlashCommand::New => false,
        SlashCommand::Init => false,
        SlashCommand::Compact => false,
        SlashCommand::Model => false,
        SlashCommand::Approvals => false,
        SlashCommand::Logout => false,
        SlashCommand::Diff => true,
        SlashCommand::Mention => true,
        SlashCommand::Status => true,
        SlashCommand::Mcp => true,
        SlashCommand::Quit => true,
        SlashCommand::Help => true,
    }
}

pub open spec fn all_builtin() -> Seq<SlashCommand> {
    seq![
        SlashCommand::Model,
        SlashCommand::Approvals,
        SlashCommand::Help,
        SlashCommand::New,
        SlashCommand::Init,
        SlashCommand::Compact,
        SlashCommand::Diff,
        SlashCommand::Mention,
        SlashCommand::Status,
        SlashCommand::Mcp,
        SlashCommand::Logout,
        SlashCommand::Quit,
    ]
}

impl SlashCommand {
    /// What the command does, as shown to the user.
    pub fn description(self) -> (r: &'static str)
        ensures
            r@ == description_text(self),
    {
        match self {
            SlashCommand::New => "start a new chat during a conversation",
            SlashCommand::Init => "create an AGENTS.md file with instructions for Codex",
            SlashCommand::Compact => "summarize conversation to prevent hitting the context limit",
            SlashCommand::Quit => "exit Codex",
            SlashCommand::Diff => "show git diff (including untracked files)",
            SlashCommand::Mention => "mention a file",
            SlashCommand::Status => "show current session configuration and token usage",
            SlashCommand::Model => "choose what model and reasoning effort to use",
            SlashCommand::Approvals => "choose what Codex can do without approval",
            SlashCommand::Help => "show slash command help and reload custom commands",
            SlashCommand::Mcp => "list configured MCP tools",
            SlashCommand::Logout => "log out of Codex",
        }
    }

    /// The command as it is typed, without the slash.
    pub fn command(self) -> (r: &'static str)
        ensures
            r@ == command_text(self),
    {
        match self {
            SlashCommand::Model => "model",
            SlashCommand::Approvals => "approvals",
            SlashCommand::Help => "help",
            SlashCommand::New => "new",
            SlashCommand::Init => "init",
            SlashCommand::Compact => "compact",
            SlashCommand::Diff => "diff",
            SlashCommand::Mention => "mention",
            SlashCommand::Status => "status",
            SlashCommand::Mcp => "mcp",
            SlashCommand::Logout => "logout",
            SlashCommand::Quit => "quit",
        }
    }

    pub fn available_during_task(self) -> (r: bool)
        ensures
            r == usable_during_task(self),
    {
        match self {
            SlashCommand::New => false,
            SlashCommand::Init => false,
            SlashCommand::Compact => false,
            SlashCommand::Model => false,
            SlashCommand::Approvals => false,
            SlashCommand::Logout => false,
            SlashCommand::Diff => true,
            SlashCommand::Mention => true,
            SlashCommand::Status => true,
            SlashCommand::Mcp => true,
            SlashCommand::Quit => true,
            SlashCommand::Help => true,
        }
    }
}

/// All built-in commands, each with the text it is typed as, in the
/// order in which they are offered.
pub fn built_in_slash_commands() -> (r: Vec<(&'static str, SlashCommand)>)
    ensures
        r@.len() == all_builtin().len(),
        forall|i: int|
            0 <= i < r@.len() ==> (#[trigger] r@[i]).1 == all_builtin()[i] && r@[i].0@
                == command_text(all_builtin()[i]),
{
    let mut r: Vec<(&'static str, SlashCommand)> = Vec::new();
    r.push((SlashCommand::Model.command(), SlashCommand::Model));
    r.push((SlashCommand::Approvals.command(), SlashCommand::Approvals));
    r.push((SlashCommand::Help.command(), SlashCommand::Help));
    r.push((SlashCommand::New.command(), SlashCommand::New));
    r.push((SlashCommand::Init.command(), SlashCommand::Init));
    r.push((SlashCommand::Compact.command(), SlashCommand::Compact));
    r.push((SlashCommand::Diff.command(), SlashCommand::Diff));
    r.push((SlashCommand::Mention.command(), SlashCommand::Mention));
    r.push((SlashCommand::Status.command(), SlashCommand::Status));
    r.push((SlashCommand::Mcp.command(), SlashCommand::Mcp));
    r.push((SlashCommand::Logout.command(), SlashCommand::Logout));
    r.push((SlashCommand::Quit.command(), SlashCommand::Quit));
    r
}

/// A command from a file, as it is offered next to the built-in ones.
#[derive(Debug)]
pub struct CustomSlashCommand {
    pub full_name: String,
    pub qualified_name: String,
    pub description: Option<String>,
    pub argument_hint: Option<String>,
    pub scope: CommandScope,
}

impl Clone for CustomSlashCommand {
    fn clone(&self) -> (r: Self)
        ensures
            r.full_name@ == self.full_name@,
            r.qualified_name@ == self.qualified_name@,
            r.description.deep_view() == self.description.deep_view(),
            r.argument_hint.deep_view() == self.argument_hint.deep_view(),
            r.scope == self.scope,
    {
        CustomSlashCommand {
            full_name: self.full_name.clone(),
            qualified_name: self.qualified_name.clone(),
            description: copy_opt_string(&self.description),
            argument_hint: copy_opt_string(&self.argument_hint),
            scope: self.scope,
        }
    }
}

impl CustomSlashCommand {
    pub fn from_model(command: &Command) -> (r: Self)
        ensures
            r.full_name@ == full(command.deep_view()),
            r.qualified_name@ == qualified(command.deep_view()),
            r.description.deep_view() == command.deep_view().metadata.description,
            r.argument_hint.deep_view() == command.deep_view().metadata.argument_hint,
            r.scope == command.scope,
    {
        CustomSlashCommand {
            full_name: command.full_name(),
            qualified_name: command.qualified_name(),
            description: copy_opt_string(&command.metadata.description),
            argument_hint: copy_opt_string(&command.metadata.argument_hint),
            scope: command.scope,
        }
    }

    pub fn scope_label(&self) -> (r: &'static str)
        ensures
            r@ == scope_text(self.scope),
    {
        self.scope.as_str()
    }
}

} // verus!
