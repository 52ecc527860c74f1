//! From a line of input to the text that a slash command stands for.

use crate::protocol::items::InputItem;
use crate::session::submission::{first_text, first_text_of, SlashResolution};
use crate::slash_commands::command::{Command, CommandView};
use crate::slash_commands::command_line::{command_line_of, parse_command_line};
use crate::slash_commands::context::InterpolationContext;
use crate::slash_commands::errors::SlashCommandError;
use crate::slash_commands::interpolation::{interpolate_template, interpolated};
use crate::slash_commands::registry::{
    lookup_outcome, CommandLookup, CommandLookupView, CommandRegistry,
};
use crate::text::{push_str, string_of};
use vstd::prelude::*;

verus! {

/// A command with its template filled in.
#[derive(Debug)]
pub struct CommandInvocation {
    pub command: Command,
    pub rendered_body: String,
}

/// Why a line of input gave no invocation.
#[derive(Debug, PartialEq, Eq)]
pub enum InvocationError {
    NotCommand,
    NotFound { name: String, suggestions: Vec<String> },
    Ambiguous { name: String, matches: Vec<String> },
    Interpolation(String),
}

pub enum InvocationView {
    Invoked { command: CommandView, rendered_body: Seq<char> },
    NotCommand,
    NotFound { name: Seq<char>, suggestions: Seq<Seq<char>> },
    Ambiguous { name: Seq<char>, matches: Seq<Seq<char>> },
    Interpolation(Seq<char>),
}

/// What came of a line of input.
pub open spec fn invocation_view(r: Result<CommandInvocation, InvocationError>) -> InvocationView {
    match r {
        Ok(i) => InvocationView::Invoked {
            command: i.command.deep_view(),
            rendered_body: i.rendered_body@,
        },
        Err(InvocationError::NotCommand) => InvocationView::NotCommand,
        Err(InvocationError::NotFound { name, suggestions }) => InvocationView::NotFound {
            name: name@,
            suggestions: suggestions.deep_view(),
        },
        Err(InvocationError::Ambiguous { name, matches }) => InvocationView::Ambiguous {
            name: name@,
            matches: matches.deep_view(),
        },
        Err(InvocationError::Interpolation(m)) => InvocationView::Interpolation(m@),
    }
}

/// What a line of input comes to, given the commands of a registry. A
/// line that is no invocation, or that names no command, is none. Else
/// the name is looked up: it may be unknown (with suggestions) or
/// stand for several commands. The template of the command that it
/// names is filled in with the arguments of the line; where that
/// fails, the error says why.
pub open spec fn resolved(commands: Seq<CommandView>, input: Seq<char>) -> InvocationView {
    match command_line_of(input) {
        None => InvocationView::NotCommand,
        Some(line) => if line.0.len() == 0 {
            InvocationView::NotCommand
        } else {
            match lookup_outcome(commands, line.0) {
                CommandLookupView::NotFound { suggestions } => InvocationView::NotFound {
                    name: line.0,
                    suggestions,
                },
                CommandLookupView::Ambiguous { matches } => InvocationView::Ambiguous {
                    name: line.0,
                    matches,
                },
                CommandLookupView::Command(command) => match interpolated(command.body, line.1) {
                    Ok(text) => InvocationView::Invoked { command, rendered_body: text },
                    Err(m) => InvocationView::Interpolation("interpolation error: "@ + m),
                },
            }
        },
    }
}

/// Resolves a line of input against the commands of a registry.
pub fn resolve(registry: &CommandRegistry, input: &str) -> (r: Result<
    CommandInvocation,
    InvocationError,
>)
    ensures
        invocation_view(r) == resolved(registry.deep_view().commands, input@),
{
    let (name, args) = match parse_command_line(input) {
        Some(pair) => pair,
        None => {
            return Err(InvocationError::NotCommand);
        },
    };
    if name.as_str().is_empty() {
        return Err(InvocationError::NotCommand);
    }
    match registry.lookup(name.as_str()) {
        CommandLookup::NotFound { suggestions } => Err(
            InvocationError::NotFound { name, suggestions },
        ),
        CommandLookup::Ambiguous { matches } => Err(InvocationError::Ambiguous { name, matches }),
        CommandLookup::Command(command) => {
            let ctx = InterpolationContext::new(args);
            match interpolate_template(command.body.as_str(), &ctx) {
                Ok(rendered_body) => Ok(CommandInvocation { command, rendered_body }),
                Err(e) => {
                    let text = match &e {
                        SlashCommandError::Interpolation(m) => {
                            let mut out: Vec<char> = Vec::new();
                            push_str(&mut out, "interpolation error: ");
                            push_str(&mut out, m.as_str());
                            string_of(&out)
                        },
                        other => other.message(),
                    };
                    Err(InvocationError::Interpolation(text))
                },
            }
        },
    }
}

/// What the first text of an input stands for as a slash command, for
/// a session with the commands of `registry`, or without slash
/// commands.
pub fn resolve_input(registry: Option<&CommandRegistry>, items: &Vec<InputItem>) -> (r:
    SlashResolution)
    ensures
        match registry {
            None => r is NotCommand,
            Some(reg) => match first_text_of(items@, 0) {
                None => r is NotCommand,
                Some(text) => match resolved(reg.deep_view().commands, text) {
                    InvocationView::Invoked { command, rendered_body } => r matches SlashResolution::Resolved {
                        rendered_body: body,
                        model,
                    } && body@ == rendered_body && model.deep_view() == command.metadata.model,
                    InvocationView::NotCommand => r is NotCommand,
                    InvocationView::NotFound { name, suggestions } => r matches SlashResolution::NotFound {
                        name: n,
                        suggestions: s,
                    } && n@ == name && s.deep_view() == suggestions,
                    InvocationView::Ambiguous { matches, .. } => r matches SlashResolution::Ambiguous {
                        matches: m,
                    } && m.deep_view() == matches,
                    InvocationView::Interpolation(message) => r matches SlashResolution::Interpolation(
                        m,
                    ) && m@ == message,
                },
            },
        },
{
    let reg = match registry {
        Some(reg) => reg,
        None => {
            return SlashResolution::NotCommand;
        },
    };
    let text = match first_text(items) {
        Some(t) => t,
        None => {
            return SlashResolution::NotCommand;
        },
    };
    match resolve(reg, text.as_str()) {
        Ok(invocation) => SlashResolution::Resolved {
            rendered_body: invocation.rendered_body,
            model: invocation.command.metadata.model,
        },
        Err(InvocationError::NotCommand) => SlashResolution::NotCommand,
        Err(InvocationError::NotFound { name, suggestions }) => SlashResolution::NotFound {
            name,
            suggestions,
        },
        Err(InvocationError::Ambiguous { name: _, matches }) => SlashResolution::Ambiguous {
            matches,
        },
        Err(InvocationError::Interpolation(m)) => SlashResolution::Interpolation(m),
    }
}

} // verus!
