//! What can go wrong with slash commands.

use crate::text::{push_str, string_of};
use vstd::prelude::*;

verus! {

#[derive(Debug, PartialEq, Eq)]
pub enum SlashCommandError {
    Io(String),
    DuplicateCommand { name: String },
    InvalidNamespace { component: String },
    InvalidTemplate(String),
    Interpolation(String),
}

pub enum SlashCommandErrorView {
    Io(Seq<char>),
    DuplicateCommand { name: Seq<char> },
    InvalidNamespace { component: Seq<char> },
    InvalidTemplate(Seq<char>),
    Interpolation(Seq<char>),
}

impl DeepView for SlashCommandError {
    type V = SlashCommandErrorView;

    open spec fn deep_view(&self) -> SlashCommandErrorView {
        match self {
            SlashCommandError::Io(m) => SlashCommandErrorView::Io(m@),
            SlashCommandError::DuplicateCommand { name } => SlashCommandErrorView::DuplicateCommand {
                name: name@,
            },
            SlashCommandError::InvalidNamespace {
                component,
            } => SlashCommandErrorView::InvalidNamespace { component: component@ },
            SlashCommandError::InvalidTemplate(m) => SlashCommandErrorView::InvalidTemplate(m@),
            SlashCommandError::Interpolation(m) => SlashCommandErrorView::Interpolation(m@),
        }
    }
}

pub open spec fn slash_error_text(e: SlashCommandErrorView) -> Seq<char> {
    match e {
        SlashCommandErrorView::Io(m) => "I/O error while reading slash commands: "@ + m,
        SlashCommandErrorView::DuplicateCommand { name } => "duplicate command '"@ + name
            + "' detected"@,
        SlashCommandErrorView::InvalidNamespace { component } => "invalid namespace component '"@
            + component + "'"@,
        SlashCommandErrorView::InvalidTemplate(m) => "invalid template: "@ + m,
        SlashCommandErrorView::Interpolation(m) => "interpolation error: "@ + m,
    }
}

impl SlashCommandError {
    /// The text of the error.
    pub fn message(&self) -> (r: String)
        ensures
            r@ == slash_error_text(self.deep_view()),
    {
        let mut out: Vec<char> = Vec::new();
        match self {
            SlashCommandError::Io(m) => {
                push_str(&mut out, "I/O error while reading slash commands: ");
                push_str(&mut out, m.as_str());
            },
            SlashCommandError::DuplicateCommand { name } => {
                push_str(&mut out, "duplicate command '");
                push_str(&mut out, name.as_str());
                push_str(&mut out, "' detected");
            },
            SlashCommandError::InvalidNamespace { component } => {
                push_str(&mut out, "invalid namespace component '");
                push_str(&mut out, component.as_str());
                push_str(&mut out, "'");
            },
            SlashCommandError::InvalidTemplate(m) => {
                push_str(&mut out, "invalid template: ");
                push_str(&mut out, m.as_str());
            },
            SlashCommandError::Interpolation(m) => {
                push_str(&mut out, "interpolation error: ");
                push_str(&mut out, m.as_str());
            },
        }
        proof {
            assert(out@ =~= slash_error_text(self.deep_view()));
        }
        string_of(&out)
    }
}

} // verus!
