//! One command.

use crate::copying::copy_strings;
use crate::lines::{join, joined, string_texts};
use crate::slash_commands::metadata::{FrontmatterMetadata, FrontmatterMetadataView};
use crate::slash_commands::scope::{scope_text, CommandScope};
use crate::text::{push_str, string_of};
use vstd::prelude::*;

verus! {

#[derive(Debug, PartialEq, Eq)]
pub struct Command {
    pub scope: CommandScope,
    pub namespace: Vec<String>,
    pub name: String,
    pub metadata: FrontmatterMetadata,
    pub body: String,
    pub path: String,
}

pub struct CommandView {
    pub scope: CommandScope,
    pub namespace: Seq<Seq<char>>,
    pub name: Seq<char>,
    pub metadata: FrontmatterMetadataView,
    pub body: Seq<char>,
    pub path: Seq<char>,
}

impl DeepView for Command {
    type V = CommandView;

    open spec fn deep_view(&self) -> CommandView {
        CommandView {
            scope: self.scope,
            namespace: self.namespace.deep_view(),
            name: self.name@,
            metadata: self.metadata.deep_view(),
            body: self.body@,
            path: self.path@,
        }
    }
}

impl Clone for Command {
    fn clone(&self) -> (r: Self)
        ensures
            r.deep_view() == self.deep_view(),
    {
        Command {
            scope: self.scope,
            namespace: copy_strings(&self.namespace),
            name: self.name.clone(),
            metadata: self.metadata.clone(),
            body: self.body.clone(),
            path: self.path.clone(),
        }
    }
}

/// The name of a command within its scope: its namespace and its name,
/// joined by colons.
pub open spec fn qualified(c: CommandView) -> Seq<char> {
    if c.namespace.len() == 0 {
        c.name
    } else {
        joined(c.namespace.push(c.name), ":"@)
    }
}

/// The full name of a command: its scope, a colon, and its qualified
/// name.
pub open spec fn full(c: CommandView) -> Seq<char> {
    scope_text(c.scope) + ":"@ + qualified(c)
}

impl Command {
    pub fn qualified_name(&self) -> (r: String)
        ensures
            r@ == qualified(self.deep_view()),
    {
        if self.namespace.len() == 0 {
            return self.name.clone();
        }
        let mut parts = copy_strings(&self.namespace);
        let ghost held = parts.deep_view();
        parts.push(self.name.clone());
        proof {
            assert(parts.deep_view() =~= held.push(self.name@));
            assert(string_texts(parts@) =~= parts.deep_view());
        }
        join(&parts, ":")
    }

    pub fn full_name(&self) -> (r: String)
        ensures
            r@ == full(self.deep_view()),
    {
        let mut out: Vec<char> = Vec::new();
        push_str(&mut out, self.scope.as_str());
        push_str(&mut out, ":");
        let q = self.qualified_name();
        push_str(&mut out, q.as_str());
        proof {
            assert(out@ =~= full(self.deep_view()));
        }
        string_of(&out)
    }
}

} // verus!
