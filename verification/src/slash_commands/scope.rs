//! Where a command was found.

use vstd::prelude::*;

verus! {

#[derive(Clone, Copy, Debug, PartialEq, Eq, Hash, Structural)]
pub enum CommandScope {
    User,
    Project,
}

pub open spec fn scope_text(scope: CommandScope) -> Seq<char> {
    match scope {
        CommandScope::User => "user"@,
        CommandScope::Project => "project"@,
    }
}

impl CommandScope {
    pub fn as_str(self) -> (r: &'static str)
        ensures
            r@ == scope_text(self),
    {
        match self {
            CommandScope::User => "user",
            CommandScope::Project => "project",
        }
    }
}

} // verus!
