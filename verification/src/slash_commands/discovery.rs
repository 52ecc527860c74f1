//! Command files become commands of a registry.

use crate::clock::Timestamp;
use crate::paths::PathPart;
use crate::slash_commands::command::{full, Command, CommandView};
use crate::slash_commands::errors::{SlashCommandError, SlashCommandErrorView};
use crate::slash_commands::namespace::{namespace_from_parts, namespace_of};
use crate::slash_commands::parsing::{parse_template, template_outcome, RawFrontmatter};
use crate::slash_commands::performance::{record_load_metrics, LoadCounter};
use crate::slash_commands::registry::{by_full_name, CommandRegistry, CommandRegistryView};
use crate::slash_commands::scope::CommandScope;
use crate::subagents::discovery::{is_markdown_extension, markdown_extension};
use crate::text::{push_str, string_of};
use vstd::prelude::*;

verus! {

/// A file found under a directory of commands.
#[derive(Debug)]
pub struct CommandFile {
    pub path: String,
    /// The extension of the file's name, if it has one.
    pub extension: Option<String>,
    /// The name of the file without its extension, where that is
    /// valid Unicode.
    pub stem: Option<String>,
    /// The directories between the directory of commands and the
    /// file, as `std::path` gives them.
    pub namespace_parts: Vec<PathPart>,
    pub contents: String,
    /// The front matter of the file as the decoder gave it.
    pub front_matter: Result<RawFrontmatter, String>,
}

/// The command that a file defines, or why it defines none; `None`
/// for a file that is no Markdown file. The template is read first,
/// then the namespace, then the name.
pub open spec fn command_of(scope: CommandScope, file: CommandFile) -> Option<
    Result<CommandView, SlashCommandErrorView>,
> {
    if !is_markdown_extension(file.extension.deep_view()) {
        None
    } else {
        Some(
            match template_outcome(file.contents@, file.front_matter) {
                Err(e) => Err(e),
                Ok(parsed) => match namespace_of(
                    file.namespace_parts.deep_view(),
                    file.namespace_parts@.len() as int,
                ) {
                    Err(e) => Err(e),
                    Ok(namespace) => match file.stem {
                        None => Err(
                            SlashCommandErrorView::InvalidTemplate(
                                "command file name is not valid UTF-8: "@ + file.path@,
                            ),
                        ),
                        Some(name) => Ok(
                            CommandView {
                                scope,
                                namespace,
                                name: name@,
                                metadata: parsed.0,
                                body: parsed.1,
                                path: file.path@,
                            },
                        ),
                    },
                },
            },
        )
    }
}

/// The commands of a registry after the first `n` files were taken
/// in, the number of commands that they added, and the error that
/// ended it, if one did: a file that defines no command for a reason,
/// or a command whose full name is taken. After an error no further
/// file is looked at.
pub open spec fn scanned(
    commands: Seq<CommandView>,
    scope: CommandScope,
    files: Seq<CommandFile>,
    n: int,
) -> (Seq<CommandView>, int, Option<SlashCommandErrorView>)
    decreases n,
{
    if n <= 0 {
        (commands, 0, None)
    } else {
        let before = scanned(commands, scope, files, n - 1);
        if before.2 is Some {
            before
        } else {
            match command_of(scope, files[n - 1]) {
                None => before,
                Some(Err(e)) => (before.0, before.1, Some(e)),
                Some(Ok(c)) => if by_full_name(before.0, full(c)) is Some {
                    (
                        before.0,
                        before.1,
                        Some(SlashCommandErrorView::DuplicateCommand { name: full(c) }),
                    )
                } else {
                    (before.0.push(c), before.1 + 1, None)
                },
            }
        }
    }
}

fn command_from(scope: CommandScope, file: &CommandFile) -> (r: Option<
    Result<Command, SlashCommandError>,
>)
    ensures
        match command_of(scope, *file) {
            None => r is None,
            Some(Ok(c)) => r matches Some(Ok(made)) && made.deep_view() == c,
            Some(Err(e)) => r matches Some(Err(err)) && err.deep_view() == e,
        },
{
    if !markdown_extension(&file.extension) {
        return None;
    }
    let parsed = match parse_template(file.contents.as_str(), &file.front_matter) {
        Ok(p) => p,
        Err(e) => {
            return Some(Err(e));
        },
    };
    let namespace = match namespace_from_parts(&file.namespace_parts) {
        Ok(n) => n,
        Err(e) => {
            return Some(Err(e));
        },
    };
    let name = match &file.stem {
        Some(s) => s.clone(),
        None => {
            let mut m: Vec<char> = Vec::new();
            push_str(&mut m, "command file name is not valid UTF-8: ");
            push_str(&mut m, file.path.as_str());
            return Some(Err(SlashCommandError::InvalidTemplate(string_of(&m))));
        },
    };
    Some(
        Ok(
            Command {
                scope,
                namespace,
                name,
                metadata: parsed.metadata,
                body: parsed.body,
                path: file.path.clone(),
            },
        ),
    )
}

/// Takes the commands that the files define into the registry, in the
/// order of the files (see `scanned`), and says how many there were.
/// The first error ends it, and the commands taken in before it stay.
pub fn scan_files(registry: &mut CommandRegistry, scope: CommandScope, files: &Vec<CommandFile>) -> (r:
    Result<usize, SlashCommandError>)
    ensures
        ({
            let out = scanned(old(registry).deep_view().commands, scope, files@, files@.len() as int);
            &&& final(registry).deep_view() == (CommandRegistryView {
                commands: out.0,
                ..old(registry).deep_view()
            })
            &&& match out.2 {
                Some(e) => r matches Err(err) && err.deep_view() == e,
                None => r is Ok && r->Ok_0 as int == out.1,
            }
        }),
{
    let ghost start = registry.deep_view();
    let mut inserted: usize = 0;
    let mut i: usize = 0;
    while i < files.len()
        invariant
            i <= files.len(),
            inserted <= i,
            scanned(start.commands, scope, files@, i as int) == (
                registry.deep_view().commands,
                inserted as int,
                None::<SlashCommandErrorView>,
            ),
            registry.deep_view().last_loaded == start.last_loaded,
            start == old(registry).deep_view(),
        decreases files.len() - i,
    {
        match command_from(scope, &files[i]) {
            None => {},
            Some(Err(e)) => {
                proof {
                    assert(scanned(start.commands, scope, files@, i + 1) == (
                        registry.deep_view().commands,
                        inserted as int,
                        Some(e.deep_view()),
                    ));
                    lemma_error_stays(start.commands, scope, files@, i + 1, files@.len() as int);
                    assert(registry.deep_view() == (CommandRegistryView {
                        commands: registry.deep_view().commands,
                        ..start
                    }));
                }
                return Err(e);
            },
            Some(Ok(command)) => {
                let ghost before = registry.deep_view();
                match registry.insert(command) {
                    Ok(_) => {
                        inserted += 1;
                    },
                    Err(e) => {
                        proof {
                            assert(scanned(start.commands, scope, files@, i + 1) == (
                                before.commands,
                                inserted as int,
                                Some(e.deep_view()),
                            ));
                            lemma_error_stays(
                                start.commands,
                                scope,
                                files@,
                                i + 1,
                                files@.len() as int,
                            );
                            assert(registry.deep_view() == (CommandRegistryView {
                                commands: before.commands,
                                ..start
                            }));
                        }
                        return Err(e);
                    },
                }
            },
        }
        i += 1;
    }
    proof {
        assert(registry.deep_view() == (CommandRegistryView {
            commands: registry.deep_view().commands,
            ..start
        }));
    }
    Ok(inserted)
}

proof fn lemma_error_stays(
    commands: Seq<CommandView>,
    scope: CommandScope,
    files: Seq<CommandFile>,
    n: int,
    m: int,
)
    requires
        0 <= n <= m,
        scanned(commands, scope, files, n).2 is Some,
    ensures
        scanned(commands, scope, files, m) == scanned(commands, scope, files, n),
    decreases m - n,
{
    if n < m {
        lemma_error_stays(commands, scope, files, n, m - 1);
    }
}

/// Loads the commands of a registry anew: those that it held are
/// dropped; the files of the project are taken in, then those of the
/// user (see `scan_files`; a directory that is not there has no
/// files); the instant of the load is noted, and the load is counted.
/// The first error ends it before the instant is noted.
pub fn reload_from(
    registry: &mut CommandRegistry,
    counter: &mut LoadCounter,
    project: &Vec<CommandFile>,
    user: &Vec<CommandFile>,
    at: Timestamp,
) -> (r: Result<usize, SlashCommandError>)
    ensures
        ({
            let first = scanned(
                Seq::empty(),
                CommandScope::Project,
                project@,
                project@.len() as int,
            );
            let second = scanned(first.0, CommandScope::User, user@, user@.len() as int);
            if first.2 is Some {
                &&& r matches Err(err) && err.deep_view() == first.2->0
                &&& final(registry).deep_view().commands == first.0
                &&& final(registry).deep_view().last_loaded == old(registry).deep_view().last_loaded
                &&& *final(counter) == *old(counter)
            } else if second.2 is Some {
                &&& r matches Err(err) && err.deep_view() == second.2->0
                &&& final(registry).deep_view().commands == second.0
                &&& final(registry).deep_view().last_loaded == old(registry).deep_view().last_loaded
                &&& *final(counter) == *old(counter)
            } else {
                &&& r is Ok
                &&& r->Ok_0 as int == (if first.1 + second.1 > usize::MAX {
                    usize::MAX as int
                } else {
                    first.1 + second.1
                })
                &&& final(registry).deep_view().commands == second.0
                &&& final(registry).deep_view().last_loaded == Some(at)
                &&& final(counter).count == (if old(counter).count == u64::MAX {
                    0
                } else {
                    old(counter).count + 1
                })
            }
        }),
{
    registry.begin_reload();
    let a = match scan_files(registry, CommandScope::Project, project) {
        Ok(n) => n,
        Err(e) => {
            return Err(e);
        },
    };
    let b = match scan_files(registry, CommandScope::User, user) {
        Ok(n) => n,
        Err(e) => {
            return Err(e);
        },
    };
    registry.finish_reload(at);
    record_load_metrics(counter);
    Ok(a.saturating_add(b))
}

} // verus!
