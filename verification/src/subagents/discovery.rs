//! Turns the files found under a source directory into definitions and
//! notes. Walking the directory and reading the files is done by the
//! caller, who hands in what was found.

use crate::subagents::definition::{SubagentDefinition, SubagentDefinitionView, SubagentScope};
use crate::subagents::inventory::DiscoveryEvent;
use crate::subagents::parser::{
    definition_from_parts, definition_of, extract_frontmatter, extract_outcome, fallback_name,
    fallback_name_from_stem, parts_at, trim_bom, without_bom, SubagentFrontmatter,
};
use crate::text::{char_lower, chars_of, lowered, push_str, same_chars, string_of};
use vstd::prelude::*;

verus! {

#[derive(Debug, PartialEq, Eq)]
pub enum DiscoverySource {
    Project(String),
    User(String),
}

impl Clone for DiscoverySource {
    fn clone(&self) -> (r: Self)
        ensures
            r.root()@ == self.root()@,
            r.scope() == self.scope(),
    {
        match self {
            DiscoverySource::Project(p) => DiscoverySource::Project(p.clone()),
            DiscoverySource::User(p) => DiscoverySource::User(p.clone()),
        }
    }
}

impl DiscoverySource {
    pub open spec fn root(&self) -> String {
        match self {
            DiscoverySource::Project(p) => *p,
            DiscoverySource::User(p) => *p,
        }
    }

    pub open spec fn scope(&self) -> SubagentScope {
        match self {
            DiscoverySource::Project(_) => SubagentScope::Project,
            DiscoverySource::User(_) => SubagentScope::User,
        }
    }

    /// The scope that definitions from this source belong to.
    pub fn scope_of(&self) -> (r: SubagentScope)
        ensures
            r == self.scope(),
    {
        match self {
            DiscoverySource::Project(_) => SubagentScope::Project,
            DiscoverySource::User(_) => SubagentScope::User,
        }
    }
}

/// The directories to search, project directories and user directories.
#[derive(Debug, PartialEq, Eq)]
pub struct SubagentSourceTree {
    pub project: Vec<String>,
    pub user: Vec<String>,
}

impl Default for SubagentSourceTree {
    fn default() -> (r: Self)
        ensures
            r.project@.len() == 0,
            r.user@.len() == 0,
    {
        SubagentSourceTree { project: Vec::new(), user: Vec::new() }
    }
}

impl Clone for SubagentSourceTree {
    fn clone(&self) -> (r: Self)
        ensures
            r.project.deep_view() == self.project.deep_view(),
            r.user.deep_view() == self.user.deep_view(),
    {
        SubagentSourceTree {
            project: crate::copying::copy_strings(&self.project),
            user: crate::copying::copy_strings(&self.user),
        }
    }
}

impl SubagentSourceTree {
    pub fn add_project(&mut self, path: &str)
        ensures
            final(self).project.deep_view() == old(self).project.deep_view().push(path@),
            final(self).user == old(self).user,
    {
        self.project.push(String::from_str(path));
        proof {
            assert(self.project.deep_view() =~= old(self).project.deep_view().push(path@));
        }
    }

    pub fn add_user(&mut self, path: &str)
        ensures
            final(self).user.deep_view() == old(self).user.deep_view().push(path@),
            final(self).project == old(self).project,
    {
        self.user.push(String::from_str(path));
        proof {
            assert(self.user.deep_view() =~= old(self).user.deep_view().push(path@));
        }
    }

    pub fn is_empty(&self) -> (r: bool)
        ensures
            r == (self.project@.len() == 0 && self.user@.len() == 0),
    {
        self.project.len() == 0 && self.user.len() == 0
    }
}

/// What discovery found under one source.
#[derive(Debug)]
pub struct DiscoveryOutcome {
    pub definitions: Vec<SubagentDefinition>,
    pub events: Vec<DiscoveryEvent>,
}

pub struct DiscoveryOutcomeView {
    pub definitions: Seq<SubagentDefinitionView>,
    pub events: Seq<Seq<char>>,
}

impl DeepView for DiscoveryOutcome {
    type V = DiscoveryOutcomeView;

    open spec fn deep_view(&self) -> DiscoveryOutcomeView {
        DiscoveryOutcomeView {
            definitions: self.definitions.deep_view(),
            events: self.events.deep_view(),
        }
    }
}

impl Default for DiscoveryOutcome {
    fn default() -> (r: Self)
        ensures
            r.deep_view() == (DiscoveryOutcomeView {
                definitions: Seq::empty(),
                events: Seq::empty(),
            }),
    {
        let definitions: Vec<SubagentDefinition> = Vec::new();
        let events: Vec<DiscoveryEvent> = Vec::new();
        proof {
            assert(definitions.deep_view() =~= Seq::<SubagentDefinitionView>::empty());
            assert(events.deep_view() =~= Seq::<Seq<char>>::empty());
        }
        DiscoveryOutcome { definitions, events }
    }
}

/// A regular file that was found: its path, the extension and the file
/// stem that `std::path` gives for it, what reading it gave, and what
/// decoding its front matter gave (unused where the file could not be
/// read or has no front matter).
#[derive(Debug)]
pub struct SourceFile {
    pub path: String,
    pub extension: Option<String>,
    pub stem: Option<String>,
    pub contents: Result<String, String>,
    pub frontmatter: Result<SubagentFrontmatter, String>,
}

/// An extension names a Markdown file where, case aside, it is `md` or
/// `markdown`.
pub open spec fn is_markdown_extension(ext: Option<Seq<char>>) -> bool {
    match ext {
        Some(e) => lowered(e) == "md"@ || lowered(e) == "markdown"@,
        None => false,
    }
}

pub fn markdown_extension(ext: &Option<String>) -> (r: bool)
    ensures
        r == is_markdown_extension(ext.deep_view()),
{
    match ext {
        Some(e) => {
            let v = chars_of(e.as_str());
            let mut low: Vec<char> = Vec::new();
            let mut i: usize = 0;
            while i < v.len()
                invariant
                    i <= v.len(),
                    low@ == lowered(v@).take(i as int),
                decreases v.len() - i,
            {
                low.push(char_lower(v[i]));
                proof {
                    assert(low@ =~= lowered(v@).take(i + 1));
                }
                i += 1;
            }
            proof {
                assert(lowered(v@).take(v.len() as int) =~= lowered(v@));
            }
            let md = chars_of("md");
            let markdown = chars_of("markdown");
            same_chars(&low, &md) || same_chars(&low, &markdown)
        },
        None => false,
    }
}

/// Whether the extension that `std::path` gives for `path` names a
/// Markdown file.
pub fn is_markdown(path: &str) -> (r: bool)
    ensures
        r == is_markdown_extension(crate::paths::extension_of(path@)),
{
    let ext = crate::paths::extension(path);
    markdown_extension(&ext)
}

pub open spec fn parse_failure(path: Seq<char>, message: Seq<char>) -> Seq<char> {
    "Failed to parse subagent definition at "@ + path + ": "@ + message
}

pub open spec fn read_failure(path: Seq<char>, message: Seq<char>) -> Seq<char> {
    "Failed to read subagent definition at "@ + path + ": "@ + message
}

/// Why a file that was read gives no definition: it has no front
/// matter, or its front matter was refused.
pub open spec fn refusal(file: SourceFile) -> Option<Seq<char>> {
    let text = file.contents->Ok_0@;
    let clean = without_bom(text);
    if !crate::search::starts_with(
        crate::subagents::parser::skip_layout(clean),
        crate::subagents::parser::opening_marker(),
    ) {
        Some("subagent definitions must start with `---` frontmatter"@)
    } else if extract_outcome(text) is None {
        Some("unterminated YAML frontmatter"@)
    } else {
        match file.frontmatter {
            Err(m) => Some(m@),
            Ok(_) => None,
        }
    }
}

/// What the first `n` files give: a Markdown file that was read and
/// has decodable front matter gives its definition; one that could not
/// be read, or was refused, gives a note; other files give nothing.
pub open spec fn discovered(scope: SubagentScope, files: Seq<SourceFile>, n: int) -> DiscoveryOutcomeView
    decreases n,
{
    if n <= 0 {
        DiscoveryOutcomeView { definitions: Seq::empty(), events: Seq::empty() }
    } else {
        let before = discovered(scope, files, n - 1);
        let file = files[n - 1];
        if !is_markdown_extension(file.extension.deep_view()) {
            before
        } else {
            match file.contents {
                Err(e) => DiscoveryOutcomeView {
                    events: before.events.push(read_failure(file.path@, e@)),
                    ..before
                },
                Ok(text) => match refusal(file) {
                    Some(m) => DiscoveryOutcomeView {
                        events: before.events.push(parse_failure(file.path@, m)),
                        ..before
                    },
                    None => DiscoveryOutcomeView {
                        definitions: before.definitions.push(
                            definition_of(
                                fallback_name(file.stem.deep_view()),
                                file.path@,
                                file.frontmatter->Ok_0.deep_view(),
                                parts_at(without_bom(text@), extract_outcome(text@)->0).1,
                                scope,
                            ),
                        ),
                        ..before
                    },
                },
            }
        }
    }
}

fn failure_note(head: &str, path: &str, message: &str) -> (r: DiscoveryEvent)
    ensures
        r.deep_view() == head@ + path@ + ": "@ + message@,
{
    let mut out: Vec<char> = Vec::new();
    push_str(&mut out, head);
    push_str(&mut out, path);
    push_str(&mut out, ": ");
    push_str(&mut out, message);
    proof {
        assert(out@ =~= head@ + path@ + ": "@ + message@);
    }
    DiscoveryEvent { message: string_of(&out) }
}

/// Turns the files found under `source` into definitions and notes.
pub fn discover_from_source(source: &DiscoverySource, files: &Vec<SourceFile>) -> (r:
    DiscoveryOutcome)
    ensures
        r.deep_view() == discovered(source.scope(), files@, files@.len() as int),
{
    let scope = source.scope_of();
    let mut definitions: Vec<SubagentDefinition> = Vec::new();
    let mut events: Vec<DiscoveryEvent> = Vec::new();
    let mut i: usize = 0;
    proof {
        assert(definitions.deep_view() =~= Seq::<SubagentDefinitionView>::empty());
        assert(events.deep_view() =~= Seq::<Seq<char>>::empty());
    }
    while i < files.len()
        invariant
            i <= files.len(),
            scope == source.scope(),
            (DiscoveryOutcomeView {
                definitions: definitions.deep_view(),
                events: events.deep_view(),
            }) == discovered(scope, files@, i as int),
        decreases files.len() - i,
    {
        let file = &files[i];
        let ghost d0 = definitions.deep_view();
        let ghost e0 = events.deep_view();
        if markdown_extension(&file.extension) {
            match &file.contents {
                Err(e) => {
                    events.push(
                        failure_note(
                            "Failed to read subagent definition at ",
                            file.path.as_str(),
                            e.as_str(),
                        ),
                    );
                    proof {
                        assert(events.deep_view() =~= e0.push(read_failure(file.path@, e@)));
                    }
                },
                Ok(text) => {
                    let clean = trim_bom(text.as_str());
                    match extract_frontmatter(clean.as_str()) {
                        Err(err) => {
                            let message = match &err {
                                crate::subagents::parser::SubagentParserError::ParseError(m) => m,
                            };
                            events.push(
                                failure_note(
                                    "Failed to parse subagent definition at ",
                                    file.path.as_str(),
                                    message.as_str(),
                                ),
                            );
                            proof {
                                assert(refusal(*file) == Some(message@));
                                assert(events.deep_view() =~= e0.push(
                                    parse_failure(file.path@, message@),
                                ));
                            }
                        },
                        Ok(parts) => {
                            proof {
                                let c = without_bom(text@);
                                let w = choose|at: int|
                                    crate::search::first_at(
                                        crate::subagents::parser::after_opening(c),
                                        crate::subagents::parser::closing_marker(),
                                        0,
                                        at,
                                    ) && (parts.0@, parts.1@) == parts_at(c, at);
                                let ch = choose|at: int|
                                    crate::search::first_at(
                                        crate::subagents::parser::after_opening(c),
                                        crate::subagents::parser::closing_marker(),
                                        0,
                                        at,
                                    );
                                assert(w == ch);
                                assert(extract_outcome(text@) == Some(ch));
                            }
                            match &file.frontmatter {
                                Err(m) => {
                                    events.push(
                                        failure_note(
                                            "Failed to parse subagent definition at ",
                                            file.path.as_str(),
                                            m.as_str(),
                                        ),
                                    );
                                    proof {
                                        assert(events.deep_view() =~= e0.push(
                                            parse_failure(file.path@, m@),
                                        ));
                                    }
                                },
                                Ok(front) => {
                                    let fallback = fallback_name_from_stem(
                                        crate::copying::copy_opt_string(&file.stem),
                                    );
                                    let definition = definition_from_parts(
                                        fallback.as_str(),
                                        file.path.as_str(),
                                        front,
                                        parts.1.as_str(),
                                        scope,
                                    );
                                    let ghost dv = definition.deep_view();
                                    definitions.push(definition);
                                    proof {
                                        assert(definitions.deep_view() =~= d0.push(dv));
                                    }
                                },
                            }
                        },
                    }
                },
            }
        }
        i += 1;
    }
    DiscoveryOutcome { definitions, events }
}

/// The scope of a definition by where its file lies: that of the
/// user where the file lies under `.codex/agents` in the home
/// directory of the user, and that of the project anywhere else, or
/// where no home directory is known.
pub fn detect_scope(path: &str, home: Option<&str>) -> (r: SubagentScope)
    ensures
        r == scope_by_place(
            match home {
                Some(dir) => Some(
                    crate::paths::path_starts_with(
                        path@,
                        crate::paths::joined_path(dir@, ".codex/agents"@),
                    ),
                ),
                None => None,
            },
        ),
{
    let under_user_root = match home {
        Some(dir) => {
            let user_root = crate::paths::join(dir, ".codex/agents");
            Some(crate::paths::starts_with(path, user_root.as_str()))
        },
        None => None,
    };
    scope_for_place(under_user_root)
}

/// The scope of a definition, given whether its file lies under the
/// directory of the user's definitions (`None` where no home
/// directory is known): that of the user where it does, that of the
/// project in every other case.
pub open spec fn scope_by_place(under_user_root: Option<bool>) -> SubagentScope {
    match under_user_root {
        Some(true) => SubagentScope::User,
        _ => SubagentScope::Project,
    }
}

/// The scope of a definition by where its file was found to lie.
pub fn scope_for_place(under_user_root: Option<bool>) -> (r: SubagentScope)
    ensures
        r == scope_by_place(under_user_root),
{
    match under_user_root {
        Some(true) => SubagentScope::User,
        _ => SubagentScope::Project,
    }
}

} // verus!
