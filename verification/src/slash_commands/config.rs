//! Where the command files are looked for.

use crate::copying::copy_opt_string;
use crate::text::{blank, is_blank, trim, trimmed};
use vstd::prelude::*;

verus! {

#[derive(Debug, PartialEq, Eq)]
pub struct SlashCommandConfig {
    pub project_dir: Option<String>,
    pub user_dir: Option<String>,
}

impl Clone for SlashCommandConfig {
    fn clone(&self) -> (r: Self)
        ensures
            r.project_dir.deep_view() == self.project_dir.deep_view(),
            r.user_dir.deep_view() == self.user_dir.deep_view(),
    {
        SlashCommandConfig {
            project_dir: copy_opt_string(&self.project_dir),
            user_dir: copy_opt_string(&self.user_dir),
        }
    }
}

impl Default for SlashCommandConfig {
    fn default() -> (r: Self)
        ensures
            r.project_dir is None,
            r.user_dir is None,
    {
        SlashCommandConfig { project_dir: None, user_dir: None }
    }
}

/// An override counts where it is not blank; it is taken trimmed.
pub open spec fn override_of(value: Option<Seq<char>>) -> Option<Seq<char>> {
    match value {
        Some(v) => if is_blank(v) {
            None
        } else {
            Some(trimmed(v))
        },
        None => None,
    }
}

/// The directory that an override names, if it names one.
pub fn normalize_override(value: &str) -> (r: Option<String>)
    ensures
        r.deep_view() == override_of(Some(value@)),
{
    let t = trim(value);
    proof {
        crate::text::lemma_trimmed_empty(value@);
    }
    if t.as_str().is_empty() {
        None
    } else {
        Some(t)
    }
}

fn override_from(value: &Option<String>) -> (r: Option<String>)
    ensures
        r.deep_view() == override_of(value.deep_view()),
{
    match value {
        Some(v) => normalize_override(v.as_str()),
        None => None,
    }
}

impl SlashCommandConfig {
    /// The directories to search, given the two overrides from the
    /// environment, the project root, the home of the tool and the home
    /// directory of the user. An override wins; else the project
    /// directory is `.codex/commands` under the project root, and the
    /// user directory is `commands` under the tool's home or, failing
    /// that, `.codex/commands` under the user's home directory.
    pub fn from_environment(
        project_override: &Option<String>,
        user_override: &Option<String>,
        project_root: &Option<String>,
        codex_home: &Option<String>,
        home_dir: &Option<String>,
    ) -> (r: Self)
        ensures
            r.project_dir.deep_view() == (match override_of(project_override.deep_view()) {
                Some(p) => Some(p),
                None => match project_root.deep_view() {
                    Some(root) => Some(crate::paths::joined_path(root, ".codex/commands"@)),
                    None => None,
                },
            }),
            r.user_dir.deep_view() == (match override_of(user_override.deep_view()) {
                Some(p) => Some(p),
                None => match codex_home.deep_view() {
                    Some(home) => Some(crate::paths::joined_path(home, "commands"@)),
                    None => match home_dir.deep_view() {
                        Some(home) => Some(crate::paths::joined_path(home, ".codex/commands"@)),
                        None => None,
                    },
                },
            }),
    {
        let project_dir = match override_from(project_override) {
            Some(p) => Some(p),
            None => match project_root {
                Some(root) => Some(crate::paths::join(root.as_str(), ".codex/commands")),
                None => None,
            },
        };
        let user_dir = match override_from(user_override) {
            Some(p) => Some(p),
            None => match codex_home {
                Some(home) => Some(crate::paths::join(home.as_str(), "commands")),
                None => match home_dir {
                    Some(home) => Some(crate::paths::join(home.as_str(), ".codex/commands")),
                    None => None,
                },
            },
        };
        SlashCommandConfig { project_dir, user_dir }
    }
}

} // verus!
