//! Where the sub-agents of a session are looked for, and the
//! inventory of what is found there.

use crate::paths;
use crate::subagents::builder::{tree_outcome, SubagentBuilder, SubagentBuilderView};
use crate::subagents::config::SubagentConfig;
use crate::subagents::discovery::{SourceFile, SubagentSourceTree};
use crate::subagents::inventory::{inventory_from, SubagentInventory, SubagentInventoryView};
use vstd::prelude::*;

verus! {

/// The directories in which the definitions of a session's sub-agents
/// are looked for: one of the project, `.codex/agents` under the
/// working directory, and one of the user, `agents` under the home of
/// the program.
pub fn source_tree_from_config(cwd: &str, codex_home: &str) -> (r: SubagentSourceTree)
    ensures
        r.project.deep_view() == seq![paths::joined_path(cwd@, ".codex/agents"@)],
        r.user.deep_view() == seq![paths::joined_path(codex_home@, "agents"@)],
        r.project@.len() == 1,
        r.user@.len() == 1,
{
    let project = paths::join(cwd, ".codex/agents");
    let user = paths::join(codex_home, "agents");
    source_tree_of(project.as_str(), user.as_str())
}

/// The directories in which definitions are looked for, given the
/// directory of the project's definitions and that of the user's: the
/// one as the only directory of the project, the other as the only
/// one of the user.
pub fn source_tree_of(project_dir: &str, user_dir: &str) -> (r: SubagentSourceTree)
    ensures
        r.project.deep_view() == seq![project_dir@],
        r.user.deep_view() == seq![user_dir@],
        r.project@.len() == 1,
        r.user@.len() == 1,
{
    let mut tree = SubagentSourceTree::default();
    proof {
        assert(tree.project.deep_view() =~= Seq::<Seq<char>>::empty());
        assert(tree.user.deep_view() =~= Seq::<Seq<char>>::empty());
    }
    tree.add_project(project_dir);
    proof {
        assert(tree.user.deep_view() =~= Seq::<Seq<char>>::empty());
    }
    tree.add_user(user_dir);
    proof {
        assert(tree.project.deep_view() =~= seq![project_dir@]);
        assert(tree.user.deep_view() =~= seq![user_dir@]);
        assert(tree.project.deep_view().len() == tree.project@.len());
        assert(tree.user.deep_view().len() == tree.user@.len());
    }
    tree
}

/// What a builder has collected, as an inventory: the inventory of
/// its definitions, with its own notes after those of the inventory.
pub open spec fn built(builder: SubagentBuilderView) -> SubagentInventoryView {
    SubagentInventoryView {
        discovery_events: inventory_from(builder.config, builder.definitions).discovery_events
            + builder.events,
        ..inventory_from(builder.config, builder.definitions)
    }
}

/// The inventory of the sub-agents that are defined in the files
/// found under the directories of `tree`; `listings` holds the files
/// of each directory, those of the project first.
pub fn build_inventory_for_config(
    config: &SubagentConfig,
    tree: &SubagentSourceTree,
    listings: &Vec<Vec<SourceFile>>,
) -> (r: SubagentInventory)
    ensures
        r.deep_view() == built(
            tree_outcome(
                SubagentBuilderView {
                    config: config.deep_view(),
                    definitions: Seq::empty(),
                    events: Seq::empty(),
                },
                tree.project@.len() as int,
                tree.user@.len() as int,
                listings@,
                listings@.len() as int,
            ),
        ),
{
    SubagentBuilder::new(config.clone()).discover_tree(tree, listings).build()
}

} // verus!
