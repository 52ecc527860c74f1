//! Collects definitions and notes, then resolves them into an inventory.

use crate::subagents::config::{SubagentConfig, SubagentConfigView};
use crate::subagents::definition::{SubagentDefinition, SubagentDefinitionView};
use crate::subagents::discovery::{
    discover_from_source, discovered, DiscoverySource, SourceFile, SubagentSourceTree,
};
use crate::subagents::inventory::{
    inventory_from, DiscoveryEvent, SubagentInventory, SubagentInventoryView,
};
use crate::subagents::definition::SubagentScope;
use vstd::prelude::*;

verus! {

pub struct SubagentBuilder {
    config: SubagentConfig,
    definitions: Vec<SubagentDefinition>,
    events: Vec<DiscoveryEvent>,
}

pub struct SubagentBuilderView {
    pub config: SubagentConfigView,
    pub definitions: Seq<SubagentDefinitionView>,
    pub events: Seq<Seq<char>>,
}

impl DeepView for SubagentBuilder {
    type V = SubagentBuilderView;

    closed spec fn deep_view(&self) -> SubagentBuilderView {
        SubagentBuilderView {
            config: self.config.deep_view(),
            definitions: self.definitions.deep_view(),
            events: self.events.deep_view(),
        }
    }
}

/// What the listings of a tree's roots give: listing `i` belongs to
/// root `i`, project roots first. A root without a listing gives
/// nothing, and a listing without a root is ignored.
pub open spec fn tree_outcome(
    b: SubagentBuilderView,
    project_roots: int,
    user_roots: int,
    listings: Seq<Vec<SourceFile>>,
    n: int,
) -> SubagentBuilderView
    decreases n,
{
    if n <= 0 {
        b
    } else {
        let before = tree_outcome(b, project_roots, user_roots, listings, n - 1);
        if n - 1 >= project_roots + user_roots {
            before
        } else {
            let scope = if n - 1 < project_roots {
                SubagentScope::Project
            } else {
                SubagentScope::User
            };
            let found = discovered(scope, listings[n - 1]@, listings[n - 1]@.len() as int);
            SubagentBuilderView {
                definitions: before.definitions + found.definitions,
                events: before.events + found.events,
                ..before
            }
        }
    }
}

impl SubagentBuilder {
    pub fn new(config: SubagentConfig) -> (r: Self)
        ensures
            r.deep_view() == (SubagentBuilderView {
                config: config.deep_view(),
                definitions: Seq::empty(),
                events: Seq::empty(),
            }),
    {
        let definitions: Vec<SubagentDefinition> = Vec::new();
        let events: Vec<DiscoveryEvent> = Vec::new();
        proof {
            assert(definitions.deep_view() =~= Seq::<SubagentDefinitionView>::empty());
            assert(events.deep_view() =~= Seq::<Seq<char>>::empty());
        }
        SubagentBuilder { config, definitions, events }
    }

    pub fn with_definition(self, definition: SubagentDefinition) -> (r: Self)
        ensures
            r.deep_view() == (SubagentBuilderView {
                definitions: self.deep_view().definitions.push(definition.deep_view()),
                ..self.deep_view()
            }),
    {
        let mut r = self;
        let ghost d0 = r.definitions.deep_view();
        r.definitions.push(definition);
        proof {
            assert(r.definitions.deep_view() =~= d0.push(definition.deep_view()));
        }
        r
    }

    pub fn with_definitions(self, definitions: Vec<SubagentDefinition>) -> (r: Self)
        ensures
            r.deep_view() == (SubagentBuilderView {
                definitions: self.deep_view().definitions + definitions.deep_view(),
                ..self.deep_view()
            }),
    {
        let mut r = self;
        let mut more = definitions;
        let ghost d0 = r.definitions.deep_view();
        r.definitions.append(&mut more);
        proof {
            assert(r.definitions.deep_view() =~= d0 + definitions.deep_view());
        }
        r
    }

    pub fn with_event(self, event: DiscoveryEvent) -> (r: Self)
        ensures
            r.deep_view() == (SubagentBuilderView {
                events: self.deep_view().events.push(event.deep_view()),
                ..self.deep_view()
            }),
    {
        let mut r = self;
        let ghost e0 = r.events.deep_view();
        r.events.push(event);
        proof {
            assert(r.events.deep_view() =~= e0.push(event.deep_view()));
        }
        r
    }

    pub fn record_event(self, message: &str) -> (r: Self)
        ensures
            r.deep_view() == (SubagentBuilderView {
                events: self.deep_view().events.push(message@),
                ..self.deep_view()
            }),
    {
        self.with_event(DiscoveryEvent { message: String::from_str(message) })
    }

    /// Adds what the files listed under `source` give.
    pub fn discover_source(self, source: &DiscoverySource, files: &Vec<SourceFile>) -> (r: Self)
        ensures
            r.deep_view() == (SubagentBuilderView {
                definitions: self.deep_view().definitions + discovered(
                    source.scope(),
                    files@,
                    files@.len() as int,
                ).definitions,
                events: self.deep_view().events + discovered(
                    source.scope(),
                    files@,
                    files@.len() as int,
                ).events,
                ..self.deep_view()
            }),
    {
        let outcome = discover_from_source(source, files);
        let mut r = self;
        let mut definitions = outcome.definitions;
        let mut events = outcome.events;
        let ghost d0 = r.definitions.deep_view();
        let ghost e0 = r.events.deep_view();
        let ghost d1 = definitions.deep_view();
        let ghost e1 = events.deep_view();
        r.definitions.append(&mut definitions);
        r.events.append(&mut events);
        proof {
            assert(r.definitions.deep_view() =~= d0 + d1);
            assert(r.events.deep_view() =~= e0 + e1);
        }
        r
    }

    /// Adds what the listings of the roots of `tree` give.
    pub fn discover_tree(self, tree: &SubagentSourceTree, listings: &Vec<Vec<SourceFile>>) -> (r:
        Self)
        ensures
            r.deep_view() == tree_outcome(
                self.deep_view(),
                tree.project@.len() as int,
                tree.user@.len() as int,
                listings@,
                listings@.len() as int,
            ),
    {
        let mut r = self;
        let mut i: usize = 0;
        let ghost b0 = r.deep_view();
        while i < listings.len()
            invariant
                i <= listings.len(),
                r.deep_view() == tree_outcome(
                    b0,
                    tree.project@.len() as int,
                    tree.user@.len() as int,
                    listings@,
                    i as int,
                ),
            decreases listings.len() - i,
        {
            if i < tree.project.len() {
                let source = DiscoverySource::Project(tree.project[i].clone());
                r = r.discover_source(&source, &listings[i]);
            } else if i - tree.project.len() < tree.user.len() {
                let source = DiscoverySource::User(tree.user[i - tree.project.len()].clone());
                r = r.discover_source(&source, &listings[i]);
            }
            i += 1;
        }
        r
    }

    /// The inventory of what was collected, with the collected notes
    /// after those of the inventory itself.
    pub fn build(self) -> (r: SubagentInventory)
        ensures
            r.deep_view() == (SubagentInventoryView {
                discovery_events: inventory_from(
                    self.deep_view().config,
                    self.deep_view().definitions,
                ).discovery_events + self.deep_view().events,
                ..inventory_from(self.deep_view().config, self.deep_view().definitions)
            }),
    {
        let mut inventory = SubagentInventory::from_definitions(&self.config, self.definitions);
        let mut events = self.events;
        let ghost e0 = inventory.discovery_events.deep_view();
        let ghost e1 = events.deep_view();
        inventory.discovery_events.append(&mut events);
        proof {
            assert(inventory.discovery_events.deep_view() =~= e0 + e1);
        }
        inventory
    }
}

} // verus!
