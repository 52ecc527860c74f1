//! Turns decoded configuration files into hooks and layer summaries.
//! Reading the files and decoding their TOML is done by the caller.

use crate::copying::{copy_opt_string, copy_strings, holds_text};
use crate::digest::{checksum, checksum_of};
use crate::hooks::definition::{copy_pairs, HookDefinition, HookDefinitionView};
use crate::hooks::events::HookEvent;
use crate::hooks::layer_summary::{HookLayerSummary, HookLayerSummaryView};
use crate::hooks::matchers::{no_matchers, HookMatchers};
use crate::hooks::scope::{HookScope, HookScopeView};
use crate::hooks::skipped::{HookSkipReason, SkippedHook, SkippedHookView};
use crate::text::{blank, is_blank, push_str, same_text, string_of};
use vstd::prelude::*;

verus! {

#[derive(Debug, PartialEq, Eq)]
pub enum HookConfigError {
    NotImplemented,
    InvalidConfiguration(String),
    Io(String),
}

pub enum HookConfigErrorView {
    NotImplemented,
    InvalidConfiguration(Seq<char>),
    Io(Seq<char>),
}

impl DeepView for HookConfigError {
    type V = HookConfigErrorView;

    open spec fn deep_view(&self) -> HookConfigErrorView {
        match self {
            HookConfigError::NotImplemented => HookConfigErrorView::NotImplemented,
            HookConfigError::InvalidConfiguration(m) => HookConfigErrorView::InvalidConfiguration(
                m@,
            ),
            HookConfigError::Io(m) => HookConfigErrorView::Io(m@),
        }
    }
}

pub open spec fn config_error_text(e: HookConfigErrorView) -> Seq<char> {
    match e {
        HookConfigErrorView::NotImplemented => "hook configuration validation not implemented"@,
        HookConfigErrorView::InvalidConfiguration(m) => "invalid hook configuration: "@ + m,
        HookConfigErrorView::Io(m) => "failed to read configuration: "@ + m,
    }
}

fn text2(a: &str, b: &str) -> (r: String)
    ensures
        r@ == a@ + b@,
{
    let mut out: Vec<char> = Vec::new();
    push_str(&mut out, a);
    push_str(&mut out, b);
    proof {
        assert(out@ =~= a@ + b@);
    }
    string_of(&out)
}

fn text3(a: &str, b: &str, c: &str) -> (r: String)
    ensures
        r@ == a@ + b@ + c@,
{
    let mut out: Vec<char> = Vec::new();
    push_str(&mut out, a);
    push_str(&mut out, b);
    push_str(&mut out, c);
    proof {
        assert(out@ =~= a@ + b@ + c@);
    }
    string_of(&out)
}

impl HookConfigError {
    /// The text of the error.
    pub fn message(&self) -> (r: String)
        ensures
            r@ == config_error_text(self.deep_view()),
    {
        match self {
            HookConfigError::NotImplemented => String::from_str(
                "hook configuration validation not implemented",
            ),
            HookConfigError::InvalidConfiguration(m) => text2(
                "invalid hook configuration: ",
                m.as_str(),
            ),
            HookConfigError::Io(m) => text2("failed to read configuration: ", m.as_str()),
        }
    }
}

/// One `[[hooks]]` entry of a configuration file, decoded.
#[derive(Debug)]
pub struct HookEntry {
    pub id: String,
    pub event: HookEvent,
    pub notes: Option<String>,
    pub command: Vec<String>,
    pub working_dir: Option<String>,
    pub timeout_ms: Option<u64>,
    pub allow_parallel: bool,
    pub schema_versions: Vec<String>,
    pub matchers: HookMatchers,
    pub env: Vec<(String, String)>,
}

/// A configuration file, decoded.
#[derive(Debug)]
pub struct HookFile {
    pub schema_version: String,
    pub default_timeout_ms: Option<u64>,
    pub env: Vec<(String, String)>,
    pub hooks: Vec<HookEntry>,
}

/// One layer to load: where it comes from, what reading its file gave,
/// and what decoding that gave (unused where reading failed).
#[derive(Debug)]
pub struct LayerSource {
    pub scope: HookScope,
    pub path: String,
    pub contents: Result<String, String>,
    pub parsed: Result<HookFile, String>,
}

#[derive(Debug, Default)]
pub struct HookConfigLoader;

/// What is wrong with the first entry among the first `n` that has
/// something wrong: a blank id, no command, or no schema versions.
pub open spec fn first_problem(hooks: Seq<HookEntry>, n: int) -> Option<Seq<char>>
    decreases n,
{
    if n <= 0 {
        None
    } else {
        match first_problem(hooks, n - 1) {
            Some(p) => Some(p),
            None => {
                let h = hooks[n - 1];
                if is_blank(h.id@) {
                    Some("hook id must not be empty"@)
                } else if h.command@.len() == 0 {
                    Some("hook `"@ + h.id@ + "` missing command"@)
                } else if h.schema_versions@.len() == 0 {
                    Some("hook `"@ + h.id@ + "` missing schemaVersions"@)
                } else {
                    None
                }
            },
        }
    }
}

/// What is wrong with a document, if anything: it could not be
/// decoded, its schema version is not 1.0, or one of its entries has a
/// problem.
pub open spec fn document_problem(parsed: Result<HookFile, String>) -> Option<Seq<char>> {
    match parsed {
        Err(m) => Some(m@),
        Ok(file) => if file.schema_version@ != "1.0"@ {
            Some("unsupported schemaVersion"@)
        } else {
            first_problem(file.hooks@, file.hooks@.len() as int)
        },
    }
}

/// The hook that an accepted entry becomes in the layer it belongs to.
pub open spec fn entry_definition(
    entry: HookEntry,
    scope: HookScopeView,
    path: Seq<char>,
) -> HookDefinitionView {
    HookDefinitionView {
        id: entry.id@,
        event: entry.event,
        notes: entry.notes.deep_view(),
        command: entry.command.deep_view(),
        working_dir: entry.working_dir.deep_view(),
        timeout_ms: entry.timeout_ms,
        allow_parallel: entry.allow_parallel,
        schema_versions: entry.schema_versions.deep_view(),
        env: entry.env.deep_view(),
        matchers: entry.matchers.deep_view(),
        scope,
        source_path: Some(path),
    }
}

/// The ids seen among the first `n` entries: those that are not blank.
pub open spec fn seen_ids(hooks: Seq<HookEntry>, n: int) -> Seq<Seq<char>>
    decreases n,
{
    if n <= 0 {
        Seq::empty()
    } else if is_blank(hooks[n - 1].id@) {
        seen_ids(hooks, n - 1)
    } else {
        seen_ids(hooks, n - 1).push(hooks[n - 1].id@)
    }
}

/// Why entry `i` is skipped, if it is: its id is blank, or was seen
/// before in this layer, or it has no command, or no schema versions.
pub open spec fn skip_of(hooks: Seq<HookEntry>, i: int) -> Option<SkippedHookView> {
    let h = hooks[i];
    if is_blank(h.id@) {
        Some(
            SkippedHookView {
                hook_id: None,
                reason: HookSkipReason::InvalidSchema,
                details: Some("hook id must not be empty"@),
            },
        )
    } else if seen_ids(hooks, i).contains(h.id@) {
        Some(
            SkippedHookView {
                hook_id: Some(h.id@),
                reason: HookSkipReason::DuplicateId,
                details: None,
            },
        )
    } else if h.command@.len() == 0 {
        Some(
            SkippedHookView {
                hook_id: Some(h.id@),
                reason: HookSkipReason::InvalidSchema,
                details: Some("command must not be empty"@),
            },
        )
    } else if h.schema_versions@.len() == 0 {
        Some(
            SkippedHookView {
                hook_id: Some(h.id@),
                reason: HookSkipReason::InvalidSchema,
                details: Some("schemaVersions must not be empty"@),
            },
        )
    } else {
        None
    }
}

/// The hooks that the first `n` entries of a layer give.
pub open spec fn layer_hooks(
    hooks: Seq<HookEntry>,
    scope: HookScopeView,
    path: Seq<char>,
    n: int,
) -> Seq<HookDefinitionView>
    decreases n,
{
    if n <= 0 {
        Seq::empty()
    } else if skip_of(hooks, n - 1) is Some {
        layer_hooks(hooks, scope, path, n - 1)
    } else {
        layer_hooks(hooks, scope, path, n - 1).push(entry_definition(hooks[n - 1], scope, path))
    }
}

/// The entries skipped among the first `n` of a layer.
pub open spec fn layer_skipped(hooks: Seq<HookEntry>, n: int) -> Seq<SkippedHookView>
    decreases n,
{
    if n <= 0 {
        Seq::empty()
    } else {
        match skip_of(hooks, n - 1) {
            Some(s) => layer_skipped(hooks, n - 1).push(s),
            None => layer_skipped(hooks, n - 1),
        }
    }
}

/// What loading one layer gives: an error where its file could not be
/// read or decoded or has another schema version than 1.0; otherwise
/// its hooks and its summary, whose checksum is that of the file's
/// text.
pub open spec fn layer_outcome(source: LayerSource) -> Result<
    (Seq<HookDefinitionView>, HookLayerSummaryView),
    HookConfigErrorView,
> {
    match source.contents {
        Err(e) => Err(HookConfigErrorView::Io(e@)),
        Ok(text) => match source.parsed {
            Err(m) => Err(HookConfigErrorView::InvalidConfiguration(m@)),
            Ok(file) => if file.schema_version@ != "1.0"@ {
                Err(HookConfigErrorView::InvalidConfiguration("unsupported schemaVersion"@))
            } else {
                let hooks = layer_hooks(
                    file.hooks@,
                    source.scope.deep_view(),
                    source.path@,
                    file.hooks@.len() as int,
                );
                Ok(
                    (
                        hooks,
                        HookLayerSummaryView {
                            scope: source.scope.deep_view(),
                            path: source.path@,
                            checksum: checksum_of(text@),
                            loaded_hooks: hooks.len() as usize,
                            skipped_hooks: layer_skipped(file.hooks@, file.hooks@.len() as int),
                        },
                    ),
                )
            },
        },
    }
}

/// What loading the first `n` layers gives: the error of the first
/// layer that fails, or all hooks and all summaries, in order.
pub open spec fn layers_outcome(sources: Seq<LayerSource>, n: int) -> Result<
    (Seq<HookDefinitionView>, Seq<HookLayerSummaryView>),
    HookConfigErrorView,
>
    decreases n,
{
    if n <= 0 {
        Ok((Seq::empty(), Seq::empty()))
    } else {
        match layers_outcome(sources, n - 1) {
            Err(e) => Err(e),
            Ok(before) => match layer_outcome(sources[n - 1]) {
                Err(e) => Err(e),
                Ok(layer) => Ok((before.0 + layer.0, before.1.push(layer.1))),
            },
        }
    }
}

pub open spec fn loaded_view(
    r: Result<(Vec<HookDefinition>, Vec<HookLayerSummary>), HookConfigError>,
) -> Result<(Seq<HookDefinitionView>, Seq<HookLayerSummaryView>), HookConfigErrorView> {
    match r {
        Ok(pair) => Ok((pair.0.deep_view(), pair.1.deep_view())),
        Err(e) => Err(e.deep_view()),
    }
}

/// The hook that stands for a legacy `notifications.notify` setting.
pub open spec fn legacy_notify_hook(argv: Seq<Seq<char>>, codex_home: Seq<char>) -> HookDefinitionView {
    HookDefinitionView {
        id: "legacy.notify"@,
        event: HookEvent::Notification,
        notes: None,
        command: argv,
        working_dir: None,
        timeout_ms: None,
        allow_parallel: false,
        schema_versions: seq!["1.0"@],
        env: Seq::empty(),
        matchers: no_matchers(),
        scope: HookScopeView::LocalUser { codex_home },
        source_path: None,
    }
}

fn load_layer(source: &LayerSource) -> (r: Result<
    (Vec<HookDefinition>, HookLayerSummary),
    HookConfigError,
>)
    ensures
        match r {
            Ok(pair) => layer_outcome(*source) == Ok::<
                (Seq<HookDefinitionView>, HookLayerSummaryView),
                HookConfigErrorView,
            >((pair.0.deep_view(), pair.1.deep_view())),
            Err(e) => layer_outcome(*source) == Err::<
                (Seq<HookDefinitionView>, HookLayerSummaryView),
                HookConfigErrorView,
            >(e.deep_view()),
        },
{
    let text = match &source.contents {
        Ok(t) => t,
        Err(e) => {
            return Err(HookConfigError::Io(e.clone()));
        },
    };
    let file = match &source.parsed {
        Ok(f) => f,
        Err(m) => {
            return Err(HookConfigError::InvalidConfiguration(m.clone()));
        },
    };
    if !same_text(file.schema_version.as_str(), "1.0") {
        return Err(
            HookConfigError::InvalidConfiguration(String::from_str("unsupported schemaVersion")),
        );
    }
    let mut definitions: Vec<HookDefinition> = Vec::new();
    let mut skipped: Vec<SkippedHook> = Vec::new();
    let mut seen: Vec<String> = Vec::new();
    let ghost scope = source.scope.deep_view();
    let ghost path = source.path@;
    let ghost hooks = file.hooks@;
    let mut i: usize = 0;
    proof {
        assert(definitions.deep_view() =~= layer_hooks(hooks, scope, path, 0));
        assert(skipped.deep_view() =~= layer_skipped(hooks, 0));
        assert(seen.deep_view() =~= seen_ids(hooks, 0));
    }
    while i < file.hooks.len()
        invariant
            i <= file.hooks.len(),
            hooks == file.hooks@,
            scope == source.scope.deep_view(),
            path == source.path@,
            definitions.deep_view() == layer_hooks(hooks, scope, path, i as int),
            skipped.deep_view() == layer_skipped(hooks, i as int),
            seen.deep_view() == seen_ids(hooks, i as int),
            definitions@.len() <= i,
        decreases file.hooks.len() - i,
    {
        let hook = &file.hooks[i];
        let ghost d0 = definitions.deep_view();
        let ghost s0 = skipped.deep_view();
        let ghost seen0 = seen.deep_view();
        if blank(hook.id.as_str()) {
            skipped.push(
                SkippedHook::new(HookSkipReason::InvalidSchema).with_details(
                    "hook id must not be empty",
                ),
            );
            proof {
                assert(skipped.deep_view() =~= s0.push(skip_of(hooks, i as int)->0));
            }
        } else {
            let duplicate = holds_text(&seen, hook.id.as_str());
            seen.push(hook.id.clone());
            proof {
                assert(seen.deep_view() =~= seen0.push(hook.id@));
            }
            if duplicate {
                skipped.push(
                    SkippedHook::new(HookSkipReason::DuplicateId).with_hook_id(hook.id.as_str()),
                );
                proof {
                    assert(skipped.deep_view() =~= s0.push(skip_of(hooks, i as int)->0));
                }
            } else if hook.command.len() == 0 {
                skipped.push(
                    SkippedHook::new(HookSkipReason::InvalidSchema).with_hook_id(
                        hook.id.as_str(),
                    ).with_details("command must not be empty"),
                );
                proof {
                    assert(skipped.deep_view() =~= s0.push(skip_of(hooks, i as int)->0));
                }
            } else if hook.schema_versions.len() == 0 {
                skipped.push(
                    SkippedHook::new(HookSkipReason::InvalidSchema).with_hook_id(
                        hook.id.as_str(),
                    ).with_details("schemaVersions must not be empty"),
                );
                proof {
                    assert(skipped.deep_view() =~= s0.push(skip_of(hooks, i as int)->0));
                }
            } else {
                let definition = HookDefinition {
                    id: hook.id.clone(),
                    event: hook.event,
                    notes: copy_opt_string(&hook.notes),
                    command: copy_strings(&hook.command),
                    working_dir: copy_opt_string(&hook.working_dir),
                    timeout_ms: hook.timeout_ms,
                    allow_parallel: hook.allow_parallel,
                    schema_versions: copy_strings(&hook.schema_versions),
                    env: copy_pairs(&hook.env),
                    matchers: hook.matchers.clone(),
                    scope: source.scope.clone(),
                    source_path: Some(source.path.clone()),
                };
                let ghost dv = definition.deep_view();
                definitions.push(definition);
                proof {
                    assert(skip_of(hooks, i as int) is None);
                    assert(dv == entry_definition(hooks[i as int], scope, path));
                    assert(definitions.deep_view() =~= d0.push(dv));
                }
            }
        }
        i += 1;
    }
    let summary = HookLayerSummary {
        scope: source.scope.clone(),
        path: source.path.clone(),
        checksum: checksum(text.as_str()),
        loaded_hooks: definitions.len(),
        skipped_hooks: skipped,
    };
    Ok((definitions, summary))
}

fn find_problem(hooks: &Vec<HookEntry>) -> (r: Option<String>)
    ensures
        r.deep_view() == first_problem(hooks@, hooks@.len() as int),
{
    let mut i: usize = 0;
    while i < hooks.len()
        invariant
            i <= hooks.len(),
            first_problem(hooks@, i as int) is None,
        decreases hooks.len() - i,
    {
        let h = &hooks[i];
        if blank(h.id.as_str()) {
            proof {
                lemma_problem_stays(hooks@, i + 1, hooks@.len() as int);
            }
            return Some(String::from_str("hook id must not be empty"));
        }
        if h.command.len() == 0 {
            proof {
                lemma_problem_stays(hooks@, i + 1, hooks@.len() as int);
            }
            return Some(text3("hook `", h.id.as_str(), "` missing command"));
        }
        if h.schema_versions.len() == 0 {
            proof {
                lemma_problem_stays(hooks@, i + 1, hooks@.len() as int);
            }
            return Some(text3("hook `", h.id.as_str(), "` missing schemaVersions"));
        }
        i += 1;
    }
    None
}

proof fn lemma_problem_stays(hooks: Seq<HookEntry>, n: int, m: int)
    requires
        0 <= n <= m,
        first_problem(hooks, n) is Some,
    ensures
        first_problem(hooks, m) == first_problem(hooks, n),
    decreases m - n,
{
    if n < m {
        lemma_problem_stays(hooks, n, m - 1);
    }
}

impl HookConfigLoader {
    /// Validates a decoded document: it must have decoded, speak schema
    /// version 1.0, and each of its entries must have an id that is not
    /// blank, a command and at least one schema version.
    pub fn validate_document(parsed: &Result<HookFile, String>) -> (r: Result<(), HookConfigError>)
        ensures
            match document_problem(*parsed) {
                Some(p) => r is Err && r->Err_0.deep_view()
                    == HookConfigErrorView::InvalidConfiguration(p),
                None => r is Ok,
            },
    {
        let file = match parsed {
            Ok(f) => f,
            Err(m) => {
                return Err(HookConfigError::InvalidConfiguration(m.clone()));
            },
        };
        if !same_text(file.schema_version.as_str(), "1.0") {
            return Err(
                HookConfigError::InvalidConfiguration(
                    String::from_str("unsupported schemaVersion"),
                ),
            );
        }
        match find_problem(&file.hooks) {
            Some(p) => Err(HookConfigError::InvalidConfiguration(p)),
            None => Ok(()),
        }
    }

    /// Validates a configuration file, given what reading and decoding
    /// it gave.
    pub fn validate_file(contents: &Result<String, String>, parsed: &Result<HookFile, String>) -> (r:
        Result<(), HookConfigError>)
        ensures
            match *contents {
                Err(e) => r is Err && r->Err_0.deep_view() == HookConfigErrorView::Io(e@),
                Ok(_) => match document_problem(*parsed) {
                    Some(p) => r is Err && r->Err_0.deep_view()
                        == HookConfigErrorView::InvalidConfiguration(p),
                    None => r is Ok,
                },
            },
    {
        match contents {
            Err(e) => Err(HookConfigError::Io(e.clone())),
            Ok(_) => Self::validate_document(parsed),
        }
    }

    /// Turns a legacy `notifications.notify` setting into a
    /// notification hook of the local user that runs the given
    /// command. Without the setting, or with an empty command, there is
    /// nothing to turn.
    pub fn synthesize_legacy_notify(notify: &Option<Vec<String>>, codex_home: &str) -> (r: Result<
        HookDefinition,
        HookConfigError,
    >)
        ensures
            match *notify {
                Some(argv) if argv@.len() > 0 => r is Ok && r->Ok_0.deep_view()
                    == legacy_notify_hook(argv.deep_view(), codex_home@),
                _ => r is Err && r->Err_0.deep_view() == HookConfigErrorView::InvalidConfiguration(
                    "legacy notify configuration not found"@,
                ),
            },
    {
        match notify {
            Some(argv) => {
                if argv.len() > 0 {
                    let mut definition = HookDefinition::new(
                        "legacy.notify",
                        HookEvent::Notification,
                        HookScope::LocalUser { codex_home: String::from_str(codex_home) },
                    );
                    definition.command = copy_strings(argv);
                    return Ok(definition);
                }
            },
            None => {},
        }
        Err(
            HookConfigError::InvalidConfiguration(
                String::from_str("legacy notify configuration not found"),
            ),
        )
    }

    /// Loads the layers in the order given. The first layer that cannot
    /// be read or decoded ends the loading with its error.
    pub fn load_layers(sources: &Vec<LayerSource>) -> (r: Result<
        (Vec<HookDefinition>, Vec<HookLayerSummary>),
        HookConfigError,
    >)
        ensures
            loaded_view(r) == layers_outcome(sources@, sources@.len() as int),
    {
        let mut definitions: Vec<HookDefinition> = Vec::new();
        let mut summaries: Vec<HookLayerSummary> = Vec::new();
        let mut i: usize = 0;
        proof {
            assert(definitions.deep_view() =~= Seq::<HookDefinitionView>::empty());
            assert(summaries.deep_view() =~= Seq::<HookLayerSummaryView>::empty());
        }
        while i < sources.len()
            invariant
                i <= sources.len(),
                layers_outcome(sources@, i as int) == Ok::<
                    (Seq<HookDefinitionView>, Seq<HookLayerSummaryView>),
                    HookConfigErrorView,
                >((definitions.deep_view(), summaries.deep_view())),
            decreases sources.len() - i,
        {
            let ghost d0 = definitions.deep_view();
            let ghost s0 = summaries.deep_view();
            match load_layer(&sources[i]) {
                Err(e) => {
                    proof {
                        lemma_layers_error_stays(sources@, i + 1, sources@.len() as int);
                    }
                    return Err(e);
                },
                Ok(pair) => {
                    let (mut layer_definitions, summary) = pair;
                    let ghost ld = layer_definitions.deep_view();
                    let ghost sv = summary.deep_view();
                    definitions.append(&mut layer_definitions);
                    summaries.push(summary);
                    proof {
                        assert(definitions.deep_view() =~= d0 + ld);
                        assert(summaries.deep_view() =~= s0.push(sv));
                    }
                },
            }
            i += 1;
        }
        Ok((definitions, summaries))
    }
}

proof fn lemma_layers_error_stays(sources: Seq<LayerSource>, n: int, m: int)
    requires
        0 <= n <= m,
        layers_outcome(sources, n) is Err,
    ensures
        layers_outcome(sources, m) == layers_outcome(sources, n),
    decreases m - n,
{
    if n < m {
        lemma_layers_error_stays(sources, n, m - 1);
    }
}

} // verus!
