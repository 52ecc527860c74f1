//! The panel that shows the hooks of a session: its lines, each made
//! of pieces of text with their looks.

use crate::clock::{rfc3339_millis_text, to_rfc3339_millis};
use crate::hooks::definition::{HookDefinition, HookDefinitionView};
use crate::hooks::events::{event_index, event_name, event_order, format_event, HookEvent};
use crate::hooks::inspect::{ellipsized, summarize_command};
use crate::hooks::layer_summary::{HookLayerSummary, HookLayerSummaryView};
use crate::hooks::matchers::{HookMatcher, HookMatcherView, HookMatchers, HookMatchersView};
use crate::hooks::scope::{precedence_rank, rank_of, HookScope, HookScopeView};
use crate::hooks::skipped::{HookSkipReason, SkippedHook, SkippedHookView};
use crate::hooks::snapshot::HookRegistrySnapshot;
use crate::lines::{join, joined, string_texts};
use crate::numfmt::{decimal, decimal_chars};
use crate::order::{order_of, positions, sorted_order};
use crate::text::{push_all, push_str, string_of};
use vstd::prelude::*;

verus! {

/// The colours of the panel.
#[derive(Clone, Copy, Debug, PartialEq, Eq, Structural)]
pub enum PanelColor {
    Red,
    Cyan,
    Yellow,
    Magenta,
}

/// How a piece of text looks.
#[derive(Clone, Copy, Debug, PartialEq, Eq, Structural)]
pub struct Look {
    pub bold: bool,
    pub dim: bool,
    pub italic: bool,
    pub color: Option<PanelColor>,
}

/// A piece of text with its look.
#[derive(Debug, PartialEq, Eq)]
pub struct PanelSpan {
    pub text: String,
    pub look: Look,
}

pub struct PanelSpanView {
    pub text: Seq<char>,
    pub look: Look,
}

impl DeepView for PanelSpan {
    type V = PanelSpanView;

    open spec fn deep_view(&self) -> PanelSpanView {
        PanelSpanView { text: self.text@, look: self.look }
    }
}

pub open spec fn plain() -> Look {
    Look { bold: false, dim: false, italic: false, color: None }
}

pub open spec fn bold() -> Look {
    Look { bold: true, ..plain() }
}

pub open spec fn dim() -> Look {
    Look { dim: true, ..plain() }
}

pub open spec fn italic() -> Look {
    Look { italic: true, ..plain() }
}

pub open spec fn tinted(color: PanelColor, look: Look) -> Look {
    Look { color: Some(color), ..look }
}

/// A piece of text.
pub open spec fn piece(text: Seq<char>, look: Look) -> PanelSpanView {
    PanelSpanView { text, look }
}

fn put(line: &mut Vec<PanelSpan>, text: &str, look: Look)
    ensures
        final(line).deep_view() == old(line).deep_view().push(piece(text@, look)),
{
    let ghost l0 = line.deep_view();
    line.push(PanelSpan { text: String::from_str(text), look });
    proof {
        assert(line.deep_view() =~= l0.push(piece(text@, look)));
    }
}

fn look(bold: bool, dim: bool, italic: bool, color: Option<PanelColor>) -> (r: Look)
    ensures
        r == (Look { bold, dim, italic, color }),
{
    Look { bold, dim, italic, color }
}

/// The badge of a scope: the managed policy by its name in cyan, the
/// project in magenta and the user in yellow, all of them bold.
pub open spec fn scope_badge(scope: HookScopeView) -> PanelSpanView {
    match scope {
        HookScopeView::ManagedPolicy { name } => piece(
            "managed:"@ + name,
            tinted(PanelColor::Cyan, bold()),
        ),
        HookScopeView::Project { .. } => piece("project"@, tinted(PanelColor::Magenta, bold())),
        HookScopeView::LocalUser { .. } => piece("local"@, tinted(PanelColor::Yellow, bold())),
    }
}

fn put_badge(line: &mut Vec<PanelSpan>, scope: &HookScope)
    ensures
        final(line).deep_view() == old(line).deep_view().push(scope_badge(scope.deep_view())),
{
    match scope {
        HookScope::ManagedPolicy { name } => {
            let mut t: Vec<char> = Vec::new();
            push_str(&mut t, "managed:");
            push_str(&mut t, name.as_str());
            let text = string_of(&t);
            put(line, text.as_str(), look(true, false, false, Some(PanelColor::Cyan)));
        },
        HookScope::Project { .. } => put(
            line,
            "project",
            look(true, false, false, Some(PanelColor::Magenta)),
        ),
        HookScope::LocalUser { .. } => put(
            line,
            "local",
            look(true, false, false, Some(PanelColor::Yellow)),
        ),
    }
}

/// The name under which the panel shows a reason.
pub open spec fn reason_label(r: HookSkipReason) -> Seq<char> {
    match r {
        HookSkipReason::InvalidSchema => "invalid-schema"@,
        HookSkipReason::UnsupportedVersion => "unsupported-version"@,
        HookSkipReason::DuplicateId => "duplicate-id"@,
        HookSkipReason::MissingExecutable => "missing-executable"@,
        HookSkipReason::InvalidMatcher => "invalid-matcher"@,
    }
}

/// The line of a layer: its scope, its path, how many hooks it gave
/// and, where it skipped any, how many.
pub open spec fn layer_line(l: HookLayerSummaryView) -> Seq<PanelSpanView> {
    seq![
        piece("  \u{2022} "@, dim()),
        scope_badge(l.scope),
        piece(" "@, plain()),
        piece(l.path, tinted(PanelColor::Cyan, plain())),
        piece("  ("@, dim()),
        piece(decimal(l.loaded_hooks as nat) + " loaded"@, dim()),
    ] + (if l.skipped_hooks.len() > 0 {
        seq![
            piece(", "@, dim()),
            piece(
                decimal(l.skipped_hooks.len()) + " skipped"@,
                tinted(PanelColor::Yellow, dim()),
            ),
        ]
    } else {
        Seq::empty()
    }) + seq![piece(")"@, dim())]
}

fn counted(n: usize, what: &str) -> (r: String)
    ensures
        r@ == decimal(n as nat) + what@,
{
    let mut t: Vec<char> = Vec::new();
    let digits = decimal_chars(n as u64);
    push_all(&mut t, &digits);
    push_str(&mut t, what);
    string_of(&t)
}

/// Writes the line of a layer.
pub fn render_layer_summary(layer: &HookLayerSummary) -> (r: Vec<PanelSpan>)
    ensures
        r.deep_view() == layer_line(layer.deep_view()),
{
    let mut line: Vec<PanelSpan> = Vec::new();
    proof {
        assert(line.deep_view() =~= Seq::<PanelSpanView>::empty());
        assert(layer.deep_view().skipped_hooks.len() == layer.skipped_hooks@.len());
    }
    put(&mut line, "  \u{2022} ", look(false, true, false, None));
    put_badge(&mut line, &layer.scope);
    put(&mut line, " ", look(false, false, false, None));
    put(&mut line, layer.path.as_str(), look(false, false, false, Some(PanelColor::Cyan)));
    put(&mut line, "  (", look(false, true, false, None));
    let loaded = counted(layer.loaded_hooks, " loaded");
    put(&mut line, loaded.as_str(), look(false, true, false, None));
    if layer.skipped_hooks.len() > 0 {
        put(&mut line, ", ", look(false, true, false, None));
        let skipped = counted(layer.skipped_hooks.len(), " skipped");
        put(&mut line, skipped.as_str(), look(false, true, false, Some(PanelColor::Yellow)));
    }
    put(&mut line, ")", look(false, true, false, None));
    proof {
        assert(line.deep_view() =~= layer_line(layer.deep_view()));
    }
    line
}

/// The line of a skipped hook: its id where it is known, why it was
/// skipped, and the details where there are any.
pub open spec fn skipped_line(s: SkippedHookView) -> Seq<PanelSpanView> {
    seq![piece("        \u{21b3} skipped "@, dim())] + (match s.hook_id {
        Some(id) => seq![piece(id, dim()), piece(" "@, plain())],
        None => Seq::empty(),
    }) + seq![piece("("@ + reason_label(s.reason) + ")"@, tinted(PanelColor::Yellow, dim()))] + (
    match s.details {
        Some(d) => seq![piece(" \u{2013} "@, dim()), piece(d, dim())],
        None => Seq::empty(),
    })
}

/// Writes the line of a skipped hook.
pub fn render_skipped_hook(skipped: &SkippedHook) -> (r: Vec<PanelSpan>)
    ensures
        r.deep_view() == skipped_line(skipped.deep_view()),
{
    let mut line: Vec<PanelSpan> = Vec::new();
    proof {
        assert(line.deep_view() =~= Seq::<PanelSpanView>::empty());
    }
    put(&mut line, "        \u{21b3} skipped ", look(false, true, false, None));
    match &skipped.hook_id {
        Some(id) => {
            put(&mut line, id.as_str(), look(false, true, false, None));
            put(&mut line, " ", look(false, false, false, None));
        },
        None => {},
    }
    let mut t: Vec<char> = Vec::new();
    push_str(&mut t, "(");
    match skipped.reason {
        HookSkipReason::InvalidSchema => push_str(&mut t, "invalid-schema"),
        HookSkipReason::UnsupportedVersion => push_str(&mut t, "unsupported-version"),
        HookSkipReason::DuplicateId => push_str(&mut t, "duplicate-id"),
        HookSkipReason::MissingExecutable => push_str(&mut t, "missing-executable"),
        HookSkipReason::InvalidMatcher => push_str(&mut t, "invalid-matcher"),
    }
    push_str(&mut t, ")");
    let reason = string_of(&t);
    put(&mut line, reason.as_str(), look(false, true, false, Some(PanelColor::Yellow)));
    match &skipped.details {
        Some(d) => {
            put(&mut line, " \u{2013} ", look(false, true, false, None));
            put(&mut line, d.as_str(), look(false, true, false, None));
        },
        None => {},
    }
    proof {
        assert(line.deep_view() =~= skipped_line(skipped.deep_view()));
    }
    line
}

/// The heading of an event: its name and how many hooks it has.
pub open spec fn event_header(event: HookEvent, count: nat) -> Seq<PanelSpanView> {
    seq![
        piece(event_name(event), bold()),
        piece("  "@, plain()),
        piece(
            decimal(count) + (if count == 1 {
                " hook"@
            } else {
                " hooks"@
            }),
            dim(),
        ),
    ]
}

/// Writes the heading of an event.
pub fn render_event_header(event: HookEvent, count: usize) -> (r: Vec<PanelSpan>)
    ensures
        r.deep_view() == event_header(event, count as nat),
{
    let mut line: Vec<PanelSpan> = Vec::new();
    proof {
        assert(line.deep_view() =~= Seq::<PanelSpanView>::empty());
    }
    let name = format_event(event);
    put(&mut line, name.as_str(), look(true, false, false, None));
    put(&mut line, "  ", look(false, false, false, None));
    let hooks = if count == 1 {
        counted(count, " hook")
    } else {
        counted(count, " hooks")
    };
    put(&mut line, hooks.as_str(), look(false, true, false, None));
    proof {
        assert(line.deep_view() =~= event_header(event, count as nat));
    }
    line
}

/// The line of a hook: its scope and its id, and then its timeout,
/// whether it may run beside others, and its command in short, each
/// where it has it.
pub open spec fn definition_line(d: HookDefinitionView) -> Seq<PanelSpanView> {
    seq![
        piece("    \u{2022} "@, dim()),
        scope_badge(d.scope),
        piece(" "@, plain()),
        piece(d.id, bold()),
    ] + (match d.timeout_ms {
        Some(t) => seq![
            piece("  "@, plain()),
            piece("timeout "@ + decimal(t as nat) + "ms"@, dim()),
        ],
        None => Seq::empty(),
    }) + (if d.allow_parallel {
        seq![piece("  parallel"@, dim())]
    } else {
        Seq::empty()
    }) + (if d.command.len() == 0 {
        Seq::empty()
    } else {
        seq![piece("  "@, plain()), piece(ellipsized(joined(d.command, " "@), 60), dim())]
    })
}

/// Writes the line of a hook.
pub fn render_hook_definition(definition: &HookDefinition) -> (r: Vec<PanelSpan>)
    ensures
        r.deep_view() == definition_line(definition.deep_view()),
{
    let mut line: Vec<PanelSpan> = Vec::new();
    proof {
        assert(line.deep_view() =~= Seq::<PanelSpanView>::empty());
        assert(string_texts(definition.command@) =~= definition.command.deep_view());
    }
    put(&mut line, "    \u{2022} ", look(false, true, false, None));
    put_badge(&mut line, &definition.scope);
    put(&mut line, " ", look(false, false, false, None));
    put(&mut line, definition.id.as_str(), look(true, false, false, None));
    match definition.timeout_ms {
        Some(t) => {
            put(&mut line, "  ", look(false, false, false, None));
            let mut text: Vec<char> = Vec::new();
            push_str(&mut text, "timeout ");
            let digits = decimal_chars(t);
            push_all(&mut text, &digits);
            push_str(&mut text, "ms");
            let shown = string_of(&text);
            put(&mut line, shown.as_str(), look(false, true, false, None));
        },
        None => {},
    }
    if definition.allow_parallel {
        put(&mut line, "  parallel", look(false, true, false, None));
    }
    match summarize_command(&definition.command) {
        Some(cmd) => {
            put(&mut line, "  ", look(false, false, false, None));
            put(&mut line, cmd.as_str(), look(false, true, false, None));
        },
        None => {},
    }
    proof {
        assert(line.deep_view() =~= definition_line(definition.deep_view()));
    }
    line
}

/// The line of the notes of a hook.
pub open spec fn notes_line(notes: Seq<char>) -> Seq<PanelSpanView> {
    seq![piece("        \u{21b3} "@, dim()), piece(notes, Look { italic: true, ..dim() })]
}

/// Writes the line of the notes of a hook.
pub fn render_notes_line(notes: &str) -> (r: Vec<PanelSpan>)
    ensures
        r.deep_view() == notes_line(notes@),
{
    let mut line: Vec<PanelSpan> = Vec::new();
    proof {
        assert(line.deep_view() =~= Seq::<PanelSpanView>::empty());
    }
    put(&mut line, "        \u{21b3} ", look(false, true, false, None));
    put(&mut line, notes, look(false, true, true, None));
    proof {
        assert(line.deep_view() =~= notes_line(notes@));
    }
    line
}

/// How a matcher is shown.
pub open spec fn matcher_text(m: HookMatcherView) -> Seq<char> {
    match m {
        HookMatcherView::Exact { value } => "=\""@ + value + "\""@,
        HookMatcherView::Glob { value } => "glob:"@ + value,
        HookMatcherView::Regex { value } => "re:"@ + value,
    }
}

pub fn describe_matcher(matcher: &HookMatcher) -> (r: String)
    ensures
        r@ == matcher_text(matcher.deep_view()),
{
    let mut t: Vec<char> = Vec::new();
    match matcher {
        HookMatcher::Exact { value } => {
            push_str(&mut t, "=\"");
            push_str(&mut t, value.as_str());
            push_str(&mut t, "\"");
        },
        HookMatcher::Glob { value } => {
            push_str(&mut t, "glob:");
            push_str(&mut t, value.as_str());
        },
        HookMatcher::Regex { value } => {
            push_str(&mut t, "re:");
            push_str(&mut t, value.as_str());
        },
    }
    string_of(&t)
}

/// How matchers are shown: one after the other, with commas between
/// them.
pub open spec fn matchers_text(matchers: Seq<HookMatcherView>) -> Seq<char> {
    joined(matchers.map_values(|m: HookMatcherView| matcher_text(m)), ","@)
}

pub fn describe_matcher_list(matchers: &Vec<HookMatcher>) -> (r: String)
    ensures
        r@ == matchers_text(matchers.deep_view()),
{
    let mut shown: Vec<String> = Vec::new();
    let ghost all = matchers.deep_view();
    let ghost f = |m: HookMatcherView| matcher_text(m);
    let mut i: usize = 0;
    proof {
        assert(string_texts(shown@) =~= all.take(0).map_values(f));
    }
    while i < matchers.len()
        invariant
            i <= matchers.len(),
            all == matchers.deep_view(),
            f == (|m: HookMatcherView| matcher_text(m)),
            string_texts(shown@) == all.take(i as int).map_values(f),
        decreases matchers.len() - i,
    {
        let ghost s0 = string_texts(shown@);
        let text = describe_matcher(&matchers[i]);
        shown.push(text);
        proof {
            assert(all[i as int] == matchers@[i as int].deep_view());
            assert(all.take(i + 1) =~= all.take(i as int).push(all[i as int]));
            assert(string_texts(shown@) =~= s0.push(matcher_text(all[i as int])));
            assert(string_texts(shown@) =~= all.take(i + 1).map_values(f));
        }
        i += 1;
    }
    proof {
        assert(all.take(all.len() as int) =~= all);
    }
    join(&shown, ",")
}

/// The filters of a hook, each kind that it has with its matchers.
pub open spec fn filter_parts(m: HookMatchersView) -> Seq<Seq<char>> {
    (if m.tool_names.len() > 0 {
        seq!["tool="@ + matchers_text(m.tool_names)]
    } else {
        Seq::empty()
    }) + (if m.sources.len() > 0 {
        seq!["source="@ + matchers_text(m.sources)]
    } else {
        Seq::empty()
    }) + (if m.paths.len() > 0 {
        seq!["path="@ + matchers_text(m.paths)]
    } else {
        Seq::empty()
    }) + (if m.tags.len() > 0 {
        seq!["tags="@ + joined(m.tags, ","@)]
    } else {
        Seq::empty()
    })
}

/// The line of the filters of a hook, where it has any.
pub open spec fn matchers_line(m: HookMatchersView) -> Option<Seq<PanelSpanView>> {
    if filter_parts(m).len() == 0 {
        None
    } else {
        Some(
            seq![
                piece("        \u{21b3} filters "@, dim()),
                piece(joined(filter_parts(m), " \u{b7} "@), dim()),
            ],
        )
    }
}

fn labelled(label: &str, text: &str) -> (r: String)
    ensures
        r@ == label@ + text@,
{
    let mut t: Vec<char> = Vec::new();
    push_str(&mut t, label);
    push_str(&mut t, text);
    string_of(&t)
}

/// Writes the line of the filters of a hook.
pub fn render_matchers_line(matchers: &HookMatchers) -> (r: Option<Vec<PanelSpan>>)
    ensures
        r.deep_view() == matchers_line(matchers.deep_view()),
{
    let mut parts: Vec<String> = Vec::new();
    proof {
        assert(matchers.deep_view().tool_names.len() == matchers.tool_names@.len());
        assert(matchers.deep_view().sources.len() == matchers.sources@.len());
        assert(matchers.deep_view().paths.len() == matchers.paths@.len());
        assert(matchers.deep_view().tags.len() == matchers.tags@.len());
        assert(string_texts(matchers.tags@) =~= matchers.tags.deep_view());
    }
    if matchers.tool_names.len() > 0 {
        let shown = describe_matcher_list(&matchers.tool_names);
        parts.push(labelled("tool=", shown.as_str()));
    }
    if matchers.sources.len() > 0 {
        let shown = describe_matcher_list(&matchers.sources);
        parts.push(labelled("source=", shown.as_str()));
    }
    if matchers.paths.len() > 0 {
        let shown = describe_matcher_list(&matchers.paths);
        parts.push(labelled("path=", shown.as_str()));
    }
    if matchers.tags.len() > 0 {
        let tags = join(&matchers.tags, ",");
        parts.push(labelled("tags=", tags.as_str()));
    }
    proof {
        assert(string_texts(parts@) =~= filter_parts(matchers.deep_view()));
    }
    if parts.len() == 0 {
        return None;
    }
    let text = join(&parts, " \u{b7} ");
    let mut line: Vec<PanelSpan> = Vec::new();
    proof {
        assert(line.deep_view() =~= Seq::<PanelSpanView>::empty());
    }
    put(&mut line, "        \u{21b3} filters ", look(false, true, false, None));
    put(&mut line, text.as_str(), look(false, true, false, None));
    proof {
        assert(line.deep_view() =~= matchers_line(matchers.deep_view())->0);
    }
    Some(line)
}

/// An empty line.
pub open spec fn blank_line() -> Seq<PanelSpanView> {
    seq![piece(Seq::empty(), plain())]
}

/// A line of one piece.
pub open spec fn one_piece(text: Seq<char>, look: Look) -> Seq<PanelSpanView> {
    seq![piece(text, look)]
}

fn line_of(text: &str, look: Look) -> (r: Vec<PanelSpan>)
    ensures
        r.deep_view() == one_piece(text@, look),
{
    let mut line: Vec<PanelSpan> = Vec::new();
    proof {
        assert(line.deep_view() =~= Seq::<PanelSpanView>::empty());
    }
    put(&mut line, text, look);
    proof {
        assert(line.deep_view() =~= one_piece(text@, look));
    }
    line
}

fn empty_line() -> (r: Vec<PanelSpan>)
    ensures
        r.deep_view() == blank_line(),
{
    let nothing = String::new();
    let line = line_of(nothing.as_str(), look(false, false, false, None));
    proof {
        assert(one_piece(nothing@, plain()) =~= blank_line());
    }
    line
}

/// The lines of a layer: its own, and one for each hook that it
/// skipped.
pub open spec fn layer_block(l: HookLayerSummaryView) -> Seq<Seq<PanelSpanView>> {
    seq![layer_line(l)] + l.skipped_hooks.map_values(|s: SkippedHookView| skipped_line(s))
}

/// The lines of the first `n` layers in the order given.
pub open spec fn layers_upto(layers: Seq<HookLayerSummaryView>, order: Seq<int>, n: int) -> Seq<
    Seq<PanelSpanView>,
>
    decreases n,
{
    if n <= 0 {
        Seq::empty()
    } else {
        layers_upto(layers, order, n - 1) + layer_block(layers[order[n - 1]])
    }
}

/// The keys by which the layers are put in order: their scopes, from
/// the managed policy to the user.
pub open spec fn layer_keys(layers: Seq<HookLayerSummaryView>) -> Seq<(Seq<char>, Seq<char>)> {
    layers.map_values(
        |l: HookLayerSummaryView| (decimal(rank_of(l.scope) as nat), Seq::<char>::empty()),
    )
}

/// The lines of a hook: its own, that of its notes and that of its
/// filters, each where it has them.
pub open spec fn hook_lines(d: HookDefinitionView) -> Seq<Seq<PanelSpanView>> {
    seq![definition_line(d)] + (match d.notes {
        Some(notes) => seq![notes_line(notes)],
        None => Seq::empty(),
    }) + (match matchers_line(d.matchers) {
        Some(line) => seq![line],
        None => Seq::empty(),
    })
}

/// The lines of the first `n` hooks in the order given.
pub open spec fn hooks_upto(hooks: Seq<HookDefinitionView>, order: Seq<int>, n: int) -> Seq<
    Seq<PanelSpanView>,
>
    decreases n,
{
    if n <= 0 {
        Seq::empty()
    } else {
        hooks_upto(hooks, order, n - 1) + hook_lines(hooks[order[n - 1]])
    }
}

/// The keys by which the hooks of an event are put in order: their
/// scopes, from the managed policy to the user, and then their ids.
pub open spec fn hook_keys(hooks: Seq<HookDefinitionView>) -> Seq<(Seq<char>, Seq<char>)> {
    hooks.map_values(|h: HookDefinitionView| (decimal(rank_of(h.scope) as nat), h.id))
}

/// The lines of an event: an empty line unless it is the first, its
/// heading, and its hooks in their order.
pub open spec fn event_block(e: (HookEvent, Seq<HookDefinitionView>), first: bool) -> Seq<
    Seq<PanelSpanView>,
> {
    (if first {
        Seq::empty()
    } else {
        seq![blank_line()]
    }) + seq![event_header(e.0, e.1.len())] + hooks_upto(
        e.1,
        order_of(hook_keys(e.1), e.1.len() as int),
        e.1.len() as int,
    )
}

/// The lines of the first `n` events in the order given.
pub open spec fn events_upto(
    events: Seq<(HookEvent, Seq<HookDefinitionView>)>,
    order: Seq<int>,
    n: int,
) -> Seq<Seq<PanelSpanView>>
    decreases n,
{
    if n <= 0 {
        Seq::empty()
    } else {
        events_upto(events, order, n - 1) + event_block(events[order[n - 1]], n == 1)
    }
}

/// The keys by which the events are put in order: their places among
/// the events of a session, and then their names.
pub open spec fn event_keys(events: Seq<(HookEvent, Seq<HookDefinitionView>)>) -> Seq<
    (Seq<char>, Seq<char>),
> {
    events.map_values(
        |e: (HookEvent, Seq<HookDefinitionView>)|
            (decimal(event_index(e.0) as nat), event_name(e.0)),
    )
}

/// How many hooks the first `n` events have, as far as it can be
/// counted.
pub open spec fn hooks_counted(events: Seq<(HookEvent, Seq<HookDefinitionView>)>, n: int) -> int
    decreases n,
{
    if n <= 0 {
        0
    } else {
        let sum = hooks_counted(events, n - 1) + events[n - 1].1.len();
        if sum > usize::MAX {
            usize::MAX as int
        } else {
            sum
        }
    }
}

/// The counts of the panel on one line.
pub open spec fn counts_line(events: nat, hooks: nat, layers: nat) -> Seq<PanelSpanView> {
    seq![
        piece("Events: "@ + decimal(events), dim()),
        piece("  "@, plain()),
        piece("Hooks: "@ + decimal(hooks), dim()),
        piece("  "@, plain()),
        piece("Layers: "@ + decimal(layers), dim()),
    ]
}

/// The head of the panel: its title, the error of the last load where
/// there was one, and that the hooks are loaded anew where they are.
pub open spec fn panel_head(last_error: Option<Seq<char>>, refreshing: bool) -> Seq<
    Seq<PanelSpanView>,
> {
    seq![one_piece("Hook Inspector"@, bold()), blank_line()] + (match last_error {
        Some(err) => seq![
            one_piece("Error loading hooks: "@ + err, tinted(PanelColor::Red, bold())),
            blank_line(),
        ],
        None => Seq::empty(),
    }) + (if refreshing {
        seq![
            one_piece("Refreshing hook registry\u{2026}"@, Look { italic: true, ..dim() }),
            blank_line(),
        ]
    } else {
        Seq::empty()
    })
}

/// The panel of the hooks. Under its head it says when the hooks were
/// loaded last and how many events, hooks and layers there are. While
/// the first load is under way it says only so; and where there is
/// nothing to show it says so. Else the layers follow, from the
/// managed policy to the user, each with what it skipped; and the
/// events in the order of a session, each with its hooks by scope
/// and id.
pub open spec fn panel_lines(
    events: Seq<(HookEvent, Seq<HookDefinitionView>)>,
    layers: Seq<HookLayerSummaryView>,
    last_loaded: Option<Seq<char>>,
    last_error: Option<Seq<char>>,
    is_loading: bool,
) -> Seq<Seq<PanelSpanView>> {
    let total = hooks_counted(events, events.len() as int);
    let nothing = total == 0 && layers.len() == 0;
    if is_loading && nothing {
        panel_head(last_error, false) + seq![
            one_piece("Loading hook registry\u{2026}"@, italic()),
        ]
    } else {
        panel_head(last_error, is_loading) + seq![
            one_piece(
                "Last loaded: "@ + (match last_loaded {
                    Some(t) => t,
                    None => "never"@,
                }),
                dim(),
            ),
            counts_line(events.len(), total as nat, layers.len()),
        ] + (if nothing {
            seq![
                blank_line(),
                one_piece("No hooks are currently configured."@, Look { italic: true, ..dim() }),
            ]
        } else {
            (if layers.len() > 0 {
                seq![blank_line(), one_piece("Layers"@, bold())] + layers_upto(
                    layers,
                    order_of(layer_keys(layers), layers.len() as int),
                    layers.len() as int,
                )
            } else {
                Seq::empty()
            }) + (if events.len() > 0 {
                seq![blank_line()]
            } else {
                Seq::empty()
            }) + events_upto(
                events,
                order_of(event_keys(events), events.len() as int),
                events.len() as int,
            )
        })
    }
}

fn rank_text(rank: usize) -> (r: String)
    ensures
        r@ == decimal(rank as nat),
{
    let digits = decimal_chars(rank as u64);
    string_of(&digits)
}

fn push_layers(lines: &mut Vec<Vec<PanelSpan>>, layers: &Vec<HookLayerSummary>)
    ensures
        final(lines).deep_view() == old(lines).deep_view() + layers_upto(
            layers.deep_view(),
            order_of(layer_keys(layers.deep_view()), layers.deep_view().len() as int),
            layers.deep_view().len() as int,
        ),
{
    let ghost all = layers.deep_view();
    let ghost start = lines.deep_view();
    let mut keys: Vec<(String, String)> = Vec::new();
    let ghost kf = |l: HookLayerSummaryView|
        (decimal(rank_of(l.scope) as nat), Seq::<char>::empty());
    let mut i: usize = 0;
    proof {
        assert(keys.deep_view() =~= all.take(0).map_values(kf));
    }
    while i < layers.len()
        invariant
            i <= layers.len(),
            all == layers.deep_view(),
            kf == (|l: HookLayerSummaryView|
                (decimal(rank_of(l.scope) as nat), Seq::<char>::empty())),
            keys.deep_view() == all.take(i as int).map_values(kf),
        decreases layers.len() - i,
    {
        let ghost k0 = keys.deep_view();
        let rank = precedence_rank(&layers[i].scope);
        keys.push((rank_text(rank as usize), String::new()));
        proof {
            assert(all[i as int] == layers@[i as int].deep_view());
            assert(all.take(i + 1) =~= all.take(i as int).push(all[i as int]));
            assert(keys.deep_view() =~= k0.push(kf(all[i as int])));
            assert(keys.deep_view() =~= all.take(i + 1).map_values(kf));
        }
        i += 1;
    }
    proof {
        assert(all.take(all.len() as int) =~= all);
        assert(keys.deep_view().len() == keys@.len());
        assert(keys.deep_view() == layer_keys(all));
    }
    let order = sorted_order(&keys);
    let ghost ord = positions(order@);
    let mut k: usize = 0;
    proof {
        assert(lines.deep_view() =~= start + layers_upto(all, ord, 0));
    }
    while k < order.len()
        invariant
            k <= order.len(),
            all == layers.deep_view(),
            layers@.len() == keys@.len(),
            ord == positions(order@),
            forall|j: int| 0 <= j < order@.len() ==> (#[trigger] order@[j]) < keys@.len(),
            lines.deep_view() == start + layers_upto(all, ord, k as int),
        decreases order.len() - k,
    {
        let layer = &layers[order[k]];
        let ghost l0 = lines.deep_view();
        lines.push(render_layer_summary(layer));
        let ghost l1 = lines.deep_view();
        let ghost skipped = layer.skipped_hooks.deep_view();
        let ghost f = |s: SkippedHookView| skipped_line(s);
        let mut j: usize = 0;
        proof {
            assert(all[ord[k as int]] == layer.deep_view());
            assert(l1 =~= l0.push(layer_line(layer.deep_view())));
            assert(lines.deep_view() =~= l1 + skipped.take(0).map_values(f));
        }
        while j < layer.skipped_hooks.len()
            invariant
                j <= layer.skipped_hooks.len(),
                skipped == layer.skipped_hooks.deep_view(),
                f == (|s: SkippedHookView| skipped_line(s)),
                lines.deep_view() == l1 + skipped.take(j as int).map_values(f),
            decreases layer.skipped_hooks.len() - j,
        {
            let ghost k0 = lines.deep_view();
            lines.push(render_skipped_hook(&layer.skipped_hooks[j]));
            proof {
                assert(skipped[j as int] == layer.skipped_hooks@[j as int].deep_view());
                assert(skipped.take(j + 1) =~= skipped.take(j as int).push(skipped[j as int]));
                assert(lines.deep_view() =~= k0.push(skipped_line(skipped[j as int])));
                assert(lines.deep_view() =~= l1 + skipped.take(j + 1).map_values(f));
            }
            j += 1;
        }
        proof {
            assert(skipped.take(skipped.len() as int) =~= skipped);
            assert(lines.deep_view() =~= l0 + layer_block(layer.deep_view()));
            assert(lines.deep_view() =~= start + (layers_upto(all, ord, k as int) + layer_block(
                all[ord[k as int]],
            )));
        }
        k += 1;
    }
    proof {
        assert(ord == order_of(layer_keys(all), all.len() as int));
    }
}

fn push_hooks(lines: &mut Vec<Vec<PanelSpan>>, hooks: &Vec<HookDefinition>)
    ensures
        final(lines).deep_view() == old(lines).deep_view() + hooks_upto(
            hooks.deep_view(),
            order_of(hook_keys(hooks.deep_view()), hooks.deep_view().len() as int),
            hooks.deep_view().len() as int,
        ),
{
    let ghost all = hooks.deep_view();
    let ghost start = lines.deep_view();
    let mut keys: Vec<(String, String)> = Vec::new();
    let ghost kf = |h: HookDefinitionView| (decimal(rank_of(h.scope) as nat), h.id);
    let mut i: usize = 0;
    proof {
        assert(keys.deep_view() =~= all.take(0).map_values(kf));
    }
    while i < hooks.len()
        invariant
            i <= hooks.len(),
            all == hooks.deep_view(),
            kf == (|h: HookDefinitionView| (decimal(rank_of(h.scope) as nat), h.id)),
            keys.deep_view() == all.take(i as int).map_values(kf),
        decreases hooks.len() - i,
    {
        let ghost k0 = keys.deep_view();
        let rank = precedence_rank(&hooks[i].scope);
        keys.push((rank_text(rank as usize), hooks[i].id.clone()));
        proof {
            assert(all[i as int] == hooks@[i as int].deep_view());
            assert(all.take(i + 1) =~= all.take(i as int).push(all[i as int]));
            assert(keys.deep_view() =~= k0.push(kf(all[i as int])));
            assert(keys.deep_view() =~= all.take(i + 1).map_values(kf));
        }
        i += 1;
    }
    proof {
        assert(all.take(all.len() as int) =~= all);
        assert(keys.deep_view().len() == keys@.len());
        assert(keys.deep_view() == hook_keys(all));
    }
    let order = sorted_order(&keys);
    let ghost ord = positions(order@);
    let mut k: usize = 0;
    proof {
        assert(lines.deep_view() =~= start + hooks_upto(all, ord, 0));
    }
    while k < order.len()
        invariant
            k <= order.len(),
            all == hooks.deep_view(),
            hooks@.len() == keys@.len(),
            ord == positions(order@),
            forall|j: int| 0 <= j < order@.len() ==> (#[trigger] order@[j]) < keys@.len(),
            lines.deep_view() == start + hooks_upto(all, ord, k as int),
        decreases order.len() - k,
    {
        let hook = &hooks[order[k]];
        let ghost l0 = lines.deep_view();
        lines.push(render_hook_definition(hook));
        match &hook.notes {
            Some(notes) => {
                lines.push(render_notes_line(notes.as_str()));
            },
            None => {},
        }
        match render_matchers_line(&hook.matchers) {
            Some(line) => {
                lines.push(line);
            },
            None => {},
        }
        proof {
            assert(all[ord[k as int]] == hook.deep_view());
            assert(lines.deep_view() =~= l0 + hook_lines(hook.deep_view()));
            assert(lines.deep_view() =~= start + (hooks_upto(all, ord, k as int) + hook_lines(
                all[ord[k as int]],
            )));
        }
        k += 1;
    }
    proof {
        assert(ord == order_of(hook_keys(all), all.len() as int));
    }
}

fn push_events(lines: &mut Vec<Vec<PanelSpan>>, events: &Vec<(HookEvent, Vec<HookDefinition>)>)
    ensures
        final(lines).deep_view() == old(lines).deep_view() + events_upto(
            events.deep_view(),
            order_of(event_keys(events.deep_view()), events.deep_view().len() as int),
            events.deep_view().len() as int,
        ),
{
    let ghost all = events.deep_view();
    let ghost start = lines.deep_view();
    let mut keys: Vec<(String, String)> = Vec::new();
    let ghost kf = |e: (HookEvent, Seq<HookDefinitionView>)|
        (decimal(event_index(e.0) as nat), event_name(e.0));
    let mut i: usize = 0;
    proof {
        assert(keys.deep_view() =~= all.take(0).map_values(kf));
    }
    while i < events.len()
        invariant
            i <= events.len(),
            all == events.deep_view(),
            kf == (|e: (HookEvent, Seq<HookDefinitionView>)|
                (decimal(event_index(e.0) as nat), event_name(e.0))),
            keys.deep_view() == all.take(i as int).map_values(kf),
        decreases events.len() - i,
    {
        let ghost k0 = keys.deep_view();
        let event = events[i].0;
        keys.push((rank_text(event_order(event)), format_event(event)));
        proof {
            assert(all[i as int] == (events@[i as int].0, events@[i as int].1.deep_view()));
            assert(all.take(i + 1) =~= all.take(i as int).push(all[i as int]));
            assert(keys.deep_view() =~= k0.push(kf(all[i as int])));
            assert(keys.deep_view() =~= all.take(i + 1).map_values(kf));
        }
        i += 1;
    }
    proof {
        assert(all.take(all.len() as int) =~= all);
        assert(keys.deep_view().len() == keys@.len());
        assert(keys.deep_view() == event_keys(all));
    }
    let order = sorted_order(&keys);
    let ghost ord = positions(order@);
    let mut k: usize = 0;
    proof {
        assert(lines.deep_view() =~= start + events_upto(all, ord, 0));
    }
    while k < order.len()
        invariant
            k <= order.len(),
            all == events.deep_view(),
            events@.len() == keys@.len(),
            ord == positions(order@),
            forall|j: int| 0 <= j < order@.len() ==> (#[trigger] order@[j]) < keys@.len(),
            lines.deep_view() == start + events_upto(all, ord, k as int),
        decreases order.len() - k,
    {
        let entry = &events[order[k]];
        let ghost l0 = lines.deep_view();
        if k > 0 {
            lines.push(empty_line());
        }
        lines.push(render_event_header(entry.0, entry.1.len()));
        push_hooks(lines, &entry.1);
        proof {
            let e = all[ord[k as int]];
            assert(e == (entry.0, entry.1.deep_view()));
            assert(entry.1.deep_view().len() == entry.1@.len());
            assert(lines.deep_view() =~= l0 + event_block(e, k == 0));
            assert(lines.deep_view() =~= start + (events_upto(all, ord, k as int) + event_block(
                e,
                k + 1 == 1,
            )));
        }
        k += 1;
    }
    proof {
        assert(ord == order_of(event_keys(all), all.len() as int));
    }
}

/// How many hooks the events of a snapshot have.
pub fn total_hook_count(snapshot: &HookRegistrySnapshot) -> (r: usize)
    ensures
        r == hooks_counted(
            snapshot.deep_view().events,
            snapshot.deep_view().events.len() as int,
        ),
{
    let mut total: usize = 0;
    let mut i: usize = 0;
    let ghost events = snapshot.deep_view().events;
    while i < snapshot.events.len()
        invariant
            i <= snapshot.events.len(),
            events == snapshot.events.deep_view(),
            total == hooks_counted(events, i as int),
        decreases snapshot.events.len() - i,
    {
        proof {
            assert(events[i as int].1 == snapshot.events@[i as int].1.deep_view());
            assert(events[i as int].1.len() == snapshot.events@[i as int].1@.len());
        }
        total = total.saturating_add(snapshot.events[i].1.len());
        i += 1;
    }
    proof {
        assert(events.len() == snapshot.events@.len());
    }
    total
}

fn labelled_count(label: &str, n: usize) -> (r: String)
    ensures
        r@ == label@ + decimal(n as nat),
{
    let mut t: Vec<char> = Vec::new();
    push_str(&mut t, label);
    let digits = decimal_chars(n as u64);
    push_all(&mut t, &digits);
    string_of(&t)
}

/// Writes the panel of the hooks of a snapshot; `last_error` is the
/// error of the last load, if it failed, and `is_loading` says
/// whether a load is under way.
pub fn build_hook_panel_lines(
    snapshot: &HookRegistrySnapshot,
    last_error: Option<&str>,
    is_loading: bool,
) -> (r: Vec<Vec<PanelSpan>>)
    ensures
        r.deep_view() == panel_lines(
            snapshot.deep_view().events,
            snapshot.deep_view().layers,
            match snapshot.last_loaded {
                Some(t) => Some(
                    match rfc3339_millis_text(t.millis as int) {
                        Some(text) => text,
                        None => Seq::empty(),
                    },
                ),
                None => None,
            },
            match last_error {
                Some(e) => Some(e@),
                None => None,
            },
            is_loading,
        ),
{
    let ghost events = snapshot.deep_view().events;
    let ghost layers = snapshot.deep_view().layers;
    let ghost error = match last_error {
        Some(e) => Some(e@),
        None => None,
    };
    let mut lines: Vec<Vec<PanelSpan>> = Vec::new();
    lines.push(line_of("Hook Inspector", look(true, false, false, None)));
    lines.push(empty_line());
    match last_error {
        Some(err) => {
            let text = labelled("Error loading hooks: ", err);
            lines.push(line_of(text.as_str(), look(true, false, false, Some(PanelColor::Red))));
            lines.push(empty_line());
        },
        None => {},
    }
    let total = total_hook_count(snapshot);
    let event_count = snapshot.events.len();
    let layer_count = snapshot.layers.len();
    proof {
        assert(events.len() == snapshot.events@.len());
        assert(layers.len() == snapshot.layers@.len());
        assert(lines.deep_view() =~= panel_head(error, false));
    }
    if is_loading && total == 0 && layer_count == 0 {
        lines.push(line_of("Loading hook registry\u{2026}", look(false, false, true, None)));
        proof {
            assert(lines.deep_view() =~= panel_head(error, false) + seq![
                one_piece("Loading hook registry\u{2026}"@, italic()),
            ]);
        }
        return lines;
    }
    if is_loading {
        lines.push(line_of("Refreshing hook registry\u{2026}", look(false, true, true, None)));
        lines.push(empty_line());
    }
    proof {
        assert(lines.deep_view() =~= panel_head(error, is_loading));
    }
    let last_loaded = match snapshot.last_loaded {
        Some(t) => match to_rfc3339_millis(t) {
            Some(text) => text,
            None => String::new(),
        },
        None => String::from_str("never"),
    };
    let loaded_line = labelled("Last loaded: ", last_loaded.as_str());
    lines.push(line_of(loaded_line.as_str(), look(false, true, false, None)));
    let mut counts: Vec<PanelSpan> = Vec::new();
    proof {
        assert(counts.deep_view() =~= Seq::<PanelSpanView>::empty());
    }
    let shown_events = labelled_count("Events: ", event_count);
    put(&mut counts, shown_events.as_str(), look(false, true, false, None));
    put(&mut counts, "  ", look(false, false, false, None));
    let shown_hooks = labelled_count("Hooks: ", total);
    put(&mut counts, shown_hooks.as_str(), look(false, true, false, None));
    put(&mut counts, "  ", look(false, false, false, None));
    let shown_layers = labelled_count("Layers: ", layer_count);
    put(&mut counts, shown_layers.as_str(), look(false, true, false, None));
    proof {
        assert(counts.deep_view() =~= counts_line(events.len(), total as nat, layers.len()));
    }
    lines.push(counts);
    let ghost top = lines.deep_view();
    proof {
        let shown = match snapshot.last_loaded {
            Some(t) => Some(
                match rfc3339_millis_text(t.millis as int) {
                    Some(text) => text,
                    None => Seq::<char>::empty(),
                },
            ),
            None => None,
        };
        assert(top =~= panel_head(error, is_loading) + seq![
            one_piece(
                "Last loaded: "@ + (match shown {
                    Some(t) => t,
                    None => "never"@,
                }),
                dim(),
            ),
            counts_line(events.len(), total as nat, layers.len()),
        ]);
    }
    if total == 0 && layer_count == 0 {
        lines.push(empty_line());
        lines.push(
            line_of("No hooks are currently configured.", look(false, true, true, None)),
        );
        proof {
            assert(lines.deep_view() =~= top + seq![
                blank_line(),
                one_piece("No hooks are currently configured."@, Look { italic: true, ..dim() }),
            ]);
        }
        return lines;
    }
    if layer_count > 0 {
        lines.push(empty_line());
        lines.push(line_of("Layers", look(true, false, false, None)));
        push_layers(&mut lines, &snapshot.layers);
    }
    let ghost middle = lines.deep_view();
    proof {
        let block = if layers.len() > 0 {
            seq![blank_line(), one_piece("Layers"@, bold())] + layers_upto(
                layers,
                order_of(layer_keys(layers), layers.len() as int),
                layers.len() as int,
            )
        } else {
            Seq::empty()
        };
        assert(middle =~= top + block);
    }
    if event_count > 0 {
        lines.push(empty_line());
    }
    push_events(&mut lines, &snapshot.events);
    proof {
        let gap = if events.len() > 0 {
            seq![blank_line()]
        } else {
            Seq::empty()
        };
        assert(lines.deep_view() =~= middle + gap + events_upto(
            events,
            order_of(event_keys(events), events.len() as int),
            events.len() as int,
        ));
    }
    lines
}

} // verus!
