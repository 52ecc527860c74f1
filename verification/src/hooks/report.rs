//! What the inspection commands show of the hooks: the lists, the
//! audit log and the outcome of the validation, as lines of text and
//! as records.

use crate::clock::{rfc3339_millis_text, to_rfc3339_millis};
use crate::copying::{copy_opt_string, copy_strings};
use crate::hooks::decision::{format_outcome, outcome_name};
use crate::hooks::definition::{HookDefinition, HookDefinitionView};
use crate::hooks::events::{event_name, format_event, HookEvent};
use crate::hooks::execution_record::{HookExecutionRecord, HookExecutionRecordView};
use crate::hooks::inspect::HookValidationStatus;
use crate::hooks::layer_summary::{HookLayerSummary, HookLayerSummaryView};
use crate::hooks::scope::{HookScope, HookScopeView};
use crate::hooks::skipped::{format_skip_reason, reason_name, SkippedHookView};
use crate::hooks::snapshot::HookRegistrySnapshot;
use crate::lines::{join, joined, string_texts};
use crate::order::{order_of, positions, sorted_order};
use crate::text::{chars_of, push_all, push_str, string_of};
use vstd::prelude::*;

verus! {

/// The name under which a scope is shown.
pub open spec fn scope_label(scope: HookScopeView) -> Seq<char> {
    match scope {
        HookScopeView::ManagedPolicy { .. } => "managed"@,
        HookScopeView::Project { .. } => "project"@,
        HookScopeView::LocalUser { .. } => "local"@,
    }
}

/// The name under which a scope is shown.
pub fn format_scope(scope: &HookScope) -> (r: String)
    ensures
        r@ == scope_label(scope.deep_view()),
{
    match scope {
        HookScope::ManagedPolicy { .. } => String::from_str("managed"),
        HookScope::Project { .. } => String::from_str("project"),
        HookScope::LocalUser { .. } => String::from_str("local"),
    }
}

/// `n` blanks.
pub open spec fn blanks(n: int) -> Seq<char>
    decreases n,
{
    if n <= 0 {
        Seq::empty()
    } else {
        blanks(n - 1).push(' ')
    }
}

/// A text in a column of the given width: followed by blanks up to
/// the width, and as it is where it is as long or longer.
pub open spec fn padded(text: Seq<char>, width: int) -> Seq<char> {
    text + blanks(width - text.len())
}

fn push_padded(out: &mut Vec<char>, text: &str, width: usize)
    ensures
        final(out)@ == old(out)@ + padded(text@, width as int),
{
    let ghost before = out@;
    let v = chars_of(text);
    push_all(out, &v);
    let mut n: usize = v.len();
    proof {
        assert(blanks(0) =~= Seq::<char>::empty());
        assert(out@ =~= before + text@ + blanks(0));
    }
    let ghost len = v.len();
    let mut added: usize = 0;
    while n < width
        invariant
            len <= n,
            added == n - len,
            len == text@.len(),
            added == 0 || n <= width,
            out@ == before + text@ + blanks(added as int),
        decreases width - n,
    {
        out.push(' ');
        proof {
            assert(out@ =~= before + text@ + blanks(added + 1));
        }
        n += 1;
        added += 1;
    }
    proof {
        if len >= width {
            assert(blanks(width - len) =~= Seq::<char>::empty());
        }
        assert(out@ =~= before + (text@ + blanks(width - len)));
    }
}

/// One hook as the list shows it.
#[derive(Debug, PartialEq, Eq)]
pub struct ListRow {
    pub event: String,
    pub scope: String,
    pub id: String,
    pub command: String,
}

pub struct ListRowView {
    pub event: Seq<char>,
    pub scope: Seq<char>,
    pub id: Seq<char>,
    pub command: Seq<char>,
}

impl DeepView for ListRow {
    type V = ListRowView;

    open spec fn deep_view(&self) -> ListRowView {
        ListRowView {
            event: self.event@,
            scope: self.scope@,
            id: self.id@,
            command: self.command@,
        }
    }
}

/// The row of a hook.
pub open spec fn row_of(event: HookEvent, hook: HookDefinitionView) -> ListRowView {
    ListRowView {
        event: event_name(event),
        scope: scope_label(hook.scope),
        id: hook.id,
        command: joined(hook.command, " "@),
    }
}

/// The rows of the first `n` events, as they stand.
pub open spec fn rows_of(events: Seq<(HookEvent, Seq<HookDefinitionView>)>, n: int) -> Seq<
    ListRowView,
>
    decreases n,
{
    if n <= 0 {
        Seq::empty()
    } else {
        rows_of(events, n - 1) + events[n - 1].1.map_values(
            |h: HookDefinitionView| row_of(events[n - 1].0, h),
        )
    }
}

/// The keys by which rows are put in order: the event, then the id.
pub open spec fn row_keys(rows: Seq<ListRowView>) -> Seq<(Seq<char>, Seq<char>)> {
    rows.map_values(|r: ListRowView| (r.event, r.id))
}

/// The rows of a list: one for each hook, in ascending order of the
/// names of their events and, within an event, of their ids.
pub open spec fn listed_rows(events: Seq<(HookEvent, Seq<HookDefinitionView>)>) -> Seq<
    ListRowView,
> {
    let rows = rows_of(events, events.len() as int);
    order_of(row_keys(rows), rows.len() as int).map_values(|i: int| rows[i])
}

fn copy_row(row: &ListRow) -> (r: ListRow)
    ensures
        r.deep_view() == row.deep_view(),
{
    ListRow {
        event: row.event.clone(),
        scope: row.scope.clone(),
        id: row.id.clone(),
        command: row.command.clone(),
    }
}

/// The rows of the list of a snapshot.
pub fn list_rows(snapshot: &HookRegistrySnapshot) -> (r: Vec<ListRow>)
    ensures
        r.deep_view() == listed_rows(snapshot.deep_view().events),
{
    let ghost events = snapshot.deep_view().events;
    let mut rows: Vec<ListRow> = Vec::new();
    let mut keys: Vec<(String, String)> = Vec::new();
    let mut i: usize = 0;
    proof {
        assert(rows.deep_view() =~= rows_of(events, 0));
        assert(keys.deep_view() =~= row_keys(rows.deep_view()));
    }
    while i < snapshot.events.len()
        invariant
            i <= snapshot.events.len(),
            events == snapshot.deep_view().events,
            events == snapshot.events.deep_view(),
            rows.deep_view() == rows_of(events, i as int),
            keys.deep_view() == row_keys(rows.deep_view()),
        decreases snapshot.events.len() - i,
    {
        let event = snapshot.events[i].0;
        let hooks = &snapshot.events[i].1;
        let ghost start = rows.deep_view();
        let ghost f = |h: HookDefinitionView| row_of(events[i as int].0, h);
        let mut j: usize = 0;
        proof {
            assert(hooks.deep_view() == events[i as int].1);
            assert(rows.deep_view() =~= start + hooks.deep_view().take(0).map_values(f));
        }
        while j < hooks.len()
            invariant
                j <= hooks.len(),
                i < snapshot.events.len(),
                event == events[i as int].0,
                hooks.deep_view() == events[i as int].1,
                f == (|h: HookDefinitionView| row_of(events[i as int].0, h)),
                rows.deep_view() == start + hooks.deep_view().take(j as int).map_values(f),
                keys.deep_view() == row_keys(rows.deep_view()),
            decreases hooks.len() - j,
        {
            let hook = &hooks[j];
            let ghost r0 = rows.deep_view();
            let ghost k0 = keys.deep_view();
            proof {
                assert(string_texts(hook.command@) =~= hook.command.deep_view());
            }
            let row = ListRow {
                event: format_event(event),
                scope: format_scope(&hook.scope),
                id: hook.id.clone(),
                command: join(&hook.command, " "),
            };
            keys.push((format_event(event), hook.id.clone()));
            rows.push(row);
            proof {
                let hv = hooks.deep_view();
                assert(hv[j as int] == hook.deep_view());
                assert(hv.take(j + 1) =~= hv.take(j as int).push(hv[j as int]));
                assert(rows.deep_view() =~= r0.push(row_of(event, hook.deep_view())));
                assert(rows.deep_view() =~= start + hv.take(j + 1).map_values(f));
                assert(keys.deep_view() =~= k0.push((event_name(event), hook.id@)));
                assert(keys.deep_view() =~= row_keys(rows.deep_view()));
            }
            j += 1;
        }
        proof {
            assert(hooks.deep_view().take(hooks.len() as int) =~= hooks.deep_view());
        }
        i += 1;
    }
    let order = sorted_order(&keys);
    let mut out: Vec<ListRow> = Vec::new();
    let mut k: usize = 0;
    let ghost all = rows.deep_view();
    proof {
        assert(out.deep_view() =~= positions(order@).take(0).map_values(|i: int| all[i]));
        assert(rows.deep_view().len() == rows@.len());
        assert(keys.deep_view().len() == keys@.len());
    }
    while k < order.len()
        invariant
            k <= order.len(),
            all == rows.deep_view(),
            rows@.len() == keys@.len(),
            forall|j: int| 0 <= j < order@.len() ==> (#[trigger] order@[j]) < keys@.len(),
            out.deep_view() == positions(order@).take(k as int).map_values(|i: int| all[i]),
        decreases order.len() - k,
    {
        let ghost o0 = out.deep_view();
        out.push(copy_row(&rows[order[k]]));
        proof {
            let p = positions(order@);
            assert(p.take(k + 1) =~= p.take(k as int).push(order@[k as int] as int));
            assert(rows.deep_view()[order@[k as int] as int] == rows@[order@[k as int] as int].deep_view());
            assert(out.deep_view() =~= o0.push(all[order@[k as int] as int]));
            assert(out.deep_view() =~= p.take(k + 1).map_values(|i: int| all[i]));
        }
        k += 1;
    }
    proof {
        assert(positions(order@).take(order@.len() as int) =~= positions(order@));
    }
    out
}

/// The lines that show a row: the event, the scope and the id in
/// columns, and the command below them where there is one.
pub open spec fn row_lines(row: ListRowView) -> Seq<Seq<char>> {
    seq![padded(row.event, 15) + " "@ + padded(row.scope, 8) + " "@ + row.id] + (
    if row.command.len() == 0 {
        Seq::empty()
    } else {
        seq!["    Command: "@ + row.command]
    })
}

/// The lines that show the first `n` rows.
pub open spec fn rows_text(rows: Seq<ListRowView>, n: int) -> Seq<Seq<char>>
    decreases n,
{
    if n <= 0 {
        Seq::empty()
    } else {
        rows_text(rows, n - 1) + row_lines(rows[n - 1])
    }
}

/// The list of the hooks of a snapshot as text: a heading and the
/// rows, or one line that says that there are none.
pub open spec fn list_text(rows: Seq<ListRowView>) -> Seq<Seq<char>> {
    if rows.len() == 0 {
        seq!["No hooks are currently registered."@]
    } else {
        seq![padded("Event"@, 15) + " "@ + padded("Scope"@, 8) + " "@ + "ID"@] + rows_text(
            rows,
            rows.len() as int,
        )
    }
}

fn columns3(a: &str, b: &str, c: &str) -> (r: String)
    ensures
        r@ == padded(a@, 15) + " "@ + padded(b@, 8) + " "@ + c@,
{
    let mut out: Vec<char> = Vec::new();
    push_padded(&mut out, a, 15);
    push_str(&mut out, " ");
    push_padded(&mut out, b, 8);
    push_str(&mut out, " ");
    push_str(&mut out, c);
    proof {
        assert(out@ =~= padded(a@, 15) + " "@ + padded(b@, 8) + " "@ + c@);
    }
    string_of(&out)
}

/// Writes the list of the hooks of a snapshot as lines of text.
pub fn render_list(snapshot: &HookRegistrySnapshot) -> (r: Vec<String>)
    ensures
        r.deep_view() == list_text(listed_rows(snapshot.deep_view().events)),
{
    let rows = list_rows(snapshot);
    let mut lines: Vec<String> = Vec::new();
    if rows.len() == 0 {
        lines.push(String::from_str("No hooks are currently registered."));
        proof {
            assert(rows.deep_view().len() == 0);
            assert(lines.deep_view() =~= seq!["No hooks are currently registered."@]);
        }
        return lines;
    }
    lines.push(columns3("Event", "Scope", "ID"));
    let ghost head = lines.deep_view();
    let mut i: usize = 0;
    proof {
        assert(head =~= seq![padded("Event"@, 15) + " "@ + padded("Scope"@, 8) + " "@ + "ID"@]);
        assert(lines.deep_view() =~= head + rows_text(rows.deep_view(), 0));
    }
    while i < rows.len()
        invariant
            i <= rows.len(),
            lines.deep_view() == head + rows_text(rows.deep_view(), i as int),
        decreases rows.len() - i,
    {
        let row = &rows[i];
        let ghost l0 = lines.deep_view();
        lines.push(columns3(row.event.as_str(), row.scope.as_str(), row.id.as_str()));
        if !row.command.as_str().is_empty() {
            let mut c: Vec<char> = Vec::new();
            push_str(&mut c, "    Command: ");
            push_str(&mut c, row.command.as_str());
            lines.push(string_of(&c));
        }
        proof {
            assert(rows.deep_view()[i as int] == row.deep_view());
            assert(lines.deep_view() =~= l0 + row_lines(row.deep_view()));
        }
        i += 1;
    }
    proof {
        assert(rows.deep_view().len() == rows@.len());
        assert(rows.deep_view().len() > 0);
    }
    lines
}

/// The lines that show a record of the audit log: its time, its
/// event, its hook and what was decided, in columns, and the message
/// of the decision below them where it has one.
pub open spec fn record_lines(record: HookExecutionRecordView) -> Seq<Seq<char>> {
    seq![
        padded(
            match rfc3339_millis_text(record.timestamp.millis as int) {
                Some(t) => t,
                None => Seq::empty(),
            },
            25,
        ) + " "@ + padded(event_name(record.event), 12) + " "@ + padded(record.hook_id, 24) + " "@
            + padded(outcome_name(record.decision.decision), 10),
    ] + (match record.decision.message {
        Some(m) => seq!["    Message: "@ + m],
        None => Seq::empty(),
    })
}

/// The lines that show the first `n` records.
pub open spec fn records_text(records: Seq<HookExecutionRecordView>, n: int) -> Seq<Seq<char>>
    decreases n,
{
    if n <= 0 {
        Seq::empty()
    } else {
        records_text(records, n - 1) + record_lines(records[n - 1])
    }
}

/// The audit log as text: a heading and the records, or one line that
/// says that there are none.
pub open spec fn exec_log_text(records: Seq<HookExecutionRecordView>) -> Seq<Seq<char>> {
    if records.len() == 0 {
        seq!["No hook executions recorded yet."@]
    } else {
        seq![
            padded("Timestamp"@, 25) + " "@ + padded("Event"@, 12) + " "@ + padded("Hook"@, 24)
                + " "@ + padded("Decision"@, 10),
        ] + records_text(records, records.len() as int)
    }
}

fn columns4(a: &str, b: &str, c: &str, d: &str) -> (r: String)
    ensures
        r@ == padded(a@, 25) + " "@ + padded(b@, 12) + " "@ + padded(c@, 24) + " "@ + padded(
            d@,
            10,
        ),
{
    let mut out: Vec<char> = Vec::new();
    push_padded(&mut out, a, 25);
    push_str(&mut out, " ");
    push_padded(&mut out, b, 12);
    push_str(&mut out, " ");
    push_padded(&mut out, c, 24);
    push_str(&mut out, " ");
    push_padded(&mut out, d, 10);
    proof {
        assert(out@ =~= padded(a@, 25) + " "@ + padded(b@, 12) + " "@ + padded(c@, 24) + " "@
            + padded(d@, 10));
    }
    string_of(&out)
}

/// Writes records of the audit log as lines of text.
pub fn render_exec_log(records: &Vec<HookExecutionRecord>) -> (r: Vec<String>)
    ensures
        r.deep_view() == exec_log_text(records.deep_view()),
{
    let mut lines: Vec<String> = Vec::new();
    if records.len() == 0 {
        lines.push(String::from_str("No hook executions recorded yet."));
        proof {
            assert(records.deep_view().len() == 0);
            assert(lines.deep_view() =~= seq!["No hook executions recorded yet."@]);
        }
        return lines;
    }
    lines.push(columns4("Timestamp", "Event", "Hook", "Decision"));
    let ghost head = lines.deep_view();
    let mut i: usize = 0;
    proof {
        assert(lines.deep_view() =~= head + records_text(records.deep_view(), 0));
    }
    while i < records.len()
        invariant
            i <= records.len(),
            lines.deep_view() == head + records_text(records.deep_view(), i as int),
        decreases records.len() - i,
    {
        let record = &records[i];
        let ghost l0 = lines.deep_view();
        let time = match to_rfc3339_millis(record.timestamp) {
            Some(t) => t,
            None => String::new(),
        };
        let event = format_event(record.event);
        let decision = format_outcome(record.decision.decision);
        lines.push(
            columns4(time.as_str(), event.as_str(), record.hook_id.as_str(), decision.as_str()),
        );
        match &record.decision.message {
            Some(m) => {
                let mut c: Vec<char> = Vec::new();
                push_str(&mut c, "    Message: ");
                push_str(&mut c, m.as_str());
                lines.push(string_of(&c));
            },
            None => {},
        }
        proof {
            assert(records.deep_view()[i as int] == record.deep_view());
            assert(lines.deep_view() =~= l0 + record_lines(record.deep_view()));
        }
        i += 1;
    }
    proof {
        assert(records.deep_view().len() == records@.len());
    }
    lines
}

/// The status of a validation in capitals.
pub open spec fn status_shout(status: HookValidationStatus) -> Seq<char> {
    match status {
        HookValidationStatus::Okay => "OK"@,
        HookValidationStatus::Warning => "WARNING"@,
        HookValidationStatus::Error => "ERROR"@,
    }
}

/// The lines that show what was skipped in a layer, for the first `n`
/// of its skipped hooks: the reason, and the id where it is known.
pub open spec fn skipped_text(skipped: Seq<SkippedHookView>, n: int) -> Seq<Seq<char>>
    decreases n,
{
    if n <= 0 {
        Seq::empty()
    } else {
        skipped_text(skipped, n - 1).push(
            "    skipped "@ + reason_name(skipped[n - 1].reason) + ": "@ + (
            match skipped[n - 1].hook_id {
                Some(id) => id,
                None => "(unknown)"@,
            }),
        )
    }
}

/// The lines that show a layer: its scope, its path and how many
/// hooks it gave, and what was skipped in it.
pub open spec fn layer_lines(layer: HookLayerSummaryView) -> Seq<Seq<char>> {
    seq![
        "- "@ + scope_label(layer.scope) + " ("@ + layer.path + ") \u{2192} hooks: "@
            + crate::numfmt::decimal(layer.loaded_hooks as nat),
    ] + skipped_text(layer.skipped_hooks, layer.skipped_hooks.len() as int)
}

/// The lines that show the first `n` layers.
pub open spec fn layers_text(layers: Seq<HookLayerSummaryView>, n: int) -> Seq<Seq<char>>
    decreases n,
{
    if n <= 0 {
        Seq::empty()
    } else {
        layers_text(layers, n - 1) + layer_lines(layers[n - 1])
    }
}

/// The outcome of a validation as text: the status, and the layers
/// that were looked at, or a line that says that there were none.
pub open spec fn validation_text(
    layers: Seq<HookLayerSummaryView>,
    status: HookValidationStatus,
) -> Seq<Seq<char>> {
    seq!["Validation status: "@ + status_shout(status)] + (if layers.len() == 0 {
        seq!["No hook layers evaluated."@]
    } else {
        layers_text(layers, layers.len() as int)
    })
}

/// Writes the outcome of a validation as lines of text.
pub fn render_validation(layers: &Vec<HookLayerSummary>, status: HookValidationStatus) -> (r: Vec<
    String,
>)
    ensures
        r.deep_view() == validation_text(layers.deep_view(), status),
{
    let mut lines: Vec<String> = Vec::new();
    let mut first: Vec<char> = Vec::new();
    push_str(&mut first, "Validation status: ");
    match status {
        HookValidationStatus::Okay => push_str(&mut first, "OK"),
        HookValidationStatus::Warning => push_str(&mut first, "WARNING"),
        HookValidationStatus::Error => push_str(&mut first, "ERROR"),
    }
    lines.push(string_of(&first));
    let ghost head = lines.deep_view();
    proof {
        assert(head =~= seq!["Validation status: "@ + status_shout(status)]);
        assert(layers.deep_view().len() == layers@.len());
    }
    if layers.len() == 0 {
        lines.push(String::from_str("No hook layers evaluated."));
        proof {
            assert(lines.deep_view() =~= head + seq!["No hook layers evaluated."@]);
        }
        return lines;
    }
    let mut i: usize = 0;
    proof {
        assert(lines.deep_view() =~= head + layers_text(layers.deep_view(), 0));
    }
    while i < layers.len()
        invariant
            i <= layers.len(),
            lines.deep_view() == head + layers_text(layers.deep_view(), i as int),
        decreases layers.len() - i,
    {
        let layer = &layers[i];
        let ghost l0 = lines.deep_view();
        let mut c: Vec<char> = Vec::new();
        push_str(&mut c, "- ");
        let scope = format_scope(&layer.scope);
        push_str(&mut c, scope.as_str());
        push_str(&mut c, " (");
        push_str(&mut c, layer.path.as_str());
        push_str(&mut c, ") \u{2192} hooks: ");
        let digits = crate::numfmt::decimal_chars(layer.loaded_hooks as u64);
        push_all(&mut c, &digits);
        lines.push(string_of(&c));
        let ghost l1 = lines.deep_view();
        let ghost skipped = layer.skipped_hooks.deep_view();
        let mut j: usize = 0;
        proof {
            assert(layers.deep_view()[i as int] == layer.deep_view());
            assert(l1 =~= l0.push(c@));
            assert(lines.deep_view() =~= l1 + skipped_text(skipped, 0));
        }
        while j < layer.skipped_hooks.len()
            invariant
                j <= layer.skipped_hooks.len(),
                skipped == layer.skipped_hooks.deep_view(),
                lines.deep_view() == l1 + skipped_text(skipped, j as int),
            decreases layer.skipped_hooks.len() - j,
        {
            let s = &layer.skipped_hooks[j];
            let ghost k0 = lines.deep_view();
            let mut d: Vec<char> = Vec::new();
            push_str(&mut d, "    skipped ");
            let reason = format_skip_reason(s.reason);
            push_str(&mut d, reason.as_str());
            push_str(&mut d, ": ");
            match &s.hook_id {
                Some(id) => push_str(&mut d, id.as_str()),
                None => push_str(&mut d, "(unknown)"),
            }
            lines.push(string_of(&d));
            proof {
                assert(skipped[j as int] == s.deep_view());
                assert(lines.deep_view() =~= k0.push(d@));
                assert(lines.deep_view() =~= l1 + skipped_text(skipped, j + 1));
            }
            j += 1;
        }
        proof {
            assert(skipped.len() == layer.skipped_hooks@.len());
            assert(lines.deep_view() =~= l0 + layer_lines(layer.deep_view()));
        }
        i += 1;
    }
    lines
}

/// A record of the audit log as the inspection command gives it out.
#[derive(Debug, PartialEq, Eq)]
pub struct ExecLogEntry {
    pub time: String,
    pub event: String,
    pub hook: String,
    pub decision: String,
    pub message: Option<String>,
}

/// Makes the entry of a record: its time in RFC 3339 with
/// milliseconds, the names of its event and of what was decided, its
/// hook and the message of the decision.
pub fn exec_record_entry(record: &HookExecutionRecord) -> (r: ExecLogEntry)
    ensures
        r.time@ == (match rfc3339_millis_text(record.timestamp.millis as int) {
            Some(t) => t,
            None => Seq::empty(),
        }),
        r.event@ == event_name(record.event),
        r.hook@ == record.hook_id@,
        r.decision@ == outcome_name(record.decision.decision),
        r.message.deep_view() == record.decision.message.deep_view(),
{
    ExecLogEntry {
        time: match to_rfc3339_millis(record.timestamp) {
            Some(t) => t,
            None => String::new(),
        },
        event: format_event(record.event),
        hook: record.hook_id.clone(),
        decision: format_outcome(record.decision.decision),
        message: copy_opt_string(&record.decision.message),
    }
}

/// A skipped hook as the inspection commands give it out.
#[derive(Debug, PartialEq, Eq)]
pub struct SkippedReport {
    pub hook_id: Option<String>,
    pub reason: String,
    pub details: Option<String>,
}

/// A layer as the inspection commands give it out.
#[derive(Debug, PartialEq, Eq)]
pub struct LayerReport {
    pub scope: String,
    pub path: String,
    pub checksum: String,
    pub loaded_hooks: usize,
    pub skipped_hooks: Vec<SkippedReport>,
}

/// A hook as the list gives it out.
#[derive(Debug, PartialEq, Eq)]
pub struct HookReport {
    pub id: String,
    pub scope: String,
    pub command: Vec<String>,
    pub notes: Option<String>,
}

/// The hooks of an event as the list gives them out.
#[derive(Debug, PartialEq, Eq)]
pub struct EventReport {
    pub event: String,
    pub hooks: Vec<HookReport>,
}

/// What the list gives out: the layers, and the hooks by event.
#[derive(Debug, PartialEq, Eq)]
pub struct ListReport {
    pub layers: Vec<LayerReport>,
    pub events: Vec<EventReport>,
}

pub struct SkippedReportView {
    pub hook_id: Option<Seq<char>>,
    pub reason: Seq<char>,
    pub details: Option<Seq<char>>,
}

pub struct LayerReportView {
    pub scope: Seq<char>,
    pub path: Seq<char>,
    pub checksum: Seq<char>,
    pub loaded_hooks: usize,
    pub skipped_hooks: Seq<SkippedReportView>,
}

pub struct HookReportView {
    pub id: Seq<char>,
    pub scope: Seq<char>,
    pub command: Seq<Seq<char>>,
    pub notes: Option<Seq<char>>,
}

pub struct EventReportView {
    pub event: Seq<char>,
    pub hooks: Seq<HookReportView>,
}

impl DeepView for SkippedReport {
    type V = SkippedReportView;

    open spec fn deep_view(&self) -> SkippedReportView {
        SkippedReportView {
            hook_id: self.hook_id.deep_view(),
            reason: self.reason@,
            details: self.details.deep_view(),
        }
    }
}

impl DeepView for LayerReport {
    type V = LayerReportView;

    open spec fn deep_view(&self) -> LayerReportView {
        LayerReportView {
            scope: self.scope@,
            path: self.path@,
            checksum: self.checksum@,
            loaded_hooks: self.loaded_hooks,
            skipped_hooks: self.skipped_hooks.deep_view(),
        }
    }
}

impl DeepView for HookReport {
    type V = HookReportView;

    open spec fn deep_view(&self) -> HookReportView {
        HookReportView {
            id: self.id@,
            scope: self.scope@,
            command: self.command.deep_view(),
            notes: self.notes.deep_view(),
        }
    }
}

impl DeepView for EventReport {
    type V = EventReportView;

    open spec fn deep_view(&self) -> EventReportView {
        EventReportView { event: self.event@, hooks: self.hooks.deep_view() }
    }
}

/// A skipped hook as it is given out: its reason by name.
pub open spec fn skipped_report(s: SkippedHookView) -> SkippedReportView {
    SkippedReportView { hook_id: s.hook_id, reason: reason_name(s.reason), details: s.details }
}

/// A layer as it is given out: its scope by its label.
pub open spec fn layer_report(l: HookLayerSummaryView) -> LayerReportView {
    LayerReportView {
        scope: scope_label(l.scope),
        path: l.path,
        checksum: l.checksum,
        loaded_hooks: l.loaded_hooks,
        skipped_hooks: l.skipped_hooks.map_values(|s: SkippedHookView| skipped_report(s)),
    }
}

/// A hook as it is given out: its scope by its label.
pub open spec fn hook_report(h: HookDefinitionView) -> HookReportView {
    HookReportView { id: h.id, scope: scope_label(h.scope), command: h.command, notes: h.notes }
}

/// The hooks of an event as they are given out: in ascending order of
/// their ids.
pub open spec fn hooks_report(hooks: Seq<HookDefinitionView>) -> Seq<HookReportView> {
    order_of(
        hooks.map_values(|h: HookDefinitionView| (h.id, Seq::<char>::empty())),
        hooks.len() as int,
    ).map_values(|i: int| hook_report(hooks[i]))
}

/// The events as they are given out: in ascending order of their
/// names, each with its hooks.
pub open spec fn events_report(events: Seq<(HookEvent, Seq<HookDefinitionView>)>) -> Seq<
    EventReportView,
> {
    order_of(
        events.map_values(
            |e: (HookEvent, Seq<HookDefinitionView>)| (event_name(e.0), Seq::<char>::empty()),
        ),
        events.len() as int,
    ).map_values(
        |i: int| EventReportView { event: event_name(events[i].0), hooks: hooks_report(events[i].1) },
    )
}

/// Gives a layer out.
pub fn layer_entry(layer: &HookLayerSummary) -> (r: LayerReport)
    ensures
        r.deep_view() == layer_report(layer.deep_view()),
{
    let mut skipped: Vec<SkippedReport> = Vec::new();
    let ghost all = layer.skipped_hooks.deep_view();
    let ghost f = |s: SkippedHookView| skipped_report(s);
    let mut i: usize = 0;
    proof {
        assert(skipped.deep_view() =~= all.take(0).map_values(f));
    }
    while i < layer.skipped_hooks.len()
        invariant
            i <= layer.skipped_hooks.len(),
            all == layer.skipped_hooks.deep_view(),
            f == (|s: SkippedHookView| skipped_report(s)),
            skipped.deep_view() == all.take(i as int).map_values(f),
        decreases layer.skipped_hooks.len() - i,
    {
        let s = &layer.skipped_hooks[i];
        let ghost s0 = skipped.deep_view();
        skipped.push(
            SkippedReport {
                hook_id: copy_opt_string(&s.hook_id),
                reason: format_skip_reason(s.reason),
                details: copy_opt_string(&s.details),
            },
        );
        proof {
            assert(all[i as int] == s.deep_view());
            assert(all.take(i + 1) =~= all.take(i as int).push(all[i as int]));
            assert(skipped.deep_view() =~= s0.push(skipped_report(s.deep_view())));
            assert(skipped.deep_view() =~= all.take(i + 1).map_values(f));
        }
        i += 1;
    }
    proof {
        assert(all.take(all.len() as int) =~= all);
    }
    LayerReport {
        scope: format_scope(&layer.scope),
        path: layer.path.clone(),
        checksum: layer.checksum.clone(),
        loaded_hooks: layer.loaded_hooks,
        skipped_hooks: skipped,
    }
}

/// Gives the layers out, in their order.
pub fn layer_entries(layers: &Vec<HookLayerSummary>) -> (r: Vec<LayerReport>)
    ensures
        r.deep_view() == layers.deep_view().map_values(
            |l: HookLayerSummaryView| layer_report(l),
        ),
{
    let mut out: Vec<LayerReport> = Vec::new();
    let ghost all = layers.deep_view();
    let ghost f = |l: HookLayerSummaryView| layer_report(l);
    let mut i: usize = 0;
    proof {
        assert(out.deep_view() =~= all.take(0).map_values(f));
    }
    while i < layers.len()
        invariant
            i <= layers.len(),
            all == layers.deep_view(),
            f == (|l: HookLayerSummaryView| layer_report(l)),
            out.deep_view() == all.take(i as int).map_values(f),
        decreases layers.len() - i,
    {
        let ghost o0 = out.deep_view();
        out.push(layer_entry(&layers[i]));
        proof {
            assert(all[i as int] == layers@[i as int].deep_view());
            assert(all.take(i + 1) =~= all.take(i as int).push(all[i as int]));
            assert(out.deep_view() =~= o0.push(layer_report(all[i as int])));
            assert(out.deep_view() =~= all.take(i + 1).map_values(f));
        }
        i += 1;
    }
    proof {
        assert(all.take(all.len() as int) =~= all);
    }
    out
}

fn hook_entries(hooks: &Vec<HookDefinition>) -> (r: Vec<HookReport>)
    ensures
        r.deep_view() == hooks_report(hooks.deep_view()),
{
    let ghost all = hooks.deep_view();
    let mut keys: Vec<(String, String)> = Vec::new();
    let ghost kf = |h: HookDefinitionView| (h.id, Seq::<char>::empty());
    let mut i: usize = 0;
    proof {
        assert(keys.deep_view() =~= all.take(0).map_values(kf));
    }
    while i < hooks.len()
        invariant
            i <= hooks.len(),
            all == hooks.deep_view(),
            kf == (|h: HookDefinitionView| (h.id, Seq::<char>::empty())),
            keys.deep_view() == all.take(i as int).map_values(kf),
        decreases hooks.len() - i,
    {
        let ghost k0 = keys.deep_view();
        keys.push((hooks[i].id.clone(), String::new()));
        proof {
            assert(all[i as int] == hooks@[i as int].deep_view());
            assert(all.take(i + 1) =~= all.take(i as int).push(all[i as int]));
            assert(keys.deep_view() =~= k0.push((hooks@[i as int].id@, Seq::<char>::empty())));
            assert(keys.deep_view() =~= all.take(i + 1).map_values(kf));
        }
        i += 1;
    }
    proof {
        assert(all.take(all.len() as int) =~= all);
        assert(keys.deep_view().len() == keys@.len());
    }
    let order = sorted_order(&keys);
    let mut out: Vec<HookReport> = Vec::new();
    let ghost f = |i: int| hook_report(all[i]);
    let mut k: usize = 0;
    proof {
        assert(out.deep_view() =~= positions(order@).take(0).map_values(f));
    }
    while k < order.len()
        invariant
            k <= order.len(),
            all == hooks.deep_view(),
            hooks@.len() == keys@.len(),
            f == (|i: int| hook_report(all[i])),
            forall|j: int| 0 <= j < order@.len() ==> (#[trigger] order@[j]) < keys@.len(),
            out.deep_view() == positions(order@).take(k as int).map_values(f),
        decreases order.len() - k,
    {
        let hook = &hooks[order[k]];
        let ghost o0 = out.deep_view();
        out.push(
            HookReport {
                id: hook.id.clone(),
                scope: format_scope(&hook.scope),
                command: copy_strings(&hook.command),
                notes: copy_opt_string(&hook.notes),
            },
        );
        proof {
            let p = positions(order@);
            assert(p.take(k + 1) =~= p.take(k as int).push(order@[k as int] as int));
            assert(all[order@[k as int] as int] == hook.deep_view());
            assert(out.deep_view() =~= o0.push(hook_report(hook.deep_view())));
            assert(out.deep_view() =~= p.take(k + 1).map_values(f));
        }
        k += 1;
    }
    proof {
        assert(positions(order@).take(order@.len() as int) =~= positions(order@));
    }
    out
}

/// Gives out what the list shows of a snapshot: its layers as they
/// stand, and its events in ascending order of their names, each with
/// its hooks in ascending order of their ids.
pub fn build_list_report(snapshot: &HookRegistrySnapshot) -> (r: ListReport)
    ensures
        r.layers.deep_view() == snapshot.deep_view().layers.map_values(
            |l: HookLayerSummaryView| layer_report(l),
        ),
        r.events.deep_view() == events_report(snapshot.deep_view().events),
{
    let layers = layer_entries(&snapshot.layers);
    let ghost all = snapshot.events.deep_view();
    let mut keys: Vec<(String, String)> = Vec::new();
    let ghost kf = |e: (HookEvent, Seq<HookDefinitionView>)|
        (event_name(e.0), Seq::<char>::empty());
    let mut i: usize = 0;
    proof {
        assert(keys.deep_view() =~= all.take(0).map_values(kf));
    }
    while i < snapshot.events.len()
        invariant
            i <= snapshot.events.len(),
            all == snapshot.events.deep_view(),
            kf == (|e: (HookEvent, Seq<HookDefinitionView>)|
                (event_name(e.0), Seq::<char>::empty())),
            keys.deep_view() == all.take(i as int).map_values(kf),
        decreases snapshot.events.len() - i,
    {
        let ghost k0 = keys.deep_view();
        keys.push((format_event(snapshot.events[i].0), String::new()));
        proof {
            assert(all.take(i + 1) =~= all.take(i as int).push(all[i as int]));
            assert(keys.deep_view() =~= k0.push(
                (event_name(snapshot.events@[i as int].0), Seq::<char>::empty()),
            ));
            assert(keys.deep_view() =~= all.take(i + 1).map_values(kf));
        }
        i += 1;
    }
    proof {
        assert(all.take(all.len() as int) =~= all);
        assert(keys.deep_view().len() == keys@.len());
    }
    let order = sorted_order(&keys);
    let mut events: Vec<EventReport> = Vec::new();
    let ghost f = |i: int|
        EventReportView { event: event_name(all[i].0), hooks: hooks_report(all[i].1) };
    let mut k: usize = 0;
    proof {
        assert(events.deep_view() =~= positions(order@).take(0).map_values(f));
    }
    while k < order.len()
        invariant
            k <= order.len(),
            all == snapshot.events.deep_view(),
            snapshot.events@.len() == keys@.len(),
            f == (|i: int|
                EventReportView { event: event_name(all[i].0), hooks: hooks_report(all[i].1) }),
            forall|j: int| 0 <= j < order@.len() ==> (#[trigger] order@[j]) < keys@.len(),
            events.deep_view() == positions(order@).take(k as int).map_values(f),
        decreases order.len() - k,
    {
        let entry = &snapshot.events[order[k]];
        let ghost e0 = events.deep_view();
        events.push(EventReport { event: format_event(entry.0), hooks: hook_entries(&entry.1) });
        proof {
            let p = positions(order@);
            let at = order@[k as int] as int;
            assert(p.take(k + 1) =~= p.take(k as int).push(at));
            assert(all[at] == (entry.0, entry.1.deep_view()));
            assert(events.deep_view() =~= e0.push(f(at)));
            assert(events.deep_view() =~= p.take(k + 1).map_values(f));
        }
        k += 1;
    }
    proof {
        assert(positions(order@).take(order@.len() as int) =~= positions(order@));
    }
    ListReport { layers, events }
}

} // verus!
