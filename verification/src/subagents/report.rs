//! What the inspection commands show of the sub-agents: the list, a
//! single agent and the outcome of a run, as lines of text and as
//! records.

use crate::copying::{copy_opt_string, copy_strings};
use crate::lines::{join, joined, string_texts};
use crate::subagents::definition::{normalized_name, SubagentDefinition, SubagentScope};
use crate::subagents::inventory::{lookup, SubagentInventory};
use crate::subagents::invocation::{fresh_session, InvocationSession, InvocationSessionView};
use crate::subagents::record::{SubagentRecord, SubagentRecordView, SubagentStatus};
use crate::text::{push_str, same_text, string_of};
use vstd::prelude::*;

verus! {

/// The scopes that the list can be limited to.
#[derive(Clone, Copy, Debug, PartialEq, Eq, Structural)]
pub enum ScopeFilter {
    Project,
    User,
    All,
}

impl Default for ScopeFilter {
    fn default() -> (r: Self)
        ensures
            r == ScopeFilter::All,
    {
        ScopeFilter::All
    }
}

/// Whether a scope passes a filter.
pub open spec fn scope_passes(filter: ScopeFilter, scope: SubagentScope) -> bool {
    match filter {
        ScopeFilter::All => true,
        ScopeFilter::Project => scope == SubagentScope::Project,
        ScopeFilter::User => scope == SubagentScope::User,
    }
}

pub fn scope_matches(filter: ScopeFilter, scope: SubagentScope) -> (r: bool)
    ensures
        r == scope_passes(filter, scope),
{
    match filter {
        ScopeFilter::All => true,
        ScopeFilter::Project => matches!(scope, SubagentScope::Project),
        ScopeFilter::User => matches!(scope, SubagentScope::User),
    }
}

/// The name under which a scope is shown.
pub open spec fn scope_label(scope: SubagentScope) -> Seq<char> {
    match scope {
        SubagentScope::Project => "project"@,
        SubagentScope::User => "user"@,
    }
}

pub fn display_scope(scope: SubagentScope) -> (r: String)
    ensures
        r@ == scope_label(scope),
{
    match scope {
        SubagentScope::Project => String::from_str("project"),
        SubagentScope::User => String::from_str("user"),
    }
}

/// The name under which a status is shown.
pub open spec fn status_label(status: SubagentStatus) -> Seq<char> {
    match status {
        SubagentStatus::Active => "Active"@,
        SubagentStatus::Invalid => "Invalid"@,
        SubagentStatus::Disabled => "Disabled"@,
    }
}

pub fn display_status(status: SubagentStatus) -> (r: String)
    ensures
        r@ == status_label(status),
{
    match status {
        SubagentStatus::Active => String::from_str("Active"),
        SubagentStatus::Invalid => String::from_str("Invalid"),
        SubagentStatus::Disabled => String::from_str("Disabled"),
    }
}

/// A sub-agent as the inspection commands give it out.
#[derive(Debug, PartialEq, Eq)]
pub struct RecordOutput {
    pub name: String,
    pub scope: String,
    pub description: String,
    pub tools: Vec<String>,
    pub model: Option<String>,
    pub status: String,
    pub source_path: String,
    pub validation_errors: Vec<String>,
}

pub struct RecordOutputView {
    pub name: Seq<char>,
    pub scope: Seq<char>,
    pub description: Seq<char>,
    pub tools: Seq<Seq<char>>,
    pub model: Option<Seq<char>>,
    pub status: Seq<char>,
    pub source_path: Seq<char>,
    pub validation_errors: Seq<Seq<char>>,
}

impl DeepView for RecordOutput {
    type V = RecordOutputView;

    open spec fn deep_view(&self) -> RecordOutputView {
        RecordOutputView {
            name: self.name@,
            scope: self.scope@,
            description: self.description@,
            tools: self.tools.deep_view(),
            model: self.model.deep_view(),
            status: self.status@,
            source_path: self.source_path@,
            validation_errors: self.validation_errors.deep_view(),
        }
    }
}

/// A sub-agent as it is given out: with the tools and the model that
/// hold for it, and its scope and status by their labels.
pub open spec fn record_output(record: SubagentRecordView) -> RecordOutputView {
    RecordOutputView {
        name: record.definition.name,
        scope: scope_label(record.definition.scope),
        description: record.definition.description,
        tools: record.effective_tools,
        model: record.effective_model,
        status: status_label(record.status),
        source_path: record.definition.source_path,
        validation_errors: record.validation_errors,
    }
}

/// Gives a sub-agent out.
pub fn record_entry(record: &SubagentRecord) -> (r: RecordOutput)
    ensures
        r.deep_view() == record_output(record.deep_view()),
{
    RecordOutput {
        name: record.definition.name.clone(),
        scope: display_scope(record.definition.scope),
        description: record.definition.description.clone(),
        tools: copy_strings(&record.effective_tools),
        model: copy_opt_string(&record.effective_model),
        status: display_status(record.status),
        source_path: record.definition.source_path.clone(),
        validation_errors: copy_strings(&record.validation_errors),
    }
}

/// Of the first `n` records, those whose scope passes the filter, as
/// they are given out.
pub open spec fn outputs_of(records: Seq<SubagentRecordView>, filter: ScopeFilter, n: int) -> Seq<
    RecordOutputView,
>
    decreases n,
{
    if n <= 0 {
        Seq::empty()
    } else if scope_passes(filter, records[n - 1].definition.scope) {
        outputs_of(records, filter, n - 1).push(record_output(records[n - 1]))
    } else {
        outputs_of(records, filter, n - 1)
    }
}

/// What the list gives out.
#[derive(Debug, PartialEq, Eq)]
pub struct ListPayload {
    pub subagents: Vec<RecordOutput>,
    pub invalid: Vec<RecordOutput>,
}

/// The records of the active sub-agents of an inventory, in the order
/// of their names.
pub open spec fn active_records(inventory: crate::subagents::inventory::SubagentInventoryView) -> Seq<
    SubagentRecordView,
> {
    inventory.subagents.map_values(|e: (Seq<char>, SubagentRecordView)| e.1)
}

/// Gives out what the list shows of an inventory: the active
/// sub-agents whose scope passes the filter, in the order of their
/// names, and, where they are asked for, the invalid ones whose scope
/// passes it.
pub fn build_list_payload(inventory: &SubagentInventory, scope: ScopeFilter, include_invalid: bool) -> (r:
    ListPayload)
    ensures
        r.subagents.deep_view() == outputs_of(
            active_records(inventory.deep_view()),
            scope,
            inventory.deep_view().subagents.len() as int,
        ),
        r.invalid.deep_view() == (if include_invalid {
            outputs_of(
                inventory.deep_view().invalid,
                scope,
                inventory.deep_view().invalid.len() as int,
            )
        } else {
            Seq::empty()
        }),
{
    let mut subagents: Vec<RecordOutput> = Vec::new();
    let n = inventory.subagents.len();
    let ghost active = active_records(inventory.deep_view());
    let mut i: usize = 0;
    proof {
        assert(subagents.deep_view() =~= outputs_of(active, scope, 0));
    }
    while i < n
        invariant
            i <= n,
            n == inventory.subagents.deep_view().len(),
            active == active_records(inventory.deep_view()),
            inventory.deep_view().subagents == inventory.subagents.deep_view(),
            subagents.deep_view() == outputs_of(active, scope, i as int),
        decreases n - i,
    {
        let record = inventory.subagents.record_at(i);
        let ghost s0 = subagents.deep_view();
        proof {
            assert(active[i as int] == record.deep_view());
        }
        if scope_matches(scope, record.definition.scope) {
            subagents.push(record_entry(record));
            proof {
                assert(subagents.deep_view() =~= s0.push(record_output(record.deep_view())));
            }
        }
        i += 1;
    }
    let mut invalid: Vec<RecordOutput> = Vec::new();
    proof {
        assert(invalid.deep_view() =~= Seq::<RecordOutputView>::empty());
    }
    if include_invalid {
        let records = inventory.invalid();
        let mut j: usize = 0;
        proof {
            assert(invalid.deep_view() =~= outputs_of(records.deep_view(), scope, 0));
        }
        while j < records.len()
            invariant
                j <= records.len(),
                records.deep_view() == inventory.deep_view().invalid,
                invalid.deep_view() == outputs_of(records.deep_view(), scope, j as int),
            decreases records.len() - j,
        {
            let ghost v0 = invalid.deep_view();
            proof {
                assert(records.deep_view()[j as int] == records@[j as int].deep_view());
            }
            if scope_matches(scope, records[j].definition.scope) {
                invalid.push(record_entry(&records[j]));
                proof {
                    assert(invalid.deep_view() =~= v0.push(
                        record_output(records@[j as int].deep_view()),
                    ));
                }
            }
            j += 1;
        }
        proof {
            assert(records.deep_view().len() == records@.len());
        }
    }
    ListPayload { subagents, invalid }
}

/// The lines that show an active sub-agent in the list.
pub open spec fn listed_lines(name: Seq<char>, record: SubagentRecordView) -> Seq<Seq<char>> {
    seq![
        "  - "@ + name + " ("@ + scope_label(record.definition.scope) + ")"@,
        "    Description: "@ + record.definition.description,
    ] + (if record.effective_tools.len() == 0 {
        Seq::empty()
    } else {
        seq!["    Tools: "@ + joined(record.effective_tools, ", "@)]
    }) + (match record.effective_model {
        Some(m) => seq!["    Model: "@ + m],
        None => Seq::empty(),
    }) + seq!["    Source: "@ + record.definition.source_path] + (if record.status
        == SubagentStatus::Active {
        Seq::empty()
    } else {
        seq!["    Status: "@ + status_label(record.status)]
    })
}

/// The lines that show an invalid definition in the list.
pub open spec fn invalid_lines(record: SubagentRecordView) -> Seq<Seq<char>> {
    seq![
        "  - "@ + record.definition.name + " ("@ + scope_label(record.definition.scope) + ")"@,
        "    Errors: "@ + joined(record.validation_errors, "; "@),
        "    Source: "@ + record.definition.source_path,
    ]
}

/// The lines for those of the first `n` active sub-agents whose scope
/// passes the filter.
pub open spec fn active_text(
    entries: Seq<(Seq<char>, SubagentRecordView)>,
    filter: ScopeFilter,
    n: int,
) -> Seq<Seq<char>>
    decreases n,
{
    if n <= 0 {
        Seq::empty()
    } else if scope_passes(filter, entries[n - 1].1.definition.scope) {
        active_text(entries, filter, n - 1) + listed_lines(entries[n - 1].0, entries[n - 1].1)
    } else {
        active_text(entries, filter, n - 1)
    }
}

/// The lines for those of the first `n` invalid definitions whose
/// scope passes the filter.
pub open spec fn invalid_text(records: Seq<SubagentRecordView>, filter: ScopeFilter, n: int) -> Seq<
    Seq<char>,
>
    decreases n,
{
    if n <= 0 {
        Seq::empty()
    } else if scope_passes(filter, records[n - 1].definition.scope) {
        invalid_text(records, filter, n - 1) + invalid_lines(records[n - 1])
    } else {
        invalid_text(records, filter, n - 1)
    }
}

/// The list of the sub-agents of an inventory as text. Where there is
/// nothing to show, one line says so. Else the active sub-agents
/// whose scope passes the filter follow a heading; and, where the
/// invalid definitions are asked for and any passes the filter, they
/// follow a heading of their own, after an empty line.
pub open spec fn list_text(
    inventory: crate::subagents::inventory::SubagentInventoryView,
    filter: ScopeFilter,
    include_invalid: bool,
) -> Seq<Seq<char>> {
    if inventory.subagents.len() == 0 && (!include_invalid || inventory.invalid.len() == 0) {
        seq!["No subagents found."@]
    } else {
        let broken = invalid_text(inventory.invalid, filter, inventory.invalid.len() as int);
        seq!["Available subagents:"@] + active_text(
            inventory.subagents,
            filter,
            inventory.subagents.len() as int,
        ) + (if include_invalid && broken.len() > 0 {
            seq![Seq::<char>::empty(), "Invalid definitions:"@] + broken
        } else {
            Seq::empty()
        })
    }
}

fn text2(a: &str, b: &str) -> (r: String)
    ensures
        r@ == a@ + b@,
{
    let mut out: Vec<char> = Vec::new();
    push_str(&mut out, a);
    push_str(&mut out, b);
    string_of(&out)
}

fn heading(name: &str, scope: SubagentScope) -> (r: String)
    ensures
        r@ == "  - "@ + name@ + " ("@ + scope_label(scope) + ")"@,
{
    let mut out: Vec<char> = Vec::new();
    push_str(&mut out, "  - ");
    push_str(&mut out, name);
    push_str(&mut out, " (");
    let label = display_scope(scope);
    push_str(&mut out, label.as_str());
    push_str(&mut out, ")");
    string_of(&out)
}

fn push_listed(lines: &mut Vec<String>, name: &str, record: &SubagentRecord)
    ensures
        final(lines).deep_view() == old(lines).deep_view() + listed_lines(name@, record.deep_view()),
{
    let ghost l0 = lines.deep_view();
    lines.push(heading(name, record.definition.scope));
    lines.push(text2("    Description: ", record.definition.description.as_str()));
    if record.effective_tools.len() > 0 {
        let tools = join(&record.effective_tools, ", ");
        proof {
            assert(string_texts(record.effective_tools@) =~= record.effective_tools.deep_view());
        }
        lines.push(text2("    Tools: ", tools.as_str()));
    }
    match &record.effective_model {
        Some(m) => {
            lines.push(text2("    Model: ", m.as_str()));
        },
        None => {},
    }
    lines.push(text2("    Source: ", record.definition.source_path.as_str()));
    match record.status {
        SubagentStatus::Active => {},
        _ => {
            let label = display_status(record.status);
            lines.push(text2("    Status: ", label.as_str()));
        },
    }
    proof {
        assert(record.deep_view().effective_tools == record.effective_tools.deep_view());
        assert(lines.deep_view() =~= l0 + listed_lines(name@, record.deep_view()));
    }
}

/// Writes the list of the sub-agents of an inventory as lines of
/// text.
pub fn render_list(inventory: &SubagentInventory, scope: ScopeFilter, include_invalid: bool) -> (r:
    Vec<String>)
    ensures
        r.deep_view() == list_text(inventory.deep_view(), scope, include_invalid),
{
    let mut lines: Vec<String> = Vec::new();
    let n = inventory.subagents.len();
    let records = inventory.invalid();
    proof {
        assert(records.deep_view().len() == records@.len());
    }
    if n == 0 && (!include_invalid || records.len() == 0) {
        lines.push(String::from_str("No subagents found."));
        proof {
            assert(lines.deep_view() =~= seq!["No subagents found."@]);
        }
        return lines;
    }
    lines.push(String::from_str("Available subagents:"));
    let ghost head = lines.deep_view();
    let ghost entries = inventory.deep_view().subagents;
    let mut i: usize = 0;
    proof {
        assert(head =~= seq!["Available subagents:"@]);
        assert(lines.deep_view() =~= head + active_text(entries, scope, 0));
    }
    while i < n
        invariant
            i <= n,
            n == inventory.subagents.deep_view().len(),
            entries == inventory.deep_view().subagents,
            entries == inventory.subagents.deep_view(),
            lines.deep_view() == head + active_text(entries, scope, i as int),
        decreases n - i,
    {
        let record = inventory.subagents.record_at(i);
        let name = inventory.subagents.name_at(i);
        let ghost l0 = lines.deep_view();
        if scope_matches(scope, record.definition.scope) {
            push_listed(&mut lines, name.as_str(), record);
            proof {
                assert(lines.deep_view() =~= head + (active_text(entries, scope, i as int)
                    + listed_lines(entries[i as int].0, entries[i as int].1)));
            }
        }
        i += 1;
    }
    if include_invalid {
        let mut broken: Vec<String> = Vec::new();
        let mut j: usize = 0;
        proof {
            assert(broken.deep_view() =~= invalid_text(records.deep_view(), scope, 0));
        }
        while j < records.len()
            invariant
                j <= records.len(),
                broken.deep_view() == invalid_text(records.deep_view(), scope, j as int),
            decreases records.len() - j,
        {
            let record = &records[j];
            let ghost b0 = broken.deep_view();
            proof {
                assert(records.deep_view()[j as int] == record.deep_view());
            }
            if scope_matches(scope, record.definition.scope) {
                broken.push(heading(record.definition.name.as_str(), record.definition.scope));
                let errors = join(&record.validation_errors, "; ");
                proof {
                    assert(string_texts(record.validation_errors@)
                        =~= record.validation_errors.deep_view());
                }
                broken.push(text2("    Errors: ", errors.as_str()));
                broken.push(text2("    Source: ", record.definition.source_path.as_str()));
                proof {
                    assert(broken.deep_view() =~= b0 + invalid_lines(record.deep_view()));
                }
            }
            j += 1;
        }
        if broken.len() > 0 {
            let ghost l1 = lines.deep_view();
            let ghost bv = broken.deep_view();
            lines.push(String::new());
            lines.push(String::from_str("Invalid definitions:"));
            lines.append(&mut broken);
            proof {
                assert(lines.deep_view() =~= l1 + (seq![
                    Seq::<char>::empty(),
                    "Invalid definitions:"@,
                ] + bv));
            }
        } else {
            proof {
                assert(broken.deep_view().len() == 0);
                assert(lines.deep_view() + Seq::<Seq<char>>::empty() =~= lines.deep_view());
            }
        }
    } else {
        proof {
            assert(lines.deep_view() + Seq::<Seq<char>>::empty() =~= lines.deep_view());
        }
    }
    lines
}

/// The lines that show a single sub-agent.
pub open spec fn record_text(record: SubagentRecordView) -> Seq<Seq<char>> {
    seq![
        "Name: "@ + record.definition.name,
        "Scope: "@ + scope_label(record.definition.scope),
        "Description: "@ + record.definition.description,
    ] + (if record.effective_tools.len() == 0 {
        Seq::empty()
    } else {
        seq!["Tools: "@ + joined(record.effective_tools, ", "@)]
    }) + (match record.effective_model {
        Some(m) => seq!["Model: "@ + m],
        None => Seq::empty(),
    }) + seq![
        "Source: "@ + record.definition.source_path,
        "Status: "@ + status_label(record.status),
    ] + (if record.validation_errors.len() == 0 {
        Seq::empty()
    } else {
        seq!["Validation errors: "@ + joined(record.validation_errors, "; "@)]
    })
}

/// Writes a single sub-agent as lines of text.
pub fn render_record(record: &SubagentRecord) -> (r: Vec<String>)
    ensures
        r.deep_view() == record_text(record.deep_view()),
{
    let mut lines: Vec<String> = Vec::new();
    lines.push(text2("Name: ", record.definition.name.as_str()));
    let scope = display_scope(record.definition.scope);
    lines.push(text2("Scope: ", scope.as_str()));
    lines.push(text2("Description: ", record.definition.description.as_str()));
    if record.effective_tools.len() > 0 {
        let tools = join(&record.effective_tools, ", ");
        proof {
            assert(string_texts(record.effective_tools@) =~= record.effective_tools.deep_view());
        }
        lines.push(text2("Tools: ", tools.as_str()));
    }
    match &record.effective_model {
        Some(m) => {
            lines.push(text2("Model: ", m.as_str()));
        },
        None => {},
    }
    lines.push(text2("Source: ", record.definition.source_path.as_str()));
    let status = display_status(record.status);
    lines.push(text2("Status: ", status.as_str()));
    if record.validation_errors.len() > 0 {
        let errors = join(&record.validation_errors, "; ");
        proof {
            assert(string_texts(record.validation_errors@) =~= record.validation_errors.deep_view());
        }
        lines.push(text2("Validation errors: ", errors.as_str()));
    }
    proof {
        assert(record.deep_view().effective_tools == record.effective_tools.deep_view());
        assert(record.deep_view().validation_errors == record.validation_errors.deep_view());
        assert(lines.deep_view() =~= record_text(record.deep_view()));
    }
    lines
}

/// The first of the first `n` invalid records that goes by the name:
/// its name is the normalised one, or was written as the name is.
pub open spec fn invalid_named(
    records: Seq<SubagentRecordView>,
    key: Seq<char>,
    name: Seq<char>,
    from: int,
) -> Option<SubagentRecordView>
    decreases records.len() - from,
{
    if from < 0 || from >= records.len() {
        None
    } else if records[from].definition.name == key || records[from].definition.raw_name == name {
        Some(records[from])
    } else {
        invalid_named(records, key, name, from + 1)
    }
}

/// The sub-agent that a name stands for: the active one of the
/// normalised name, else the first invalid one that goes by the name.
pub fn find_record<'a>(inventory: &'a SubagentInventory, name: &str) -> (r: Option<
    &'a SubagentRecord,
>)
    ensures
        r.deep_view() == (match lookup(inventory.deep_view().subagents, normalized_name(name@)) {
            Some(record) => Some(record),
            None => invalid_named(inventory.deep_view().invalid, normalized_name(name@), name@, 0),
        }),
{
    let key = SubagentDefinition::normalize_name(name);
    match inventory.subagents.get(key.as_str()) {
        Some(record) => {
            return Some(record);
        },
        None => {},
    }
    proof {
        assert(inventory.deep_view().subagents == inventory.subagents.deep_view());
    }
    let records = inventory.invalid();
    let mut i: usize = 0;
    while i < records.len()
        invariant
            i <= records.len(),
            key@ == normalized_name(name@),
            records.deep_view() == inventory.deep_view().invalid,
            lookup(inventory.deep_view().subagents, key@) is None,
            invalid_named(records.deep_view(), key@, name@, 0) == invalid_named(
                records.deep_view(),
                key@,
                name@,
                i as int,
            ),
        decreases records.len() - i,
    {
        proof {
            assert(records.deep_view()[i as int] == records@[i as int].deep_view());
            assert(records.deep_view().len() == records@.len());
        }
        if same_text(records[i].definition.name.as_str(), key.as_str()) || same_text(
            records[i].definition.raw_name.as_str(),
            name,
        ) {
            return Some(&records[i]);
        }
        i += 1;
    }
    proof {
        assert(records.deep_view().len() == records@.len());
    }
    None
}

/// The request that the run command makes: for the sub-agent of the
/// normalised name, confirmed, with the tools asked for.
pub fn run_session(name: &str, tools: Vec<String>) -> (r: InvocationSession)
    ensures
        r.deep_view() == (InvocationSessionView {
            confirmed: true,
            requested_tools: tools.deep_view(),
            ..fresh_session(normalized_name(name@))
        }),
{
    let key = SubagentDefinition::normalize_name(name);
    let mut session = InvocationSession::new(key.as_str()).confirmed();
    if tools.len() > 0 {
        session.requested_tools = tools;
    } else {
        proof {
            assert(tools.deep_view() =~= Seq::<Seq<char>>::empty());
        }
    }
    session
}

/// The lines that show the outcome of a run.
pub open spec fn run_text(session: InvocationSessionView) -> Seq<Seq<char>> {
    seq!["Subagent: "@ + session.subagent_name] + (match session.resolved_model {
        Some(m) => seq!["Model: "@ + m],
        None => Seq::empty(),
    }) + (if session.requested_tools.len() == 0 {
        Seq::empty()
    } else {
        seq!["Tools: "@ + joined(session.requested_tools, ", "@)]
    }) + (match session.summary {
        Some(s) => seq!["Summary: "@ + s],
        None => Seq::empty(),
    }) + (if session.detail_artifacts.len() == 0 {
        Seq::empty()
    } else {
        seq!["Detail: "@ + session.detail_artifacts[0]]
    })
}

/// Writes the outcome of a run as lines of text.
pub fn render_run(session: &InvocationSession) -> (r: Vec<String>)
    ensures
        r.deep_view() == run_text(session.deep_view()),
{
    let mut lines: Vec<String> = Vec::new();
    lines.push(text2("Subagent: ", session.subagent_name.as_str()));
    match &session.resolved_model {
        Some(m) => {
            lines.push(text2("Model: ", m.as_str()));
        },
        None => {},
    }
    if session.requested_tools.len() > 0 {
        let tools = join(&session.requested_tools, ", ");
        proof {
            assert(string_texts(session.requested_tools@) =~= session.requested_tools.deep_view());
        }
        lines.push(text2("Tools: ", tools.as_str()));
    }
    match &session.summary {
        Some(s) => {
            lines.push(text2("Summary: ", s.as_str()));
        },
        None => {},
    }
    if session.detail_artifacts.len() > 0 {
        lines.push(text2("Detail: ", session.detail_artifacts[0].as_str()));
    }
    proof {
        assert(session.deep_view().requested_tools == session.requested_tools.deep_view());
        assert(session.deep_view().detail_artifacts == session.detail_artifacts.deep_view());
        if session.detail_artifacts@.len() > 0 {
            assert(session.detail_artifacts.deep_view()[0] == session.detail_artifacts@[0]@);
        }
        assert(lines.deep_view() =~= run_text(session.deep_view()));
    }
    lines
}

} // verus!
