//! What the `hooks` commands report: listings, the validation status,
//! and excerpts of the audit log.

use crate::clock::Timestamp;
use crate::hooks::events::HookEvent;
use crate::hooks::execution_record::{HookExecutionRecord, HookExecutionRecordView};
use crate::hooks::layer_summary::{HookLayerSummary, HookLayerSummaryView};
use crate::hooks::registry::HookRegistry;
use crate::hooks::scope::{scope_matches, scope_passes, HookScopeFilter};
use crate::hooks::skipped::{HookSkipReason, SkippedHookView};
use crate::lines::{join, joined, string_texts};
use crate::text::{chars_of, same_text, string_of, sub_vec};
use vstd::prelude::*;

verus! {

#[derive(Clone, Copy, Debug, PartialEq, Eq, Structural)]
pub enum HookValidationStatus {
    Okay,
    Warning,
    Error,
}

#[derive(Debug)]
pub struct HookValidationSummary {
    pub status: HookValidationStatus,
    pub errors: Vec<String>,
    pub warnings: Vec<String>,
    pub layers: Vec<HookLayerSummary>,
}

#[derive(Clone, Copy, Debug, PartialEq, Eq, Structural)]
pub struct HookValidateRequest {
    pub scope: Option<HookScopeFilter>,
}

#[derive(Debug, PartialEq, Eq)]
pub struct HookReloadResponse {
    pub reloaded: bool,
    pub message: Option<String>,
}

#[derive(Debug)]
pub struct HookExecLogRequest {
    pub since: Option<Timestamp>,
    pub event: Option<HookEvent>,
    pub hook_id: Option<String>,
    pub tail: Option<u32>,
}

#[derive(Debug)]
pub struct HookExecLogResponse {
    pub records: Vec<HookExecutionRecord>,
}

#[derive(Clone, Copy, Debug, PartialEq, Eq, Structural)]
pub enum ScopeFilterOption {
    Managed,
    Project,
    Local,
}

impl ScopeFilterOption {
    pub fn to_filter(self) -> (r: HookScopeFilter)
        ensures
            r == match self {
                ScopeFilterOption::Managed => HookScopeFilter::Managed,
                ScopeFilterOption::Project => HookScopeFilter::Project,
                ScopeFilterOption::Local => HookScopeFilter::Local,
            },
    {
        match self {
            ScopeFilterOption::Managed => HookScopeFilter::Managed,
            ScopeFilterOption::Project => HookScopeFilter::Project,
            ScopeFilterOption::Local => HookScopeFilter::Local,
        }
    }
}

#[derive(Debug)]
pub struct ListArgs {
    pub event: Option<String>,
    pub scope: Option<ScopeFilterOption>,
    pub json: bool,
}

#[derive(Debug)]
pub struct ExecLogArgs {
    pub since: Option<String>,
    pub event: Option<String>,
    pub hook_id: Option<String>,
    pub tail: Option<u32>,
    pub json: bool,
}

#[derive(Debug)]
pub struct ValidateArgs {
    pub scope: Option<ScopeFilterOption>,
    pub json: bool,
}

#[derive(Debug)]
pub enum HooksSubcommand {
    List(ListArgs),
    ExecLog(ExecLogArgs),
    Validate(ValidateArgs),
    Reload,
}

#[derive(Debug)]
pub struct HooksCli {
    pub command: HooksSubcommand,
}

/// How bad it is that an entry was skipped for the given reason.
pub open spec fn severity(reason: HookSkipReason) -> HookValidationStatus {
    match reason {
        HookSkipReason::InvalidSchema => HookValidationStatus::Error,
        HookSkipReason::MissingExecutable => HookValidationStatus::Error,
        HookSkipReason::UnsupportedVersion => HookValidationStatus::Error,
        HookSkipReason::DuplicateId => HookValidationStatus::Warning,
        HookSkipReason::InvalidMatcher => HookValidationStatus::Warning,
    }
}

/// The worse of two statuses.
pub open spec fn worse(a: HookValidationStatus, b: HookValidationStatus) -> HookValidationStatus {
    if a == HookValidationStatus::Error || b == HookValidationStatus::Error {
        HookValidationStatus::Error
    } else if a == HookValidationStatus::Warning || b == HookValidationStatus::Warning {
        HookValidationStatus::Warning
    } else {
        HookValidationStatus::Okay
    }
}

/// The worst severity among the first `n` skipped entries.
pub open spec fn skipped_status(skipped: Seq<SkippedHookView>, n: int) -> HookValidationStatus
    decreases n,
{
    if n <= 0 {
        HookValidationStatus::Okay
    } else {
        worse(skipped_status(skipped, n - 1), severity(skipped[n - 1].reason))
    }
}

/// The worst severity among the layers up to `n` that pass the filter.
pub open spec fn layers_status(
    layers: Seq<HookLayerSummaryView>,
    scope: Option<HookScopeFilter>,
    n: int,
) -> HookValidationStatus
    decreases n,
{
    if n <= 0 {
        HookValidationStatus::Okay
    } else if scope_passes(scope, layers[n - 1].scope) {
        worse(
            layers_status(layers, scope, n - 1),
            skipped_status(layers[n - 1].skipped_hooks, layers[n - 1].skipped_hooks.len() as int),
        )
    } else {
        layers_status(layers, scope, n - 1)
    }
}

pub open spec fn filter_of(option: Option<ScopeFilterOption>) -> Option<HookScopeFilter> {
    match option {
        None => None,
        Some(ScopeFilterOption::Managed) => Some(HookScopeFilter::Managed),
        Some(ScopeFilterOption::Project) => Some(HookScopeFilter::Project),
        Some(ScopeFilterOption::Local) => Some(HookScopeFilter::Local),
    }
}

fn worse_of(a: HookValidationStatus, b: HookValidationStatus) -> (r: HookValidationStatus)
    ensures
        r == worse(a, b),
{
    if matches!(a, HookValidationStatus::Error) || matches!(b, HookValidationStatus::Error) {
        HookValidationStatus::Error
    } else if matches!(a, HookValidationStatus::Warning) || matches!(
        b,
        HookValidationStatus::Warning
    ) {
        HookValidationStatus::Warning
    } else {
        HookValidationStatus::Okay
    }
}

/// The validation status of the layers that pass the filter, and those
/// layers: an error where an entry was skipped for an invalid schema, a
/// missing executable or an unsupported version; else a warning where
/// one was skipped for a duplicate id or an invalid matcher; else ok.
pub fn validation_summary(registry: &HookRegistry, scope: Option<ScopeFilterOption>) -> (r: (
    HookValidationStatus,
    Vec<HookLayerSummary>,
))
    ensures
        r.0 == layers_status(
            registry.deep_view().source_layers,
            filter_of(scope),
            registry.deep_view().source_layers.len() as int,
        ),
        r.1.deep_view() == crate::hooks::snapshot::listed_layers(
            registry.deep_view().source_layers,
            filter_of(scope),
            registry.deep_view().source_layers.len() as int,
        ),
{
    let filter = match scope {
        None => None,
        Some(s) => Some(s.to_filter()),
    };
    let source = registry.source_layers();
    let mut status = HookValidationStatus::Okay;
    let mut layers: Vec<HookLayerSummary> = Vec::new();
    let mut i: usize = 0;
    proof {
        assert(layers.deep_view() =~= crate::hooks::snapshot::listed_layers(
            source.deep_view(),
            filter,
            0,
        ));
    }
    while i < source.len()
        invariant
            i <= source.len(),
            filter == filter_of(scope),
            status == layers_status(source.deep_view(), filter, i as int),
            layers.deep_view() == crate::hooks::snapshot::listed_layers(
                source.deep_view(),
                filter,
                i as int,
            ),
        decreases source.len() - i,
    {
        let layer = &source[i];
        let ghost l0 = layers.deep_view();
        if scope_matches(filter, &layer.scope) {
            let mut layer_status = HookValidationStatus::Okay;
            let mut k: usize = 0;
            while k < layer.skipped_hooks.len()
                invariant
                    k <= layer.skipped_hooks.len(),
                    layer_status == skipped_status(layer.skipped_hooks.deep_view(), k as int),
                decreases layer.skipped_hooks.len() - k,
            {
                let reason = layer.skipped_hooks[k].reason;
                let s = match reason {
                    HookSkipReason::InvalidSchema => HookValidationStatus::Error,
                    HookSkipReason::MissingExecutable => HookValidationStatus::Error,
                    HookSkipReason::UnsupportedVersion => HookValidationStatus::Error,
                    HookSkipReason::DuplicateId => HookValidationStatus::Warning,
                    HookSkipReason::InvalidMatcher => HookValidationStatus::Warning,
                };
                layer_status = worse_of(layer_status, s);
                k += 1;
            }
            status = worse_of(status, layer_status);
            layers.push(layer.clone());
            proof {
                assert(layers.deep_view() =~= l0.push(source.deep_view()[i as int]));
            }
        }
        i += 1;
    }
    (status, layers)
}

/// The label of a status.
pub fn status_label(status: HookValidationStatus) -> (r: String)
    ensures
        r@ == match status {
            HookValidationStatus::Okay => "ok"@,
            HookValidationStatus::Warning => "warning"@,
            HookValidationStatus::Error => "error"@,
        },
{
    match status {
        HookValidationStatus::Okay => String::from_str("ok"),
        HookValidationStatus::Warning => String::from_str("warning"),
        HookValidationStatus::Error => String::from_str("error"),
    }
}

/// The exit code of `hooks validate`: 0 for ok, 3 for a warning, 2 for
/// an error.
pub fn validation_exit_code(status: HookValidationStatus) -> (r: i32)
    ensures
        r == match status {
            HookValidationStatus::Okay => 0i32,
            HookValidationStatus::Warning => 3i32,
            HookValidationStatus::Error => 2i32,
        },
{
    match status {
        HookValidationStatus::Okay => 0,
        HookValidationStatus::Warning => 3,
        HookValidationStatus::Error => 2,
    }
}

/// A record passes the filters of a request where its event and hook
/// id are the ones asked for, if any, and it is not older than asked.
pub open spec fn record_passes(r: HookExecutionRecordView, request: HookExecLogRequest) -> bool {
    &&& (request.event is Some ==> r.event == request.event->0)
    &&& (request.hook_id is Some ==> r.hook_id == request.hook_id->0@)
    &&& (request.since is Some ==> r.timestamp.millis >= request.since->0.millis)
}

/// The records among the first `n` that pass the filters.
pub open spec fn passing(
    records: Seq<HookExecutionRecordView>,
    request: HookExecLogRequest,
    n: int,
) -> Seq<HookExecutionRecordView>
    decreases n,
{
    if n <= 0 {
        Seq::empty()
    } else if record_passes(records[n - 1], request) {
        passing(records, request, n - 1).push(records[n - 1])
    } else {
        passing(records, request, n - 1)
    }
}

/// The last `tail` of `records`, or all of them.
pub open spec fn last_of(records: Seq<HookExecutionRecordView>, tail: Option<u32>) -> Seq<
    HookExecutionRecordView,
> {
    match tail {
        None => records,
        Some(t) => if records.len() > t {
            records.skip(records.len() - t)
        } else {
            records
        },
    }
}

/// The excerpt of the audit log that a request asks for: the records
/// that pass its filters, and of those the last `tail`.
pub fn filter_exec_log(records: &Vec<HookExecutionRecord>, request: &HookExecLogRequest) -> (r: Vec<
    HookExecutionRecord,
>)
    ensures
        r.deep_view() == last_of(
            passing(records.deep_view(), *request, records.deep_view().len() as int),
            request.tail,
        ),
{
    let mut kept: Vec<HookExecutionRecord> = Vec::new();
    let mut i: usize = 0;
    proof {
        assert(kept.deep_view() =~= passing(records.deep_view(), *request, 0));
    }
    while i < records.len()
        invariant
            i <= records.len(),
            kept.deep_view() == passing(records.deep_view(), *request, i as int),
        decreases records.len() - i,
    {
        let record = &records[i];
        let ghost k0 = kept.deep_view();
        let event_ok = match request.event {
            Some(e) => record.event == e,
            None => true,
        };
        let id_ok = match &request.hook_id {
            Some(id) => same_text(record.hook_id.as_str(), id.as_str()),
            None => true,
        };
        let since_ok = match request.since {
            Some(s) => record.timestamp.millis >= s.millis,
            None => true,
        };
        if event_ok && id_ok && since_ok {
            kept.push(record.clone());
            proof {
                assert(kept.deep_view() =~= k0.push(records.deep_view()[i as int]));
            }
        }
        i += 1;
    }
    match request.tail {
        None => kept,
        Some(t) => {
            let t = t as usize;
            if kept.len() > t {
                let from = kept.len() - t;
                let mut out: Vec<HookExecutionRecord> = Vec::new();
                let mut k: usize = from;
                while k < kept.len()
                    invariant
                        from <= k <= kept.len(),
                        out@.len() == k - from,
                        forall|j: int|
                            0 <= j < k - from ==> (#[trigger] out@[j]).deep_view() == kept@[from
                                + j].deep_view(),
                    decreases kept.len() - k,
                {
                    out.push(kept[k].clone());
                    k += 1;
                }
                proof {
                    assert(out.deep_view() =~= kept.deep_view().skip(from as int));
                }
                out
            } else {
                kept
            }
        },
    }
}

/// `text`, cut to `max_chars` characters where it is longer: then its
/// last character is an ellipsis.
pub open spec fn ellipsized(text: Seq<char>, max_chars: int) -> Seq<char> {
    if text.len() <= max_chars {
        text
    } else if max_chars >= 1 {
        text.take(max_chars - 1).push('\u{2026}')
    } else {
        seq!['\u{2026}']
    }
}

pub fn ellipsize(text: &str, max_chars: usize) -> (r: String)
    ensures
        r@ == ellipsized(text@, max_chars as int),
{
    let v = chars_of(text);
    if v.len() <= max_chars {
        return string_of(&v);
    }
    let take = if max_chars >= 1 {
        max_chars - 1
    } else {
        0
    };
    let mut out = sub_vec(&v, 0, take);
    out.push('\u{2026}');
    proof {
        assert(v@.subrange(0, take as int) =~= v@.take(take as int));
        if max_chars == 0 {
            assert(out@ =~= seq!['\u{2026}']);
        }
    }
    string_of(&out)
}

/// A command on one line, cut to 60 characters; nothing for an empty
/// command.
pub fn summarize_command(command: &Vec<String>) -> (r: Option<String>)
    ensures
        r.deep_view() == (if command@.len() == 0 {
            None
        } else {
            Some(ellipsized(joined(string_texts(command@), " "@), 60))
        }),
{
    if command.len() == 0 {
        return None;
    }
    let joined_text = join(command, " ");
    Some(ellipsize(joined_text.as_str(), 60))
}

} // verus!
