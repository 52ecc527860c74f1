//! Decides whether a requested invocation may go ahead.

use crate::copying::copy_opt_string;
use crate::subagents::config::{SubagentConfig, SubagentConfigView, SubagentDiscoveryMode};
use crate::subagents::inventory::{lookup, SubagentInventory, SubagentInventoryView};
use crate::subagents::invocation::{InvocationSession, InvocationSessionView};
use crate::subagents::record::{
    record_allows, SubagentRecord, SubagentRecordView, SubagentStatus,
};
use crate::text::{push_str, same_text, string_of};
use vstd::prelude::*;

verus! {

#[derive(Debug)]
pub enum SubagentInvocationError {
    FeatureDisabled,
    UnknownSubagent(String),
    InvalidSubagent(String),
    DisabledSubagent(String),
    ToolNotAllowed { subagent: String, tool: String },
    ConfirmationRequired { subagent: String, record: SubagentRecord, session: InvocationSession },
    ExecutionFailed(String),
    MissingAuthManager,
}

pub enum SubagentInvocationErrorView {
    FeatureDisabled,
    UnknownSubagent(Seq<char>),
    InvalidSubagent(Seq<char>),
    DisabledSubagent(Seq<char>),
    ToolNotAllowed { subagent: Seq<char>, tool: Seq<char> },
    ConfirmationRequired {
        subagent: Seq<char>,
        record: SubagentRecordView,
        session: InvocationSessionView,
    },
    ExecutionFailed(Seq<char>),
    MissingAuthManager,
}

impl DeepView for SubagentInvocationError {
    type V = SubagentInvocationErrorView;

    open spec fn deep_view(&self) -> SubagentInvocationErrorView {
        match self {
            SubagentInvocationError::FeatureDisabled => SubagentInvocationErrorView::FeatureDisabled,
            SubagentInvocationError::UnknownSubagent(n) => SubagentInvocationErrorView::UnknownSubagent(
                n@,
            ),
            SubagentInvocationError::InvalidSubagent(n) => SubagentInvocationErrorView::InvalidSubagent(
                n@,
            ),
            SubagentInvocationError::DisabledSubagent(
                n,
            ) => SubagentInvocationErrorView::DisabledSubagent(n@),
            SubagentInvocationError::ToolNotAllowed {
                subagent,
                tool,
            } => SubagentInvocationErrorView::ToolNotAllowed { subagent: subagent@, tool: tool@ },
            SubagentInvocationError::ConfirmationRequired {
                subagent,
                record,
                session,
            } => SubagentInvocationErrorView::ConfirmationRequired {
                subagent: subagent@,
                record: record.deep_view(),
                session: session.deep_view(),
            },
            SubagentInvocationError::ExecutionFailed(m) => SubagentInvocationErrorView::ExecutionFailed(
                m@,
            ),
            SubagentInvocationError::MissingAuthManager => SubagentInvocationErrorView::MissingAuthManager,
        }
    }
}

/// The text of an error, as it is shown to a user.
pub open spec fn error_text(e: SubagentInvocationErrorView) -> Seq<char> {
    match e {
        SubagentInvocationErrorView::FeatureDisabled => "subagents feature disabled"@,
        SubagentInvocationErrorView::UnknownSubagent(n) => "no subagent named '"@ + n + "'"@,
        SubagentInvocationErrorView::InvalidSubagent(n) => "subagent '"@ + n + "' is invalid"@,
        SubagentInvocationErrorView::DisabledSubagent(n) => "subagent '"@ + n + "' is disabled"@,
        SubagentInvocationErrorView::ToolNotAllowed { subagent, tool } => "tool '"@ + tool
            + "' is not allowed for subagent '"@ + subagent + "'"@,
        SubagentInvocationErrorView::ConfirmationRequired {
            subagent,
            ..
        } => "confirmation required before invoking subagent '"@ + subagent + "'"@,
        SubagentInvocationErrorView::ExecutionFailed(m) => "subagent execution failed: "@ + m,
        SubagentInvocationErrorView::MissingAuthManager => "subagent invocation requires authentication manager"@,
    }
}

fn text3(a: &str, b: &str, c: &str) -> (r: String)
    ensures
        r@ == a@ + b@ + c@,
{
    let mut out: Vec<char> = Vec::new();
    push_str(&mut out, a);
    push_str(&mut out, b);
    push_str(&mut out, c);
    proof {
        assert(out@ =~= a@ + b@ + c@);
    }
    string_of(&out)
}

impl SubagentInvocationError {
    /// The text of the error.
    pub fn message(&self) -> (r: String)
        ensures
            r@ == error_text(self.deep_view()),
    {
        match self {
            SubagentInvocationError::FeatureDisabled => String::from_str(
                "subagents feature disabled",
            ),
            SubagentInvocationError::UnknownSubagent(n) => text3(
                "no subagent named '",
                n.as_str(),
                "'",
            ),
            SubagentInvocationError::InvalidSubagent(n) => text3(
                "subagent '",
                n.as_str(),
                "' is invalid",
            ),
            SubagentInvocationError::DisabledSubagent(n) => text3(
                "subagent '",
                n.as_str(),
                "' is disabled",
            ),
            SubagentInvocationError::ToolNotAllowed { subagent, tool } => {
                let head = text3("tool '", tool.as_str(), "' is not allowed for subagent '");
                let r = text3(head.as_str(), subagent.as_str(), "'");
                proof {
                    assert(r@ =~= error_text(self.deep_view()));
                }
                r
            },
            SubagentInvocationError::ConfirmationRequired { subagent, .. } => text3(
                "confirmation required before invoking subagent '",
                subagent.as_str(),
                "'",
            ),
            SubagentInvocationError::ExecutionFailed(m) => {
                let mut out: Vec<char> = Vec::new();
                push_str(&mut out, "subagent execution failed: ");
                push_str(&mut out, m.as_str());
                proof {
                    assert(out@ =~= error_text(self.deep_view()));
                }
                string_of(&out)
            },
            SubagentInvocationError::MissingAuthManager => String::from_str(
                "subagent invocation requires authentication manager",
            ),
        }
    }
}

/// An invocation that may go ahead, with the record it runs under.
#[derive(Debug, PartialEq, Eq)]
pub struct PreparedSubagentInvocation {
    pub session: InvocationSession,
    pub record: SubagentRecord,
}

pub struct PreparedSubagentInvocationView {
    pub session: InvocationSessionView,
    pub record: SubagentRecordView,
}

impl DeepView for PreparedSubagentInvocation {
    type V = PreparedSubagentInvocationView;

    open spec fn deep_view(&self) -> PreparedSubagentInvocationView {
        PreparedSubagentInvocationView {
            session: self.session.deep_view(),
            record: self.record.deep_view(),
        }
    }
}

impl Clone for PreparedSubagentInvocation {
    fn clone(&self) -> (r: Self)
        ensures
            r.deep_view() == self.deep_view(),
    {
        PreparedSubagentInvocation { session: self.session.clone(), record: self.record.clone() }
    }
}

/// The first of `records` whose definition is called `name`.
pub open spec fn first_named(records: Seq<SubagentRecordView>, name: Seq<char>) -> Option<
    SubagentRecordView,
>
    decreases records.len(),
{
    if records.len() == 0 {
        None
    } else if records[0].definition.name == name {
        Some(records[0])
    } else {
        first_named(records.drop_first(), name)
    }
}

/// The record that a name refers to: the active sub-agent of that name
/// or, failing that, the first invalid definition of that name.
pub open spec fn record_for(inventory: SubagentInventoryView, name: Seq<char>) -> Option<
    SubagentRecordView,
> {
    match lookup(inventory.subagents, name) {
        Some(r) => Some(r),
        None => first_named(inventory.invalid, name),
    }
}

/// The first requested tool that the record does not allow.
pub open spec fn first_refused(requested: Seq<Seq<char>>, record: SubagentRecordView) -> Option<
    Seq<char>,
>
    decreases requested.len(),
{
    if requested.len() == 0 {
        None
    } else if !record_allows(record, requested[0]) {
        Some(requested[0])
    } else {
        first_refused(requested.drop_first(), record)
    }
}

/// The model an invocation runs with: the one it asks for, else the
/// record's, else the configured default.
pub open spec fn resolved_model(
    session: InvocationSessionView,
    record: SubagentRecordView,
    config: SubagentConfigView,
) -> Option<Seq<char>> {
    if session.resolved_model is Some {
        session.resolved_model
    } else if record.effective_model is Some {
        record.effective_model
    } else {
        config.default_model
    }
}

/// What `invoke` answers.
pub open spec fn invoke_outcome(
    config: SubagentConfigView,
    inventory: SubagentInventoryView,
    session: InvocationSessionView,
) -> Result<PreparedSubagentInvocationView, SubagentInvocationErrorView> {
    if !config.enabled {
        Err(SubagentInvocationErrorView::FeatureDisabled)
    } else {
        match record_for(inventory, session.subagent_name) {
            None => Err(SubagentInvocationErrorView::UnknownSubagent(session.subagent_name)),
            Some(record) => if record.status == SubagentStatus::Invalid {
                Err(SubagentInvocationErrorView::InvalidSubagent(record.definition.name))
            } else if record.status == SubagentStatus::Disabled {
                Err(SubagentInvocationErrorView::DisabledSubagent(record.definition.name))
            } else if config.discovery == SubagentDiscoveryMode::Auto && !session.confirmed {
                Err(
                    SubagentInvocationErrorView::ConfirmationRequired {
                        subagent: record.definition.name,
                        record,
                        session,
                    },
                )
            } else {
                match first_refused(session.requested_tools, record) {
                    Some(tool) => Err(
                        SubagentInvocationErrorView::ToolNotAllowed {
                            subagent: record.definition.name,
                            tool,
                        },
                    ),
                    None => Ok(
                        PreparedSubagentInvocationView {
                            session: InvocationSessionView {
                                resolved_model: resolved_model(session, record, config),
                                ..session
                            },
                            record,
                        },
                    ),
                }
            },
        }
    }
}

pub open spec fn outcome_view(
    r: Result<PreparedSubagentInvocation, SubagentInvocationError>,
) -> Result<PreparedSubagentInvocationView, SubagentInvocationErrorView> {
    match r {
        Ok(p) => Ok(p.deep_view()),
        Err(e) => Err(e.deep_view()),
    }
}

#[derive(Debug)]
pub struct SubagentRunner<'a> {
    pub config: &'a SubagentConfig,
    pub inventory: &'a SubagentInventory,
}

fn find_named<'a>(records: &'a Vec<SubagentRecord>, name: &str) -> (r: Option<&'a SubagentRecord>)
    ensures
        r.deep_view() == first_named(records.deep_view(), name@),
{
    let mut i: usize = 0;
    proof {
        assert(records.deep_view().skip(0) =~= records.deep_view());
    }
    while i < records.len()
        invariant
            i <= records.len(),
            first_named(records.deep_view(), name@) == first_named(
                records.deep_view().skip(i as int),
                name@,
            ),
        decreases records.len() - i,
    {
        proof {
            assert(records.deep_view().skip(i as int).drop_first() =~= records.deep_view().skip(
                i + 1,
            ));
        }
        if same_text(records[i].definition.name.as_str(), name) {
            return Some(&records[i]);
        }
        i += 1;
    }
    None
}

fn find_refused(requested: &Vec<String>, record: &SubagentRecord) -> (r: Option<String>)
    ensures
        r.deep_view() == first_refused(requested.deep_view(), record.deep_view()),
{
    let mut i: usize = 0;
    proof {
        assert(requested.deep_view().skip(0) =~= requested.deep_view());
    }
    while i < requested.len()
        invariant
            i <= requested.len(),
            first_refused(requested.deep_view(), record.deep_view()) == first_refused(
                requested.deep_view().skip(i as int),
                record.deep_view(),
            ),
        decreases requested.len() - i,
    {
        proof {
            assert(requested.deep_view().skip(i as int).drop_first()
                =~= requested.deep_view().skip(i + 1));
        }
        if !record.allows_tool(requested[i].as_str()) {
            return Some(requested[i].clone());
        }
        i += 1;
    }
    None
}

impl<'a> SubagentRunner<'a> {
    pub fn new(config: &'a SubagentConfig, inventory: &'a SubagentInventory) -> (r: Self)
        ensures
            r.config == config,
            r.inventory == inventory,
    {
        SubagentRunner { config, inventory }
    }

    /// Prepares an invocation. It is refused where the feature is off,
    /// the name is unknown, the definition is invalid or disabled,
    /// confirmation is still owed (automatic discovery only), or a
    /// requested tool is not allowed; the first of these that applies is
    /// the answer. Otherwise the invocation comes back with its model
    /// resolved, under the record it will run with.
    pub fn invoke(&self, session: InvocationSession) -> (r: Result<
        PreparedSubagentInvocation,
        SubagentInvocationError,
    >)
        ensures
            outcome_view(r) == invoke_outcome(
                self.config.deep_view(),
                self.inventory.deep_view(),
                session.deep_view(),
            ),
    {
        if !self.config.is_enabled() {
            return Err(SubagentInvocationError::FeatureDisabled);
        }
        let found = match self.inventory.subagents.get(session.subagent_name.as_str()) {
            Some(r) => Some(r),
            None => find_named(self.inventory.invalid(), session.subagent_name.as_str()),
        };
        let record = match found {
            Some(r) => r,
            None => {
                return Err(
                    SubagentInvocationError::UnknownSubagent(session.subagent_name.clone()),
                );
            },
        };
        match record.status {
            SubagentStatus::Invalid => {
                return Err(
                    SubagentInvocationError::InvalidSubagent(record.definition.name.clone()),
                );
            },
            SubagentStatus::Disabled => {
                return Err(
                    SubagentInvocationError::DisabledSubagent(record.definition.name.clone()),
                );
            },
            SubagentStatus::Active => {},
        }
        if matches!(self.config.discovery, SubagentDiscoveryMode::Auto) && !session.confirmed {
            return Err(
                SubagentInvocationError::ConfirmationRequired {
                    subagent: record.definition.name.clone(),
                    record: record.clone(),
                    session,
                },
            );
        }
        match find_refused(&session.requested_tools, record) {
            Some(tool) => {
                return Err(
                    SubagentInvocationError::ToolNotAllowed {
                        subagent: record.definition.name.clone(),
                        tool,
                    },
                );
            },
            None => {},
        }
        let mut session = session;
        if session.resolved_model.is_none() {
            session.resolved_model = match &record.effective_model {
                Some(m) => Some(m.clone()),
                None => copy_opt_string(&self.config.default_model),
            };
        }
        Ok(PreparedSubagentInvocation { session, record: record.clone() })
    }
}

} // verus!
