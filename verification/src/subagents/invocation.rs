//! One request to run a sub-agent, and what came of it.

use crate::copying::{copy_opt_string, copy_strings};
use vstd::prelude::*;

verus! {

#[derive(Debug, PartialEq, Eq)]
pub struct InvocationSession {
    pub parent_session_id: Option<String>,
    pub subagent_name: String,
    pub requested_tools: Vec<String>,
    pub execution_log: Vec<String>,
    pub summary: Option<String>,
    pub detail_artifacts: Vec<String>,
    pub confirmed: bool,
    pub resolved_model: Option<String>,
    pub extra_instructions: Option<String>,
}

pub struct InvocationSessionView {
    pub parent_session_id: Option<Seq<char>>,
    pub subagent_name: Seq<char>,
    pub requested_tools: Seq<Seq<char>>,
    pub execution_log: Seq<Seq<char>>,
    pub summary: Option<Seq<char>>,
    pub detail_artifacts: Seq<Seq<char>>,
    pub confirmed: bool,
    pub resolved_model: Option<Seq<char>>,
    pub extra_instructions: Option<Seq<char>>,
}

impl DeepView for InvocationSession {
    type V = InvocationSessionView;

    open spec fn deep_view(&self) -> InvocationSessionView {
        InvocationSessionView {
            parent_session_id: self.parent_session_id.deep_view(),
            subagent_name: self.subagent_name@,
            requested_tools: self.requested_tools.deep_view(),
            execution_log: self.execution_log.deep_view(),
            summary: self.summary.deep_view(),
            detail_artifacts: self.detail_artifacts.deep_view(),
            confirmed: self.confirmed,
            resolved_model: self.resolved_model.deep_view(),
            extra_instructions: self.extra_instructions.deep_view(),
        }
    }
}

impl Clone for InvocationSession {
    fn clone(&self) -> (r: Self)
        ensures
            r.deep_view() == self.deep_view(),
    {
        InvocationSession {
            parent_session_id: copy_opt_string(&self.parent_session_id),
            subagent_name: self.subagent_name.clone(),
            requested_tools: copy_strings(&self.requested_tools),
            execution_log: copy_strings(&self.execution_log),
            summary: copy_opt_string(&self.summary),
            detail_artifacts: copy_strings(&self.detail_artifacts),
            confirmed: self.confirmed,
            resolved_model: copy_opt_string(&self.resolved_model),
            extra_instructions: copy_opt_string(&self.extra_instructions),
        }
    }
}

/// A request for the named sub-agent that is not confirmed yet and asks
/// for nothing in particular.
pub open spec fn fresh_session(name: Seq<char>) -> InvocationSessionView {
    InvocationSessionView {
        parent_session_id: None,
        subagent_name: name,
        requested_tools: Seq::empty(),
        execution_log: Seq::empty(),
        summary: None,
        detail_artifacts: Seq::empty(),
        confirmed: false,
        resolved_model: None,
        extra_instructions: None,
    }
}

impl InvocationSession {
    pub fn new(subagent_name: &str) -> (r: Self)
        ensures
            r.deep_view() == fresh_session(subagent_name@),
    {
        let requested_tools: Vec<String> = Vec::new();
        let execution_log: Vec<String> = Vec::new();
        let detail_artifacts: Vec<String> = Vec::new();
        proof {
            assert(requested_tools.deep_view() =~= Seq::<Seq<char>>::empty());
            assert(execution_log.deep_view() =~= Seq::<Seq<char>>::empty());
            assert(detail_artifacts.deep_view() =~= Seq::<Seq<char>>::empty());
        }
        InvocationSession {
            parent_session_id: None,
            subagent_name: String::from_str(subagent_name),
            requested_tools,
            execution_log,
            summary: None,
            detail_artifacts,
            confirmed: false,
            resolved_model: None,
            extra_instructions: None,
        }
    }

    /// The same request, confirmed.
    pub fn confirmed(self) -> (r: Self)
        ensures
            r.deep_view() == (InvocationSessionView { confirmed: true, ..self.deep_view() }),
    {
        let mut r = self;
        r.confirmed = true;
        r
    }
}

} // verus!
