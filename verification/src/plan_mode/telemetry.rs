//! What is reported of each transition of Plan Mode.

use crate::clock::{now, Timestamp};
use crate::protocol::AskForApproval;
use vstd::prelude::*;

verus! {

#[derive(Clone, Copy, Debug, PartialEq, Eq, Structural)]
pub enum PlanModeEvent {
    Entered,
    RefusalCaptured,
    ApplySuccess,
    Exit,
}

#[derive(Clone, Copy, Debug, PartialEq, Eq, Structural)]
pub struct PlanTelemetry {
    pub event: PlanModeEvent,
    pub previous_mode: AskForApproval,
    pub plan_entry_count: usize,
    pub occurred_at: Timestamp,
}

impl PlanTelemetry {
    /// A record of `event`, stamped with the present instant.
    pub fn new(event: PlanModeEvent, previous_mode: AskForApproval, plan_entry_count: usize) -> (r:
        Self)
        ensures
            r.event == event,
            r.previous_mode == previous_mode,
            r.plan_entry_count == plan_entry_count,
    {
        PlanTelemetry { event, previous_mode, plan_entry_count, occurred_at: now() }
    }
}

} // verus!
