//! Audit markers: what happened to a run or draft and when, without saying what
//! it was about.

use crate::host::{BytesN, Invocation, Symbol};
use crate::payroll::events::PayrollEvent;
use crate::payroll::Payroll;
use vstd::prelude::*;

verus! {

/// A mark in the audit trail.
#[derive(Clone, Copy, Debug, PartialEq, Eq)]
pub struct ConfidentialAuditMarker {
    /// What was done.
    pub action_type: Symbol,
    /// The run or draft it was done to.
    pub run_or_draft_id: u64,
    /// The hash of what is not disclosed.
    pub entity_hash: BytesN<32>,
    /// Ledger time of the action.
    pub timestamp: u64,
}

/// Records an audit marker: announces it, and returns it with the ledger time.
pub fn record_audit_marker(
    payroll: &mut Payroll,
    call: &Invocation,
    action_type: Symbol,
    run_or_draft_id: u64,
    entity_hash: BytesN<32>,
) -> (marker: ConfidentialAuditMarker)
    ensures
        old(payroll).wf() ==> final(payroll).wf(),
        marker == (ConfidentialAuditMarker {
            action_type,
            run_or_draft_id,
            entity_hash,
            timestamp: call.timestamp,
        }),
        final(payroll)@ == old(payroll)@.announced(
            PayrollEvent::AuditMarker { action_type, run_or_draft_id, entity_hash },
        ),
{
    payroll.events.push(PayrollEvent::AuditMarker { action_type, run_or_draft_id, entity_hash });
    ConfidentialAuditMarker { action_type, run_or_draft_id, entity_hash, timestamp: call.timestamp }
}

} // verus!
