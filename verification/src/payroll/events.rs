//! The payroll contract's events. They carry identifiers and times only: no
//! amounts, no employee addresses, no proof data.

use crate::host::{BytesN, Symbol};
use vstd::prelude::*;

verus! {

/// The namespace that all of the events stand in.
pub const PAYROLL_NS: &'static str = "payroll";

/// The name of the event that announces a review.
pub const REVIEW_OPENED: &'static str = "review_opened";

/// The name of the event that announces a review's end.
pub const REVIEW_RESOLVED: &'static str = "review_resolved";

/// The name of the event that announces a blocked archival.
pub const ARCHIVAL_BLOCKED: &'static str = "archival_blocked";

/// The name of the event that announces an audit marker.
pub const AUDIT_MARKER: &'static str = "audit_marker";

/// What the contract announces.
#[derive(Clone, Copy, Debug, PartialEq, Eq)]
pub enum PayrollEvent {
    /// A review was opened.
    ReviewOpened { review_id: u64, run_id: u64, flagged_at: u64 },
    /// A review was resolved.
    ReviewResolved { review_id: u64, run_id: u64, resolved_at: u64 },
    /// An archival was refused because of an open review.
    ArchivalBlocked { run_id: u64, review_id: u64 },
    /// An audit marker was recorded.
    AuditMarker { action_type: Symbol, run_or_draft_id: u64, entity_hash: BytesN<32> },
}

/// The name of an event within its namespace.
pub open spec fn event_name(event: PayrollEvent) -> Seq<char> {
    match event {
        PayrollEvent::ReviewOpened { .. } => REVIEW_OPENED@,
        PayrollEvent::ReviewResolved { .. } => REVIEW_RESOLVED@,
        PayrollEvent::ArchivalBlocked { .. } => ARCHIVAL_BLOCKED@,
        PayrollEvent::AuditMarker { .. } => AUDIT_MARKER@,
    }
}

impl PayrollEvent {
    /// The name of the event within its namespace.
    pub fn name(&self) -> (name: &'static str)
        ensures
            name@ == event_name(*self),
    {
        match self {
            PayrollEvent::ReviewOpened { .. } => REVIEW_OPENED,
            PayrollEvent::ReviewResolved { .. } => REVIEW_RESOLVED,
            PayrollEvent::ArchivalBlocked { .. } => ARCHIVAL_BLOCKED,
            PayrollEvent::AuditMarker { .. } => AUDIT_MARKER,
        }
    }
}

} // verus!
