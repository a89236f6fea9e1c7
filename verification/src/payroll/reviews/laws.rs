//! What holds of overpayment reviews across calls.

use super::{ReviewDataKey, ReviewStatus};
use crate::host::{Abort, Address, BytesN, Invocation, Symbol};
use crate::payroll::events::PayrollEvent;
use crate::payroll::{DataEntry, DataKey, PayrollState};
use vstd::prelude::*;

verus! {

/// One state-changing call on the payroll's records, with its arguments.
pub enum Operation {
    /// `open_overpayment_review`
    Open { admin: Address, run_id: u64 },
    /// `resolve_overpayment_review`
    Resolve { admin: Address, run_id: u64, reason: Symbol },
    /// `emit_archival_blocked`
    ArchivalBlocked { run_id: u64, review_id: u64 },
    /// `record_audit_marker`
    AuditMarker { action_type: Symbol, run_or_draft_id: u64, entity_hash: BytesN<32> },
}

/// One step in the life of the payroll's records.
pub enum Step {
    /// A call, successful or not.
    Call { call: Invocation, op: Operation },
    /// A payroll run takes place.
    NewRun { run_id: u64 },
}

impl PayrollState {
    /// The abort of the operation, if it is aborted.
    pub open spec fn abort(self, call: Invocation, op: Operation) -> Option<Abort> {
        match op {
            Operation::Open { admin, run_id } => self.open_abort(call, admin, run_id),
            Operation::Resolve { admin, run_id, reason } => self.resolve_abort(
                call,
                admin,
                run_id,
                reason,
            ),
            Operation::ArchivalBlocked { .. } => None,
            Operation::AuditMarker { .. } => None,
        }
    }

    /// The state after the operation, where it succeeds.
    pub open spec fn success(self, call: Invocation, op: Operation) -> PayrollState {
        match op {
            Operation::Open { admin, run_id } => self.opened(
                self.fresh_review(call, admin, run_id),
            ),
            Operation::Resolve { admin, run_id, reason } => self.resolved(
                self.resolved_review(call, admin, run_id, reason),
            ),
            Operation::ArchivalBlocked { run_id, review_id } => self.announced(
                PayrollEvent::ArchivalBlocked { run_id, review_id },
            ),
            Operation::AuditMarker { action_type, run_or_draft_id, entity_hash } => self.announced(
                PayrollEvent::AuditMarker { action_type, run_or_draft_id, entity_hash },
            ),
        }
    }

    /// The state after the operation. An aborted operation leaves everything as
    /// it was.
    pub open spec fn after(self, call: Invocation, op: Operation) -> PayrollState {
        if self.abort(call, op) is Some {
            self
        } else {
            self.success(call, op)
        }
    }

    /// The state with a payroll run recorded.
    pub open spec fn with_run(self, run_id: u64) -> PayrollState {
        PayrollState {
            storage: self.storage.insert(DataKey::PayrollRun(run_id), DataEntry::Run),
            ..self
        }
    }

    /// The state after one step.
    pub open spec fn after_step(self, step: Step) -> PayrollState {
        match step {
            Step::Call { call, op } => self.after(call, op),
            Step::NewRun { run_id } => self.with_run(run_id),
        }
    }

    /// The state after a history of steps, first to last.
    pub open spec fn run(self, history: Seq<Step>) -> PayrollState
        decreases history.len(),
    {
        if history.len() == 0 {
            self
        } else {
            self.run(history.drop_last()).after_step(history.last())
        }
    }

    /// What every reachable state has: a review is of a run that is there, its
    /// identifier is no later than the counter, and no other review has it.
    pub open spec fn inv(self) -> bool {
        &&& self.well_typed()
        &&& forall|run_id: u64|
            #![trigger self.review(run_id)]
            self.review(run_id) matches Some(review) ==> {
                &&& self.has_run(run_id)
                &&& 0 < review.review_id <= self.review_counter()
            }
        &&& forall|a: u64, b: u64|
            #![trigger self.review(a), self.review(b)]
            self.review(a) is Some && self.review(b) is Some && self.review(a)->0.review_id
                == self.review(b)->0.review_id ==> a == b
    }
}

/// A review that is there fits its key.
proof fn lemma_review_fits(s: PayrollState, run_id: u64)
    requires
        s.well_typed(),
        s.review(run_id) is Some,
    ensures
        s.review(run_id)->0.run_id == run_id,
        s.review(run_id)->0.consistent(),
{
    let key = DataKey::Review(ReviewDataKey::OverpaymentReview(run_id));
    assert(crate::payroll::entry_fits(key, s.storage[key]));
}

/// No step leaves an entry that does not fit its key.
proof fn lemma_step_fits(s: PayrollState, step: Step)
    requires
        s.well_typed(),
    ensures
        s.after_step(step).well_typed(),
{
    let t = s.after_step(step);
    if let Step::Call { op: Operation::Resolve { run_id, .. }, .. } = step {
        if s.review(run_id) is Some {
            lemma_review_fits(s, run_id);
        }
    }
    assert forall|k: DataKey| #[trigger]
        t.storage.contains_key(k) implies crate::payroll::entry_fits(k, t.storage[k]) by {
        if s.storage.contains_key(k) {
            assert(crate::payroll::entry_fits(k, s.storage[k]));
        }
    }
}

/// Records without reviews are sound, and no call makes them unsound.
pub proof fn lemma_invariant_kept(s: PayrollState, call: Invocation, op: Operation)
    ensures
        s.well_typed() && (forall|run_id: u64| (#[trigger] s.review(run_id)) is None) ==> s.inv(),
        s.inv() ==> s.after(call, op).inv(),
{
    if s.inv() && s.abort(call, op) is None {
        let t = s.after(call, op);
        lemma_step_fits(s, Step::Call { call, op });
        if let Operation::Resolve { run_id, .. } = op {
            lemma_review_fits(s, run_id);
        }
        assert forall|r: u64| #![trigger t.review(r)] t.review(r) is Some implies (t.has_run(r) && 0
            < t.review(r)->0.review_id <= t.review_counter()) by {
            assert(s.review(r) is Some ==> s.has_run(r) && 0 < s.review(r)->0.review_id
                <= s.review_counter());
        }
        assert forall|a: u64, b: u64|
            #![trigger t.review(a), t.review(b)]
            t.review(a) is Some && t.review(b) is Some && t.review(a)->0.review_id == t.review(
                b,
            )->0.review_id implies a == b by {
            assert(s.review(a) is Some ==> s.review(a)->0.review_id <= s.review_counter());
            assert(s.review(b) is Some ==> s.review(b)->0.review_id <= s.review_counter());
            assert(s.review(a) is Some && s.review(b) is Some && s.review(a)->0.review_id
                == s.review(b)->0.review_id ==> a == b);
        }
    }
}

/// A payroll run that takes place leaves every review and the counter alone.
pub proof fn lemma_new_run_keeps_reviews(s: PayrollState, run_id: u64, other_run: u64)
    ensures
        s.inv() ==> s.with_run(run_id).inv(),
        s.with_run(run_id).review_counter() == s.review_counter(),
        s.with_run(run_id).review(other_run) == s.review(other_run),
        s.with_run(run_id).under_review(other_run) == s.under_review(other_run),
        s.with_run(run_id).has_run(other_run) == (s.has_run(other_run) || other_run == run_id),
{
    let t = s.with_run(run_id);
    if s.inv() {
        lemma_step_fits(s, Step::NewRun { run_id });
        assert forall|r: u64| #![trigger t.review(r)] t.review(r) == s.review(r) by {}
    }
}

/// Whatever calls are made on reviews and audit markers, in whatever order and
/// by whomever, and whatever payroll runs take place between them, sound records
/// stay sound, and the counter that identifiers are taken from never falls.
pub proof fn lemma_history_keeps_soundness(s: PayrollState, history: Seq<Step>)
    requires
        s.inv(),
    ensures
        s.run(history).inv(),
        s.review_counter() <= s.run(history).review_counter(),
    decreases history.len(),
{
    if history.len() > 0 {
        let before = s.run(history.drop_last());
        lemma_history_keeps_soundness(s, history.drop_last());
        match history.last() {
            Step::Call { call, op } => {
                lemma_invariant_kept(before, call, op);
            },
            Step::NewRun { run_id } => {
                lemma_new_run_keeps_reviews(before, run_id, run_id);
            },
        }
    }
}

/// A new review has a later identifier than any review before it.
pub proof fn lemma_review_ids_increase(
    s: PayrollState,
    call: Invocation,
    admin: Address,
    run_id: u64,
    earlier_run: u64,
)
    requires
        s.inv(),
        s.abort(call, Operation::Open { admin, run_id }) is None,
        s.review(earlier_run) is Some,
    ensures
        s.after(call, Operation::Open { admin, run_id }).review(run_id)->0.review_id > s.review(
            earlier_run,
        )->0.review_id,
{
}

/// A run under review gets no second review.
pub proof fn lemma_one_open_review(s: PayrollState, call: Invocation, admin: Address, run_id: u64)
    requires
        s.under_review(run_id),
    ensures
        s.abort(call, Operation::Open { admin, run_id }) is Some,
        s.inv() && s.admin_call_abort(call, admin) is None ==> s.abort(
            call,
            Operation::Open { admin, run_id },
        ) == Some(Abort::ReviewAlreadyOpen),
{
}

/// A run goes under review by an opening alone, and comes out of it by a
/// resolution alone: each made by the admin, the resolution with a reason that
/// is not blank.
pub proof fn lemma_review_lifecycle(s: PayrollState, call: Invocation, op: Operation, run_id: u64)
    requires
        s.well_typed(),
    ensures
        !s.under_review(run_id) && s.after(call, op).under_review(run_id) ==> {
            &&& op matches Operation::Open { admin, run_id: opened }
            &&& opened == run_id
            &&& s.admin() == Some(admin)
            &&& call.authorized_by(admin)
            &&& s.has_run(run_id)
        },
        s.under_review(run_id) && !s.after(call, op).under_review(run_id) ==> {
            &&& op matches Operation::Resolve { admin, run_id: resolved, reason }
            &&& resolved == run_id
            &&& s.admin() == Some(admin)
            &&& call.authorized_by(admin)
            &&& !reason.is_blank()
        },
{
    if let Operation::Resolve { run_id: r, .. } = op {
        if s.review(r) is Some {
            lemma_review_fits(s, r);
        }
    }
}

/// Whether a step is a call that opens or resolves a review of the run.
pub open spec fn step_reviews(step: Step, run_id: u64) -> bool {
    match step {
        Step::Call { op: Operation::Open { run_id: r, .. }, .. } => r == run_id,
        Step::Call { op: Operation::Resolve { run_id: r, .. }, .. } => r == run_id,
        _ => false,
    }
}

/// Whatever happens to other runs, a run's review and the admin stay as they
/// are.
pub proof fn lemma_runs_isolated_over_history(s: PayrollState, history: Seq<Step>, run_id: u64)
    requires
        s.well_typed(),
        forall|i: int| 0 <= i < history.len() ==> !step_reviews(#[trigger] history[i], run_id),
    ensures
        s.run(history).well_typed(),
        s.run(history).review(run_id) == s.review(run_id),
        s.run(history).admin() == s.admin(),
    decreases history.len(),
{
    if history.len() > 0 {
        let rest = history.drop_last();
        assert forall|i: int| 0 <= i < rest.len() implies !step_reviews(
            #[trigger] rest[i],
            run_id,
        ) by {
            assert(rest[i] == history[i]);
        }
        lemma_runs_isolated_over_history(s, rest, run_id);
        assert(!step_reviews(history[history.len() - 1], run_id));
        lemma_step_fits(s.run(rest), history.last());
        match history.last() {
            Step::Call { call, op } => {
                lemma_runs_isolated(s.run(rest), call, op, run_id);
            },
            Step::NewRun { run_id: other } => {
                lemma_new_run_keeps_reviews(s.run(rest), other, run_id);
            },
        }
    }
}

/// Opening puts a run under review, where it stays whatever happens to other
/// runs, until a resolution takes it out. Both succeed for the admin, for a run
/// that is there, as long as identifiers last.
pub proof fn lemma_open_then_resolve(
    s: PayrollState,
    call: Invocation,
    between: Seq<Step>,
    later: Invocation,
    admin: Address,
    run_id: u64,
    reason: Symbol,
)
    requires
        s.well_typed(),
        s.admin_call_abort(call, admin) is None,
        later.authorized_by(admin),
        s.has_run(run_id),
        !s.under_review(run_id),
        s.review_counter() < u64::MAX,
        !reason.is_blank(),
        forall|i: int| 0 <= i < between.len() ==> !step_reviews(#[trigger] between[i], run_id),
    ensures
        ({
            let open = Operation::Open { admin, run_id };
            let resolve = Operation::Resolve { admin, run_id, reason };
            let t = s.after(call, open).run(between);
            &&& s.abort(call, open) is None
            &&& t.under_review(run_id)
            &&& t.abort(later, resolve) is None
            &&& !t.after(later, resolve).under_review(run_id)
            &&& t.after(later, resolve).review(run_id) matches Some(review)
            &&& review.resolution_reason == reason
            &&& review.resolved_by == Some(admin)
            &&& review.resolved_at == later.timestamp
        }),
{
    let open = Operation::Open { admin, run_id };
    lemma_step_fits(s, Step::Call { call, op: open });
    lemma_runs_isolated_over_history(s.after(call, open), between, run_id);
    lemma_review_fits(s.after(call, open).run(between), run_id);
}

/// After a resolution the run can be reviewed again.
pub proof fn lemma_reopen_after_resolution(
    s: PayrollState,
    call: Invocation,
    admin: Address,
    run_id: u64,
)
    requires
        s.inv(),
        s.admin_call_abort(call, admin) is None,
        s.review(run_id) matches Some(review) && review.status is Resolved,
        s.review_counter() < u64::MAX,
    ensures
        s.abort(call, Operation::Open { admin, run_id }) is None,
        s.after(call, Operation::Open { admin, run_id }).under_review(run_id),
{
}

/// A resolution keeps what the opening recorded.
pub proof fn lemma_resolution_keeps_record(
    s: PayrollState,
    call: Invocation,
    admin: Address,
    run_id: u64,
    reason: Symbol,
)
    requires
        s.well_typed(),
        s.abort(call, Operation::Resolve { admin, run_id, reason }) is None,
    ensures
        ({
            let before = s.review(run_id)->0;
            let after = s.after(call, Operation::Resolve { admin, run_id, reason }).review(
                run_id,
            )->0;
            &&& after.review_id == before.review_id
            &&& after.run_id == before.run_id
            &&& after.flagged_at == before.flagged_at
            &&& after.flagged_by == before.flagged_by
        }),
{
    lemma_review_fits(s, run_id);
}

/// A resolved review is final: nothing changes it but a new review of the run,
/// which takes its place.
pub proof fn lemma_resolved_is_final(s: PayrollState, call: Invocation, op: Operation, run_id: u64)
    requires
        s.well_typed(),
        s.review(run_id) matches Some(review) && review.status is Resolved,
        !(op matches Operation::Open { run_id: opened, .. } && opened == run_id),
    ensures
        s.after(call, op).review(run_id) == s.review(run_id),
{
    if let Operation::Resolve { run_id: r, .. } = op {
        if s.review(r) is Some {
            lemma_review_fits(s, r);
        }
    }
}

/// A resolved review says who resolved it and why; an open one says neither.
pub proof fn lemma_reason_on_record(s: PayrollState, run_id: u64)
    requires
        s.inv(),
        s.review(run_id) is Some,
    ensures
        ({
            let review = s.review(run_id)->0;
            &&& review.status is Resolved <==> !review.resolution_reason.is_blank()
            &&& review.status is Resolved <==> review.resolved_by is Some
        }),
{
    lemma_review_fits(s, run_id);
}

/// Reviews touch nothing that is settled: no call writes an entry that is not a
/// review's own.
pub proof fn lemma_settlement_untouched(
    s: PayrollState,
    call: Invocation,
    op: Operation,
    key: DataKey,
)
    requires
        !(key is Review),
    ensures
        s.after(call, op).storage.contains_key(key) == s.storage.contains_key(key),
        s.storage.contains_key(key) ==> s.after(call, op).storage[key] == s.storage[key],
        s.after(call, op).admin() == s.admin(),
{
}

/// A call about one run leaves every other run's review alone.
pub proof fn lemma_runs_isolated(s: PayrollState, call: Invocation, op: Operation, run_id: u64)
    requires
        s.well_typed(),
        !(op matches Operation::Open { run_id: other, .. } && other == run_id),
        !(op matches Operation::Resolve { run_id: other, .. } && other == run_id),
    ensures
        s.after(call, op).review(run_id) == s.review(run_id),
        s.after(call, op).under_review(run_id) == s.under_review(run_id),
{
    if let Operation::Resolve { run_id: r, .. } = op {
        if s.review(r) is Some {
            lemma_review_fits(s, r);
        }
    }
}

/// Only the admin, with the admin's authorization, opens or resolves.
pub proof fn lemma_admin_required(s: PayrollState, call: Invocation, op: Operation)
    requires
        match op {
            Operation::Open { admin, .. } => s.admin() != Some(admin) || !call.authorized_by(admin),
            Operation::Resolve { admin, .. } => s.admin() != Some(admin) || !call.authorized_by(
                admin,
            ),
            _ => false,
        },
    ensures
        s.abort(call, op) is Some,
        s.after(call, op) == s,
{
}

/// Every successful call announces one event. Of a review it says the
/// identifiers of the review and its run, and the ledger time.
pub proof fn lemma_events_announced(s: PayrollState, call: Invocation, op: Operation)
    requires
        s.well_typed(),
        s.abort(call, op) is None,
    ensures
        s.after(call, op).events == s.events.push(
            match op {
                Operation::Open { run_id, .. } => PayrollEvent::ReviewOpened {
                    review_id: (s.review_counter() + 1) as u64,
                    run_id,
                    flagged_at: call.timestamp,
                },
                Operation::Resolve { run_id, .. } => PayrollEvent::ReviewResolved {
                    review_id: s.review(run_id)->0.review_id,
                    run_id,
                    resolved_at: call.timestamp,
                },
                Operation::ArchivalBlocked { run_id, review_id } => PayrollEvent::ArchivalBlocked {
                    run_id,
                    review_id,
                },
                Operation::AuditMarker { action_type, run_or_draft_id, entity_hash } =>
                    PayrollEvent::AuditMarker { action_type, run_or_draft_id, entity_hash },
            },
        ),
{
    if let Operation::Resolve { run_id, .. } = op {
        lemma_review_fits(s, run_id);
    }
}

/// The entries an operation reads or writes.
pub open spec fn footprint(op: Operation) -> Set<DataKey> {
    match op {
        Operation::Open { run_id, .. } => set![
            DataKey::Addresses,
            DataKey::PayrollRun(run_id),
            DataKey::Review(ReviewDataKey::ReviewCounter),
            DataKey::Review(ReviewDataKey::OverpaymentReview(run_id)),
        ],
        Operation::Resolve { run_id, .. } => set![
            DataKey::Addresses,
            DataKey::Review(ReviewDataKey::OverpaymentReview(run_id)),
        ],
        Operation::ArchivalBlocked { .. } => Set::empty(),
        Operation::AuditMarker { .. } => Set::empty(),
    }
}

/// Whether the two storages agree on a key.
pub open spec fn agree_on(s: PayrollState, t: PayrollState, key: DataKey) -> bool {
    &&& s.storage.contains_key(key) == t.storage.contains_key(key)
    &&& s.storage.contains_key(key) ==> s.storage[key] == t.storage[key]
}

/// An operation depends on, and changes, nothing outside its footprint: run on
/// any storage that agrees on the footprint, it ends alike and leaves alike.
pub proof fn lemma_footprint(
    s: PayrollState,
    t: PayrollState,
    call: Invocation,
    op: Operation,
    key: DataKey,
)
    requires
        s.well_typed(),
        forall|k: DataKey| #[trigger] footprint(op).contains(k) ==> agree_on(s, t, k),
    ensures
        s.abort(call, op) == t.abort(call, op),
        footprint(op).contains(key) ==> agree_on(s.after(call, op), t.after(call, op), key),
        !footprint(op).contains(key) ==> agree_on(s.after(call, op), s, key),
{
    let keys = footprint(op);
    match op {
        Operation::Open { run_id, .. } => {
            assert(keys.contains(DataKey::Addresses));
            assert(keys.contains(DataKey::PayrollRun(run_id)));
            assert(keys.contains(DataKey::Review(ReviewDataKey::ReviewCounter)));
            assert(keys.contains(DataKey::Review(ReviewDataKey::OverpaymentReview(run_id))));
        },
        Operation::Resolve { run_id, .. } => {
            assert(keys.contains(DataKey::Addresses));
            assert(keys.contains(DataKey::Review(ReviewDataKey::OverpaymentReview(run_id))));
            if s.review(run_id) is Some {
                lemma_review_fits(s, run_id);
            }
        },
        _ => {},
    }
}

/// Statuses are told apart by their numbers.
pub proof fn lemma_status_codes_distinct(a: ReviewStatus, b: ReviewStatus)
    ensures
        super::status_code(a) == super::status_code(b) ==> a == b,
{
}

} // verus!
