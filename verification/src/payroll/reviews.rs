//! Overpayment reviews. A review flags a run that has been paid out: it moves
//! nothing, and while it is open the run is not to be archived. The admin opens
//! a review and resolves it with a reason; a run has at most one open review.

pub mod effects;
pub mod laws;

use crate::host::{Abort, Address, Invocation, Symbol};
use crate::payroll::events::PayrollEvent;
use crate::payroll::{DataEntry, DataKey, Payroll, PayrollState};
use vstd::prelude::*;

verus! {

/// Where a review stands.
#[derive(Clone, Copy, Debug, PartialEq, Eq, Structural)]
pub enum ReviewStatus {
    /// The review runs, and the run is not to be archived.
    Open,
    /// The review was closed with a reason.
    Resolved,
}

/// The number of a status.
pub open spec fn status_code(status: ReviewStatus) -> u32 {
    match status {
        ReviewStatus::Open => 0,
        ReviewStatus::Resolved => 1,
    }
}

impl ReviewStatus {
    /// The number of the status.
    pub fn code(&self) -> (code: u32)
        ensures
            code == status_code(*self),
    {
        match self {
            ReviewStatus::Open => 0,
            ReviewStatus::Resolved => 1,
        }
    }
}

/// A review of a run. Disputed amounts are not part of it.
#[derive(Clone, Copy, Debug, PartialEq, Eq)]
pub struct OverpaymentReview {
    /// The review's identifier.
    pub review_id: u64,
    /// The run under review.
    pub run_id: u64,
    /// Ledger time of the opening.
    pub flagged_at: u64,
    /// Who opened the review.
    pub flagged_by: Address,
    /// Where the review stands.
    pub status: ReviewStatus,
    /// Ledger time of the resolution, 0 before it.
    pub resolved_at: u64,
    /// Who resolved the review, if it is resolved.
    pub resolved_by: Option<Address>,
    /// Why the review was closed; the empty symbol before it is.
    pub resolution_reason: Symbol,
}

impl OverpaymentReview {
    /// Whether what the review says of its resolution goes with its status.
    pub open spec fn consistent(self) -> bool {
        match self.status {
            ReviewStatus::Open => {
                &&& self.resolved_at == 0
                &&& self.resolved_by is None
                &&& self.resolution_reason.is_blank()
            },
            ReviewStatus::Resolved => {
                &&& self.resolved_by is Some
                &&& !self.resolution_reason.is_blank()
            },
        }
    }

    /// Whether what the review says of its resolution goes with its status.
    pub fn is_consistent(&self) -> (consistent: bool)
        ensures
            consistent == self.consistent(),
    {
        let blank = self.resolution_reason.same(&Symbol::empty());
        match self.status {
            ReviewStatus::Open => self.resolved_at == 0 && self.resolved_by.is_none() && blank,
            ReviewStatus::Resolved => self.resolved_by.is_some() && !blank,
        }
    }
}

/// Storage keys of the reviews.
#[derive(Clone, Copy, Debug, PartialEq, Eq, Structural)]
pub enum ReviewDataKey {
    /// The identifier of the latest review.
    ReviewCounter,
    /// The latest review of a run.
    OverpaymentReview(u64),
}

impl PayrollState {
    /// The latest review of a run.
    pub open spec fn review(self, run_id: u64) -> Option<OverpaymentReview> {
        let key = DataKey::Review(ReviewDataKey::OverpaymentReview(run_id));
        if self.storage.contains_key(key) {
            Some(self.storage[key]->Review_0)
        } else {
            None
        }
    }

    /// Whether a run is under review.
    pub open spec fn under_review(self, run_id: u64) -> bool {
        self.review(run_id) matches Some(review) && review.status is Open
    }

    /// The identifier of the latest review, 0 before the first.
    pub open spec fn review_counter(self) -> u64 {
        let key = DataKey::Review(ReviewDataKey::ReviewCounter);
        if self.storage.contains_key(key) {
            self.storage[key]->Counter_0
        } else {
            0
        }
    }

    /// The abort of a call that `admin` makes as the admin, if it is aborted.
    pub open spec fn admin_call_abort(self, call: Invocation, admin: Address) -> Option<Abort> {
        match self.admin() {
            None => Some(Abort::NotInitialized),
            Some(stored) => if admin != stored {
                Some(Abort::Unauthorized)
            } else if !call.authorized_by(admin) {
                Some(Abort::NotAuthorized)
            } else {
                None
            },
        }
    }

    /// The abort of an opening, if it is aborted.
    pub open spec fn open_abort(self, call: Invocation, admin: Address, run_id: u64) -> Option<
        Abort,
    > {
        if let Some(abort) = self.admin_call_abort(call, admin) {
            Some(abort)
        } else if !self.has_run(run_id) {
            Some(Abort::RunNotFound)
        } else if self.under_review(run_id) {
            Some(Abort::ReviewAlreadyOpen)
        } else if self.review_counter() == u64::MAX {
            Some(Abort::Overflow)
        } else {
            None
        }
    }

    /// The state after `review` was opened.
    pub open spec fn opened(self, review: OverpaymentReview) -> Self {
        PayrollState {
            storage: self.storage.insert(
                DataKey::Review(ReviewDataKey::ReviewCounter),
                DataEntry::Counter(review.review_id),
            ).insert(
                DataKey::Review(ReviewDataKey::OverpaymentReview(review.run_id)),
                DataEntry::Review(review),
            ),
            events: self.events.push(
                PayrollEvent::ReviewOpened {
                    review_id: review.review_id,
                    run_id: review.run_id,
                    flagged_at: review.flagged_at,
                },
            ),
        }
    }

    /// The review that an opening makes.
    pub open spec fn fresh_review(
        self,
        call: Invocation,
        admin: Address,
        run_id: u64,
    ) -> OverpaymentReview {
        OverpaymentReview {
            review_id: (self.review_counter() + 1) as u64,
            run_id,
            flagged_at: call.timestamp,
            flagged_by: admin,
            status: ReviewStatus::Open,
            resolved_at: 0,
            resolved_by: None,
            resolution_reason: crate::host::blank_symbol(),
        }
    }

    /// The abort of a resolution, if it is aborted.
    pub open spec fn resolve_abort(
        self,
        call: Invocation,
        admin: Address,
        run_id: u64,
        reason: Symbol,
    ) -> Option<Abort> {
        if let Some(abort) = self.admin_call_abort(call, admin) {
            Some(abort)
        } else if reason.is_blank() {
            Some(Abort::EmptyReason)
        } else {
            match self.review(run_id) {
                None => Some(Abort::ReviewNotFound),
                Some(review) => if review.status is Resolved {
                    Some(Abort::ReviewAlreadyResolved)
                } else {
                    None
                },
            }
        }
    }

    /// The review that a resolution leaves.
    pub open spec fn resolved_review(
        self,
        call: Invocation,
        admin: Address,
        run_id: u64,
        reason: Symbol,
    ) -> OverpaymentReview {
        OverpaymentReview {
            status: ReviewStatus::Resolved,
            resolved_at: call.timestamp,
            resolved_by: Some(admin),
            resolution_reason: reason,
            ..self.review(run_id)->0
        }
    }

    /// The state after `review` was resolved.
    pub open spec fn resolved(self, review: OverpaymentReview) -> Self {
        PayrollState {
            storage: self.storage.insert(
                DataKey::Review(ReviewDataKey::OverpaymentReview(review.run_id)),
                DataEntry::Review(review),
            ),
            events: self.events.push(
                PayrollEvent::ReviewResolved {
                    review_id: review.review_id,
                    run_id: review.run_id,
                    resolved_at: review.resolved_at,
                },
            ),
        }
    }
}

/// Asks whether `admin` is the admin and authorized the call.
fn require_admin(payroll: &Payroll, call: &Invocation, admin: &Address) -> (result: Result<
    (),
    Abort,
>)
    requires
        payroll.wf(),
    ensures
        result == (match payroll@.admin_call_abort(*call, *admin) {
            Some(abort) => Err(abort),
            None => Ok(()),
        }),
{
    match payroll.storage.get(&DataKey::Addresses) {
        Some(DataEntry::Addresses(addresses)) => {
            if !admin.same(&addresses.admin) {
                Err(Abort::Unauthorized)
            } else if !call.is_authorized_by(admin) {
                Err(Abort::NotAuthorized)
            } else {
                Ok(())
            }
        },
        _ => Err(Abort::NotInitialized),
    }
}

/// Opens a review of a run, and returns its identifier: one more than that of
/// the review before it.
pub fn open_overpayment_review(
    payroll: &mut Payroll,
    call: &Invocation,
    admin: &Address,
    run_id: u64,
) -> (result: Result<u64, Abort>)
    requires
        old(payroll).wf(),
    ensures
        final(payroll).wf(),
        match old(payroll)@.open_abort(*call, *admin, run_id) {
            Some(abort) => {
                &&& result == Err::<u64, Abort>(abort)
                &&& final(payroll)@ == old(payroll)@
            },
            None => {
                &&& result == Ok::<u64, Abort>((old(payroll)@.review_counter() + 1) as u64)
                &&& final(payroll)@ == old(payroll)@.opened(
                    old(payroll)@.fresh_review(*call, *admin, run_id),
                )
            },
        },
{
    require_admin(payroll, call, admin)?;
    if !payroll.storage.has(&DataKey::PayrollRun(run_id)) {
        return Err(Abort::RunNotFound);
    }
    if has_open_review(payroll, run_id) {
        return Err(Abort::ReviewAlreadyOpen);
    }
    let counter: u64 = match payroll.storage.get(&DataKey::Review(ReviewDataKey::ReviewCounter)) {
        Some(DataEntry::Counter(counter)) => counter,
        _ => 0,
    };
    if counter == u64::MAX {
        return Err(Abort::Overflow);
    }
    let review_id: u64 = counter + 1;
    let flagged_at: u64 = call.timestamp;
    let review = OverpaymentReview {
        review_id,
        run_id,
        flagged_at,
        flagged_by: *admin,
        status: ReviewStatus::Open,
        resolved_at: 0,
        resolved_by: None,
        resolution_reason: Symbol::empty(),
    };
    payroll.write(DataKey::Review(ReviewDataKey::ReviewCounter), DataEntry::Counter(review_id));
    payroll.write(
        DataKey::Review(ReviewDataKey::OverpaymentReview(run_id)),
        DataEntry::Review(review),
    );
    payroll.events.push(PayrollEvent::ReviewOpened { review_id, run_id, flagged_at });
    Ok(review_id)
}

/// Resolves the open review of a run, with a reason.
pub fn resolve_overpayment_review(
    payroll: &mut Payroll,
    call: &Invocation,
    admin: &Address,
    run_id: u64,
    reason: Symbol,
) -> (result: Result<(), Abort>)
    requires
        old(payroll).wf(),
    ensures
        final(payroll).wf(),
        match old(payroll)@.resolve_abort(*call, *admin, run_id, reason) {
            Some(abort) => {
                &&& result == Err::<(), Abort>(abort)
                &&& final(payroll)@ == old(payroll)@
            },
            None => {
                &&& result == Ok::<(), Abort>(())
                &&& final(payroll)@ == old(payroll)@.resolved(
                    old(payroll)@.resolved_review(*call, *admin, run_id, reason),
                )
            },
        },
{
    require_admin(payroll, call, admin)?;
    if reason.same(&Symbol::empty()) {
        return Err(Abort::EmptyReason);
    }
    let mut review = match get_overpayment_review(payroll, run_id) {
        Some(review) => review,
        None => {
            return Err(Abort::ReviewNotFound);
        },
    };
    if review.status == ReviewStatus::Resolved {
        return Err(Abort::ReviewAlreadyResolved);
    }
    let resolved_at: u64 = call.timestamp;
    review.status = ReviewStatus::Resolved;
    review.resolved_at = resolved_at;
    review.resolved_by = Some(*admin);
    review.resolution_reason = reason;
    payroll.write(
        DataKey::Review(ReviewDataKey::OverpaymentReview(run_id)),
        DataEntry::Review(review),
    );
    payroll.events.push(
        PayrollEvent::ReviewResolved { review_id: review.review_id, run_id, resolved_at },
    );
    Ok(())
}

/// The latest review of a run, if it has one.
pub fn get_overpayment_review(payroll: &Payroll, run_id: u64) -> (review: Option<OverpaymentReview>)
    requires
        payroll.wf(),
    ensures
        review == payroll@.review(run_id),
        review matches Some(found) ==> found.run_id == run_id && found.consistent(),
{
    match payroll.storage.get(&DataKey::Review(ReviewDataKey::OverpaymentReview(run_id))) {
        Some(DataEntry::Review(review)) => Some(review),
        _ => None,
    }
}

/// Whether a run is under review, and not to be archived.
pub fn has_open_review(payroll: &Payroll, run_id: u64) -> (open: bool)
    requires
        payroll.wf(),
    ensures
        open == payroll@.under_review(run_id),
{
    match get_overpayment_review(payroll, run_id) {
        Some(review) => review.status == ReviewStatus::Open,
        None => false,
    }
}

/// Announces that an archival was refused because of an open review.
pub fn emit_archival_blocked(payroll: &mut Payroll, run_id: u64, review_id: u64)
    ensures
        old(payroll).wf() ==> final(payroll).wf(),
        final(payroll)@ == old(payroll)@.announced(
            PayrollEvent::ArchivalBlocked { run_id, review_id },
        ),
{
    payroll.events.push(PayrollEvent::ArchivalBlocked { run_id, review_id });
}

} // verus!
