//! What each call on the payroll's records does, said of the stored entries
//! themselves: when it succeeds, which abort each refusal gets, which fields it
//! leaves, and what it does not touch.

use super::laws::Operation;
use super::{
    emit_archival_blocked, open_overpayment_review, resolve_overpayment_review, ReviewDataKey,
};
use crate::host::{Abort, Address, Invocation, Symbol};
use crate::payroll::audit::record_audit_marker;
use crate::payroll::events::PayrollEvent;
use crate::payroll::{DataEntry, DataKey, Payroll, PayrollState};
use vstd::prelude::*;

verus! {

/// Whether `admin` is the stored admin.
pub open spec fn stored_admin(s: PayrollState, admin: Address) -> bool {
    &&& s.storage.contains_key(DataKey::Addresses)
    &&& s.storage[DataKey::Addresses] matches DataEntry::Addresses(addresses)
    &&& addresses.admin == admin
}

/// The key of a run's latest review.
pub open spec fn place(run_id: u64) -> DataKey {
    DataKey::Review(ReviewDataKey::OverpaymentReview(run_id))
}

/// The key of the latest review's identifier.
pub open spec fn counter_place() -> DataKey {
    DataKey::Review(ReviewDataKey::ReviewCounter)
}

/// The identifier of the latest review: the stored one, else 0.
pub open spec fn latest_id(s: PayrollState) -> u64 {
    match s.storage[counter_place()] {
        DataEntry::Counter(counter) if s.storage.contains_key(counter_place()) => counter,
        _ => 0,
    }
}

/// Whether a stored review of the run has the status `Open`.
pub open spec fn open_review(s: PayrollState, run_id: u64) -> bool {
    &&& s.storage.contains_key(place(run_id))
    &&& s.storage[place(run_id)] matches DataEntry::Review(review)
    &&& review.status is Open
}

/// Whether no character of the symbol is set.
pub open spec fn spells_nothing(symbol: Symbol) -> bool {
    forall|i: int| 0 <= i < 32 ==> #[trigger] symbol.text@[i] == 0
}

/// Whether the two states have the same entries but under `key` and `other`.
pub open spec fn same_but(s: PayrollState, t: PayrollState, key: DataKey, other: DataKey) -> bool {
    forall|k: DataKey|
        #![trigger t.storage.contains_key(k)]
        #![trigger t.storage[k]]
        k != key && k != other ==> {
            &&& t.storage.contains_key(k) == s.storage.contains_key(k)
            &&& s.storage.contains_key(k) ==> t.storage[k] == s.storage[k]
        }
}

/// A symbol is blank exactly when none of its characters is set.
pub proof fn lemma_blank_symbols(symbol: Symbol)
    ensures
        symbol.is_blank() <==> spells_nothing(symbol),
{
    let blank = crate::host::blank_symbol();
    if spells_nothing(symbol) {
        assert(symbol.text =~= blank.text);
    }
    assert(spells_nothing(blank));
}

/// What an entry must be to stand under a key.
pub proof fn lemma_entries_that_fit(key: DataKey, entry: DataEntry)
    ensures
        crate::payroll::entry_fits(key, entry) <==> match key {
            DataKey::Addresses => entry is Addresses,
            DataKey::PayrollRun(_) => entry is Run,
            DataKey::Review(ReviewDataKey::ReviewCounter) => entry is Counter,
            DataKey::Review(ReviewDataKey::OverpaymentReview(run_id)) => {
                &&& entry matches DataEntry::Review(review)
                &&& review.run_id == run_id
                &&& review.status is Open ==> review.resolved_at == 0 && review.resolved_by is None
                    && spells_nothing(review.resolution_reason)
                &&& review.status is Resolved ==> review.resolved_by is Some && !spells_nothing(
                    review.resolution_reason,
                )
            },
        },
{
    if let DataEntry::Review(review) = entry {
        lemma_blank_symbols(review.resolution_reason);
    }
}

/// What the queries answer is what is stored.
pub proof fn lemma_queries(s: PayrollState, run_id: u64)
    requires
        s.well_typed(),
    ensures
        match s.review(run_id) {
            Some(review) => s.storage.contains_key(place(run_id)) && s.storage[place(run_id)]
                == DataEntry::Review(review) && review.run_id == run_id,
            None => !s.storage.contains_key(place(run_id)),
        },
        s.under_review(run_id) <==> open_review(s, run_id),
        s.review_counter() == latest_id(s),
        s.has_run(run_id) <==> s.storage.contains_key(DataKey::PayrollRun(run_id)),
        match s.admin() {
            Some(admin) => stored_admin(s, admin),
            None => !s.storage.contains_key(DataKey::Addresses),
        },
{
    if s.storage.contains_key(place(run_id)) {
        assert(crate::payroll::entry_fits(place(run_id), s.storage[place(run_id)]));
    }
    if s.storage.contains_key(counter_place()) {
        assert(crate::payroll::entry_fits(counter_place(), s.storage[counter_place()]));
    }
    if s.storage.contains_key(DataKey::Addresses) {
        assert(crate::payroll::entry_fits(DataKey::Addresses, s.storage[DataKey::Addresses]));
    }
}

/// Who may open and resolve: a stored admin, who is the caller, and who
/// authorized the call. Each refusal says which of these does not hold.
pub proof fn lemma_caller_outcome(
    s: PayrollState,
    call: Invocation,
    op: Operation,
    admin: Address,
)
    requires
        s.well_typed(),
        (op matches Operation::Open { admin: a, .. } && a == admin) || (
        op matches Operation::Resolve { admin: a, .. } && a == admin),
    ensures
        ({
            let abort = s.abort(call, op);
            let present = s.storage.contains_key(DataKey::Addresses);
            let signed = call.authorizers@.contains(admin);
            &&& abort == Some(Abort::NotInitialized) <==> !present
            &&& abort == Some(Abort::Unauthorized) <==> present && !stored_admin(s, admin)
            &&& abort == Some(Abort::NotAuthorized) <==> stored_admin(s, admin) && !signed
            &&& abort is Some ==> s.after(call, op) == s
        }),
{
    lemma_queries(s, 0);
}

/// An opening by the admin succeeds exactly when the run is there, no review of
/// it is open, and an identifier is left.
pub proof fn lemma_open_outcome(s: PayrollState, call: Invocation, admin: Address, run_id: u64)
    requires
        s.well_typed(),
        stored_admin(s, admin),
        call.authorizers@.contains(admin),
    ensures
        ({
            let abort = s.abort(call, Operation::Open { admin, run_id });
            let there = s.storage.contains_key(DataKey::PayrollRun(run_id));
            let spent = latest_id(s) == u64::MAX;
            &&& abort is None <==> there && !open_review(s, run_id) && !spent
            &&& abort == Some(Abort::RunNotFound) <==> !there
            &&& abort == Some(Abort::ReviewAlreadyOpen) <==> there && open_review(s, run_id)
            &&& abort == Some(Abort::Overflow) <==> there && !open_review(s, run_id) && spent
        }),
{
    lemma_queries(s, run_id);
}

/// An opening stores an open review of the run, with the next identifier, the
/// ledger time and the caller, raises the counter to that identifier, announces
/// it, and touches nothing else.
pub proof fn lemma_open_effect(s: PayrollState, call: Invocation, admin: Address, run_id: u64)
    requires
        s.well_typed(),
        s.abort(call, Operation::Open { admin, run_id }) is None,
    ensures
        ({
            let t = s.after(call, Operation::Open { admin, run_id });
            let id = (latest_id(s) + 1) as u64;
            &&& id == latest_id(s) + 1
            &&& t.storage.contains_key(counter_place())
            &&& t.storage[counter_place()] == DataEntry::Counter(id)
            &&& t.storage.contains_key(place(run_id))
            &&& t.storage[place(run_id)] matches DataEntry::Review(review)
            &&& review.review_id == id
            &&& review.run_id == run_id
            &&& review.flagged_at == call.timestamp
            &&& review.flagged_by == admin
            &&& review.status is Open
            &&& review.resolved_at == 0
            &&& review.resolved_by is None
            &&& spells_nothing(review.resolution_reason)
            &&& same_but(s, t, counter_place(), place(run_id))
            &&& t.events == s.events.push(
                PayrollEvent::ReviewOpened { review_id: id, run_id, flagged_at: call.timestamp },
            )
        }),
{
    lemma_queries(s, run_id);
    lemma_blank_symbols(crate::host::blank_symbol());
}

/// A resolution by the admin succeeds exactly when the reason has characters and
/// the run's latest review is there and open. A missing reason is told first.
pub proof fn lemma_resolve_outcome(
    s: PayrollState,
    call: Invocation,
    admin: Address,
    run_id: u64,
    reason: Symbol,
)
    requires
        s.well_typed(),
        stored_admin(s, admin),
        call.authorizers@.contains(admin),
    ensures
        ({
            let abort = s.abort(call, Operation::Resolve { admin, run_id, reason });
            let silent = spells_nothing(reason);
            let there = s.storage.contains_key(place(run_id));
            &&& abort is None <==> !silent && open_review(s, run_id)
            &&& abort == Some(Abort::EmptyReason) <==> silent
            &&& abort == Some(Abort::ReviewNotFound) <==> !silent && !there
            &&& abort == Some(Abort::ReviewAlreadyResolved) <==> !silent && there && !open_review(
                s,
                run_id,
            )
        }),
{
    lemma_queries(s, run_id);
    lemma_blank_symbols(reason);
}

/// A resolution closes the run's review with the ledger time, the caller and the
/// reason, keeps what the opening recorded, announces it, and touches nothing
/// else.
pub proof fn lemma_resolve_effect(
    s: PayrollState,
    call: Invocation,
    admin: Address,
    run_id: u64,
    reason: Symbol,
)
    requires
        s.well_typed(),
        s.abort(call, Operation::Resolve { admin, run_id, reason }) is None,
    ensures
        ({
            let t = s.after(call, Operation::Resolve { admin, run_id, reason });
            &&& s.storage.contains_key(place(run_id)) && t.storage.contains_key(place(run_id))
            &&& s.storage[place(run_id)] matches DataEntry::Review(before)
            &&& t.storage[place(run_id)] matches DataEntry::Review(after)
            &&& after.status is Resolved
            &&& after.resolved_at == call.timestamp
            &&& after.resolved_by == Some(admin)
            &&& after.resolution_reason == reason
            &&& after.review_id == before.review_id
            &&& after.run_id == before.run_id == run_id
            &&& after.flagged_at == before.flagged_at
            &&& after.flagged_by == before.flagged_by
            &&& same_but(s, t, place(run_id), place(run_id))
            &&& t.events == s.events.push(
                PayrollEvent::ReviewResolved {
                    review_id: before.review_id,
                    run_id,
                    resolved_at: call.timestamp,
                },
            )
        }),
{
    lemma_queries(s, run_id);
}

/// Announcing a blocked archival or an audit marker always succeeds; it adds one
/// event with the values it was given, and changes no entry.
pub proof fn lemma_announcement_effect(s: PayrollState, call: Invocation, op: Operation)
    requires
        op is ArchivalBlocked || op is AuditMarker,
    ensures
        s.abort(call, op) is None,
        s.after(call, op).storage == s.storage,
        match op {
            Operation::ArchivalBlocked { run_id, review_id } => s.after(call, op).events
                == s.events.push(PayrollEvent::ArchivalBlocked { run_id, review_id }),
            Operation::AuditMarker { action_type, run_or_draft_id, entity_hash } => s.after(
                call,
                op,
            ).events == s.events.push(
                PayrollEvent::AuditMarker { action_type, run_or_draft_id, entity_hash },
            ),
            _ => false,
        },
{
}

/// Makes one call. What the functions on the records do is what the laws say of
/// `abort` and `after`.
pub fn apply(payroll: &mut Payroll, call: &Invocation, op: Operation) -> (result: Result<
    (),
    Abort,
>)
    requires
        old(payroll).wf(),
    ensures
        final(payroll).wf(),
        final(payroll)@ == old(payroll)@.after(*call, op),
        result == (match old(payroll)@.abort(*call, op) {
            Some(abort) => Err(abort),
            None => Ok(()),
        }),
{
    match op {
        Operation::Open { admin, run_id } => {
            let review_id: u64 = open_overpayment_review(payroll, call, &admin, run_id)?;
            assert(DataEntry::Counter(review_id) == payroll@.storage[counter_place()]);
            Ok(())
        },
        Operation::Resolve { admin, run_id, reason } => resolve_overpayment_review(
            payroll,
            call,
            &admin,
            run_id,
            reason,
        ),
        Operation::ArchivalBlocked { run_id, review_id } => {
            emit_archival_blocked(payroll, run_id, review_id);
            Ok(())
        },
        Operation::AuditMarker { action_type, run_or_draft_id, entity_hash } => {
            let marker = record_audit_marker(
                payroll,
                call,
                action_type,
                run_or_draft_id,
                entity_hash,
            );
            assert(marker.action_type == action_type);
            assert(marker.run_or_draft_id == run_or_draft_id);
            assert(marker.entity_hash == entity_hash);
            assert(marker.timestamp == call.timestamp);
            Ok(())
        },
    }
}

} // verus!
