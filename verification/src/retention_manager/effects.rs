//! What each call of the retention manager contract does, said of the stored
//! entries themselves: when it succeeds, which answer each refusal gets, which
//! fields it leaves, and what it does not touch.

use super::laws::Operation;
use super::{
    BlockKind, DataEntry, DataKey, RecordType, RetentionError, RetentionEvent,
    RetentionManagerContract, RetentionRecord, RetentionState,
};
use crate::host::{Abort, Address, Failure, Invocation};
use vstd::prelude::*;

verus! {

/// Whether a configured pause manager holds the contract.
pub open spec fn held(s: RetentionState, call: Invocation) -> bool {
    s.storage.contains_key(DataKey::PauseManager) && call.paused
}

/// Whether there is an admin among those who authorized the call.
pub open spec fn signed(s: RetentionState, call: Invocation) -> bool {
    &&& s.storage.contains_key(DataKey::Admin)
    &&& s.storage[DataKey::Admin] matches DataEntry::Address(admin)
    &&& call.authorizers@.contains(admin)
}

/// Whether the two states have the same entries but under `key`.
pub open spec fn same_but(s: RetentionState, t: RetentionState, key: DataKey) -> bool {
    forall|k: DataKey|
        #![trigger t.storage.contains_key(k)]
        #![trigger t.storage[k]]
        k != key ==> {
            &&& t.storage.contains_key(k) == s.storage.contains_key(k)
            &&& s.storage.contains_key(k) ==> t.storage[k] == s.storage[k]
        }
}

/// Whether the failure is that error.
pub open spec fn refused(
    failure: Option<Failure<RetentionError>>,
    error: RetentionError,
) -> bool {
    failure == Some(Failure::Error(error))
}

/// Whether the failure is that abort.
pub open spec fn stopped(failure: Option<Failure<RetentionError>>, abort: Abort) -> bool {
    failure == Some(Failure::<RetentionError>::Abort(abort))
}

/// The key of a record: its company, its identifier, and the number of its kind.
pub open spec fn place(company_id: u64, record_id: u64, record_type: RecordType) -> DataKey {
    match record_type {
        RecordType::FinalizedBatch => DataKey::Record(company_id, record_id, 0),
        RecordType::CancelledBatch => DataKey::Record(company_id, record_id, 1),
        RecordType::ExpiredAuditGrant => DataKey::Record(company_id, record_id, 2),
        RecordType::ChallengeRecord => DataKey::Record(company_id, record_id, 3),
    }
}

/// The key of a company's own window: its company, and the number of the kind.
pub open spec fn window_place(company_id: u64, record_type: RecordType) -> DataKey {
    match record_type {
        RecordType::FinalizedBatch => DataKey::RetentionOverride(company_id, 0),
        RecordType::CancelledBatch => DataKey::RetentionOverride(company_id, 1),
        RecordType::ExpiredAuditGrant => DataKey::RetentionOverride(company_id, 2),
        RecordType::ChallengeRecord => DataKey::RetentionOverride(company_id, 3),
    }
}

/// Whether `window` is how long a company keeps a kind of record: its own
/// window, where it has one; else 365 days for a finalized batch, 90 for a
/// cancelled one, 30 for an expired audit grant, 730 for a challenge.
pub open spec fn kept_for(
    s: RetentionState,
    company_id: u64,
    record_type: RecordType,
    window: u64,
) -> bool {
    let key = window_place(company_id, record_type);
    if s.storage.contains_key(key) {
        s.storage[key] == DataEntry::Window(window)
    } else {
        match record_type {
            RecordType::FinalizedBatch => window == 31_536_000,
            RecordType::CancelledBatch => window == 7_776_000,
            RecordType::ExpiredAuditGrant => window == 2_592_000,
            RecordType::ChallengeRecord => window == 63_072_000,
        }
    }
}

/// What an entry must be to stand under a key.
pub proof fn lemma_entries_that_fit(key: DataKey, entry: DataEntry)
    ensures
        super::entry_fits(key, entry) <==> match key {
            DataKey::Admin => entry is Address,
            DataKey::PauseManager => entry is Address,
            DataKey::Record(company_id, record_id, _) => {
                &&& entry matches DataEntry::Record(record)
                &&& place(company_id, record_id, record.record_type) == key
                &&& record.record_id == record_id
                &&& record.registered_at <= record.eligible_after
            },
            DataKey::RetentionOverride(_, _) => entry matches DataEntry::Window(window) && window
                != 0,
        },
{
}

/// What the queries answer is what is stored.
pub proof fn lemma_queries(
    s: RetentionState,
    company_id: u64,
    record_id: u64,
    record_type: RecordType,
    now: u64,
)
    requires
        s.well_typed(),
    ensures
        super::key_of_record(company_id, record_id, record_type) == place(
            company_id,
            record_id,
            record_type,
        ),
        kept_for(s, company_id, record_type, s.window(company_id, record_type)),
        ({
            let key = place(company_id, record_id, record_type);
            match s.record(company_id, record_id, record_type) {
                Some(record) => s.storage.contains_key(key) && s.storage[key]
                    == DataEntry::Record(record),
                None => !s.storage.contains_key(key),
            }
        }),
        s.eligible(company_id, record_id, record_type, now) <==> {
            &&& s.storage.contains_key(place(company_id, record_id, record_type))
            &&& s.storage[place(company_id, record_id, record_type)] matches DataEntry::Record(
                record,
            )
            &&& !record.pruned
            &&& !record.audit_block
            &&& !record.challenge_block
            &&& now >= record.eligible_after
        },
{
    let key = place(company_id, record_id, record_type);
    if s.storage.contains_key(key) {
        assert(super::entry_fits(key, s.storage[key]));
    }
    let own = window_place(company_id, record_type);
    if s.storage.contains_key(own) {
        assert(super::entry_fits(own, s.storage[own]));
    }
}

/// Naming the admin succeeds exactly when there is none and the admin to be
/// authorized the call; it stores and announces that admin and nothing else.
pub proof fn lemma_initialize_effect(s: RetentionState, call: Invocation, admin: Address)
    ensures
        ({
            let op = Operation::Initialize { admin };
            let t = s.after(call, op);
            let failure = s.failure(call, op);
            let present = s.storage.contains_key(DataKey::Admin);
            &&& failure is None <==> !present && call.authorizers@.contains(admin)
            &&& stopped(failure, Abort::AlreadyInitialized) <==> present
            &&& stopped(failure, Abort::NotAuthorized) <==> !present
                && !call.authorizers@.contains(admin)
            &&& failure is Some ==> t == s
            &&& failure is None ==> {
                &&& t.storage.contains_key(DataKey::Admin)
                &&& t.storage[DataKey::Admin] == DataEntry::Address(admin)
                &&& same_but(s, t, DataKey::Admin)
                &&& t.events == s.events.push(RetentionEvent::Initialized { admin })
            }
        }),
{
}

/// Setting the pause manager succeeds exactly when the admin authorized the
/// call, paused or not; it stores that address, and announces nothing.
pub proof fn lemma_set_pause_manager_effect(
    s: RetentionState,
    call: Invocation,
    pause_manager: Address,
)
    requires
        s.well_typed(),
    ensures
        ({
            let op = Operation::SetPauseManager { pause_manager };
            let t = s.after(call, op);
            let failure = s.failure(call, op);
            &&& failure is None <==> signed(s, call)
            &&& stopped(failure, Abort::NotInitialized) <==> !s.storage.contains_key(DataKey::Admin)
            &&& stopped(failure, Abort::NotAuthorized) <==> s.storage.contains_key(DataKey::Admin)
                && !signed(s, call)
            &&& failure is Some ==> t == s
            &&& failure is None ==> {
                &&& t.storage.contains_key(DataKey::PauseManager)
                &&& t.storage[DataKey::PauseManager] == DataEntry::Address(pause_manager)
                &&& same_but(s, t, DataKey::PauseManager)
                &&& t.events == s.events
            }
        }),
{
    if s.storage.contains_key(DataKey::Admin) {
        assert(super::entry_fits(DataKey::Admin, s.storage[DataKey::Admin]));
    }
}

/// Who is let through: a pause holds every call about records and windows, and
/// the admin must have authorized it. A call is aborted for that alone, or for a
/// registration whose end of window does not fit the clock.
pub proof fn lemma_guarded(s: RetentionState, call: Invocation, op: Operation)
    requires
        s.well_typed(),
        !(op is Initialize || op is SetPauseManager),
    ensures
        ({
            let failure = s.failure(call, op);
            let present = s.storage.contains_key(DataKey::Admin);
            &&& stopped(failure, Abort::Paused) <==> held(s, call)
            &&& stopped(failure, Abort::NotInitialized) <==> !held(s, call) && !present
            &&& stopped(failure, Abort::NotAuthorized) <==> !held(s, call) && present && !signed(
                s,
                call,
            )
            &&& failure matches Some(Failure::Abort(abort)) ==> abort is Paused
                || abort is NotInitialized || abort is NotAuthorized || (op is Register
                && abort is Overflow)
            &&& failure is Some ==> s.after(call, op) == s
        }),
{
    if s.storage.contains_key(DataKey::Admin) {
        assert(super::entry_fits(DataKey::Admin, s.storage[DataKey::Admin]));
    }
}

/// A registration that the guard lets pass fails only where the end of the
/// window does not fit the clock. It stores and announces an unblocked, unpruned
/// record of the given identifier and kind, kept from now for the window of its
/// company and kind, and touches nothing else.
pub proof fn lemma_register_effect(
    s: RetentionState,
    call: Invocation,
    company_id: u64,
    record_id: u64,
    record_type: RecordType,
    window: u64,
)
    requires
        s.well_typed(),
        signed(s, call),
        !held(s, call),
        kept_for(s, company_id, record_type, window),
    ensures
        ({
            let op = Operation::Register { company_id, record_id, record_type };
            let failure = s.failure(call, op);
            let t = s.after(call, op);
            let key = place(company_id, record_id, record_type);
            &&& failure is None <==> call.timestamp + window <= u64::MAX
            &&& stopped(failure, Abort::Overflow) <==> call.timestamp + window > u64::MAX
            &&& failure is None ==> {
                &&& t.storage.contains_key(key)
                &&& t.storage[key] matches DataEntry::Record(record)
                &&& record.record_id == record_id
                &&& record.record_type == record_type
                &&& record.registered_at == call.timestamp
                &&& record.eligible_after == call.timestamp + window
                &&& !record.audit_block
                &&& !record.challenge_block
                &&& !record.pruned
                &&& record == s.fresh_record(call, company_id, record_id, record_type)
                &&& same_but(s, t, key)
                &&& t.events == s.events.push(
                    RetentionEvent::RecordRegistered {
                        company_id,
                        record_id,
                        record_type,
                        eligible_after: (call.timestamp + window) as u64,
                    },
                )
            }
        }),
{
    lemma_queries(s, company_id, record_id, record_type, 0);
}

/// Setting or clearing a block, where the guard lets the call pass, succeeds
/// exactly when the record is there. It makes that one block what was asked, and
/// leaves the other block, the times, the identifier, the kind and the pruning
/// mark as they were. It touches no other entry, and announces the change.
pub proof fn lemma_block_effect(
    s: RetentionState,
    call: Invocation,
    company_id: u64,
    record_id: u64,
    record_type: RecordType,
    kind: BlockKind,
    blocked: bool,
)
    requires
        s.well_typed(),
        signed(s, call),
        !held(s, call),
    ensures
        ({
            let op = Operation::SetBlock { company_id, record_id, record_type, kind, blocked };
            let failure = s.failure(call, op);
            let t = s.after(call, op);
            let key = place(company_id, record_id, record_type);
            &&& failure is None <==> s.storage.contains_key(key)
            &&& refused(failure, RetentionError::RecordNotFound) <==> !s.storage.contains_key(key)
            &&& failure is None ==> {
                &&& s.storage[key] matches DataEntry::Record(before)
                &&& t.storage.contains_key(key)
                &&& t.storage[key] matches DataEntry::Record(after)
                &&& after.audit_block == (if kind is Audit {
                    blocked
                } else {
                    before.audit_block
                })
                &&& after.challenge_block == (if kind is Challenge {
                    blocked
                } else {
                    before.challenge_block
                })
                &&& after.record_id == before.record_id
                &&& after.record_type == before.record_type
                &&& after.registered_at == before.registered_at
                &&& after.eligible_after == before.eligible_after
                &&& after.pruned == before.pruned
                &&& after == before.with_block(kind, blocked)
                &&& same_but(s, t, key)
                &&& t.events == s.events.push(
                    RetentionEvent::BlockChanged { company_id, record_id, kind, blocked },
                )
            }
        }),
{
    lemma_queries(s, company_id, record_id, record_type, 0);
}

/// Whether the record is there with that block set.
pub open spec fn is_blocked(
    s: RetentionState,
    company_id: u64,
    record_id: u64,
    record_type: RecordType,
    kind: BlockKind,
) -> bool {
    let key = place(company_id, record_id, record_type);
    &&& s.storage.contains_key(key)
    &&& s.storage[key] matches DataEntry::Record(record)
    &&& match kind {
        BlockKind::Audit => record.audit_block,
        BlockKind::Challenge => record.challenge_block,
    }
}

/// A block lasts: it stays set, and the record ineligible at any time, through
/// every history of calls in which none clears that same block of that record
/// and none registers the record anew. Clearing the other block does not count.
pub proof fn lemma_block_lasts(
    s: RetentionState,
    history: Seq<(Invocation, Operation)>,
    company_id: u64,
    record_id: u64,
    record_type: RecordType,
    kind: BlockKind,
    now: u64,
)
    requires
        s.well_typed(),
        is_blocked(s, company_id, record_id, record_type, kind),
        forall|i: int|
            0 <= i < history.len() ==> {
                &&& (#[trigger] history[i]).1 != (Operation::SetBlock {
                    company_id,
                    record_id,
                    record_type,
                    kind,
                    blocked: false,
                })
                &&& history[i].1 != (Operation::Register { company_id, record_id, record_type })
            },
    ensures
        s.run(history).well_typed(),
        is_blocked(s.run(history), company_id, record_id, record_type, kind),
        !s.run(history).eligible(company_id, record_id, record_type, now),
    decreases history.len(),
{
    if history.len() > 0 {
        let rest = history.drop_last();
        let before = s.run(rest);
        let (call, op) = history.last();
        assert forall|i: int| 0 <= i < rest.len() implies {
            &&& (#[trigger] rest[i]).1 != (Operation::SetBlock {
                company_id,
                record_id,
                record_type,
                kind,
                blocked: false,
            })
            &&& rest[i].1 != (Operation::Register { company_id, record_id, record_type })
        } by {
            assert(rest[i] == history[i]);
        }
        lemma_block_lasts(s, rest, company_id, record_id, record_type, kind, now);
        assert(history[history.len() - 1] == (call, op));
        super::laws::lemma_invariant_kept(before, call, op);
        lemma_queries(before, company_id, record_id, record_type, now);
        lemma_queries(before.after(call, op), company_id, record_id, record_type, now);
        if super::laws::subject(op) != Some((company_id, record_id, record_type)) {
            super::laws::lemma_records_isolated(
                before,
                call,
                op,
                company_id,
                record_id,
                record_type,
            );
        }
    }
    lemma_queries(s.run(history), company_id, record_id, record_type, now);
}

/// A pruning that the guard lets pass succeeds exactly when the record is there
/// and was pruned before, or its window has elapsed and neither an audit nor a
/// challenge blocks it. Each refusal says what stands in the way: first the
/// window, then the audit, then the challenge.
pub proof fn lemma_prune_outcome(
    s: RetentionState,
    call: Invocation,
    company_id: u64,
    record_id: u64,
    record_type: RecordType,
    record: RetentionRecord,
)
    requires
        s.well_typed(),
        signed(s, call),
        !held(s, call),
        s.storage.contains_key(place(company_id, record_id, record_type)) ==> s.storage[place(
            company_id,
            record_id,
            record_type,
        )] == DataEntry::Record(record),
    ensures
        ({
            let failure = s.failure(call, Operation::Prune { company_id, record_id, record_type });
            let there = s.storage.contains_key(place(company_id, record_id, record_type));
            let live = there && !record.pruned;
            let elapsed = call.timestamp >= record.eligible_after;
            &&& failure is None <==> there && (record.pruned || (elapsed && !record.audit_block
                && !record.challenge_block))
            &&& refused(failure, RetentionError::RecordNotFound) <==> !there
            &&& refused(failure, RetentionError::RetentionWindowActive) <==> live && !elapsed
            &&& refused(failure, RetentionError::ActiveAuditBlock) <==> live && elapsed
                && record.audit_block
            &&& refused(failure, RetentionError::ActiveChallengeBlock) <==> live && elapsed
                && !record.audit_block && record.challenge_block
        }),
{
    lemma_queries(s, company_id, record_id, record_type, call.timestamp);
}

/// A successful pruning leaves the record with its mark set and every other
/// field as it was, touches no other entry, and announces a record that was not
/// pruned before.
pub proof fn lemma_prune_effect(
    s: RetentionState,
    call: Invocation,
    company_id: u64,
    record_id: u64,
    record_type: RecordType,
)
    requires
        s.well_typed(),
        s.failure(call, Operation::Prune { company_id, record_id, record_type }) is None,
    ensures
        ({
            let t = s.after(call, Operation::Prune { company_id, record_id, record_type });
            let key = place(company_id, record_id, record_type);
            &&& s.storage.contains_key(key) && t.storage.contains_key(key)
            &&& s.storage[key] matches DataEntry::Record(before)
            &&& t.storage[key] matches DataEntry::Record(after)
            &&& after.pruned
            &&& after.record_id == before.record_id
            &&& after.record_type == before.record_type
            &&& after.registered_at == before.registered_at
            &&& after.eligible_after == before.eligible_after
            &&& after.audit_block == before.audit_block
            &&& after.challenge_block == before.challenge_block
            &&& same_but(s, t, key)
            &&& t.events == (if before.pruned {
                s.events
            } else {
                s.events.push(
                    RetentionEvent::RecordPruned {
                        company_id,
                        record_id,
                        record_type,
                        pruned_at: call.timestamp,
                    },
                )
            })
        }),
{
    lemma_queries(s, company_id, record_id, record_type, call.timestamp);
}

/// Setting a company's window succeeds exactly when the guard lets the call
/// pass. It stores the window, or with 0 removes it, touches nothing else, and
/// announces nothing.
pub proof fn lemma_override_effect(
    s: RetentionState,
    call: Invocation,
    company_id: u64,
    record_type: RecordType,
    window_secs: u64,
)
    requires
        s.well_typed(),
    ensures
        ({
            let op = Operation::Override { company_id, record_type, window_secs };
            let t = s.after(call, op);
            let key = window_place(company_id, record_type);
            &&& s.failure(call, op) is None <==> signed(s, call) && !held(s, call)
            &&& s.failure(call, op) is None ==> {
                &&& t.storage.contains_key(key) <==> window_secs != 0
                &&& window_secs != 0 ==> t.storage[key] == DataEntry::Window(window_secs)
                &&& same_but(s, t, key)
                &&& t.events == s.events
            }
        }),
{
    if s.storage.contains_key(DataKey::Admin) {
        assert(super::entry_fits(DataKey::Admin, s.storage[DataKey::Admin]));
    }
}

/// Makes one call. What the contract does is what the laws say of `failure` and
/// `after`.
pub fn apply(contract: &mut RetentionManagerContract, call: &Invocation, op: Operation) -> (result:
    Result<(), Failure<RetentionError>>)
    requires
        old(contract).wf(),
    ensures
        final(contract).wf(),
        final(contract)@ == old(contract)@.after(*call, op),
        result == (match old(contract)@.failure(*call, op) {
            Some(failure) => Err(failure),
            None => Ok(()),
        }),
{
    match op {
        Operation::Initialize { admin } => match contract.initialize(call, admin) {
            Ok(()) => Ok(()),
            Err(abort) => Err(Failure::Abort(abort)),
        },
        Operation::SetPauseManager { pause_manager } => match contract.set_pause_manager(
            call,
            pause_manager,
        ) {
            Ok(()) => Ok(()),
            Err(abort) => Err(Failure::Abort(abort)),
        },
        Operation::Register { company_id, record_id, record_type } => {
            match contract.register_record(call, company_id, record_id, record_type) {
                Ok(record) => {
                    assert(DataEntry::Record(record) == contract@.storage[place(
                        company_id,
                        record_id,
                        record_type,
                    )]);
                    Ok(())
                },
                Err(abort) => Err(Failure::Abort(abort)),
            }
        },
        Operation::SetBlock { company_id, record_id, record_type, kind, blocked } => {
            let record = match kind {
                BlockKind::Audit => contract.set_audit_block(
                    call,
                    company_id,
                    record_id,
                    record_type,
                    blocked,
                )?,
                BlockKind::Challenge => contract.set_challenge_block(
                    call,
                    company_id,
                    record_id,
                    record_type,
                    blocked,
                )?,
            };
            assert(DataEntry::Record(record) == contract@.storage[place(
                company_id,
                record_id,
                record_type,
            )]);
            Ok(())
        },
        Operation::Prune { company_id, record_id, record_type } => contract.prune_record(
            call,
            company_id,
            record_id,
            record_type,
        ),
        Operation::Override { company_id, record_type, window_secs } => {
            match contract.set_retention_override(call, company_id, record_type, window_secs) {
                Ok(()) => Ok(()),
                Err(abort) => Err(Failure::Abort(abort)),
            }
        },
    }
}

} // verus!
