//! What holds of record retention across calls.

use super::{
    BlockKind, DataEntry, DataKey, RecordType, RetentionError, RetentionEvent, RetentionRecord,
    RetentionState,
};
use crate::host::{Abort, Address, Failure, Invocation};
use vstd::prelude::*;

verus! {

/// One state-changing call of the contract, with its arguments.
pub enum Operation {
    /// `initialize`
    Initialize { admin: Address },
    /// `set_pause_manager`
    SetPauseManager { pause_manager: Address },
    /// `register_record`
    Register { company_id: u64, record_id: u64, record_type: RecordType },
    /// `set_audit_block` and `set_challenge_block`
    SetBlock {
        company_id: u64,
        record_id: u64,
        record_type: RecordType,
        kind: BlockKind,
        blocked: bool,
    },
    /// `prune_record`
    Prune { company_id: u64, record_id: u64, record_type: RecordType },
    /// `set_retention_override`
    Override { company_id: u64, record_type: RecordType, window_secs: u64 },
}

/// An abort as a failure.
pub open spec fn aborted(abort: Option<Abort>) -> Option<Failure<RetentionError>> {
    match abort {
        Some(abort) => Some(Failure::Abort(abort)),
        None => None,
    }
}

impl RetentionState {
    /// How the operation fails, if it does.
    pub open spec fn failure(self, call: Invocation, op: Operation) -> Option<
        Failure<RetentionError>,
    > {
        match op {
            Operation::Initialize { admin } => aborted(
                call.initialize_abort(self.admin() is Some, admin),
            ),
            Operation::SetPauseManager { pause_manager } => aborted(
                call.admin_abort(self.admin()),
            ),
            Operation::Register { company_id, record_id, record_type } => aborted(
                self.register_abort(call, company_id, record_type),
            ),
            Operation::SetBlock { company_id, record_id, record_type, kind, blocked } =>
                self.lookup_failure(call, company_id, record_id, record_type),
            Operation::Prune { company_id, record_id, record_type } => self.prune_failure(
                call,
                company_id,
                record_id,
                record_type,
            ),
            Operation::Override { company_id, record_type, window_secs } => aborted(
                self.guard(call),
            ),
        }
    }

    /// The state after the operation, where it succeeds.
    pub open spec fn success(self, call: Invocation, op: Operation) -> RetentionState {
        match op {
            Operation::Initialize { admin } => self.wrote(
                DataKey::Admin,
                DataEntry::Address(admin),
                RetentionEvent::Initialized { admin },
            ),
            Operation::SetPauseManager { pause_manager } => RetentionState {
                storage: self.storage.insert(
                    DataKey::PauseManager,
                    DataEntry::Address(pause_manager),
                ),
                ..self
            },
            Operation::Register { company_id, record_id, record_type } => self.registered(
                company_id,
                self.fresh_record(call, company_id, record_id, record_type),
            ),
            Operation::SetBlock { company_id, record_id, record_type, kind, blocked } =>
                self.blocked(company_id, record_id, record_type, kind, blocked),
            Operation::Prune { company_id, record_id, record_type } => self.after_pruning(
                call,
                company_id,
                record_id,
                record_type,
            ),
            Operation::Override { company_id, record_type, window_secs } => self.overridden(
                company_id,
                record_type,
                window_secs,
            ),
        }
    }

    /// The state after the operation. A failed operation leaves everything as
    /// it was.
    pub open spec fn after(self, call: Invocation, op: Operation) -> RetentionState {
        if self.failure(call, op) is Some {
            self
        } else {
            self.success(call, op)
        }
    }

    /// The state after a history of calls, first to last.
    pub open spec fn run(self, history: Seq<(Invocation, Operation)>) -> RetentionState
        decreases history.len(),
    {
        if history.len() == 0 {
            self
        } else {
            self.run(history.drop_last()).after(history.last().0, history.last().1)
        }
    }
}

/// Kinds of records are told apart by their numbers.
pub proof fn lemma_record_types_distinct(a: RecordType, b: RecordType)
    ensures
        super::record_type_code(a) == super::record_type_code(b) ==> a == b,
{
}

/// A record that is there fits its key.
proof fn lemma_record_fits(
    s: RetentionState,
    company_id: u64,
    record_id: u64,
    record_type: RecordType,
)
    requires
        s.well_typed(),
        s.record(company_id, record_id, record_type) is Some,
    ensures
        s.record(company_id, record_id, record_type)->0.record_id == record_id,
        s.record(company_id, record_id, record_type)->0.record_type == record_type,
        s.record(company_id, record_id, record_type)->0.registered_at <= s.record(
            company_id,
            record_id,
            record_type,
        )->0.eligible_after,
        s.storage[super::key_of_record(company_id, record_id, record_type)] is Record,
{
    let key = super::key_of_record(company_id, record_id, record_type);
    assert(super::entry_fits(key, s.storage[key]));
    lemma_record_types_distinct(
        s.record(company_id, record_id, record_type)->0.record_type,
        record_type,
    );
}

/// The contract starts out sound, and no call makes it unsound.
pub proof fn lemma_invariant_kept(s: RetentionState, call: Invocation, op: Operation)
    ensures
        s.storage == Map::<DataKey, DataEntry>::empty() ==> s.well_typed(),
        s.well_typed() ==> s.after(call, op).well_typed(),
{
    if s.well_typed() {
        let t = s.after(call, op);
        match op {
            Operation::SetBlock { company_id, record_id, record_type, .. }
            | Operation::Prune { company_id, record_id, record_type } => {
                if s.record(company_id, record_id, record_type) is Some {
                    lemma_record_fits(s, company_id, record_id, record_type);
                }
            },
            _ => {},
        }
        assert forall|k: DataKey| #[trigger] t.storage.contains_key(k) implies super::entry_fits(
            k,
            t.storage[k],
        ) by {
            if s.storage.contains_key(k) {
                assert(super::entry_fits(k, s.storage[k]));
            }
        }
    }
}

/// Whatever calls are made, in whatever order and by whomever, a contract that
/// starts without entries stays sound.
pub proof fn lemma_reachable_is_sound(s: RetentionState, history: Seq<(Invocation, Operation)>)
    requires
        s.storage == Map::<DataKey, DataEntry>::empty(),
    ensures
        s.run(history).well_typed(),
    decreases history.len(),
{
    if history.len() == 0 {
        lemma_invariant_kept(s, arbitrary(), arbitrary());
    } else {
        lemma_reachable_is_sound(s, history.drop_last());
        lemma_invariant_kept(
            s.run(history.drop_last()),
            history.last().0,
            history.last().1,
        );
    }
}

/// A record that was not pruned can be pruned exactly when it is eligible,
/// where the guard lets the call pass; and pruning it takes its eligibility
/// away.
pub proof fn lemma_prune_iff_eligible(
    s: RetentionState,
    call: Invocation,
    company_id: u64,
    record_id: u64,
    record_type: RecordType,
)
    requires
        s.guard(call) is None,
        !(s.record(company_id, record_id, record_type) matches Some(record) && record.pruned),
    ensures
        ({
            let op = Operation::Prune { company_id, record_id, record_type };
            &&& s.failure(call, op) is None <==> s.eligible(
                company_id,
                record_id,
                record_type,
                call.timestamp,
            )
            &&& s.failure(call, op) is None ==> !s.after(call, op).eligible(
                company_id,
                record_id,
                record_type,
                call.timestamp,
            )
        }),
{
}

/// No call but a pruning marks a record as pruned, and none does so while the
/// record's window runs, or an audit or a challenge blocks it, or without the
/// admin.
pub proof fn lemma_protected_records_stay(
    s: RetentionState,
    call: Invocation,
    op: Operation,
    company_id: u64,
    record_id: u64,
    record_type: RecordType,
)
    requires
        s.well_typed(),
        s.record(company_id, record_id, record_type) matches Some(record) && !record.pruned,
        s.after(call, op).record(company_id, record_id, record_type) matches Some(record)
            && record.pruned,
    ensures
        op == (Operation::Prune { company_id, record_id, record_type }),
        ({
            let record = s.record(company_id, record_id, record_type)->0;
            &&& record.eligible_after <= call.timestamp
            &&& !record.audit_block
            &&& !record.challenge_block
        }),
        s.admin() matches Some(admin) && call.authorized_by(admin),
{
    match op {
        Operation::SetBlock { company_id: c, record_id: i, record_type: t, .. }
        | Operation::Prune { company_id: c, record_id: i, record_type: t }
        | Operation::Register { company_id: c, record_id: i, record_type: t } => {
            lemma_record_types_distinct(t, record_type);
        },
        _ => {},
    }
}

/// Pruning sets the mark and leaves the rest of the record as it was.
pub proof fn lemma_tombstone_keeps_record(
    s: RetentionState,
    call: Invocation,
    company_id: u64,
    record_id: u64,
    record_type: RecordType,
)
    requires
        s.failure(call, Operation::Prune { company_id, record_id, record_type }) is None,
    ensures
        s.after(call, Operation::Prune { company_id, record_id, record_type }).record(
            company_id,
            record_id,
            record_type,
        ) == Some(
            RetentionRecord {
                pruned: true,
                ..s.record(company_id, record_id, record_type)->0
            },
        ),
{
}

/// A pruned record can be pruned again, at any time and whatever blocks it:
/// nothing happens, and nothing is announced twice.
pub proof fn lemma_prune_idempotent(
    s: RetentionState,
    call: Invocation,
    company_id: u64,
    record_id: u64,
    record_type: RecordType,
)
    requires
        s.guard(call) is None,
        s.record(company_id, record_id, record_type) matches Some(record) && record.pruned,
    ensures
        ({
            let op = Operation::Prune { company_id, record_id, record_type };
            &&& s.failure(call, op) is None
            &&& s.after(call, op) == s
        }),
{
}

/// A tombstone stays: no call clears the mark of a pruned record but one that
/// registers the record anew.
pub proof fn lemma_tombstone_stays(
    s: RetentionState,
    call: Invocation,
    op: Operation,
    company_id: u64,
    record_id: u64,
    record_type: RecordType,
)
    requires
        s.record(company_id, record_id, record_type) matches Some(record) && record.pruned,
        op != (Operation::Register { company_id, record_id, record_type }),
    ensures
        s.after(call, op).record(company_id, record_id, record_type) matches Some(record)
            && record.pruned,
{
    match op {
        Operation::SetBlock { record_type: t, .. }
        | Operation::Prune { record_type: t, .. }
        | Operation::Register { record_type: t, .. } => {
            lemma_record_types_distinct(t, record_type);
        },
        _ => {},
    }
}

/// Whatever calls are made, a tombstone stays as long as none of them registers
/// the record anew.
pub proof fn lemma_tombstone_stays_over_history(
    s: RetentionState,
    history: Seq<(Invocation, Operation)>,
    company_id: u64,
    record_id: u64,
    record_type: RecordType,
)
    requires
        s.record(company_id, record_id, record_type) matches Some(record) && record.pruned,
        forall|i: int|
            0 <= i < history.len() ==> (#[trigger] history[i]).1 != (Operation::Register {
                company_id,
                record_id,
                record_type,
            }),
    ensures
        s.run(history).record(company_id, record_id, record_type) matches Some(record)
            && record.pruned,
    decreases history.len(),
{
    if history.len() > 0 {
        let rest = history.drop_last();
        assert forall|i: int| 0 <= i < rest.len() implies (#[trigger] rest[i]).1 != (
        Operation::Register { company_id, record_id, record_type }) by {
            assert(rest[i] == history[i]);
        }
        lemma_tombstone_stays_over_history(s, rest, company_id, record_id, record_type);
        assert(history.last() == history[history.len() - 1]);
        lemma_tombstone_stays(
            s.run(rest),
            history.last().0,
            history.last().1,
            company_id,
            record_id,
            record_type,
        );
    }
}

/// No call removes a record.
pub proof fn lemma_records_never_vanish(
    s: RetentionState,
    call: Invocation,
    op: Operation,
    company_id: u64,
    record_id: u64,
    record_type: RecordType,
)
    requires
        s.record(company_id, record_id, record_type) is Some,
    ensures
        s.after(call, op).record(company_id, record_id, record_type) is Some,
{
}

/// A registration keeps the record for the whole of its window: it becomes
/// eligible when the window has elapsed, and not before.
pub proof fn lemma_registration_opens_window(
    s: RetentionState,
    call: Invocation,
    company_id: u64,
    record_id: u64,
    record_type: RecordType,
    now: u64,
)
    requires
        s.failure(call, Operation::Register { company_id, record_id, record_type }) is None,
    ensures
        s.after(call, Operation::Register { company_id, record_id, record_type }).eligible(
            company_id,
            record_id,
            record_type,
            now,
        ) <==> now >= call.timestamp + s.window(company_id, record_type),
{
}

/// Once eligible, a record stays eligible while nothing changes.
pub proof fn lemma_eligibility_lasts(
    s: RetentionState,
    company_id: u64,
    record_id: u64,
    record_type: RecordType,
    now: u64,
    later: u64,
)
    requires
        s.eligible(company_id, record_id, record_type, now),
        now <= later,
    ensures
        s.eligible(company_id, record_id, record_type, later),
{
}

/// A block that is set keeps the record from being pruned at any time.
pub proof fn lemma_block_protects(
    s: RetentionState,
    call: Invocation,
    company_id: u64,
    record_id: u64,
    record_type: RecordType,
    kind: BlockKind,
    now: u64,
)
    requires
        s.failure(
            call,
            Operation::SetBlock { company_id, record_id, record_type, kind, blocked: true },
        ) is None,
    ensures
        !s.after(
            call,
            Operation::SetBlock { company_id, record_id, record_type, kind, blocked: true },
        ).eligible(company_id, record_id, record_type, now),
{
}

/// Whether no call of a history is about the record.
pub open spec fn elsewhere(
    history: Seq<(Invocation, Operation)>,
    company_id: u64,
    record_id: u64,
    record_type: RecordType,
) -> bool {
    forall|i: int|
        0 <= i < history.len() ==> subject((#[trigger] history[i]).1) != Some(
            (company_id, record_id, record_type),
        )
}

/// Whatever happens to other records, a record stays as it is.
pub proof fn lemma_records_isolated_over_history(
    s: RetentionState,
    history: Seq<(Invocation, Operation)>,
    company_id: u64,
    record_id: u64,
    record_type: RecordType,
)
    requires
        elsewhere(history, company_id, record_id, record_type),
    ensures
        s.run(history).record(company_id, record_id, record_type) == s.record(
            company_id,
            record_id,
            record_type,
        ),
    decreases history.len(),
{
    if history.len() > 0 {
        let before = s.run(history.drop_last());
        let (call, op) = history.last();
        assert forall|i: int| 0 <= i < history.drop_last().len() implies subject(
            (#[trigger] history.drop_last()[i]).1,
        ) != Some((company_id, record_id, record_type)) by {
            assert(history.drop_last()[i] == history[i]);
        }
        lemma_records_isolated_over_history(
            s,
            history.drop_last(),
            company_id,
            record_id,
            record_type,
        );
        assert(subject(history[history.len() - 1].1) != Some((company_id, record_id, record_type)));
        lemma_records_isolated(before, call, op, company_id, record_id, record_type);
    }
}

/// Clearing later a block that was set takes it off the record, whatever
/// happened to other records between, and changes nothing else of the record:
/// one that had no such block is as it was. Where nothing happened between, all
/// entries are as they were.
pub proof fn lemma_clearing_undoes_block(
    s: RetentionState,
    call: Invocation,
    between: Seq<(Invocation, Operation)>,
    later: Invocation,
    company_id: u64,
    record_id: u64,
    record_type: RecordType,
    kind: BlockKind,
)
    requires
        s.well_typed(),
        s.record(company_id, record_id, record_type) is Some,
        s.guard(call) is None,
        elsewhere(between, company_id, record_id, record_type),
        s.after(
            call,
            Operation::SetBlock { company_id, record_id, record_type, kind, blocked: true },
        ).run(between).guard(later) is None,
    ensures
        ({
            let set = Operation::SetBlock {
                company_id,
                record_id,
                record_type,
                kind,
                blocked: true,
            };
            let clear = Operation::SetBlock {
                company_id,
                record_id,
                record_type,
                kind,
                blocked: false,
            };
            let record = s.record(company_id, record_id, record_type)->0;
            let t = s.after(call, set).run(between);
            &&& s.failure(call, set) is None
            &&& t.failure(later, clear) is None
            &&& t.after(later, clear).record(company_id, record_id, record_type) == Some(
                record.with_block(kind, false),
            )
            &&& between.len() == 0 && record == record.with_block(kind, false) ==> t.after(
                later,
                clear,
            ).storage == s.storage
        }),
{
    lemma_record_fits(s, company_id, record_id, record_type);
    let set = Operation::SetBlock { company_id, record_id, record_type, kind, blocked: true };
    let clear = Operation::SetBlock { company_id, record_id, record_type, kind, blocked: false };
    let t = s.after(call, set).run(between);
    let record = s.record(company_id, record_id, record_type)->0;
    lemma_records_isolated_over_history(
        s.after(call, set),
        between,
        company_id,
        record_id,
        record_type,
    );
    assert(record.with_block(kind, true).with_block(kind, false) == record.with_block(kind, false));
    if between.len() == 0 && record == record.with_block(kind, false) {
        assert(t.after(later, clear).storage =~= s.storage);
    }
}

/// A window of 0 gives a company the default again; any other window is the
/// company's own from then on.
pub proof fn lemma_override_sets_window(
    s: RetentionState,
    call: Invocation,
    company_id: u64,
    record_type: RecordType,
    window_secs: u64,
)
    requires
        s.guard(call) is None,
    ensures
        s.after(call, Operation::Override { company_id, record_type, window_secs }).window(
            company_id,
            record_type,
        ) == (if window_secs == 0 {
            super::default_window(record_type)
        } else {
            window_secs
        }),
{
}

/// A change of window reaches later registrations only: records that are there
/// keep their times.
pub proof fn lemma_override_spares_records(
    s: RetentionState,
    call: Invocation,
    company_id: u64,
    record_type: RecordType,
    window_secs: u64,
    other_company: u64,
    other_record: u64,
    other_type: RecordType,
)
    ensures
        s.after(call, Operation::Override { company_id, record_type, window_secs }).record(
            other_company,
            other_record,
            other_type,
        ) == s.record(other_company, other_record, other_type),
{
}

/// Nothing but a change of window for the company and kind changes its window.
pub proof fn lemma_windows_isolated(
    s: RetentionState,
    call: Invocation,
    op: Operation,
    company_id: u64,
    record_type: RecordType,
)
    requires
        !(op matches Operation::Override { company_id: c, record_type: t, .. } && c == company_id
            && t == record_type),
    ensures
        s.after(call, op).window(company_id, record_type) == s.window(company_id, record_type),
{
    if let Operation::Override { record_type: t, .. } = op {
        lemma_record_types_distinct(t, record_type);
    }
}

/// By default a challenge is kept longest, then a finalized batch, then a
/// cancelled batch, then an expired audit grant.
pub proof fn lemma_default_windows_ordered()
    ensures
        super::default_window(RecordType::ExpiredAuditGrant) < super::default_window(
            RecordType::CancelledBatch,
        ) < super::default_window(RecordType::FinalizedBatch) < super::default_window(
            RecordType::ChallengeRecord,
        ),
{
}

/// The record an operation is about.
pub open spec fn subject(op: Operation) -> Option<(u64, u64, RecordType)> {
    match op {
        Operation::Register { company_id, record_id, record_type } => Some(
            (company_id, record_id, record_type),
        ),
        Operation::SetBlock { company_id, record_id, record_type, .. } => Some(
            (company_id, record_id, record_type),
        ),
        Operation::Prune { company_id, record_id, record_type } => Some(
            (company_id, record_id, record_type),
        ),
        _ => None,
    }
}

/// A call about one record leaves every other record alone.
pub proof fn lemma_records_isolated(
    s: RetentionState,
    call: Invocation,
    op: Operation,
    company_id: u64,
    record_id: u64,
    record_type: RecordType,
)
    requires
        subject(op) != Some((company_id, record_id, record_type)),
    ensures
        s.after(call, op).record(company_id, record_id, record_type) == s.record(
            company_id,
            record_id,
            record_type,
        ),
{
    match op {
        Operation::SetBlock { record_type: t, .. }
        | Operation::Prune { record_type: t, .. }
        | Operation::Register { record_type: t, .. } => {
            lemma_record_types_distinct(t, record_type);
        },
        _ => {},
    }
}

/// While the pause manager holds the contract, a call changes something only if
/// it names the first admin or replaces the pause manager.
pub proof fn lemma_pause_holds(s: RetentionState, call: Invocation, op: Operation)
    requires
        s.pause_configured(),
        call.paused,
        !(op is Initialize || op is SetPauseManager),
    ensures
        s.failure(call, op) == Some(Failure::<RetentionError>::Abort(Abort::Paused)),
        s.after(call, op) == s,
{
}

/// Without the admin's authorization a call changes something only if it names
/// the first admin.
pub proof fn lemma_admin_required(s: RetentionState, call: Invocation, op: Operation)
    requires
        !(s.admin() matches Some(admin) && call.authorized_by(admin)),
        !(op is Initialize),
    ensures
        s.failure(call, op) matches Some(failure) && failure is Abort,
        s.after(call, op) == s,
{
}

/// The admin is named once: no call replaces or removes it.
pub proof fn lemma_admin_is_fixed(s: RetentionState, call: Invocation, op: Operation)
    requires
        s.admin() is Some,
    ensures
        s.after(call, op).admin() == s.admin(),
{
}

/// A call announces a pruning exactly when it turns a record that was not
/// pruned into a tombstone.
pub proof fn lemma_pruning_announced_once(
    s: RetentionState,
    call: Invocation,
    company_id: u64,
    record_id: u64,
    record_type: RecordType,
)
    requires
        s.failure(call, Operation::Prune { company_id, record_id, record_type }) is None,
    ensures
        s.after(call, Operation::Prune { company_id, record_id, record_type }).events == (
        if s.record(company_id, record_id, record_type)->0.pruned {
            s.events
        } else {
            s.events.push(
                RetentionEvent::RecordPruned {
                    company_id,
                    record_id,
                    record_type,
                    pruned_at: call.timestamp,
                },
            )
        }),
{
}

/// The entries an operation reads or writes.
pub open spec fn footprint(op: Operation) -> Set<DataKey> {
    let common = set![DataKey::Admin, DataKey::PauseManager];
    match op {
        Operation::Initialize { .. } => common,
        Operation::SetPauseManager { .. } => common,
        Operation::Register { company_id, record_id, record_type } => common.insert(
            super::key_of_record(company_id, record_id, record_type),
        ).insert(
            DataKey::RetentionOverride(company_id, super::record_type_code(record_type)),
        ),
        Operation::SetBlock { company_id, record_id, record_type, .. }
        | Operation::Prune { company_id, record_id, record_type } => common.insert(
            super::key_of_record(company_id, record_id, record_type),
        ),
        Operation::Override { company_id, record_type, .. } => common.insert(
            DataKey::RetentionOverride(company_id, super::record_type_code(record_type)),
        ),
    }
}

/// Whether the two storages agree on a key.
pub open spec fn agree_on(s: RetentionState, t: RetentionState, key: DataKey) -> bool {
    &&& s.storage.contains_key(key) == t.storage.contains_key(key)
    &&& s.storage.contains_key(key) ==> s.storage[key] == t.storage[key]
}

/// An operation depends on, and changes, nothing outside its footprint: run on
/// any storage that agrees on the footprint, it ends alike and leaves alike.
pub proof fn lemma_footprint(
    s: RetentionState,
    t: RetentionState,
    call: Invocation,
    op: Operation,
    key: DataKey,
)
    requires
        forall|k: DataKey| #[trigger] footprint(op).contains(k) ==> agree_on(s, t, k),
    ensures
        s.failure(call, op) == t.failure(call, op),
        footprint(op).contains(key) ==> agree_on(s.after(call, op), t.after(call, op), key),
        !footprint(op).contains(key) ==> agree_on(s.after(call, op), s, key),
{
    let keys = footprint(op);
    assert(keys.contains(DataKey::Admin) && keys.contains(DataKey::PauseManager));
    match op {
        Operation::Register { company_id, record_id, record_type } => {
            assert(keys.contains(super::key_of_record(company_id, record_id, record_type)));
            assert(keys.contains(
                DataKey::RetentionOverride(company_id, super::record_type_code(record_type)),
            ));
        },
        Operation::SetBlock { company_id, record_id, record_type, .. }
        | Operation::Prune { company_id, record_id, record_type } => {
            assert(keys.contains(super::key_of_record(company_id, record_id, record_type)));
        },
        Operation::Override { company_id, record_type, .. } => {
            assert(keys.contains(
                DataKey::RetentionOverride(company_id, super::record_type_code(record_type)),
            ));
        },
        _ => {},
    }
}

/// Error codes tell the errors apart.
pub proof fn lemma_error_codes_distinct(a: RetentionError, b: RetentionError)
    ensures
        super::error_code(a) == super::error_code(b) ==> a == b,
{
}

} // verus!
