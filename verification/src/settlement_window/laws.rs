//! What holds of settlement windows across calls.

use super::{DataEntry, DataKey, PeriodPhase, SettlementError, SettlementEvent, SettlementState};
use crate::host::{Abort, Address, Failure, Invocation};
use vstd::prelude::*;

verus! {

/// One state-changing call of the contract, with its arguments.
pub enum Operation {
    /// `initialize`
    Initialize { admin: Address },
    /// `set_pause_manager`
    SetPauseManager { pause_manager: Address },
    /// `create_period`
    Create { company_id: u64, open_at: u64, execute_at: u64, grace_until: u64, close_at: u64 },
    /// `open_period`
    Open { company_id: u64, period_id: u32 },
    /// `start_execution`
    Start { company_id: u64, period_id: u32 },
    /// `close_period`
    Close { company_id: u64, period_id: u32 },
    /// `cancel_period`
    Cancel { company_id: u64, period_id: u32 },
    /// `expire_period`
    Expire { company_id: u64, period_id: u32 },
}

impl SettlementState {
    /// How the operation fails, if it does.
    pub open spec fn failure(self, call: Invocation, op: Operation) -> Option<
        Failure<SettlementError>,
    > {
        match op {
            Operation::Initialize { admin } => match call.initialize_abort(
                self.admin() is Some,
                admin,
            ) {
                Some(abort) => Some(Failure::Abort(abort)),
                None => None,
            },
            Operation::SetPauseManager { pause_manager } => match call.admin_abort(self.admin()) {
                Some(abort) => Some(Failure::Abort(abort)),
                None => None,
            },
            Operation::Create { company_id, open_at, execute_at, grace_until, close_at } =>
                self.create_failure(call, company_id, open_at, execute_at, grace_until, close_at),
            Operation::Open { company_id, period_id } => self.open_failure(
                call,
                company_id,
                period_id,
            ),
            Operation::Start { company_id, period_id } => self.start_failure(
                call,
                company_id,
                period_id,
            ),
            Operation::Close { company_id, period_id } => self.close_failure(
                call,
                company_id,
                period_id,
            ),
            Operation::Cancel { company_id, period_id } => self.cancel_failure(
                call,
                company_id,
                period_id,
            ),
            Operation::Expire { company_id, period_id } => self.expire_failure(
                call,
                company_id,
                period_id,
            ),
        }
    }

    /// The state after the operation, where it succeeds.
    pub open spec fn success(self, call: Invocation, op: Operation) -> SettlementState {
        let now = call.timestamp;
        match op {
            Operation::Initialize { admin } => self.wrote(
                DataKey::Admin,
                DataEntry::Address(admin),
                SettlementEvent::Initialized { admin },
            ),
            Operation::SetPauseManager { pause_manager } => SettlementState {
                storage: self.storage.insert(
                    DataKey::PauseManager,
                    DataEntry::Address(pause_manager),
                ),
                ..self
            },
            Operation::Create { company_id, open_at, execute_at, grace_until, close_at } =>
                self.created(
                    self.fresh_period(call, company_id, open_at, execute_at, grace_until, close_at),
                ),
            Operation::Open { company_id, period_id } => self.changed(
                company_id,
                period_id,
                PeriodPhase::Open,
                now,
                SettlementEvent::PhaseChanged { company_id, period_id, phase: PeriodPhase::Open },
            ),
            Operation::Start { company_id, period_id } => self.changed(
                company_id,
                period_id,
                PeriodPhase::Executing,
                now,
                SettlementEvent::PhaseChanged {
                    company_id,
                    period_id,
                    phase: PeriodPhase::Executing,
                },
            ),
            Operation::Close { company_id, period_id } => self.changed(
                company_id,
                period_id,
                PeriodPhase::Closed,
                now,
                SettlementEvent::PhaseChanged { company_id, period_id, phase: PeriodPhase::Closed },
            ),
            Operation::Cancel { company_id, period_id } => self.changed(
                company_id,
                period_id,
                PeriodPhase::Cancelled,
                now,
                SettlementEvent::PeriodCancelled { company_id, period_id, at: now },
            ),
            Operation::Expire { company_id, period_id } => self.changed(
                company_id,
                period_id,
                PeriodPhase::Expired,
                now,
                SettlementEvent::PeriodExpired { company_id, period_id, at: now },
            ),
        }
    }

    /// The state after the operation. A failed operation leaves everything as
    /// it was.
    pub open spec fn after(self, call: Invocation, op: Operation) -> SettlementState {
        if self.failure(call, op) is Some {
            self
        } else {
            self.success(call, op)
        }
    }

    /// The state after a history of calls, first to last.
    pub open spec fn run(self, history: Seq<(Invocation, Operation)>) -> SettlementState
        decreases history.len(),
    {
        if history.len() == 0 {
            self
        } else {
            self.run(history.drop_last()).after(history.last().0, history.last().1)
        }
    }

    /// What every reachable state has: periods are numbered from 1 up to the next
    /// number without a gap, only a company's latest period may be unfinalized, and a pending
    /// period never changed its phase.
    pub open spec fn inv(self) -> bool {
        &&& self.well_typed()
        &&& forall|company_id: u64, period_id: u32|
            #![trigger self.period(company_id, period_id)]
            self.period(company_id, period_id) matches Some(period) ==> {
                &&& 1 <= period_id < self.next_period_id(company_id)
                &&& period_id + 1 < self.next_period_id(company_id) ==> super::finalized(
                    period.phase,
                )
                &&& period.phase is Pending ==> period.transitioned_at == 0
                &&& !(period.phase is Grace)
            }
        &&& forall|company_id: u64, period_id: u32|
            #![trigger self.period(company_id, period_id)]
            1 <= period_id < self.next_period_id(company_id) ==> self.period(
                company_id,
                period_id,
            ) is Some
    }
}

/// The contract starts out sound, and no call makes it unsound.
pub proof fn lemma_invariant_kept(s: SettlementState, call: Invocation, op: Operation)
    ensures
        s.storage == Map::<DataKey, DataEntry>::empty() ==> s.inv(),
        s.inv() ==> s.after(call, op).inv(),
{
    if s.inv() {
        let t = s.after(call, op);
        assert forall|k: DataKey| #[trigger] t.storage.contains_key(k) implies super::entry_fits(
            k,
            t.storage[k],
        ) by {
            if s.storage.contains_key(k) {
                assert(super::entry_fits(k, s.storage[k]));
            }
            match op {
                Operation::Open { company_id, period_id }
                | Operation::Start { company_id, period_id }
                | Operation::Close { company_id, period_id }
                | Operation::Cancel { company_id, period_id }
                | Operation::Expire { company_id, period_id } => {
                    assert(s.failure(call, op) is None ==> s.storage.contains_key(
                        DataKey::Period(company_id, period_id),
                    ));
                },
                _ => {},
            }
        }
        assert forall|c: u64, p: u32|
            #![trigger t.period(c, p)]
            t.period(c, p) is Some implies ({
            &&& 1 <= p < t.next_period_id(c)
            &&& p + 1 < t.next_period_id(c) ==> super::finalized(t.period(c, p)->0.phase)
            &&& t.period(c, p)->0.phase is Pending ==> t.period(c, p)->0.transitioned_at == 0
            &&& !(t.period(c, p)->0.phase is Grace)
        }) by {
            assert(s.period(c, p) is Some ==> 1 <= p < s.next_period_id(c));
            if s.storage.contains_key(DataKey::PeriodSequence(c)) {
                assert(super::entry_fits(
                    DataKey::PeriodSequence(c),
                    s.storage[DataKey::PeriodSequence(c)],
                ));
            }
            if let Operation::Create { company_id, .. } = op {
                let next = s.next_period_id(c);
                if s.failure(call, op) is None && company_id == c && p + 1 == next {
                    assert(s.period(c, p) is Some ==> super::finalized(s.period(c, p)->0.phase));
                }
            }
        }
        assert forall|c: u64, p: u32|
            #![trigger t.period(c, p)]
            1 <= p < t.next_period_id(c) implies t.period(c, p) is Some by {
            assert(1 <= p < s.next_period_id(c) ==> s.period(c, p) is Some);
        }
    }
}

/// Whatever calls are made, in whatever order and by whomever, a contract that
/// starts without entries stays sound.
pub proof fn lemma_reachable_is_sound(s: SettlementState, history: Seq<(Invocation, Operation)>)
    requires
        s.storage == Map::<DataKey, DataEntry>::empty(),
    ensures
        s.run(history).inv(),
    decreases history.len(),
{
    if history.len() == 0 {
        lemma_invariant_kept(s, arbitrary(), arbitrary());
    } else {
        lemma_reachable_is_sound(s, history.drop_last());
        lemma_invariant_kept(
            s.run(history.drop_last()),
            history.last().0,
            history.last().1,
        );
    }
}

/// A company never has two periods that are not finalized.
pub proof fn lemma_one_active_period(s: SettlementState, company_id: u64, p: u32, q: u32)
    requires
        s.inv(),
        s.period(company_id, p) matches Some(period) && !super::finalized(period.phase),
        s.period(company_id, q) matches Some(period) && !super::finalized(period.phase),
    ensures
        p == q,
        s.has_active_period(company_id),
{
    assert(p + 1 == s.next_period_id(company_id));
    assert(q + 1 == s.next_period_id(company_id));
}

/// No call changes a finalized period.
pub proof fn lemma_finalized_is_terminal(
    s: SettlementState,
    call: Invocation,
    op: Operation,
    company_id: u64,
    period_id: u32,
)
    requires
        s.inv(),
        s.period(company_id, period_id) matches Some(period) && super::finalized(period.phase),
    ensures
        s.after(call, op).period(company_id, period_id) == s.period(company_id, period_id),
{
    assert(period_id < s.next_period_id(company_id));
}

/// Whatever calls are made, a finalized period stays as it is for good.
pub proof fn lemma_finalized_forever(
    s: SettlementState,
    history: Seq<(Invocation, Operation)>,
    company_id: u64,
    period_id: u32,
)
    requires
        s.inv(),
        s.period(company_id, period_id) matches Some(period) && super::finalized(period.phase),
    ensures
        s.run(history).inv(),
        s.run(history).period(company_id, period_id) == s.period(company_id, period_id),
    decreases history.len(),
{
    if history.len() > 0 {
        let before = s.run(history.drop_last());
        let (call, op) = history.last();
        lemma_finalized_forever(s, history.drop_last(), company_id, period_id);
        lemma_invariant_kept(before, call, op);
        lemma_finalized_is_terminal(before, call, op, company_id, period_id);
    }
}

/// While the pause manager holds the contract, a call changes something only if
/// it cancels a period, names the first admin or replaces the pause manager.
pub proof fn lemma_pause_holds(s: SettlementState, call: Invocation, op: Operation)
    requires
        s.pause_configured(),
        call.paused,
        !(op is Cancel || op is Initialize || op is SetPauseManager),
    ensures
        s.failure(call, op) == Some(Failure::<SettlementError>::Abort(Abort::Paused)),
        s.after(call, op) == s,
{
}

/// A pause changes nothing for a cancellation.
pub proof fn lemma_cancel_ignores_pause(
    s: SettlementState,
    call: Invocation,
    held: Invocation,
    company_id: u64,
    period_id: u32,
)
    requires
        held == (Invocation { paused: true, ..call }),
    ensures
        s.failure(held, Operation::Cancel { company_id, period_id }) == s.failure(
            call,
            Operation::Cancel { company_id, period_id },
        ),
        s.after(held, Operation::Cancel { company_id, period_id }) == s.after(
            call,
            Operation::Cancel { company_id, period_id },
        ),
{
}

/// Without the admin's authorization a call changes something only if it marks
/// a lapsed period expired or names the first admin.
pub proof fn lemma_admin_required(s: SettlementState, call: Invocation, op: Operation)
    requires
        !(s.admin() matches Some(admin) && call.authorized_by(admin)),
        !(op is Expire || op is Initialize),
    ensures
        s.failure(call, op) matches Some(failure) && failure is Abort,
        s.after(call, op) == s,
{
}

/// Who authorized the call does not matter for marking a period expired.
pub proof fn lemma_expiry_needs_no_authorization(
    s: SettlementState,
    call: Invocation,
    other: Invocation,
    company_id: u64,
    period_id: u32,
)
    requires
        other == (Invocation { authorizers: other.authorizers, ..call }),
    ensures
        s.failure(other, Operation::Expire { company_id, period_id }) == s.failure(
            call,
            Operation::Expire { company_id, period_id },
        ),
        s.after(other, Operation::Expire { company_id, period_id }) == s.after(
            call,
            Operation::Expire { company_id, period_id },
        ),
{
}

/// The admin is named once: no call replaces or removes it.
pub proof fn lemma_admin_is_fixed(s: SettlementState, call: Invocation, op: Operation)
    requires
        s.admin() is Some,
    ensures
        s.after(call, op).admin() == s.admin(),
{
}

/// Payroll is not executed early, late or after the end of its period:
/// execution is allowed exactly from `execute_at` through `grace_until` of a
/// period that is not finalized.
pub proof fn lemma_execution_window(s: SettlementState, now: u64, company_id: u64, period_id: u32)
    requires
        s.well_typed(),
    ensures
        s.execution_error(now, company_id, period_id) is None <==> (s.period(
            company_id,
            period_id,
        ) matches Some(period) && !super::finalized(period.phase) && period.execute_at <= now
            <= period.grace_until),
{
    let key = DataKey::Period(company_id, period_id);
    if s.storage.contains_key(key) {
        assert(super::entry_fits(key, s.storage[key]));
    }
}

/// A period starts executing only when a batch may be executed, and a batch may
/// still be executed right after.
pub proof fn lemma_start_within_window(
    s: SettlementState,
    call: Invocation,
    company_id: u64,
    period_id: u32,
)
    requires
        s.well_typed(),
        s.failure(call, Operation::Start { company_id, period_id }) is None,
    ensures
        s.execution_error(call.timestamp, company_id, period_id) is None,
        s.after(call, Operation::Start { company_id, period_id }).execution_error(
            call.timestamp,
            company_id,
            period_id,
        ) is None,
{
    let key = DataKey::Period(company_id, period_id);
    assert(s.storage.contains_key(key));
    assert(super::entry_fits(key, s.storage[key]));
}

/// Only a period whose grace has run out is marked expired, and from then on no
/// batch of it may be executed.
pub proof fn lemma_expiry_after_grace(
    s: SettlementState,
    call: Invocation,
    now: u64,
    company_id: u64,
    period_id: u32,
)
    requires
        s.well_typed(),
        s.failure(call, Operation::Expire { company_id, period_id }) is None,
    ensures
        s.period(company_id, period_id)->0.grace_until < call.timestamp,
        s.after(call, Operation::Expire { company_id, period_id }).execution_error(
            now,
            company_id,
            period_id,
        ) == Some(SettlementError::AlreadyFinalized),
{
    let key = DataKey::Period(company_id, period_id);
    assert(s.storage.contains_key(key));
    assert(super::entry_fits(key, s.storage[key]));
}

/// Once a period's grace has run out, no call changes the period but one that
/// cancels it or marks it expired.
pub proof fn lemma_after_grace(
    s: SettlementState,
    call: Invocation,
    op: Operation,
    company_id: u64,
    period_id: u32,
)
    requires
        s.inv(),
        s.period(company_id, period_id) matches Some(period) && period.grace_until
            < call.timestamp,
        op != (Operation::Cancel { company_id, period_id }),
        op != (Operation::Expire { company_id, period_id }),
    ensures
        s.after(call, op).period(company_id, period_id) == s.period(company_id, period_id),
{
    assert(period_id < s.next_period_id(company_id));
}

/// Past its hard close a period is neither opened, started, closed nor
/// cancelled; a period that is not finalized can then be marked expired, unless
/// a pause holds the contract.
pub proof fn lemma_hard_close(
    s: SettlementState,
    call: Invocation,
    company_id: u64,
    period_id: u32,
)
    requires
        s.well_typed(),
        s.period(company_id, period_id) matches Some(period) && period.close_at < call.timestamp,
    ensures
        s.failure(call, Operation::Open { company_id, period_id }) is Some,
        s.failure(call, Operation::Start { company_id, period_id }) is Some,
        s.failure(call, Operation::Close { company_id, period_id }) is Some,
        s.failure(call, Operation::Cancel { company_id, period_id }) is Some,
        !super::finalized(s.period(company_id, period_id)->0.phase) && call.pause_abort(
            s.pause_configured(),
        ) is None ==> s.failure(call, Operation::Expire { company_id, period_id }) is None,
{
    let key = DataKey::Period(company_id, period_id);
    assert(super::entry_fits(key, s.storage[key]));
}

/// Until its hard close the admin can cancel a period that is not finalized,
/// pause or not.
pub proof fn lemma_cancel_until_hard_close(
    s: SettlementState,
    call: Invocation,
    company_id: u64,
    period_id: u32,
)
    requires
        call.admin_abort(s.admin()) is None,
        s.change_error(company_id, period_id) is None,
        call.timestamp <= s.period(company_id, period_id)->0.close_at,
    ensures
        s.failure(call, Operation::Cancel { company_id, period_id }) is None,
{
}

/// Period numbers are never reused: the next number never falls, a creation
/// takes the next number and raises it by one, and no period is ever removed.
pub proof fn lemma_numbers_not_reused(
    s: SettlementState,
    call: Invocation,
    op: Operation,
    company_id: u64,
    period_id: u32,
)
    requires
        s.inv(),
    ensures
        s.next_period_id(company_id) <= s.after(call, op).next_period_id(company_id),
        s.period(company_id, period_id) is Some ==> s.after(call, op).period(
            company_id,
            period_id,
        ) is Some,
        op is Create && subject(op) == Some(company_id) && s.failure(call, op) is None ==> {
            let next = s.next_period_id(company_id);
            &&& s.period(company_id, next) is None
            &&& s.after(call, op).period(company_id, next) is Some
            &&& s.after(call, op).next_period_id(company_id) == next + 1
        },
{
    assert(s.period(company_id, s.next_period_id(company_id)) is None);
}

/// Once a company's latest period is finalized, the company may create the next
/// one, as long as numbers last.
pub proof fn lemma_finalizing_frees_company(
    s: SettlementState,
    call: Invocation,
    op: Operation,
    company_id: u64,
    period_id: u32,
    later: Invocation,
    open_at: u64,
    execute_at: u64,
    grace_until: u64,
    close_at: u64,
)
    requires
        s.inv(),
        op == (Operation::Close { company_id, period_id }) || op == (Operation::Cancel {
            company_id,
            period_id,
        }) || op == (Operation::Expire { company_id, period_id }),
        s.failure(call, op) is None,
    ensures
        s.has_active_period(company_id),
        !s.after(call, op).has_active_period(company_id),
        super::window_ordered(open_at, execute_at, grace_until, close_at) && s.guard(later) is None
            && s.next_period_id(company_id) < u32::MAX ==> s.after(call, op).failure(
            later,
            Operation::Create { company_id, open_at, execute_at, grace_until, close_at },
        ) is None,
{
    assert(s.period(company_id, period_id) is Some);
    assert(period_id + 1 == s.next_period_id(company_id));
}

/// The company whose entries a key belongs to.
pub open spec fn company_of(key: DataKey) -> Option<u64> {
    match key {
        DataKey::Period(company_id, _) => Some(company_id),
        DataKey::PeriodSequence(company_id) => Some(company_id),
        DataKey::Admin => None,
        DataKey::PauseManager => None,
    }
}

/// The company an operation is about.
pub open spec fn subject(op: Operation) -> Option<u64> {
    match op {
        Operation::Initialize { .. } => None,
        Operation::SetPauseManager { .. } => None,
        Operation::Create { company_id, .. } => Some(company_id),
        Operation::Open { company_id, .. } => Some(company_id),
        Operation::Start { company_id, .. } => Some(company_id),
        Operation::Close { company_id, .. } => Some(company_id),
        Operation::Cancel { company_id, .. } => Some(company_id),
        Operation::Expire { company_id, .. } => Some(company_id),
    }
}

/// A call about one company leaves every other company's entries alone.
pub proof fn lemma_companies_isolated(
    s: SettlementState,
    call: Invocation,
    op: Operation,
    key: DataKey,
)
    requires
        company_of(key) is Some,
        company_of(key) != subject(op),
    ensures
        s.after(call, op).storage.contains_key(key) == s.storage.contains_key(key),
        s.after(call, op).storage[key] == s.storage[key],
{
}

/// The entries an operation reads or writes.
pub open spec fn footprint(s: SettlementState, op: Operation) -> Set<DataKey> {
    let common = set![DataKey::Admin, DataKey::PauseManager];
    match op {
        Operation::Initialize { .. } => common,
        Operation::SetPauseManager { .. } => common,
        Operation::Create { company_id, .. } => {
            let next = s.next_period_id(company_id);
            common.insert(DataKey::PeriodSequence(company_id)).insert(
                DataKey::Period(company_id, (next - 1) as u32),
            ).insert(DataKey::Period(company_id, next))
        },
        Operation::Open { company_id, period_id }
        | Operation::Start { company_id, period_id }
        | Operation::Close { company_id, period_id }
        | Operation::Cancel { company_id, period_id }
        | Operation::Expire { company_id, period_id } => common.insert(
            DataKey::Period(company_id, period_id),
        ),
    }
}

/// Whether the two storages agree on a key.
pub open spec fn agree_on(s: SettlementState, t: SettlementState, key: DataKey) -> bool {
    &&& s.storage.contains_key(key) == t.storage.contains_key(key)
    &&& s.storage.contains_key(key) ==> s.storage[key] == t.storage[key]
}

/// An operation depends on, and changes, nothing outside its footprint: run on
/// any storage that agrees on the footprint, it ends alike and leaves alike.
pub proof fn lemma_footprint(
    s: SettlementState,
    t: SettlementState,
    call: Invocation,
    op: Operation,
    key: DataKey,
)
    requires
        forall|k: DataKey| #[trigger] footprint(s, op).contains(k) ==> agree_on(s, t, k),
    ensures
        s.failure(call, op) == t.failure(call, op),
        footprint(s, op) == footprint(t, op),
        footprint(s, op).contains(key) ==> agree_on(s.after(call, op), t.after(call, op), key),
        !footprint(s, op).contains(key) ==> agree_on(s.after(call, op), s, key),
{
    let keys = footprint(s, op);
    assert(keys.contains(DataKey::Admin) && keys.contains(DataKey::PauseManager));
    match op {
        Operation::Create { company_id, .. } => {
            assert(keys.contains(DataKey::PeriodSequence(company_id)));
            let next = s.next_period_id(company_id);
            assert(keys.contains(DataKey::Period(company_id, (next - 1) as u32)));
            assert(keys.contains(DataKey::Period(company_id, next)));
        },
        Operation::Open { company_id, period_id }
        | Operation::Start { company_id, period_id }
        | Operation::Close { company_id, period_id }
        | Operation::Cancel { company_id, period_id }
        | Operation::Expire { company_id, period_id } => {
            assert(keys.contains(DataKey::Period(company_id, period_id)));
        },
        _ => {},
    }
}

/// Error codes tell the errors apart.
pub proof fn lemma_error_codes_distinct(a: SettlementError, b: SettlementError)
    ensures
        super::error_code(a) == super::error_code(b) ==> a == b,
{
}

} // verus!
