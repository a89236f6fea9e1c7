//! What each call of the settlement window contract does, said of the stored
//! entries themselves: when it succeeds, which answer each refusal gets, which
//! fields it leaves, and what it does not touch.

use super::laws::Operation;
use super::{
    DataEntry, DataKey, PeriodPhase, SettlementError, SettlementEvent, SettlementPeriod,
    SettlementState, SettlementWindowContract,
};
use crate::host::{Abort, Address, Failure, Invocation};
use vstd::prelude::*;

verus! {

/// Whether a configured pause manager holds the contract.
pub open spec fn held(s: SettlementState, call: Invocation) -> bool {
    s.storage.contains_key(DataKey::PauseManager) && call.paused
}

/// Whether there is an admin among those who authorized the call.
pub open spec fn signed(s: SettlementState, call: Invocation) -> bool {
    &&& s.storage.contains_key(DataKey::Admin)
    &&& s.storage[DataKey::Admin] matches DataEntry::Address(admin)
    &&& call.authorizers@.contains(admin)
}

/// Whether the two states have the same entries but under `key` and `other`.
pub open spec fn same_but(
    s: SettlementState,
    t: SettlementState,
    key: DataKey,
    other: DataKey,
) -> bool {
    forall|k: DataKey|
        #![trigger t.storage.contains_key(k)]
        #![trigger t.storage[k]]
        k != key && k != other ==> {
            &&& t.storage.contains_key(k) == s.storage.contains_key(k)
            &&& s.storage.contains_key(k) ==> t.storage[k] == s.storage[k]
        }
}

/// Whether the failure is that error.
pub open spec fn refused(
    failure: Option<Failure<SettlementError>>,
    error: SettlementError,
) -> bool {
    failure == Some(Failure::Error(error))
}

/// Whether the failure is that abort.
pub open spec fn aborted(failure: Option<Failure<SettlementError>>, abort: Abort) -> bool {
    failure == Some(Failure::<SettlementError>::Abort(abort))
}

/// The number that the company's next period gets: the stored one, else 1.
pub open spec fn next_number(s: SettlementState, company_id: u64) -> u32 {
    match s.storage[DataKey::PeriodSequence(company_id)] {
        DataEntry::Sequence(next) if s.storage.contains_key(DataKey::PeriodSequence(company_id)) =>
            next,
        _ => 1,
    }
}

/// Whether the company's latest period is there and neither closed, expired nor
/// cancelled.
pub open spec fn busy(s: SettlementState, company_id: u64) -> bool {
    let next = next_number(s, company_id);
    let latest = DataKey::Period(company_id, (next - 1) as u32);
    &&& next > 1
    &&& s.storage.contains_key(latest)
    &&& s.storage[latest] matches DataEntry::Period(period)
    &&& period.phase is Pending || period.phase is Open || period.phase is Executing
        || period.phase is Grace
}

/// What an entry must be to stand under a key.
pub proof fn lemma_entries_that_fit(key: DataKey, entry: DataEntry)
    ensures
        super::entry_fits(key, entry) <==> match key {
            DataKey::Period(company_id, period_id) => {
                &&& entry matches DataEntry::Period(period)
                &&& period.company_id == company_id
                &&& period.period_id == period_id
                &&& period.open_at <= period.execute_at
                &&& period.execute_at <= period.grace_until
                &&& period.grace_until <= period.close_at
            },
            DataKey::PeriodSequence(_) => entry matches DataEntry::Sequence(next) && next != 0,
            DataKey::Admin => entry is Address,
            DataKey::PauseManager => entry is Address,
        },
{
}

/// What the queries answer is what is stored.
pub proof fn lemma_queries(s: SettlementState, company_id: u64, period_id: u32)
    requires
        s.well_typed(),
    ensures
        s.next_period_id(company_id) == next_number(s, company_id),
        s.has_active_period(company_id) <==> busy(s, company_id),
        ({
            let key = DataKey::Period(company_id, period_id);
            match s.period(company_id, period_id) {
                Some(period) => s.storage.contains_key(key) && s.storage[key]
                    == DataEntry::Period(period),
                None => !s.storage.contains_key(key),
            }
        }),
{
    let key = DataKey::Period(company_id, period_id);
    if s.storage.contains_key(key) {
        assert(super::entry_fits(key, s.storage[key]));
    }
    let sequence = DataKey::PeriodSequence(company_id);
    if s.storage.contains_key(sequence) {
        assert(super::entry_fits(sequence, s.storage[sequence]));
    }
    let latest = DataKey::Period(company_id, (next_number(s, company_id) - 1) as u32);
    if s.storage.contains_key(latest) {
        assert(super::entry_fits(latest, s.storage[latest]));
    }
}

/// Naming the admin succeeds exactly when there is none and the admin to be
/// authorized the call; it stores and announces that admin and nothing else.
pub proof fn lemma_initialize_effect(s: SettlementState, call: Invocation, admin: Address)
    ensures
        ({
            let op = Operation::Initialize { admin };
            let t = s.after(call, op);
            let present = s.storage.contains_key(DataKey::Admin);
            &&& s.failure(call, op) is None <==> !present && call.authorizers@.contains(admin)
            &&& aborted(s.failure(call, op), Abort::AlreadyInitialized) <==> present
            &&& aborted(s.failure(call, op), Abort::NotAuthorized)
                <==> !present && !call.authorizers@.contains(admin)
            &&& s.failure(call, op) is Some ==> t == s
            &&& s.failure(call, op) is None ==> {
                &&& t.storage.contains_key(DataKey::Admin)
                &&& t.storage[DataKey::Admin] == DataEntry::Address(admin)
                &&& same_but(s, t, DataKey::Admin, DataKey::Admin)
                &&& t.events == s.events.push(SettlementEvent::Initialized { admin })
            }
        }),
{
}

/// Setting the pause manager succeeds exactly when the admin authorized the
/// call, paused or not; it stores that address, and announces nothing.
pub proof fn lemma_set_pause_manager_effect(
    s: SettlementState,
    call: Invocation,
    pause_manager: Address,
)
    requires
        s.well_typed(),
    ensures
        ({
            let op = Operation::SetPauseManager { pause_manager };
            let t = s.after(call, op);
            &&& s.failure(call, op) is None <==> signed(s, call)
            &&& aborted(s.failure(call, op), Abort::NotInitialized)
                <==> !s.storage.contains_key(DataKey::Admin)
            &&& aborted(s.failure(call, op), Abort::NotAuthorized)
                <==> s.storage.contains_key(DataKey::Admin) && !signed(s, call)
            &&& s.failure(call, op) is Some ==> t == s
            &&& s.failure(call, op) is None ==> {
                &&& t.storage.contains_key(DataKey::PauseManager)
                &&& t.storage[DataKey::PauseManager] == DataEntry::Address(pause_manager)
                &&& same_but(s, t, DataKey::PauseManager, DataKey::PauseManager)
                &&& t.events == s.events
            }
        }),
{
    if s.storage.contains_key(DataKey::Admin) {
        assert(super::entry_fits(DataKey::Admin, s.storage[DataKey::Admin]));
    }
}

/// Who is let through: a pause holds all but a cancellation, and the admin must
/// have authorized all but an expiry. A call is aborted for that alone, or for
/// the last number of a company being taken.
pub proof fn lemma_guarded(s: SettlementState, call: Invocation, op: Operation)
    requires
        s.well_typed(),
        !(op is Initialize || op is SetPauseManager),
    ensures
        ({
            let failure = s.failure(call, op);
            let stopped = held(s, call) && !(op is Cancel);
            let asked = !(op is Expire);
            &&& aborted(failure, Abort::Paused) <==> stopped
            &&& aborted(failure, Abort::NotInitialized)
                <==> !stopped && asked && !s.storage.contains_key(DataKey::Admin)
            &&& aborted(failure, Abort::NotAuthorized)
                <==> !stopped && asked && s.storage.contains_key(DataKey::Admin) && !signed(s, call)
            &&& failure matches Some(Failure::Abort(abort)) ==> abort is Paused
                || abort is NotInitialized || abort is NotAuthorized || (op is Create
                && abort is Overflow)
            &&& failure is Some ==> s.after(call, op) == s
        }),
{
    if s.storage.contains_key(DataKey::Admin) {
        assert(super::entry_fits(DataKey::Admin, s.storage[DataKey::Admin]));
    }
}

/// A creation that the guard lets pass succeeds exactly when the four times are
/// in order, the company has no unfinalized period, and a number is left.
pub proof fn lemma_create_outcome(
    s: SettlementState,
    call: Invocation,
    company_id: u64,
    open_at: u64,
    execute_at: u64,
    grace_until: u64,
    close_at: u64,
)
    requires
        s.well_typed(),
        signed(s, call),
        !held(s, call),
    ensures
        ({
            let op = Operation::Create { company_id, open_at, execute_at, grace_until, close_at };
            let ordered = open_at <= execute_at && execute_at <= grace_until && grace_until
                <= close_at;
            let last = next_number(s, company_id) == u32::MAX;
            let failure = s.failure(call, op);
            &&& failure is None <==> ordered && !busy(s, company_id) && !last
            &&& refused(failure, SettlementError::InvalidWindowConfig) <==> !ordered
            &&& refused(failure, SettlementError::PeriodAlreadyExists)
                <==> ordered && busy(s, company_id)
            &&& aborted(failure, Abort::Overflow) <==> ordered
                && !busy(s, company_id) && last
        }),
{
    lemma_queries(s, company_id, 0);
}

/// A creation stores and announces a pending period with exactly the four times
/// it was given, under the company's next number, which it raises by one.
/// However many periods came before, a batch of the new period may be executed
/// exactly from the given `execute_at` through the given `grace_until`.
pub proof fn lemma_create_effect(
    s: SettlementState,
    call: Invocation,
    company_id: u64,
    open_at: u64,
    execute_at: u64,
    grace_until: u64,
    close_at: u64,
    now: u64,
)
    requires
        s.well_typed(),
        s.failure(
            call,
            Operation::Create { company_id, open_at, execute_at, grace_until, close_at },
        ) is None,
    ensures
        ({
            let op = Operation::Create { company_id, open_at, execute_at, grace_until, close_at };
            let t = s.after(call, op);
            let number = next_number(s, company_id);
            let key = DataKey::Period(company_id, number);
            let sequence = DataKey::PeriodSequence(company_id);
            &&& t.storage.contains_key(key)
            &&& t.storage[key] matches DataEntry::Period(period)
            &&& period.company_id == company_id
            &&& period.period_id == number
            &&& period.open_at == open_at
            &&& period.execute_at == execute_at
            &&& period.grace_until == grace_until
            &&& period.close_at == close_at
            &&& period.phase is Pending
            &&& period.created_at == call.timestamp
            &&& period.transitioned_at == 0
            &&& t.storage.contains_key(sequence)
            &&& t.storage[sequence] == DataEntry::Sequence((number + 1) as u32)
            &&& same_but(s, t, key, sequence)
            &&& t.events == s.events.push(
                SettlementEvent::PeriodCreated {
                    company_id,
                    period_id: number,
                    open_at,
                    execute_at,
                    grace_until,
                    close_at,
                },
            )
            &&& s.fresh_period(call, company_id, open_at, execute_at, grace_until, close_at)
                == period
            &&& t.execution_error(now, company_id, number) is None <==> execute_at <= now
                && now <= grace_until
        }),
{
    lemma_queries(s, company_id, next_number(s, company_id));
}

/// The phase that a call moves a period to.
pub open spec fn target(op: Operation) -> PeriodPhase {
    match op {
        Operation::Open { .. } => PeriodPhase::Open,
        Operation::Start { .. } => PeriodPhase::Executing,
        Operation::Close { .. } => PeriodPhase::Closed,
        Operation::Expire { .. } => PeriodPhase::Expired,
        _ => PeriodPhase::Cancelled,
    }
}

/// Whether the call moves the period of that company and number.
pub open spec fn moves(op: Operation, company_id: u64, period_id: u32) -> bool {
    ||| op == (Operation::Open { company_id, period_id })
    ||| op == (Operation::Start { company_id, period_id })
    ||| op == (Operation::Close { company_id, period_id })
    ||| op == (Operation::Cancel { company_id, period_id })
    ||| op == (Operation::Expire { company_id, period_id })
}

/// When a call that the guard lets pass moves a period: the period must be there
/// and not finalized, and the time must lie within the gates. An opening needs a
/// time from `open_at` through `grace_until`, a start one from `execute_at`
/// through `grace_until`, a closing one through `grace_until`, a cancellation
/// one through `close_at`, an expiry one past `close_at`. Nothing else counts.
pub proof fn lemma_move_outcome(
    s: SettlementState,
    call: Invocation,
    op: Operation,
    company_id: u64,
    period_id: u32,
    period: SettlementPeriod,
)
    requires
        s.well_typed(),
        moves(op, company_id, period_id),
        op is Expire || signed(s, call),
        op is Cancel || !held(s, call),
        s.storage.contains_key(DataKey::Period(company_id, period_id)) ==> s.storage[
            DataKey::Period(company_id, period_id)] == DataEntry::Period(period),
    ensures
        ({
            let now = call.timestamp;
            let there = s.storage.contains_key(DataKey::Period(company_id, period_id));
            let done = period.phase is Closed || period.phase is Expired
                || period.phase is Cancelled;
            let early = (op is Open && now < period.open_at) || (op is Start && now
                < period.execute_at) || (op is Expire && now <= period.close_at);
            let late = (op is Cancel && now > period.close_at) || ((op is Open || op is Start
                || op is Close) && now > period.grace_until);
            let failure = s.failure(call, op);
            &&& failure is None <==> there && !done && !early && !late
            &&& refused(failure, SettlementError::PeriodNotFound)
                <==> !there
            &&& refused(failure, SettlementError::AlreadyFinalized)
                <==> there && done
            &&& refused(failure, SettlementError::PeriodNotYetOpen)
                <==> there && !done && early && op is Open
            &&& refused(failure, SettlementError::ExecutionWindowNotOpen)
                <==> there && !done && early && !(op is Open)
            &&& refused(failure, SettlementError::PeriodClosed)
                <==> there && !done && late && op is Cancel
            &&& refused(failure, SettlementError::ExecutionWindowExpired)
                <==> there && !done && late && !(op is Cancel)
        }),
{
    let key = DataKey::Period(company_id, period_id);
    lemma_queries(s, company_id, period_id);
    if s.storage.contains_key(key) {
        assert(super::entry_fits(key, s.storage[key]));
    }
    if s.storage.contains_key(DataKey::Admin) {
        assert(super::entry_fits(DataKey::Admin, s.storage[DataKey::Admin]));
    }
}

/// A successful call moves the period, from whatever phase it was in, to the
/// phase it is for: `Open` by an opening, `Executing` by a start, `Closed` by a
/// closing, `Cancelled` by a cancellation, `Expired` by an expiry. It records
/// the ledger time, keeps every other field and every other entry, and announces
/// the move.
pub proof fn lemma_move_effect(
    s: SettlementState,
    call: Invocation,
    op: Operation,
    company_id: u64,
    period_id: u32,
)
    requires
        s.well_typed(),
        moves(op, company_id, period_id),
        s.failure(call, op) is None,
    ensures
        ({
            let t = s.after(call, op);
            let key = DataKey::Period(company_id, period_id);
            let now = call.timestamp;
            &&& s.storage.contains_key(key) && t.storage.contains_key(key)
            &&& s.storage[key] matches DataEntry::Period(before)
            &&& t.storage[key] matches DataEntry::Period(after)
            &&& after.phase == target(op)
            &&& after.transitioned_at == now
            &&& after.company_id == before.company_id == company_id
            &&& after.period_id == before.period_id == period_id
            &&& after.open_at == before.open_at
            &&& after.execute_at == before.execute_at
            &&& after.grace_until == before.grace_until
            &&& after.close_at == before.close_at
            &&& after.created_at == before.created_at
            &&& super::moved(before, target(op), now) == after
            &&& same_but(s, t, key, key)
            &&& t.events == s.events.push(
                match op {
                    Operation::Cancel { .. } => SettlementEvent::PeriodCancelled {
                        company_id,
                        period_id,
                        at: now,
                    },
                    Operation::Expire { .. } => SettlementEvent::PeriodExpired {
                        company_id,
                        period_id,
                        at: now,
                    },
                    _ => SettlementEvent::PhaseChanged { company_id, period_id, phase: target(op) },
                },
            )
        }),
{
    let key = DataKey::Period(company_id, period_id);
    lemma_queries(s, company_id, period_id);
    assert(super::entry_fits(key, s.storage[key]));
}

/// What is answered to a batch: it may be executed exactly from `execute_at`
/// through `grace_until` of a stored period that is not finalized, and each
/// refusal says which of these does not hold.
pub proof fn lemma_execution_answer(
    s: SettlementState,
    now: u64,
    company_id: u64,
    period_id: u32,
    period: SettlementPeriod,
)
    requires
        s.well_typed(),
        s.storage.contains_key(DataKey::Period(company_id, period_id)) ==> s.storage[
            DataKey::Period(company_id, period_id)] == DataEntry::Period(period),
    ensures
        ({
            let there = s.storage.contains_key(DataKey::Period(company_id, period_id));
            let given_up = period.phase is Cancelled || period.phase is Expired;
            let running = there && !given_up && !(period.phase is Closed);
            let error = s.execution_error(now, company_id, period_id);
            &&& error is None <==> running && period.execute_at <= now && now <= period.grace_until
            &&& error == Some(SettlementError::PeriodNotFound) <==> !there
            &&& error == Some(SettlementError::AlreadyFinalized) <==> there && given_up
            &&& error == Some(SettlementError::PeriodClosed) <==> there && period.phase is Closed
            &&& error == Some(SettlementError::PeriodNotYetOpen) <==> running && now
                < period.open_at
            &&& error == Some(SettlementError::ExecutionWindowNotOpen) <==> running
                && period.open_at <= now && now < period.execute_at
            &&& error == Some(SettlementError::ExecutionWindowExpired) <==> running && now
                > period.grace_until
        }),
{
    let key = DataKey::Period(company_id, period_id);
    lemma_queries(s, company_id, period_id);
    if s.storage.contains_key(key) {
        assert(super::entry_fits(key, s.storage[key]));
    }
}

/// The phases that end a period are `Closed`, `Expired` and `Cancelled`.
pub proof fn lemma_final_phases(phase: PeriodPhase)
    ensures
        super::finalized(phase) <==> phase is Closed || phase is Expired || phase is Cancelled,
{
}

/// Makes one call. What the contract does is what the laws say of `failure` and
/// `after`.
pub fn apply(contract: &mut SettlementWindowContract, call: &Invocation, op: Operation) -> (result:
    Result<(), Failure<SettlementError>>)
    requires
        old(contract).wf(),
    ensures
        final(contract).wf(),
        final(contract)@ == old(contract)@.after(*call, op),
        result == (match old(contract)@.failure(*call, op) {
            Some(failure) => Err(failure),
            None => Ok(()),
        }),
{
    match op {
        Operation::Initialize { admin } => match contract.initialize(call, admin) {
            Ok(()) => Ok(()),
            Err(abort) => Err(Failure::Abort(abort)),
        },
        Operation::SetPauseManager { pause_manager } => match contract.set_pause_manager(
            call,
            pause_manager,
        ) {
            Ok(()) => Ok(()),
            Err(abort) => Err(Failure::Abort(abort)),
        },
        Operation::Create { company_id, open_at, execute_at, grace_until, close_at } => {
            let period = contract.create_period(
                call,
                company_id,
                open_at,
                execute_at,
                grace_until,
                close_at,
            )?;
            assert(DataEntry::Period(period) == contract@.storage[DataKey::Period(
                company_id,
                old(contract)@.next_period_id(company_id),
            )]);
            Ok(())
        },
        Operation::Open { company_id, period_id } => {
            let period = contract.open_period(call, company_id, period_id)?;
            assert(DataEntry::Period(period) == contract@.storage[DataKey::Period(
                company_id,
                period_id,
            )]);
            Ok(())
        },
        Operation::Start { company_id, period_id } => {
            let period = contract.start_execution(call, company_id, period_id)?;
            assert(DataEntry::Period(period) == contract@.storage[DataKey::Period(
                company_id,
                period_id,
            )]);
            Ok(())
        },
        Operation::Close { company_id, period_id } => {
            let period = contract.close_period(call, company_id, period_id)?;
            assert(DataEntry::Period(period) == contract@.storage[DataKey::Period(
                company_id,
                period_id,
            )]);
            Ok(())
        },
        Operation::Cancel { company_id, period_id } => {
            let period = contract.cancel_period(call, company_id, period_id)?;
            assert(DataEntry::Period(period) == contract@.storage[DataKey::Period(
                company_id,
                period_id,
            )]);
            Ok(())
        },
        Operation::Expire { company_id, period_id } => {
            let period = contract.expire_period(call, company_id, period_id)?;
            assert(DataEntry::Period(period) == contract@.storage[DataKey::Period(
                company_id,
                period_id,
            )]);
            Ok(())
        },
    }
}

} // verus!
