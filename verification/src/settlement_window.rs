//! Settlement windows: payroll periods with four time gates.
//!
//! A period has an `open_at`, an `execute_at`, a `grace_until` and a
//! `close_at`, in Unix seconds and in this order. Execution is allowed from
//! `execute_at` through `grace_until`. After `grace_until` a period can only be
//! cancelled, until `close_at`, or be marked expired, by anyone, once `close_at`
//! has passed. A company has at most one period that is not closed, cancelled or
//! expired.

pub mod effects;
pub mod laws;

use crate::host::{Abort, Address, Failure, Invocation};
use crate::storage::{Storage, StorageKey};
use vstd::prelude::*;

verus! {

/// What the contract answers to a call that it refuses.
#[derive(Clone, Copy, Debug, PartialEq, Eq, Structural)]
pub enum SettlementError {
    /// There is no such period.
    PeriodNotFound,
    /// The company has a period that is not finalized.
    PeriodAlreadyExists,
    /// Ledger time is before `open_at`.
    PeriodNotYetOpen,
    /// Ledger time is before the moment the call is allowed from.
    ExecutionWindowNotOpen,
    /// Ledger time is past `grace_until`.
    ExecutionWindowExpired,
    /// The period is closed, or ledger time is past `close_at`.
    PeriodClosed,
    /// The four times are not in order.
    InvalidWindowConfig,
    /// The caller is not the company admin.
    Unauthorized,
    /// The period is finalized; nothing changes it any more.
    AlreadyFinalized,
}

/// The number that clients classify an error by.
pub open spec fn error_code(error: SettlementError) -> u32 {
    match error {
        SettlementError::PeriodNotFound => 1,
        SettlementError::PeriodAlreadyExists => 2,
        SettlementError::PeriodNotYetOpen => 3,
        SettlementError::ExecutionWindowNotOpen => 4,
        SettlementError::ExecutionWindowExpired => 5,
        SettlementError::PeriodClosed => 6,
        SettlementError::InvalidWindowConfig => 7,
        SettlementError::Unauthorized => 8,
        SettlementError::AlreadyFinalized => 9,
    }
}

impl SettlementError {
    /// The number that clients classify the error by.
    pub fn code(&self) -> (code: u32)
        ensures
            code == error_code(*self),
    {
        match self {
            SettlementError::PeriodNotFound => 1,
            SettlementError::PeriodAlreadyExists => 2,
            SettlementError::PeriodNotYetOpen => 3,
            SettlementError::ExecutionWindowNotOpen => 4,
            SettlementError::ExecutionWindowExpired => 5,
            SettlementError::PeriodClosed => 6,
            SettlementError::InvalidWindowConfig => 7,
            SettlementError::Unauthorized => 8,
            SettlementError::AlreadyFinalized => 9,
        }
    }
}

/// Where a period stands.
#[derive(Clone, Copy, Debug, PartialEq, Eq, Structural)]
pub enum PeriodPhase {
    /// Created, not yet open.
    Pending,
    /// Commitments and locks are accepted.
    Open,
    /// Batch payments may be submitted.
    Executing,
    /// The execution window has passed.
    Grace,
    /// Formally closed.
    Closed,
    /// Lapsed without full settlement.
    Expired,
    /// Cancelled by the admin.
    Cancelled,
}

/// The number a phase is stored by.
pub open spec fn phase_code(phase: PeriodPhase) -> u32 {
    match phase {
        PeriodPhase::Pending => 0,
        PeriodPhase::Open => 1,
        PeriodPhase::Executing => 2,
        PeriodPhase::Grace => 3,
        PeriodPhase::Closed => 4,
        PeriodPhase::Expired => 5,
        PeriodPhase::Cancelled => 6,
    }
}

/// The name of a phase in an event.
pub open spec fn phase_name(phase: PeriodPhase) -> Seq<char> {
    match phase {
        PeriodPhase::Pending => "Pending"@,
        PeriodPhase::Open => "Open"@,
        PeriodPhase::Executing => "Executing"@,
        PeriodPhase::Grace => "Grace"@,
        PeriodPhase::Closed => "Closed"@,
        PeriodPhase::Expired => "Expired"@,
        PeriodPhase::Cancelled => "Cancelled"@,
    }
}

/// Whether nothing changes a period of this phase any more.
pub open spec fn finalized(phase: PeriodPhase) -> bool {
    phase is Closed || phase is Expired || phase is Cancelled
}

impl PeriodPhase {
    /// The number the phase is stored by.
    pub fn code(&self) -> (code: u32)
        ensures
            code == phase_code(*self),
    {
        match self {
            PeriodPhase::Pending => 0,
            PeriodPhase::Open => 1,
            PeriodPhase::Executing => 2,
            PeriodPhase::Grace => 3,
            PeriodPhase::Closed => 4,
            PeriodPhase::Expired => 5,
            PeriodPhase::Cancelled => 6,
        }
    }

    /// The name of the phase in an event.
    pub fn name(&self) -> (name: &'static str)
        ensures
            name@ == phase_name(*self),
    {
        match self {
            PeriodPhase::Pending => "Pending",
            PeriodPhase::Open => "Open",
            PeriodPhase::Executing => "Executing",
            PeriodPhase::Grace => "Grace",
            PeriodPhase::Closed => "Closed",
            PeriodPhase::Expired => "Expired",
            PeriodPhase::Cancelled => "Cancelled",
        }
    }

    /// Whether nothing changes a period of this phase any more.
    pub fn is_finalized(&self) -> (done: bool)
        ensures
            done == finalized(*self),
    {
        match self {
            PeriodPhase::Closed | PeriodPhase::Expired | PeriodPhase::Cancelled => true,
            _ => false,
        }
    }
}

/// One payroll settlement window. Only timing is kept: no amounts, employees or
/// commitments.
#[derive(Clone, Copy, Debug, PartialEq, Eq)]
pub struct SettlementPeriod {
    /// The company the period belongs to.
    pub company_id: u64,
    /// The period's number within its company, from 1.
    pub period_id: u32,
    /// From when the period accepts commitments.
    pub open_at: u64,
    /// From when batch execution is allowed.
    pub execute_at: u64,
    /// Through when batch execution is allowed.
    pub grace_until: u64,
    /// The hard close.
    pub close_at: u64,
    /// Where the period stands.
    pub phase: PeriodPhase,
    /// Ledger time of the creation.
    pub created_at: u64,
    /// Ledger time of the last change of phase; 0 before the first.
    pub transitioned_at: u64,
}

/// Whether the four times are in order.
pub open spec fn window_ordered(
    open_at: u64,
    execute_at: u64,
    grace_until: u64,
    close_at: u64,
) -> bool {
    open_at <= execute_at <= grace_until <= close_at
}

/// `period`, moved to `phase` at `now`.
pub open spec fn moved(period: SettlementPeriod, phase: PeriodPhase, now: u64) -> SettlementPeriod {
    SettlementPeriod { phase, transitioned_at: now, ..period }
}

/// Storage keys.
#[derive(Clone, Copy, Debug, PartialEq, Eq)]
pub enum DataKey {
    /// A `SettlementPeriod`, by company and number.
    Period(u64, u32),
    /// The number of the company's next period.
    PeriodSequence(u64),
    /// The admin's address.
    Admin,
    /// The pause manager's address.
    PauseManager,
}

impl StorageKey for DataKey {
    fn same(&self, other: &Self) -> (equal: bool) {
        match (self, other) {
            (DataKey::Period(c, p), DataKey::Period(d, q)) => *c == *d && *p == *q,
            (DataKey::PeriodSequence(c), DataKey::PeriodSequence(d)) => *c == *d,
            (DataKey::Admin, DataKey::Admin) => true,
            (DataKey::PauseManager, DataKey::PauseManager) => true,
            _ => false,
        }
    }
}

/// Storage entries.
#[derive(Clone, Copy, Debug, PartialEq, Eq)]
pub enum DataEntry {
    /// Stands under `DataKey::Period`.
    Period(SettlementPeriod),
    /// Stands under `DataKey::PeriodSequence`.
    Sequence(u32),
    /// Stands under `DataKey::Admin` and `DataKey::PauseManager`.
    Address(Address),
}

/// Whether `entry` may stand under `key`.
pub open spec fn entry_fits(key: DataKey, entry: DataEntry) -> bool {
    match (key, entry) {
        (DataKey::Period(company_id, period_id), DataEntry::Period(period)) => {
            &&& period.company_id == company_id
            &&& period.period_id == period_id
            &&& window_ordered(
                period.open_at,
                period.execute_at,
                period.grace_until,
                period.close_at,
            )
        },
        (DataKey::PeriodSequence(_), DataEntry::Sequence(next)) => next >= 1,
        (DataKey::Admin, DataEntry::Address(_)) => true,
        (DataKey::PauseManager, DataEntry::Address(_)) => true,
        _ => false,
    }
}

/// What the contract announces.
#[derive(Clone, Copy, Debug, PartialEq, Eq)]
pub enum SettlementEvent {
    /// The contract got its admin.
    Initialized { admin: Address },
    /// A period was created.
    PeriodCreated {
        company_id: u64,
        period_id: u32,
        open_at: u64,
        execute_at: u64,
        grace_until: u64,
        close_at: u64,
    },
    /// A period was opened, started or closed.
    PhaseChanged { company_id: u64, period_id: u32, phase: PeriodPhase },
    /// A period was cancelled.
    PeriodCancelled { company_id: u64, period_id: u32, at: u64 },
    /// A period was marked expired.
    PeriodExpired { company_id: u64, period_id: u32, at: u64 },
}

/// What the contract holds, as a mathematical value.
#[verifier::ext_equal]
pub struct SettlementState {
    /// The stored entries.
    pub storage: Map<DataKey, DataEntry>,
    /// The events announced so far.
    pub events: Seq<SettlementEvent>,
}

impl SettlementState {
    /// Whether every entry fits its key.
    pub open spec fn well_typed(self) -> bool {
        forall|key: DataKey| #[trigger]
            self.storage.contains_key(key) ==> entry_fits(key, self.storage[key])
    }

    /// The admin.
    pub open spec fn admin(self) -> Option<Address> {
        if self.storage.contains_key(DataKey::Admin) {
            Some(self.storage[DataKey::Admin]->Address_0)
        } else {
            None
        }
    }

    /// Whether a pause manager is configured.
    pub open spec fn pause_configured(self) -> bool {
        self.storage.contains_key(DataKey::PauseManager)
    }

    /// The period of a company and number.
    pub open spec fn period(self, company_id: u64, period_id: u32) -> Option<SettlementPeriod> {
        let key = DataKey::Period(company_id, period_id);
        if self.storage.contains_key(key) {
            Some(self.storage[key]->Period_0)
        } else {
            None
        }
    }

    /// The number the company's next period gets.
    pub open spec fn next_period_id(self, company_id: u64) -> u32 {
        let key = DataKey::PeriodSequence(company_id);
        if self.storage.contains_key(key) {
            self.storage[key]->Sequence_0
        } else {
            1
        }
    }

    /// Whether the company's latest period is not finalized.
    pub open spec fn has_active_period(self, company_id: u64) -> bool {
        let next = self.next_period_id(company_id);
        &&& next > 1
        &&& self.period(company_id, (next - 1) as u32) matches Some(latest) && !finalized(
            latest.phase,
        )
    }

    /// The abort of a call that only the admin may make, while not paused.
    pub open spec fn guard(self, call: Invocation) -> Option<Abort> {
        call.guard_abort(self.pause_configured(), self.admin())
    }

    /// The state with one entry written and one event announced.
    pub open spec fn wrote(self, key: DataKey, entry: DataEntry, event: SettlementEvent) -> Self {
        SettlementState {
            storage: self.storage.insert(key, entry),
            events: self.events.push(event),
        }
    }
}

// What each operation refuses, and what it leaves behind.
impl SettlementState {
    /// How creating a period fails, if it does.
    pub open spec fn create_failure(
        self,
        call: Invocation,
        company_id: u64,
        open_at: u64,
        execute_at: u64,
        grace_until: u64,
        close_at: u64,
    ) -> Option<Failure<SettlementError>> {
        if let Some(abort) = self.guard(call) {
            Some(Failure::Abort(abort))
        } else if !window_ordered(open_at, execute_at, grace_until, close_at) {
            Some(Failure::Error(SettlementError::InvalidWindowConfig))
        } else if self.has_active_period(company_id) {
            Some(Failure::Error(SettlementError::PeriodAlreadyExists))
        } else if self.next_period_id(company_id) == u32::MAX {
            Some(Failure::Abort(Abort::Overflow))
        } else {
            None
        }
    }

    /// The period that creating one makes.
    pub open spec fn fresh_period(
        self,
        call: Invocation,
        company_id: u64,
        open_at: u64,
        execute_at: u64,
        grace_until: u64,
        close_at: u64,
    ) -> SettlementPeriod {
        SettlementPeriod {
            company_id,
            period_id: self.next_period_id(company_id),
            open_at,
            execute_at,
            grace_until,
            close_at,
            phase: PeriodPhase::Pending,
            created_at: call.timestamp,
            transitioned_at: 0,
        }
    }

    /// The state after `period` was created.
    pub open spec fn created(self, period: SettlementPeriod) -> Self {
        SettlementState {
            storage: self.storage.insert(
                DataKey::Period(period.company_id, period.period_id),
                DataEntry::Period(period),
            ).insert(
                DataKey::PeriodSequence(period.company_id),
                DataEntry::Sequence((period.period_id + 1) as u32),
            ),
            events: self.events.push(
                SettlementEvent::PeriodCreated {
                    company_id: period.company_id,
                    period_id: period.period_id,
                    open_at: period.open_at,
                    execute_at: period.execute_at,
                    grace_until: period.grace_until,
                    close_at: period.close_at,
                },
            ),
        }
    }

    /// Why the period cannot change its phase at all, if it cannot.
    pub open spec fn change_error(self, company_id: u64, period_id: u32) -> Option<
        SettlementError,
    > {
        match self.period(company_id, period_id) {
            None => Some(SettlementError::PeriodNotFound),
            Some(period) => if finalized(period.phase) {
                Some(SettlementError::AlreadyFinalized)
            } else {
                None
            },
        }
    }

    /// How opening a period fails, if it does.
    pub open spec fn open_failure(
        self,
        call: Invocation,
        company_id: u64,
        period_id: u32,
    ) -> Option<Failure<SettlementError>> {
        if let Some(abort) = self.guard(call) {
            Some(Failure::Abort(abort))
        } else if let Some(error) = self.change_error(company_id, period_id) {
            Some(Failure::Error(error))
        } else if call.timestamp < self.period(company_id, period_id)->0.open_at {
            Some(Failure::Error(SettlementError::PeriodNotYetOpen))
        } else if call.timestamp > self.period(company_id, period_id)->0.grace_until {
            Some(Failure::Error(SettlementError::ExecutionWindowExpired))
        } else {
            None
        }
    }

    /// How starting the execution of a period fails, if it does.
    pub open spec fn start_failure(
        self,
        call: Invocation,
        company_id: u64,
        period_id: u32,
    ) -> Option<Failure<SettlementError>> {
        if let Some(abort) = self.guard(call) {
            Some(Failure::Abort(abort))
        } else if let Some(error) = self.change_error(company_id, period_id) {
            Some(Failure::Error(error))
        } else if call.timestamp < self.period(company_id, period_id)->0.execute_at {
            Some(Failure::Error(SettlementError::ExecutionWindowNotOpen))
        } else if call.timestamp > self.period(company_id, period_id)->0.grace_until {
            Some(Failure::Error(SettlementError::ExecutionWindowExpired))
        } else {
            None
        }
    }

    /// How closing a period fails, if it does.
    pub open spec fn close_failure(
        self,
        call: Invocation,
        company_id: u64,
        period_id: u32,
    ) -> Option<Failure<SettlementError>> {
        if let Some(abort) = self.guard(call) {
            Some(Failure::Abort(abort))
        } else if let Some(error) = self.change_error(company_id, period_id) {
            Some(Failure::Error(error))
        } else if call.timestamp > self.period(company_id, period_id)->0.grace_until {
            Some(Failure::Error(SettlementError::ExecutionWindowExpired))
        } else {
            None
        }
    }

    /// How cancelling a period fails, if it does. A pause does not hold it.
    pub open spec fn cancel_failure(
        self,
        call: Invocation,
        company_id: u64,
        period_id: u32,
    ) -> Option<Failure<SettlementError>> {
        if let Some(abort) = call.admin_abort(self.admin()) {
            Some(Failure::Abort(abort))
        } else if let Some(error) = self.change_error(company_id, period_id) {
            Some(Failure::Error(error))
        } else if call.timestamp > self.period(company_id, period_id)->0.close_at {
            Some(Failure::Error(SettlementError::PeriodClosed))
        } else {
            None
        }
    }

    /// How marking a period expired fails, if it does. Nobody's authorization
    /// is asked.
    pub open spec fn expire_failure(
        self,
        call: Invocation,
        company_id: u64,
        period_id: u32,
    ) -> Option<Failure<SettlementError>> {
        if let Some(abort) = call.pause_abort(self.pause_configured()) {
            Some(Failure::Abort(abort))
        } else if let Some(error) = self.change_error(company_id, period_id) {
            Some(Failure::Error(error))
        } else if call.timestamp <= self.period(company_id, period_id)->0.close_at {
            Some(Failure::Error(SettlementError::ExecutionWindowNotOpen))
        } else {
            None
        }
    }

    /// The state after a period moved to `phase` with `event` announced.
    pub open spec fn changed(
        self,
        company_id: u64,
        period_id: u32,
        phase: PeriodPhase,
        now: u64,
        event: SettlementEvent,
    ) -> Self {
        self.wrote(
            DataKey::Period(company_id, period_id),
            DataEntry::Period(moved(self.period(company_id, period_id)->0, phase, now)),
            event,
        )
    }

    /// Why execution is not allowed at `now`, if it is not.
    pub open spec fn execution_error(
        self,
        now: u64,
        company_id: u64,
        period_id: u32,
    ) -> Option<SettlementError> {
        match self.period(company_id, period_id) {
            None => Some(SettlementError::PeriodNotFound),
            Some(period) => if period.phase is Cancelled || period.phase is Expired {
                Some(SettlementError::AlreadyFinalized)
            } else if period.phase is Closed {
                Some(SettlementError::PeriodClosed)
            } else if now < period.open_at {
                Some(SettlementError::PeriodNotYetOpen)
            } else if now < period.execute_at {
                Some(SettlementError::ExecutionWindowNotOpen)
            } else if now > period.grace_until {
                Some(SettlementError::ExecutionWindowExpired)
            } else {
                None
            },
        }
    }
}

/// The settlement window contract.
pub struct SettlementWindowContract {
    /// The stored entries.
    storage: Storage<DataKey, DataEntry>,
    /// The events announced so far.
    events: Vec<SettlementEvent>,
}

impl View for SettlementWindowContract {
    type V = SettlementState;

    closed spec fn view(&self) -> SettlementState {
        SettlementState { storage: self.storage@, events: self.events@ }
    }
}

impl SettlementWindowContract {
    /// Whether the storage's representation is sound.
    pub closed spec fn storage_sound(&self) -> bool {
        self.storage.wf()
    }

    /// Whether the storage is sound and every entry fits its key.
    pub open spec fn wf(&self) -> bool {
        self.storage_sound() && self@.well_typed()
    }

    /// The contract before its first call.
    pub fn new() -> (contract: Self)
        ensures
            contract.wf(),
            contract@ == (SettlementState {
                storage: Map::<DataKey, DataEntry>::empty(),
                events: Seq::<SettlementEvent>::empty(),
            }),
    {
        SettlementWindowContract { storage: Storage::new(), events: Vec::new() }
    }

    /// The entry under `key`, if there is one.
    pub fn entry(&self, key: &DataKey) -> (entry: Option<DataEntry>)
        requires
            self.wf(),
        ensures
            entry == (if self@.storage.contains_key(*key) {
                Some(self@.storage[*key])
            } else {
                None
            }),
    {
        self.storage.get(key)
    }

    /// The events announced so far.
    pub fn events(&self) -> (events: &Vec<SettlementEvent>)
        ensures
            events@ == self@.events,
    {
        &self.events
    }

    /// Puts back an entry that was read from the ledger. One that does not fit
    /// its key is left out.
    pub fn restore(&mut self, key: DataKey, entry: DataEntry) -> (restored: bool)
        requires
            old(self).wf(),
        ensures
            final(self).wf(),
            restored == entry_fits(key, entry),
            final(self)@ == (if restored {
                SettlementState { storage: old(self)@.storage.insert(key, entry), ..old(self)@ }
            } else {
                old(self)@
            }),
    {
        let fits = match (key, entry) {
            (DataKey::Period(company_id, period_id), DataEntry::Period(period)) => {
                period.company_id == company_id && period.period_id == period_id && period.open_at
                    <= period.execute_at && period.execute_at <= period.grace_until
                    && period.grace_until <= period.close_at
            },
            (DataKey::PeriodSequence(_), DataEntry::Sequence(next)) => next >= 1,
            (DataKey::Admin, DataEntry::Address(_)) => true,
            (DataKey::PauseManager, DataEntry::Address(_)) => true,
            _ => false,
        };
        if fits {
            self.write(key, entry);
        }
        fits
    }

    /// Makes `admin` the admin, once.
    pub fn initialize(&mut self, call: &Invocation, admin: Address) -> (result: Result<(), Abort>)
        requires
            old(self).wf(),
        ensures
            final(self).wf(),
            match call.initialize_abort(old(self)@.admin() is Some, admin) {
                Some(abort) => result == Err::<(), Abort>(abort) && final(self)@ == old(self)@,
                None => result == Ok::<(), Abort>(()) && final(self)@ == old(self)@.wrote(
                    DataKey::Admin,
                    DataEntry::Address(admin),
                    SettlementEvent::Initialized { admin },
                ),
            },
    {
        call.check_initialize(self.storage.has(&DataKey::Admin), &admin)?;
        self.write(DataKey::Admin, DataEntry::Address(admin));
        self.events.push(SettlementEvent::Initialized { admin });
        Ok(())
    }

    /// Sets or replaces the pause manager.
    pub fn set_pause_manager(&mut self, call: &Invocation, pause_manager: Address) -> (result:
        Result<(), Abort>)
        requires
            old(self).wf(),
        ensures
            final(self).wf(),
            match call.admin_abort(old(self)@.admin()) {
                Some(abort) => result == Err::<(), Abort>(abort) && final(self)@ == old(self)@,
                None => result == Ok::<(), Abort>(()) && final(self)@ == (SettlementState {
                    storage: old(self)@.storage.insert(
                        DataKey::PauseManager,
                        DataEntry::Address(pause_manager),
                    ),
                    ..old(self)@
                }),
            },
    {
        self.require_admin(call)?;
        self.write(DataKey::PauseManager, DataEntry::Address(pause_manager));
        Ok(())
    }

    /// Asks for the admin's authorization.
    pub fn require_admin(&self, call: &Invocation) -> (result: Result<(), Abort>)
        requires
            self.wf(),
        ensures
            result == (match call.admin_abort(self@.admin()) {
                Some(abort) => Err(abort),
                None => Ok(()),
            }),
    {
        let admin = match self.storage.get(&DataKey::Admin) {
            Some(DataEntry::Address(address)) => Some(address),
            _ => None,
        };
        call.check_admin(admin)
    }

    /// Asks the pause manager, where one is configured.
    pub fn require_not_paused(&self, call: &Invocation) -> (result: Result<(), Abort>)
        requires
            self.wf(),
        ensures
            result == (match call.pause_abort(self@.pause_configured()) {
                Some(abort) => Err(abort),
                None => Ok(()),
            }),
    {
        call.check_pause(self.storage.has(&DataKey::PauseManager))
    }

    /// Writes an entry that fits its key.
    fn write(&mut self, key: DataKey, entry: DataEntry)
        requires
            old(self).wf(),
            entry_fits(key, entry),
        ensures
            final(self).wf(),
            final(self)@ == (SettlementState {
                storage: old(self)@.storage.insert(key, entry),
                ..old(self)@
            }),
    {
        self.storage.set(key, entry);
        assert forall|k: DataKey| #[trigger] self@.storage.contains_key(k) implies entry_fits(
            k,
            self@.storage[k],
        ) by {
            if k != key {
                assert(old(self)@.storage.contains_key(k));
            }
        }
    }

    /// Asks the pause manager, then for the admin's authorization.
    fn check_guard(&self, call: &Invocation) -> (result: Result<(), Failure<SettlementError>>)
        requires
            self.wf(),
        ensures
            result == (match self@.guard(*call) {
                Some(abort) => Err(Failure::<SettlementError>::Abort(abort)),
                None => Ok(()),
            }),
    {
        if let Err(abort) = self.require_not_paused(call) {
            return Err(Failure::Abort(abort));
        }
        match self.require_admin(call) {
            Err(abort) => Err(Failure::Abort(abort)),
            Ok(()) => Ok(()),
        }
    }

    /// The period of a company and number.
    fn load_period(&self, company_id: u64, period_id: u32) -> (result: Result<
        SettlementPeriod,
        SettlementError,
    >)
        requires
            self.wf(),
        ensures
            result == (match self@.period(company_id, period_id) {
                Some(period) => Ok(period),
                None => Err(SettlementError::PeriodNotFound),
            }),
    {
        match self.storage.get(&DataKey::Period(company_id, period_id)) {
            Some(DataEntry::Period(period)) => Ok(period),
            _ => Err(SettlementError::PeriodNotFound),
        }
    }

    /// Writes a period under its own company and number.
    fn save_period(&mut self, period: &SettlementPeriod)
        requires
            old(self).wf(),
            window_ordered(
                period.open_at,
                period.execute_at,
                period.grace_until,
                period.close_at,
            ),
        ensures
            final(self).wf(),
            final(self)@ == (SettlementState {
                storage: old(self)@.storage.insert(
                    DataKey::Period(period.company_id, period.period_id),
                    DataEntry::Period(*period),
                ),
                ..old(self)@
            }),
    {
        self.write(
            DataKey::Period(period.company_id, period.period_id),
            DataEntry::Period(*period),
        );
    }

    /// Refuses a period that nothing changes any more.
    pub fn require_not_finalized(period: &SettlementPeriod) -> (result: Result<
        (),
        SettlementError,
    >)
        ensures
            result == (if finalized(period.phase) {
                Err(SettlementError::AlreadyFinalized)
            } else {
                Ok(())
            }),
    {
        match period.phase {
            PeriodPhase::Closed | PeriodPhase::Expired | PeriodPhase::Cancelled => Err(
                SettlementError::AlreadyFinalized,
            ),
            _ => Ok(()),
        }
    }

    /// The period of a company and number, where its phase can change.
    fn load_changeable(&self, company_id: u64, period_id: u32) -> (result: Result<
        SettlementPeriod,
        Failure<SettlementError>,
    >)
        requires
            self.wf(),
        ensures
            result == (match self@.change_error(company_id, period_id) {
                Some(error) => Err(Failure::Error(error)),
                None => Ok(self@.period(company_id, period_id)->0),
            }),
    {
        match self.load_period(company_id, period_id) {
            Err(error) => Err(Failure::Error(error)),
            Ok(period) => match Self::require_not_finalized(&period) {
                Err(error) => Err(Failure::Error(error)),
                Ok(()) => Ok(period),
            },
        }
    }

    /// Creates the company's next period. The four times must be in order, and
    /// the company's latest period finalized.
    pub fn create_period(
        &mut self,
        call: &Invocation,
        company_id: u64,
        open_at: u64,
        execute_at: u64,
        grace_until: u64,
        close_at: u64,
    ) -> (result: Result<SettlementPeriod, Failure<SettlementError>>)
        requires
            old(self).wf(),
        ensures
            final(self).wf(),
            match old(self)@.create_failure(
                *call,
                company_id,
                open_at,
                execute_at,
                grace_until,
                close_at,
            ) {
                Some(failure) => {
                    &&& result == Err::<SettlementPeriod, Failure<SettlementError>>(failure)
                    &&& final(self)@ == old(self)@
                },
                None => {
                    let period = old(self)@.fresh_period(
                        *call,
                        company_id,
                        open_at,
                        execute_at,
                        grace_until,
                        close_at,
                    );
                    &&& result == Ok::<SettlementPeriod, Failure<SettlementError>>(period)
                    &&& final(self)@ == old(self)@.created(period)
                },
            },
    {
        self.check_guard(call)?;
        if open_at > execute_at || execute_at > grace_until || grace_until > close_at {
            return Err(Failure::Error(SettlementError::InvalidWindowConfig));
        }
        let period_id = self.get_next_period_id(company_id);
        if period_id > 1 {
            if let Some(previous) = self.get_period(company_id, period_id - 1) {
                if !previous.phase.is_finalized() {
                    return Err(Failure::Error(SettlementError::PeriodAlreadyExists));
                }
            }
        }
        if period_id == u32::MAX {
            return Err(Failure::Abort(Abort::Overflow));
        }
        let period = SettlementPeriod {
            company_id,
            period_id,
            open_at,
            execute_at,
            grace_until,
            close_at,
            phase: PeriodPhase::Pending,
            created_at: call.timestamp,
            transitioned_at: 0,
        };
        self.save_period(&period);
        self.write(
            DataKey::PeriodSequence(company_id),
            DataEntry::Sequence(period_id + 1),
        );
        self.events.push(
            SettlementEvent::PeriodCreated {
                company_id,
                period_id,
                open_at,
                execute_at,
                grace_until,
                close_at,
            },
        );
        Ok(period)
    }

    /// Whether a batch may be executed now: from `execute_at` through
    /// `grace_until`, unless the period is finalized. Changes nothing.
    pub fn check_execution_allowed(
        &self,
        call: &Invocation,
        company_id: u64,
        period_id: u32,
    ) -> (result: Result<(), SettlementError>)
        requires
            self.wf(),
        ensures
            result == (match self@.execution_error(call.timestamp, company_id, period_id) {
                Some(error) => Err(error),
                None => Ok(()),
            }),
    {
        let period = self.load_period(company_id, period_id)?;
        match period.phase {
            PeriodPhase::Cancelled | PeriodPhase::Expired => {
                return Err(SettlementError::AlreadyFinalized);
            },
            PeriodPhase::Closed => {
                return Err(SettlementError::PeriodClosed);
            },
            _ => {},
        }
        if call.timestamp < period.open_at {
            return Err(SettlementError::PeriodNotYetOpen);
        }
        if call.timestamp < period.execute_at {
            return Err(SettlementError::ExecutionWindowNotOpen);
        }
        if call.timestamp > period.grace_until {
            return Err(SettlementError::ExecutionWindowExpired);
        }
        Ok(())
    }

    /// Opens a period, from `open_at` through `grace_until`.
    pub fn open_period(
        &mut self,
        call: &Invocation,
        company_id: u64,
        period_id: u32,
    ) -> (result: Result<SettlementPeriod, Failure<SettlementError>>)
        requires
            old(self).wf(),
        ensures
            final(self).wf(),
            match old(self)@.open_failure(*call, company_id, period_id) {
                Some(failure) => {
                    &&& result == Err::<SettlementPeriod, Failure<SettlementError>>(failure)
                    &&& final(self)@ == old(self)@
                },
                None => {
                    &&& result == Ok::<SettlementPeriod, Failure<SettlementError>>(
                        moved(
                            old(self)@.period(company_id, period_id)->0,
                            PeriodPhase::Open,
                            call.timestamp,
                        ),
                    )
                    &&& final(self)@ == old(self)@.changed(
                        company_id,
                        period_id,
                        PeriodPhase::Open,
                        call.timestamp,
                        SettlementEvent::PhaseChanged {
                            company_id,
                            period_id,
                            phase: PeriodPhase::Open,
                        },
                    )
                },
            },
    {
        self.check_guard(call)?;
        let mut period = self.load_changeable(company_id, period_id)?;
        if call.timestamp < period.open_at {
            return Err(Failure::Error(SettlementError::PeriodNotYetOpen));
        }
        if call.timestamp > period.grace_until {
            return Err(Failure::Error(SettlementError::ExecutionWindowExpired));
        }
        period.phase = PeriodPhase::Open;
        period.transitioned_at = call.timestamp;
        self.save_period(&period);
        self.events.push(
            SettlementEvent::PhaseChanged { company_id, period_id, phase: PeriodPhase::Open },
        );
        Ok(period)
    }

    /// Starts the execution of a period, from `execute_at` through `grace_until`.
    pub fn start_execution(
        &mut self,
        call: &Invocation,
        company_id: u64,
        period_id: u32,
    ) -> (result: Result<SettlementPeriod, Failure<SettlementError>>)
        requires
            old(self).wf(),
        ensures
            final(self).wf(),
            match old(self)@.start_failure(*call, company_id, period_id) {
                Some(failure) => {
                    &&& result == Err::<SettlementPeriod, Failure<SettlementError>>(failure)
                    &&& final(self)@ == old(self)@
                },
                None => {
                    &&& result == Ok::<SettlementPeriod, Failure<SettlementError>>(
                        moved(
                            old(self)@.period(company_id, period_id)->0,
                            PeriodPhase::Executing,
                            call.timestamp,
                        ),
                    )
                    &&& final(self)@ == old(self)@.changed(
                        company_id,
                        period_id,
                        PeriodPhase::Executing,
                        call.timestamp,
                        SettlementEvent::PhaseChanged {
                            company_id,
                            period_id,
                            phase: PeriodPhase::Executing,
                        },
                    )
                },
            },
    {
        self.check_guard(call)?;
        let mut period = self.load_changeable(company_id, period_id)?;
        if call.timestamp < period.execute_at {
            return Err(Failure::Error(SettlementError::ExecutionWindowNotOpen));
        }
        if call.timestamp > period.grace_until {
            return Err(Failure::Error(SettlementError::ExecutionWindowExpired));
        }
        period.phase = PeriodPhase::Executing;
        period.transitioned_at = call.timestamp;
        self.save_period(&period);
        self.events.push(
            SettlementEvent::PhaseChanged { company_id, period_id, phase: PeriodPhase::Executing },
        );
        Ok(period)
    }

    /// Closes a period whose payments are settled, through `grace_until`.
    pub fn close_period(
        &mut self,
        call: &Invocation,
        company_id: u64,
        period_id: u32,
    ) -> (result: Result<SettlementPeriod, Failure<SettlementError>>)
        requires
            old(self).wf(),
        ensures
            final(self).wf(),
            match old(self)@.close_failure(*call, company_id, period_id) {
                Some(failure) => {
                    &&& result == Err::<SettlementPeriod, Failure<SettlementError>>(failure)
                    &&& final(self)@ == old(self)@
                },
                None => {
                    &&& result == Ok::<SettlementPeriod, Failure<SettlementError>>(
                        moved(
                            old(self)@.period(company_id, period_id)->0,
                            PeriodPhase::Closed,
                            call.timestamp,
                        ),
                    )
                    &&& final(self)@ == old(self)@.changed(
                        company_id,
                        period_id,
                        PeriodPhase::Closed,
                        call.timestamp,
                        SettlementEvent::PhaseChanged {
                            company_id,
                            period_id,
                            phase: PeriodPhase::Closed,
                        },
                    )
                },
            },
    {
        self.check_guard(call)?;
        let mut period = self.load_changeable(company_id, period_id)?;
        if call.timestamp > period.grace_until {
            return Err(Failure::Error(SettlementError::ExecutionWindowExpired));
        }
        period.phase = PeriodPhase::Closed;
        period.transitioned_at = call.timestamp;
        self.save_period(&period);
        self.events.push(
            SettlementEvent::PhaseChanged { company_id, period_id, phase: PeriodPhase::Closed },
        );
        Ok(period)
    }

    /// Cancels a period, until its hard close. A pause does not hold this call: it
    /// is the way out of an emergency.
    pub fn cancel_period(
        &mut self,
        call: &Invocation,
        company_id: u64,
        period_id: u32,
    ) -> (result: Result<SettlementPeriod, Failure<SettlementError>>)
        requires
            old(self).wf(),
        ensures
            final(self).wf(),
            match old(self)@.cancel_failure(*call, company_id, period_id) {
                Some(failure) => {
                    &&& result == Err::<SettlementPeriod, Failure<SettlementError>>(failure)
                    &&& final(self)@ == old(self)@
                },
                None => {
                    &&& result == Ok::<SettlementPeriod, Failure<SettlementError>>(
                        moved(
                            old(self)@.period(company_id, period_id)->0,
                            PeriodPhase::Cancelled,
                            call.timestamp,
                        ),
                    )
                    &&& final(self)@ == old(self)@.changed(
                        company_id,
                        period_id,
                        PeriodPhase::Cancelled,
                        call.timestamp,
                        SettlementEvent::PeriodCancelled {
                            company_id,
                            period_id,
                            at: call.timestamp,
                        },
                    )
                },
            },
    {
        if let Err(abort) = self.require_admin(call) {
            return Err(Failure::Abort(abort));
        }
        let mut period = self.load_changeable(company_id, period_id)?;
        if call.timestamp > period.close_at {
            return Err(Failure::Error(SettlementError::PeriodClosed));
        }
        period.phase = PeriodPhase::Cancelled;
        period.transitioned_at = call.timestamp;
        self.save_period(&period);
        self.events.push(
            SettlementEvent::PeriodCancelled { company_id, period_id, at: call.timestamp },
        );
        Ok(period)
    }

    /// Marks a period expired that lapsed: its grace has run out and its hard close
    /// has passed without closure. Anyone may call this.
    pub fn expire_period(
        &mut self,
        call: &Invocation,
        company_id: u64,
        period_id: u32,
    ) -> (result: Result<SettlementPeriod, Failure<SettlementError>>)
        requires
            old(self).wf(),
        ensures
            final(self).wf(),
            match old(self)@.expire_failure(*call, company_id, period_id) {
                Some(failure) => {
                    &&& result == Err::<SettlementPeriod, Failure<SettlementError>>(failure)
                    &&& final(self)@ == old(self)@
                },
                None => {
                    &&& result == Ok::<SettlementPeriod, Failure<SettlementError>>(
                        moved(
                            old(self)@.period(company_id, period_id)->0,
                            PeriodPhase::Expired,
                            call.timestamp,
                        ),
                    )
                    &&& final(self)@ == old(self)@.changed(
                        company_id,
                        period_id,
                        PeriodPhase::Expired,
                        call.timestamp,
                        SettlementEvent::PeriodExpired {
                            company_id,
                            period_id,
                            at: call.timestamp,
                        },
                    )
                },
            },
    {
        if let Err(abort) = self.require_not_paused(call) {
            return Err(Failure::Abort(abort));
        }
        let mut period = self.load_changeable(company_id, period_id)?;
        if call.timestamp <= period.close_at {
            return Err(Failure::Error(SettlementError::ExecutionWindowNotOpen));
        }
        period.phase = PeriodPhase::Expired;
        period.transitioned_at = call.timestamp;
        self.save_period(&period);
        self.events.push(
            SettlementEvent::PeriodExpired { company_id, period_id, at: call.timestamp },
        );
        Ok(period)
    }

    /// The period of a company and number, if there is one.
    pub fn get_period(&self, company_id: u64, period_id: u32) -> (period: Option<SettlementPeriod>)
        requires
            self.wf(),
        ensures
            period == self@.period(company_id, period_id),
    {
        match self.storage.get(&DataKey::Period(company_id, period_id)) {
            Some(DataEntry::Period(period)) => Some(period),
            _ => None,
        }
    }

    /// The phase of a period, if there is one.
    pub fn get_phase(&self, company_id: u64, period_id: u32) -> (phase: Option<PeriodPhase>)
        requires
            self.wf(),
        ensures
            phase == (match self@.period(company_id, period_id) {
                Some(period) => Some(period.phase),
                None => None,
            }),
    {
        match self.get_period(company_id, period_id) {
            Some(period) => Some(period.phase),
            None => None,
        }
    }

    /// The number the company's next period gets.
    pub fn get_next_period_id(&self, company_id: u64) -> (next: u32)
        requires
            self.wf(),
        ensures
            next == self@.next_period_id(company_id),
            next >= 1,
    {
        match self.storage.get(&DataKey::PeriodSequence(company_id)) {
            Some(DataEntry::Sequence(next)) => next,
            _ => 1,
        }
    }
}

} // verus!
