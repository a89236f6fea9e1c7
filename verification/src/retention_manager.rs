//! Retention of payroll records: how long each kind of record is kept, what
//! protects it from removal, and when it may be pruned.
//!
//! A record is registered once it is final. From then on it is kept for a
//! window that depends on its kind, and for as long as an audit or a challenge
//! blocks it. Pruning leaves a tombstone: the record with its mark set.

pub mod effects;
pub mod laws;

use crate::host::{Abort, Address, Failure, Invocation};
use crate::storage::{Storage, StorageKey};
use vstd::prelude::*;

verus! {

/// Retention window of a finalized batch: one year, in seconds.
pub const FINALIZED_RETENTION_SECS: u64 = 365 * 24 * 60 * 60;

/// Retention window of a cancelled batch: 90 days, in seconds.
pub const CANCELLED_RETENTION_SECS: u64 = 90 * 24 * 60 * 60;

/// Retention window of an expired audit grant: 30 days, in seconds.
pub const AUDIT_GRANT_RETENTION_SECS: u64 = 30 * 24 * 60 * 60;

/// Retention window of a challenge: two years, in seconds.
pub const CHALLENGE_RETENTION_SECS: u64 = 730 * 24 * 60 * 60;

/// What the contract answers to a call that it refuses.
#[derive(Clone, Copy, Debug, PartialEq, Eq, Structural)]
pub enum RetentionError {
    /// The record is not registered.
    RecordNotFound,
    /// The record's retention window has not elapsed.
    RetentionWindowActive,
    /// An audit protects the record.
    ActiveAuditBlock,
    /// A challenge protects the record.
    ActiveChallengeBlock,
    /// The caller may not do this.
    Unauthorized,
    /// The kind of record is unknown.
    UnknownRecordType,
}

/// The number that clients classify an error by.
pub open spec fn error_code(error: RetentionError) -> u32 {
    match error {
        RetentionError::RecordNotFound => 1,
        RetentionError::RetentionWindowActive => 2,
        RetentionError::ActiveAuditBlock => 3,
        RetentionError::ActiveChallengeBlock => 4,
        RetentionError::Unauthorized => 5,
        RetentionError::UnknownRecordType => 6,
    }
}

impl RetentionError {
    /// The number that clients classify the error by.
    pub fn code(&self) -> (code: u32)
        ensures
            code == error_code(*self),
    {
        match self {
            RetentionError::RecordNotFound => 1,
            RetentionError::RetentionWindowActive => 2,
            RetentionError::ActiveAuditBlock => 3,
            RetentionError::ActiveChallengeBlock => 4,
            RetentionError::Unauthorized => 5,
            RetentionError::UnknownRecordType => 6,
        }
    }
}

/// A kind of record.
#[derive(Clone, Copy, Debug, PartialEq, Eq, Structural)]
pub enum RecordType {
    /// A batch that was paid out.
    FinalizedBatch,
    /// A batch that was cancelled before execution.
    CancelledBatch,
    /// An audit grant that has expired.
    ExpiredAuditGrant,
    /// A challenge or dispute.
    ChallengeRecord,
}

/// The number of a kind of record, which storage keys carry.
pub open spec fn record_type_code(record_type: RecordType) -> u32 {
    match record_type {
        RecordType::FinalizedBatch => 0,
        RecordType::CancelledBatch => 1,
        RecordType::ExpiredAuditGrant => 2,
        RecordType::ChallengeRecord => 3,
    }
}

/// The name of a kind of record, which events carry.
pub open spec fn record_type_name(record_type: RecordType) -> Seq<char> {
    match record_type {
        RecordType::FinalizedBatch => "finalized"@,
        RecordType::CancelledBatch => "cancelled"@,
        RecordType::ExpiredAuditGrant => "audit_grant"@,
        RecordType::ChallengeRecord => "challenge"@,
    }
}

/// The retention window of a kind of record where a company has no other.
pub open spec fn default_window(record_type: RecordType) -> u64 {
    match record_type {
        RecordType::FinalizedBatch => FINALIZED_RETENTION_SECS,
        RecordType::CancelledBatch => CANCELLED_RETENTION_SECS,
        RecordType::ExpiredAuditGrant => AUDIT_GRANT_RETENTION_SECS,
        RecordType::ChallengeRecord => CHALLENGE_RETENTION_SECS,
    }
}

impl RecordType {
    /// The number of the kind of record.
    pub fn code(&self) -> (code: u32)
        ensures
            code == record_type_code(*self),
    {
        match self {
            RecordType::FinalizedBatch => 0,
            RecordType::CancelledBatch => 1,
            RecordType::ExpiredAuditGrant => 2,
            RecordType::ChallengeRecord => 3,
        }
    }

    /// The name of the kind of record.
    pub fn name(&self) -> (name: &'static str)
        ensures
            name@ == record_type_name(*self),
    {
        match self {
            RecordType::FinalizedBatch => "finalized",
            RecordType::CancelledBatch => "cancelled",
            RecordType::ExpiredAuditGrant => "audit_grant",
            RecordType::ChallengeRecord => "challenge",
        }
    }

    /// The retention window of the kind of record where a company has no other.
    pub fn default_retention(&self) -> (window: u64)
        ensures
            window == default_window(*self),
    {
        match self {
            RecordType::FinalizedBatch => FINALIZED_RETENTION_SECS,
            RecordType::CancelledBatch => CANCELLED_RETENTION_SECS,
            RecordType::ExpiredAuditGrant => AUDIT_GRANT_RETENTION_SECS,
            RecordType::ChallengeRecord => CHALLENGE_RETENTION_SECS,
        }
    }
}

/// What protects a record beyond its window.
#[derive(Clone, Copy, Debug, PartialEq, Eq, Structural)]
pub enum BlockKind {
    /// An active audit grant.
    Audit,
    /// An open challenge.
    Challenge,
}

/// The name of a kind of block, which events carry.
pub open spec fn block_name(kind: BlockKind) -> Seq<char> {
    match kind {
        BlockKind::Audit => "audit"@,
        BlockKind::Challenge => "challenge"@,
    }
}

impl BlockKind {
    /// The name of the kind of block.
    pub fn name(&self) -> (name: &'static str)
        ensures
            name@ == block_name(*self),
    {
        match self {
            BlockKind::Audit => "audit",
            BlockKind::Challenge => "challenge",
        }
    }
}

/// A record under retention. Holds identifiers and times only.
#[derive(Clone, Copy, Debug, PartialEq, Eq, Structural)]
pub struct RetentionRecord {
    /// The record's identifier, chosen by the caller.
    pub record_id: u64,
    /// The record's kind.
    pub record_type: RecordType,
    /// Ledger time of the registration.
    pub registered_at: u64,
    /// Ledger time from which the record may be pruned.
    pub eligible_after: u64,
    /// Whether an audit protects the record.
    pub audit_block: bool,
    /// Whether a challenge protects the record.
    pub challenge_block: bool,
    /// Whether the record was pruned.
    pub pruned: bool,
}

impl RetentionRecord {
    /// Why the record cannot be pruned at `now`, if it cannot: the window counts
    /// before an audit, and an audit before a challenge.
    pub open spec fn protection(self, now: u64) -> Option<RetentionError> {
        if now < self.eligible_after {
            Some(RetentionError::RetentionWindowActive)
        } else if self.audit_block {
            Some(RetentionError::ActiveAuditBlock)
        } else if self.challenge_block {
            Some(RetentionError::ActiveChallengeBlock)
        } else {
            None
        }
    }

    /// The record with one of its blocks set or cleared.
    pub open spec fn with_block(self, kind: BlockKind, blocked: bool) -> RetentionRecord {
        match kind {
            BlockKind::Audit => RetentionRecord { audit_block: blocked, ..self },
            BlockKind::Challenge => RetentionRecord { challenge_block: blocked, ..self },
        }
    }
}

/// Storage keys.
#[derive(Clone, Copy, Debug, PartialEq, Eq, Structural)]
pub enum DataKey {
    /// The admin's address.
    Admin,
    /// The pause manager's address.
    PauseManager,
    /// A `RetentionRecord`, by company, identifier and kind.
    Record(u64, u64, u32),
    /// A window in seconds, by company and kind.
    RetentionOverride(u64, u32),
}

impl StorageKey for DataKey {
    fn same(&self, other: &Self) -> (equal: bool) {
        *self == *other
    }
}

/// The key that a record stands under.
pub open spec fn key_of_record(
    company_id: u64,
    record_id: u64,
    record_type: RecordType,
) -> DataKey {
    DataKey::Record(company_id, record_id, record_type_code(record_type))
}

/// Storage entries.
#[derive(Clone, Copy, Debug, PartialEq, Eq)]
pub enum DataEntry {
    /// Stands under `DataKey::Admin` and `DataKey::PauseManager`.
    Address(Address),
    /// Stands under `DataKey::Record`.
    Record(RetentionRecord),
    /// Stands under `DataKey::RetentionOverride`.
    Window(u64),
}

/// Whether `entry` may stand under `key`.
pub open spec fn entry_fits(key: DataKey, entry: DataEntry) -> bool {
    match (key, entry) {
        (DataKey::Admin, DataEntry::Address(_)) => true,
        (DataKey::PauseManager, DataEntry::Address(_)) => true,
        (DataKey::Record(_, record_id, code), DataEntry::Record(record)) => {
            &&& record.record_id == record_id
            &&& record_type_code(record.record_type) == code
            &&& record.registered_at <= record.eligible_after
        },
        (DataKey::RetentionOverride(_, _), DataEntry::Window(window)) => window != 0,
        _ => false,
    }
}

/// What the contract announces.
#[derive(Clone, Copy, Debug, PartialEq, Eq)]
pub enum RetentionEvent {
    /// The contract got its admin.
    Initialized { admin: Address },
    /// A record was registered.
    RecordRegistered {
        company_id: u64,
        record_id: u64,
        record_type: RecordType,
        eligible_after: u64,
    },
    /// A block was set or cleared.
    BlockChanged { company_id: u64, record_id: u64, kind: BlockKind, blocked: bool },
    /// A record was pruned.
    RecordPruned { company_id: u64, record_id: u64, record_type: RecordType, pruned_at: u64 },
}

/// What the contract holds, as a mathematical value.
#[verifier::ext_equal]
pub struct RetentionState {
    /// The stored entries.
    pub storage: Map<DataKey, DataEntry>,
    /// The events announced so far.
    pub events: Seq<RetentionEvent>,
}

impl RetentionState {
    /// Whether every entry fits its key.
    pub open spec fn well_typed(self) -> bool {
        forall|key: DataKey| #[trigger]
            self.storage.contains_key(key) ==> entry_fits(key, self.storage[key])
    }

    /// The admin.
    pub open spec fn admin(self) -> Option<Address> {
        if self.storage.contains_key(DataKey::Admin) {
            Some(self.storage[DataKey::Admin]->Address_0)
        } else {
            None
        }
    }

    /// Whether a pause manager is configured.
    pub open spec fn pause_configured(self) -> bool {
        self.storage.contains_key(DataKey::PauseManager)
    }

    /// The record of a company, identifier and kind.
    pub open spec fn record(
        self,
        company_id: u64,
        record_id: u64,
        record_type: RecordType,
    ) -> Option<RetentionRecord> {
        let key = key_of_record(company_id, record_id, record_type);
        if self.storage.contains_key(key) {
            Some(self.storage[key]->Record_0)
        } else {
            None
        }
    }

    /// The retention window of a company and kind.
    pub open spec fn window(self, company_id: u64, record_type: RecordType) -> u64 {
        let key = DataKey::RetentionOverride(company_id, record_type_code(record_type));
        if self.storage.contains_key(key) {
            self.storage[key]->Window_0
        } else {
            default_window(record_type)
        }
    }

    /// Whether the record may be pruned at `now`.
    pub open spec fn eligible(
        self,
        company_id: u64,
        record_id: u64,
        record_type: RecordType,
        now: u64,
    ) -> bool {
        self.record(company_id, record_id, record_type) matches Some(record) && !record.pruned
            && record.protection(now) is None
    }

    /// The abort of a call that only the admin may make, while not paused.
    pub open spec fn guard(self, call: Invocation) -> Option<Abort> {
        call.guard_abort(self.pause_configured(), self.admin())
    }

    /// The state with one entry written and one event announced.
    pub open spec fn wrote(self, key: DataKey, entry: DataEntry, event: RetentionEvent) -> Self {
        RetentionState { storage: self.storage.insert(key, entry), events: self.events.push(event) }
    }
}

// What each operation refuses, and what it leaves behind.
impl RetentionState {
    /// The abort of a registration, if it is aborted.
    pub open spec fn register_abort(
        self,
        call: Invocation,
        company_id: u64,
        record_type: RecordType,
    ) -> Option<Abort> {
        if let Some(abort) = self.guard(call) {
            Some(abort)
        } else if call.timestamp + self.window(company_id, record_type) > u64::MAX {
            Some(Abort::Overflow)
        } else {
            None
        }
    }

    /// The record that a registration makes.
    pub open spec fn fresh_record(
        self,
        call: Invocation,
        company_id: u64,
        record_id: u64,
        record_type: RecordType,
    ) -> RetentionRecord {
        RetentionRecord {
            record_id,
            record_type,
            registered_at: call.timestamp,
            eligible_after: (call.timestamp + self.window(company_id, record_type)) as u64,
            audit_block: false,
            challenge_block: false,
            pruned: false,
        }
    }

    /// The state after `record` was registered.
    pub open spec fn registered(self, company_id: u64, record: RetentionRecord) -> Self {
        self.wrote(
            key_of_record(company_id, record.record_id, record.record_type),
            DataEntry::Record(record),
            RetentionEvent::RecordRegistered {
                company_id,
                record_id: record.record_id,
                record_type: record.record_type,
                eligible_after: record.eligible_after,
            },
        )
    }

    /// How a call about a record fails before the record is looked at, if it
    /// does.
    pub open spec fn lookup_failure(
        self,
        call: Invocation,
        company_id: u64,
        record_id: u64,
        record_type: RecordType,
    ) -> Option<Failure<RetentionError>> {
        if let Some(abort) = self.guard(call) {
            Some(Failure::Abort(abort))
        } else if self.record(company_id, record_id, record_type) is None {
            Some(Failure::Error(RetentionError::RecordNotFound))
        } else {
            None
        }
    }

    /// The state after one of a record's blocks was set or cleared.
    pub open spec fn blocked(
        self,
        company_id: u64,
        record_id: u64,
        record_type: RecordType,
        kind: BlockKind,
        blocked: bool,
    ) -> Self {
        self.wrote(
            key_of_record(company_id, record_id, record_type),
            DataEntry::Record(
                self.record(company_id, record_id, record_type)->0.with_block(kind, blocked),
            ),
            RetentionEvent::BlockChanged { company_id, record_id, kind, blocked },
        )
    }

    /// How pruning fails, if it does. A record that was pruned is not looked at
    /// again.
    pub open spec fn prune_failure(
        self,
        call: Invocation,
        company_id: u64,
        record_id: u64,
        record_type: RecordType,
    ) -> Option<Failure<RetentionError>> {
        if let Some(failure) = self.lookup_failure(call, company_id, record_id, record_type) {
            Some(failure)
        } else {
            let record = self.record(company_id, record_id, record_type)->0;
            if record.pruned {
                None
            } else {
                match record.protection(call.timestamp) {
                    Some(error) => Some(Failure::Error(error)),
                    None => None,
                }
            }
        }
    }

    /// The state after the record was pruned.
    pub open spec fn after_pruning(
        self,
        call: Invocation,
        company_id: u64,
        record_id: u64,
        record_type: RecordType,
    ) -> Self {
        let record = self.record(company_id, record_id, record_type)->0;
        if record.pruned {
            self
        } else {
            self.wrote(
                key_of_record(company_id, record_id, record_type),
                DataEntry::Record(RetentionRecord { pruned: true, ..record }),
                RetentionEvent::RecordPruned {
                    company_id,
                    record_id,
                    record_type,
                    pruned_at: call.timestamp,
                },
            )
        }
    }

    /// The state after a company's window was set, or, with 0, given back.
    pub open spec fn overridden(
        self,
        company_id: u64,
        record_type: RecordType,
        window_secs: u64,
    ) -> Self {
        let key = DataKey::RetentionOverride(company_id, record_type_code(record_type));
        RetentionState {
            storage: if window_secs == 0 {
                self.storage.remove(key)
            } else {
                self.storage.insert(key, DataEntry::Window(window_secs))
            },
            ..self
        }
    }
}

/// The retention manager contract.
pub struct RetentionManagerContract {
    /// The stored entries.
    storage: Storage<DataKey, DataEntry>,
    /// The events announced so far.
    events: Vec<RetentionEvent>,
}

impl View for RetentionManagerContract {
    type V = RetentionState;

    closed spec fn view(&self) -> RetentionState {
        RetentionState { storage: self.storage@, events: self.events@ }
    }
}

impl RetentionManagerContract {
    /// Whether the storage's representation is sound.
    pub closed spec fn storage_sound(&self) -> bool {
        self.storage.wf()
    }

    /// Whether the storage is sound and every entry fits its key.
    pub open spec fn wf(&self) -> bool {
        self.storage_sound() && self@.well_typed()
    }

    /// The contract before its first call.
    pub fn new() -> (contract: Self)
        ensures
            contract.wf(),
            contract@ == (RetentionState {
                storage: Map::<DataKey, DataEntry>::empty(),
                events: Seq::<RetentionEvent>::empty(),
            }),
    {
        RetentionManagerContract { storage: Storage::new(), events: Vec::new() }
    }

    /// The entry under `key`, if there is one.
    pub fn entry(&self, key: &DataKey) -> (entry: Option<DataEntry>)
        requires
            self.wf(),
        ensures
            entry == (if self@.storage.contains_key(*key) {
                Some(self@.storage[*key])
            } else {
                None
            }),
    {
        self.storage.get(key)
    }

    /// The events announced so far.
    pub fn events(&self) -> (events: &Vec<RetentionEvent>)
        ensures
            events@ == self@.events,
    {
        &self.events
    }

    /// Puts back an entry that was read from the ledger. One that does not fit
    /// its key is left out.
    pub fn restore(&mut self, key: DataKey, entry: DataEntry) -> (restored: bool)
        requires
            old(self).wf(),
        ensures
            final(self).wf(),
            restored == entry_fits(key, entry),
            final(self)@ == (if restored {
                RetentionState { storage: old(self)@.storage.insert(key, entry), ..old(self)@ }
            } else {
                old(self)@
            }),
    {
        let fits = match (key, entry) {
            (DataKey::Admin, DataEntry::Address(_)) => true,
            (DataKey::PauseManager, DataEntry::Address(_)) => true,
            (DataKey::Record(_, record_id, code), DataEntry::Record(record)) => {
                record.record_id == record_id && record.record_type.code() == code
                    && record.registered_at <= record.eligible_after
            },
            (DataKey::RetentionOverride(_, _), DataEntry::Window(window)) => window != 0,
            _ => false,
        };
        if fits {
            self.write(key, entry);
        }
        fits
    }

    /// Makes `admin` the admin, once.
    pub fn initialize(&mut self, call: &Invocation, admin: Address) -> (result: Result<(), Abort>)
        requires
            old(self).wf(),
        ensures
            final(self).wf(),
            match call.initialize_abort(old(self)@.admin() is Some, admin) {
                Some(abort) => result == Err::<(), Abort>(abort) && final(self)@ == old(self)@,
                None => result == Ok::<(), Abort>(()) && final(self)@ == old(self)@.wrote(
                    DataKey::Admin,
                    DataEntry::Address(admin),
                    RetentionEvent::Initialized { admin },
                ),
            },
    {
        call.check_initialize(self.storage.has(&DataKey::Admin), &admin)?;
        self.write(DataKey::Admin, DataEntry::Address(admin));
        self.events.push(RetentionEvent::Initialized { admin });
        Ok(())
    }

    /// Sets or replaces the pause manager.
    pub fn set_pause_manager(&mut self, call: &Invocation, pause_manager: Address) -> (result:
        Result<(), Abort>)
        requires
            old(self).wf(),
        ensures
            final(self).wf(),
            match call.admin_abort(old(self)@.admin()) {
                Some(abort) => result == Err::<(), Abort>(abort) && final(self)@ == old(self)@,
                None => result == Ok::<(), Abort>(()) && final(self)@ == (RetentionState {
                    storage: old(self)@.storage.insert(
                        DataKey::PauseManager,
                        DataEntry::Address(pause_manager),
                    ),
                    ..old(self)@
                }),
            },
    {
        self.require_admin(call)?;
        self.write(DataKey::PauseManager, DataEntry::Address(pause_manager));
        Ok(())
    }

    /// Asks for the admin's authorization.
    pub fn require_admin(&self, call: &Invocation) -> (result: Result<(), Abort>)
        requires
            self.wf(),
        ensures
            result == (match call.admin_abort(self@.admin()) {
                Some(abort) => Err(abort),
                None => Ok(()),
            }),
    {
        let admin = match self.storage.get(&DataKey::Admin) {
            Some(DataEntry::Address(address)) => Some(address),
            _ => None,
        };
        call.check_admin(admin)
    }

    /// Asks the pause manager, where one is configured.
    pub fn require_not_paused(&self, call: &Invocation) -> (result: Result<(), Abort>)
        requires
            self.wf(),
        ensures
            result == (match call.pause_abort(self@.pause_configured()) {
                Some(abort) => Err(abort),
                None => Ok(()),
            }),
    {
        call.check_pause(self.storage.has(&DataKey::PauseManager))
    }

    /// Asks the pause manager, then for the admin's authorization.
    fn check_guard(&self, call: &Invocation) -> (result: Result<(), Abort>)
        requires
            self.wf(),
        ensures
            result == (match self@.guard(*call) {
                Some(abort) => Err(abort),
                None => Ok(()),
            }),
    {
        self.require_not_paused(call)?;
        self.require_admin(call)
    }

    /// Writes an entry that fits its key.
    fn write(&mut self, key: DataKey, entry: DataEntry)
        requires
            old(self).wf(),
            entry_fits(key, entry),
        ensures
            final(self).wf(),
            final(self)@ == (RetentionState {
                storage: old(self)@.storage.insert(key, entry),
                ..old(self)@
            }),
    {
        self.storage.set(key, entry);
        assert forall|k: DataKey| #[trigger] self@.storage.contains_key(k) implies entry_fits(
            k,
            self@.storage[k],
        ) by {
            if k != key {
                assert(old(self)@.storage.contains_key(k));
            }
        }
    }

    /// The key that a record stands under.
    pub fn record_key(company_id: u64, record_id: u64, record_type: &RecordType) -> (key: DataKey)
        ensures
            key == key_of_record(company_id, record_id, *record_type),
    {
        DataKey::Record(company_id, record_id, record_type.code())
    }

    /// The retention window of a company and kind of record: the company's own,
    /// where it has one.
    pub fn retention_window_for(&self, company_id: u64, record_type: &RecordType) -> (window: u64)
        requires
            self.wf(),
        ensures
            window == self@.window(company_id, *record_type),
    {
        match self.storage.get(&DataKey::RetentionOverride(company_id, record_type.code())) {
            Some(DataEntry::Window(window)) => window,
            _ => record_type.default_retention(),
        }
    }

    /// The record that a call is about, where the guard lets the call pass.
    fn load_record(
        &self,
        call: &Invocation,
        company_id: u64,
        record_id: u64,
        record_type: RecordType,
    ) -> (result: Result<RetentionRecord, Failure<RetentionError>>)
        requires
            self.wf(),
        ensures
            result == (match self@.lookup_failure(*call, company_id, record_id, record_type) {
                Some(failure) => Err(failure),
                None => Ok(self@.record(company_id, record_id, record_type)->0),
            }),
            result matches Ok(record) ==> entry_fits(
                key_of_record(company_id, record_id, record_type),
                DataEntry::Record(record),
            ),
    {
        if let Err(abort) = self.check_guard(call) {
            return Err(Failure::Abort(abort));
        }
        match self.get_record(company_id, record_id, record_type) {
            Some(record) => Ok(record),
            None => Err(Failure::Error(RetentionError::RecordNotFound)),
        }
    }

    /// Registers a record, which is kept from now on. A record that is there
    /// already starts anew.
    pub fn register_record(
        &mut self,
        call: &Invocation,
        company_id: u64,
        record_id: u64,
        record_type: RecordType,
    ) -> (result: Result<RetentionRecord, Abort>)
        requires
            old(self).wf(),
        ensures
            final(self).wf(),
            match old(self)@.register_abort(*call, company_id, record_type) {
                Some(abort) => {
                    &&& result == Err::<RetentionRecord, Abort>(abort)
                    &&& final(self)@ == old(self)@
                },
                None => {
                    let record = old(self)@.fresh_record(
                        *call,
                        company_id,
                        record_id,
                        record_type,
                    );
                    &&& result == Ok::<RetentionRecord, Abort>(record)
                    &&& final(self)@ == old(self)@.registered(company_id, record)
                },
            },
    {
        self.check_guard(call)?;
        let now: u64 = call.timestamp;
        let window: u64 = self.retention_window_for(company_id, &record_type);
        if window > u64::MAX - now {
            return Err(Abort::Overflow);
        }
        let eligible_after: u64 = now + window;
        let record = RetentionRecord {
            record_id,
            record_type,
            registered_at: now,
            eligible_after,
            audit_block: false,
            challenge_block: false,
            pruned: false,
        };
        self.write(
            Self::record_key(company_id, record_id, &record_type),
            DataEntry::Record(record),
        );
        self.events.push(
            RetentionEvent::RecordRegistered { company_id, record_id, record_type, eligible_after },
        );
        Ok(record)
    }

    /// Sets or clears one of a record's blocks.
    fn set_block(
        &mut self,
        call: &Invocation,
        company_id: u64,
        record_id: u64,
        record_type: RecordType,
        kind: BlockKind,
        blocked: bool,
    ) -> (result: Result<RetentionRecord, Failure<RetentionError>>)
        requires
            old(self).wf(),
        ensures
            final(self).wf(),
            match old(self)@.lookup_failure(*call, company_id, record_id, record_type) {
                Some(failure) => {
                    &&& result == Err::<RetentionRecord, Failure<RetentionError>>(failure)
                    &&& final(self)@ == old(self)@
                },
                None => {
                    &&& result == Ok::<RetentionRecord, Failure<RetentionError>>(
                        old(self)@.record(company_id, record_id, record_type)->0.with_block(
                            kind,
                            blocked,
                        ),
                    )
                    &&& final(self)@ == old(self)@.blocked(
                        company_id,
                        record_id,
                        record_type,
                        kind,
                        blocked,
                    )
                },
            },
    {
        let mut record = self.load_record(call, company_id, record_id, record_type)?;
        match kind {
            BlockKind::Audit => {
                record.audit_block = blocked;
            },
            BlockKind::Challenge => {
                record.challenge_block = blocked;
            },
        }
        self.write(
            Self::record_key(company_id, record_id, &record_type),
            DataEntry::Record(record),
        );
        self.events.push(RetentionEvent::BlockChanged { company_id, record_id, kind, blocked });
        Ok(record)
    }

    /// Sets or clears a record's audit block. A blocked record is not pruned,
    /// whatever its window.
    pub fn set_audit_block(
        &mut self,
        call: &Invocation,
        company_id: u64,
        record_id: u64,
        record_type: RecordType,
        blocked: bool,
    ) -> (result: Result<RetentionRecord, Failure<RetentionError>>)
        requires
            old(self).wf(),
        ensures
            final(self).wf(),
            match old(self)@.lookup_failure(*call, company_id, record_id, record_type) {
                Some(failure) => {
                    &&& result == Err::<RetentionRecord, Failure<RetentionError>>(failure)
                    &&& final(self)@ == old(self)@
                },
                None => {
                    &&& result == Ok::<RetentionRecord, Failure<RetentionError>>(
                        old(self)@.record(company_id, record_id, record_type)->0.with_block(
                            BlockKind::Audit,
                            blocked,
                        ),
                    )
                    &&& final(self)@ == old(self)@.blocked(
                        company_id,
                        record_id,
                        record_type,
                        BlockKind::Audit,
                        blocked,
                    )
                },
            },
    {
        self.set_block(call, company_id, record_id, record_type, BlockKind::Audit, blocked)
    }

    /// Sets or clears a record's challenge block. A blocked record is not
    /// pruned, whatever its window.
    pub fn set_challenge_block(
        &mut self,
        call: &Invocation,
        company_id: u64,
        record_id: u64,
        record_type: RecordType,
        blocked: bool,
    ) -> (result: Result<RetentionRecord, Failure<RetentionError>>)
        requires
            old(self).wf(),
        ensures
            final(self).wf(),
            match old(self)@.lookup_failure(*call, company_id, record_id, record_type) {
                Some(failure) => {
                    &&& result == Err::<RetentionRecord, Failure<RetentionError>>(failure)
                    &&& final(self)@ == old(self)@
                },
                None => {
                    &&& result == Ok::<RetentionRecord, Failure<RetentionError>>(
                        old(self)@.record(company_id, record_id, record_type)->0.with_block(
                            BlockKind::Challenge,
                            blocked,
                        ),
                    )
                    &&& final(self)@ == old(self)@.blocked(
                        company_id,
                        record_id,
                        record_type,
                        BlockKind::Challenge,
                        blocked,
                    )
                },
            },
    {
        self.set_block(call, company_id, record_id, record_type, BlockKind::Challenge, blocked)
    }

    /// Prunes a record: marks it as pruned and announces it. Pruning a record
    /// again does nothing.
    pub fn prune_record(
        &mut self,
        call: &Invocation,
        company_id: u64,
        record_id: u64,
        record_type: RecordType,
    ) -> (result: Result<(), Failure<RetentionError>>)
        requires
            old(self).wf(),
        ensures
            final(self).wf(),
            match old(self)@.prune_failure(*call, company_id, record_id, record_type) {
                Some(failure) => {
                    &&& result == Err::<(), Failure<RetentionError>>(failure)
                    &&& final(self)@ == old(self)@
                },
                None => {
                    &&& result == Ok::<(), Failure<RetentionError>>(())
                    &&& final(self)@ == old(self)@.after_pruning(
                        *call,
                        company_id,
                        record_id,
                        record_type,
                    )
                },
            },
    {
        let mut record = self.load_record(call, company_id, record_id, record_type)?;
        if record.pruned {
            return Ok(());
        }
        let now: u64 = call.timestamp;
        if now < record.eligible_after {
            return Err(Failure::Error(RetentionError::RetentionWindowActive));
        }
        if record.audit_block {
            return Err(Failure::Error(RetentionError::ActiveAuditBlock));
        }
        if record.challenge_block {
            return Err(Failure::Error(RetentionError::ActiveChallengeBlock));
        }
        record.pruned = true;
        self.write(
            Self::record_key(company_id, record_id, &record_type),
            DataEntry::Record(record),
        );
        self.events.push(
            RetentionEvent::RecordPruned { company_id, record_id, record_type, pruned_at: now },
        );
        Ok(())
    }

    /// Sets a company's own window for a kind of record. A window of 0 gives the
    /// company the default again.
    pub fn set_retention_override(
        &mut self,
        call: &Invocation,
        company_id: u64,
        record_type: RecordType,
        window_secs: u64,
    ) -> (result: Result<(), Abort>)
        requires
            old(self).wf(),
        ensures
            final(self).wf(),
            match old(self)@.guard(*call) {
                Some(abort) => result == Err::<(), Abort>(abort) && final(self)@ == old(self)@,
                None => {
                    &&& result == Ok::<(), Abort>(())
                    &&& final(self)@ == old(self)@.overridden(company_id, record_type, window_secs)
                },
            },
    {
        self.check_guard(call)?;
        let key = DataKey::RetentionOverride(company_id, record_type.code());
        if window_secs == 0 {
            self.storage.remove(&key);
            assert forall|k: DataKey| #[trigger] self@.storage.contains_key(k) implies entry_fits(
                k,
                self@.storage[k],
            ) by {
                assert(old(self)@.storage.contains_key(k));
            }
        } else {
            self.write(key, DataEntry::Window(window_secs));
        }
        Ok(())
    }

    /// The record of a company, identifier and kind, if it is registered.
    pub fn get_record(&self, company_id: u64, record_id: u64, record_type: RecordType) -> (record:
        Option<RetentionRecord>)
        requires
            self.wf(),
        ensures
            record == self@.record(company_id, record_id, record_type),
    {
        match self.storage.get(&Self::record_key(company_id, record_id, &record_type)) {
            Some(DataEntry::Record(record)) => Some(record),
            _ => None,
        }
    }

    /// Whether the record may be pruned now.
    pub fn is_eligible_for_pruning(
        &self,
        call: &Invocation,
        company_id: u64,
        record_id: u64,
        record_type: RecordType,
    ) -> (eligible: bool)
        requires
            self.wf(),
        ensures
            eligible == self@.eligible(company_id, record_id, record_type, call.timestamp),
    {
        match self.get_record(company_id, record_id, record_type) {
            Some(record) => {
                !record.pruned && !record.audit_block && !record.challenge_block && call.timestamp
                    >= record.eligible_after
            },
            None => false,
        }
    }
}

} // verus!
