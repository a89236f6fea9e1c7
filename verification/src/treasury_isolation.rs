//! Treasury accounting by asset: a balance and a reserve for every company and
//! asset, so that payroll funded in one asset never draws on another.
//!
//! An asset is identified by the address of its token contract. An issuer has
//! at most one asset registered per company.

pub mod effects;
pub mod laws;

use crate::host::{Abort, Address, Failure, Invocation, Symbol};
use crate::storage::{Storage, StorageKey};
use vstd::prelude::*;

verus! {

/// What the contract answers to a call that it refuses.
#[derive(Clone, Copy, Debug, PartialEq, Eq, Structural)]
pub enum TreasuryIsolationError {
    /// The contract has no admin yet.
    NotInitialized,
    /// The asset is not registered for the company.
    AssetNotRegistered,
    /// The asset is registered for the company already.
    AssetAlreadyRegistered,
    /// The committed asset is not the treasury asset.
    AssetMismatch,
    /// The amount exceeds what is available.
    InsufficientBalance,
    /// The amount exceeds what is reserved.
    InsufficientReserve,
    /// The caller may not do this.
    Unauthorized,
    /// The issuer has another asset registered for the company.
    IssuerMismatch,
    /// The amount is not positive.
    InvalidAmount,
}

/// The number that clients classify an error by.
pub open spec fn error_code(error: TreasuryIsolationError) -> u32 {
    match error {
        TreasuryIsolationError::NotInitialized => 1,
        TreasuryIsolationError::AssetNotRegistered => 2,
        TreasuryIsolationError::AssetAlreadyRegistered => 3,
        TreasuryIsolationError::AssetMismatch => 4,
        TreasuryIsolationError::InsufficientBalance => 5,
        TreasuryIsolationError::InsufficientReserve => 6,
        TreasuryIsolationError::Unauthorized => 7,
        TreasuryIsolationError::IssuerMismatch => 8,
        TreasuryIsolationError::InvalidAmount => 9,
    }
}

impl TreasuryIsolationError {
    /// The number that clients classify the error by.
    pub fn code(&self) -> (code: u32)
        ensures
            code == error_code(*self),
    {
        match self {
            TreasuryIsolationError::NotInitialized => 1,
            TreasuryIsolationError::AssetNotRegistered => 2,
            TreasuryIsolationError::AssetAlreadyRegistered => 3,
            TreasuryIsolationError::AssetMismatch => 4,
            TreasuryIsolationError::InsufficientBalance => 5,
            TreasuryIsolationError::InsufficientReserve => 6,
            TreasuryIsolationError::Unauthorized => 7,
            TreasuryIsolationError::IssuerMismatch => 8,
            TreasuryIsolationError::InvalidAmount => 9,
        }
    }
}

/// What a company holds of one asset, in raw token units.
#[derive(Clone, Copy, Debug, PartialEq, Eq)]
pub struct AssetBalance {
    /// The asset's token contract.
    pub asset: Address,
    /// Everything credited and not yet debited.
    pub balance: i128,
    /// The part of it that is set aside for batches in flight.
    pub reserved: i128,
}

impl AssetBalance {
    /// What can still be reserved.
    pub open spec fn available(self) -> int {
        self.balance - self.reserved
    }

    /// Whether the reserve is covered by the balance.
    pub open spec fn covered(self) -> bool {
        0 <= self.reserved <= self.balance
    }
}

/// An asset registered for a company.
#[derive(Clone, Copy, Debug, PartialEq, Eq)]
pub struct RegisteredAsset {
    /// The asset's token contract.
    pub asset: Address,
    /// The asset's issuer.
    pub issuer: Address,
    /// A readable name, for indexing.
    pub symbol: Symbol,
    /// Ledger time of the registration.
    pub registered_at: u64,
}

/// Storage keys.
#[derive(Clone, Copy, Debug, PartialEq, Eq)]
pub enum DataKey {
    /// The admin's address.
    Admin,
    /// The pause manager's address.
    PauseManager,
    /// An `AssetBalance`, by company and asset.
    Balance(u64, Address),
    /// A `RegisteredAsset`, by company and asset.
    RegisteredAsset(u64, Address),
    /// The asset of an issuer, by company and issuer.
    IssuerIndex(u64, Address),
}

impl StorageKey for DataKey {
    fn same(&self, other: &Self) -> (equal: bool) {
        match (self, other) {
            (DataKey::Admin, DataKey::Admin) => true,
            (DataKey::PauseManager, DataKey::PauseManager) => true,
            (DataKey::Balance(c, a), DataKey::Balance(d, b)) => *c == *d && a.same(b),
            (DataKey::RegisteredAsset(c, a), DataKey::RegisteredAsset(d, b)) => *c == *d && a.same(
                b,
            ),
            (DataKey::IssuerIndex(c, a), DataKey::IssuerIndex(d, b)) => *c == *d && a.same(b),
            _ => false,
        }
    }
}

/// Storage entries.
#[derive(Clone, Copy, Debug, PartialEq, Eq)]
pub enum DataEntry {
    /// Stands under `DataKey::Admin`, `DataKey::PauseManager` and
    /// `DataKey::IssuerIndex`.
    Address(Address),
    /// Stands under `DataKey::Balance`.
    Balance(AssetBalance),
    /// Stands under `DataKey::RegisteredAsset`.
    Asset(RegisteredAsset),
}

/// Whether `entry` may stand under `key`.
pub open spec fn entry_fits(key: DataKey, entry: DataEntry) -> bool {
    match (key, entry) {
        (DataKey::Admin, DataEntry::Address(_)) => true,
        (DataKey::PauseManager, DataEntry::Address(_)) => true,
        (DataKey::Balance(_, asset), DataEntry::Balance(balance)) => balance.asset == asset
            && balance.covered(),
        (DataKey::RegisteredAsset(_, asset), DataEntry::Asset(record)) => record.asset == asset,
        (DataKey::IssuerIndex(_, _), DataEntry::Address(_)) => true,
        _ => false,
    }
}

/// What the contract announces. Every event about an asset names it.
#[derive(Clone, Copy, Debug, PartialEq, Eq)]
pub enum TreasuryEvent {
    /// The contract got its admin.
    Initialized { admin: Address },
    /// An asset was registered.
    AssetRegistered { company_id: u64, asset: Address, issuer: Address, symbol: Symbol },
    /// A balance rose.
    Credited { company_id: u64, asset: Address, amount: i128 },
    /// A reserve rose.
    Reserved { company_id: u64, asset: Address, amount: i128 },
    /// A reserve fell.
    ReserveReleased { company_id: u64, asset: Address, amount: i128 },
    /// A balance fell, with its reserve.
    Debited { company_id: u64, asset: Address, amount: i128 },
}

/// What the contract holds, as a mathematical value.
#[verifier::ext_equal]
pub struct TreasuryState {
    /// The stored entries.
    pub storage: Map<DataKey, DataEntry>,
    /// The events announced so far.
    pub events: Seq<TreasuryEvent>,
}

impl TreasuryState {
    /// Whether every entry fits its key.
    pub open spec fn well_typed(self) -> bool {
        forall|key: DataKey| #[trigger]
            self.storage.contains_key(key) ==> entry_fits(key, self.storage[key])
    }

    /// The admin.
    pub open spec fn admin(self) -> Option<Address> {
        if self.storage.contains_key(DataKey::Admin) {
            Some(self.storage[DataKey::Admin]->Address_0)
        } else {
            None
        }
    }

    /// Whether a pause manager is configured.
    pub open spec fn pause_configured(self) -> bool {
        self.storage.contains_key(DataKey::PauseManager)
    }

    /// The balance of a company and asset.
    pub open spec fn balance(self, company_id: u64, asset: Address) -> Option<AssetBalance> {
        let key = DataKey::Balance(company_id, asset);
        if self.storage.contains_key(key) {
            Some(self.storage[key]->Balance_0)
        } else {
            None
        }
    }

    /// The registration of a company and asset.
    pub open spec fn registered(self, company_id: u64, asset: Address) -> Option<RegisteredAsset> {
        let key = DataKey::RegisteredAsset(company_id, asset);
        if self.storage.contains_key(key) {
            Some(self.storage[key]->Asset_0)
        } else {
            None
        }
    }

    /// The asset of an issuer within a company.
    pub open spec fn asset_of_issuer(self, company_id: u64, issuer: Address) -> Option<Address> {
        let key = DataKey::IssuerIndex(company_id, issuer);
        if self.storage.contains_key(key) {
            Some(self.storage[key]->Address_0)
        } else {
            None
        }
    }

    /// The abort of a call that only the admin may make, while not paused.
    pub open spec fn guard(self, call: Invocation) -> Option<Abort> {
        call.guard_abort(self.pause_configured(), self.admin())
    }

    /// The state with one entry written and one event announced.
    pub open spec fn wrote(self, key: DataKey, entry: DataEntry, event: TreasuryEvent) -> Self {
        TreasuryState { storage: self.storage.insert(key, entry), events: self.events.push(event) }
    }

    /// The state with a balance written and one event announced.
    pub open spec fn rebalanced(
        self,
        company_id: u64,
        balance: AssetBalance,
        event: TreasuryEvent,
    ) -> Self {
        self.wrote(
            DataKey::Balance(company_id, balance.asset),
            DataEntry::Balance(balance),
            event,
        )
    }
}

// What each operation refuses, and what it leaves behind.
impl TreasuryState {
    /// How registering an asset fails, if it does.
    pub open spec fn register_failure(
        self,
        call: Invocation,
        company_id: u64,
        asset: Address,
        issuer: Address,
    ) -> Option<Failure<TreasuryIsolationError>> {
        if let Some(abort) = self.guard(call) {
            Some(Failure::Abort(abort))
        } else if self.registered(company_id, asset) is Some {
            Some(Failure::Error(TreasuryIsolationError::AssetAlreadyRegistered))
        } else if self.asset_of_issuer(company_id, issuer) matches Some(other) && other != asset {
            Some(Failure::Error(TreasuryIsolationError::IssuerMismatch))
        } else {
            None
        }
    }

    /// The state after `record` was registered, with nothing credited yet.
    pub open spec fn after_registration(self, company_id: u64, record: RegisteredAsset) -> Self {
        TreasuryState {
            storage: self.storage.insert(
                DataKey::RegisteredAsset(company_id, record.asset),
                DataEntry::Asset(record),
            ).insert(
                DataKey::IssuerIndex(company_id, record.issuer),
                DataEntry::Address(record.asset),
            ).insert(
                DataKey::Balance(company_id, record.asset),
                DataEntry::Balance(AssetBalance { asset: record.asset, balance: 0, reserved: 0 }),
            ),
            events: self.events.push(
                TreasuryEvent::AssetRegistered {
                    company_id,
                    asset: record.asset,
                    issuer: record.issuer,
                    symbol: record.symbol,
                },
            ),
        }
    }

    /// How a change of a balance by `amount` fails before the balance is looked
    /// at, if it does.
    pub open spec fn amount_failure(
        self,
        call: Invocation,
        company_id: u64,
        asset: Address,
        amount: i128,
    ) -> Option<Failure<TreasuryIsolationError>> {
        if let Some(abort) = self.guard(call) {
            Some(Failure::Abort(abort))
        } else if amount <= 0 {
            Some(Failure::Error(TreasuryIsolationError::InvalidAmount))
        } else if self.balance(company_id, asset) is None {
            Some(Failure::Error(TreasuryIsolationError::AssetNotRegistered))
        } else {
            None
        }
    }

    /// How crediting fails, if it does.
    pub open spec fn credit_failure(
        self,
        call: Invocation,
        company_id: u64,
        asset: Address,
        amount: i128,
    ) -> Option<Failure<TreasuryIsolationError>> {
        if let Some(failure) = self.amount_failure(call, company_id, asset, amount) {
            Some(failure)
        } else if self.balance(company_id, asset)->0.balance + amount > i128::MAX {
            Some(Failure::Abort(Abort::Overflow))
        } else {
            None
        }
    }

    /// How reserving fails, if it does.
    pub open spec fn reserve_failure(
        self,
        call: Invocation,
        company_id: u64,
        asset: Address,
        amount: i128,
    ) -> Option<Failure<TreasuryIsolationError>> {
        if let Some(failure) = self.amount_failure(call, company_id, asset, amount) {
            Some(failure)
        } else if self.balance(company_id, asset)->0.available() < amount {
            Some(Failure::Error(TreasuryIsolationError::InsufficientBalance))
        } else {
            None
        }
    }

    /// How releasing a reserve fails, if it does.
    pub open spec fn release_failure(
        self,
        call: Invocation,
        company_id: u64,
        asset: Address,
        amount: i128,
    ) -> Option<Failure<TreasuryIsolationError>> {
        if let Some(failure) = self.amount_failure(call, company_id, asset, amount) {
            Some(failure)
        } else if self.balance(company_id, asset)->0.reserved < amount {
            Some(Failure::Error(TreasuryIsolationError::InsufficientReserve))
        } else {
            None
        }
    }

    /// How debiting fails, if it does. The assets are compared before anything
    /// else but the guard.
    pub open spec fn debit_failure(
        self,
        call: Invocation,
        company_id: u64,
        committed_asset: Address,
        treasury_asset: Address,
        amount: i128,
    ) -> Option<Failure<TreasuryIsolationError>> {
        if let Some(abort) = self.guard(call) {
            Some(Failure::Abort(abort))
        } else if committed_asset != treasury_asset {
            Some(Failure::Error(TreasuryIsolationError::AssetMismatch))
        } else if let Some(failure) = self.amount_failure(
            call,
            company_id,
            treasury_asset,
            amount,
        ) {
            Some(failure)
        } else if self.balance(company_id, treasury_asset)->0.balance < amount {
            Some(Failure::Error(TreasuryIsolationError::InsufficientBalance))
        } else if self.balance(company_id, treasury_asset)->0.reserved < amount {
            Some(Failure::Error(TreasuryIsolationError::InsufficientReserve))
        } else {
            None
        }
    }

    /// The balance after a credit.
    pub open spec fn credited(self, company_id: u64, asset: Address, amount: i128) -> AssetBalance {
        let before = self.balance(company_id, asset)->0;
        AssetBalance { balance: (before.balance + amount) as i128, ..before }
    }

    /// The balance after a reservation.
    pub open spec fn with_reserve(
        self,
        company_id: u64,
        asset: Address,
        amount: i128,
    ) -> AssetBalance {
        let before = self.balance(company_id, asset)->0;
        AssetBalance { reserved: (before.reserved + amount) as i128, ..before }
    }

    /// The balance after a release.
    pub open spec fn without_reserve(
        self,
        company_id: u64,
        asset: Address,
        amount: i128,
    ) -> AssetBalance {
        let before = self.balance(company_id, asset)->0;
        AssetBalance { reserved: (before.reserved - amount) as i128, ..before }
    }

    /// The balance after a debit.
    pub open spec fn debited(self, company_id: u64, asset: Address, amount: i128) -> AssetBalance {
        let before = self.balance(company_id, asset)->0;
        AssetBalance {
            balance: (before.balance - amount) as i128,
            reserved: (before.reserved - amount) as i128,
            ..before
        }
    }

    /// Whether `required_amount` of the asset is available to the company.
    pub open spec fn ready(self, company_id: u64, asset: Address, required_amount: i128) -> bool {
        self.balance(company_id, asset) matches Some(balance) && balance.available()
            >= required_amount
    }
}

/// The treasury isolation contract.
pub struct TreasuryIsolationContract {
    /// The stored entries.
    storage: Storage<DataKey, DataEntry>,
    /// The events announced so far.
    events: Vec<TreasuryEvent>,
}

impl View for TreasuryIsolationContract {
    type V = TreasuryState;

    closed spec fn view(&self) -> TreasuryState {
        TreasuryState { storage: self.storage@, events: self.events@ }
    }
}

impl TreasuryIsolationContract {
    /// Whether the storage's representation is sound.
    pub closed spec fn storage_sound(&self) -> bool {
        self.storage.wf()
    }

    /// Whether the storage is sound and every entry fits its key.
    pub open spec fn wf(&self) -> bool {
        self.storage_sound() && self@.well_typed()
    }

    /// The contract before its first call.
    pub fn new() -> (contract: Self)
        ensures
            contract.wf(),
            contract@ == (TreasuryState {
                storage: Map::<DataKey, DataEntry>::empty(),
                events: Seq::<TreasuryEvent>::empty(),
            }),
    {
        TreasuryIsolationContract { storage: Storage::new(), events: Vec::new() }
    }

    /// The entry under `key`, if there is one.
    pub fn entry(&self, key: &DataKey) -> (entry: Option<DataEntry>)
        requires
            self.wf(),
        ensures
            entry == (if self@.storage.contains_key(*key) {
                Some(self@.storage[*key])
            } else {
                None
            }),
    {
        self.storage.get(key)
    }

    /// The events announced so far.
    pub fn events(&self) -> (events: &Vec<TreasuryEvent>)
        ensures
            events@ == self@.events,
    {
        &self.events
    }

    /// Puts back an entry that was read from the ledger. One that does not fit
    /// its key is left out.
    pub fn restore(&mut self, key: DataKey, entry: DataEntry) -> (restored: bool)
        requires
            old(self).wf(),
        ensures
            final(self).wf(),
            restored == entry_fits(key, entry),
            final(self)@ == (if restored {
                TreasuryState { storage: old(self)@.storage.insert(key, entry), ..old(self)@ }
            } else {
                old(self)@
            }),
    {
        let fits = match (key, entry) {
            (DataKey::Admin, DataEntry::Address(_)) => true,
            (DataKey::PauseManager, DataEntry::Address(_)) => true,
            (DataKey::Balance(_, asset), DataEntry::Balance(balance)) => {
                balance.asset.same(&asset) && 0 <= balance.reserved && balance.reserved
                    <= balance.balance
            },
            (DataKey::RegisteredAsset(_, asset), DataEntry::Asset(record)) => record.asset.same(
                &asset,
            ),
            (DataKey::IssuerIndex(_, _), DataEntry::Address(_)) => true,
            _ => false,
        };
        if fits {
            self.write(key, entry);
        }
        fits
    }

    /// Makes `admin` the admin, once.
    pub fn initialize(&mut self, call: &Invocation, admin: Address) -> (result: Result<(), Abort>)
        requires
            old(self).wf(),
        ensures
            final(self).wf(),
            match call.initialize_abort(old(self)@.admin() is Some, admin) {
                Some(abort) => result == Err::<(), Abort>(abort) && final(self)@ == old(self)@,
                None => result == Ok::<(), Abort>(()) && final(self)@ == old(self)@.wrote(
                    DataKey::Admin,
                    DataEntry::Address(admin),
                    TreasuryEvent::Initialized { admin },
                ),
            },
    {
        call.check_initialize(self.storage.has(&DataKey::Admin), &admin)?;
        self.write(DataKey::Admin, DataEntry::Address(admin));
        self.events.push(TreasuryEvent::Initialized { admin });
        Ok(())
    }

    /// Sets or replaces the pause manager.
    pub fn set_pause_manager(&mut self, call: &Invocation, pause_manager: Address) -> (result:
        Result<(), Abort>)
        requires
            old(self).wf(),
        ensures
            final(self).wf(),
            match call.admin_abort(old(self)@.admin()) {
                Some(abort) => result == Err::<(), Abort>(abort) && final(self)@ == old(self)@,
                None => result == Ok::<(), Abort>(()) && final(self)@ == (TreasuryState {
                    storage: old(self)@.storage.insert(
                        DataKey::PauseManager,
                        DataEntry::Address(pause_manager),
                    ),
                    ..old(self)@
                }),
            },
    {
        self.require_admin(call)?;
        self.write(DataKey::PauseManager, DataEntry::Address(pause_manager));
        Ok(())
    }

    /// Asks for the admin's authorization.
    pub fn require_admin(&self, call: &Invocation) -> (result: Result<(), Abort>)
        requires
            self.wf(),
        ensures
            result == (match call.admin_abort(self@.admin()) {
                Some(abort) => Err(abort),
                None => Ok(()),
            }),
    {
        let admin = match self.storage.get(&DataKey::Admin) {
            Some(DataEntry::Address(address)) => Some(address),
            _ => None,
        };
        call.check_admin(admin)
    }

    /// Asks the pause manager, where one is configured.
    pub fn require_not_paused(&self, call: &Invocation) -> (result: Result<(), Abort>)
        requires
            self.wf(),
        ensures
            result == (match call.pause_abort(self@.pause_configured()) {
                Some(abort) => Err(abort),
                None => Ok(()),
            }),
    {
        call.check_pause(self.storage.has(&DataKey::PauseManager))
    }

    /// Asks the pause manager, then for the admin's authorization.
    fn check_guard(&self, call: &Invocation) -> (result: Result<
        (),
        Failure<TreasuryIsolationError>,
    >)
        requires
            self.wf(),
        ensures
            result == (match self@.guard(*call) {
                Some(abort) => Err(Failure::<TreasuryIsolationError>::Abort(abort)),
                None => Ok(()),
            }),
    {
        if let Err(abort) = self.require_not_paused(call) {
            return Err(Failure::Abort(abort));
        }
        match self.require_admin(call) {
            Err(abort) => Err(Failure::Abort(abort)),
            Ok(()) => Ok(()),
        }
    }

    /// Writes an entry that fits its key.
    fn write(&mut self, key: DataKey, entry: DataEntry)
        requires
            old(self).wf(),
            entry_fits(key, entry),
        ensures
            final(self).wf(),
            final(self)@ == (TreasuryState {
                storage: old(self)@.storage.insert(key, entry),
                ..old(self)@
            }),
    {
        self.storage.set(key, entry);
        assert forall|k: DataKey| #[trigger] self@.storage.contains_key(k) implies entry_fits(
            k,
            self@.storage[k],
        ) by {
            if k != key {
                assert(old(self)@.storage.contains_key(k));
            }
        }
    }

    /// The balance of a company and asset.
    fn load_balance(&self, company_id: u64, asset: &Address) -> (result: Result<
        AssetBalance,
        TreasuryIsolationError,
    >)
        requires
            self.wf(),
        ensures
            result == (match self@.balance(company_id, *asset) {
                Some(balance) => Ok(balance),
                None => Err(TreasuryIsolationError::AssetNotRegistered),
            }),
            result matches Ok(balance) ==> balance.asset == *asset && balance.covered(),
    {
        match self.storage.get(&DataKey::Balance(company_id, *asset)) {
            Some(DataEntry::Balance(balance)) => Ok(balance),
            _ => Err(TreasuryIsolationError::AssetNotRegistered),
        }
    }

    /// Writes a balance under its company and asset.
    fn save_balance(&mut self, company_id: u64, balance: &AssetBalance)
        requires
            old(self).wf(),
            balance.covered(),
        ensures
            final(self).wf(),
            final(self)@ == (TreasuryState {
                storage: old(self)@.storage.insert(
                    DataKey::Balance(company_id, balance.asset),
                    DataEntry::Balance(*balance),
                ),
                ..old(self)@
            }),
    {
        self.write(DataKey::Balance(company_id, balance.asset), DataEntry::Balance(*balance));
    }

    /// The balance that `amount` is to change, where the guard lets the call
    /// pass and the amount is positive.
    fn load_for_change(
        &self,
        call: &Invocation,
        company_id: u64,
        asset: &Address,
        amount: i128,
    ) -> (result: Result<AssetBalance, Failure<TreasuryIsolationError>>)
        requires
            self.wf(),
        ensures
            result == (match self@.amount_failure(*call, company_id, *asset, amount) {
                Some(failure) => Err(failure),
                None => Ok(self@.balance(company_id, *asset)->0),
            }),
            result matches Ok(balance) ==> balance.asset == *asset && balance.covered(),
    {
        self.check_guard(call)?;
        if amount <= 0 {
            return Err(Failure::Error(TreasuryIsolationError::InvalidAmount));
        }
        match self.load_balance(company_id, asset) {
            Ok(balance) => Ok(balance),
            Err(error) => Err(Failure::Error(error)),
        }
    }

    /// Registers an asset for a company, with a balance of zero. An asset is
    /// registered once per company, and an issuer has one asset per company.
    pub fn register_asset(
        &mut self,
        call: &Invocation,
        company_id: u64,
        asset: Address,
        issuer: Address,
        symbol: Symbol,
    ) -> (result: Result<RegisteredAsset, Failure<TreasuryIsolationError>>)
        requires
            old(self).wf(),
        ensures
            final(self).wf(),
            match old(self)@.register_failure(*call, company_id, asset, issuer) {
                Some(failure) => {
                    &&& result == Err::<RegisteredAsset, Failure<TreasuryIsolationError>>(failure)
                    &&& final(self)@ == old(self)@
                },
                None => {
                    let record = RegisteredAsset {
                        asset,
                        issuer,
                        symbol,
                        registered_at: call.timestamp,
                    };
                    &&& result == Ok::<RegisteredAsset, Failure<TreasuryIsolationError>>(record)
                    &&& final(self)@ == old(self)@.after_registration(company_id, record)
                },
            },
    {
        self.check_guard(call)?;
        if self.storage.has(&DataKey::RegisteredAsset(company_id, asset)) {
            return Err(Failure::Error(TreasuryIsolationError::AssetAlreadyRegistered));
        }
        if let Some(DataEntry::Address(existing)) = self.storage.get(
            &DataKey::IssuerIndex(company_id, issuer),
        ) {
            if !existing.same(&asset) {
                return Err(Failure::Error(TreasuryIsolationError::IssuerMismatch));
            }
        }
        let record = RegisteredAsset { asset, issuer, symbol, registered_at: call.timestamp };
        self.write(DataKey::RegisteredAsset(company_id, asset), DataEntry::Asset(record));
        self.write(DataKey::IssuerIndex(company_id, issuer), DataEntry::Address(asset));
        self.save_balance(company_id, &AssetBalance { asset, balance: 0, reserved: 0 });
        self.events.push(TreasuryEvent::AssetRegistered { company_id, asset, issuer, symbol });
        Ok(record)
    }

    /// Credits `amount` to a company's balance of an asset. The token transfer
    /// itself happens elsewhere.
    pub fn credit(
        &mut self,
        call: &Invocation,
        company_id: u64,
        asset: Address,
        amount: i128,
    ) -> (result: Result<AssetBalance, Failure<TreasuryIsolationError>>)
        requires
            old(self).wf(),
        ensures
            final(self).wf(),
            match old(self)@.credit_failure(*call, company_id, asset, amount) {
                Some(failure) => {
                    &&& result == Err::<AssetBalance, Failure<TreasuryIsolationError>>(failure)
                    &&& final(self)@ == old(self)@
                },
                None => {
                    let balance = old(self)@.credited(company_id, asset, amount);
                    &&& result == Ok::<AssetBalance, Failure<TreasuryIsolationError>>(balance)
                    &&& final(self)@ == old(self)@.rebalanced(
                        company_id,
                        balance,
                        TreasuryEvent::Credited { company_id, asset, amount },
                    )
                },
            },
    {
        let mut balance = self.load_for_change(call, company_id, &asset, amount)?;
        if balance.balance > i128::MAX - amount {
            return Err(Failure::Abort(Abort::Overflow));
        }
        balance.balance += amount;
        self.save_balance(company_id, &balance);
        self.events.push(TreasuryEvent::Credited { company_id, asset, amount });
        Ok(balance)
    }

    /// Sets `amount` of what is available of an asset aside for a batch in flight.
    pub fn reserve(
        &mut self,
        call: &Invocation,
        company_id: u64,
        asset: Address,
        amount: i128,
    ) -> (result: Result<AssetBalance, Failure<TreasuryIsolationError>>)
        requires
            old(self).wf(),
        ensures
            final(self).wf(),
            match old(self)@.reserve_failure(*call, company_id, asset, amount) {
                Some(failure) => {
                    &&& result == Err::<AssetBalance, Failure<TreasuryIsolationError>>(failure)
                    &&& final(self)@ == old(self)@
                },
                None => {
                    let balance = old(self)@.with_reserve(company_id, asset, amount);
                    &&& result == Ok::<AssetBalance, Failure<TreasuryIsolationError>>(balance)
                    &&& final(self)@ == old(self)@.rebalanced(
                        company_id,
                        balance,
                        TreasuryEvent::Reserved { company_id, asset, amount },
                    )
                },
            },
    {
        let mut balance = self.load_for_change(call, company_id, &asset, amount)?;
        if balance.balance - balance.reserved < amount {
            return Err(Failure::Error(TreasuryIsolationError::InsufficientBalance));
        }
        balance.reserved += amount;
        self.save_balance(company_id, &balance);
        self.events.push(TreasuryEvent::Reserved { company_id, asset, amount });
        Ok(balance)
    }

    /// Releases `amount` of what is set aside of an asset.
    pub fn release_reserve(
        &mut self,
        call: &Invocation,
        company_id: u64,
        asset: Address,
        amount: i128,
    ) -> (result: Result<AssetBalance, Failure<TreasuryIsolationError>>)
        requires
            old(self).wf(),
        ensures
            final(self).wf(),
            match old(self)@.release_failure(*call, company_id, asset, amount) {
                Some(failure) => {
                    &&& result == Err::<AssetBalance, Failure<TreasuryIsolationError>>(failure)
                    &&& final(self)@ == old(self)@
                },
                None => {
                    let balance = old(self)@.without_reserve(company_id, asset, amount);
                    &&& result == Ok::<AssetBalance, Failure<TreasuryIsolationError>>(balance)
                    &&& final(self)@ == old(self)@.rebalanced(
                        company_id,
                        balance,
                        TreasuryEvent::ReserveReleased { company_id, asset, amount },
                    )
                },
            },
    {
        let mut balance = self.load_for_change(call, company_id, &asset, amount)?;
        if balance.reserved < amount {
            return Err(Failure::Error(TreasuryIsolationError::InsufficientReserve));
        }
        balance.reserved -= amount;
        self.save_balance(company_id, &balance);
        self.events.push(TreasuryEvent::ReserveReleased { company_id, asset, amount });
        Ok(balance)
    }

    /// Takes `amount` from a company's balance and reserve of an asset, on
    /// execution. The asset committed to the batch must be the asset debited.
    pub fn execute_debit(
        &mut self,
        call: &Invocation,
        company_id: u64,
        committed_asset: Address,
        treasury_asset: Address,
        amount: i128,
    ) -> (result: Result<AssetBalance, Failure<TreasuryIsolationError>>)
        requires
            old(self).wf(),
        ensures
            final(self).wf(),
            match old(self)@.debit_failure(
                *call,
                company_id,
                committed_asset,
                treasury_asset,
                amount,
            ) {
                Some(failure) => {
                    &&& result == Err::<AssetBalance, Failure<TreasuryIsolationError>>(failure)
                    &&& final(self)@ == old(self)@
                },
                None => {
                    let balance = old(self)@.debited(company_id, treasury_asset, amount);
                    &&& result == Ok::<AssetBalance, Failure<TreasuryIsolationError>>(balance)
                    &&& final(self)@ == old(self)@.rebalanced(
                        company_id,
                        balance,
                        TreasuryEvent::Debited { company_id, asset: treasury_asset, amount },
                    )
                },
            },
    {
        self.check_guard(call)?;
        if !committed_asset.same(&treasury_asset) {
            return Err(Failure::Error(TreasuryIsolationError::AssetMismatch));
        }
        let mut balance = self.load_for_change(call, company_id, &treasury_asset, amount)?;
        if balance.balance < amount {
            return Err(Failure::Error(TreasuryIsolationError::InsufficientBalance));
        }
        if balance.reserved < amount {
            return Err(Failure::Error(TreasuryIsolationError::InsufficientReserve));
        }
        balance.balance -= amount;
        balance.reserved -= amount;
        self.save_balance(company_id, &balance);
        self.events.push(TreasuryEvent::Debited { company_id, asset: treasury_asset, amount });
        Ok(balance)
    }

    /// Whether `required_amount` of an asset is available to the company: the
    /// asset is registered, and its balance less its reserve is enough.
    pub fn is_treasury_ready(
        &self,
        company_id: u64,
        asset: Address,
        required_amount: i128,
    ) -> (ready: bool)
        requires
            self.wf(),
        ensures
            ready == self@.ready(company_id, asset, required_amount),
    {
        match self.load_balance(company_id, &asset) {
            Ok(balance) => balance.balance - balance.reserved >= required_amount,
            Err(_) => false,
        }
    }

    /// The balance of a company and asset, if there is one.
    pub fn get_balance(&self, company_id: u64, asset: Address) -> (balance: Option<AssetBalance>)
        requires
            self.wf(),
        ensures
            balance == self@.balance(company_id, asset),
    {
        match self.storage.get(&DataKey::Balance(company_id, asset)) {
            Some(DataEntry::Balance(balance)) => Some(balance),
            _ => None,
        }
    }

    /// The registration of a company and asset, if there is one.
    pub fn get_registered_asset(&self, company_id: u64, asset: Address) -> (record: Option<
        RegisteredAsset,
    >)
        requires
            self.wf(),
        ensures
            record == self@.registered(company_id, asset),
    {
        match self.storage.get(&DataKey::RegisteredAsset(company_id, asset)) {
            Some(DataEntry::Asset(record)) => Some(record),
            _ => None,
        }
    }
}

} // verus!
