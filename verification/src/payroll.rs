//! The payroll contract's records: what it holds of its admin, its runs and
//! their reviews, and what it announces.

pub mod audit;
pub mod events;
pub mod obligations;
pub mod reconciliation;
pub mod reviews;
pub mod signing;

use crate::host::Address;
use crate::payroll::events::PayrollEvent;
use crate::payroll::reviews::{OverpaymentReview, ReviewDataKey};
use crate::storage::{Storage, StorageKey};
use vstd::prelude::*;

verus! {

/// Storage keys.
#[derive(Clone, Copy, Debug, PartialEq, Eq, Structural)]
pub enum DataKey {
    /// The `ContractAddresses`.
    Addresses,
    /// A payroll run, by its identifier.
    PayrollRun(u64),
    /// What the reviews keep.
    Review(ReviewDataKey),
}

impl StorageKey for DataKey {
    fn same(&self, other: &Self) -> (equal: bool) {
        *self == *other
    }
}

/// The addresses that the contract was set up with.
#[derive(Clone, Copy, Debug, PartialEq, Eq)]
pub struct ContractAddresses {
    /// Who opens and resolves reviews.
    pub admin: Address,
}

/// Storage entries.
#[derive(Clone, Copy, Debug, PartialEq, Eq)]
pub enum DataEntry {
    /// Stands under `DataKey::Addresses`.
    Addresses(ContractAddresses),
    /// Stands under `DataKey::PayrollRun`: the run has happened. What it paid is
    /// not kept here.
    Run,
    /// Stands under `ReviewDataKey::ReviewCounter`.
    Counter(u64),
    /// Stands under `ReviewDataKey::OverpaymentReview`.
    Review(OverpaymentReview),
}

/// Whether `entry` may stand under `key`.
pub open spec fn entry_fits(key: DataKey, entry: DataEntry) -> bool {
    match (key, entry) {
        (DataKey::Addresses, DataEntry::Addresses(_)) => true,
        (DataKey::PayrollRun(_), DataEntry::Run) => true,
        (DataKey::Review(ReviewDataKey::ReviewCounter), DataEntry::Counter(_)) => true,
        (
            DataKey::Review(ReviewDataKey::OverpaymentReview(run_id)),
            DataEntry::Review(review),
        ) => review.run_id == run_id && review.consistent(),
        _ => false,
    }
}

/// What the contract holds, as a mathematical value.
#[verifier::ext_equal]
pub struct PayrollState {
    /// The stored entries.
    pub storage: Map<DataKey, DataEntry>,
    /// The events announced so far.
    pub events: Seq<PayrollEvent>,
}

impl PayrollState {
    /// Whether every entry fits its key.
    pub open spec fn well_typed(self) -> bool {
        forall|key: DataKey| #[trigger]
            self.storage.contains_key(key) ==> entry_fits(key, self.storage[key])
    }

    /// The admin.
    pub open spec fn admin(self) -> Option<Address> {
        if self.storage.contains_key(DataKey::Addresses) {
            Some(self.storage[DataKey::Addresses]->Addresses_0.admin)
        } else {
            None
        }
    }

    /// Whether there is a run of that identifier.
    pub open spec fn has_run(self, run_id: u64) -> bool {
        self.storage.contains_key(DataKey::PayrollRun(run_id))
    }

    /// The state with one event announced.
    pub open spec fn announced(self, event: PayrollEvent) -> Self {
        PayrollState { events: self.events.push(event), ..self }
    }
}

/// The payroll contract's records.
pub struct Payroll {
    /// The stored entries.
    storage: Storage<DataKey, DataEntry>,
    /// The events announced so far.
    events: Vec<PayrollEvent>,
}

impl View for Payroll {
    type V = PayrollState;

    closed spec fn view(&self) -> PayrollState {
        PayrollState { storage: self.storage@, events: self.events@ }
    }
}

impl Payroll {
    /// Whether the storage's representation is sound.
    pub closed spec fn storage_sound(&self) -> bool {
        self.storage.wf()
    }

    /// Whether the storage is sound and every entry fits its key.
    pub open spec fn wf(&self) -> bool {
        self.storage_sound() && self@.well_typed()
    }

    /// Records without entries.
    pub fn new() -> (payroll: Self)
        ensures
            payroll.wf(),
            payroll@ == (PayrollState {
                storage: Map::<DataKey, DataEntry>::empty(),
                events: Seq::<PayrollEvent>::empty(),
            }),
    {
        Payroll { storage: Storage::new(), events: Vec::new() }
    }

    /// The entry under `key`, if there is one.
    pub fn entry(&self, key: &DataKey) -> (entry: Option<DataEntry>)
        requires
            self.wf(),
        ensures
            entry == (if self@.storage.contains_key(*key) {
                Some(self@.storage[*key])
            } else {
                None
            }),
    {
        self.storage.get(key)
    }

    /// The events announced so far.
    pub fn events(&self) -> (events: &Vec<PayrollEvent>)
        ensures
            events@ == self@.events,
    {
        &self.events
    }

    /// Puts back an entry that was read from the ledger. One that does not fit
    /// its key is left out.
    pub fn restore(&mut self, key: DataKey, entry: DataEntry) -> (restored: bool)
        requires
            old(self).wf(),
        ensures
            final(self).wf(),
            restored == entry_fits(key, entry),
            final(self)@ == (if restored {
                PayrollState { storage: old(self)@.storage.insert(key, entry), ..old(self)@ }
            } else {
                old(self)@
            }),
    {
        let fits = match (key, entry) {
            (DataKey::Addresses, DataEntry::Addresses(_)) => true,
            (DataKey::PayrollRun(_), DataEntry::Run) => true,
            (DataKey::Review(ReviewDataKey::ReviewCounter), DataEntry::Counter(_)) => true,
            (
                DataKey::Review(ReviewDataKey::OverpaymentReview(run_id)),
                DataEntry::Review(review),
            ) => review.run_id == run_id && review.is_consistent(),
            _ => false,
        };
        if fits {
            self.write(key, entry);
        }
        fits
    }

    /// Writes an entry that fits its key.
    pub(crate) fn write(&mut self, key: DataKey, entry: DataEntry)
        requires
            old(self).wf(),
            entry_fits(key, entry),
        ensures
            final(self).wf(),
            final(self)@ == (PayrollState {
                storage: old(self)@.storage.insert(key, entry),
                ..old(self)@
            }),
    {
        self.storage.set(key, entry);
        assert forall|k: DataKey| #[trigger] self@.storage.contains_key(k) implies entry_fits(
            k,
            self@.storage[k],
        ) by {
            if k != key {
                assert(old(self)@.storage.contains_key(k));
            }
        }
    }
}

} // verus!
