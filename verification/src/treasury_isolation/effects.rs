//! What each call of the treasury isolation contract does, said of the stored
//! entries themselves: when it succeeds, which answer each refusal gets, which
//! numbers it leaves, and what it does not touch.

use super::laws::Operation;
use super::{
    AssetBalance, DataEntry, DataKey, RegisteredAsset, TreasuryEvent, TreasuryIsolationContract,
    TreasuryIsolationError, TreasuryState,
};
use crate::host::{Abort, Address, Failure, Invocation, Symbol};
use vstd::prelude::*;

verus! {

/// Whether a configured pause manager holds the contract.
pub open spec fn held(s: TreasuryState, call: Invocation) -> bool {
    s.storage.contains_key(DataKey::PauseManager) && call.paused
}

/// Whether there is an admin among those who authorized the call.
pub open spec fn signed(s: TreasuryState, call: Invocation) -> bool {
    &&& s.storage.contains_key(DataKey::Admin)
    &&& s.storage[DataKey::Admin] matches DataEntry::Address(admin)
    &&& call.authorizers@.contains(admin)
}

/// Whether the two states have the same entries but under `keys`.
pub open spec fn same_but(s: TreasuryState, t: TreasuryState, keys: Set<DataKey>) -> bool {
    forall|k: DataKey|
        #![trigger t.storage.contains_key(k)]
        #![trigger t.storage[k]]
        !keys.contains(k) ==> {
            &&& t.storage.contains_key(k) == s.storage.contains_key(k)
            &&& s.storage.contains_key(k) ==> t.storage[k] == s.storage[k]
        }
}

/// Whether the failure is that error.
pub open spec fn refused(
    failure: Option<Failure<TreasuryIsolationError>>,
    error: TreasuryIsolationError,
) -> bool {
    failure == Some(Failure::Error(error))
}

/// Whether the failure is that abort.
pub open spec fn aborted(failure: Option<Failure<TreasuryIsolationError>>, abort: Abort) -> bool {
    failure == Some(Failure::<TreasuryIsolationError>::Abort(abort))
}

/// What an entry must be to stand under a key.
pub proof fn lemma_entries_that_fit(key: DataKey, entry: DataEntry)
    ensures
        super::entry_fits(key, entry) <==> match key {
            DataKey::Admin => entry is Address,
            DataKey::PauseManager => entry is Address,
            DataKey::IssuerIndex(_, _) => entry is Address,
            DataKey::RegisteredAsset(_, asset) => entry matches DataEntry::Asset(record)
                && record.asset == asset,
            DataKey::Balance(_, asset) => {
                &&& entry matches DataEntry::Balance(balance)
                &&& balance.asset == asset
                &&& 0 <= balance.reserved
                &&& balance.reserved <= balance.balance
            },
        },
{
}

/// What the queries answer is what is stored.
pub proof fn lemma_queries(s: TreasuryState, company_id: u64, address: Address)
    requires
        s.well_typed(),
    ensures
        ({
            let key = DataKey::Balance(company_id, address);
            match s.balance(company_id, address) {
                Some(balance) => s.storage.contains_key(key) && s.storage[key]
                    == DataEntry::Balance(balance),
                None => !s.storage.contains_key(key),
            }
        }),
        ({
            let key = DataKey::RegisteredAsset(company_id, address);
            match s.registered(company_id, address) {
                Some(record) => s.storage.contains_key(key) && s.storage[key] == DataEntry::Asset(
                    record,
                ),
                None => !s.storage.contains_key(key),
            }
        }),
        ({
            let key = DataKey::IssuerIndex(company_id, address);
            match s.asset_of_issuer(company_id, address) {
                Some(asset) => s.storage.contains_key(key) && s.storage[key] == DataEntry::Address(
                    asset,
                ),
                None => !s.storage.contains_key(key),
            }
        }),
{
    let balance = DataKey::Balance(company_id, address);
    if s.storage.contains_key(balance) {
        assert(super::entry_fits(balance, s.storage[balance]));
    }
    let registered = DataKey::RegisteredAsset(company_id, address);
    if s.storage.contains_key(registered) {
        assert(super::entry_fits(registered, s.storage[registered]));
    }
    let issuer = DataKey::IssuerIndex(company_id, address);
    if s.storage.contains_key(issuer) {
        assert(super::entry_fits(issuer, s.storage[issuer]));
    }
}

/// Naming the admin succeeds exactly when there is none and the admin to be
/// authorized the call; it stores and announces that admin and nothing else.
pub proof fn lemma_initialize_effect(s: TreasuryState, call: Invocation, admin: Address)
    ensures
        ({
            let op = Operation::Initialize { admin };
            let t = s.after(call, op);
            let failure = s.failure(call, op);
            let present = s.storage.contains_key(DataKey::Admin);
            &&& failure is None <==> !present && call.authorizers@.contains(admin)
            &&& aborted(failure, Abort::AlreadyInitialized) <==> present
            &&& aborted(failure, Abort::NotAuthorized) <==> !present
                && !call.authorizers@.contains(admin)
            &&& failure is Some ==> t == s
            &&& failure is None ==> {
                &&& t.storage.contains_key(DataKey::Admin)
                &&& t.storage[DataKey::Admin] == DataEntry::Address(admin)
                &&& same_but(s, t, set![DataKey::Admin])
                &&& t.events == s.events.push(TreasuryEvent::Initialized { admin })
            }
        }),
{
}

/// Setting the pause manager succeeds exactly when the admin authorized the
/// call, paused or not; it stores that address, and announces nothing.
pub proof fn lemma_set_pause_manager_effect(
    s: TreasuryState,
    call: Invocation,
    pause_manager: Address,
)
    requires
        s.well_typed(),
    ensures
        ({
            let op = Operation::SetPauseManager { pause_manager };
            let t = s.after(call, op);
            let failure = s.failure(call, op);
            &&& failure is None <==> signed(s, call)
            &&& aborted(failure, Abort::NotInitialized) <==> !s.storage.contains_key(DataKey::Admin)
            &&& aborted(failure, Abort::NotAuthorized) <==> s.storage.contains_key(DataKey::Admin)
                && !signed(s, call)
            &&& failure is Some ==> t == s
            &&& failure is None ==> {
                &&& t.storage.contains_key(DataKey::PauseManager)
                &&& t.storage[DataKey::PauseManager] == DataEntry::Address(pause_manager)
                &&& same_but(s, t, set![DataKey::PauseManager])
                &&& t.events == s.events
            }
        }),
{
    if s.storage.contains_key(DataKey::Admin) {
        assert(super::entry_fits(DataKey::Admin, s.storage[DataKey::Admin]));
    }
}

/// Who is let through: a pause holds every call about an asset, and the admin
/// must have authorized it. A call is aborted for that alone, or for a credit
/// that does not fit the balance.
pub proof fn lemma_guarded(s: TreasuryState, call: Invocation, op: Operation)
    requires
        s.well_typed(),
        !(op is Initialize || op is SetPauseManager),
    ensures
        ({
            let failure = s.failure(call, op);
            let present = s.storage.contains_key(DataKey::Admin);
            &&& aborted(failure, Abort::Paused) <==> held(s, call)
            &&& aborted(failure, Abort::NotInitialized) <==> !held(s, call) && !present
            &&& aborted(failure, Abort::NotAuthorized) <==> !held(s, call) && present && !signed(
                s,
                call,
            )
            &&& failure matches Some(Failure::Abort(abort)) ==> abort is Paused
                || abort is NotInitialized || abort is NotAuthorized || (op is Credit
                && abort is Overflow)
            &&& failure is Some ==> s.after(call, op) == s
        }),
{
    if s.storage.contains_key(DataKey::Admin) {
        assert(super::entry_fits(DataKey::Admin, s.storage[DataKey::Admin]));
    }
}

/// A registration that the guard lets pass succeeds exactly when the company has
/// no registration of the asset and the issuer has no other asset of the
/// company. Nothing else counts: the asset may be its own issuer, as the native
/// asset is.
pub proof fn lemma_register_outcome(
    s: TreasuryState,
    call: Invocation,
    company_id: u64,
    asset: Address,
    issuer: Address,
    symbol: Symbol,
)
    requires
        s.well_typed(),
        signed(s, call),
        !held(s, call),
    ensures
        ({
            let op = Operation::Register { company_id, asset, issuer, symbol };
            let failure = s.failure(call, op);
            let known = s.storage.contains_key(DataKey::RegisteredAsset(company_id, asset));
            let index = DataKey::IssuerIndex(company_id, issuer);
            let taken = s.storage.contains_key(index) && s.storage[index] != DataEntry::Address(
                asset,
            );
            &&& failure is None <==> !known && !taken
            &&& refused(failure, TreasuryIsolationError::AssetAlreadyRegistered) <==> known
            &&& refused(failure, TreasuryIsolationError::IssuerMismatch) <==> !known && taken
        }),
{
    lemma_queries(s, company_id, asset);
    lemma_queries(s, company_id, issuer);
}

/// Whether the company has registered neither the asset nor any asset of the
/// issuer.
pub open spec fn unregistered(
    s: TreasuryState,
    company_id: u64,
    asset: Address,
    issuer: Address,
) -> bool {
    &&& !s.storage.contains_key(DataKey::RegisteredAsset(company_id, asset))
    &&& forall|other: Address| #[trigger]
        s.storage.contains_key(DataKey::RegisteredAsset(company_id, other)) ==> s.storage[
            DataKey::RegisteredAsset(company_id, other)]->Asset_0.issuer != issuer
}

/// In a reachable state the same said of the registrations alone: a registration
/// that the guard lets pass succeeds exactly when the company has registered
/// neither the asset nor any asset of the issuer.
pub proof fn lemma_register_outcome_by_registrations(
    s: TreasuryState,
    call: Invocation,
    company_id: u64,
    asset: Address,
    issuer: Address,
    symbol: Symbol,
)
    requires
        s.inv(),
        signed(s, call),
        !held(s, call),
    ensures
        s.failure(call, Operation::Register { company_id, asset, issuer, symbol }) is None
            <==> unregistered(s, company_id, asset, issuer),
{
    let passes = s.failure(call, Operation::Register { company_id, asset, issuer, symbol }) is None;
    lemma_register_outcome(s, call, company_id, asset, issuer, symbol);
    lemma_queries(s, company_id, issuer);
    lemma_queries(s, company_id, asset);
    if passes {
        assert forall|other: Address|
            #[trigger] s.storage.contains_key(
                DataKey::RegisteredAsset(company_id, other),
            ) implies s.storage[DataKey::RegisteredAsset(company_id, other)]->Asset_0.issuer
            != issuer by {
            lemma_queries(s, company_id, other);
            assert(s.registered(company_id, other) is Some);
        }
    } else if let Some(known) = s.asset_of_issuer(company_id, issuer) {
        lemma_queries(s, company_id, known);
        assert(s.registered(company_id, known) is Some);
        assert(s.storage.contains_key(DataKey::RegisteredAsset(company_id, known)));
    }
}

/// A registration stores and announces the asset with the issuer and symbol it
/// was given and the ledger time, starts its balance at zero, and enters it for
/// its issuer. It touches nothing else.
pub proof fn lemma_register_effect(
    s: TreasuryState,
    call: Invocation,
    company_id: u64,
    asset: Address,
    issuer: Address,
    symbol: Symbol,
)
    requires
        s.failure(call, Operation::Register { company_id, asset, issuer, symbol }) is None,
    ensures
        ({
            let t = s.after(call, Operation::Register { company_id, asset, issuer, symbol });
            let registration = DataKey::RegisteredAsset(company_id, asset);
            let index = DataKey::IssuerIndex(company_id, issuer);
            let account = DataKey::Balance(company_id, asset);
            &&& t.storage.contains_key(registration)
            &&& t.storage[registration] == DataEntry::Asset(
                RegisteredAsset { asset, issuer, symbol, registered_at: call.timestamp },
            )
            &&& t.storage.contains_key(index)
            &&& t.storage[index] == DataEntry::Address(asset)
            &&& t.storage.contains_key(account)
            &&& t.storage[account] == DataEntry::Balance(
                AssetBalance { asset, balance: 0, reserved: 0 },
            )
            &&& same_but(s, t, set![registration, index, account])
            &&& t.events == s.events.push(
                TreasuryEvent::AssetRegistered { company_id, asset, issuer, symbol },
            )
        }),
{
}

/// The company, asset and amount of a call that changes a balance.
pub open spec fn change(op: Operation) -> Option<(u64, Address, i128)> {
    match op {
        Operation::Credit { company_id, asset, amount } => Some((company_id, asset, amount)),
        Operation::Reserve { company_id, asset, amount } => Some((company_id, asset, amount)),
        Operation::Release { company_id, asset, amount } => Some((company_id, asset, amount)),
        Operation::Debit { company_id, treasury_asset, amount, .. } => Some(
            (company_id, treasury_asset, amount),
        ),
        _ => None,
    }
}

/// When a call that the guard lets pass changes a balance: the amount must be
/// above zero and the asset have a balance. A credit needs room in the balance,
/// a reservation `balance - reserved >= amount`, a release `reserved >= amount`,
/// a debit that both assets are one and that balance and reserve each hold the
/// amount. Nothing else counts.
pub proof fn lemma_change_outcome(
    s: TreasuryState,
    call: Invocation,
    op: Operation,
    company_id: u64,
    asset: Address,
    amount: i128,
    account: AssetBalance,
)
    requires
        s.well_typed(),
        signed(s, call),
        !held(s, call),
        change(op) == Some((company_id, asset, amount)),
        s.storage.contains_key(DataKey::Balance(company_id, asset)) ==> s.storage[
            DataKey::Balance(company_id, asset)] == DataEntry::Balance(account),
    ensures
        ({
            let failure = s.failure(call, op);
            let crossed = op matches Operation::Debit { committed_asset, .. } && committed_asset
                != asset;
            let invalid = !crossed && amount <= 0;
            let unknown = !crossed && !invalid && !s.storage.contains_key(
                DataKey::Balance(company_id, asset),
            );
            let usable = !crossed && !invalid && !unknown;
            let full = op is Credit && account.balance + amount > i128::MAX;
            let poor = (op is Reserve && account.balance - account.reserved < amount) || (
            op is Debit && account.balance < amount);
            let unreserved = !poor && (op is Release || op is Debit) && account.reserved < amount;
            &&& failure is None <==> usable && !full && !poor && !unreserved
            &&& refused(failure, TreasuryIsolationError::AssetMismatch) <==> crossed
            &&& refused(failure, TreasuryIsolationError::InvalidAmount) <==> invalid
            &&& refused(failure, TreasuryIsolationError::AssetNotRegistered) <==> unknown
            &&& aborted(failure, Abort::Overflow) <==> usable && full
            &&& refused(failure, TreasuryIsolationError::InsufficientBalance) <==> usable && poor
            &&& refused(failure, TreasuryIsolationError::InsufficientReserve) <==> usable
                && unreserved
        }),
{
    lemma_queries(s, company_id, asset);
}

/// For an asset with a balance and an amount above zero, where the guard passes,
/// the treasury is ready and a reservation succeeds exactly when
/// `balance - reserved >= amount`.
pub proof fn lemma_reserve_within_available(
    s: TreasuryState,
    call: Invocation,
    company_id: u64,
    asset: Address,
    amount: i128,
    account: AssetBalance,
)
    requires
        s.well_typed(),
        signed(s, call),
        !held(s, call),
        amount > 0,
        s.storage.contains_key(DataKey::Balance(company_id, asset)),
        s.storage[DataKey::Balance(company_id, asset)] == DataEntry::Balance(account),
    ensures
        s.ready(company_id, asset, amount) <==> account.balance - account.reserved >= amount,
        s.failure(call, Operation::Reserve { company_id, asset, amount }) is None
            <==> account.balance - account.reserved >= amount,
{
    lemma_change_outcome(
        s,
        call,
        Operation::Reserve { company_id, asset, amount },
        company_id,
        asset,
        amount,
        account,
    );
}

/// The treasury is ready for an amount, of whatever sign, exactly when the asset
/// has a balance and `balance - reserved` reaches the amount.
pub proof fn lemma_readiness(s: TreasuryState, company_id: u64, asset: Address, required: i128)
    requires
        s.well_typed(),
    ensures
        s.ready(company_id, asset, required) <==> {
            &&& s.storage.contains_key(DataKey::Balance(company_id, asset))
            &&& s.storage[DataKey::Balance(company_id, asset)] matches DataEntry::Balance(account)
            &&& account.balance - account.reserved >= required
        },
{
    lemma_queries(s, company_id, asset);
}

/// What a successful call makes of a balance: a credit raises the balance by the
/// amount, a reservation raises the reserve, a release lowers it, a debit lowers
/// both. It touches no other entry, and announces the amount.
pub proof fn lemma_change_effect(
    s: TreasuryState,
    call: Invocation,
    op: Operation,
    company_id: u64,
    asset: Address,
    amount: i128,
)
    requires
        s.well_typed(),
        change(op) == Some((company_id, asset, amount)),
        s.failure(call, op) is None,
    ensures
        ({
            let t = s.after(call, op);
            let key = DataKey::Balance(company_id, asset);
            &&& s.storage.contains_key(key) && t.storage.contains_key(key)
            &&& s.storage[key] matches DataEntry::Balance(before)
            &&& t.storage[key] matches DataEntry::Balance(after)
            &&& after.asset == asset
            &&& after.balance - before.balance == (if op is Credit {
                amount as int
            } else if op is Debit {
                -amount
            } else {
                0
            })
            &&& after.reserved - before.reserved == (if op is Reserve {
                amount as int
            } else if op is Credit {
                0
            } else {
                -amount
            })
            &&& same_but(s, t, set![key])
            &&& t.events == s.events.push(
                match op {
                    Operation::Credit { .. } => TreasuryEvent::Credited {
                        company_id,
                        asset,
                        amount,
                    },
                    Operation::Reserve { .. } => TreasuryEvent::Reserved {
                        company_id,
                        asset,
                        amount,
                    },
                    Operation::Release { .. } => TreasuryEvent::ReserveReleased {
                        company_id,
                        asset,
                        amount,
                    },
                    _ => TreasuryEvent::Debited { company_id, asset, amount },
                },
            )
        }),
{
    lemma_queries(s, company_id, asset);
    let key = DataKey::Balance(company_id, asset);
    assert(super::entry_fits(key, s.storage[key]));
}

/// Makes one call. What the contract does is what the laws say of `failure` and
/// `after`.
pub fn apply(contract: &mut TreasuryIsolationContract, call: &Invocation, op: Operation) -> (result:
    Result<(), Failure<TreasuryIsolationError>>)
    requires
        old(contract).wf(),
    ensures
        final(contract).wf(),
        final(contract)@ == old(contract)@.after(*call, op),
        result == (match old(contract)@.failure(*call, op) {
            Some(failure) => Err(failure),
            None => Ok(()),
        }),
{
    match op {
        Operation::Initialize { admin } => match contract.initialize(call, admin) {
            Ok(()) => Ok(()),
            Err(abort) => Err(Failure::Abort(abort)),
        },
        Operation::SetPauseManager { pause_manager } => match contract.set_pause_manager(
            call,
            pause_manager,
        ) {
            Ok(()) => Ok(()),
            Err(abort) => Err(Failure::Abort(abort)),
        },
        Operation::Register { company_id, asset, issuer, symbol } => {
            let record = contract.register_asset(call, company_id, asset, issuer, symbol)?;
            assert(DataEntry::Asset(record) == contract@.storage[DataKey::RegisteredAsset(
                company_id,
                asset,
            )]);
            Ok(())
        },
        Operation::Credit { company_id, asset, amount } => {
            let balance = contract.credit(call, company_id, asset, amount)?;
            assert(DataEntry::Balance(balance) == contract@.storage[DataKey::Balance(
                company_id,
                asset,
            )]) by {
                lemma_change_effect(old(contract)@, *call, op, company_id, asset, amount);
            }
            Ok(())
        },
        Operation::Reserve { company_id, asset, amount } => {
            let balance = contract.reserve(call, company_id, asset, amount)?;
            assert(DataEntry::Balance(balance) == contract@.storage[DataKey::Balance(
                company_id,
                asset,
            )]) by {
                lemma_change_effect(old(contract)@, *call, op, company_id, asset, amount);
            }
            Ok(())
        },
        Operation::Release { company_id, asset, amount } => {
            let balance = contract.release_reserve(call, company_id, asset, amount)?;
            assert(DataEntry::Balance(balance) == contract@.storage[DataKey::Balance(
                company_id,
                asset,
            )]) by {
                lemma_change_effect(old(contract)@, *call, op, company_id, asset, amount);
            }
            Ok(())
        },
        Operation::Debit { company_id, committed_asset, treasury_asset, amount } => {
            let balance = contract.execute_debit(
                call,
                company_id,
                committed_asset,
                treasury_asset,
                amount,
            )?;
            assert(DataEntry::Balance(balance) == contract@.storage[DataKey::Balance(
                company_id,
                treasury_asset,
            )]) by {
                lemma_change_effect(old(contract)@, *call, op, company_id, treasury_asset, amount);
            }
            Ok(())
        },
    }
}

} // verus!
