//! What holds of treasury accounting across calls.

use super::{
    DataEntry, DataKey, RegisteredAsset, TreasuryEvent, TreasuryIsolationError, TreasuryState,
};
use crate::host::{Abort, Address, Failure, Invocation, Symbol};
use vstd::prelude::*;

verus! {

/// One state-changing call of the contract, with its arguments.
pub enum Operation {
    /// `initialize`
    Initialize { admin: Address },
    /// `set_pause_manager`
    SetPauseManager { pause_manager: Address },
    /// `register_asset`
    Register { company_id: u64, asset: Address, issuer: Address, symbol: Symbol },
    /// `credit`
    Credit { company_id: u64, asset: Address, amount: i128 },
    /// `reserve`
    Reserve { company_id: u64, asset: Address, amount: i128 },
    /// `release_reserve`
    Release { company_id: u64, asset: Address, amount: i128 },
    /// `execute_debit`
    Debit { company_id: u64, committed_asset: Address, treasury_asset: Address, amount: i128 },
}

impl TreasuryState {
    /// How the operation fails, if it does.
    pub open spec fn failure(self, call: Invocation, op: Operation) -> Option<
        Failure<TreasuryIsolationError>,
    > {
        match op {
            Operation::Initialize { admin } => match call.initialize_abort(
                self.admin() is Some,
                admin,
            ) {
                Some(abort) => Some(Failure::Abort(abort)),
                None => None,
            },
            Operation::SetPauseManager { pause_manager } => match call.admin_abort(self.admin()) {
                Some(abort) => Some(Failure::Abort(abort)),
                None => None,
            },
            Operation::Register { company_id, asset, issuer, symbol } => self.register_failure(
                call,
                company_id,
                asset,
                issuer,
            ),
            Operation::Credit { company_id, asset, amount } => self.credit_failure(
                call,
                company_id,
                asset,
                amount,
            ),
            Operation::Reserve { company_id, asset, amount } => self.reserve_failure(
                call,
                company_id,
                asset,
                amount,
            ),
            Operation::Release { company_id, asset, amount } => self.release_failure(
                call,
                company_id,
                asset,
                amount,
            ),
            Operation::Debit { company_id, committed_asset, treasury_asset, amount } =>
                self.debit_failure(call, company_id, committed_asset, treasury_asset, amount),
        }
    }

    /// The state after the operation, where it succeeds.
    pub open spec fn success(self, call: Invocation, op: Operation) -> TreasuryState {
        match op {
            Operation::Initialize { admin } => self.wrote(
                DataKey::Admin,
                DataEntry::Address(admin),
                TreasuryEvent::Initialized { admin },
            ),
            Operation::SetPauseManager { pause_manager } => TreasuryState {
                storage: self.storage.insert(
                    DataKey::PauseManager,
                    DataEntry::Address(pause_manager),
                ),
                ..self
            },
            Operation::Register { company_id, asset, issuer, symbol } => self.after_registration(
                company_id,
                RegisteredAsset { asset, issuer, symbol, registered_at: call.timestamp },
            ),
            Operation::Credit { company_id, asset, amount } => self.rebalanced(
                company_id,
                self.credited(company_id, asset, amount),
                TreasuryEvent::Credited { company_id, asset, amount },
            ),
            Operation::Reserve { company_id, asset, amount } => self.rebalanced(
                company_id,
                self.with_reserve(company_id, asset, amount),
                TreasuryEvent::Reserved { company_id, asset, amount },
            ),
            Operation::Release { company_id, asset, amount } => self.rebalanced(
                company_id,
                self.without_reserve(company_id, asset, amount),
                TreasuryEvent::ReserveReleased { company_id, asset, amount },
            ),
            Operation::Debit { company_id, committed_asset, treasury_asset, amount } =>
                self.rebalanced(
                    company_id,
                    self.debited(company_id, treasury_asset, amount),
                    TreasuryEvent::Debited { company_id, asset: treasury_asset, amount },
                ),
        }
    }

    /// The state after the operation. A failed operation leaves everything as
    /// it was.
    pub open spec fn after(self, call: Invocation, op: Operation) -> TreasuryState {
        if self.failure(call, op) is Some {
            self
        } else {
            self.success(call, op)
        }
    }

    /// The state after a history of calls, first to last.
    pub open spec fn run(self, history: Seq<(Invocation, Operation)>) -> TreasuryState
        decreases history.len(),
    {
        if history.len() == 0 {
            self
        } else {
            self.run(history.drop_last()).after(history.last().0, history.last().1)
        }
    }

    /// What every reachable state has: an asset has a balance exactly where it
    /// is registered, the issuer index leads to an asset of that issuer, and
    /// every registered asset is found through its issuer.
    pub open spec fn inv(self) -> bool {
        &&& self.well_typed()
        &&& forall|company_id: u64, asset: Address|
            #![trigger self.balance(company_id, asset)]
            #![trigger self.registered(company_id, asset)]
            self.balance(company_id, asset) is Some <==> self.registered(company_id, asset) is Some
        &&& forall|company_id: u64, asset: Address|
            #![trigger self.registered(company_id, asset)]
            self.registered(company_id, asset) matches Some(record) ==> self.asset_of_issuer(
                company_id,
                record.issuer,
            ) == Some(asset)
        &&& forall|company_id: u64, issuer: Address|
            #![trigger self.asset_of_issuer(company_id, issuer)]
            self.asset_of_issuer(company_id, issuer) matches Some(asset) ==> (self.registered(
                company_id,
                asset,
            ) matches Some(record) && record.issuer == issuer)
    }
}

/// A balance that is there fits its key: it is of that asset, and its reserve is
/// covered.
proof fn lemma_balance_fits(s: TreasuryState, company_id: u64, asset: Address)
    requires
        s.well_typed(),
        s.balance(company_id, asset) is Some,
    ensures
        s.balance(company_id, asset)->0.asset == asset,
        s.balance(company_id, asset)->0.covered(),
        s.storage[DataKey::Balance(company_id, asset)] is Balance,
{
    let key = DataKey::Balance(company_id, asset);
    assert(super::entry_fits(key, s.storage[key]));
}

/// What a successful operation that changes a balance leaves fits its key.
proof fn lemma_change_fits(s: TreasuryState, call: Invocation, op: Operation)
    requires
        s.well_typed(),
        s.failure(call, op) is None,
    ensures
        s.after(call, op).well_typed(),
{
    let t = s.after(call, op);
    match op {
        Operation::Credit { company_id, asset, .. }
        | Operation::Reserve { company_id, asset, .. }
        | Operation::Release { company_id, asset, .. } => {
            lemma_balance_fits(s, company_id, asset);
        },
        Operation::Debit { company_id, treasury_asset, .. } => {
            lemma_balance_fits(s, company_id, treasury_asset);
        },
        _ => {},
    }
    assert forall|k: DataKey| #[trigger] t.storage.contains_key(k) implies super::entry_fits(
        k,
        t.storage[k],
    ) by {
        if s.storage.contains_key(k) {
            assert(super::entry_fits(k, s.storage[k]));
        }
    }
}

/// The contract starts out sound, and no call makes it unsound.
pub proof fn lemma_invariant_kept(s: TreasuryState, call: Invocation, op: Operation)
    ensures
        s.storage == Map::<DataKey, DataEntry>::empty() ==> s.inv(),
        s.inv() ==> s.after(call, op).inv(),
{
    if s.inv() && s.failure(call, op) is None {
        let t = s.after(call, op);
        lemma_change_fits(s, call, op);
        match op {
            Operation::Credit { company_id, asset, .. }
            | Operation::Reserve { company_id, asset, .. }
            | Operation::Release { company_id, asset, .. } => {
                lemma_balance_fits(s, company_id, asset);
            },
            Operation::Debit { company_id, treasury_asset, .. } => {
                lemma_balance_fits(s, company_id, treasury_asset);
            },
            _ => {},
        }
        assert forall|c: u64, a: Address|
            #![trigger t.balance(c, a)]
            #![trigger t.registered(c, a)]
            t.balance(c, a) is Some <==> t.registered(c, a) is Some by {
            assert(s.balance(c, a) is Some <==> s.registered(c, a) is Some);
        }
        assert forall|c: u64, a: Address|
            #![trigger t.registered(c, a)]
            t.registered(c, a) is Some implies t.asset_of_issuer(c, t.registered(c, a)->0.issuer)
            == Some(a) by {
            assert(s.registered(c, a) is Some ==> s.asset_of_issuer(c, s.registered(c, a)->0.issuer)
                == Some(a));
        }
        assert forall|c: u64, i: Address|
            #![trigger t.asset_of_issuer(c, i)]
            t.asset_of_issuer(c, i) is Some implies (t.registered(
            c,
            t.asset_of_issuer(c, i)->0,
        ) matches Some(record) && record.issuer == i) by {
            assert(s.asset_of_issuer(c, i) is Some ==> (s.registered(
                c,
                s.asset_of_issuer(c, i)->0,
            ) matches Some(record) && record.issuer == i));
        }
    }
}

/// Whatever calls are made, in whatever order and by whomever, a contract that
/// starts without entries stays sound.
pub proof fn lemma_reachable_is_sound(s: TreasuryState, history: Seq<(Invocation, Operation)>)
    requires
        s.storage == Map::<DataKey, DataEntry>::empty(),
    ensures
        s.run(history).inv(),
    decreases history.len(),
{
    if history.len() == 0 {
        lemma_invariant_kept(s, arbitrary(), arbitrary());
    } else {
        lemma_reachable_is_sound(s, history.drop_last());
        lemma_invariant_kept(
            s.run(history.drop_last()),
            history.last().0,
            history.last().1,
        );
    }
}

/// Within a company, no two registered assets have the same issuer.
pub proof fn lemma_issuer_has_one_asset(s: TreasuryState, company_id: u64, a: Address, b: Address)
    requires
        s.inv(),
        s.registered(company_id, a) is Some,
        s.registered(company_id, b) is Some,
        s.registered(company_id, a)->0.issuer == s.registered(company_id, b)->0.issuer,
    ensures
        a == b,
{
}

/// A reserve never exceeds its balance, and neither is ever negative.
pub proof fn lemma_reserve_covered(s: TreasuryState, company_id: u64, asset: Address)
    requires
        s.inv(),
        s.balance(company_id, asset) is Some,
    ensures
        0 <= s.balance(company_id, asset)->0.reserved <= s.balance(company_id, asset)->0.balance,
        s.balance(company_id, asset)->0.available() >= 0,
{
    lemma_balance_fits(s, company_id, asset);
}

/// The company and asset whose balance an operation is about.
pub open spec fn subject(op: Operation) -> Option<(u64, Address)> {
    match op {
        Operation::Initialize { .. } => None,
        Operation::SetPauseManager { .. } => None,
        Operation::Register { company_id, asset, .. } => Some((company_id, asset)),
        Operation::Credit { company_id, asset, .. } => Some((company_id, asset)),
        Operation::Reserve { company_id, asset, .. } => Some((company_id, asset)),
        Operation::Release { company_id, asset, .. } => Some((company_id, asset)),
        Operation::Debit { company_id, treasury_asset, .. } => Some((company_id, treasury_asset)),
    }
}

/// Assets are isolated: a call about one company and asset leaves the balance
/// and the registration of every other company and asset alone, and what is
/// available of them.
pub proof fn lemma_assets_isolated(
    s: TreasuryState,
    call: Invocation,
    op: Operation,
    company_id: u64,
    asset: Address,
    required_amount: i128,
)
    requires
        s.well_typed(),
        subject(op) != Some((company_id, asset)),
    ensures
        s.after(call, op).balance(company_id, asset) == s.balance(company_id, asset),
        s.after(call, op).registered(company_id, asset) == s.registered(company_id, asset),
        s.after(call, op).ready(company_id, asset, required_amount) == s.ready(
            company_id,
            asset,
            required_amount,
        ),
{
    if s.failure(call, op) is None {
        match op {
            Operation::Credit { company_id: c, asset: a, .. }
            | Operation::Reserve { company_id: c, asset: a, .. }
            | Operation::Release { company_id: c, asset: a, .. } => {
                lemma_balance_fits(s, c, a);
            },
            Operation::Debit { company_id: c, treasury_asset: a, .. } => {
                lemma_balance_fits(s, c, a);
            },
            _ => {},
        }
    }
}

/// A batch committed in one asset never debits another.
pub proof fn lemma_mismatch_refused(
    s: TreasuryState,
    call: Invocation,
    company_id: u64,
    committed_asset: Address,
    treasury_asset: Address,
    amount: i128,
)
    requires
        committed_asset != treasury_asset,
    ensures
        ({
            let op = Operation::Debit { company_id, committed_asset, treasury_asset, amount };
            &&& s.after(call, op) == s
            &&& s.failure(call, op) == (match s.guard(call) {
                Some(abort) => Some(Failure::<TreasuryIsolationError>::Abort(abort)),
                None => Some(Failure::Error(TreasuryIsolationError::AssetMismatch)),
            })
        }),
{
}

/// Only a credit raises a balance and only a debit lowers it, each by its
/// amount; every other call leaves all balances as they are, but for a
/// registration, which starts one at zero.
pub proof fn lemma_balance_moves(s: TreasuryState, call: Invocation, op: Operation)
    requires
        s.inv(),
        s.failure(call, op) is None,
    ensures
        subject(op) matches Some((company_id, asset)) ==> {
            &&& s.after(call, op).balance(company_id, asset) matches Some(balance)
            &&& balance.asset == asset
            &&& balance.balance == (match op {
                Operation::Credit { amount, .. } => s.balance(company_id, asset)->0.balance
                    + amount,
                Operation::Debit { amount, .. } => s.balance(company_id, asset)->0.balance - amount,
                Operation::Register { .. } => 0,
                _ => s.balance(company_id, asset)->0.balance as int,
            })
            &&& balance.reserved == (match op {
                Operation::Reserve { amount, .. } => s.balance(company_id, asset)->0.reserved
                    + amount,
                Operation::Release { amount, .. } => s.balance(company_id, asset)->0.reserved
                    - amount,
                Operation::Debit { amount, .. } => s.balance(company_id, asset)->0.reserved
                    - amount,
                Operation::Register { .. } => 0,
                _ => s.balance(company_id, asset)->0.reserved as int,
            })
        },
        op matches Operation::Register { company_id, asset, .. } ==> s.balance(
            company_id,
            asset,
        ) is None,
{
    match op {
        Operation::Register { company_id, asset, .. } => {
            assert(s.registered(company_id, asset) is None);
            assert(s.balance(company_id, asset) is None);
        },
        Operation::Credit { company_id, asset, .. }
        | Operation::Reserve { company_id, asset, .. }
        | Operation::Release { company_id, asset, .. } => {
            lemma_balance_fits(s, company_id, asset);
        },
        Operation::Debit { company_id, treasury_asset, .. } => {
            lemma_balance_fits(s, company_id, treasury_asset);
        },
        _ => {},
    }
}

/// What a call adds to a company's balance of an asset.
pub open spec fn flow(
    s: TreasuryState,
    call: Invocation,
    op: Operation,
    company_id: u64,
    asset: Address,
) -> int {
    if s.failure(call, op) is Some || subject(op) != Some((company_id, asset)) {
        0
    } else {
        match op {
            Operation::Credit { amount, .. } => amount as int,
            Operation::Debit { amount, .. } => -amount,
            _ => 0,
        }
    }
}

/// What a history of calls credited to a company's balance of an asset, less
/// what it debited.
pub open spec fn net_flow(
    s: TreasuryState,
    history: Seq<(Invocation, Operation)>,
    company_id: u64,
    asset: Address,
) -> int
    decreases history.len(),
{
    if history.len() == 0 {
        0
    } else {
        net_flow(s, history.drop_last(), company_id, asset) + flow(
            s.run(history.drop_last()),
            history.last().0,
            history.last().1,
            company_id,
            asset,
        )
    }
}

/// What a call adds to a company's reserve of an asset.
pub open spec fn reserve_flow(
    s: TreasuryState,
    call: Invocation,
    op: Operation,
    company_id: u64,
    asset: Address,
) -> int {
    if s.failure(call, op) is Some || subject(op) != Some((company_id, asset)) {
        0
    } else {
        match op {
            Operation::Reserve { amount, .. } => amount as int,
            Operation::Release { amount, .. } => -amount,
            Operation::Debit { amount, .. } => -amount,
            _ => 0,
        }
    }
}

/// What a history of calls reserved of an asset for a company, less what it
/// released and what it debited.
pub open spec fn net_reserve_flow(
    s: TreasuryState,
    history: Seq<(Invocation, Operation)>,
    company_id: u64,
    asset: Address,
) -> int
    decreases history.len(),
{
    if history.len() == 0 {
        0
    } else {
        net_reserve_flow(s, history.drop_last(), company_id, asset) + reserve_flow(
            s.run(history.drop_last()),
            history.last().0,
            history.last().1,
            company_id,
            asset,
        )
    }
}

/// Nothing is created or lost: over the contract's whole history a balance is
/// what was credited to it less what was debited from it, and its reserve is
/// what was reserved less what was released and what was debited.
pub proof fn lemma_balance_is_net_flow(
    s: TreasuryState,
    history: Seq<(Invocation, Operation)>,
    company_id: u64,
    asset: Address,
)
    requires
        s.storage == Map::<DataKey, DataEntry>::empty(),
    ensures
        match s.run(history).balance(company_id, asset) {
            Some(balance) => {
                &&& balance.balance == net_flow(s, history, company_id, asset)
                &&& balance.reserved == net_reserve_flow(s, history, company_id, asset)
                &&& 0 <= balance.reserved <= balance.balance
            },
            None => {
                &&& net_flow(s, history, company_id, asset) == 0
                &&& net_reserve_flow(s, history, company_id, asset) == 0
            },
        },
    decreases history.len(),
{
    lemma_reachable_is_sound(s, history);
    if s.run(history).balance(company_id, asset) is Some {
        lemma_balance_fits(s.run(history), company_id, asset);
    }
    if history.len() > 0 {
        let before = s.run(history.drop_last());
        let (call, op) = history.last();
        lemma_balance_is_net_flow(s, history.drop_last(), company_id, asset);
        lemma_reachable_is_sound(s, history.drop_last());
        if subject(op) != Some((company_id, asset)) {
            lemma_assets_isolated(before, call, op, company_id, asset, 0);
        } else if before.failure(call, op) is None {
            lemma_balance_moves(before, call, op);
        }
    }
}

/// Whether no call of a history is about the company and asset.
pub open spec fn elsewhere(
    history: Seq<(Invocation, Operation)>,
    company_id: u64,
    asset: Address,
) -> bool {
    forall|i: int|
        0 <= i < history.len() ==> subject((#[trigger] history[i]).1) != Some((company_id, asset))
}

/// Whatever happens to other assets and other companies, a balance stays as it
/// is.
pub proof fn lemma_assets_isolated_over_history(
    s: TreasuryState,
    history: Seq<(Invocation, Operation)>,
    company_id: u64,
    asset: Address,
)
    requires
        s.well_typed(),
        elsewhere(history, company_id, asset),
    ensures
        s.run(history).well_typed(),
        s.run(history).balance(company_id, asset) == s.balance(company_id, asset),
        s.run(history).registered(company_id, asset) == s.registered(company_id, asset),
    decreases history.len(),
{
    if history.len() > 0 {
        let before = s.run(history.drop_last());
        let (call, op) = history.last();
        assert forall|i: int| 0 <= i < history.drop_last().len() implies subject(
            (#[trigger] history.drop_last()[i]).1,
        ) != Some((company_id, asset)) by {
            assert(history.drop_last()[i] == history[i]);
        }
        lemma_assets_isolated_over_history(s, history.drop_last(), company_id, asset);
        assert(subject(history[history.len() - 1].1) != Some((company_id, asset)));
        lemma_assets_isolated(before, call, op, company_id, asset, 0);
        if before.failure(call, op) is None {
            lemma_change_fits(before, call, op);
        }
    }
}

/// Releasing later what was reserved gives back the balance as it was, whatever
/// happened to other assets and other companies between; where nothing happened
/// between, it gives back all entries.
pub proof fn lemma_release_undoes_reserve(
    s: TreasuryState,
    call: Invocation,
    between: Seq<(Invocation, Operation)>,
    later: Invocation,
    company_id: u64,
    asset: Address,
    amount: i128,
)
    requires
        s.well_typed(),
        s.failure(call, Operation::Reserve { company_id, asset, amount }) is None,
        elsewhere(between, company_id, asset),
        s.after(call, Operation::Reserve { company_id, asset, amount }).run(between).guard(
            later,
        ) is None,
    ensures
        ({
            let t = s.after(call, Operation::Reserve { company_id, asset, amount }).run(between);
            let release = Operation::Release { company_id, asset, amount };
            &&& t.failure(later, release) is None
            &&& t.after(later, release).balance(company_id, asset) == s.balance(company_id, asset)
            &&& between.len() == 0 ==> t.after(later, release).storage == s.storage
        }),
{
    let reserve = Operation::Reserve { company_id, asset, amount };
    let release = Operation::Release { company_id, asset, amount };
    let reserved = s.after(call, reserve);
    lemma_balance_fits(s, company_id, asset);
    lemma_change_fits(s, call, reserve);
    lemma_assets_isolated_over_history(reserved, between, company_id, asset);
    let t = reserved.run(between);
    assert(t.without_reserve(company_id, asset, amount) == s.balance(company_id, asset)->0);
    if between.len() == 0 {
        assert(t.after(later, release).storage =~= s.storage);
    }
}

/// What is reserved can be debited later, whatever happened to other assets and
/// other companies between, and debiting it leaves what is available of the
/// asset as it is.
pub proof fn lemma_reserve_then_debit(
    s: TreasuryState,
    call: Invocation,
    between: Seq<(Invocation, Operation)>,
    later: Invocation,
    company_id: u64,
    asset: Address,
    amount: i128,
)
    requires
        s.well_typed(),
        s.failure(call, Operation::Reserve { company_id, asset, amount }) is None,
        elsewhere(between, company_id, asset),
        s.after(call, Operation::Reserve { company_id, asset, amount }).run(between).guard(
            later,
        ) is None,
    ensures
        ({
            let t = s.after(call, Operation::Reserve { company_id, asset, amount }).run(between);
            let debit = Operation::Debit {
                company_id,
                committed_asset: asset,
                treasury_asset: asset,
                amount,
            };
            &&& t.failure(later, debit) is None
            &&& t.after(later, debit).balance(company_id, asset)->0.available() == t.balance(
                company_id,
                asset,
            )->0.available()
            &&& t.after(later, debit).balance(company_id, asset)->0.available() == s.balance(
                company_id,
                asset,
            )->0.available() - amount
        }),
{
    let reserve = Operation::Reserve { company_id, asset, amount };
    lemma_balance_fits(s, company_id, asset);
    lemma_change_fits(s, call, reserve);
    lemma_assets_isolated_over_history(s.after(call, reserve), between, company_id, asset);
}

/// A reservation that the guard lets pass succeeds exactly when the treasury is
/// ready for its amount, and a ready asset is registered.
pub proof fn lemma_ready_means_reservable(
    s: TreasuryState,
    call: Invocation,
    company_id: u64,
    asset: Address,
    amount: i128,
)
    requires
        s.inv(),
        s.guard(call) is None,
        amount > 0,
    ensures
        s.ready(company_id, asset, amount) <==> s.failure(
            call,
            Operation::Reserve { company_id, asset, amount },
        ) is None,
        s.ready(company_id, asset, amount) ==> s.registered(company_id, asset) is Some,
{
    assert(s.balance(company_id, asset) is Some <==> s.registered(company_id, asset) is Some);
}

/// While the pause manager holds the contract, a call changes something only if
/// it names the first admin or replaces the pause manager.
pub proof fn lemma_pause_holds(s: TreasuryState, call: Invocation, op: Operation)
    requires
        s.pause_configured(),
        call.paused,
        !(op is Initialize || op is SetPauseManager),
    ensures
        s.failure(call, op) == Some(Failure::<TreasuryIsolationError>::Abort(Abort::Paused)),
        s.after(call, op) == s,
{
}

/// Without the admin's authorization a call changes something only if it names
/// the first admin.
pub proof fn lemma_admin_required(s: TreasuryState, call: Invocation, op: Operation)
    requires
        !(s.admin() matches Some(admin) && call.authorized_by(admin)),
        !(op is Initialize),
    ensures
        s.failure(call, op) matches Some(failure) && failure is Abort,
        s.after(call, op) == s,
{
}

/// The admin is named once: no call replaces or removes it.
pub proof fn lemma_admin_is_fixed(s: TreasuryState, call: Invocation, op: Operation)
    requires
        s.admin() is Some,
    ensures
        s.after(call, op).admin() == s.admin(),
{
}

/// Every successful call about an asset announces one event, which names the
/// company and the asset.
pub proof fn lemma_events_name_asset(s: TreasuryState, call: Invocation, op: Operation)
    requires
        s.failure(call, op) is None,
        subject(op) is Some,
    ensures
        s.after(call, op).events.drop_last() == s.events,
        event_subject(s.after(call, op).events.last()) == subject(op),
{
    assert(s.after(call, op).events.drop_last() =~= s.events);
}

/// The company and asset an event is about.
pub open spec fn event_subject(event: TreasuryEvent) -> Option<(u64, Address)> {
    match event {
        TreasuryEvent::Initialized { .. } => None,
        TreasuryEvent::AssetRegistered { company_id, asset, .. } => Some((company_id, asset)),
        TreasuryEvent::Credited { company_id, asset, .. } => Some((company_id, asset)),
        TreasuryEvent::Reserved { company_id, asset, .. } => Some((company_id, asset)),
        TreasuryEvent::ReserveReleased { company_id, asset, .. } => Some((company_id, asset)),
        TreasuryEvent::Debited { company_id, asset, .. } => Some((company_id, asset)),
    }
}

/// The entries an operation reads or writes.
pub open spec fn footprint(op: Operation) -> Set<DataKey> {
    let common = set![DataKey::Admin, DataKey::PauseManager];
    match op {
        Operation::Initialize { .. } => common,
        Operation::SetPauseManager { .. } => common,
        Operation::Register { company_id, asset, issuer, .. } => common.insert(
            DataKey::RegisteredAsset(company_id, asset),
        ).insert(DataKey::IssuerIndex(company_id, issuer)).insert(
            DataKey::Balance(company_id, asset),
        ),
        Operation::Credit { company_id, asset, .. }
        | Operation::Reserve { company_id, asset, .. }
        | Operation::Release { company_id, asset, .. } => common.insert(
            DataKey::Balance(company_id, asset),
        ),
        Operation::Debit { company_id, treasury_asset, .. } => common.insert(
            DataKey::Balance(company_id, treasury_asset),
        ),
    }
}

/// Whether the two storages agree on a key.
pub open spec fn agree_on(s: TreasuryState, t: TreasuryState, key: DataKey) -> bool {
    &&& s.storage.contains_key(key) == t.storage.contains_key(key)
    &&& s.storage.contains_key(key) ==> s.storage[key] == t.storage[key]
}

/// An operation depends on, and changes, nothing outside its footprint: run on
/// any storage that agrees on the footprint, it ends alike and leaves alike.
pub proof fn lemma_footprint(
    s: TreasuryState,
    t: TreasuryState,
    call: Invocation,
    op: Operation,
    key: DataKey,
)
    requires
        s.well_typed(),
        forall|k: DataKey| #[trigger] footprint(op).contains(k) ==> agree_on(s, t, k),
    ensures
        s.failure(call, op) == t.failure(call, op),
        footprint(op).contains(key) ==> agree_on(s.after(call, op), t.after(call, op), key),
        !footprint(op).contains(key) ==> agree_on(s.after(call, op), s, key),
{
    let keys = footprint(op);
    assert(keys.contains(DataKey::Admin) && keys.contains(DataKey::PauseManager));
    match op {
        Operation::Register { company_id, asset, issuer, .. } => {
            assert(keys.contains(DataKey::RegisteredAsset(company_id, asset)));
            assert(keys.contains(DataKey::IssuerIndex(company_id, issuer)));
            assert(keys.contains(DataKey::Balance(company_id, asset)));
        },
        Operation::Credit { company_id, asset, .. }
        | Operation::Reserve { company_id, asset, .. }
        | Operation::Release { company_id, asset, .. } => {
            assert(keys.contains(DataKey::Balance(company_id, asset)));
            if s.balance(company_id, asset) is Some {
                lemma_balance_fits(s, company_id, asset);
            }
        },
        Operation::Debit { company_id, treasury_asset, .. } => {
            assert(keys.contains(DataKey::Balance(company_id, treasury_asset)));
            if s.balance(company_id, treasury_asset) is Some {
                lemma_balance_fits(s, company_id, treasury_asset);
            }
        },
        _ => {},
    }
}

/// Error codes tell the errors apart.
pub proof fn lemma_error_codes_distinct(a: TreasuryIsolationError, b: TreasuryIsolationError)
    ensures
        super::error_code(a) == super::error_code(b) ==> a == b,
{
}

} // verus!
