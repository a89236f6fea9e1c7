use zkpayroll::host::{Abort, Address, Failure, Invocation, Symbol};
use zkpayroll::treasury_isolation::{
    AssetBalance, DataEntry, DataKey, RegisteredAsset, TreasuryEvent, TreasuryIsolationContract,
    TreasuryIsolationError,
};

fn address(seed: u8) -> Address {
    Address { strkey: [seed; 56] }
}

fn admin() -> Address {
    address(b'A')
}

fn at(timestamp: u64) -> Invocation {
    Invocation { timestamp, paused: false, authorizers: vec![address(b'Z'), admin()] }
}

fn now() -> Invocation {
    at(0)
}

fn symbol(text: &str) -> Symbol {
    Symbol::new(text.as_bytes()).unwrap()
}

fn setup() -> TreasuryIsolationContract {
    let mut contract = TreasuryIsolationContract::new();
    assert_eq!(contract.initialize(&now(), admin()), Ok(()));
    contract
}

fn error<T>(error: TreasuryIsolationError) -> Result<T, Failure<TreasuryIsolationError>> {
    Err(Failure::Error(error))
}

fn abort<T>(abort: Abort) -> Result<T, Failure<TreasuryIsolationError>> {
    Err(Failure::Abort(abort))
}

#[test]
fn test_register_asset_and_credit() {
    let mut contract = setup();
    let (asset, issuer) = (address(1), address(2));
    let company_id = 1u64;
    contract.register_asset(&now(), company_id, asset, issuer, symbol("USDC")).unwrap();
    let bal = contract.credit(&now(), company_id, asset, 5000i128).unwrap();
    assert_eq!(bal.balance, 5000);
    assert_eq!(bal.reserved, 0);
}

#[test]
fn test_reserve_and_release() {
    let mut contract = setup();
    let (asset, issuer) = (address(1), address(2));
    let company_id = 2u64;
    contract.register_asset(&now(), company_id, asset, issuer, symbol("USDC")).unwrap();
    contract.credit(&now(), company_id, asset, 10_000i128).unwrap();
    let after_reserve = contract.reserve(&now(), company_id, asset, 3000i128).unwrap();
    assert_eq!(after_reserve.reserved, 3000);

    let after_release = contract.release_reserve(&now(), company_id, asset, 1000i128).unwrap();
    assert_eq!(after_release.reserved, 2000);
}

#[test]
fn test_execute_debit_asset_mismatch_rejected() {
    let mut contract = setup();
    let (usdc, xlm, issuer) = (address(1), address(2), address(3));
    let company_id = 3u64;
    contract.register_asset(&now(), company_id, usdc, issuer, symbol("USDC")).unwrap();
    contract.credit(&now(), company_id, usdc, 10_000i128).unwrap();
    contract.reserve(&now(), company_id, usdc, 5000i128).unwrap();

    let result = contract.execute_debit(&now(), company_id, xlm, usdc, 5000i128);
    assert_eq!(result, error(TreasuryIsolationError::AssetMismatch));
}

#[test]
fn test_execute_debit_success() {
    let mut contract = setup();
    let (usdc, issuer) = (address(1), address(3));
    let company_id = 4u64;
    contract.register_asset(&now(), company_id, usdc, issuer, symbol("USDC")).unwrap();
    contract.credit(&now(), company_id, usdc, 10_000i128).unwrap();
    contract.reserve(&now(), company_id, usdc, 5000i128).unwrap();

    let bal = contract.execute_debit(&now(), company_id, usdc, usdc, 5000i128).unwrap();
    assert_eq!(bal.balance, 5000);
    assert_eq!(bal.reserved, 0);
}

#[test]
fn test_issuer_mismatch_rejected() {
    let mut contract = setup();
    let (asset1, asset2, issuer) = (address(1), address(2), address(3));
    let company_id = 5u64;
    contract.register_asset(&now(), company_id, asset1, issuer, symbol("USDC")).unwrap();

    let result = contract.register_asset(&now(), company_id, asset2, issuer, symbol("USDC"));
    assert_eq!(result, error(TreasuryIsolationError::IssuerMismatch));
}

#[test]
fn test_insufficient_balance_reserve_rejected() {
    let mut contract = setup();
    let (asset, issuer) = (address(1), address(2));
    let company_id = 6u64;
    contract.register_asset(&now(), company_id, asset, issuer, symbol("XLM")).unwrap();
    contract.credit(&now(), company_id, asset, 100i128).unwrap();

    let result = contract.reserve(&now(), company_id, asset, 500i128);
    assert_eq!(result, error(TreasuryIsolationError::InsufficientBalance));
}

#[test]
fn test_unregistered_asset_credit_rejected() {
    let mut contract = setup();
    let asset = address(1);
    let company_id = 7u64;
    let result = contract.credit(&now(), company_id, asset, 1000i128);
    assert_eq!(result, error(TreasuryIsolationError::AssetNotRegistered));
}

#[test]
fn test_is_treasury_ready() {
    let mut contract = setup();
    let (asset, issuer) = (address(1), address(2));
    let company_id = 8u64;
    contract.register_asset(&now(), company_id, asset, issuer, symbol("USDC")).unwrap();
    assert!(!contract.is_treasury_ready(company_id, asset, 1000i128));

    contract.credit(&now(), company_id, asset, 2000i128).unwrap();
    assert!(contract.is_treasury_ready(company_id, asset, 1000i128));
    assert!(!contract.is_treasury_ready(company_id, asset, 3000i128));
}

#[test]
fn test_native_xlm_and_issued_asset_isolated() {
    let mut contract = setup();
    let (xlm, usdc, xlm_issuer, usdc_issuer) = (address(1), address(2), address(3), address(4));
    let company_id = 9u64;
    contract.register_asset(&now(), company_id, xlm, xlm_issuer, symbol("XLM")).unwrap();
    contract.register_asset(&now(), company_id, usdc, usdc_issuer, symbol("USDC")).unwrap();
    contract.credit(&now(), company_id, xlm, 50_000i128).unwrap();
    contract.credit(&now(), company_id, usdc, 20_000i128).unwrap();

    contract.reserve(&now(), company_id, xlm, 40_000i128).unwrap();
    assert!(contract.is_treasury_ready(company_id, usdc, 20_000i128));

    let result = contract.execute_debit(&now(), company_id, usdc, xlm, 1000i128);
    assert_eq!(result, error(TreasuryIsolationError::AssetMismatch));
}

#[test]
fn treasury_registration_record() {
    let mut contract = setup();
    let record =
        contract.register_asset(&at(77), 1, address(1), address(2), symbol("XLM")).unwrap();
    let expected = RegisteredAsset {
        asset: address(1),
        issuer: address(2),
        symbol: symbol("XLM"),
        registered_at: 77,
    };
    assert_eq!(record, expected);
    assert_eq!(contract.get_registered_asset(1, address(1)), Some(expected));
    assert_eq!(
        contract.get_balance(1, address(1)),
        Some(AssetBalance { asset: address(1), balance: 0, reserved: 0 })
    );
    assert_eq!(contract.get_balance(2, address(1)), None);
    assert_eq!(contract.get_registered_asset(1, address(2)), None);
    // The same asset once per company, under any issuer; another company may.
    assert_eq!(
        contract.register_asset(&now(), 1, address(1), address(9), symbol("XLM")),
        error(TreasuryIsolationError::AssetAlreadyRegistered)
    );
    assert!(contract.register_asset(&now(), 2, address(1), address(2), symbol("XLM")).is_ok());
    assert_eq!(
        contract.events()[1],
        TreasuryEvent::AssetRegistered {
            company_id: 1,
            asset: address(1),
            issuer: address(2),
            symbol: symbol("XLM"),
        }
    );
}

#[test]
fn treasury_amounts_must_be_positive() {
    let mut contract = setup();
    let asset = address(1);
    for amount in [0i128, -1, i128::MIN] {
        assert_eq!(
            contract.credit(&now(), 1, asset, amount),
            error(TreasuryIsolationError::InvalidAmount)
        );
        assert_eq!(
            contract.reserve(&now(), 1, asset, amount),
            error(TreasuryIsolationError::InvalidAmount)
        );
        assert_eq!(
            contract.release_reserve(&now(), 1, asset, amount),
            error(TreasuryIsolationError::InvalidAmount)
        );
        assert_eq!(
            contract.execute_debit(&now(), 1, asset, asset, amount),
            error(TreasuryIsolationError::InvalidAmount)
        );
    }
    // A mismatch is told before the amount is looked at.
    assert_eq!(
        contract.execute_debit(&now(), 1, asset, address(2), 0),
        error(TreasuryIsolationError::AssetMismatch)
    );
}

#[test]
fn treasury_limits_of_release_and_debit() {
    let mut contract = setup();
    let asset = address(1);
    contract.register_asset(&now(), 1, asset, address(2), symbol("USDC")).unwrap();
    contract.credit(&now(), 1, asset, 100).unwrap();
    contract.reserve(&now(), 1, asset, 60).unwrap();
    assert_eq!(
        contract.reserve(&now(), 1, asset, 41),
        error(TreasuryIsolationError::InsufficientBalance)
    );
    assert_eq!(
        contract.release_reserve(&now(), 1, asset, 61),
        error(TreasuryIsolationError::InsufficientReserve)
    );
    assert_eq!(
        contract.execute_debit(&now(), 1, asset, asset, 101),
        error(TreasuryIsolationError::InsufficientBalance)
    );
    assert_eq!(
        contract.execute_debit(&now(), 1, asset, asset, 61),
        error(TreasuryIsolationError::InsufficientReserve)
    );
    assert_eq!(
        contract.get_balance(1, asset),
        Some(AssetBalance { asset, balance: 100, reserved: 60 })
    );
    let bal = contract.execute_debit(&now(), 1, asset, asset, 60).unwrap();
    assert_eq!(bal, AssetBalance { asset, balance: 40, reserved: 0 });
    assert!(contract.is_treasury_ready(1, asset, 40));
    assert!(!contract.is_treasury_ready(1, asset, 41));
    assert_eq!(
        contract.release_reserve(&now(), 1, address(7), 1),
        error(TreasuryIsolationError::AssetNotRegistered)
    );
}

#[test]
fn treasury_release_undoes_reserve() {
    let mut contract = setup();
    let asset = address(1);
    contract.register_asset(&now(), 1, asset, address(2), symbol("USDC")).unwrap();
    contract.credit(&now(), 1, asset, 100).unwrap();
    let before = contract.get_balance(1, asset);
    contract.reserve(&now(), 1, asset, 30).unwrap();
    contract.release_reserve(&now(), 1, asset, 30).unwrap();
    assert_eq!(contract.get_balance(1, asset), before);
    assert_eq!(
        contract.events()[2..].to_vec(),
        vec![
            TreasuryEvent::Credited { company_id: 1, asset, amount: 100 },
            TreasuryEvent::Reserved { company_id: 1, asset, amount: 30 },
            TreasuryEvent::ReserveReleased { company_id: 1, asset, amount: 30 },
        ]
    );
}

#[test]
fn treasury_credit_overflow_aborts() {
    let mut contract = setup();
    let asset = address(1);
    contract.register_asset(&now(), 1, asset, address(2), symbol("USDC")).unwrap();
    contract.credit(&now(), 1, asset, i128::MAX).unwrap();
    assert_eq!(contract.credit(&now(), 1, asset, 1), abort(Abort::Overflow));
    assert_eq!(contract.get_balance(1, asset).unwrap().balance, i128::MAX);
}

#[test]
fn treasury_guards() {
    let mut contract = TreasuryIsolationContract::new();
    assert_eq!(contract.credit(&now(), 1, address(1), 1), abort(Abort::NotInitialized));
    let nobody = Invocation { timestamp: 0, paused: false, authorizers: vec![] };
    assert_eq!(contract.initialize(&nobody, admin()), Err(Abort::NotAuthorized));
    contract.initialize(&now(), admin()).unwrap();
    assert_eq!(contract.initialize(&now(), admin()), Err(Abort::AlreadyInitialized));
    assert_eq!(contract.set_pause_manager(&nobody, address(5)), Err(Abort::NotAuthorized));
    assert_eq!(
        contract.register_asset(&nobody, 1, address(1), address(2), symbol("X")),
        abort(Abort::NotAuthorized)
    );
    contract.set_pause_manager(&now(), address(5)).unwrap();
    let held = Invocation { timestamp: 0, paused: true, authorizers: vec![admin()] };
    assert_eq!(
        contract.register_asset(&held, 1, address(1), address(2), symbol("X")),
        abort(Abort::Paused)
    );
    assert_eq!(contract.credit(&held, 1, address(1), 1), abort(Abort::Paused));
    assert_eq!(contract.reserve(&held, 1, address(1), 1), abort(Abort::Paused));
    assert_eq!(contract.release_reserve(&held, 1, address(1), 1), abort(Abort::Paused));
    assert_eq!(
        contract.execute_debit(&held, 1, address(1), address(2), 1),
        abort(Abort::Paused)
    );
    assert_eq!(contract.set_pause_manager(&held, address(6)), Ok(()));
    assert_eq!(contract.require_not_paused(&held), Err(Abort::Paused));
    assert_eq!(contract.require_admin(&held), Ok(()));
}

#[test]
fn treasury_restore_refuses_misfits() {
    let mut contract = setup();
    let asset = address(1);
    let uncovered = AssetBalance { asset, balance: 5, reserved: 6 };
    let covered = AssetBalance { asset, balance: 6, reserved: 6 };
    assert!(!contract.restore(DataKey::Balance(1, asset), DataEntry::Balance(uncovered)));
    assert!(!contract.restore(DataKey::Balance(1, address(2)), DataEntry::Balance(covered)));
    assert!(contract.restore(DataKey::Balance(1, asset), DataEntry::Balance(covered)));
    assert_eq!(contract.get_balance(1, asset), Some(covered));
    assert!(contract.restore(DataKey::IssuerIndex(1, address(3)), DataEntry::Address(asset)));
    assert!(!contract.restore(DataKey::IssuerIndex(1, address(3)), DataEntry::Balance(covered)));
}

#[test]
fn treasury_codes() {
    let codes: Vec<u32> = [
        TreasuryIsolationError::NotInitialized,
        TreasuryIsolationError::AssetNotRegistered,
        TreasuryIsolationError::AssetAlreadyRegistered,
        TreasuryIsolationError::AssetMismatch,
        TreasuryIsolationError::InsufficientBalance,
        TreasuryIsolationError::InsufficientReserve,
        TreasuryIsolationError::Unauthorized,
        TreasuryIsolationError::IssuerMismatch,
        TreasuryIsolationError::InvalidAmount,
    ]
    .iter()
    .map(|e| e.code())
    .collect();
    assert_eq!(codes, vec![1, 2, 3, 4, 5, 6, 7, 8, 9]);
}

#[test]
fn treasury_balance_is_credits_less_debits() {
    let mut contract = setup();
    let (asset, other) = (address(1), address(2));
    contract.register_asset(&now(), 1, asset, address(3), symbol("USDC")).unwrap();
    contract.register_asset(&now(), 1, other, address(4), symbol("XLM")).unwrap();
    let mut net = 0i128;
    for amount in [70i128, 5, 900, 0, 12] {
        if contract.credit(&now(), 1, asset, amount).is_ok() {
            net += amount;
        }
        contract.credit(&now(), 1, other, 1_000).unwrap();
        if contract.reserve(&now(), 1, asset, amount / 2).is_ok()
            && contract.execute_debit(&now(), 1, asset, asset, amount / 2).is_ok()
        {
            net -= amount / 2;
        }
        let balance = contract.get_balance(1, asset).unwrap();
        assert_eq!(balance.balance, net);
        assert!(0 <= balance.reserved && balance.reserved <= balance.balance);
    }
    assert_eq!(net, 987 - (35 + 2 + 450 + 6));
    assert_eq!(contract.get_balance(1, other).unwrap().balance, 5_000);
}

#[test]
fn treasury_reserve_is_reserved_less_released_and_debited() {
    let mut contract = setup();
    let asset = address(1);
    contract.register_asset(&now(), 1, asset, address(2), symbol("USDC")).unwrap();
    contract.credit(&now(), 1, asset, 1_000).unwrap();
    contract.reserve(&now(), 1, asset, 600).unwrap();
    contract.release_reserve(&now(), 1, asset, 150).unwrap();
    contract.execute_debit(&now(), 1, asset, asset, 200).unwrap();
    // Refused calls count for nothing.
    assert!(contract.reserve(&now(), 1, asset, 10_000).is_err());
    assert!(contract.release_reserve(&now(), 1, asset, 251).is_err());
    contract.reserve(&now(), 1, asset, 30).unwrap();
    assert_eq!(
        contract.get_balance(1, asset),
        Some(AssetBalance { asset, balance: 1_000 - 200, reserved: 600 - 150 - 200 + 30 })
    );
}

#[test]
fn treasury_needs_its_footprint_alone() {
    let mut whole = setup();
    let (asset, other) = (address(1), address(2));
    whole.register_asset(&now(), 1, asset, address(3), symbol("USDC")).unwrap();
    whole.register_asset(&now(), 1, other, address(4), symbol("XLM")).unwrap();
    whole.credit(&now(), 1, asset, 50).unwrap();

    let mut part = TreasuryIsolationContract::new();
    for key in [DataKey::Admin, DataKey::PauseManager, DataKey::Balance(1, asset)] {
        if let Some(entry) = whole.entry(&key) {
            assert!(part.restore(key, entry));
        }
    }
    assert_eq!(part.reserve(&now(), 1, asset, 20), whole.reserve(&now(), 1, asset, 20));
    assert_eq!(part.get_balance(1, asset), whole.get_balance(1, asset));
    assert_eq!(part.reserve(&now(), 1, asset, 31), whole.reserve(&now(), 1, asset, 31));
}

#[test]
fn treasury_reservation_outlasts_other_assets() {
    let mut contract = setup();
    let (asset, other) = (address(1), address(2));
    contract.register_asset(&at(0), 1, asset, address(3), symbol("USDC")).unwrap();
    contract.credit(&at(0), 1, asset, 100).unwrap();
    let before = contract.get_balance(1, asset);
    contract.reserve(&at(10), 1, asset, 40).unwrap();
    contract.register_asset(&at(11), 1, other, address(4), symbol("XLM")).unwrap();
    contract.credit(&at(12), 1, other, 5).unwrap();
    contract.reserve(&at(13), 1, other, 5).unwrap();
    contract.release_reserve(&at(500), 1, asset, 40).unwrap();
    assert_eq!(contract.get_balance(1, asset), before);

    contract.reserve(&at(501), 1, asset, 40).unwrap();
    contract.execute_debit(&at(502), 1, other, other, 5).unwrap();
    assert_eq!(
        contract.execute_debit(&at(900), 1, asset, asset, 40),
        Ok(AssetBalance { asset, balance: 60, reserved: 0 })
    );
}
