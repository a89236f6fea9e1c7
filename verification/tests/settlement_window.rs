use zkpayroll::host::{Abort, Address, Failure, Invocation};
use zkpayroll::settlement_window::{
    DataEntry, DataKey, PeriodPhase, SettlementError, SettlementEvent, SettlementPeriod,
    SettlementWindowContract,
};

fn address(seed: u8) -> Address {
    Address { strkey: [seed; 56] }
}

fn admin() -> Address {
    address(b'A')
}

fn at(timestamp: u64) -> Invocation {
    Invocation { timestamp, paused: false, authorizers: vec![admin()] }
}

fn held(timestamp: u64) -> Invocation {
    Invocation { timestamp, paused: true, authorizers: vec![admin()] }
}

fn unsigned(timestamp: u64) -> Invocation {
    Invocation { timestamp, paused: false, authorizers: vec![] }
}

fn setup() -> SettlementWindowContract {
    let mut contract = SettlementWindowContract::new();
    assert_eq!(contract.initialize(&at(0), admin()), Ok(()));
    contract
}

fn make_window(base: u64) -> (u64, u64, u64, u64) {
    (base, base + 100, base + 200, base + 300)
}

fn error<T>(error: SettlementError) -> Result<T, Failure<SettlementError>> {
    Err(Failure::Error(error))
}

fn abort<T>(abort: Abort) -> Result<T, Failure<SettlementError>> {
    Err(Failure::Abort(abort))
}

#[test]
fn test_create_and_check_execution_allowed() {
    let mut contract = setup();
    let now = 0;
    let (open_at, execute_at, grace_until, close_at) = make_window(now + 10);
    let company_id = 1u64;

    let period = contract
        .create_period(&at(now), company_id, open_at, execute_at, grace_until, close_at)
        .unwrap();
    assert_eq!(period.period_id, 1);
    assert_eq!(period.phase, PeriodPhase::Pending);

    let result = contract.check_execution_allowed(&at(now), company_id, 1);
    assert_eq!(result, Err(SettlementError::PeriodNotYetOpen));
}

#[test]
fn test_execution_allowed_within_window() {
    let mut contract = setup();
    let base = 0;
    let company_id = 2u64;
    contract
        .create_period(&at(base), company_id, base, base + 10, base + 1000, base + 2000)
        .unwrap();

    let result = contract.check_execution_allowed(&at(base + 50), company_id, 1);
    assert!(result.is_ok());
}

#[test]
fn test_execution_rejected_before_execute_at() {
    let mut contract = setup();
    let base = 0;
    let company_id = 3u64;
    contract
        .create_period(&at(base), company_id, base, base + 500, base + 1000, base + 2000)
        .unwrap();

    let result = contract.check_execution_allowed(&at(base + 100), company_id, 1);
    assert_eq!(result, Err(SettlementError::ExecutionWindowNotOpen));
}

#[test]
fn test_execution_rejected_after_grace_until() {
    let mut contract = setup();
    let base = 0;
    let company_id = 4u64;
    contract
        .create_period(&at(base), company_id, base, base + 10, base + 100, base + 200)
        .unwrap();

    let result = contract.check_execution_allowed(&at(base + 150), company_id, 1);
    assert_eq!(result, Err(SettlementError::ExecutionWindowExpired));
}

#[test]
fn test_cancel_period() {
    let mut contract = setup();
    let base = 0;
    let company_id = 5u64;
    contract
        .create_period(&at(base), company_id, base, base + 10, base + 100, base + 200)
        .unwrap();
    let cancelled = contract.cancel_period(&at(base), company_id, 1).unwrap();
    assert_eq!(cancelled.phase, PeriodPhase::Cancelled);

    let result = contract.cancel_period(&at(base), company_id, 1);
    assert_eq!(result, error(SettlementError::AlreadyFinalized));
}

#[test]
fn test_expire_period_after_grace() {
    let mut contract = setup();
    let base = 0;
    let company_id = 6u64;
    contract
        .create_period(&at(base), company_id, base, base + 10, base + 50, base + 100)
        .unwrap();

    let too_early = contract.expire_period(&at(base + 80), company_id, 1);
    assert_eq!(too_early, error(SettlementError::ExecutionWindowNotOpen));

    let expired = contract.expire_period(&at(base + 110), company_id, 1).unwrap();
    assert_eq!(expired.phase, PeriodPhase::Expired);
}

#[test]
fn test_invalid_window_config_rejected() {
    let mut contract = setup();
    let base = 0;
    let result =
        contract.create_period(&at(base), 1u64, base + 100, base + 50, base + 200, base + 300);
    assert_eq!(result, error(SettlementError::InvalidWindowConfig));
}

#[test]
fn test_cannot_create_second_active_period() {
    let mut contract = setup();
    let base = 0;
    let company_id = 7u64;
    contract
        .create_period(&at(base), company_id, base, base + 10, base + 100, base + 200)
        .unwrap();
    let result = contract.create_period(
        &at(base),
        company_id,
        base + 300,
        base + 310,
        base + 400,
        base + 500,
    );
    assert_eq!(result, error(SettlementError::PeriodAlreadyExists));
}

#[test]
fn test_new_period_allowed_after_cancellation() {
    let mut contract = setup();
    let base = 0;
    let company_id = 8u64;
    contract
        .create_period(&at(base), company_id, base, base + 10, base + 100, base + 200)
        .unwrap();
    contract.cancel_period(&at(base), company_id, 1).unwrap();

    let p2 = contract
        .create_period(&at(base), company_id, base + 300, base + 310, base + 400, base + 500)
        .unwrap();
    assert_eq!(p2.period_id, 2);
}

#[test]
fn settlement_initialize_once_and_authorized() {
    let mut contract = SettlementWindowContract::new();
    assert_eq!(contract.initialize(&unsigned(0), admin()), Err(Abort::NotAuthorized));
    assert_eq!(*contract.events(), vec![]);
    assert_eq!(contract.initialize(&at(0), admin()), Ok(()));
    assert_eq!(*contract.events(), vec![SettlementEvent::Initialized { admin: admin() }]);
    assert_eq!(contract.initialize(&at(0), admin()), Err(Abort::AlreadyInitialized));
    assert_eq!(contract.events().len(), 1);
}

#[test]
fn settlement_calls_before_initialization_abort() {
    let mut contract = SettlementWindowContract::new();
    assert_eq!(contract.create_period(&at(0), 1, 0, 1, 2, 3), abort(Abort::NotInitialized));
    assert_eq!(contract.set_pause_manager(&at(0), address(b'P')), Err(Abort::NotInitialized));
    assert_eq!(contract.cancel_period(&at(0), 1, 1), abort(Abort::NotInitialized));
}

#[test]
fn settlement_calls_without_admin_abort() {
    let mut contract = setup();
    assert_eq!(contract.create_period(&unsigned(0), 1, 0, 1, 2, 3), abort(Abort::NotAuthorized));
    contract.create_period(&at(0), 1, 0, 1, 2, 3).unwrap();
    assert_eq!(contract.open_period(&unsigned(0), 1, 1), abort(Abort::NotAuthorized));
    assert_eq!(contract.start_execution(&unsigned(1), 1, 1), abort(Abort::NotAuthorized));
    assert_eq!(contract.close_period(&unsigned(1), 1, 1), abort(Abort::NotAuthorized));
    assert_eq!(contract.cancel_period(&unsigned(1), 1, 1), abort(Abort::NotAuthorized));
    assert_eq!(contract.get_phase(1, 1), Some(PeriodPhase::Pending));
}

#[test]
fn settlement_expiry_needs_nobody() {
    let mut contract = setup();
    contract.create_period(&at(0), 1, 0, 10, 50, 100).unwrap();
    assert_eq!(
        contract.expire_period(&unsigned(100), 1, 1),
        error(SettlementError::ExecutionWindowNotOpen)
    );
    assert!(contract.expire_period(&unsigned(101), 1, 1).is_ok());
    assert_eq!(
        contract.check_execution_allowed(&at(20), 1, 1),
        Err(SettlementError::AlreadyFinalized)
    );
}

#[test]
fn settlement_pause_holds_all_but_cancellation() {
    let mut contract = setup();
    contract.create_period(&at(0), 1, 0, 10, 50, 100).unwrap();
    // Without a pause manager, the answer does not count.
    assert!(contract.open_period(&held(0), 1, 1).is_ok());

    assert_eq!(contract.set_pause_manager(&at(0), address(b'P')), Ok(()));
    assert_eq!(contract.create_period(&held(0), 2, 0, 1, 2, 3), abort(Abort::Paused));
    assert_eq!(contract.open_period(&held(0), 1, 1), abort(Abort::Paused));
    assert_eq!(contract.start_execution(&held(20), 1, 1), abort(Abort::Paused));
    assert_eq!(contract.close_period(&held(20), 1, 1), abort(Abort::Paused));
    assert_eq!(contract.expire_period(&held(200), 1, 1), abort(Abort::Paused));
    assert!(contract.open_period(&at(0), 1, 1).is_ok());
    assert_eq!(
        contract.cancel_period(&held(20), 1, 1).unwrap().phase,
        PeriodPhase::Cancelled
    );
}

#[test]
fn settlement_full_lifecycle() {
    let mut contract = setup();
    let created = contract.create_period(&at(5), 9, 10, 20, 30, 40).unwrap();
    assert_eq!(
        created,
        SettlementPeriod {
            company_id: 9,
            period_id: 1,
            open_at: 10,
            execute_at: 20,
            grace_until: 30,
            close_at: 40,
            phase: PeriodPhase::Pending,
            created_at: 5,
            transitioned_at: 0,
        }
    );
    assert_eq!(contract.open_period(&at(9), 9, 1), error(SettlementError::PeriodNotYetOpen));
    let opened = contract.open_period(&at(10), 9, 1).unwrap();
    assert_eq!(
        opened,
        SettlementPeriod { phase: PeriodPhase::Open, transitioned_at: 10, ..created }
    );
    assert_eq!(
        contract.start_execution(&at(19), 9, 1),
        error(SettlementError::ExecutionWindowNotOpen)
    );
    assert_eq!(
        contract.start_execution(&at(31), 9, 1),
        error(SettlementError::ExecutionWindowExpired)
    );
    let started = contract.start_execution(&at(30), 9, 1).unwrap();
    assert_eq!(started.phase, PeriodPhase::Executing);
    assert_eq!(contract.check_execution_allowed(&at(20), 9, 1), Ok(()));
    assert_eq!(contract.check_execution_allowed(&at(30), 9, 1), Ok(()));
    let closed = contract.close_period(&at(30), 9, 1).unwrap();
    assert_eq!(closed.phase, PeriodPhase::Closed);
    assert_eq!(closed.transitioned_at, 30);
    assert_eq!(
        contract.check_execution_allowed(&at(25), 9, 1),
        Err(SettlementError::PeriodClosed)
    );
    assert_eq!(contract.open_period(&at(34), 9, 1), error(SettlementError::AlreadyFinalized));
    assert_eq!(contract.start_execution(&at(25), 9, 1), error(SettlementError::AlreadyFinalized));
    assert_eq!(contract.close_period(&at(34), 9, 1), error(SettlementError::AlreadyFinalized));
    assert_eq!(contract.expire_period(&at(90), 9, 1), error(SettlementError::AlreadyFinalized));
    assert_eq!(contract.get_period(9, 1), Some(closed));
    assert_eq!(contract.get_next_period_id(9), 2);
    assert_eq!(
        contract.events()[1..].to_vec(),
        vec![
            SettlementEvent::PeriodCreated {
                company_id: 9,
                period_id: 1,
                open_at: 10,
                execute_at: 20,
                grace_until: 30,
                close_at: 40,
            },
            SettlementEvent::PhaseChanged { company_id: 9, period_id: 1, phase: PeriodPhase::Open },
            SettlementEvent::PhaseChanged {
                company_id: 9,
                period_id: 1,
                phase: PeriodPhase::Executing,
            },
            SettlementEvent::PhaseChanged {
                company_id: 9,
                period_id: 1,
                phase: PeriodPhase::Closed,
            },
        ]
    );
}

#[test]
fn settlement_no_opening_after_grace() {
    let mut contract = setup();
    let created = contract.create_period(&at(0), 1, 0, 10, 50, 100).unwrap();
    for now in [51, 100, 101, 200] {
        assert_eq!(
            contract.open_period(&at(now), 1, 1),
            error(SettlementError::ExecutionWindowExpired)
        );
    }
    assert_eq!(contract.get_period(1, 1), Some(created));
    assert_eq!(contract.open_period(&at(50), 1, 1).unwrap().phase, PeriodPhase::Open);
}

#[test]
fn settlement_no_closing_after_grace() {
    let mut contract = setup();
    let created = contract.create_period(&at(0), 1, 0, 10, 50, 100).unwrap();
    for now in [51, 60, 100, 200] {
        assert_eq!(
            contract.close_period(&at(now), 1, 1),
            error(SettlementError::ExecutionWindowExpired)
        );
    }
    assert_eq!(contract.get_period(1, 1), Some(created));
    assert_eq!(contract.close_period(&at(50), 1, 1).unwrap().phase, PeriodPhase::Closed);
}

#[test]
fn settlement_after_grace_only_cancellation_and_expiry() {
    let mut contract = setup();
    contract.create_period(&at(0), 1, 0, 10, 50, 100).unwrap();
    contract.create_period(&at(0), 2, 0, 10, 50, 100).unwrap();
    assert_eq!(
        contract.start_execution(&at(60), 1, 1),
        error(SettlementError::ExecutionWindowExpired)
    );
    assert_eq!(contract.cancel_period(&at(60), 1, 1).unwrap().phase, PeriodPhase::Cancelled);
    assert_eq!(contract.expire_period(&at(101), 2, 1).unwrap().phase, PeriodPhase::Expired);
}

#[test]
fn settlement_numbers_have_no_gap() {
    let mut contract = setup();
    for number in 1..=4u32 {
        assert_eq!(contract.get_next_period_id(3), number);
        contract.create_period(&at(0), 3, 0, 10, 50, 100).unwrap();
        contract.cancel_period(&at(0), 3, number).unwrap();
    }
    for number in 1..=4u32 {
        assert_eq!(contract.get_period(3, number).unwrap().period_id, number);
    }
    assert_eq!(contract.get_period(3, 0), None);
    assert_eq!(contract.get_period(3, 5), None);
}

#[test]
fn settlement_cancel_until_hard_close() {
    let mut contract = setup();
    contract.create_period(&at(0), 1, 0, 10, 50, 100).unwrap();
    assert_eq!(contract.cancel_period(&at(101), 1, 1), error(SettlementError::PeriodClosed));
    assert_eq!(
        contract.cancel_period(&at(100), 1, 1).unwrap().phase,
        PeriodPhase::Cancelled
    );
    assert_eq!(
        contract.events().last(),
        Some(&SettlementEvent::PeriodCancelled { company_id: 1, period_id: 1, at: 100 })
    );
}

#[test]
fn settlement_unknown_period() {
    let mut contract = setup();
    assert_eq!(contract.open_period(&at(0), 1, 1), error(SettlementError::PeriodNotFound));
    assert_eq!(
        contract.check_execution_allowed(&at(0), 1, 1),
        Err(SettlementError::PeriodNotFound)
    );
    assert_eq!(contract.get_period(1, 1), None);
    assert_eq!(contract.get_phase(1, 1), None);
    assert_eq!(contract.get_next_period_id(1), 1);
}

#[test]
fn settlement_companies_are_isolated() {
    let mut contract = setup();
    contract.create_period(&at(0), 1, 0, 10, 50, 100).unwrap();
    contract.create_period(&at(0), 2, 0, 10, 50, 100).unwrap();
    contract.cancel_period(&at(0), 1, 1).unwrap();
    assert_eq!(contract.get_phase(2, 1), Some(PeriodPhase::Pending));
    assert_eq!(contract.get_phase(1, 1), Some(PeriodPhase::Cancelled));
}

#[test]
fn settlement_window_edges() {
    let mut contract = setup();
    assert!(contract.create_period(&at(0), 1, 7, 7, 7, 7).is_ok());
    assert_eq!(
        contract.create_period(&at(0), 2, 0, 5, 4, 9),
        error(SettlementError::InvalidWindowConfig)
    );
    assert_eq!(
        contract.create_period(&at(0), 2, 0, 5, 9, 8),
        error(SettlementError::InvalidWindowConfig)
    );
    assert_eq!(contract.check_execution_allowed(&at(7), 1, 1), Ok(()));
}

#[test]
fn settlement_sequence_overflow_aborts() {
    let mut contract = setup();
    assert!(contract.restore(DataKey::PeriodSequence(1), DataEntry::Sequence(u32::MAX)));
    assert_eq!(contract.create_period(&at(0), 1, 0, 1, 2, 3), abort(Abort::Overflow));
    assert_eq!(contract.get_next_period_id(1), u32::MAX);
}

#[test]
fn settlement_restore_refuses_misfits() {
    let mut contract = setup();
    assert!(!contract.restore(DataKey::PeriodSequence(1), DataEntry::Sequence(0)));
    assert!(!contract.restore(DataKey::PeriodSequence(1), DataEntry::Address(admin())));
    let period = contract.create_period(&at(0), 1, 0, 1, 2, 3).unwrap();
    assert!(contract.restore(DataKey::Period(1, 1), DataEntry::Period(period)));
    assert!(!contract.restore(DataKey::Period(2, 1), DataEntry::Period(period)));
    assert_eq!(contract.get_period(2, 1), None);
}

#[test]
fn settlement_require_not_finalized() {
    let mut contract = setup();
    let period = contract.create_period(&at(0), 1, 0, 1, 2, 3).unwrap();
    assert_eq!(SettlementWindowContract::require_not_finalized(&period), Ok(()));
    let cancelled = contract.cancel_period(&at(0), 1, 1).unwrap();
    assert_eq!(
        SettlementWindowContract::require_not_finalized(&cancelled),
        Err(SettlementError::AlreadyFinalized)
    );
}

#[test]
fn settlement_codes_and_names() {
    let codes: Vec<u32> = [
        SettlementError::PeriodNotFound,
        SettlementError::PeriodAlreadyExists,
        SettlementError::PeriodNotYetOpen,
        SettlementError::ExecutionWindowNotOpen,
        SettlementError::ExecutionWindowExpired,
        SettlementError::PeriodClosed,
        SettlementError::InvalidWindowConfig,
        SettlementError::Unauthorized,
        SettlementError::AlreadyFinalized,
    ]
    .iter()
    .map(|e| e.code())
    .collect();
    assert_eq!(codes, vec![1, 2, 3, 4, 5, 6, 7, 8, 9]);
    let phases = [
        PeriodPhase::Pending,
        PeriodPhase::Open,
        PeriodPhase::Executing,
        PeriodPhase::Grace,
        PeriodPhase::Closed,
        PeriodPhase::Expired,
        PeriodPhase::Cancelled,
    ];
    let codes: Vec<u32> = phases.iter().map(|p| p.code()).collect();
    assert_eq!(codes, vec![0, 1, 2, 3, 4, 5, 6]);
    let names: Vec<&str> = phases.iter().map(|p| p.name()).collect();
    assert_eq!(
        names,
        vec!["Pending", "Open", "Executing", "Grace", "Closed", "Expired", "Cancelled"]
    );
    let finalized: Vec<bool> = phases.iter().map(|p| p.is_finalized()).collect();
    assert_eq!(finalized, vec![false, false, false, false, true, true, true]);
}

#[test]
fn settlement_finalized_period_stays() {
    let mut contract = setup();
    contract.create_period(&at(0), 1, 0, 10, 50, 100).unwrap();
    let closed = contract.close_period(&at(20), 1, 1).unwrap();
    contract.create_period(&at(21), 1, 30, 40, 50, 60).unwrap();
    contract.open_period(&at(30), 1, 2).unwrap();
    assert!(contract.cancel_period(&at(31), 1, 1).is_err());
    assert!(contract.expire_period(&at(500), 1, 1).is_err());
    contract.expire_period(&at(500), 1, 2).unwrap();
    contract.create_period(&at(501), 1, 600, 600, 600, 600).unwrap();
    assert_eq!(contract.get_period(1, 1), Some(closed));
}
