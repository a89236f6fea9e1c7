use zkpayroll::host::{Abort, Address, Invocation, Symbol};
use zkpayroll::payroll::events::{
    PayrollEvent, ARCHIVAL_BLOCKED, PAYROLL_NS, REVIEW_OPENED, REVIEW_RESOLVED,
};
use zkpayroll::payroll::reviews::{
    emit_archival_blocked, get_overpayment_review, has_open_review, open_overpayment_review,
    resolve_overpayment_review, OverpaymentReview, ReviewDataKey, ReviewStatus,
};
use zkpayroll::payroll::{ContractAddresses, DataEntry, DataKey, Payroll};

fn address(seed: u8) -> Address {
    Address { strkey: [seed; 56] }
}

fn admin() -> Address {
    address(b'A')
}

fn at(timestamp: u64) -> Invocation {
    Invocation { timestamp, paused: false, authorizers: vec![admin()] }
}

fn unsigned() -> Invocation {
    Invocation { timestamp: 0, paused: false, authorizers: vec![] }
}

fn symbol(text: &str) -> Symbol {
    Symbol::new(text.as_bytes()).unwrap()
}

fn setup() -> Payroll {
    let mut payroll = Payroll::new();
    let addresses = ContractAddresses { admin: admin() };
    assert!(payroll.restore(DataKey::Addresses, DataEntry::Addresses(addresses)));
    payroll
}

fn run_payroll(payroll: &mut Payroll, run_id: u64) -> u64 {
    assert!(payroll.restore(DataKey::PayrollRun(run_id), DataEntry::Run));
    run_id
}

fn must<T>(result: Result<T, Abort>) -> T {
    match result {
        Ok(value) => value,
        Err(abort) => panic!("{}", abort.message()),
    }
}

#[test]
#[should_panic]
fn test_unauthorized_open_rejected() {
    let mut payroll = setup();
    let run_id = run_payroll(&mut payroll, 4);
    let attacker = address(b'X');
    must(open_overpayment_review(&mut payroll, &unsigned(), &attacker, run_id));
}

#[test]
#[should_panic]
fn test_unauthorized_resolve_rejected() {
    let mut payroll = setup();
    let run_id = run_payroll(&mut payroll, 5);
    if open_overpayment_review(&mut payroll, &at(0), &admin(), run_id).is_err() {
        return;
    }
    let attacker = address(b'X');
    must(resolve_overpayment_review(
        &mut payroll,
        &unsigned(),
        &attacker,
        run_id,
        symbol("some_reason"),
    ));
}

#[test]
#[should_panic(expected = "Review already open")]
fn test_duplicate_open_rejected() {
    let mut payroll = setup();
    let run_id = run_payroll(&mut payroll, 6);
    must(open_overpayment_review(&mut payroll, &at(0), &admin(), run_id));
    must(open_overpayment_review(&mut payroll, &at(0), &admin(), run_id));
}

#[test]
fn test_reopen_after_resolve_allowed() {
    let mut payroll = setup();
    let run_id = run_payroll(&mut payroll, 7);
    let review_id_1 = must(open_overpayment_review(&mut payroll, &at(0), &admin(), run_id));
    must(resolve_overpayment_review(
        &mut payroll,
        &at(0),
        &admin(),
        run_id,
        symbol("first_close"),
    ));
    let review_id_2 = must(open_overpayment_review(&mut payroll, &at(0), &admin(), run_id));
    assert!(review_id_2 > review_id_1, "Second review must have a higher ID");
    assert!(has_open_review(&payroll, run_id));
}

#[test]
#[should_panic(expected = "Resolution reason must not be empty")]
fn test_empty_reason_rejected() {
    let mut payroll = setup();
    let run_id = run_payroll(&mut payroll, 8);
    must(open_overpayment_review(&mut payroll, &at(0), &admin(), run_id));
    must(resolve_overpayment_review(&mut payroll, &at(0), &admin(), run_id, symbol("")));
}

#[test]
fn test_get_review_returns_none_before_open() {
    let mut payroll = setup();
    let run_id = run_payroll(&mut payroll, 9);
    let result = get_overpayment_review(&payroll, run_id);
    assert!(result.is_none(), "No review should exist before one is opened");
}

#[test]
fn test_has_open_review_reflects_lifecycle() {
    let mut payroll = setup();
    let run_id = run_payroll(&mut payroll, 10);
    assert!(!has_open_review(&payroll, run_id), "Should be false before open");

    must(open_overpayment_review(&mut payroll, &at(0), &admin(), run_id));
    assert!(has_open_review(&payroll, run_id), "Should be true after open");

    must(resolve_overpayment_review(&mut payroll, &at(0), &admin(), run_id, symbol("closed")));
    assert!(!has_open_review(&payroll, run_id), "Should be false after resolve");
}

#[test]
fn test_review_opened_event_is_privacy_safe() {
    let mut payroll = setup();
    let run_id = run_payroll(&mut payroll, 13);
    must(open_overpayment_review(&mut payroll, &at(0), &admin(), run_id));

    let review_event = payroll.events().iter().find(|event| event.name() == "review_opened");
    assert!(review_event.is_some(), "review_opened event must be emitted");
    assert_eq!(PAYROLL_NS, "payroll");
    assert_eq!(review_event.unwrap().name(), "review_opened");
    assert_eq!(
        review_event,
        Some(&PayrollEvent::ReviewOpened { review_id: 1, run_id, flagged_at: 0 })
    );
}

#[test]
fn test_review_resolved_event_emitted() {
    let mut payroll = setup();
    let run_id = run_payroll(&mut payroll, 14);
    must(open_overpayment_review(&mut payroll, &at(0), &admin(), run_id));
    must(resolve_overpayment_review(
        &mut payroll,
        &at(0),
        &admin(),
        run_id,
        symbol("audit_complete"),
    ));
    let resolved_event = payroll.events().iter().find(|event| event.name() == "review_resolved");
    assert!(resolved_event.is_some(), "review_resolved event must be emitted");
}

#[test]
#[should_panic(expected = "Review already resolved")]
fn test_double_resolve_rejected() {
    let mut payroll = setup();
    let run_id = run_payroll(&mut payroll, 15);
    must(open_overpayment_review(&mut payroll, &at(0), &admin(), run_id));
    let reason = symbol("all_good");
    must(resolve_overpayment_review(&mut payroll, &at(0), &admin(), run_id, reason));
    must(resolve_overpayment_review(&mut payroll, &at(0), &admin(), run_id, reason));
}

#[test]
#[should_panic(expected = "Run not found")]
fn test_open_review_for_nonexistent_run() {
    let mut payroll = setup();
    must(open_overpayment_review(&mut payroll, &at(0), &admin(), 999u64));
}

#[test]
fn review_records_its_lifecycle() {
    let mut payroll = setup();
    run_payroll(&mut payroll, 3);
    assert_eq!(open_overpayment_review(&mut payroll, &at(50), &admin(), 3), Ok(1));
    let open = OverpaymentReview {
        review_id: 1,
        run_id: 3,
        flagged_at: 50,
        flagged_by: admin(),
        status: ReviewStatus::Open,
        resolved_at: 0,
        resolved_by: None,
        resolution_reason: Symbol::empty(),
    };
    assert_eq!(get_overpayment_review(&payroll, 3), Some(open));
    let reason = symbol("data_entry_err");
    assert_eq!(resolve_overpayment_review(&mut payroll, &at(60), &admin(), 3, reason), Ok(()));
    assert_eq!(
        get_overpayment_review(&payroll, 3),
        Some(OverpaymentReview {
            status: ReviewStatus::Resolved,
            resolved_at: 60,
            resolved_by: Some(admin()),
            resolution_reason: reason,
            ..open
        })
    );
    assert_eq!(
        *payroll.events(),
        vec![
            PayrollEvent::ReviewOpened { review_id: 1, run_id: 3, flagged_at: 50 },
            PayrollEvent::ReviewResolved { review_id: 1, run_id: 3, resolved_at: 60 },
        ]
    );
}

#[test]
fn review_aborts_leave_everything() {
    let mut payroll = Payroll::new();
    assert_eq!(
        open_overpayment_review(&mut payroll, &at(0), &admin(), 1),
        Err(Abort::NotInitialized)
    );
    assert_eq!(
        resolve_overpayment_review(&mut payroll, &at(0), &admin(), 1, symbol("x")),
        Err(Abort::NotInitialized)
    );
    let mut payroll = setup();
    run_payroll(&mut payroll, 1);
    assert_eq!(
        open_overpayment_review(&mut payroll, &at(0), &address(b'X'), 1),
        Err(Abort::Unauthorized)
    );
    assert_eq!(
        open_overpayment_review(&mut payroll, &unsigned(), &admin(), 1),
        Err(Abort::NotAuthorized)
    );
    assert_eq!(
        open_overpayment_review(&mut payroll, &at(0), &admin(), 2),
        Err(Abort::RunNotFound)
    );
    assert_eq!(
        resolve_overpayment_review(&mut payroll, &at(0), &admin(), 1, symbol("x")),
        Err(Abort::ReviewNotFound)
    );
    // An empty reason is told first.
    assert_eq!(
        resolve_overpayment_review(&mut payroll, &at(0), &admin(), 1, symbol("")),
        Err(Abort::EmptyReason)
    );
    assert_eq!(
        resolve_overpayment_review(&mut payroll, &at(0), &address(b'X'), 1, symbol("x")),
        Err(Abort::Unauthorized)
    );
    assert_eq!(
        resolve_overpayment_review(&mut payroll, &unsigned(), &admin(), 1, symbol("x")),
        Err(Abort::NotAuthorized)
    );
    assert_eq!(open_overpayment_review(&mut payroll, &at(0), &admin(), 1), Ok(1));
    assert_eq!(
        open_overpayment_review(&mut payroll, &at(0), &admin(), 1),
        Err(Abort::ReviewAlreadyOpen)
    );
    assert_eq!(payroll.events().len(), 1);
}

#[test]
fn review_runs_are_isolated() {
    let mut payroll = setup();
    let run_a = run_payroll(&mut payroll, 20);
    let run_b = run_payroll(&mut payroll, 21);
    assert_eq!(open_overpayment_review(&mut payroll, &at(0), &admin(), run_a), Ok(1));
    assert!(has_open_review(&payroll, run_a));
    assert!(!has_open_review(&payroll, run_b));
    assert_eq!(open_overpayment_review(&mut payroll, &at(0), &admin(), run_b), Ok(2));
    must(resolve_overpayment_review(&mut payroll, &at(0), &admin(), run_a, symbol("ok")));
    assert!(!has_open_review(&payroll, run_a));
    assert!(has_open_review(&payroll, run_b));
}

#[test]
fn review_counter_overflow_aborts() {
    let mut payroll = setup();
    run_payroll(&mut payroll, 1);
    let key = DataKey::Review(ReviewDataKey::ReviewCounter);
    assert!(payroll.restore(key, DataEntry::Counter(u64::MAX)));
    assert_eq!(
        open_overpayment_review(&mut payroll, &at(0), &admin(), 1),
        Err(Abort::Overflow)
    );
    assert!(payroll.restore(key, DataEntry::Counter(41)));
    assert_eq!(open_overpayment_review(&mut payroll, &at(0), &admin(), 1), Ok(42));
}

#[test]
fn review_archival_blocked_is_announced() {
    let mut payroll = setup();
    emit_archival_blocked(&mut payroll, 7, 3);
    assert_eq!(*payroll.events(), vec![PayrollEvent::ArchivalBlocked { run_id: 7, review_id: 3 }]);
    assert_eq!(payroll.events()[0].name(), ARCHIVAL_BLOCKED);
    assert_eq!(ARCHIVAL_BLOCKED, "archival_blocked");
    assert_eq!(REVIEW_OPENED, "review_opened");
    assert_eq!(REVIEW_RESOLVED, "review_resolved");
}

#[test]
fn review_restore_refuses_misfits() {
    let mut payroll = setup();
    run_payroll(&mut payroll, 1);
    must(open_overpayment_review(&mut payroll, &at(0), &admin(), 1));
    let review = get_overpayment_review(&payroll, 1).unwrap();
    let key = DataKey::Review(ReviewDataKey::OverpaymentReview(1));
    assert!(payroll.restore(key, DataEntry::Review(review)));
    let closed = OverpaymentReview { status: ReviewStatus::Resolved, ..review };
    assert!(!payroll.restore(key, DataEntry::Review(closed)));
    let other = DataKey::Review(ReviewDataKey::OverpaymentReview(2));
    assert!(!payroll.restore(other, DataEntry::Review(review)));
    assert!(!payroll.restore(DataKey::PayrollRun(2), DataEntry::Counter(1)));
    assert_eq!(ReviewStatus::Open.code(), 0);
    assert_eq!(ReviewStatus::Resolved.code(), 1);
}

#[test]
fn review_outlasts_new_runs() {
    let mut payroll = setup();
    run_payroll(&mut payroll, 1);
    assert_eq!(open_overpayment_review(&mut payroll, &at(10), &admin(), 1), Ok(1));
    let review = get_overpayment_review(&payroll, 1);
    run_payroll(&mut payroll, 2);
    run_payroll(&mut payroll, 1);
    assert_eq!(open_overpayment_review(&mut payroll, &at(20), &admin(), 2), Ok(2));
    assert_eq!(get_overpayment_review(&payroll, 1), review);
    must(resolve_overpayment_review(&mut payroll, &at(30), &admin(), 1, symbol("done")));
    assert!(!has_open_review(&payroll, 1));
    assert!(has_open_review(&payroll, 2));
    run_payroll(&mut payroll, 3);
    assert_eq!(open_overpayment_review(&mut payroll, &at(40), &admin(), 3), Ok(3));
}
