use zkpayroll::host::{Abort, Address, Failure, Invocation};
use zkpayroll::retention_manager::{
    BlockKind, DataEntry, DataKey, RecordType, RetentionError, RetentionEvent,
    RetentionManagerContract, RetentionRecord, AUDIT_GRANT_RETENTION_SECS,
    CANCELLED_RETENTION_SECS, CHALLENGE_RETENTION_SECS, FINALIZED_RETENTION_SECS,
};

fn admin() -> Address {
    Address { strkey: [b'A'; 56] }
}

fn at(timestamp: u64) -> Invocation {
    Invocation { timestamp, paused: false, authorizers: vec![admin()] }
}

fn setup() -> RetentionManagerContract {
    let mut contract = RetentionManagerContract::new();
    assert_eq!(contract.initialize(&at(0), admin()), Ok(()));
    contract
}

fn error<T>(error: RetentionError) -> Result<T, Failure<RetentionError>> {
    Err(Failure::Error(error))
}

fn abort<T>(abort: Abort) -> Result<T, Failure<RetentionError>> {
    Err(Failure::Abort(abort))
}

#[test]
fn test_prune_eligible_finalized_batch() {
    let mut contract = setup();
    let (company_id, record_id) = (1u64, 42u64);
    contract.register_record(&at(0), company_id, record_id, RecordType::FinalizedBatch).unwrap();

    let later = at(FINALIZED_RETENTION_SECS + 1);
    contract.prune_record(&later, company_id, record_id, RecordType::FinalizedBatch).unwrap();

    let record =
        contract.get_record(company_id, record_id, RecordType::FinalizedBatch).unwrap();
    assert!(record.pruned);
}

#[test]
fn test_prune_rejected_within_window() {
    let mut contract = setup();
    let (company_id, record_id) = (2u64, 1u64);
    contract.register_record(&at(0), company_id, record_id, RecordType::FinalizedBatch).unwrap();

    let result = contract.prune_record(&at(0), company_id, record_id, RecordType::FinalizedBatch);
    assert_eq!(result, error(RetentionError::RetentionWindowActive));
}

#[test]
fn test_prune_blocked_by_active_audit() {
    let mut contract = setup();
    let (company_id, record_id) = (3u64, 10u64);
    contract.register_record(&at(0), company_id, record_id, RecordType::FinalizedBatch).unwrap();
    contract
        .set_audit_block(&at(0), company_id, record_id, RecordType::FinalizedBatch, true)
        .unwrap();

    let later = at(FINALIZED_RETENTION_SECS + 1);
    let result = contract.prune_record(&later, company_id, record_id, RecordType::FinalizedBatch);
    assert_eq!(result, error(RetentionError::ActiveAuditBlock));
}

#[test]
fn test_prune_blocked_by_open_challenge() {
    let mut contract = setup();
    let (company_id, record_id) = (4u64, 20u64);
    contract.register_record(&at(0), company_id, record_id, RecordType::ChallengeRecord).unwrap();
    contract
        .set_challenge_block(&at(0), company_id, record_id, RecordType::ChallengeRecord, true)
        .unwrap();

    let later = at(CHALLENGE_RETENTION_SECS + 1);
    let result = contract.prune_record(&later, company_id, record_id, RecordType::ChallengeRecord);
    assert_eq!(result, error(RetentionError::ActiveChallengeBlock));
}

#[test]
fn test_prune_succeeds_after_audit_block_cleared() {
    let mut contract = setup();
    let (company_id, record_id) = (5u64, 30u64);
    contract.register_record(&at(0), company_id, record_id, RecordType::FinalizedBatch).unwrap();
    contract
        .set_audit_block(&at(0), company_id, record_id, RecordType::FinalizedBatch, true)
        .unwrap();

    let later = at(FINALIZED_RETENTION_SECS + 1);
    contract
        .set_audit_block(&later, company_id, record_id, RecordType::FinalizedBatch, false)
        .unwrap();
    contract.prune_record(&later, company_id, record_id, RecordType::FinalizedBatch).unwrap();
    let r = contract.get_record(company_id, record_id, RecordType::FinalizedBatch).unwrap();
    assert!(r.pruned);
}

#[test]
fn test_cancelled_batch_shorter_window() {
    let mut contract = setup();
    let company_id = 6u64;
    contract.register_record(&at(0), company_id, 1u64, RecordType::CancelledBatch).unwrap();
    contract.register_record(&at(0), company_id, 2u64, RecordType::FinalizedBatch).unwrap();

    let later = at(CANCELLED_RETENTION_SECS + 1);
    assert!(contract.is_eligible_for_pruning(&later, company_id, 1u64, RecordType::CancelledBatch));
    assert!(!contract.is_eligible_for_pruning(
        &later,
        company_id,
        2u64,
        RecordType::FinalizedBatch
    ));
}

#[test]
fn test_prune_idempotent() {
    let mut contract = setup();
    let (company_id, record_id) = (7u64, 99u64);
    contract.register_record(&at(0), company_id, record_id, RecordType::ExpiredAuditGrant).unwrap();

    let later = at(AUDIT_GRANT_RETENTION_SECS + 1);
    contract.prune_record(&later, company_id, record_id, RecordType::ExpiredAuditGrant).unwrap();
    let announced = contract.events().len();
    contract.prune_record(&later, company_id, record_id, RecordType::ExpiredAuditGrant).unwrap();
    assert_eq!(contract.events().len(), announced);
}

#[test]
fn test_retention_override() {
    let mut contract = setup();
    let (company_id, record_id) = (8u64, 55u64);
    contract
        .set_retention_override(&at(0), company_id, RecordType::FinalizedBatch, 1u64)
        .unwrap();
    contract.register_record(&at(0), company_id, record_id, RecordType::FinalizedBatch).unwrap();

    assert!(contract.is_eligible_for_pruning(
        &at(2),
        company_id,
        record_id,
        RecordType::FinalizedBatch
    ));
}

#[test]
fn retention_default_windows() {
    assert_eq!(FINALIZED_RETENTION_SECS, 31_536_000);
    assert_eq!(CANCELLED_RETENTION_SECS, 7_776_000);
    assert_eq!(AUDIT_GRANT_RETENTION_SECS, 2_592_000);
    assert_eq!(CHALLENGE_RETENTION_SECS, 63_072_000);
    let contract = setup();
    assert_eq!(contract.retention_window_for(1, &RecordType::FinalizedBatch), 31_536_000);
    assert_eq!(contract.retention_window_for(1, &RecordType::CancelledBatch), 7_776_000);
    assert_eq!(contract.retention_window_for(1, &RecordType::ExpiredAuditGrant), 2_592_000);
    assert_eq!(contract.retention_window_for(1, &RecordType::ChallengeRecord), 63_072_000);
}

#[test]
fn retention_registration_record() {
    let mut contract = setup();
    let record = contract.register_record(&at(1000), 1, 2, RecordType::CancelledBatch).unwrap();
    assert_eq!(
        record,
        RetentionRecord {
            record_id: 2,
            record_type: RecordType::CancelledBatch,
            registered_at: 1000,
            eligible_after: 7_777_000,
            audit_block: false,
            challenge_block: false,
            pruned: false,
        }
    );
    assert_eq!(contract.get_record(1, 2, RecordType::CancelledBatch), Some(record));
    assert_eq!(contract.get_record(1, 2, RecordType::FinalizedBatch), None);
    assert_eq!(contract.get_record(2, 2, RecordType::CancelledBatch), None);
    assert_eq!(
        contract.events().last(),
        Some(&RetentionEvent::RecordRegistered {
            company_id: 1,
            record_id: 2,
            record_type: RecordType::CancelledBatch,
            eligible_after: 7_777_000,
        })
    );
}

#[test]
fn retention_window_edge_is_inclusive() {
    let mut contract = setup();
    contract.set_retention_override(&at(0), 1, RecordType::FinalizedBatch, 10).unwrap();
    contract.register_record(&at(5), 1, 1, RecordType::FinalizedBatch).unwrap();
    assert!(!contract.is_eligible_for_pruning(&at(14), 1, 1, RecordType::FinalizedBatch));
    assert!(contract.is_eligible_for_pruning(&at(15), 1, 1, RecordType::FinalizedBatch));
    assert_eq!(
        contract.prune_record(&at(14), 1, 1, RecordType::FinalizedBatch),
        error(RetentionError::RetentionWindowActive)
    );
    contract.prune_record(&at(15), 1, 1, RecordType::FinalizedBatch).unwrap();
    assert!(!contract.is_eligible_for_pruning(&at(15), 1, 1, RecordType::FinalizedBatch));
    assert_eq!(
        contract.events().last(),
        Some(&RetentionEvent::RecordPruned {
            company_id: 1,
            record_id: 1,
            record_type: RecordType::FinalizedBatch,
            pruned_at: 15,
        })
    );
}

#[test]
fn retention_blocks_announced_and_ordered() {
    let mut contract = setup();
    contract.set_retention_override(&at(0), 1, RecordType::FinalizedBatch, 10).unwrap();
    contract.register_record(&at(0), 1, 1, RecordType::FinalizedBatch).unwrap();
    let audited =
        contract.set_audit_block(&at(0), 1, 1, RecordType::FinalizedBatch, true).unwrap();
    assert!(audited.audit_block && !audited.challenge_block);
    let both =
        contract.set_challenge_block(&at(0), 1, 1, RecordType::FinalizedBatch, true).unwrap();
    assert!(both.audit_block && both.challenge_block);
    assert_eq!(
        contract.prune_record(&at(10), 1, 1, RecordType::FinalizedBatch),
        error(RetentionError::ActiveAuditBlock)
    );
    contract.set_audit_block(&at(10), 1, 1, RecordType::FinalizedBatch, false).unwrap();
    assert_eq!(
        contract.prune_record(&at(10), 1, 1, RecordType::FinalizedBatch),
        error(RetentionError::ActiveChallengeBlock)
    );
    assert_eq!(
        contract.events()[2..].to_vec(),
        vec![
            RetentionEvent::BlockChanged {
                company_id: 1,
                record_id: 1,
                kind: BlockKind::Audit,
                blocked: true,
            },
            RetentionEvent::BlockChanged {
                company_id: 1,
                record_id: 1,
                kind: BlockKind::Challenge,
                blocked: true,
            },
            RetentionEvent::BlockChanged {
                company_id: 1,
                record_id: 1,
                kind: BlockKind::Audit,
                blocked: false,
            },
        ]
    );
}

#[test]
fn retention_unknown_record() {
    let mut contract = setup();
    let kind = RecordType::FinalizedBatch;
    assert_eq!(
        contract.set_audit_block(&at(0), 1, 1, kind, true),
        error(RetentionError::RecordNotFound)
    );
    assert_eq!(
        contract.set_challenge_block(&at(0), 1, 1, kind, true),
        error(RetentionError::RecordNotFound)
    );
    assert_eq!(contract.prune_record(&at(0), 1, 1, kind), error(RetentionError::RecordNotFound));
    assert!(!contract.is_eligible_for_pruning(&at(u64::MAX), 1, 1, kind));
}

#[test]
fn retention_override_zero_restores_default() {
    let mut contract = setup();
    let kind = RecordType::ExpiredAuditGrant;
    contract.set_retention_override(&at(0), 1, kind, 7).unwrap();
    contract.register_record(&at(0), 1, 1, kind).unwrap();
    contract.set_retention_override(&at(0), 1, kind, 0).unwrap();
    assert_eq!(contract.retention_window_for(1, &kind), AUDIT_GRANT_RETENTION_SECS);
    // The record that was there keeps its time.
    assert_eq!(contract.get_record(1, 1, kind).unwrap().eligible_after, 7);
    assert_eq!(contract.retention_window_for(2, &kind), AUDIT_GRANT_RETENTION_SECS);
}

#[test]
fn retention_reregistration_starts_anew() {
    let mut contract = setup();
    let kind = RecordType::FinalizedBatch;
    contract.set_retention_override(&at(0), 1, kind, 1).unwrap();
    contract.register_record(&at(0), 1, 1, kind).unwrap();
    contract.prune_record(&at(1), 1, 1, kind).unwrap();
    contract.set_audit_block(&at(1), 1, 1, kind, true).unwrap();
    assert!(contract.get_record(1, 1, kind).unwrap().pruned);
    let anew = contract.register_record(&at(2), 1, 1, kind).unwrap();
    assert!(!anew.pruned && !anew.audit_block);
    assert_eq!(anew.eligible_after, 3);
}

#[test]
fn retention_window_overflow_aborts() {
    let mut contract = setup();
    let kind = RecordType::FinalizedBatch;
    contract.set_retention_override(&at(0), 1, kind, u64::MAX).unwrap();
    assert_eq!(contract.register_record(&at(1), 1, 1, kind), Err(Abort::Overflow));
    assert_eq!(contract.get_record(1, 1, kind), None);
    assert!(contract.register_record(&at(0), 1, 1, kind).is_ok());
}

#[test]
fn retention_guards() {
    let kind = RecordType::FinalizedBatch;
    let nobody = Invocation { timestamp: 0, paused: false, authorizers: vec![] };
    let held = Invocation { timestamp: 0, paused: true, authorizers: vec![admin()] };
    let mut contract = RetentionManagerContract::new();
    assert_eq!(contract.register_record(&at(0), 1, 1, kind), Err(Abort::NotInitialized));
    assert_eq!(contract.initialize(&nobody, admin()), Err(Abort::NotAuthorized));
    contract.initialize(&at(0), admin()).unwrap();
    assert_eq!(contract.initialize(&at(0), admin()), Err(Abort::AlreadyInitialized));
    assert_eq!(contract.prune_record(&nobody, 1, 1, kind), abort(Abort::NotAuthorized));
    contract.set_pause_manager(&at(0), Address { strkey: [b'P'; 56] }).unwrap();
    assert_eq!(contract.register_record(&held, 1, 1, kind), Err(Abort::Paused));
    assert_eq!(contract.set_audit_block(&held, 1, 1, kind, true), abort(Abort::Paused));
    assert_eq!(contract.set_challenge_block(&held, 1, 1, kind, true), abort(Abort::Paused));
    assert_eq!(contract.prune_record(&held, 1, 1, kind), abort(Abort::Paused));
    assert_eq!(contract.set_retention_override(&held, 1, kind, 1), Err(Abort::Paused));
    assert_eq!(contract.require_not_paused(&held), Err(Abort::Paused));
    assert_eq!(contract.require_admin(&nobody), Err(Abort::NotAuthorized));
}

#[test]
fn retention_restore_refuses_misfits() {
    let mut contract = setup();
    let record = contract.register_record(&at(0), 1, 1, RecordType::ChallengeRecord).unwrap();
    let key = RetentionManagerContract::record_key(1, 1, &RecordType::ChallengeRecord);
    assert_eq!(key, DataKey::Record(1, 1, 3));
    assert!(contract.restore(key, DataEntry::Record(record)));
    assert!(!contract.restore(DataKey::Record(1, 1, 2), DataEntry::Record(record)));
    assert!(!contract.restore(DataKey::Record(1, 2, 3), DataEntry::Record(record)));
    assert!(!contract.restore(DataKey::RetentionOverride(1, 0), DataEntry::Window(0)));
    assert!(contract.restore(DataKey::RetentionOverride(1, 0), DataEntry::Window(9)));
    assert_eq!(contract.retention_window_for(1, &RecordType::FinalizedBatch), 9);
}

#[test]
fn retention_codes_and_names() {
    let codes: Vec<u32> = [
        RetentionError::RecordNotFound,
        RetentionError::RetentionWindowActive,
        RetentionError::ActiveAuditBlock,
        RetentionError::ActiveChallengeBlock,
        RetentionError::Unauthorized,
        RetentionError::UnknownRecordType,
    ]
    .iter()
    .map(|e| e.code())
    .collect();
    assert_eq!(codes, vec![1, 2, 3, 4, 5, 6]);
    let kinds = [
        RecordType::FinalizedBatch,
        RecordType::CancelledBatch,
        RecordType::ExpiredAuditGrant,
        RecordType::ChallengeRecord,
    ];
    let codes: Vec<u32> = kinds.iter().map(|k| k.code()).collect();
    assert_eq!(codes, vec![0, 1, 2, 3]);
    let names: Vec<&str> = kinds.iter().map(|k| k.name()).collect();
    assert_eq!(names, vec!["finalized", "cancelled", "audit_grant", "challenge"]);
    assert_eq!(BlockKind::Audit.name(), "audit");
    assert_eq!(BlockKind::Challenge.name(), "challenge");
}

#[test]
fn retention_records_are_isolated() {
    let mut contract = setup();
    let kind = RecordType::FinalizedBatch;
    let kept = contract.register_record(&at(0), 1, 1, kind).unwrap();
    contract.set_retention_override(&at(0), 2, kind, 1).unwrap();
    contract.register_record(&at(0), 2, 1, kind).unwrap();
    contract.register_record(&at(0), 1, 2, kind).unwrap();
    contract.register_record(&at(0), 1, 1, RecordType::CancelledBatch).unwrap();
    contract.prune_record(&at(1), 2, 1, kind).unwrap();
    contract.set_audit_block(&at(1), 1, 2, kind, true).unwrap();
    contract.set_challenge_block(&at(1), 1, 1, RecordType::CancelledBatch, true).unwrap();
    assert_eq!(contract.get_record(1, 1, kind), Some(kept));
}

#[test]
fn retention_clearing_later_undoes_block() {
    let mut contract = setup();
    let kind = RecordType::ChallengeRecord;
    let before = contract.register_record(&at(0), 1, 1, kind).unwrap();
    contract.set_challenge_block(&at(5), 1, 1, kind, true).unwrap();
    contract.register_record(&at(6), 1, 2, kind).unwrap();
    contract.set_challenge_block(&at(7), 1, 2, kind, true).unwrap();
    contract.set_retention_override(&at(8), 1, kind, 3).unwrap();
    assert_eq!(contract.set_challenge_block(&at(900), 1, 1, kind, false), Ok(before));
    assert_eq!(contract.get_record(1, 1, kind), Some(before));
}

#[test]
fn retention_tombstone_stays() {
    let mut contract = setup();
    let kind = RecordType::FinalizedBatch;
    contract.set_retention_override(&at(0), 1, kind, 1).unwrap();
    contract.register_record(&at(0), 1, 1, kind).unwrap();
    contract.prune_record(&at(1), 1, 1, kind).unwrap();
    contract.set_challenge_block(&at(2), 1, 1, kind, true).unwrap();
    contract.prune_record(&at(3), 1, 1, kind).unwrap();
    contract.register_record(&at(4), 1, 2, kind).unwrap();
    contract.set_retention_override(&at(5), 1, kind, 0).unwrap();
    assert!(contract.get_record(1, 1, kind).unwrap().pruned);
}
