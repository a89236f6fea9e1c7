use zkpayroll::host::{Address, BytesN, Invocation, Symbol};
use zkpayroll::payroll::audit::{record_audit_marker, ConfidentialAuditMarker};
use zkpayroll::payroll::events::PayrollEvent;
use zkpayroll::payroll::obligations::{
    compute_obligation_snapshot_digest, obligation_snapshot_preimage, verify_snapshot_integrity,
    ObligationSnapshot,
};
use zkpayroll::payroll::reconciliation::{
    create_checkpoint, CheckpointStage, ReservationCheckpoint,
};
use zkpayroll::payroll::signing::{
    compute_protected_content_hash, init_multi_stage_approval, protected_content_preimage,
};
use zkpayroll::payroll::Payroll;

fn at(timestamp: u64) -> Invocation {
    Invocation { timestamp, paused: false, authorizers: vec![] }
}

fn symbol(text: &str) -> Symbol {
    Symbol::new(text.as_bytes()).unwrap()
}

fn bytes(seed: u8) -> BytesN<32> {
    BytesN::from_array([seed; 32])
}

#[test]
fn test_audit_marker_emitted_for_lifecycle_action() {
    let mut payroll = Payroll::new();
    let run_id = 200u64;
    let action_type = symbol("lock_batch");
    let entity_hash = bytes(0x77);
    let marker = record_audit_marker(&mut payroll, &at(0), action_type, run_id, entity_hash);

    assert_eq!(marker.action_type, action_type);
    assert_eq!(marker.run_or_draft_id, run_id);
    assert_eq!(marker.entity_hash, entity_hash);

    let marker_event = payroll.events().iter().find(|event| event.name() == "audit_marker");
    assert!(marker_event.is_some());
}

#[test]
fn test_audit_markers_never_expose_sensitive_salary_data() {
    let mut payroll = Payroll::new();
    let run_id = 201u64;
    let hash = bytes(0x88);
    record_audit_marker(&mut payroll, &at(0), symbol("prepare"), run_id, hash);
    record_audit_marker(&mut payroll, &at(0), symbol("execute"), run_id, hash);

    assert_eq!(
        *payroll.events(),
        vec![
            PayrollEvent::AuditMarker {
                action_type: symbol("prepare"),
                run_or_draft_id: run_id,
                entity_hash: hash,
            },
            PayrollEvent::AuditMarker {
                action_type: symbol("execute"),
                run_or_draft_id: run_id,
                entity_hash: hash,
            },
        ]
    );
}

#[test]
fn test_audit_marker_structure_and_timestamp() {
    let mut payroll = Payroll::new();
    let run_id = 202u64;
    let action = symbol("reconcile");
    let entity_hash = bytes(0x99);
    let call = at(1234);
    let marker = record_audit_marker(&mut payroll, &call, action, run_id, entity_hash);
    assert_eq!(marker.timestamp, call.timestamp);
    assert_eq!(
        marker,
        ConfidentialAuditMarker {
            action_type: action,
            run_or_draft_id: 202,
            entity_hash,
            timestamp: 1234,
        }
    );
}

#[test]
fn test_record_and_verify_obligation_snapshot_success() {
    let run_id = 1u64;
    let root = bytes(0xAA);
    let total_amount = 5_000i128;
    let count = 5u32;
    let stored = ObligationSnapshot {
        run_id,
        obligation_root: root,
        total_obligation_amount: total_amount,
        obligation_count: count,
        created_at: 0,
    };
    let digest = compute_obligation_snapshot_digest(&stored);
    assert_ne!(digest, bytes(0));
    assert_eq!(stored.run_id, run_id);
    assert_eq!(stored.obligation_root, root);
    assert_eq!(stored.total_obligation_amount, total_amount);
    assert_eq!(stored.obligation_count, count);
    for _step in ["lock", "execution", "cancellation", "reconciliation"] {
        assert!(verify_snapshot_integrity(&stored, &root, total_amount, count));
    }
}

#[test]
fn snapshot_digest_values() {
    let snapshot = ObligationSnapshot {
        run_id: 1,
        obligation_root: bytes(0xAA),
        total_obligation_amount: 5_000,
        obligation_count: 5,
        created_at: 0,
    };
    assert_eq!(
        compute_obligation_snapshot_digest(&snapshot).bytes,
        [
            0xbb, 0x4f, 0x88, 0x96, 0x74, 0x99, 0x76, 0x3c, 0x9e, 0x42, 0xa3, 0xfa, 0x2b, 0x2b,
            0x38, 0xd7, 0xaf, 0x5f, 0xe1, 0xf6, 0x51, 0x35, 0x76, 0xaa, 0x26, 0x7b, 0x27, 0x4b,
            0x10, 0x46, 0xf9, 0xb1,
        ]
    );
    let mut root = [0u8; 32];
    for i in 0..32 {
        root[i] = i as u8;
    }
    let negative = ObligationSnapshot {
        run_id: 0x0102030405060708,
        obligation_root: BytesN::from_array(root),
        total_obligation_amount: -2,
        obligation_count: 0xdeadbeef,
        created_at: 1_700_000_000,
    };
    assert_eq!(
        compute_obligation_snapshot_digest(&negative).bytes,
        [
            0x95, 0x8f, 0x4b, 0x6c, 0x25, 0xf8, 0xa1, 0x55, 0xf6, 0xe4, 0x47, 0xc8, 0x10, 0x25,
            0xe6, 0x4b, 0xf7, 0x5c, 0xc4, 0x44, 0x50, 0x07, 0x99, 0x7b, 0x88, 0xa0, 0x1c, 0x3d,
            0x0f, 0x1c, 0x75, 0xe6,
        ]
    );
}

#[test]
fn snapshot_preimage_layout() {
    let snapshot = ObligationSnapshot {
        run_id: 0x0102030405060708,
        obligation_root: bytes(0xAB),
        total_obligation_amount: -2,
        obligation_count: 0x0a0b0c0d,
        created_at: 7,
    };
    let preimage = obligation_snapshot_preimage(&snapshot);
    assert_eq!(preimage.len(), 100);
    assert_eq!(preimage[..32], *b"zkpayroll_obligation_snapshot_v1");
    assert_eq!(preimage[32..40], 0x0102030405060708u64.to_le_bytes());
    assert_eq!(preimage[40..72], [0xAB; 32]);
    assert_eq!(preimage[72..88], (-2i128).to_le_bytes());
    assert_eq!(preimage[88..92], 0x0a0b0c0du32.to_le_bytes());
    assert_eq!(preimage[92..], 7u64.to_le_bytes());
}

#[test]
fn snapshot_integrity_refusals() {
    let stored = ObligationSnapshot {
        run_id: 2,
        obligation_root: bytes(0xAA),
        total_obligation_amount: 5_000,
        obligation_count: 5,
        created_at: 9,
    };
    assert!(verify_snapshot_integrity(&stored, &bytes(0xAA), 5_000, 5));
    assert!(!verify_snapshot_integrity(&stored, &bytes(0xAA), 6_000, 5));
    assert!(!verify_snapshot_integrity(&stored, &bytes(0xAB), 5_000, 5));
    assert!(!verify_snapshot_integrity(&stored, &bytes(0xAA), 5_000, 6));
    // Parameters that no snapshot can have match nothing, whatever is stored.
    let zero_root = ObligationSnapshot { obligation_root: bytes(0), ..stored };
    assert!(!verify_snapshot_integrity(&zero_root, &bytes(0), 5_000, 5));
    let zero_amount = ObligationSnapshot { total_obligation_amount: 0, ..stored };
    assert!(!verify_snapshot_integrity(&zero_amount, &bytes(0xAA), 0, 5));
    let negative = ObligationSnapshot { total_obligation_amount: -1, ..stored };
    assert!(!verify_snapshot_integrity(&negative, &bytes(0xAA), -1, 5));
    let nobody = ObligationSnapshot { obligation_count: 0, ..stored };
    assert!(!verify_snapshot_integrity(&nobody, &bytes(0xAA), 5_000, 0));
}

#[test]
fn snapshot_digest_binds_every_field() {
    let snapshot = ObligationSnapshot {
        run_id: 2,
        obligation_root: bytes(0xAA),
        total_obligation_amount: 5_000,
        obligation_count: 5,
        created_at: 9,
    };
    let digest = compute_obligation_snapshot_digest(&snapshot);
    assert_eq!(compute_obligation_snapshot_digest(&snapshot), digest);
    let changed = [
        ObligationSnapshot { run_id: 3, ..snapshot },
        ObligationSnapshot { obligation_root: bytes(0xAB), ..snapshot },
        ObligationSnapshot { total_obligation_amount: 5_001, ..snapshot },
        ObligationSnapshot { obligation_count: 6, ..snapshot },
        ObligationSnapshot { created_at: 10, ..snapshot },
    ];
    for other in changed {
        assert_ne!(compute_obligation_snapshot_digest(&other), digest);
    }
}

#[test]
fn content_hash_values() {
    let hash = compute_protected_content_hash(20_000, 4, &bytes(0x11), &bytes(0x22));
    assert_eq!(
        hash.bytes,
        [
            0xf6, 0x03, 0xea, 0xfa, 0xfa, 0x96, 0x6b, 0xb2, 0xa4, 0x2b, 0x52, 0xfc, 0x38, 0x91,
            0x31, 0xc5, 0x36, 0x39, 0xbe, 0x16, 0x57, 0x67, 0xb9, 0x80, 0x60, 0x25, 0x70, 0x35,
            0x3f, 0x64, 0xed, 0xc1,
        ]
    );
    let amended = compute_protected_content_hash(25_000, 5, &bytes(0x33), &bytes(0x44));
    assert_eq!(
        amended.bytes,
        [
            0x36, 0x0d, 0x6f, 0x65, 0xbf, 0xee, 0x64, 0x66, 0x69, 0xf1, 0x51, 0x8e, 0xb3, 0x9a,
            0xb8, 0x60, 0x94, 0x60, 0x01, 0xb3, 0xa4, 0xa9, 0xe7, 0xa8, 0x20, 0x3a, 0xee, 0x9b,
            0xea, 0xa3, 0x85, 0x21,
        ]
    );
    for other in [
        compute_protected_content_hash(20_001, 4, &bytes(0x11), &bytes(0x22)),
        compute_protected_content_hash(20_000, 5, &bytes(0x11), &bytes(0x22)),
        compute_protected_content_hash(20_000, 4, &bytes(0x12), &bytes(0x22)),
        compute_protected_content_hash(20_000, 4, &bytes(0x11), &bytes(0x23)),
    ] {
        assert_ne!(other, hash);
    }
}

#[test]
fn content_preimage_layout() {
    let preimage = protected_content_preimage(i128::MIN, 9, &bytes(1), &bytes(2));
    assert_eq!(preimage.len(), 114);
    assert_eq!(preimage[..30], *b"zkpayroll_protected_content_v1");
    assert_eq!(preimage[30..46], i128::MIN.to_le_bytes());
    assert_eq!(preimage[46..50], 9u32.to_le_bytes());
    assert_eq!(preimage[50..82], [1; 32]);
    assert_eq!(preimage[82..], [2; 32]);
}

#[test]
fn approval_starts_empty() {
    let approval = init_multi_stage_approval(100, bytes(7), 2);
    assert_eq!(approval.draft_id, 100);
    assert_eq!(approval.protected_content_hash, bytes(7));
    assert_eq!(approval.required_approvals, 2);
    assert_eq!(approval.current_approvals, 0);
    assert_eq!(approval.current_stage, 0);
    assert!(!approval.is_locked);
    assert!(approval.signers.is_empty());
}

#[test]
fn checkpoint_reconciled_when_equal() {
    let asset = Address { strkey: [b'T'; 56] };
    let stages = [
        CheckpointStage::Lock,
        CheckpointStage::Execution,
        CheckpointStage::Cancellation,
        CheckpointStage::Expiry,
        CheckpointStage::Close,
    ];
    for stage in stages {
        let checkpoint = create_checkpoint(&at(8), 300, stage, 15_000, 15_000, asset);
        assert_eq!(
            checkpoint,
            ReservationCheckpoint {
                run_id: 300,
                stage,
                expected_reserved_amount: 15_000,
                actual_reserved_amount: 15_000,
                asset,
                is_reconciled: true,
                timestamp: 8,
            }
        );
    }
    let drifted = create_checkpoint(&at(8), 301, CheckpointStage::Lock, 20_000, 18_000, asset);
    assert!(!drifted.is_reconciled);
    assert_eq!(drifted.expected_reserved_amount, 20_000);
    assert_eq!(drifted.actual_reserved_amount, 18_000);
    let codes: Vec<u32> = stages.iter().map(|stage| stage.code()).collect();
    assert_eq!(codes, vec![1, 2, 3, 4, 5]);
}
