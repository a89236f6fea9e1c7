//! Reservation checkpoints: what a run should have reserved at a stage, against
//! what it has.

use crate::host::{Address, Invocation};
use vstd::prelude::*;

verus! {

/// The stage of a run at which its reservation is compared.
#[derive(Clone, Copy, Debug, PartialEq, Eq, Structural)]
pub enum CheckpointStage {
    /// The run was locked.
    Lock,
    /// The run was executed.
    Execution,
    /// The run was cancelled.
    Cancellation,
    /// The run expired.
    Expiry,
    /// The run was closed.
    Close,
}

/// The number of a stage.
pub open spec fn stage_code(stage: CheckpointStage) -> u32 {
    match stage {
        CheckpointStage::Lock => 1,
        CheckpointStage::Execution => 2,
        CheckpointStage::Cancellation => 3,
        CheckpointStage::Expiry => 4,
        CheckpointStage::Close => 5,
    }
}

impl CheckpointStage {
    /// The number of the stage.
    pub fn code(&self) -> (code: u32)
        ensures
            code == stage_code(*self),
    {
        match self {
            CheckpointStage::Lock => 1,
            CheckpointStage::Execution => 2,
            CheckpointStage::Cancellation => 3,
            CheckpointStage::Expiry => 4,
            CheckpointStage::Close => 5,
        }
    }
}

/// Stages are told apart by their numbers.
pub proof fn lemma_stage_codes_distinct(a: CheckpointStage, b: CheckpointStage)
    ensures
        stage_code(a) == stage_code(b) ==> a == b,
{
}

/// One comparison of a reservation.
#[derive(Clone, Copy, Debug, PartialEq, Eq)]
pub struct ReservationCheckpoint {
    /// The run.
    pub run_id: u64,
    /// The stage.
    pub stage: CheckpointStage,
    /// What should be reserved.
    pub expected_reserved_amount: i128,
    /// What is reserved.
    pub actual_reserved_amount: i128,
    /// The asset it is reserved in.
    pub asset: Address,
    /// Whether the two amounts are equal.
    pub is_reconciled: bool,
    /// Ledger time of the comparison.
    pub timestamp: u64,
}

/// The checkpoint of a comparison.
pub open spec fn checkpoint_of(
    call: Invocation,
    run_id: u64,
    stage: CheckpointStage,
    expected_reserved_amount: i128,
    actual_reserved_amount: i128,
    asset: Address,
) -> ReservationCheckpoint {
    ReservationCheckpoint {
        run_id,
        stage,
        expected_reserved_amount,
        actual_reserved_amount,
        asset,
        is_reconciled: expected_reserved_amount == actual_reserved_amount,
        timestamp: call.timestamp,
    }
}

/// A checkpoint is reconciled exactly when nothing is missing and nothing is
/// left over, at every stage and in every asset; and it keeps what was compared,
/// so that two comparisons with the same checkpoint were of the same things at
/// the same time.
pub proof fn lemma_checkpoint_tells_drift(
    call: Invocation,
    run_id: u64,
    stage: CheckpointStage,
    expected: i128,
    actual: i128,
    asset: Address,
)
    ensures
        ({
            let checkpoint = checkpoint_of(call, run_id, stage, expected, actual, asset);
            &&& checkpoint.is_reconciled <==> expected - actual == 0
            &&& checkpoint.run_id == run_id
            &&& checkpoint.stage == stage
            &&& checkpoint.expected_reserved_amount == expected
            &&& checkpoint.actual_reserved_amount == actual
            &&& checkpoint.asset == asset
            &&& checkpoint.timestamp == call.timestamp
            &&& checkpoint.is_reconciled == checkpoint_of(
                call,
                run_id,
                stage,
                actual,
                expected,
                asset,
            ).is_reconciled
        }),
{
}

/// Compares a reservation with what it should be. The checkpoint is reconciled
/// exactly when the two amounts are equal.
pub fn create_checkpoint(
    call: &Invocation,
    run_id: u64,
    stage: CheckpointStage,
    expected_reserved_amount: i128,
    actual_reserved_amount: i128,
    asset: Address,
) -> (checkpoint: ReservationCheckpoint)
    ensures
        checkpoint == (ReservationCheckpoint {
            run_id,
            stage,
            expected_reserved_amount,
            actual_reserved_amount,
            asset,
            is_reconciled: expected_reserved_amount == actual_reserved_amount,
            timestamp: call.timestamp,
        }),
        checkpoint == checkpoint_of(
            *call,
            run_id,
            stage,
            expected_reserved_amount,
            actual_reserved_amount,
            asset,
        ),
{
    ReservationCheckpoint {
        run_id,
        stage,
        expected_reserved_amount,
        actual_reserved_amount,
        asset,
        is_reconciled: expected_reserved_amount == actual_reserved_amount,
        timestamp: call.timestamp,
    }
}

} // verus!
