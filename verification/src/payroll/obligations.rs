//! Obligation snapshots: what a run owes, fixed before it is locked, executed,
//! cancelled or reconciled, and the digest that binds it.

use crate::crypto::sha256;
use crate::encoding::{push_bytes, push_i128, push_text, push_u32, push_u64};
use crate::host::BytesN;
use vstd::prelude::*;

verus! {

/// What sets a snapshot's digest apart from any other.
pub const SNAPSHOT_DOMAIN: &'static str = "zkpayroll_obligation_snapshot_v1";

/// What a run owes.
#[derive(Clone, Copy, Debug, PartialEq, Eq)]
pub struct ObligationSnapshot {
    /// The run.
    pub run_id: u64,
    /// The root of the obligations.
    pub obligation_root: BytesN<32>,
    /// The sum of the obligations.
    pub total_obligation_amount: i128,
    /// The number of obligations.
    pub obligation_count: u32,
    /// Ledger time of the snapshot.
    pub created_at: u64,
}

/// The bytes that a snapshot's digest is taken of: the domain, then the fields
/// in order, numbers little-endian.
pub open spec fn preimage_of(snapshot: ObligationSnapshot) -> Seq<u8> {
    crate::encoding::ascii_bytes(SNAPSHOT_DOMAIN@) + crate::encoding::le_bytes(
        snapshot.run_id as nat,
        8,
    ) + snapshot.obligation_root.bytes@ + crate::encoding::le_bytes(
        crate::encoding::twos_complement(snapshot.total_obligation_amount),
        16,
    ) + crate::encoding::le_bytes(snapshot.obligation_count as nat, 4) + crate::encoding::le_bytes(
        snapshot.created_at as nat,
        8,
    )
}

/// The length of the bytes that a snapshot's digest is taken of.
pub proof fn lemma_preimage_len(snapshot: ObligationSnapshot)
    ensures
        preimage_of(snapshot).len() == 100,
{
    reveal_strlit("zkpayroll_obligation_snapshot_v1");
    crate::encoding::lemma_le_bytes_len(snapshot.run_id as nat, 8);
    crate::encoding::lemma_le_bytes_len(
        crate::encoding::twos_complement(snapshot.total_obligation_amount),
        16,
    );
    crate::encoding::lemma_le_bytes_len(snapshot.obligation_count as nat, 4);
    crate::encoding::lemma_le_bytes_len(snapshot.created_at as nat, 8);
}

/// The bytes that a snapshot's digest is taken of.
pub fn obligation_snapshot_preimage(snapshot: &ObligationSnapshot) -> (preimage: Vec<u8>)
    ensures
        preimage@ == preimage_of(*snapshot),
{
    proof {
        reveal_strlit("zkpayroll_obligation_snapshot_v1");
    }
    let mut preimage: Vec<u8> = Vec::new();
    push_text(&mut preimage, SNAPSHOT_DOMAIN);
    push_u64(&mut preimage, snapshot.run_id);
    push_bytes(&mut preimage, &snapshot.obligation_root.bytes);
    push_i128(&mut preimage, snapshot.total_obligation_amount);
    push_u32(&mut preimage, snapshot.obligation_count);
    push_u64(&mut preimage, snapshot.created_at);
    assert(preimage@ =~= preimage_of(*snapshot));
    preimage
}

/// The digest that binds a snapshot's fields.
pub fn compute_obligation_snapshot_digest(snapshot: &ObligationSnapshot) -> (digest: BytesN<32>)
    ensures
        digest.bytes@ == crate::crypto::sha256_digest(preimage_of(*snapshot)),
{
    let preimage: Vec<u8> = obligation_snapshot_preimage(snapshot);
    proof {
        lemma_preimage_len(*snapshot);
    }
    BytesN::from_array(sha256(&preimage))
}

/// Whether the parameters can be those of a snapshot: the root is not zero, and
/// something is owed to someone.
pub open spec fn meaningful(root: BytesN<32>, amount: i128, count: u32) -> bool {
    &&& exists|i: int| 0 <= i < 32 && root.bytes@[i] != 0
    &&& amount > 0
    &&& count > 0
}

/// Whether a snapshot was taken of these parameters.
pub open spec fn snapshot_matches(
    stored: ObligationSnapshot,
    root: BytesN<32>,
    amount: i128,
    count: u32,
) -> bool {
    &&& meaningful(root, amount, count)
    &&& stored.obligation_root == root
    &&& stored.total_obligation_amount == amount
    &&& stored.obligation_count == count
}

/// Whether a stored snapshot was taken of the given parameters. Parameters that
/// no snapshot can have match nothing.
pub fn verify_snapshot_integrity(
    stored: &ObligationSnapshot,
    expected_root: &BytesN<32>,
    expected_amount: i128,
    expected_count: u32,
) -> (valid: bool)
    ensures
        valid == snapshot_matches(*stored, *expected_root, expected_amount, expected_count),
{
    let zero: BytesN<32> = BytesN::from_array([0u8; 32]);
    assert(*expected_root == zero <==> !(exists|i: int|
        0 <= i < 32 && expected_root.bytes@[i] != 0)) by {
        if forall|i: int| 0 <= i < 32 ==> expected_root.bytes@[i] == 0 {
            assert(expected_root.bytes =~= zero.bytes);
        }
    }
    if expected_root.same(&zero) || expected_amount <= 0 || expected_count == 0 {
        return false;
    }
    stored.obligation_root.same(expected_root) && stored.total_obligation_amount == expected_amount
        && stored.obligation_count == expected_count
}

/// Where each field stands in the bytes that a snapshot's digest is taken of:
/// after the 32 characters of the domain the run, the root, the amount, the
/// count and the time, numbers lowest byte first.
pub proof fn lemma_preimage_layout(snapshot: ObligationSnapshot)
    ensures
        ({
            let bytes = preimage_of(snapshot);
            let amount = snapshot.total_obligation_amount;
            &&& bytes.len() == 100
            &&& forall|i: int|
                0 <= i < 32 ==> #[trigger] bytes[i] == "zkpayroll_obligation_snapshot_v1"@[i] as u8
            &&& crate::encoding::le_value(bytes.subrange(32, 40)) == snapshot.run_id
            &&& bytes.subrange(40, 72) == snapshot.obligation_root.bytes@
            &&& crate::encoding::le_value(bytes.subrange(72, 88)) == (if amount >= 0 {
                amount as int
            } else {
                amount + 340282366920938463463374607431768211456
            })
            &&& crate::encoding::le_value(bytes.subrange(88, 92)) == snapshot.obligation_count
            &&& crate::encoding::le_value(bytes.subrange(92, 100)) == snapshot.created_at
        }),
{
    reveal_strlit("zkpayroll_obligation_snapshot_v1");
    let bytes = preimage_of(snapshot);
    let amount = crate::encoding::twos_complement(snapshot.total_obligation_amount);
    crate::encoding::lemma_capacities();
    crate::encoding::lemma_twos_complement_value(snapshot.total_obligation_amount);
    crate::encoding::lemma_le_bytes_value(snapshot.run_id as nat, 8);
    crate::encoding::lemma_le_bytes_value(amount, 16);
    crate::encoding::lemma_le_bytes_value(snapshot.obligation_count as nat, 4);
    crate::encoding::lemma_le_bytes_value(snapshot.created_at as nat, 8);
    assert(bytes.subrange(32, 40) =~= crate::encoding::le_bytes(snapshot.run_id as nat, 8));
    assert(bytes.subrange(72, 88) =~= crate::encoding::le_bytes(amount, 16));
    assert(bytes.subrange(88, 92) =~= crate::encoding::le_bytes(
        snapshot.obligation_count as nat,
        4,
    ));
    assert(bytes.subrange(92, 100) =~= crate::encoding::le_bytes(snapshot.created_at as nat, 8));
    assert(bytes.subrange(40, 72) =~= snapshot.obligation_root.bytes@);
}

/// What a snapshot is accepted for: exactly its own root, amount and count, and
/// only where the root is not all zeros and amount and count are above zero.
pub proof fn lemma_integrity(
    stored: ObligationSnapshot,
    root: BytesN<32>,
    amount: i128,
    count: u32,
)
    ensures
        snapshot_matches(stored, root, amount, count) <==> {
            &&& stored.obligation_root.bytes@ == root.bytes@
            &&& stored.total_obligation_amount == amount
            &&& stored.obligation_count == count
            &&& !(forall|i: int| 0 <= i < 32 ==> #[trigger] root.bytes@[i] == 0)
            &&& amount >= 1
            &&& count >= 1
        },
{
    if stored.obligation_root.bytes@ == root.bytes@ {
        assert(stored.obligation_root.bytes =~= root.bytes);
    }
}

/// A snapshot matches at most one root, amount and count.
pub proof fn lemma_integrity_pins_parameters(
    stored: ObligationSnapshot,
    root: BytesN<32>,
    amount: i128,
    count: u32,
    other_root: BytesN<32>,
    other_amount: i128,
    other_count: u32,
)
    requires
        snapshot_matches(stored, root, amount, count),
    ensures
        snapshot_matches(stored, other_root, other_amount, other_count) <==> other_root == root
            && other_amount == amount && other_count == count,
{
}

/// Two snapshots that differ in any field are hashed from different bytes: their
/// digests can be equal only where the hash function collides.
pub proof fn lemma_digest_binds_snapshot(a: ObligationSnapshot, b: ObligationSnapshot)
    requires
        preimage_of(a) == preimage_of(b),
    ensures
        a == b,
{
    reveal_strlit("zkpayroll_obligation_snapshot_v1");
    let s = preimage_of(a);
    let t = preimage_of(b);
    let amount_a = crate::encoding::twos_complement(a.total_obligation_amount);
    let amount_b = crate::encoding::twos_complement(b.total_obligation_amount);
    crate::encoding::lemma_le_bytes_len(a.run_id as nat, 8);
    crate::encoding::lemma_le_bytes_len(b.run_id as nat, 8);
    crate::encoding::lemma_le_bytes_len(amount_a, 16);
    crate::encoding::lemma_le_bytes_len(amount_b, 16);
    crate::encoding::lemma_le_bytes_len(a.obligation_count as nat, 4);
    crate::encoding::lemma_le_bytes_len(b.obligation_count as nat, 4);
    crate::encoding::lemma_le_bytes_len(a.created_at as nat, 8);
    crate::encoding::lemma_le_bytes_len(b.created_at as nat, 8);
    assert(s.subrange(32, 40) =~= crate::encoding::le_bytes(a.run_id as nat, 8));
    assert(t.subrange(32, 40) =~= crate::encoding::le_bytes(b.run_id as nat, 8));
    assert(s.subrange(40, 72) =~= a.obligation_root.bytes@);
    assert(t.subrange(40, 72) =~= b.obligation_root.bytes@);
    assert(s.subrange(72, 88) =~= crate::encoding::le_bytes(amount_a, 16));
    assert(t.subrange(72, 88) =~= crate::encoding::le_bytes(amount_b, 16));
    assert(s.subrange(88, 92) =~= crate::encoding::le_bytes(a.obligation_count as nat, 4));
    assert(t.subrange(88, 92) =~= crate::encoding::le_bytes(b.obligation_count as nat, 4));
    assert(s.subrange(92, 100) =~= crate::encoding::le_bytes(a.created_at as nat, 8));
    assert(t.subrange(92, 100) =~= crate::encoding::le_bytes(b.created_at as nat, 8));
    crate::encoding::lemma_capacities();
    crate::encoding::lemma_le_bytes_injective(a.run_id as nat, b.run_id as nat, 8);
    crate::encoding::lemma_twos_complement_injective(
        a.total_obligation_amount,
        b.total_obligation_amount,
    );
    crate::encoding::lemma_twos_complement_injective(
        b.total_obligation_amount,
        a.total_obligation_amount,
    );
    crate::encoding::lemma_le_bytes_injective(amount_a, amount_b, 16);
    crate::encoding::lemma_le_bytes_injective(
        a.obligation_count as nat,
        b.obligation_count as nat,
        4,
    );
    crate::encoding::lemma_le_bytes_injective(a.created_at as nat, b.created_at as nat, 8);
    assert(a.obligation_root.bytes =~= b.obligation_root.bytes);
}

} // verus!
