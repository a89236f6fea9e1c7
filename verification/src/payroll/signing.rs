//! Draft approvals: the hash of what an approval stands for, and the tracker
//! that counts approvals.

use crate::crypto::sha256;
use crate::encoding::{push_bytes, push_i128, push_text, push_u32};
use crate::host::{Address, BytesN};
use vstd::prelude::*;

verus! {

/// What sets a protected content hash apart from any other.
pub const CONTENT_DOMAIN: &'static str = "zkpayroll_protected_content_v1";

/// The approvals of a draft.
#[derive(Clone, Debug, PartialEq, Eq)]
pub struct MultiStageApproval {
    /// The draft.
    pub draft_id: u64,
    /// The hash of what is approved.
    pub protected_content_hash: BytesN<32>,
    /// How many approvals the draft needs.
    pub required_approvals: u32,
    /// How many approvals the draft has.
    pub current_approvals: u32,
    /// The stage that the approvals have reached.
    pub current_stage: u32,
    /// Whether the draft takes no more approvals.
    pub is_locked: bool,
    /// Who approved.
    pub signers: Vec<Address>,
}

/// The bytes that the protected content's hash is taken of: the domain, then the
/// fields in order, numbers little-endian.
pub open spec fn content_preimage_of(
    total_amount: i128,
    employee_count: u32,
    obligation_root: BytesN<32>,
    metadata_hash: BytesN<32>,
) -> Seq<u8> {
    crate::encoding::ascii_bytes(CONTENT_DOMAIN@) + crate::encoding::le_bytes(
        crate::encoding::twos_complement(total_amount),
        16,
    ) + crate::encoding::le_bytes(employee_count as nat, 4) + obligation_root.bytes@
        + metadata_hash.bytes@
}

/// The length of the bytes that the protected content's hash is taken of.
pub proof fn lemma_content_preimage_len(
    total_amount: i128,
    employee_count: u32,
    obligation_root: BytesN<32>,
    metadata_hash: BytesN<32>,
)
    ensures
        content_preimage_of(total_amount, employee_count, obligation_root, metadata_hash).len()
            == 114,
{
    reveal_strlit("zkpayroll_protected_content_v1");
    crate::encoding::lemma_le_bytes_len(crate::encoding::twos_complement(total_amount), 16);
    crate::encoding::lemma_le_bytes_len(employee_count as nat, 4);
}

/// The bytes that the protected content's hash is taken of.
pub fn protected_content_preimage(
    total_amount: i128,
    employee_count: u32,
    obligation_root: &BytesN<32>,
    metadata_hash: &BytesN<32>,
) -> (preimage: Vec<u8>)
    ensures
        preimage@ == content_preimage_of(
            total_amount,
            employee_count,
            *obligation_root,
            *metadata_hash,
        ),
{
    proof {
        reveal_strlit("zkpayroll_protected_content_v1");
    }
    let mut preimage: Vec<u8> = Vec::new();
    push_text(&mut preimage, CONTENT_DOMAIN);
    push_i128(&mut preimage, total_amount);
    push_u32(&mut preimage, employee_count);
    push_bytes(&mut preimage, &obligation_root.bytes);
    push_bytes(&mut preimage, &metadata_hash.bytes);
    assert(preimage@ =~= content_preimage_of(
        total_amount,
        employee_count,
        *obligation_root,
        *metadata_hash,
    ));
    preimage
}

/// The hash of the fields that cannot change without a new approval.
pub fn compute_protected_content_hash(
    total_amount: i128,
    employee_count: u32,
    obligation_root: &BytesN<32>,
    metadata_hash: &BytesN<32>,
) -> (hash: BytesN<32>)
    ensures
        hash.bytes@ == crate::crypto::sha256_digest(
            content_preimage_of(total_amount, employee_count, *obligation_root, *metadata_hash),
        ),
{
    let preimage: Vec<u8> = protected_content_preimage(
        total_amount,
        employee_count,
        obligation_root,
        metadata_hash,
    );
    proof {
        lemma_content_preimage_len(
            total_amount,
            employee_count,
            *obligation_root,
            *metadata_hash,
        );
    }
    BytesN::from_array(sha256(&preimage))
}

/// Whether the tracker is that of a draft that nobody approved yet.
pub open spec fn untouched(
    approval: MultiStageApproval,
    draft_id: u64,
    protected_content_hash: BytesN<32>,
    required_approvals: u32,
) -> bool {
    &&& approval.draft_id == draft_id
    &&& approval.protected_content_hash == protected_content_hash
    &&& approval.required_approvals == required_approvals
    &&& approval.current_approvals == 0
    &&& approval.current_stage == 0
    &&& !approval.is_locked
    &&& approval.signers@ == Seq::<Address>::empty()
}

/// Whatever the draft, the content and the number of approvals it needs, none
/// included, an untouched tracker counts no approval and no signer, stands at the
/// first stage, takes approvals, and stands for that draft, content and number
/// alone.
pub proof fn lemma_untouched_tracker(
    approval: MultiStageApproval,
    draft_id: u64,
    hash: BytesN<32>,
    required: u32,
    other_draft: u64,
    other_hash: BytesN<32>,
    other_required: u32,
)
    requires
        untouched(approval, draft_id, hash, required),
    ensures
        approval.current_approvals == 0,
        approval.current_stage == 0,
        !approval.is_locked,
        approval.signers@.len() == 0,
        untouched(approval, other_draft, other_hash, other_required) <==> {
            &&& approval.draft_id == other_draft
            &&& approval.protected_content_hash == other_hash
            &&& approval.required_approvals == other_required
        },
        approval.draft_id == draft_id,
        approval.protected_content_hash == hash,
        approval.required_approvals == required,
{
}

/// The tracker of a draft that nobody approved yet.
pub fn init_multi_stage_approval(
    draft_id: u64,
    protected_content_hash: BytesN<32>,
    required_approvals: u32,
) -> (approval: MultiStageApproval)
    ensures
        approval.draft_id == draft_id,
        approval.protected_content_hash == protected_content_hash,
        approval.required_approvals == required_approvals,
        approval.current_approvals == 0,
        approval.current_stage == 0,
        !approval.is_locked,
        approval.signers@ == Seq::<Address>::empty(),
        untouched(approval, draft_id, protected_content_hash, required_approvals),
{
    MultiStageApproval {
        draft_id,
        protected_content_hash,
        required_approvals,
        current_approvals: 0,
        current_stage: 0,
        is_locked: false,
        signers: Vec::new(),
    }
}

/// Contents that differ in any protected field are hashed from different bytes:
/// their hashes can be equal only where the hash function collides.
pub proof fn lemma_hash_binds_content(
    amount_a: i128,
    count_a: u32,
    root_a: BytesN<32>,
    metadata_a: BytesN<32>,
    amount_b: i128,
    count_b: u32,
    root_b: BytesN<32>,
    metadata_b: BytesN<32>,
)
    requires
        content_preimage_of(amount_a, count_a, root_a, metadata_a) == content_preimage_of(
            amount_b,
            count_b,
            root_b,
            metadata_b,
        ),
    ensures
        amount_a == amount_b,
        count_a == count_b,
        root_a == root_b,
        metadata_a == metadata_b,
{
    reveal_strlit("zkpayroll_protected_content_v1");
    let s = content_preimage_of(amount_a, count_a, root_a, metadata_a);
    let t = content_preimage_of(amount_b, count_b, root_b, metadata_b);
    let bits_a = crate::encoding::twos_complement(amount_a);
    let bits_b = crate::encoding::twos_complement(amount_b);
    crate::encoding::lemma_le_bytes_len(bits_a, 16);
    crate::encoding::lemma_le_bytes_len(bits_b, 16);
    crate::encoding::lemma_le_bytes_len(count_a as nat, 4);
    crate::encoding::lemma_le_bytes_len(count_b as nat, 4);
    assert(s.subrange(30, 46) =~= crate::encoding::le_bytes(bits_a, 16));
    assert(t.subrange(30, 46) =~= crate::encoding::le_bytes(bits_b, 16));
    assert(s.subrange(46, 50) =~= crate::encoding::le_bytes(count_a as nat, 4));
    assert(t.subrange(46, 50) =~= crate::encoding::le_bytes(count_b as nat, 4));
    assert(s.subrange(50, 82) =~= root_a.bytes@);
    assert(t.subrange(50, 82) =~= root_b.bytes@);
    assert(s.subrange(82, 114) =~= metadata_a.bytes@);
    assert(t.subrange(82, 114) =~= metadata_b.bytes@);
    crate::encoding::lemma_capacities();
    crate::encoding::lemma_twos_complement_injective(amount_a, amount_b);
    crate::encoding::lemma_twos_complement_injective(amount_b, amount_a);
    crate::encoding::lemma_le_bytes_injective(bits_a, bits_b, 16);
    crate::encoding::lemma_le_bytes_injective(count_a as nat, count_b as nat, 4);
    assert(root_a.bytes =~= root_b.bytes);
    assert(metadata_a.bytes =~= metadata_b.bytes);
}

/// Where each field stands in the bytes that the protected content's hash is
/// taken of: after the 30 characters of the domain the amount, the count, the
/// root and the metadata, numbers lowest byte first.
pub proof fn lemma_content_layout(
    total_amount: i128,
    employee_count: u32,
    obligation_root: BytesN<32>,
    metadata_hash: BytesN<32>,
)
    ensures
        ({
            let bytes = content_preimage_of(
                total_amount,
                employee_count,
                obligation_root,
                metadata_hash,
            );
            &&& bytes.len() == 114
            &&& forall|i: int|
                0 <= i < 30 ==> #[trigger] bytes[i] == "zkpayroll_protected_content_v1"@[i] as u8
            &&& crate::encoding::le_value(bytes.subrange(30, 46)) == (if total_amount >= 0 {
                total_amount as int
            } else {
                total_amount + 340282366920938463463374607431768211456
            })
            &&& crate::encoding::le_value(bytes.subrange(46, 50)) == employee_count
            &&& bytes.subrange(50, 82) == obligation_root.bytes@
            &&& bytes.subrange(82, 114) == metadata_hash.bytes@
        }),
{
    reveal_strlit("zkpayroll_protected_content_v1");
    let bytes = content_preimage_of(total_amount, employee_count, obligation_root, metadata_hash);
    let amount = crate::encoding::twos_complement(total_amount);
    crate::encoding::lemma_capacities();
    crate::encoding::lemma_twos_complement_value(total_amount);
    crate::encoding::lemma_le_bytes_value(amount, 16);
    crate::encoding::lemma_le_bytes_value(employee_count as nat, 4);
    assert(bytes.subrange(30, 46) =~= crate::encoding::le_bytes(amount, 16));
    assert(bytes.subrange(46, 50) =~= crate::encoding::le_bytes(employee_count as nat, 4));
    assert(bytes.subrange(50, 82) =~= obligation_root.bytes@);
    assert(bytes.subrange(82, 114) =~= metadata_hash.bytes@);
}

/// No snapshot is hashed from the bytes of a protected content.
pub proof fn lemma_domains_apart(
    snapshot: crate::payroll::obligations::ObligationSnapshot,
    total_amount: i128,
    employee_count: u32,
    obligation_root: BytesN<32>,
    metadata_hash: BytesN<32>,
)
    ensures
        crate::payroll::obligations::preimage_of(snapshot) != content_preimage_of(
            total_amount,
            employee_count,
            obligation_root,
            metadata_hash,
        ),
{
    crate::payroll::obligations::lemma_preimage_len(snapshot);
    lemma_content_preimage_len(total_amount, employee_count, obligation_root, metadata_hash);
}

} // verus!
