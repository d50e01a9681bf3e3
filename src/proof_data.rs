//! The proof bundles that balance-changing instructions carry, each with its
//! components in the order the verifier expects them.

use solana_zk_elgamal_proof_interface::proof_data::{
    BatchedGroupedCiphertext2HandlesValidityProofData,
    BatchedGroupedCiphertext3HandlesValidityProofData, BatchedRangeProofU128Data,
    BatchedRangeProofU256Data, BatchedRangeProofU64Data, CiphertextCommitmentEqualityProofData,
    PercentageWithCapProofData,
};
use vstd::prelude::*;

verus! {

/// The proof data of a withdrawal: the new available balance equals the
/// committed remaining balance, which lies in range.
pub struct WithdrawProofData {
    pub equality_proof_data: CiphertextCommitmentEqualityProofData,
    pub range_proof_data: BatchedRangeProofU64Data,
    /// The remaining balance that both proofs speak of.
    pub remaining_balance: Ghost<u64>,
}

/// The proof data required for a confidential mint instruction.
pub struct MintProofData {
    pub equality_proof_data: CiphertextCommitmentEqualityProofData,
    pub ciphertext_validity_proof_data: BatchedGroupedCiphertext3HandlesValidityProofData,
    pub range_proof_data: BatchedRangeProofU128Data,
    /// The new supply that the equality and range proofs speak of.
    pub new_supply: Ghost<u64>,
    /// The low 16 bits of the mint amount, as the validity and range proofs
    /// speak of them.
    pub mint_amount_lo: Ghost<u64>,
    /// The high 32 bits of the mint amount, as the validity and range proofs
    /// speak of them.
    pub mint_amount_hi: Ghost<u64>,
}

/// The proof data required for a confidential transfer instruction when the
/// mint is not extended for fees.
pub struct TransferProofData {
    pub equality_proof_data: CiphertextCommitmentEqualityProofData,
    pub ciphertext_validity_proof_data: BatchedGroupedCiphertext3HandlesValidityProofData,
    pub range_proof_data: BatchedRangeProofU128Data,
    /// The source's remaining balance that the equality and range proofs
    /// speak of.
    pub remaining_balance: Ghost<u64>,
    /// The low 16 bits of the transfer amount, as the validity and range
    /// proofs speak of them.
    pub transfer_amount_lo: Ghost<u64>,
    /// The high 32 bits of the transfer amount, as the validity and range
    /// proofs speak of them.
    pub transfer_amount_hi: Ghost<u64>,
}

/// The proof data required for a confidential transfer instruction when the
/// mint is extended for fees.
pub struct TransferWithFeeProofData {
    pub equality_proof_data: CiphertextCommitmentEqualityProofData,
    pub transfer_amount_ciphertext_validity_proof_data:
        BatchedGroupedCiphertext3HandlesValidityProofData,
    pub percentage_with_cap_proof_data: PercentageWithCapProofData,
    pub fee_ciphertext_validity_proof_data: BatchedGroupedCiphertext2HandlesValidityProofData,
    pub range_proof_data: BatchedRangeProofU256Data,
    /// The source's remaining balance that the equality and range proofs
    /// speak of.
    pub remaining_balance: Ghost<u64>,
    /// The low 16 bits of the transfer amount.
    pub transfer_amount_lo: Ghost<u64>,
    /// The high 32 bits of the transfer amount.
    pub transfer_amount_hi: Ghost<u64>,
    /// The fee that the percentage-with-cap and fee validity proofs speak of.
    pub fee_amount: Ghost<u64>,
    /// What rounding the fee up added, in basis points of a token.
    pub delta_fee: Ghost<u64>,
}

} // verus!
