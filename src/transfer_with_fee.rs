//! The proof data of a confidential transfer on a mint that charges a
//! transfer fee.

use crate::account::{
    decrypted_balance, split_pending_amount, TransferAccountInfo, REMAINING_BALANCE_BIT_LENGTH,
    TRANSFER_AMOUNT_HI_BIT_LENGTH, TRANSFER_AMOUNT_LO_BIT_LENGTH,
};
use crate::ciphertext::{leading_commitment, SymmetricKey, TokenError};
use crate::fee::{calculate_fee, fee_delta, raw_fee, ONE_IN_BASIS_POINTS};
use crate::proof_data::TransferWithFeeProofData;
use crate::prover::{
    add_ciphertexts, add_commitments, add_openings, ciphertext_commitment_equality_proof,
    commitment_add_of, commitment_scale_of, commitment_seqs, commitment_sub_of,
    default_elgamal_pubkey, elgamal_add_of, elgamal_pubkey, elgamal_scale_of, elgamal_sub_of,
    grouped_ciphertext_at, grouped_commitment_of, grouped_encrypt_with, grouped_encrypt_with_2,
    grouped_part, grouped_validity_proof_2_handles, grouped_validity_proof_3_handles, new_opening,
    pedersen_commit, pedersen_with, percentage_with_cap_proof, range_context_lists,
    range_proof_u256, scale_ciphertext, scale_commitment, scale_opening, subtract_ciphertexts,
    subtract_commitments, subtract_openings, zero_opening,
};
use solana_zk_sdk::encryption::elgamal::{ElGamalKeypair, ElGamalPubkey};
use vstd::prelude::*;

verus! {

/// Number of bits of the low part of a fee.
pub const FEE_AMOUNT_LO_BIT_LENGTH: usize = 16;

/// Number of bits of the high part of a fee.
pub const FEE_AMOUNT_HI_BIT_LENGTH: usize = 32;

/// Number of bits that the range proofs of the fee delta and of its
/// complement certify.
pub const DELTA_BIT_LENGTH: usize = 48;

/// The fee charged on `amount` at `rate` basis points, capped at `maximum_fee`.
pub open spec fn capped_fee(amount: u64, rate: u16, maximum_fee: u64) -> int {
    if raw_fee(amount, rate) < maximum_fee {
        raw_fee(amount, rate)
    } else {
        maximum_fee as int
    }
}

/// The commitment to `lo + hi * 2^16`, from the commitments to `lo` and `hi`.
pub open spec fn combined_commitment_of(lo: Seq<u8>, hi: Seq<u8>) -> Seq<u8> {
    commitment_add_of(lo, commitment_scale_of(hi, 0x1_0000))
}

/// Combines the commitments to the low and high parts of an amount.
fn combine_commitments(lo: &[u8; 32], hi: &[u8; 32]) -> (r: Option<[u8; 32]>)
    ensures
        r matches Some(c) ==> c@ == combined_commitment_of(lo@, hi@),
{
    match scale_commitment(hi, 0x1_0000) {
        Some(scaled) => add_commitments(lo, &scaled),
        None => None,
    }
}

/// How the components of a fee-charging transfer's proof data fit together:
/// the equality proof is about the stored available balance less the
/// transfer amount under the transfer validity proof; the percentage-with-cap
/// proof's fee commitment is the one under the fee validity proof, and its
/// delta commitment is `fee * 10000 - transfer * rate` over the very
/// transfer-amount commitments of the transfer validity proof; the range
/// proof covers the equality proof's commitment, both transfer parts, the
/// claimed delta and both fee parts at 64, 16, 32, 48, 48, 16 and 32 bits.
pub open spec fn transfer_with_fee_proofs_agree(
    available_balance: Seq<u8>,
    rate: u16,
    p: TransferWithFeeProofData,
) -> bool {
    let validity = p.transfer_amount_ciphertext_validity_proof_data.context;
    let lo = validity.grouped_ciphertext_lo.0@;
    let hi = validity.grouped_ciphertext_hi.0@;
    let fee_validity = p.fee_ciphertext_validity_proof_data.context;
    let fee_lo = fee_validity.grouped_ciphertext_lo.0@;
    let fee_hi = fee_validity.grouped_ciphertext_hi.0@;
    let percentage = p.percentage_with_cap_proof_data.context;
    let fee_commitment = combined_commitment_of(
        grouped_commitment_of(fee_lo),
        grouped_commitment_of(fee_hi),
    );
    let transfer_commitment = combined_commitment_of(
        grouped_commitment_of(lo),
        grouped_commitment_of(hi),
    );
    &&& p.equality_proof_data.context.ciphertext.0@ == elgamal_sub_of(
        available_balance,
        elgamal_add_of(grouped_part(lo, 0), elgamal_scale_of(grouped_part(hi, 0), 0x1_0000)),
    )
    &&& percentage.percentage_commitment.0@ == fee_commitment
    &&& percentage.delta_commitment.0@ == commitment_sub_of(
        commitment_scale_of(fee_commitment, 10000),
        commitment_scale_of(transfer_commitment, rate as u64),
    )
    &&& range_context_lists(
        p.range_proof_data.context,
        seq![
            p.equality_proof_data.context.commitment.0@,
            grouped_commitment_of(lo),
            grouped_commitment_of(hi),
            percentage.claimed_commitment.0@,
        ],
        seq![
            REMAINING_BALANCE_BIT_LENGTH,
            TRANSFER_AMOUNT_LO_BIT_LENGTH,
            TRANSFER_AMOUNT_HI_BIT_LENGTH,
            DELTA_BIT_LENGTH,
            DELTA_BIT_LENGTH,
            FEE_AMOUNT_LO_BIT_LENGTH,
            FEE_AMOUNT_HI_BIT_LENGTH,
        ],
    )
    &&& p.range_proof_data.context.commitments@[5].0@ == grouped_commitment_of(fee_lo)
    &&& p.range_proof_data.context.commitments@[6].0@ == grouped_commitment_of(fee_hi)
}

impl TransferAccountInfo {
    /// Why sending `amount` with a fee of `rate` basis points capped at
    /// `maximum_fee` cannot be proved, if it cannot.
    pub open spec fn transfer_with_fee_error(
        self,
        key: SymmetricKey,
        amount: u64,
        rate: u16,
        maximum_fee: u64,
    ) -> Option<TokenError> {
        if self.transfer_error(key, amount) is Some {
            self.transfer_error(key, amount)
        } else if raw_fee(amount, rate) > u64::MAX {
            Some(TokenError::Overflow)
        } else if capped_fee(amount, rate, maximum_fee) >= 0x1_0000_0000_0000 {
            Some(TokenError::IllegalAmountBitLength)
        } else {
            None
        }
    }

    /// Proves a transfer of `transfer_amount` on which a fee of
    /// `fee_rate_basis_points`, rounded up and capped at `maximum_fee`, is
    /// withheld: the transfer proofs, a percentage-with-cap proof over the same
    /// transfer-amount commitments, the validity of the fee's encryption for
    /// the destination and the withheld-fee authority, and one range proof
    /// over all the amounts.
    pub fn generate_split_transfer_with_fee_proof_data(
        &self,
        transfer_amount: u64,
        source_elgamal_keypair: &ElGamalKeypair,
        aes_key: &SymmetricKey,
        destination_elgamal_pubkey: &ElGamalPubkey,
        auditor_elgamal_pubkey: Option<&ElGamalPubkey>,
        withdraw_withheld_authority_elgamal_pubkey: &ElGamalPubkey,
        fee_rate_basis_points: u16,
        maximum_fee: u64,
    ) -> (r: Result<TransferWithFeeProofData, TokenError>)
        ensures
            match self.transfer_with_fee_error(
                *aes_key,
                transfer_amount,
                fee_rate_basis_points,
                maximum_fee,
            ) {
                Some(e) => (r matches Err(x) && x == e),
                None => (r is Ok || (r matches Err(x) && x == TokenError::ProofGeneration)),
            },
            r matches Ok(p) ==> self.transfer_error(*aes_key, transfer_amount) is None
                && crate::account::remaining_after(
                self.decryptable_available_balance,
                *aes_key,
                transfer_amount,
            ) == Some(p.remaining_balance@),
            r matches Ok(p) ==> p.transfer_amount_lo@ < 0x1_0000 && p.transfer_amount_hi@
                < 0x1_0000_0000 && p.transfer_amount_lo@ + p.transfer_amount_hi@ * 0x1_0000
                == transfer_amount,
            r matches Ok(p) ==> p.fee_amount@ == capped_fee(
                transfer_amount,
                fee_rate_basis_points,
                maximum_fee,
            ) && p.delta_fee@ == fee_delta(transfer_amount, fee_rate_basis_points),
            r matches Ok(p) ==> transfer_with_fee_proofs_agree(
                self.available_balance.bytes@,
                fee_rate_basis_points,
                p,
            ),
    {
        if !self.available_balance.is_well_formed() {
            return Err(TokenError::MalformedCiphertext);
        }
        if transfer_amount >= 0x1_0000_0000_0000 {
            return Err(TokenError::IllegalAmountBitLength);
        }
        let (amount_lo, amount_hi) = split_pending_amount(transfer_amount);
        assert(amount_hi < 0x1_0000_0000) by (nonlinear_arith)
            requires
                amount_lo + amount_hi * 0x1_0000 == transfer_amount,
                transfer_amount < 0x1_0000_0000_0000,
                amount_lo >= 0,
        ;
        let current_decrypted_available_balance = decrypted_balance(
            &self.decryptable_available_balance,
            aes_key,
        )?;
        let remaining_balance = match current_decrypted_available_balance.checked_sub(
            transfer_amount,
        ) {
            Some(v) => v,
            None => return Err(TokenError::InsufficientFunds),
        };
        let (fee_raw, delta_fee) = match calculate_fee(transfer_amount, fee_rate_basis_points) {
            Some(p) => p,
            None => return Err(TokenError::Overflow),
        };
        let fee_amount = if fee_raw < maximum_fee {
            fee_raw
        } else {
            maximum_fee
        };
        if fee_amount >= 0x1_0000_0000_0000 {
            return Err(TokenError::IllegalAmountBitLength);
        }
        let (fee_lo, fee_hi) = split_pending_amount(fee_amount);
        assert(fee_hi < 0x1_0000_0000) by (nonlinear_arith)
            requires
                fee_lo + fee_hi * 0x1_0000 == fee_amount,
                fee_amount < 0x1_0000_0000_0000,
                fee_lo >= 0,
        ;

        let source_pubkey = elgamal_pubkey(source_elgamal_keypair);
        let default_auditor = default_elgamal_pubkey();
        let auditor_pubkey = match auditor_elgamal_pubkey {
            Some(pubkey) => pubkey,
            None => &default_auditor,
        };
        let opening_lo = new_opening();
        let grouped_lo = grouped_encrypt_with(
            &source_pubkey,
            destination_elgamal_pubkey,
            auditor_pubkey,
            amount_lo,
            &opening_lo,
        );
        let opening_hi = new_opening();
        let grouped_hi = grouped_encrypt_with(
            &source_pubkey,
            destination_elgamal_pubkey,
            auditor_pubkey,
            amount_hi,
            &opening_hi,
        );
        let source_lo = match grouped_ciphertext_at(&grouped_lo, 0) {
            Some(c) => c,
            None => return Err(TokenError::ProofGeneration),
        };
        let source_hi = match grouped_ciphertext_at(&grouped_hi, 0) {
            Some(c) => c,
            None => return Err(TokenError::ProofGeneration),
        };
        let scaled_hi = match scale_ciphertext(&source_hi, 0x1_0000) {
            Some(c) => c,
            None => return Err(TokenError::ProofGeneration),
        };
        let transfer_amount_ciphertext = match add_ciphertexts(&source_lo, &scaled_hi) {
            Some(c) => c,
            None => return Err(TokenError::ProofGeneration),
        };
        let new_available_balance_ciphertext = match subtract_ciphertexts(
            &self.available_balance.bytes,
            &transfer_amount_ciphertext,
        ) {
            Some(c) => c,
            None => return Err(TokenError::ProofGeneration),
        };
        let (commitment, opening) = pedersen_commit(remaining_balance);

        let equality_proof_data = match ciphertext_commitment_equality_proof(
            source_elgamal_keypair,
            &new_available_balance_ciphertext,
            &commitment,
            &opening,
            remaining_balance,
        ) {
            Some(Ok(p)) => p,
            _ => return Err(TokenError::ProofGeneration),
        };
        let transfer_amount_ciphertext_validity_proof_data = match grouped_validity_proof_3_handles(
            &source_pubkey,
            destination_elgamal_pubkey,
            auditor_pubkey,
            &grouped_lo,
            &grouped_hi,
            amount_lo,
            amount_hi,
            &opening_lo,
            &opening_hi,
        ) {
            Some(Ok(p)) => p,
            _ => return Err(TokenError::ProofGeneration),
        };

        let fee_opening_lo = new_opening();
        let fee_grouped_lo = grouped_encrypt_with_2(
            destination_elgamal_pubkey,
            withdraw_withheld_authority_elgamal_pubkey,
            fee_lo,
            &fee_opening_lo,
        );
        let fee_opening_hi = new_opening();
        let fee_grouped_hi = grouped_encrypt_with_2(
            destination_elgamal_pubkey,
            withdraw_withheld_authority_elgamal_pubkey,
            fee_hi,
            &fee_opening_hi,
        );

        // The percentage-with-cap proof is bound to the very commitments of
        // the transfer amount that the validity proof covers.
        let transfer_lo_commitment = leading_commitment(&grouped_lo);
        let transfer_hi_commitment = leading_commitment(&grouped_hi);
        let fee_lo_commitment = leading_commitment(&fee_grouped_lo);
        let fee_hi_commitment = leading_commitment(&fee_grouped_hi);
        let transfer_amount_commitment = match combine_commitments(
            &transfer_lo_commitment,
            &transfer_hi_commitment,
        ) {
            Some(c) => c,
            None => return Err(TokenError::ProofGeneration),
        };
        let transfer_amount_opening = add_openings(
            &opening_lo,
            &scale_opening(&opening_hi, 0x1_0000),
        );
        let fee_commitment = match combine_commitments(&fee_lo_commitment, &fee_hi_commitment) {
            Some(c) => c,
            None => return Err(TokenError::ProofGeneration),
        };
        let fee_opening = add_openings(&fee_opening_lo, &scale_opening(&fee_opening_hi, 0x1_0000));
        let (claimed_commitment, claimed_opening) = pedersen_commit(delta_fee);
        let scaled_fee = match scale_commitment(&fee_commitment, ONE_IN_BASIS_POINTS) {
            Some(c) => c,
            None => return Err(TokenError::ProofGeneration),
        };
        let scaled_transfer = match scale_commitment(
            &transfer_amount_commitment,
            fee_rate_basis_points as u64,
        ) {
            Some(c) => c,
            None => return Err(TokenError::ProofGeneration),
        };
        let delta_commitment = match subtract_commitments(&scaled_fee, &scaled_transfer) {
            Some(c) => c,
            None => return Err(TokenError::ProofGeneration),
        };
        let delta_opening = subtract_openings(
            &scale_opening(&fee_opening, ONE_IN_BASIS_POINTS),
            &scale_opening(&transfer_amount_opening, fee_rate_basis_points as u64),
        );
        let percentage_with_cap_proof_data = match percentage_with_cap_proof(
            &fee_commitment,
            &fee_opening,
            fee_amount,
            &delta_commitment,
            &delta_opening,
            delta_fee,
            &claimed_commitment,
            &claimed_opening,
            maximum_fee,
        ) {
            Some(Ok(p)) => p,
            _ => return Err(TokenError::ProofGeneration),
        };
        let fee_ciphertext_validity_proof_data = match grouped_validity_proof_2_handles(
            destination_elgamal_pubkey,
            withdraw_withheld_authority_elgamal_pubkey,
            &fee_grouped_lo,
            &fee_grouped_hi,
            fee_lo,
            fee_hi,
            &fee_opening_lo,
            &fee_opening_hi,
        ) {
            Some(Ok(p)) => p,
            _ => return Err(TokenError::ProofGeneration),
        };

        let delta_fee_complement: u64 = ONE_IN_BASIS_POINTS - delta_fee;
        let one_commitment = pedersen_with(ONE_IN_BASIS_POINTS, &zero_opening());
        let claimed_complement_commitment = match subtract_commitments(
            &one_commitment,
            &claimed_commitment,
        ) {
            Some(c) => c,
            None => return Err(TokenError::ProofGeneration),
        };
        let claimed_complement_opening = subtract_openings(&zero_opening(), &claimed_opening);
        let commitments = vec![
            commitment,
            transfer_lo_commitment,
            transfer_hi_commitment,
            claimed_commitment,
            claimed_complement_commitment,
            fee_lo_commitment,
            fee_hi_commitment,
        ];
        let amounts = vec![
            remaining_balance,
            amount_lo,
            amount_hi,
            delta_fee,
            delta_fee_complement,
            fee_lo,
            fee_hi,
        ];
        let bit_lengths = vec![
            REMAINING_BALANCE_BIT_LENGTH,
            TRANSFER_AMOUNT_LO_BIT_LENGTH,
            TRANSFER_AMOUNT_HI_BIT_LENGTH,
            DELTA_BIT_LENGTH,
            DELTA_BIT_LENGTH,
            FEE_AMOUNT_LO_BIT_LENGTH,
            FEE_AMOUNT_HI_BIT_LENGTH,
        ];
        let openings = vec![
            opening,
            opening_lo,
            opening_hi,
            claimed_opening,
            claimed_complement_opening,
            fee_opening_lo,
            fee_opening_hi,
        ];
        let range_proof_data = match range_proof_u256(&commitments, &amounts, &bit_lengths, &openings) {
            Some(Ok(p)) => p,
            _ => return Err(TokenError::ProofGeneration),
        };
        assert(commitment_seqs(commitments@).subrange(0, 3) =~= seq![
            commitment@,
            grouped_commitment_of(grouped_lo@),
            grouped_commitment_of(grouped_hi@),
        ]);
        assert(commitment_seqs(commitments@)[5] == grouped_commitment_of(fee_grouped_lo@));
        assert(commitment_seqs(commitments@)[6] == grouped_commitment_of(fee_grouped_hi@));
        assert(bit_lengths@ =~= seq![
            REMAINING_BALANCE_BIT_LENGTH,
            TRANSFER_AMOUNT_LO_BIT_LENGTH,
            TRANSFER_AMOUNT_HI_BIT_LENGTH,
            DELTA_BIT_LENGTH,
            DELTA_BIT_LENGTH,
            FEE_AMOUNT_LO_BIT_LENGTH,
            FEE_AMOUNT_HI_BIT_LENGTH,
        ]);
        Ok(
            TransferWithFeeProofData {
                equality_proof_data,
                transfer_amount_ciphertext_validity_proof_data,
                percentage_with_cap_proof_data,
                fee_ciphertext_validity_proof_data,
                range_proof_data,
                remaining_balance: Ghost(remaining_balance),
                transfer_amount_lo: Ghost(amount_lo),
                transfer_amount_hi: Ghost(amount_hi),
                fee_amount: Ghost(fee_amount),
                delta_fee: Ghost(delta_fee),
            },
        )
    }
}

} // verus!
