//! The proof data of a confidential mint, which adds an encrypted amount to
//! the encrypted supply and credits it to a destination.

use crate::account::{split_pending_amount, RANGE_PROOF_PADDING_BIT_LENGTH};
use crate::ciphertext::{leading_commitment, EncryptedBalance, TokenError};
use crate::proof_data::MintProofData;
use crate::prover::{
    add_ciphertexts, ciphertext_commitment_equality_proof, commitment_seqs, default_elgamal_pubkey,
    elgamal_add_of, elgamal_pubkey, elgamal_scale_of, grouped_ciphertext_at,
    grouped_commitment_of, grouped_encrypt_with, grouped_part, grouped_validity_proof_3_handles,
    new_opening, pedersen_commit, range_context_lists, range_proof_u128, scale_ciphertext,
};
use solana_zk_sdk::encryption::elgamal::{ElGamalKeypair, ElGamalPubkey};
use vstd::prelude::*;

verus! {

/// Number of bits that the range proof of a new supply certifies.
pub const NEW_SUPPLY_BIT_LENGTH: usize = 64;

/// Number of bits of the low part of a mint amount.
pub const MINT_AMOUNT_LO_BIT_LENGTH: usize = 16;

/// Number of bits of the high part of a mint amount.
pub const MINT_AMOUNT_HI_BIT_LENGTH: usize = 32;

/// Why minting `mint_amount` onto a supply of `current_supply` cannot be
/// proved, if it cannot.
pub open spec fn mint_error(
    current_supply_ciphertext: EncryptedBalance,
    mint_amount: u64,
    current_supply: u64,
) -> Option<TokenError> {
    if !current_supply_ciphertext.decodes() {
        Some(TokenError::MalformedCiphertext)
    } else if mint_amount >= 0x1_0000_0000_0000 {
        Some(TokenError::IllegalAmountBitLength)
    } else if current_supply + mint_amount > u64::MAX {
        Some(TokenError::Overflow)
    } else {
        None
    }
}

/// How the components of a mint's proof data fit together: the equality proof
/// is about the stored supply plus the mint amount that the validity proof's
/// ciphertexts hold for the supply key (the third handle; low part plus high
/// part times 2^16), and the range proof covers the equality proof's
/// commitment and both parts' commitments at 64, 16 and 32 bits, padded to 128.
pub open spec fn mint_proofs_agree(supply: Seq<u8>, p: MintProofData) -> bool {
    let validity = p.ciphertext_validity_proof_data.context;
    let lo = validity.grouped_ciphertext_lo.0@;
    let hi = validity.grouped_ciphertext_hi.0@;
    &&& p.equality_proof_data.context.ciphertext.0@ == elgamal_add_of(
        supply,
        elgamal_add_of(grouped_part(lo, 2), elgamal_scale_of(grouped_part(hi, 2), 0x1_0000)),
    )
    &&& range_context_lists(
        p.range_proof_data.context,
        seq![
            p.equality_proof_data.context.commitment.0@,
            grouped_commitment_of(lo),
            grouped_commitment_of(hi),
        ],
        seq![
            NEW_SUPPLY_BIT_LENGTH,
            MINT_AMOUNT_LO_BIT_LENGTH,
            MINT_AMOUNT_HI_BIT_LENGTH,
            RANGE_PROOF_PADDING_BIT_LENGTH,
        ],
    )
}

/// Proves, for a mint of `mint_amount` split into a low 16-bit and a high
/// 32-bit part: that the new supply ciphertext holds `current_supply +
/// mint_amount`, that both parts are validly encrypted for the destination,
/// the auditor and the supply, and that the new supply and both parts lie in
/// range.
pub fn mint_split_proof_data(
    current_supply_ciphertext: &EncryptedBalance,
    mint_amount: u64,
    current_supply: u64,
    supply_elgamal_keypair: &ElGamalKeypair,
    destination_elgamal_pubkey: &ElGamalPubkey,
    auditor_elgamal_pubkey: Option<&ElGamalPubkey>,
) -> (r: Result<MintProofData, TokenError>)
    ensures
        match mint_error(*current_supply_ciphertext, mint_amount, current_supply) {
            Some(e) => (r matches Err(x) && x == e),
            None => (r is Ok || (r matches Err(x) && x == TokenError::ProofGeneration)),
        },
        r matches Ok(p) ==> p.new_supply@ == current_supply + mint_amount,
        r matches Ok(p) ==> p.mint_amount_lo@ < 0x1_0000 && p.mint_amount_hi@ < 0x1_0000_0000
            && p.mint_amount_lo@ + p.mint_amount_hi@ * 0x1_0000 == mint_amount,
        r matches Ok(p) ==> mint_proofs_agree(current_supply_ciphertext.bytes@, p),
{
    if !current_supply_ciphertext.is_well_formed() {
        return Err(TokenError::MalformedCiphertext);
    }
    if mint_amount >= 0x1_0000_0000_0000 {
        return Err(TokenError::IllegalAmountBitLength);
    }
    let (amount_lo, amount_hi) = split_pending_amount(mint_amount);
    assert(amount_hi < 0x1_0000_0000) by (nonlinear_arith)
        requires
            amount_lo + amount_hi * 0x1_0000 == mint_amount,
            mint_amount < 0x1_0000_0000_0000,
            amount_lo >= 0,
    ;
    let new_supply = match current_supply.checked_add(mint_amount) {
        Some(v) => v,
        None => return Err(TokenError::Overflow),
    };

    let supply_pubkey = elgamal_pubkey(supply_elgamal_keypair);
    let default_auditor = default_elgamal_pubkey();
    let auditor_pubkey = match auditor_elgamal_pubkey {
        Some(pubkey) => pubkey,
        None => &default_auditor,
    };
    let opening_lo = new_opening();
    let grouped_lo = grouped_encrypt_with(
        destination_elgamal_pubkey,
        auditor_pubkey,
        &supply_pubkey,
        amount_lo,
        &opening_lo,
    );
    let opening_hi = new_opening();
    let grouped_hi = grouped_encrypt_with(
        destination_elgamal_pubkey,
        auditor_pubkey,
        &supply_pubkey,
        amount_hi,
        &opening_hi,
    );

    let supply_lo = match grouped_ciphertext_at(&grouped_lo, 2) {
        Some(c) => c,
        None => return Err(TokenError::ProofGeneration),
    };
    let supply_hi = match grouped_ciphertext_at(&grouped_hi, 2) {
        Some(c) => c,
        None => return Err(TokenError::ProofGeneration),
    };
    let scaled_hi = match scale_ciphertext(&supply_hi, 0x1_0000) {
        Some(c) => c,
        None => return Err(TokenError::ProofGeneration),
    };
    let mint_amount_ciphertext = match add_ciphertexts(&supply_lo, &scaled_hi) {
        Some(c) => c,
        None => return Err(TokenError::ProofGeneration),
    };
    let new_supply_ciphertext = match add_ciphertexts(
        &current_supply_ciphertext.bytes,
        &mint_amount_ciphertext,
    ) {
        Some(c) => c,
        None => return Err(TokenError::ProofGeneration),
    };
    let (commitment, opening) = pedersen_commit(new_supply);

    let equality_proof_data = match ciphertext_commitment_equality_proof(
        supply_elgamal_keypair,
        &new_supply_ciphertext,
        &commitment,
        &opening,
        new_supply,
    ) {
        Some(Ok(p)) => p,
        _ => return Err(TokenError::ProofGeneration),
    };
    let ciphertext_validity_proof_data = match grouped_validity_proof_3_handles(
        destination_elgamal_pubkey,
        auditor_pubkey,
        &supply_pubkey,
        &grouped_lo,
        &grouped_hi,
        amount_lo,
        amount_hi,
        &opening_lo,
        &opening_hi,
    ) {
        Some(Ok(p)) => p,
        _ => return Err(TokenError::ProofGeneration),
    };

    let (padding_commitment, padding_opening) = pedersen_commit(0);
    let commitments = vec![
        commitment,
        leading_commitment(&grouped_lo),
        leading_commitment(&grouped_hi),
        padding_commitment,
    ];
    let amounts = vec![new_supply, amount_lo, amount_hi, 0];
    let bit_lengths = vec![
        NEW_SUPPLY_BIT_LENGTH,
        MINT_AMOUNT_LO_BIT_LENGTH,
        MINT_AMOUNT_HI_BIT_LENGTH,
        RANGE_PROOF_PADDING_BIT_LENGTH,
    ];
    let openings = vec![opening, opening_lo, opening_hi, padding_opening];
    let range_proof_data = match range_proof_u128(&commitments, &amounts, &bit_lengths, &openings) {
        Some(Ok(p)) => p,
        _ => return Err(TokenError::ProofGeneration),
    };
    assert(commitment_seqs(commitments@).subrange(0, 3) =~= seq![
        commitment@,
        grouped_commitment_of(grouped_lo@),
        grouped_commitment_of(grouped_hi@),
    ]);
    assert(bit_lengths@ =~= seq![
        NEW_SUPPLY_BIT_LENGTH,
        MINT_AMOUNT_LO_BIT_LENGTH,
        MINT_AMOUNT_HI_BIT_LENGTH,
        RANGE_PROOF_PADDING_BIT_LENGTH,
    ]);
    Ok(
        MintProofData {
            equality_proof_data,
            ciphertext_validity_proof_data,
            range_proof_data,
            new_supply: Ghost(new_supply),
            mint_amount_lo: Ghost(amount_lo),
            mint_amount_hi: Ghost(amount_hi),
        },
    )
}

} // verus!
