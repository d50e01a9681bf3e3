use confidential_transfer::account::{ConfidentialTransferAccount, TransferAccountInfo};
use confidential_transfer::ciphertext::{EncryptedBalance, SymmetricKey, TokenError};
use confidential_transfer::fee::calculate_fee;
use solana_zk_sdk::encryption::auth_encryption::AeKey;
use solana_zk_sdk::encryption::elgamal::{ElGamalCiphertext, ElGamalKeypair};
use solana_zk_sdk::encryption::grouped_elgamal::GroupedElGamalCiphertext;
use solana_zk_sdk::encryption::pedersen::{Pedersen, PedersenCommitment, PedersenOpening};
use solana_zk_sdk::zk_elgamal_proof_program::VerifyZkProof;

fn encrypts(ciphertext: &ElGamalCiphertext, keypair: &ElGamalKeypair, amount: u64) -> bool {
    let expected = keypair.pubkey().encrypt_with(amount, &PedersenOpening::default());
    ciphertext.decrypt(keypair.secret()).target == expected.decrypt(keypair.secret()).target
}

fn info_with(keypair: &ElGamalKeypair, key: &SymmetricKey, amount: u64) -> TransferAccountInfo {
    let zero = EncryptedBalance { bytes: keypair.pubkey().encrypt(0_u64).to_bytes() };
    TransferAccountInfo::new(&ConfidentialTransferAccount {
        pending_balance_lo: zero,
        pending_balance_hi: zero,
        available_balance: EncryptedBalance { bytes: keypair.pubkey().encrypt(amount).to_bytes() },
        decryptable_available_balance: key.encrypt(amount),
        pending_balance_credit_counter: 0,
    })
}

fn fresh_key() -> SymmetricKey {
    SymmetricKey { bytes: <[u8; 16]>::from(&AeKey::new_rand()) }
}

fn commitment(bytes: &[u8]) -> PedersenCommitment {
    PedersenCommitment::from_bytes(bytes).unwrap()
}

#[test]
fn fee_rounds_up() {
    assert_eq!(calculate_fee(100, 250), Some((3, 5000)));
    assert_eq!(calculate_fee(10_000, 100), Some((100, 0)));
    assert_eq!(calculate_fee(1, 1), Some((1, 9999)));
    assert_eq!(calculate_fee(0, 500), Some((0, 0)));
    assert_eq!(calculate_fee(u64::MAX, 10_000), Some((u64::MAX, 0)));
    assert_eq!(calculate_fee(u64::MAX, 10_001), None);
}

#[test]
fn transfer_with_fee_shares_transfer_amount_commitment() {
    let source = ElGamalKeypair::new_rand();
    let destination = ElGamalKeypair::new_rand();
    let auditor = ElGamalKeypair::new_rand();
    let withheld = ElGamalKeypair::new_rand();
    let key = fresh_key();
    let info = info_with(&source, &key, 100_000);
    let amount: u64 = 70_001;
    let rate: u16 = 250;

    let proof = info
        .generate_split_transfer_with_fee_proof_data(
            amount, &source, &key, destination.pubkey(), Some(auditor.pubkey()), withheld.pubkey(), rate, 1_000_000,
        )
        .unwrap();
    assert!(proof.equality_proof_data.verify_proof().is_ok());
    assert!(proof.transfer_amount_ciphertext_validity_proof_data.verify_proof().is_ok());
    assert!(proof.percentage_with_cap_proof_data.verify_proof().is_ok());
    assert!(proof.fee_ciphertext_validity_proof_data.verify_proof().is_ok());

    let validity = &proof.transfer_amount_ciphertext_validity_proof_data.context;
    let percentage = &proof.percentage_with_cap_proof_data.context;
    let lo = GroupedElGamalCiphertext::<3>::from_bytes(&validity.grouped_ciphertext_lo.0).unwrap();
    let hi = GroupedElGamalCiphertext::<3>::from_bytes(&validity.grouped_ciphertext_hi.0).unwrap();
    let transfer_commitment = &lo.commitment + &(&hi.commitment * &65536_u64);
    let fee_commitment = commitment(&percentage.percentage_commitment.0);
    let expected_delta = &(&fee_commitment * &10_000_u64) - &(&transfer_commitment * &(rate as u64));
    assert_eq!(expected_delta.to_bytes(), percentage.delta_commitment.0);

    // A transfer amount other than the one under the validity proof breaks
    // the relation.
    let (other, _) = Pedersen::new(amount + 1);
    let wrong_delta = &(&fee_commitment * &10_000_u64) - &(&other * &(rate as u64));
    assert_ne!(wrong_delta.to_bytes(), percentage.delta_commitment.0);

    let fee_validity = &proof.fee_ciphertext_validity_proof_data.context;
    let fee_lo = GroupedElGamalCiphertext::<2>::from_bytes(&fee_validity.grouped_ciphertext_lo.0).unwrap();
    let fee_hi = GroupedElGamalCiphertext::<2>::from_bytes(&fee_validity.grouped_ciphertext_hi.0).unwrap();
    let fee_from_validity = &fee_lo.commitment + &(&fee_hi.commitment * &65536_u64);
    assert_eq!(fee_from_validity.to_bytes(), percentage.percentage_commitment.0);
    // ceil(70001 * 250 / 10000) = 1751
    assert!(encrypts(&fee_lo.to_elgamal_ciphertext(0).unwrap(), &destination, 1751));
    assert!(encrypts(&fee_hi.to_elgamal_ciphertext(1).unwrap(), &withheld, 0));
}

#[test]
fn transfer_with_fee_range_proof_covers_all_amounts() {
    let source = ElGamalKeypair::new_rand();
    let destination = ElGamalKeypair::new_rand();
    let withheld = ElGamalKeypair::new_rand();
    let key = fresh_key();
    let info = info_with(&source, &key, 100_000);
    let proof = info
        .generate_split_transfer_with_fee_proof_data(
            70_001, &source, &key, destination.pubkey(), None, withheld.pubkey(), 250, 1_000_000,
        )
        .unwrap();
    assert!(proof.range_proof_data.verify_proof().is_ok());
    let range = &proof.range_proof_data.context;
    assert_eq!(range.bit_lengths, [64, 16, 32, 48, 48, 16, 32, 0]);
    assert_eq!(range.commitments[0].0, proof.equality_proof_data.context.commitment.0);
    assert_eq!(range.commitments[3].0, proof.percentage_with_cap_proof_data.context.claimed_commitment.0);
    let fee_validity = &proof.fee_ciphertext_validity_proof_data.context;
    assert_eq!(&range.commitments[5].0[..], &fee_validity.grouped_ciphertext_lo.0[..32]);
}

#[test]
fn transfer_with_capped_fee() {
    let source = ElGamalKeypair::new_rand();
    let destination = ElGamalKeypair::new_rand();
    let withheld = ElGamalKeypair::new_rand();
    let key = fresh_key();
    let info = info_with(&source, &key, 100_000);
    let proof = info
        .generate_split_transfer_with_fee_proof_data(
            50_000, &source, &key, destination.pubkey(), None, withheld.pubkey(), 1000, 7,
        )
        .unwrap();
    assert!(proof.percentage_with_cap_proof_data.verify_proof().is_ok());
    assert!(proof.range_proof_data.verify_proof().is_ok());
    let fee_validity = &proof.fee_ciphertext_validity_proof_data.context;
    let fee_lo = GroupedElGamalCiphertext::<2>::from_bytes(&fee_validity.grouped_ciphertext_lo.0).unwrap();
    assert!(encrypts(&fee_lo.to_elgamal_ciphertext(0).unwrap(), &destination, 7));
}

#[test]
fn transfer_with_fee_failures() {
    let source = ElGamalKeypair::new_rand();
    let destination = ElGamalKeypair::new_rand();
    let withheld = ElGamalKeypair::new_rand();
    let key = fresh_key();
    let info = info_with(&source, &key, 1000);
    let run = |amount: u64, key: &SymmetricKey, rate: u16, max: u64| {
        info.generate_split_transfer_with_fee_proof_data(
            amount, &source, key, destination.pubkey(), None, withheld.pubkey(), rate, max,
        )
        .err()
    };
    assert_eq!(run(1500, &key, 100, 10), Some(TokenError::InsufficientFunds));
    assert_eq!(run(1 << 48, &key, 100, 10), Some(TokenError::IllegalAmountBitLength));
    assert_eq!(run(10, &fresh_key(), 100, 10), Some(TokenError::AccountDecryption));
    assert_eq!(run(1000, &key, 100, 10), None);
}
