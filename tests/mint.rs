use confidential_transfer::ciphertext::{EncryptedBalance, TokenError};
use confidential_transfer::mint::mint_split_proof_data;
use solana_zk_sdk::encryption::elgamal::{ElGamalCiphertext, ElGamalKeypair};
use solana_zk_sdk::encryption::grouped_elgamal::GroupedElGamalCiphertext;
use solana_zk_sdk::zk_elgamal_proof_program::VerifyZkProof;
use solana_zk_sdk::encryption::pedersen::PedersenOpening;

fn encrypts(ciphertext: &ElGamalCiphertext, keypair: &ElGamalKeypair, amount: u64) -> bool {
    let expected = keypair.pubkey().encrypt_with(amount, &PedersenOpening::default());
    ciphertext.decrypt(keypair.secret()).target == expected.decrypt(keypair.secret()).target
}

#[test]
fn mint_proof_components_verify_and_agree() {
    let supply = ElGamalKeypair::new_rand();
    let destination = ElGamalKeypair::new_rand();
    let auditor = ElGamalKeypair::new_rand();
    let current = EncryptedBalance { bytes: supply.pubkey().encrypt(5000_u64).to_bytes() };
    let amount: u64 = 131_075;

    let proof = mint_split_proof_data(&current, amount, 5000, &supply, destination.pubkey(), Some(auditor.pubkey())).unwrap();
    assert!(proof.equality_proof_data.verify_proof().is_ok());
    assert!(proof.ciphertext_validity_proof_data.verify_proof().is_ok());
    assert!(proof.range_proof_data.verify_proof().is_ok());

    let validity = &proof.ciphertext_validity_proof_data.context;
    let range = &proof.range_proof_data.context;
    let equality = &proof.equality_proof_data.context;
    assert_eq!(range.commitments[0].0, equality.commitment.0);
    assert_eq!(&range.commitments[1].0[..], &validity.grouped_ciphertext_lo.0[..32]);
    assert_eq!(&range.commitments[2].0[..], &validity.grouped_ciphertext_hi.0[..32]);

    let lo = GroupedElGamalCiphertext::<3>::from_bytes(&validity.grouped_ciphertext_lo.0).unwrap();
    let hi = GroupedElGamalCiphertext::<3>::from_bytes(&validity.grouped_ciphertext_hi.0).unwrap();
    assert!(encrypts(&lo.to_elgamal_ciphertext(0).unwrap(), &destination, 3));
    assert!(encrypts(&hi.to_elgamal_ciphertext(0).unwrap(), &destination, 2));
    let new_supply = ElGamalCiphertext::from_bytes(&equality.ciphertext.0).unwrap();
    assert!(encrypts(&new_supply, &supply, 136_075));
}

#[test]
fn mint_failures() {
    let supply = ElGamalKeypair::new_rand();
    let destination = ElGamalKeypair::new_rand();
    let current = EncryptedBalance { bytes: supply.pubkey().encrypt(10_u64).to_bytes() };
    let run = |c: &EncryptedBalance, amount: u64, total: u64| {
        mint_split_proof_data(c, amount, total, &supply, destination.pubkey(), None).err()
    };
    assert_eq!(run(&current, 1 << 48, 10), Some(TokenError::IllegalAmountBitLength));
    assert_eq!(run(&current, 5, u64::MAX - 4), Some(TokenError::Overflow));
    assert_eq!(run(&EncryptedBalance { bytes: [0xff; 64] }, 5, 10), Some(TokenError::MalformedCiphertext));
    assert_eq!(run(&current, 5, 11), Some(TokenError::ProofGeneration));
}
