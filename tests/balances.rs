use confidential_transfer::account::{
    combine_pending_balance, split_pending_amount, ApplyPendingBalanceAccountInfo,
    ConfidentialTransferAccount, EmptyAccountAccountInfo, TransferAccountInfo,
    WithdrawAccountInfo, REMAINING_BALANCE_BIT_LENGTH,
};
use confidential_transfer::ciphertext::{
    DecryptableBalance, EncryptedBalance, SymmetricKey, TokenError,
};
use solana_zk_sdk::encryption::auth_encryption::AeKey;
use solana_zk_sdk::encryption::elgamal::{ElGamalCiphertext, ElGamalKeypair};
use solana_zk_sdk::zk_elgamal_proof_program::VerifyZkProof;
use solana_zk_sdk::encryption::pedersen::PedersenOpening;

fn encrypts(ciphertext: &ElGamalCiphertext, keypair: &ElGamalKeypair, amount: u64) -> bool {
    let expected = keypair.pubkey().encrypt_with(amount, &PedersenOpening::default());
    ciphertext.decrypt(keypair.secret()).target == expected.decrypt(keypair.secret()).target
}

fn symmetric_key() -> SymmetricKey {
    SymmetricKey { bytes: <[u8; 16]>::from(&AeKey::new_rand()) }
}

fn account_with(keypair: &ElGamalKeypair, key: &SymmetricKey, amount: u64) -> ConfidentialTransferAccount {
    let zero = EncryptedBalance { bytes: keypair.pubkey().encrypt(0_u64).to_bytes() };
    ConfidentialTransferAccount {
        pending_balance_lo: zero,
        pending_balance_hi: zero,
        available_balance: EncryptedBalance { bytes: keypair.pubkey().encrypt(amount).to_bytes() },
        decryptable_available_balance: key.encrypt(amount),
        pending_balance_credit_counter: 3,
    }
}

#[test]
fn decrypt_recovers_encrypted_amount() {
    let key = symmetric_key();
    for amount in [0_u64, 1, 600, 1000, u64::MAX] {
        assert_eq!(key.encrypt(amount).decrypt(&key), Some(amount));
    }
}

#[test]
fn decrypt_matches_outside_encryption() {
    let sdk_key = AeKey::new_rand();
    let key = SymmetricKey { bytes: <[u8; 16]>::from(&sdk_key) };
    let balance = DecryptableBalance { bytes: sdk_key.encrypt(42).to_bytes() };
    assert_eq!(balance.decrypt(&key), Some(42));
    let ours = key.encrypt(77);
    assert_ne!(ours.bytes, [0_u8; 36]);
    assert_eq!(sdk_key.decrypt(&solana_zk_sdk::encryption::auth_encryption::AeCiphertext::from_bytes(&ours.bytes).unwrap()), Some(77));
}

#[test]
fn decrypt_with_wrong_key_fails() {
    let key = symmetric_key();
    let other = symmetric_key();
    assert_eq!(key.encrypt(1000).decrypt(&other), None);
}

#[test]
fn well_formed_ciphertexts() {
    let keypair = ElGamalKeypair::new_rand();
    let good = EncryptedBalance { bytes: keypair.pubkey().encrypt(5_u64).to_bytes() };
    assert!(good.is_well_formed());
    assert!(!EncryptedBalance { bytes: [0xff; 64] }.is_well_formed());
}

#[test]
fn projections_copy_account_fields() {
    let keypair = ElGamalKeypair::new_rand();
    let key = symmetric_key();
    let account = account_with(&keypair, &key, 1000);
    let empty = EmptyAccountAccountInfo::new(&account);
    assert_eq!(empty.available_balance, account.available_balance);
    let apply = ApplyPendingBalanceAccountInfo::new(&account);
    assert_eq!(apply.pending_balance_credit_counter(), 3);
    assert_eq!(apply.pending_balance_lo, account.pending_balance_lo);
    assert_eq!(apply.pending_balance_hi, account.pending_balance_hi);
    assert_eq!(apply.decryptable_available_balance, account.decryptable_available_balance);
    let withdraw = WithdrawAccountInfo::new(&account);
    assert_eq!(withdraw.available_balance, account.available_balance);
    assert_eq!(withdraw.decryptable_available_balance, account.decryptable_available_balance);
    let transfer = TransferAccountInfo::new(&account);
    assert_eq!(transfer.available_balance, account.available_balance);
    assert_eq!(transfer.decryptable_available_balance, account.decryptable_available_balance);
}

#[test]
fn withdraw_success() {
    let keypair = ElGamalKeypair::new_rand();
    let key = symmetric_key();
    let info = WithdrawAccountInfo::new(&account_with(&keypair, &key, 1000));

    let new_balance = info.new_decryptable_available_balance(400, &key).unwrap();
    assert_eq!(new_balance.decrypt(&key), Some(600));

    let proof = info.generate_proof_data(400, &keypair, &key).unwrap();
    assert!(proof.equality_proof_data.verify_proof().is_ok());
    assert!(proof.range_proof_data.verify_proof().is_ok());

    let expected = ElGamalCiphertext::from_bytes(&info.available_balance.bytes)
        .unwrap()
        .subtract_amount(400_u64);
    let equality = &proof.equality_proof_data.context;
    assert_eq!(equality.ciphertext.0, expected.to_bytes());
    let range = &proof.range_proof_data.context;
    assert_eq!(range.commitments[0].0, equality.commitment.0);
    assert_eq!(range.bit_lengths[0] as usize, REMAINING_BALANCE_BIT_LENGTH);
}

#[test]
fn withdraw_whole_balance() {
    let keypair = ElGamalKeypair::new_rand();
    let key = symmetric_key();
    let info = WithdrawAccountInfo::new(&account_with(&keypair, &key, 1000));
    let new_balance = info.new_decryptable_available_balance(1000, &key).unwrap();
    assert_eq!(new_balance.decrypt(&key), Some(0));
    assert!(info.generate_proof_data(1000, &keypair, &key).is_ok());
}

#[test]
fn withdraw_insufficient_funds() {
    let keypair = ElGamalKeypair::new_rand();
    let key = symmetric_key();
    let info = WithdrawAccountInfo::new(&account_with(&keypair, &key, 1000));
    assert_eq!(info.new_decryptable_available_balance(1500, &key), Err(TokenError::InsufficientFunds));
    assert!(matches!(info.generate_proof_data(1500, &keypair, &key), Err(TokenError::InsufficientFunds)));
    assert!(matches!(info.generate_proof_data(1001, &keypair, &key), Err(TokenError::InsufficientFunds)));
}

#[test]
fn withdraw_with_wrong_key() {
    let keypair = ElGamalKeypair::new_rand();
    let key = symmetric_key();
    let info = WithdrawAccountInfo::new(&account_with(&keypair, &key, 1000));
    let other = symmetric_key();
    assert_eq!(info.new_decryptable_available_balance(10, &other), Err(TokenError::AccountDecryption));
    assert!(matches!(info.generate_proof_data(10, &keypair, &other), Err(TokenError::AccountDecryption)));
}

#[test]
fn withdraw_malformed_ciphertext() {
    let keypair = ElGamalKeypair::new_rand();
    let key = symmetric_key();
    let mut info = WithdrawAccountInfo::new(&account_with(&keypair, &key, 1000));
    info.available_balance = EncryptedBalance { bytes: [0xff; 64] };
    assert!(matches!(info.generate_proof_data(10, &keypair, &key), Err(TokenError::MalformedCiphertext)));
}

#[test]
fn withdraw_with_mismatched_balances_fails_in_prover() {
    let keypair = ElGamalKeypair::new_rand();
    let key = symmetric_key();
    let mut account = account_with(&keypair, &key, 1000);
    account.decryptable_available_balance = key.encrypt(900);
    let info = WithdrawAccountInfo::new(&account);
    assert!(matches!(info.generate_proof_data(100, &keypair, &key), Err(TokenError::ProofGeneration)));
}

#[test]
fn withdraw_repeated_calls_agree() {
    let keypair = ElGamalKeypair::new_rand();
    let key = symmetric_key();
    let info = WithdrawAccountInfo::new(&account_with(&keypair, &key, 1000));
    let first = info.new_decryptable_available_balance(250, &key).unwrap();
    let second = info.new_decryptable_available_balance(250, &key).unwrap();
    assert_eq!(first.decrypt(&key), second.decrypt(&key));
    let a = info.generate_proof_data(250, &keypair, &key).unwrap();
    let b = info.generate_proof_data(250, &keypair, &key).unwrap();
    assert_eq!(a.equality_proof_data.context.ciphertext.0, b.equality_proof_data.context.ciphertext.0);
}

#[test]
fn transfer_debits_decryptable_balance() {
    let keypair = ElGamalKeypair::new_rand();
    let key = symmetric_key();
    let info = TransferAccountInfo::new(&account_with(&keypair, &key, 1000));
    assert_eq!(info.new_decryptable_available_balance(300, &key).unwrap().decrypt(&key), Some(700));
    assert_eq!(info.new_decryptable_available_balance(1500, &key), Err(TokenError::InsufficientFunds));
    assert_eq!(info.new_decryptable_available_balance(1, &symmetric_key()), Err(TokenError::AccountDecryption));
}

#[test]
fn empty_account_proof_of_zero() {
    let keypair = ElGamalKeypair::new_rand();
    let key = symmetric_key();
    let info = EmptyAccountAccountInfo::new(&account_with(&keypair, &key, 0));
    let proof = info.generate_proof_data(&keypair).unwrap();
    assert!(proof.verify_proof().is_ok());
}

#[test]
fn empty_account_rejects_nonzero_balance() {
    let keypair = ElGamalKeypair::new_rand();
    let key = symmetric_key();
    let info = EmptyAccountAccountInfo::new(&account_with(&keypair, &key, 1));
    assert!(matches!(info.generate_proof_data(&keypair), Err(TokenError::ProofGeneration)));
    let malformed = EmptyAccountAccountInfo { available_balance: EncryptedBalance { bytes: [0xff; 64] } };
    assert!(matches!(malformed.generate_proof_data(&keypair), Err(TokenError::MalformedCiphertext)));
}

#[test]
fn pending_components_within_bit_width() {
    assert_eq!(combine_pending_balance(0xffff, 0), Some(0xffff));
    assert_eq!(combine_pending_balance(0x1_0000, 0), None);
    assert_eq!(combine_pending_balance(0, 0xffff_ffff_ffff), Some(0xffff_ffff_ffff_0000));
    assert_eq!(combine_pending_balance(0, 0x1_0000_0000_0000), None);
    assert_eq!(combine_pending_balance(0xffff, 0xffff_ffff_ffff), Some(u64::MAX));
    assert_eq!(combine_pending_balance(5, 2), Some(5 + 2 * 65536));
}

#[test]
fn pending_split_round_trip() {
    for amount in [0_u64, 1, 0xffff, 0x1_0000, 123_456_789, u64::MAX] {
        let (lo, hi) = split_pending_amount(amount);
        assert!(lo < 0x1_0000);
        assert!(hi < 0x1_0000_0000_0000);
        assert_eq!(combine_pending_balance(lo, hi), Some(amount));
    }
    assert_eq!(split_pending_amount(0x1_0003), (3, 1));
}

#[test]
fn encrypted_balance_decodes_to_its_ciphertext() {
    let keypair = ElGamalKeypair::new_rand();
    let ciphertext = keypair.pubkey().encrypt(9_u64);
    let balance = EncryptedBalance { bytes: ciphertext.to_bytes() };
    assert_eq!(balance.to_ciphertext().unwrap(), ciphertext);
    assert!(encrypts(&balance.to_ciphertext().unwrap(), &keypair, 9));
    assert!(matches!(EncryptedBalance { bytes: [0xff; 64] }.to_ciphertext(), Err(TokenError::MalformedCiphertext)));
}

#[test]
fn encrypted_balance_from_ciphertext() {
    let keypair = ElGamalKeypair::new_rand();
    let ciphertext = keypair.pubkey().encrypt(11_u64);
    let balance = EncryptedBalance::from_ciphertext(&ciphertext);
    assert_eq!(balance.bytes, ciphertext.to_bytes());
    assert!(balance.is_well_formed());
    assert_eq!(balance.to_ciphertext().unwrap(), ciphertext);
}
