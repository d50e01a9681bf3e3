//! The confidential part of a token account and the read-only projections of
//! it that each operation works from.

use crate::ciphertext::{
    leading_commitment, DecryptableBalance, EncryptedBalance, SymmetricKey, TokenError,
};
use crate::proof_data::{TransferProofData, WithdrawProofData};
use crate::prover::{
    add_ciphertexts, ciphertext_commitment_equality_proof, default_elgamal_pubkey, elgamal_pubkey,
    elgamal_add_of, elgamal_scale_of, elgamal_sub_of, elgamal_subtract_amount_of,
    grouped_ciphertext_at, grouped_commitment_of, grouped_encrypt_with, grouped_part,
    grouped_validity_proof_3_handles, new_opening, pedersen_commit, range_context_lists, commitment_seqs,
    range_proof_u128, range_proof_u64, scale_ciphertext, subtract_amount, subtract_ciphertexts,
    zero_ciphertext_proof,
};
use solana_zk_elgamal_proof_interface::proof_data::ZeroCiphertextProofData;
use solana_zk_sdk::encryption::elgamal::{ElGamalKeypair, ElGamalPubkey};
use vstd::prelude::*;

verus! {

/// Number of bits that the range proof of a remaining balance certifies.
pub const REMAINING_BALANCE_BIT_LENGTH: usize = 64;

/// Number of bits of the low part of a transfer amount.
pub const TRANSFER_AMOUNT_LO_BIT_LENGTH: usize = 16;

/// Number of bits of the high part of a transfer amount.
pub const TRANSFER_AMOUNT_HI_BIT_LENGTH: usize = 32;

/// Number of bits of the zero commitment that pads a transfer's range proof
/// to 128 bits.
pub const RANGE_PROOF_PADDING_BIT_LENGTH: usize = 16;

/// Number of bits of the low pending-balance component.
pub const PENDING_BALANCE_LO_BIT_LENGTH: u64 = 16;

/// Number of bits of the high pending-balance component.
pub const PENDING_BALANCE_HI_BIT_LENGTH: u64 = 48;

/// The confidential-transfer state of a token account.
#[derive(Clone, Copy, Debug, PartialEq, Eq)]
pub struct ConfidentialTransferAccount {
    /// The low 16 bits of the pending balance.
    pub pending_balance_lo: EncryptedBalance,
    /// The high 48 bits of the pending balance.
    pub pending_balance_hi: EncryptedBalance,
    /// The available balance, under the holder's ElGamal public key.
    pub available_balance: EncryptedBalance,
    /// The available balance, under the holder's symmetric key.
    pub decryptable_available_balance: DecryptableBalance,
    /// The number of credits to the pending balance since it was last applied.
    pub pending_balance_credit_counter: u64,
}

/// What an `EmptyAccount` instruction needs of an account.
#[derive(Clone, Copy, Debug, PartialEq, Eq)]
pub struct EmptyAccountAccountInfo {
    /// The available balance.
    pub available_balance: EncryptedBalance,
}

impl EmptyAccountAccountInfo {
    /// Copies the available balance out of the account.
    pub fn new(account: &ConfidentialTransferAccount) -> (r: Self)
        ensures
            r.available_balance == account.available_balance,
    {
        EmptyAccountAccountInfo { available_balance: account.available_balance }
    }

    /// Proves that the available balance encrypts zero under the keypair; the
    /// proof is about the stored bytes themselves.
    pub fn generate_proof_data(&self, elgamal_keypair: &ElGamalKeypair) -> (r: Result<
        ZeroCiphertextProofData,
        TokenError,
    >)
        ensures
            !self.available_balance.decodes() ==> (r matches Err(e) && e
                == TokenError::MalformedCiphertext),
            self.available_balance.decodes() ==> (r is Ok || (r matches Err(e) && e
                == TokenError::ProofGeneration)),
            r matches Ok(p) ==> p.context.ciphertext.0@ == self.available_balance.bytes@,
    {
        if !self.available_balance.is_well_formed() {
            return Err(TokenError::MalformedCiphertext);
        }
        match zero_ciphertext_proof(elgamal_keypair, &self.available_balance.bytes) {
            Some(Ok(proof)) => Ok(proof),
            _ => Err(TokenError::ProofGeneration),
        }
    }
}

/// What an `ApplyPendingBalance` instruction needs of an account.
#[derive(Clone, Copy, Debug, PartialEq, Eq)]
pub struct ApplyPendingBalanceAccountInfo {
    /// The number of credits to the pending balance since it was last applied.
    pub pending_balance_credit_counter: u64,
    /// The low 16 bits of the pending balance.
    pub pending_balance_lo: EncryptedBalance,
    /// The high 48 bits of the pending balance.
    pub pending_balance_hi: EncryptedBalance,
    /// The decryptable available balance.
    pub decryptable_available_balance: DecryptableBalance,
}

impl ApplyPendingBalanceAccountInfo {
    /// Copies the pending balance, its counter and the decryptable available
    /// balance out of the account.
    pub fn new(account: &ConfidentialTransferAccount) -> (r: Self)
        ensures
            r.pending_balance_credit_counter == account.pending_balance_credit_counter,
            r.pending_balance_lo == account.pending_balance_lo,
            r.pending_balance_hi == account.pending_balance_hi,
            r.decryptable_available_balance == account.decryptable_available_balance,
    {
        ApplyPendingBalanceAccountInfo {
            pending_balance_credit_counter: account.pending_balance_credit_counter,
            pending_balance_lo: account.pending_balance_lo,
            pending_balance_hi: account.pending_balance_hi,
            decryptable_available_balance: account.decryptable_available_balance,
        }
    }

    /// The pending balance credit counter of the account.
    pub fn pending_balance_credit_counter(&self) -> (r: u64)
        ensures
            r == self.pending_balance_credit_counter,
    {
        self.pending_balance_credit_counter
    }
}

/// The amount that the pending-balance components `lo` and `hi` stand for,
/// when each is within its bit width.
pub open spec fn pending_amount(lo: u64, hi: u64) -> Option<u64> {
    if lo < 0x1_0000 && hi < 0x1_0000_0000_0000 {
        Some((lo + hi * 0x1_0000) as u64)
    } else {
        None
    }
}

/// Joins the low 16-bit and high 48-bit pending-balance components into one
/// amount; a component beyond its bit width is rejected with `None`.
pub fn combine_pending_balance(lo: u64, hi: u64) -> (r: Option<u64>)
    ensures
        r == pending_amount(lo, hi),
        r matches Some(v) ==> v == lo + hi * 0x1_0000,
{
    if lo < 0x1_0000 && hi < 0x1_0000_0000_0000 {
        assert(lo + hi * 0x1_0000 <= u64::MAX) by (nonlinear_arith)
            requires
                lo < 0x1_0000,
                hi < 0x1_0000_0000_0000,
        ;
        Some(lo + hi * 0x1_0000)
    } else {
        None
    }
}

/// Splits an amount into its low 16-bit and high 48-bit pending-balance
/// components.
pub fn split_pending_amount(amount: u64) -> (r: (u64, u64))
    ensures
        r.0 < 0x1_0000,
        r.1 < 0x1_0000_0000_0000,
        r.0 + r.1 * 0x1_0000 == amount,
{
    let lo: u64 = amount % 0x1_0000;
    let hi: u64 = amount / 0x1_0000;
    assert(lo + hi * 0x1_0000 == amount && hi < 0x1_0000_0000_0000) by (nonlinear_arith)
        requires
            lo == amount % 0x1_0000,
            hi == amount / 0x1_0000,
            amount <= u64::MAX,
    ;
    (lo, hi)
}

/// Splitting an amount into pending-balance components and joining them
/// again gives the amount back.
pub proof fn lemma_pending_split_round_trip(amount: u64, lo: u64, hi: u64)
    requires
        lo < 0x1_0000,
        hi < 0x1_0000_0000_0000,
        lo + hi * 0x1_0000 == amount,
    ensures
        pending_amount(lo, hi) == Some(amount),
{
}

/// The balance left after taking `amount` from the balance that `key`
/// recovers from `balance`; `None` when decryption fails or funds are short.
pub open spec fn remaining_after(balance: DecryptableBalance, key: SymmetricKey, amount: u64) -> Option<u64> {
    match balance.decrypted_with(key) {
        Some(current) => if amount <= current {
            Some((current - amount) as u64)
        } else {
            None
        },
        None => None,
    }
}

/// The error of taking `amount` from a decryptable balance, if any.
pub open spec fn debit_error(balance: DecryptableBalance, key: SymmetricKey, amount: u64) -> Option<TokenError> {
    match balance.decrypted_with(key) {
        Some(current) => if amount <= current {
            None
        } else {
            Some(TokenError::InsufficientFunds)
        },
        None => Some(TokenError::AccountDecryption),
    }
}

/// Decrypts `balance` with `key`, mapping a failed authentication to
/// `AccountDecryption`.
pub(crate) fn decrypted_balance(balance: &DecryptableBalance, key: &SymmetricKey) -> (r: Result<u64, TokenError>)
    ensures
        match balance.decrypted_with(*key) {
            Some(v) => r == Ok::<u64, TokenError>(v),
            None => r == Err::<u64, TokenError>(TokenError::AccountDecryption),
        },
{
    match balance.decrypt(key) {
        Some(v) => Ok(v),
        None => Err(TokenError::AccountDecryption),
    }
}

/// Decrypts `balance`, takes `amount` from it with a checked subtraction and
/// encrypts what is left under the same key.
pub(crate) fn debit_decryptable_balance(balance: &DecryptableBalance, amount: u64, key: &SymmetricKey) -> (r: Result<DecryptableBalance, TokenError>)
    ensures
        match debit_error(*balance, *key, amount) {
            Some(e) => r == Err::<DecryptableBalance, TokenError>(e),
            None => r is Ok,
        },
        r matches Ok(d) ==> d.decrypted_with(*key) == remaining_after(*balance, *key, amount),
{
    let current = decrypted_balance(balance, key)?;
    match current.checked_sub(amount) {
        Some(remaining) => Ok(key.encrypt(remaining)),
        None => Err(TokenError::InsufficientFunds),
    }
}

/// What a `Withdraw` instruction needs of an account.
#[derive(Clone, Copy, Debug, PartialEq, Eq)]
pub struct WithdrawAccountInfo {
    /// The available balance, under the holder's ElGamal public key.
    pub available_balance: EncryptedBalance,
    /// The decryptable available balance.
    pub decryptable_available_balance: DecryptableBalance,
}

impl WithdrawAccountInfo {
    /// Copies both encodings of the available balance out of the account.
    pub fn new(account: &ConfidentialTransferAccount) -> (r: Self)
        ensures
            r.available_balance == account.available_balance,
            r.decryptable_available_balance == account.decryptable_available_balance,
    {
        WithdrawAccountInfo {
            available_balance: account.available_balance,
            decryptable_available_balance: account.decryptable_available_balance,
        }
    }

    /// Why withdrawing `amount` cannot be proved, if it cannot: a malformed
    /// available balance, a key that fails to decrypt, or too small a balance.
    pub open spec fn withdraw_error(self, key: SymmetricKey, amount: u64) -> Option<TokenError> {
        if !self.available_balance.decodes() {
            Some(TokenError::MalformedCiphertext)
        } else {
            debit_error(self.decryptable_available_balance, key, amount)
        }
    }

    fn decrypted_available_balance(&self, aes_key: &SymmetricKey) -> (r: Result<u64, TokenError>)
        ensures
            match self.decryptable_available_balance.decrypted_with(*aes_key) {
                Some(v) => r == Ok::<u64, TokenError>(v),
                None => r == Err::<u64, TokenError>(TokenError::AccountDecryption),
            },
    {
        decrypted_balance(&self.decryptable_available_balance, aes_key)
    }

    /// Proves that the available balance less `withdraw_amount` is what the
    /// new available balance holds, and that it is not negative. The equality
    /// proof is about the stored ciphertext less the amount; the range proof
    /// covers the equality proof's commitment at 64 bits.
    pub fn generate_proof_data(
        &self,
        withdraw_amount: u64,
        elgamal_keypair: &ElGamalKeypair,
        aes_key: &SymmetricKey,
    ) -> (r: Result<WithdrawProofData, TokenError>)
        ensures
            match self.withdraw_error(*aes_key, withdraw_amount) {
                Some(e) => (r matches Err(x) && x == e),
                None => (r is Ok || (r matches Err(x) && x == TokenError::ProofGeneration)),
            },
            r matches Ok(p) ==> remaining_after(
                self.decryptable_available_balance,
                *aes_key,
                withdraw_amount,
            ) == Some(p.remaining_balance@),
            r matches Ok(p) ==> p.equality_proof_data.context.ciphertext.0@
                == elgamal_subtract_amount_of(self.available_balance.bytes@, withdraw_amount),
            r matches Ok(p) ==> range_context_lists(
                p.range_proof_data.context,
                seq![p.equality_proof_data.context.commitment.0@],
                seq![REMAINING_BALANCE_BIT_LENGTH],
            ),
    {
        if !self.available_balance.is_well_formed() {
            return Err(TokenError::MalformedCiphertext);
        }
        let current_decrypted_available_balance = self.decrypted_available_balance(aes_key)?;
        let remaining_balance = match current_decrypted_available_balance.checked_sub(
            withdraw_amount,
        ) {
            Some(v) => v,
            None => return Err(TokenError::InsufficientFunds),
        };
        let (commitment, opening) = pedersen_commit(remaining_balance);
        let remaining_balance_ciphertext = match subtract_amount(
            &self.available_balance.bytes,
            withdraw_amount,
        ) {
            Some(c) => c,
            None => return Err(TokenError::ProofGeneration),
        };
        let equality_proof_data = match ciphertext_commitment_equality_proof(
            elgamal_keypair,
            &remaining_balance_ciphertext,
            &commitment,
            &opening,
            remaining_balance,
        ) {
            Some(Ok(p)) => p,
            _ => return Err(TokenError::ProofGeneration),
        };
        let commitments = vec![commitment];
        let amounts = vec![remaining_balance];
        let bit_lengths = vec![REMAINING_BALANCE_BIT_LENGTH];
        let openings = vec![opening];
        let range_proof_data = match range_proof_u64(
            &commitments,
            &amounts,
            &bit_lengths,
            &openings,
        ) {
            Some(Ok(p)) => p,
            _ => return Err(TokenError::ProofGeneration),
        };
        assert(commitment_seqs(commitments@) =~= seq![commitment@]);
        assert(bit_lengths@ =~= seq![REMAINING_BALANCE_BIT_LENGTH]);
        Ok(
            WithdrawProofData {
                equality_proof_data,
                range_proof_data,
                remaining_balance: Ghost(remaining_balance),
            },
        )
    }

    /// The decryptable available balance after withdrawing `withdraw_amount`.
    pub fn new_decryptable_available_balance(&self, withdraw_amount: u64, aes_key: &SymmetricKey) -> (r:
        Result<DecryptableBalance, TokenError>)
        ensures
            match debit_error(self.decryptable_available_balance, *aes_key, withdraw_amount) {
                Some(e) => r == Err::<DecryptableBalance, TokenError>(e),
                None => r is Ok,
            },
            r matches Ok(d) ==> d.decrypted_with(*aes_key) == remaining_after(
                self.decryptable_available_balance,
                *aes_key,
                withdraw_amount,
            ),
    {
        debit_decryptable_balance(&self.decryptable_available_balance, withdraw_amount, aes_key)
    }
}

/// After a withdrawal or a transfer whose proof data and new decryptable
/// balance were both produced from the same balance, key and amount, the new
/// decryptable balance decrypts to the remaining balance that the proofs
/// claim.
pub proof fn lemma_debit_consistency(
    balance: DecryptableBalance,
    key: SymmetricKey,
    amount: u64,
    claimed_remaining: u64,
    new_balance: DecryptableBalance,
)
    requires
        remaining_after(balance, key, amount) == Some(claimed_remaining),
        new_balance.decrypted_with(key) == remaining_after(balance, key, amount),
    ensures
        new_balance.decrypted_with(key) == Some(claimed_remaining),
{
}

/// Two proof-data results for the same balance, key and amount claim the same
/// remaining balance (the proofs themselves hold fresh randomness).
pub proof fn lemma_claimed_remaining_determined(
    balance: DecryptableBalance,
    key: SymmetricKey,
    amount: u64,
    first: u64,
    second: u64,
)
    requires
        remaining_after(balance, key, amount) == Some(first),
        remaining_after(balance, key, amount) == Some(second),
    ensures
        first == second,
{
}

/// Where the decrypted balance is below the requested amount, a withdrawal
/// from a well-formed account fails with `InsufficientFunds`, as does the
/// update of the decryptable balance for a withdrawal or transfer, and no
/// remaining balance exists for proof data to claim.
pub proof fn lemma_underflow_guard(
    available_balance: EncryptedBalance,
    balance: DecryptableBalance,
    key: SymmetricKey,
    amount: u64,
    current: u64,
)
    requires
        available_balance.decodes(),
        balance.decrypted_with(key) == Some(current),
        current < amount,
    ensures
        (WithdrawAccountInfo {
            available_balance,
            decryptable_available_balance: balance,
        }).withdraw_error(key, amount) == Some(TokenError::InsufficientFunds),
        debit_error(balance, key, amount) == Some(TokenError::InsufficientFunds),
        remaining_after(balance, key, amount) is None,
{
}

/// Where the decrypted balance is below a transfer amount that fits in 48
/// bits, a transfer from a well-formed account fails with
/// `InsufficientFunds`; a larger amount fails first on its bit width.
pub proof fn lemma_transfer_underflow_guard(
    available_balance: EncryptedBalance,
    balance: DecryptableBalance,
    key: SymmetricKey,
    amount: u64,
    current: u64,
)
    requires
        available_balance.decodes(),
        balance.decrypted_with(key) == Some(current),
        current < amount,
    ensures
        amount < 0x1_0000_0000_0000 ==> (TransferAccountInfo {
            available_balance,
            decryptable_available_balance: balance,
        }).transfer_error(key, amount) == Some(TokenError::InsufficientFunds),
        amount >= 0x1_0000_0000_0000 ==> (TransferAccountInfo {
            available_balance,
            decryptable_available_balance: balance,
        }).transfer_error(key, amount) == Some(TokenError::IllegalAmountBitLength),
{
}

/// How the components of a transfer's proof data fit together: the equality
/// proof is about the stored available balance less the transfer amount that
/// the validity proof's ciphertexts hold for the source (low part plus high
/// part times 2^16), and the range proof covers the equality proof's
/// commitment and both parts' commitments at 64, 16 and 32 bits, padded to 128.
pub open spec fn transfer_proofs_agree(available_balance: Seq<u8>, p: TransferProofData) -> bool {
    let validity = p.ciphertext_validity_proof_data.context;
    let lo = validity.grouped_ciphertext_lo.0@;
    let hi = validity.grouped_ciphertext_hi.0@;
    &&& p.equality_proof_data.context.ciphertext.0@ == elgamal_sub_of(
        available_balance,
        elgamal_add_of(grouped_part(lo, 0), elgamal_scale_of(grouped_part(hi, 0), 0x1_0000)),
    )
    &&& range_context_lists(
        p.range_proof_data.context,
        seq![
            p.equality_proof_data.context.commitment.0@,
            grouped_commitment_of(lo),
            grouped_commitment_of(hi),
        ],
        seq![
            REMAINING_BALANCE_BIT_LENGTH,
            TRANSFER_AMOUNT_LO_BIT_LENGTH,
            TRANSFER_AMOUNT_HI_BIT_LENGTH,
            RANGE_PROOF_PADDING_BIT_LENGTH,
        ],
    )
}

/// What a `Transfer` instruction needs of an account.
#[derive(Clone, Copy, Debug, PartialEq, Eq)]
pub struct TransferAccountInfo {
    /// The available balance, under the holder's ElGamal public key.
    pub available_balance: EncryptedBalance,
    /// The decryptable available balance.
    pub decryptable_available_balance: DecryptableBalance,
}

impl TransferAccountInfo {
    /// Copies both encodings of the available balance out of the account.
    pub fn new(account: &ConfidentialTransferAccount) -> (r: Self)
        ensures
            r.available_balance == account.available_balance,
            r.decryptable_available_balance == account.decryptable_available_balance,
    {
        TransferAccountInfo {
            available_balance: account.available_balance,
            decryptable_available_balance: account.decryptable_available_balance,
        }
    }

    /// The decryptable available balance after sending `transfer_amount`.
    pub fn new_decryptable_available_balance(&self, transfer_amount: u64, aes_key: &SymmetricKey) -> (r:
        Result<DecryptableBalance, TokenError>)
        ensures
            match debit_error(self.decryptable_available_balance, *aes_key, transfer_amount) {
                Some(e) => r == Err::<DecryptableBalance, TokenError>(e),
                None => r is Ok,
            },
            r matches Ok(d) ==> d.decrypted_with(*aes_key) == remaining_after(
                self.decryptable_available_balance,
                *aes_key,
                transfer_amount,
            ),
    {
        debit_decryptable_balance(&self.decryptable_available_balance, transfer_amount, aes_key)
    }

    /// Why sending `amount` cannot be proved, if it cannot: a malformed
    /// available balance, an amount of 2^48 or more, a key that fails to
    /// decrypt, or too small a balance.
    pub open spec fn transfer_error(self, key: SymmetricKey, amount: u64) -> Option<TokenError> {
        if !self.available_balance.decodes() {
            Some(TokenError::MalformedCiphertext)
        } else if amount >= 0x1_0000_0000_0000 {
            Some(TokenError::IllegalAmountBitLength)
        } else {
            debit_error(self.decryptable_available_balance, key, amount)
        }
    }

    /// Proves, for a transfer of `transfer_amount` split into a low 16-bit and
    /// a high 32-bit part: that the new available balance holds the remaining
    /// balance, that both parts are validly encrypted for the source, the
    /// destination and the auditor, and that the remaining balance and both
    /// parts lie in range.
    pub fn generate_split_transfer_proof_data(
        &self,
        transfer_amount: u64,
        source_elgamal_keypair: &ElGamalKeypair,
        aes_key: &SymmetricKey,
        destination_elgamal_pubkey: &ElGamalPubkey,
        auditor_elgamal_pubkey: Option<&ElGamalPubkey>,
    ) -> (r: Result<TransferProofData, TokenError>)
        ensures
            match self.transfer_error(*aes_key, transfer_amount) {
                Some(e) => (r matches Err(x) && x == e),
                None => (r is Ok || (r matches Err(x) && x == TokenError::ProofGeneration)),
            },
            r matches Ok(p) ==> remaining_after(
                self.decryptable_available_balance,
                *aes_key,
                transfer_amount,
            ) == Some(p.remaining_balance@),
            r matches Ok(p) ==> p.transfer_amount_lo@ < 0x1_0000 && p.transfer_amount_hi@
                < 0x1_0000_0000 && p.transfer_amount_lo@ + p.transfer_amount_hi@ * 0x1_0000
                == transfer_amount,
            r matches Ok(p) ==> transfer_proofs_agree(self.available_balance.bytes@, p),
    {
        if !self.available_balance.is_well_formed() {
            return Err(TokenError::MalformedCiphertext);
        }
        if transfer_amount >= 0x1_0000_0000_0000 {
            return Err(TokenError::IllegalAmountBitLength);
        }
        let (amount_lo, amount_hi) = split_pending_amount(transfer_amount);
        assert(amount_hi < 0x1_0000_0000) by (nonlinear_arith)
            requires
                amount_lo + amount_hi * 0x1_0000 == transfer_amount,
                transfer_amount < 0x1_0000_0000_0000,
                amount_lo >= 0,
        ;
        let current_decrypted_available_balance = decrypted_balance(
            &self.decryptable_available_balance,
            aes_key,
        )?;
        let remaining_balance = match current_decrypted_available_balance.checked_sub(
            transfer_amount,
        ) {
            Some(v) => v,
            None => return Err(TokenError::InsufficientFunds),
        };

        let source_pubkey = elgamal_pubkey(source_elgamal_keypair);
        let default_auditor = default_elgamal_pubkey();
        let auditor_pubkey = match auditor_elgamal_pubkey {
            Some(pubkey) => pubkey,
            None => &default_auditor,
        };
        let opening_lo = new_opening();
        let grouped_lo = grouped_encrypt_with(
            &source_pubkey,
            destination_elgamal_pubkey,
            auditor_pubkey,
            amount_lo,
            &opening_lo,
        );
        let opening_hi = new_opening();
        let grouped_hi = grouped_encrypt_with(
            &source_pubkey,
            destination_elgamal_pubkey,
            auditor_pubkey,
            amount_hi,
            &opening_hi,
        );

        let source_lo = match grouped_ciphertext_at(&grouped_lo, 0) {
            Some(c) => c,
            None => return Err(TokenError::ProofGeneration),
        };
        let source_hi = match grouped_ciphertext_at(&grouped_hi, 0) {
            Some(c) => c,
            None => return Err(TokenError::ProofGeneration),
        };
        let scaled_hi = match scale_ciphertext(&source_hi, 0x1_0000) {
            Some(c) => c,
            None => return Err(TokenError::ProofGeneration),
        };
        let transfer_amount_ciphertext = match add_ciphertexts(&source_lo, &scaled_hi) {
            Some(c) => c,
            None => return Err(TokenError::ProofGeneration),
        };
        let new_available_balance_ciphertext = match subtract_ciphertexts(
            &self.available_balance.bytes,
            &transfer_amount_ciphertext,
        ) {
            Some(c) => c,
            None => return Err(TokenError::ProofGeneration),
        };
        let (commitment, opening) = pedersen_commit(remaining_balance);

        let equality_proof_data = match ciphertext_commitment_equality_proof(
            source_elgamal_keypair,
            &new_available_balance_ciphertext,
            &commitment,
            &opening,
            remaining_balance,
        ) {
            Some(Ok(p)) => p,
            _ => return Err(TokenError::ProofGeneration),
        };
        let ciphertext_validity_proof_data = match grouped_validity_proof_3_handles(
            &source_pubkey,
            destination_elgamal_pubkey,
            auditor_pubkey,
            &grouped_lo,
            &grouped_hi,
            amount_lo,
            amount_hi,
            &opening_lo,
            &opening_hi,
        ) {
            Some(Ok(p)) => p,
            _ => return Err(TokenError::ProofGeneration),
        };

        let (padding_commitment, padding_opening) = pedersen_commit(0);
        let commitments = vec![
            commitment,
            leading_commitment(&grouped_lo),
            leading_commitment(&grouped_hi),
            padding_commitment,
        ];
        let amounts = vec![remaining_balance, amount_lo, amount_hi, 0];
        let bit_lengths = vec![
            REMAINING_BALANCE_BIT_LENGTH,
            TRANSFER_AMOUNT_LO_BIT_LENGTH,
            TRANSFER_AMOUNT_HI_BIT_LENGTH,
            RANGE_PROOF_PADDING_BIT_LENGTH,
        ];
        let openings = vec![opening, opening_lo, opening_hi, padding_opening];
        let range_proof_data = match range_proof_u128(
            &commitments,
            &amounts,
            &bit_lengths,
            &openings,
        ) {
            Some(Ok(p)) => p,
            _ => return Err(TokenError::ProofGeneration),
        };
        assert(commitment_seqs(commitments@).subrange(0, 3) =~= seq![
            commitment@,
            grouped_commitment_of(grouped_lo@),
            grouped_commitment_of(grouped_hi@),
        ]);
        assert(bit_lengths@ =~= seq![
            REMAINING_BALANCE_BIT_LENGTH,
            TRANSFER_AMOUNT_LO_BIT_LENGTH,
            TRANSFER_AMOUNT_HI_BIT_LENGTH,
            RANGE_PROOF_PADDING_BIT_LENGTH,
        ]);
        Ok(
            TransferProofData {
                equality_proof_data,
                ciphertext_validity_proof_data,
                range_proof_data,
                remaining_balance: Ghost(remaining_balance),
                transfer_amount_lo: Ghost(amount_lo),
                transfer_amount_hi: Ghost(amount_hi),
            },
        )
    }
}

} // verus!
