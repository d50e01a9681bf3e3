//! Fixed-layout ciphertext types and the symmetric key of an account holder.

use solana_zk_sdk::encryption::auth_encryption::{AeCiphertext, AeKey};
use solana_zk_sdk::encryption::elgamal::ElGamalCiphertext;
use vstd::prelude::*;

verus! {

/// Length in bytes of a twisted ElGamal ciphertext (commitment and handle).
pub const ELGAMAL_CIPHERTEXT_LEN: usize = 64;

/// Length in bytes of an authenticated-encryption ciphertext (nonce and body).
pub const AE_CIPHERTEXT_LEN: usize = 36;

/// Length in bytes of an authenticated-encryption key.
pub const AE_KEY_LEN: usize = 16;

#[verifier::external_type_specification]
#[verifier::external_body]
pub struct ExElGamalCiphertext(ElGamalCiphertext);

/// Whether 64 bytes encode a valid ElGamal ciphertext: both halves must be
/// canonical compressed Ristretto points.
pub uninterp spec fn elgamal_ciphertext_decodes(bytes: Seq<u8>) -> bool;

/// What authenticated decryption of `ciphertext` under `key` yields: the
/// encrypted amount, or nothing when the authentication tag does not verify.
pub uninterp spec fn ae_decrypt_of(key: Seq<u8>, ciphertext: Seq<u8>) -> Option<u64>;

/// An additively homomorphic (twisted ElGamal) ciphertext of an amount, as it
/// is stored in an account record.
#[derive(Clone, Copy, Debug, PartialEq, Eq)]
pub struct EncryptedBalance {
    pub bytes: [u8; ELGAMAL_CIPHERTEXT_LEN],
}

/// An authenticated symmetric ciphertext of an amount, which the holder of the
/// symmetric key decrypts in one step.
#[derive(Clone, Copy, Debug, PartialEq, Eq)]
pub struct DecryptableBalance {
    pub bytes: [u8; AE_CIPHERTEXT_LEN],
}

/// The holder's symmetric key for decryptable balances.
#[derive(Clone, Copy, Debug, PartialEq, Eq)]
pub struct SymmetricKey {
    pub bytes: [u8; AE_KEY_LEN],
}

/// The failures of the operations of this library.
#[derive(Clone, Copy, Debug, PartialEq, Eq, Structural)]
pub enum TokenError {
    /// Stored bytes do not decode into a valid ciphertext.
    MalformedCiphertext,
    /// The symmetric key does not authenticate the decryptable balance.
    AccountDecryption,
    /// The requested amount exceeds the decrypted balance.
    InsufficientFunds,
    /// The prover rejected the claim or failed internally.
    ProofGeneration,
    /// An amount does not fit in the bit width that its range proof covers.
    IllegalAmountBitLength,
    /// A sum of amounts exceeds `u64::MAX`.
    Overflow,
}

/// Relies on `ElGamalCiphertext::from_bytes`: `Some` exactly when both
/// 32-byte halves decode as curve points.
#[verifier::external_body]
pub(crate) fn decode_elgamal_ciphertext(bytes: &[u8; 64]) -> (r: Option<ElGamalCiphertext>)
    ensures
        r is Some <==> elgamal_ciphertext_decodes(bytes@),
{
    ElGamalCiphertext::from_bytes(bytes)
}

/// Relies on `ElGamalCiphertext::to_bytes`: the canonical encoding of both
/// curve points, which `from_bytes` decodes again.
#[verifier::external_body]
fn encode_elgamal_ciphertext(ciphertext: &ElGamalCiphertext) -> (r: [u8; 64])
    ensures
        elgamal_ciphertext_decodes(r@),
{
    ciphertext.to_bytes()
}

/// Relies on `AeCiphertext::from_bytes` and `AeKey::decrypt`: a 36-byte
/// ciphertext always decodes, and decryption depends on key and bytes alone.
#[verifier::external_body]
fn ae_decrypt(key: &[u8; 16], ciphertext: &[u8; 36]) -> (r: Option<u64>)
    ensures
        r == ae_decrypt_of(key@, ciphertext@),
{
    match AeCiphertext::from_bytes(ciphertext) {
        Some(c) => AeKey::from(*key).decrypt(&c),
        None => None,
    }
}

/// Relies on `AeKey::encrypt`: the nonce is drawn at random, and decrypting
/// the result under the same key gives the amount back.
#[verifier::external_body]
fn ae_encrypt(key: &[u8; 16], amount: u64) -> (r: [u8; 36])
    ensures
        ae_decrypt_of(key@, r@) == Some(amount),
{
    AeKey::from(*key).encrypt(amount).to_bytes()
}

impl EncryptedBalance {
    /// Whether the stored bytes decode into a ciphertext.
    pub open spec fn decodes(self) -> bool {
        elgamal_ciphertext_decodes(self.bytes@)
    }

    /// Encodes a ciphertext as it is stored in an account record.
    pub fn from_ciphertext(ciphertext: &ElGamalCiphertext) -> (r: EncryptedBalance)
        ensures
            r.decodes(),
    {
        EncryptedBalance { bytes: encode_elgamal_ciphertext(ciphertext) }
    }

    /// Decodes the stored bytes into a ciphertext, failing with
    /// `MalformedCiphertext` where they do not decode.
    pub fn to_ciphertext(&self) -> (r: Result<ElGamalCiphertext, TokenError>)
        ensures
            r is Ok <==> self.decodes(),
            r matches Err(e) ==> e == TokenError::MalformedCiphertext,
    {
        match decode_elgamal_ciphertext(&self.bytes) {
            Some(c) => Ok(c),
            None => Err(TokenError::MalformedCiphertext),
        }
    }

    /// Checks that the stored bytes decode into a ciphertext.
    pub fn is_well_formed(&self) -> (r: bool)
        ensures
            r == self.decodes(),
    {
        decode_elgamal_ciphertext(&self.bytes).is_some()
    }
}

impl DecryptableBalance {
    /// The amount that `key` recovers from this balance, if it authenticates.
    pub open spec fn decrypted_with(self, key: SymmetricKey) -> Option<u64> {
        ae_decrypt_of(key.bytes@, self.bytes@)
    }

    /// Decrypts the balance; `None` when the key does not authenticate it.
    pub fn decrypt(&self, key: &SymmetricKey) -> (r: Option<u64>)
        ensures
            r == self.decrypted_with(*key),
    {
        ae_decrypt(&key.bytes, &self.bytes)
    }
}

impl SymmetricKey {
    /// Encrypts `amount` into a decryptable balance; decrypting it with this
    /// key always gives `amount` back.
    pub fn encrypt(&self, amount: u64) -> (r: DecryptableBalance)
        ensures
            r.decrypted_with(*self) == Some(amount),
    {
        DecryptableBalance { bytes: ae_encrypt(&self.bytes, amount) }
    }
}

} // verus!

verus! {

/// The 32-byte commitment that a grouped ciphertext's encoding starts with.
pub fn leading_commitment(grouped: &[u8]) -> (r: [u8; 32])
    requires
        grouped@.len() >= 32,
    ensures
        r@ == grouped@.subrange(0, 32),
{
    let mut out: [u8; 32] = [0u8; 32];
    let mut i: usize = 0;
    while i < 32
        invariant
            0 <= i <= 32,
            grouped@.len() >= 32,
            out@.len() == 32,
            forall|j: int| 0 <= j < i ==> out@[j] == grouped@[j],
        decreases 32 - i,
    {
        out[i] = grouped[i];
        i = i + 1;
    }
    assert(out@ =~= grouped@.subrange(0, 32));
    out
}

} // verus!
