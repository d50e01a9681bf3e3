//! The calls into the zero-knowledge prover, and the prover's types.
//!
//! Ciphertexts and commitments cross this boundary as their canonical byte
//! encodings, so that contracts can say which values each proof is about.

use solana_zk_elgamal_proof_interface::proof_data::{
    BatchedGroupedCiphertext2HandlesValidityProofContext,
    BatchedGroupedCiphertext2HandlesValidityProofData,
    BatchedGroupedCiphertext3HandlesValidityProofContext,
    BatchedGroupedCiphertext3HandlesValidityProofData, BatchedRangeProofContext,
    BatchedRangeProofU128Data, BatchedRangeProofU256Data, BatchedRangeProofU64Data,
    CiphertextCommitmentEqualityProofContext, CiphertextCommitmentEqualityProofData,
    PercentageWithCapProofContext, PercentageWithCapProofData, ZeroCiphertextProofContext,
    ZeroCiphertextProofData,
};
use solana_zk_sdk::encryption::elgamal::{ElGamalCiphertext, ElGamalKeypair, ElGamalPubkey};
use solana_zk_sdk::encryption::grouped_elgamal::{GroupedElGamal, GroupedElGamalCiphertext};
use solana_zk_sdk::encryption::pedersen::{Pedersen, PedersenCommitment, PedersenOpening};
use solana_zk_sdk::zk_elgamal_proof_program::errors::ProofGenerationError;
use solana_zk_sdk::zk_elgamal_proof_program::{
    build_batched_grouped_ciphertext_2_handles_validity_proof_data,
    build_batched_grouped_ciphertext_3_handles_validity_proof_data,
    build_batched_range_proof_u128_data, build_batched_range_proof_u256_data,
    build_batched_range_proof_u64_data, build_ciphertext_commitment_equality_proof_data,
    build_percentage_with_cap_proof_data, build_zero_ciphertext_proof_data,
};
use solana_zk_sdk_pod::encryption::elgamal::{PodElGamalCiphertext, PodElGamalPubkey};
use solana_zk_sdk_pod::encryption::grouped_elgamal::{
    PodGroupedElGamalCiphertext2Handles, PodGroupedElGamalCiphertext3Handles,
};
use solana_zk_sdk_pod::encryption::pedersen::PodPedersenCommitment;
use solana_zk_sdk_pod::primitive_types::PodU64;
use solana_zk_sdk_pod::range_proof::{PodRangeProofU128, PodRangeProofU256, PodRangeProofU64};
use solana_zk_sdk_pod::sigma_proofs::{
    PodBatchedGroupedCiphertext2HandlesValidityProof,
    PodBatchedGroupedCiphertext3HandlesValidityProof, PodCiphertextCommitmentEqualityProof,
    PodPercentageWithCapProof, PodZeroCiphertextProof,
};
use vstd::prelude::*;

verus! {

#[verifier::external_type_specification]
#[verifier::external_body]
pub struct ExElGamalKeypair(ElGamalKeypair);

#[verifier::external_type_specification]
#[verifier::external_body]
pub struct ExElGamalPubkey(ElGamalPubkey);

#[verifier::external_type_specification]
#[verifier::external_body]
pub struct ExPedersenCommitment(PedersenCommitment);

#[verifier::external_type_specification]
#[verifier::external_body]
pub struct ExPedersenOpening(PedersenOpening);

#[verifier::external_type_specification]
#[verifier::external_body]
pub struct ExProofGenerationError(ProofGenerationError);

#[verifier::external_type_specification]
pub struct ExPodElGamalCiphertext(PodElGamalCiphertext);

#[verifier::external_type_specification]
pub struct ExPodElGamalPubkey(PodElGamalPubkey);

#[verifier::external_type_specification]
pub struct ExPodPedersenCommitment(PodPedersenCommitment);

#[verifier::external_type_specification]
pub struct ExPodGroupedElGamalCiphertext2Handles(PodGroupedElGamalCiphertext2Handles);

#[verifier::external_type_specification]
pub struct ExPodGroupedElGamalCiphertext3Handles(PodGroupedElGamalCiphertext3Handles);

#[verifier::external_type_specification]
#[verifier::external_body]
pub struct ExPodU64(PodU64);

#[verifier::external_type_specification]
#[verifier::external_body]
pub struct ExPodZeroCiphertextProof(PodZeroCiphertextProof);

#[verifier::external_type_specification]
#[verifier::external_body]
pub struct ExPodCiphertextCommitmentEqualityProof(PodCiphertextCommitmentEqualityProof);

#[verifier::external_type_specification]
#[verifier::external_body]
pub struct ExPodRangeProofU64(PodRangeProofU64);

#[verifier::external_type_specification]
#[verifier::external_body]
pub struct ExPodRangeProofU128(PodRangeProofU128);

#[verifier::external_type_specification]
#[verifier::external_body]
pub struct ExPodRangeProofU256(PodRangeProofU256);

#[verifier::external_type_specification]
#[verifier::external_body]
pub struct ExPodBatchedGroupedCiphertext2HandlesValidityProof(
    PodBatchedGroupedCiphertext2HandlesValidityProof,
);

#[verifier::external_type_specification]
#[verifier::external_body]
pub struct ExPodBatchedGroupedCiphertext3HandlesValidityProof(
    PodBatchedGroupedCiphertext3HandlesValidityProof,
);

#[verifier::external_type_specification]
#[verifier::external_body]
pub struct ExPodPercentageWithCapProof(PodPercentageWithCapProof);

#[verifier::external_type_specification]
pub struct ExZeroCiphertextProofContext(ZeroCiphertextProofContext);

#[verifier::external_type_specification]
pub struct ExZeroCiphertextProofData(ZeroCiphertextProofData);

#[verifier::external_type_specification]
pub struct ExCiphertextCommitmentEqualityProofContext(CiphertextCommitmentEqualityProofContext);

#[verifier::external_type_specification]
pub struct ExCiphertextCommitmentEqualityProofData(CiphertextCommitmentEqualityProofData);

#[verifier::external_type_specification]
pub struct ExBatchedRangeProofContext(BatchedRangeProofContext);

#[verifier::external_type_specification]
pub struct ExBatchedRangeProofU64Data(BatchedRangeProofU64Data);

#[verifier::external_type_specification]
pub struct ExBatchedRangeProofU128Data(BatchedRangeProofU128Data);

#[verifier::external_type_specification]
pub struct ExBatchedRangeProofU256Data(BatchedRangeProofU256Data);

#[verifier::external_type_specification]
pub struct ExBatchedGroupedCiphertext2HandlesValidityProofContext(
    BatchedGroupedCiphertext2HandlesValidityProofContext,
);

#[verifier::external_type_specification]
pub struct ExBatchedGroupedCiphertext2HandlesValidityProofData(
    BatchedGroupedCiphertext2HandlesValidityProofData,
);

#[verifier::external_type_specification]
pub struct ExBatchedGroupedCiphertext3HandlesValidityProofContext(
    BatchedGroupedCiphertext3HandlesValidityProofContext,
);

#[verifier::external_type_specification]
pub struct ExBatchedGroupedCiphertext3HandlesValidityProofData(
    BatchedGroupedCiphertext3HandlesValidityProofData,
);

#[verifier::external_type_specification]
pub struct ExPercentageWithCapProofContext(PercentageWithCapProofContext);

#[verifier::external_type_specification]
pub struct ExPercentageWithCapProofData(PercentageWithCapProofData);

/// The ciphertext of the value that `ciphertext` encrypts less `amount`.
pub uninterp spec fn elgamal_subtract_amount_of(ciphertext: Seq<u8>, amount: u64) -> Seq<u8>;

/// The ciphertext of the sum of the values that `a` and `b` encrypt.
pub uninterp spec fn elgamal_add_of(a: Seq<u8>, b: Seq<u8>) -> Seq<u8>;

/// The ciphertext of the difference of the values that `a` and `b` encrypt.
pub uninterp spec fn elgamal_sub_of(a: Seq<u8>, b: Seq<u8>) -> Seq<u8>;

/// The ciphertext of the value that `c` encrypts times `factor`.
pub uninterp spec fn elgamal_scale_of(c: Seq<u8>, factor: u64) -> Seq<u8>;

/// The commitment to the sum of the values that `a` and `b` commit to.
pub uninterp spec fn commitment_add_of(a: Seq<u8>, b: Seq<u8>) -> Seq<u8>;

/// The commitment to the difference of the values that `a` and `b` commit to.
pub uninterp spec fn commitment_sub_of(a: Seq<u8>, b: Seq<u8>) -> Seq<u8>;

/// The commitment to the value that `c` commits to times `factor`.
pub uninterp spec fn commitment_scale_of(c: Seq<u8>, factor: u64) -> Seq<u8>;

/// The ElGamal ciphertext that a grouped ciphertext holds for the key at
/// `index`: the shared commitment followed by that key's decryption handle.
pub open spec fn grouped_part(grouped: Seq<u8>, index: int) -> Seq<u8> {
    grouped.subrange(0, 32) + grouped.subrange(32 + 32 * index, 64 + 32 * index)
}

/// The Pedersen commitment that a grouped ciphertext starts with.
pub open spec fn grouped_commitment_of(grouped: Seq<u8>) -> Seq<u8> {
    grouped.subrange(0, 32)
}

/// Whether a range-proof context lists `commitments` and `bit_lengths`, in
/// that order, from its first slot on.
pub open spec fn range_context_lists(
    context: BatchedRangeProofContext,
    commitments: Seq<Seq<u8>>,
    bit_lengths: Seq<usize>,
) -> bool {
    &&& commitments.len() <= 8
    &&& bit_lengths.len() <= 8
    &&& forall|i: int|
        0 <= i < commitments.len() ==> #[trigger] context.commitments@[i].0@ == commitments[i]
    &&& forall|i: int|
        0 <= i < bit_lengths.len() ==> #[trigger] context.bit_lengths@[i] as int
            == bit_lengths[i] as int
}

/// The byte sequences of a list of commitment encodings.
pub open spec fn commitment_seqs(commitments: Seq<[u8; 32]>) -> Seq<Seq<u8>> {
    commitments.map_values(|c: [u8; 32]| c@)
}

/// Relies on `Pedersen::new` and `PedersenCommitment::to_bytes`: a commitment
/// to `amount` under a fresh random opening, returned with that opening.
#[verifier::external_body]
pub(crate) fn pedersen_commit(amount: u64) -> ([u8; 32], PedersenOpening) {
    let (commitment, opening) = Pedersen::new(amount);
    (commitment.to_bytes(), opening)
}

/// Relies on `ElGamalCiphertext::subtract_amount`, over byte encodings.
#[verifier::external_body]
pub(crate) fn subtract_amount(ciphertext: &[u8; 64], amount: u64) -> (r: Option<[u8; 64]>)
    ensures
        r matches Some(b) ==> b@ == elgamal_subtract_amount_of(ciphertext@, amount),
{
    match ElGamalCiphertext::from_bytes(ciphertext) {
        Some(c) => Some(c.subtract_amount(amount).to_bytes()),
        None => None,
    }
}

/// Relies on `build_zero_ciphertext_proof_data`: its context records the
/// ciphertext it was given; `None` where the bytes do not decode.
#[verifier::external_body]
pub(crate) fn zero_ciphertext_proof(
    keypair: &ElGamalKeypair,
    ciphertext: &[u8; 64],
) -> (r: Option<Result<ZeroCiphertextProofData, ProofGenerationError>>)
    ensures
        r matches Some(Ok(p)) ==> p.context.ciphertext.0@ == ciphertext@,
{
    match ElGamalCiphertext::from_bytes(ciphertext) {
        Some(c) => Some(build_zero_ciphertext_proof_data(keypair, &c)),
        None => None,
    }
}

/// Relies on `build_ciphertext_commitment_equality_proof_data`: its context
/// records the ciphertext and the commitment it was given.
#[verifier::external_body]
pub(crate) fn ciphertext_commitment_equality_proof(
    keypair: &ElGamalKeypair,
    ciphertext: &[u8; 64],
    commitment: &[u8; 32],
    opening: &PedersenOpening,
    amount: u64,
) -> (r: Option<Result<CiphertextCommitmentEqualityProofData, ProofGenerationError>>)
    ensures
        r matches Some(Ok(p)) ==> p.context.ciphertext.0@ == ciphertext@
            && p.context.commitment.0@ == commitment@,
{
    match (ElGamalCiphertext::from_bytes(ciphertext), PedersenCommitment::from_bytes(commitment)) {
        (Some(c), Some(m)) => Some(build_ciphertext_commitment_equality_proof_data(keypair, &c, &m, opening, amount)),
        _ => None,
    }
}

/// Relies on `PedersenCommitment::from_bytes`, one for one over the list.
#[verifier::external_body]
fn decode_commitments(commitments: &Vec<[u8; 32]>) -> Option<Vec<PedersenCommitment>> {
    let mut decoded = Vec::new();
    for c in commitments.iter() {
        decoded.push(PedersenCommitment::from_bytes(c)?);
    }
    Some(decoded)
}

/// Relies on `build_batched_range_proof_u64_data`: its context lists the
/// commitments and bit lengths in order; the bit lengths must add up to 64.
#[verifier::external_body]
pub(crate) fn range_proof_u64(
    commitments: &Vec<[u8; 32]>,
    amounts: &Vec<u64>,
    bit_lengths: &Vec<usize>,
    openings: &Vec<PedersenOpening>,
) -> (r: Option<Result<BatchedRangeProofU64Data, ProofGenerationError>>)
    ensures
        r matches Some(Ok(p)) ==> range_context_lists(p.context, commitment_seqs(commitments@), bit_lengths@),
{
    let decoded = decode_commitments(commitments)?;
    Some(build_batched_range_proof_u64_data(decoded.iter().collect(), amounts.clone(), bit_lengths.clone(), openings.iter().collect()))
}

/// Relies on `build_batched_range_proof_u128_data`: its context lists the
/// commitments and bit lengths in order; the bit lengths must add up to 128.
#[verifier::external_body]
pub(crate) fn range_proof_u128(
    commitments: &Vec<[u8; 32]>,
    amounts: &Vec<u64>,
    bit_lengths: &Vec<usize>,
    openings: &Vec<PedersenOpening>,
) -> (r: Option<Result<BatchedRangeProofU128Data, ProofGenerationError>>)
    ensures
        r matches Some(Ok(p)) ==> range_context_lists(p.context, commitment_seqs(commitments@), bit_lengths@),
{
    let decoded = decode_commitments(commitments)?;
    Some(build_batched_range_proof_u128_data(decoded.iter().collect(), amounts.clone(), bit_lengths.clone(), openings.iter().collect()))
}

/// Relies on `build_batched_range_proof_u256_data`: its context lists the
/// commitments and bit lengths in order; the bit lengths must add up to 256.
#[verifier::external_body]
pub(crate) fn range_proof_u256(
    commitments: &Vec<[u8; 32]>,
    amounts: &Vec<u64>,
    bit_lengths: &Vec<usize>,
    openings: &Vec<PedersenOpening>,
) -> (r: Option<Result<BatchedRangeProofU256Data, ProofGenerationError>>)
    ensures
        r matches Some(Ok(p)) ==> range_context_lists(p.context, commitment_seqs(commitments@), bit_lengths@),
{
    let decoded = decode_commitments(commitments)?;
    Some(build_batched_range_proof_u256_data(decoded.iter().collect(), amounts.clone(), bit_lengths.clone(), openings.iter().collect()))
}

/// Relies on `ElGamalKeypair::pubkey_owned`: the public half of the keypair.
#[verifier::external_body]
pub(crate) fn elgamal_pubkey(keypair: &ElGamalKeypair) -> ElGamalPubkey {
    keypair.pubkey_owned()
}

/// Relies on `ElGamalPubkey::default`: the all-zero public key, which stands
/// for a missing auditor.
#[verifier::external_body]
pub(crate) fn default_elgamal_pubkey() -> ElGamalPubkey {
    ElGamalPubkey::default()
}

/// Relies on `PedersenOpening::new_rand`: a fresh random opening.
#[verifier::external_body]
pub(crate) fn new_opening() -> PedersenOpening {
    PedersenOpening::new_rand()
}

/// Relies on `GroupedElGamal::<3>::encrypt_with`: `amount` under one
/// commitment with `opening` and a handle for each key in order, encoded.
#[verifier::external_body]
pub(crate) fn grouped_encrypt_with(
    first: &ElGamalPubkey,
    second: &ElGamalPubkey,
    third: &ElGamalPubkey,
    amount: u64,
    opening: &PedersenOpening,
) -> [u8; 128] {
    PodGroupedElGamalCiphertext3Handles::from(GroupedElGamal::<3>::encrypt_with([first, second, third], amount, opening)).0
}

/// Relies on `GroupedElGamal::<2>::encrypt_with`: `amount` under one
/// commitment with `opening` and a handle for each key in order, encoded.
#[verifier::external_body]
pub(crate) fn grouped_encrypt_with_2(
    first: &ElGamalPubkey,
    second: &ElGamalPubkey,
    amount: u64,
    opening: &PedersenOpening,
) -> [u8; 96] {
    PodGroupedElGamalCiphertext2Handles::from(GroupedElGamal::<2>::encrypt_with([first, second], amount, opening)).0
}

/// Relies on `GroupedElGamalCiphertext::to_elgamal_ciphertext`: the shared
/// commitment with the handle at `index`, encoded.
#[verifier::external_body]
pub(crate) fn grouped_ciphertext_at(grouped: &[u8; 128], index: usize) -> (r: Option<[u8; 64]>)
    ensures
        r matches Some(b) ==> b@ == grouped_part(grouped@, index as int),
{
    match GroupedElGamalCiphertext::<3>::from_bytes(grouped) {
        Some(g) => match g.to_elgamal_ciphertext(index) {
            Ok(c) => Some(c.to_bytes()),
            Err(_) => None,
        },
        None => None,
    }
}

/// Relies on `&ElGamalCiphertext + &ElGamalCiphertext`, over encodings.
#[verifier::external_body]
pub(crate) fn add_ciphertexts(a: &[u8; 64], b: &[u8; 64]) -> (r: Option<[u8; 64]>)
    ensures
        r matches Some(c) ==> c@ == elgamal_add_of(a@, b@),
{
    match (ElGamalCiphertext::from_bytes(a), ElGamalCiphertext::from_bytes(b)) {
        (Some(x), Some(y)) => Some((x + y).to_bytes()),
        _ => None,
    }
}

/// Relies on `&ElGamalCiphertext - &ElGamalCiphertext`, over encodings.
#[verifier::external_body]
pub(crate) fn subtract_ciphertexts(a: &[u8; 64], b: &[u8; 64]) -> (r: Option<[u8; 64]>)
    ensures
        r matches Some(c) ==> c@ == elgamal_sub_of(a@, b@),
{
    match (ElGamalCiphertext::from_bytes(a), ElGamalCiphertext::from_bytes(b)) {
        (Some(x), Some(y)) => Some((x - y).to_bytes()),
        _ => None,
    }
}

/// Relies on `&ElGamalCiphertext * &u64`, over encodings.
#[verifier::external_body]
pub(crate) fn scale_ciphertext(c: &[u8; 64], factor: u64) -> (r: Option<[u8; 64]>)
    ensures
        r matches Some(b) ==> b@ == elgamal_scale_of(c@, factor),
{
    match ElGamalCiphertext::from_bytes(c) {
        Some(x) => Some((&x * &factor).to_bytes()),
        None => None,
    }
}

/// Relies on `build_batched_grouped_ciphertext_3_handles_validity_proof_data`:
/// its context records both grouped ciphertexts it was given.
#[verifier::external_body]
pub(crate) fn grouped_validity_proof_3_handles(
    first: &ElGamalPubkey,
    second: &ElGamalPubkey,
    third: &ElGamalPubkey,
    grouped_lo: &[u8; 128],
    grouped_hi: &[u8; 128],
    amount_lo: u64,
    amount_hi: u64,
    opening_lo: &PedersenOpening,
    opening_hi: &PedersenOpening,
) -> (r: Option<Result<BatchedGroupedCiphertext3HandlesValidityProofData, ProofGenerationError>>)
    ensures
        r matches Some(Ok(p)) ==> p.context.grouped_ciphertext_lo.0@ == grouped_lo@
            && p.context.grouped_ciphertext_hi.0@ == grouped_hi@,
{
    match (GroupedElGamalCiphertext::<3>::from_bytes(grouped_lo), GroupedElGamalCiphertext::<3>::from_bytes(grouped_hi)) {
        (Some(lo), Some(hi)) => Some(build_batched_grouped_ciphertext_3_handles_validity_proof_data(
            first, second, third, &lo, &hi, amount_lo, amount_hi, opening_lo, opening_hi)),
        _ => None,
    }
}

/// Relies on `build_batched_grouped_ciphertext_2_handles_validity_proof_data`:
/// its context records both grouped ciphertexts it was given.
#[verifier::external_body]
pub(crate) fn grouped_validity_proof_2_handles(
    first: &ElGamalPubkey,
    second: &ElGamalPubkey,
    grouped_lo: &[u8; 96],
    grouped_hi: &[u8; 96],
    amount_lo: u64,
    amount_hi: u64,
    opening_lo: &PedersenOpening,
    opening_hi: &PedersenOpening,
) -> (r: Option<Result<BatchedGroupedCiphertext2HandlesValidityProofData, ProofGenerationError>>)
    ensures
        r matches Some(Ok(p)) ==> p.context.grouped_ciphertext_lo.0@ == grouped_lo@
            && p.context.grouped_ciphertext_hi.0@ == grouped_hi@,
{
    match (GroupedElGamalCiphertext::<2>::from_bytes(grouped_lo), GroupedElGamalCiphertext::<2>::from_bytes(grouped_hi)) {
        (Some(lo), Some(hi)) => Some(build_batched_grouped_ciphertext_2_handles_validity_proof_data(
            first, second, &lo, &hi, amount_lo, amount_hi, opening_lo, opening_hi)),
        _ => None,
    }
}

/// Relies on `Pedersen::with`: the commitment to `amount` under `opening`.
#[verifier::external_body]
pub(crate) fn pedersen_with(amount: u64, opening: &PedersenOpening) -> [u8; 32] {
    Pedersen::with(amount, opening).to_bytes()
}

/// Relies on `PedersenOpening::default`: the zero opening.
#[verifier::external_body]
pub(crate) fn zero_opening() -> PedersenOpening {
    PedersenOpening::default()
}

/// Relies on `&PedersenCommitment + &PedersenCommitment`, over encodings.
#[verifier::external_body]
pub(crate) fn add_commitments(a: &[u8; 32], b: &[u8; 32]) -> (r: Option<[u8; 32]>)
    ensures
        r matches Some(c) ==> c@ == commitment_add_of(a@, b@),
{
    match (PedersenCommitment::from_bytes(a), PedersenCommitment::from_bytes(b)) {
        (Some(x), Some(y)) => Some((&x + &y).to_bytes()),
        _ => None,
    }
}

/// Relies on `&PedersenCommitment - &PedersenCommitment`, over encodings.
#[verifier::external_body]
pub(crate) fn subtract_commitments(a: &[u8; 32], b: &[u8; 32]) -> (r: Option<[u8; 32]>)
    ensures
        r matches Some(c) ==> c@ == commitment_sub_of(a@, b@),
{
    match (PedersenCommitment::from_bytes(a), PedersenCommitment::from_bytes(b)) {
        (Some(x), Some(y)) => Some((&x - &y).to_bytes()),
        _ => None,
    }
}

/// Relies on `&PedersenCommitment * &u64`, over encodings.
#[verifier::external_body]
pub(crate) fn scale_commitment(c: &[u8; 32], factor: u64) -> (r: Option<[u8; 32]>)
    ensures
        r matches Some(b) ==> b@ == commitment_scale_of(c@, factor),
{
    match PedersenCommitment::from_bytes(c) {
        Some(x) => Some((&x * &factor).to_bytes()),
        None => None,
    }
}

/// Relies on `&PedersenOpening + &PedersenOpening`: the sum of the openings.
#[verifier::external_body]
pub(crate) fn add_openings(a: &PedersenOpening, b: &PedersenOpening) -> PedersenOpening {
    a + b
}

/// Relies on `&PedersenOpening - &PedersenOpening`: the difference of the
/// openings.
#[verifier::external_body]
pub(crate) fn subtract_openings(a: &PedersenOpening, b: &PedersenOpening) -> PedersenOpening {
    a - b
}

/// Relies on `&PedersenOpening * &u64`: the opening times `factor`.
#[verifier::external_body]
pub(crate) fn scale_opening(o: &PedersenOpening, factor: u64) -> PedersenOpening {
    o * &factor
}

/// Relies on `build_percentage_with_cap_proof_data`: its context records the
/// three commitments it was given.
#[verifier::external_body]
pub(crate) fn percentage_with_cap_proof(
    percentage_commitment: &[u8; 32],
    percentage_opening: &PedersenOpening,
    percentage_amount: u64,
    delta_commitment: &[u8; 32],
    delta_opening: &PedersenOpening,
    delta_amount: u64,
    claimed_commitment: &[u8; 32],
    claimed_opening: &PedersenOpening,
    max_value: u64,
) -> (r: Option<Result<PercentageWithCapProofData, ProofGenerationError>>)
    ensures
        r matches Some(Ok(p)) ==> p.context.percentage_commitment.0@ == percentage_commitment@
            && p.context.delta_commitment.0@ == delta_commitment@
            && p.context.claimed_commitment.0@ == claimed_commitment@,
{
    let p = PedersenCommitment::from_bytes(percentage_commitment)?;
    let d = PedersenCommitment::from_bytes(delta_commitment)?;
    let c = PedersenCommitment::from_bytes(claimed_commitment)?;
    Some(build_percentage_with_cap_proof_data(&p, percentage_opening, percentage_amount, &d, delta_opening, delta_amount, &c, claimed_opening, max_value))
}

} // verus!
