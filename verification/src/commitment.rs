//! The commitment builder: one digest that binds two parties, a proof value
//! and an amount, in that order.

use crate::hashing::{blake2_256, blake2_256_digest};
use vstd::bytes::{lemma_auto_spec_u128_to_from_le_bytes, spec_u128_to_le_bytes};
use vstd::prelude::*;

verus! {

/// The identity of a party, as the host's ledger knows it.
pub type AccountId = [u8; 32];

/// An amount of the ledger's currency.
pub type Balance = u128;

/// The hash of the secret, given when a swap is created.
pub type HashedProof = [u8; 32];

/// A commitment over parties, proof and amount.
pub type PaymentHash = [u8; 32];

/// Calls `parity_scale_codec::Encode::encode` on a 32-byte array. Trusted: the
/// encoding of a byte array is its bytes, without a length prefix.
#[verifier::external_body]
pub(crate) fn encode_bytes32(value: &[u8; 32]) -> (out: Vec<u8>)
    ensures
        out@ == value@,
{
    parity_scale_codec::Encode::encode(value)
}

/// Calls `parity_scale_codec::Encode::encode` on a `u128`. Trusted: the
/// encoding of an integer is its 16 bytes in little-endian order.
#[verifier::external_body]
pub(crate) fn encode_balance(value: Balance) -> (out: Vec<u8>)
    ensures
        out@ == spec_u128_to_le_bytes(value),
{
    parity_scale_codec::Encode::encode(&value)
}

/// The bytes that a commitment digests: the encodings of the four inputs,
/// concatenated in the fixed order first party, second party, proof, amount.
pub open spec fn commitment_preimage(
    party_a: Seq<u8>,
    party_b: Seq<u8>,
    proof: Seq<u8>,
    amount: Balance,
) -> Seq<u8> {
    party_a + party_b + proof + spec_u128_to_le_bytes(amount)
}

/// The binding commitment: the BLAKE2-256 digest of the preimage, whatever
/// algorithm the swap's secret is hashed with.
pub open spec fn commitment(
    party_a: Seq<u8>,
    party_b: Seq<u8>,
    proof: Seq<u8>,
    amount: Balance,
) -> Seq<u8> {
    blake2_256_digest(commitment_preimage(party_a, party_b, proof, amount))
}

/// Computes the commitment over two parties, a proof value and an amount.
pub fn commit(
    party_a: &AccountId,
    party_b: &AccountId,
    proof: &[u8; 32],
    amount: Balance,
) -> (out: PaymentHash)
    ensures
        out@ == commitment(party_a@, party_b@, proof@, amount),
{
    let mut buf: Vec<u8> = Vec::new();
    let mut first = encode_bytes32(party_a);
    buf.append(&mut first);
    let mut second = encode_bytes32(party_b);
    buf.append(&mut second);
    let mut third = encode_bytes32(proof);
    buf.append(&mut third);
    let mut fourth = encode_balance(amount);
    buf.append(&mut fourth);
    assert(buf@ =~= commitment_preimage(party_a@, party_b@, proof@, amount));
    blake2_256(buf.as_slice())
}

/// The preimage is injective on 32-byte fields: two preimages are equal only
/// if all four bound inputs are equal, position by position. Changing a party,
/// the proof or the amount, or swapping two fields that differ, changes the
/// bytes that are digested.
pub proof fn lemma_preimage_injective(
    party_a: Seq<u8>,
    party_b: Seq<u8>,
    proof: Seq<u8>,
    amount: Balance,
    other_a: Seq<u8>,
    other_b: Seq<u8>,
    other_proof: Seq<u8>,
    other_amount: Balance,
)
    requires
        party_a.len() == 32 && party_b.len() == 32 && proof.len() == 32,
        other_a.len() == 32 && other_b.len() == 32 && other_proof.len() == 32,
        commitment_preimage(party_a, party_b, proof, amount) == commitment_preimage(
            other_a,
            other_b,
            other_proof,
            other_amount,
        ),
    ensures
        party_a == other_a,
        party_b == other_b,
        proof == other_proof,
        amount == other_amount,
{
    lemma_auto_spec_u128_to_from_le_bytes();
    let encoded = spec_u128_to_le_bytes(amount);
    let other_encoded = spec_u128_to_le_bytes(other_amount);
    let bytes = commitment_preimage(party_a, party_b, proof, amount);
    let other_bytes = commitment_preimage(other_a, other_b, other_proof, other_amount);
    assert(bytes.subrange(0, 32) =~= party_a);
    assert(other_bytes.subrange(0, 32) =~= other_a);
    assert(bytes.subrange(32, 64) =~= party_b);
    assert(other_bytes.subrange(32, 64) =~= other_b);
    assert(bytes.subrange(64, 96) =~= proof);
    assert(other_bytes.subrange(64, 96) =~= other_proof);
    assert(bytes.subrange(96, 112) =~= encoded);
    assert(other_bytes.subrange(96, 112) =~= other_encoded);
}

} // verus!
