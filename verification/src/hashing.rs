//! The hash engine: a digest of a byte string under one of three algorithms.

use vstd::prelude::*;

verus! {

/// A 32-byte digest.
pub type Digest = [u8; 32];

/// The secret whose digest locks a swap.
pub type Secret = [u8; 32];

/// The algorithm that turns a revealed secret into the hash it was locked under.
#[derive(Clone, Copy, Debug, PartialEq, Eq, Structural)]
pub enum SecretHashAlgo {
    Sha2x256,
    Keccak256,
    Blake2x256,
}

/// The SHA2-256 digest of `input`: what `ink_env::hash_bytes` writes for the
/// `Sha2x256` hasher.
pub uninterp spec fn sha2_256_digest(input: Seq<u8>) -> Seq<u8>;

/// The KECCAK-256 digest of `input`: what `ink_env::hash_bytes` writes for the
/// `Keccak256` hasher.
pub uninterp spec fn keccak_256_digest(input: Seq<u8>) -> Seq<u8>;

/// The BLAKE2b digest of `input` with 256 bits of output: what
/// `ink_env::hash_bytes` writes for the `Blake2x256` hasher.
pub uninterp spec fn blake2_256_digest(input: Seq<u8>) -> Seq<u8>;

/// Calls `ink_env::hash_bytes::<Sha2x256>`. Trusted: the 32 bytes written
/// depend on `input` alone, and are named `sha2_256_digest(input)`.
#[verifier::external_body]
pub(crate) fn sha2_256(input: &[u8]) -> (out: Digest)
    ensures
        out@ == sha2_256_digest(input@),
{
    let mut out = [0u8; 32];
    ink_env::hash_bytes::<ink_env::hash::Sha2x256>(input, &mut out);
    out
}

/// Calls `ink_env::hash_bytes::<Keccak256>`. Trusted: the 32 bytes written
/// depend on `input` alone, and are named `keccak_256_digest(input)`.
#[verifier::external_body]
pub(crate) fn keccak_256(input: &[u8]) -> (out: Digest)
    ensures
        out@ == keccak_256_digest(input@),
{
    let mut out = [0u8; 32];
    ink_env::hash_bytes::<ink_env::hash::Keccak256>(input, &mut out);
    out
}

/// Calls `ink_env::hash_bytes::<Blake2x256>`. Trusted: the 32 bytes written
/// depend on `input` alone, and are named `blake2_256_digest(input)`.
#[verifier::external_body]
pub(crate) fn blake2_256(input: &[u8]) -> (out: Digest)
    ensures
        out@ == blake2_256_digest(input@),
{
    let mut out = [0u8; 32];
    ink_env::hash_bytes::<ink_env::hash::Blake2x256>(input, &mut out);
    out
}

/// The digest of `input` under `algo`.
pub open spec fn digest(algo: SecretHashAlgo, input: Seq<u8>) -> Seq<u8> {
    match algo {
        SecretHashAlgo::Sha2x256 => sha2_256_digest(input),
        SecretHashAlgo::Keccak256 => keccak_256_digest(input),
        SecretHashAlgo::Blake2x256 => blake2_256_digest(input),
    }
}

/// The algorithm that a stored tag selects. Tags 0, 1 and 2 are the three
/// algorithms; every other tag selects SHA2-256, the documented default.
pub open spec fn algo_of_tag(tag: u8) -> SecretHashAlgo {
    if tag == 1 {
        SecretHashAlgo::Keccak256
    } else if tag == 2 {
        SecretHashAlgo::Blake2x256
    } else {
        SecretHashAlgo::Sha2x256
    }
}

/// Decodes an algorithm tag; an unrecognised tag falls back to SHA2-256.
pub fn get_hash_algo(inx: u8) -> (algo: SecretHashAlgo)
    ensures
        algo == algo_of_tag(inx),
{
    match inx {
        0 => SecretHashAlgo::Sha2x256,
        1 => SecretHashAlgo::Keccak256,
        2 => SecretHashAlgo::Blake2x256,
        _ => SecretHashAlgo::Sha2x256,
    }
}

/// Hashes a secret under the chosen algorithm.
pub fn hash_using(algo: SecretHashAlgo, secret: &Secret) -> (out: Digest)
    ensures
        out@ == digest(algo, secret@),
{
    match algo {
        SecretHashAlgo::Sha2x256 => sha2_256(secret.as_slice()),
        SecretHashAlgo::Keccak256 => keccak_256(secret.as_slice()),
        SecretHashAlgo::Blake2x256 => blake2_256(secret.as_slice()),
    }
}

/// Whether two digests hold the same bytes.
pub fn same_bytes(a: &Digest, b: &Digest) -> (same: bool)
    ensures
        same == (a@ == b@),
{
    let mut i: usize = 0;
    while i < 32
        invariant
            i <= 32,
            forall|j: int| 0 <= j < i ==> a@[j] == b@[j],
        decreases 32 - i,
    {
        if a[i] != b[i] {
            return false;
        }
        i += 1;
    }
    assert(a@ =~= b@);
    true
}

} // verus!
