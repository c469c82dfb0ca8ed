use atomic_swap::{commit, get_hash_algo, get_payment_state, hash_using, PaymentState, SecretHashAlgo};
use parity_scale_codec::Encode;

const SECRET: [u8; 32] = [1; 32];

const SHA2_OF_SECRET: [u8; 32] = [
    0x72, 0xcd, 0x6e, 0x84, 0x22, 0xc4, 0x07, 0xfb, 0x6d, 0x09, 0x86, 0x90, 0xf1, 0x13, 0x0b, 0x7d,
    0xed, 0x7e, 0xc2, 0xf7, 0xf5, 0xe1, 0xd3, 0x0b, 0xd9, 0xd5, 0x21, 0xf0, 0x15, 0x36, 0x37, 0x93,
];

const KECCAK_OF_SECRET: [u8; 32] = [
    0xce, 0xbc, 0x88, 0x82, 0xfe, 0xcb, 0xec, 0x7f, 0xb8, 0x0d, 0x2c, 0xf4, 0xb3, 0x12, 0xbe, 0xc0,
    0x18, 0x88, 0x4c, 0x2d, 0x66, 0x66, 0x7c, 0x67, 0xa9, 0x05, 0x08, 0x21, 0x4b, 0xd8, 0xba, 0xfc,
];

const BLAKE2_OF_SECRET: [u8; 32] = [
    0xf4, 0x0c, 0xea, 0xf8, 0x6e, 0x57, 0x76, 0x92, 0x33, 0x32, 0xb8, 0xd8, 0xfd, 0x3b, 0xef, 0x84,
    0x9c, 0xad, 0xb1, 0x9c, 0x69, 0x96, 0xbc, 0x27, 0x2a, 0xf1, 0xf6, 0x48, 0xd9, 0x56, 0x6a, 0x4c,
];

fn reference_commitment(
    sender: ink_env::AccountId,
    target: ink_env::AccountId,
    proof: [u8; 32],
    amount: u128,
) -> [u8; 32] {
    let mut buf = Vec::new();
    buf.extend_from_slice(&sender.encode());
    buf.extend_from_slice(&target.encode());
    buf.extend_from_slice(&proof.encode());
    buf.extend_from_slice(&amount.encode());
    let mut output = [0x00_u8; 32];
    ink_env::hash_bytes::<ink_env::hash::Blake2x256>(&buf[..], &mut output);
    output
}

#[test]
fn sha2_digest_of_known_secret() {
    assert_eq!(hash_using(SecretHashAlgo::Sha2x256, &SECRET), SHA2_OF_SECRET);
}

#[test]
fn keccak_digest_of_known_secret() {
    assert_eq!(hash_using(SecretHashAlgo::Keccak256, &SECRET), KECCAK_OF_SECRET);
}

#[test]
fn blake2_digest_of_known_secret() {
    assert_eq!(hash_using(SecretHashAlgo::Blake2x256, &SECRET), BLAKE2_OF_SECRET);
}

#[test]
fn digests_differ_between_algorithms_and_from_the_input() {
    let sha2 = hash_using(SecretHashAlgo::Sha2x256, &SECRET);
    let keccak = hash_using(SecretHashAlgo::Keccak256, &SECRET);
    let blake2 = hash_using(SecretHashAlgo::Blake2x256, &SECRET);
    assert_ne!(sha2, keccak);
    assert_ne!(sha2, blake2);
    assert_ne!(keccak, blake2);
    assert_ne!(sha2, SECRET);
    assert_ne!(keccak, SECRET);
    assert_ne!(blake2, SECRET);
}

#[test]
fn digest_is_deterministic() {
    let algos = [SecretHashAlgo::Sha2x256, SecretHashAlgo::Keccak256, SecretHashAlgo::Blake2x256];
    for algo in algos {
        for byte in [0u8, 1, 0x7f, 0xff] {
            let secret = [byte; 32];
            assert_eq!(hash_using(algo, &secret), hash_using(algo, &secret));
        }
    }
}

#[test]
fn digest_agrees_with_the_host_hasher() {
    let secret = [0x5a_u8; 32];
    let mut expected = [0u8; 32];
    ink_env::hash_bytes::<ink_env::hash::Sha2x256>(&secret, &mut expected);
    assert_eq!(hash_using(SecretHashAlgo::Sha2x256, &secret), expected);
    ink_env::hash_bytes::<ink_env::hash::Keccak256>(&secret, &mut expected);
    assert_eq!(hash_using(SecretHashAlgo::Keccak256, &secret), expected);
    ink_env::hash_bytes::<ink_env::hash::Blake2x256>(&secret, &mut expected);
    assert_eq!(hash_using(SecretHashAlgo::Blake2x256, &secret), expected);
}

#[test]
fn algorithm_tags_decode() {
    assert_eq!(get_hash_algo(0), SecretHashAlgo::Sha2x256);
    assert_eq!(get_hash_algo(1), SecretHashAlgo::Keccak256);
    assert_eq!(get_hash_algo(2), SecretHashAlgo::Blake2x256);
}

#[test]
fn unknown_algorithm_tag_falls_back_to_sha2() {
    assert_eq!(get_hash_algo(3), SecretHashAlgo::Sha2x256);
    assert_eq!(get_hash_algo(7), SecretHashAlgo::Sha2x256);
    assert_eq!(get_hash_algo(255), SecretHashAlgo::Sha2x256);
}

#[test]
fn state_tags_decode() {
    assert_eq!(get_payment_state(0), PaymentState::Uninitialized);
    assert_eq!(get_payment_state(1), PaymentState::PaymentSent);
    assert_eq!(get_payment_state(2), PaymentState::ReceivedSpent);
    assert_eq!(get_payment_state(3), PaymentState::SenderRefunded);
    assert_eq!(get_payment_state(4), PaymentState::Uninitialized);
    assert_eq!(get_payment_state(255), PaymentState::Uninitialized);
}

#[test]
fn commitment_of_known_inputs() {
    let expected: [u8; 32] = [
        0x29, 0x4a, 0x7e, 0xb5, 0xf5, 0xae, 0x8c, 0xbd, 0x03, 0x27, 0x31, 0x63, 0x2f, 0xbd, 0x18,
        0x6b, 0xa8, 0x98, 0x89, 0x69, 0x49, 0x3c, 0x3d, 0xb0, 0x3a, 0xae, 0xd4, 0x19, 0xd5, 0xd4,
        0xa4, 0xbb,
    ];
    assert_eq!(commit(&[1; 32], &[2; 32], &SHA2_OF_SECRET, 10), expected);
}

#[test]
fn commitment_encodes_the_amount_in_little_endian() {
    let expected: [u8; 32] = [
        0xc5, 0x1b, 0x3d, 0xb0, 0xe7, 0xcf, 0x61, 0xd2, 0x48, 0x0f, 0x4d, 0x94, 0x47, 0xaf, 0x85,
        0x92, 0xbf, 0x38, 0x3d, 0x92, 0x95, 0x66, 0x21, 0x75, 0x21, 0xdc, 0x07, 0x64, 0xeb, 0x32,
        0x38, 0x51,
    ];
    let amount: u128 = 0x0102030405060708090a0b0c0d0e0f10;
    assert_eq!(commit(&[0xaa; 32], &[0xbb; 32], &[0xcc; 32], amount), expected);
}

#[test]
fn commitment_agrees_with_the_host_encoding() {
    let alice = ink_env::AccountId::from([0x01; 32]);
    let bob = ink_env::AccountId::from([0x02; 32]);
    let proof = [0x33_u8; 32];
    for amount in [0u128, 1, 10, 255, 256, u64::MAX as u128, u128::MAX] {
        assert_eq!(
            commit(&[0x01; 32], &[0x02; 32], &proof, amount),
            reference_commitment(alice, bob, proof, amount)
        );
    }
}

#[test]
fn commitment_is_order_sensitive() {
    let a = [0x01_u8; 32];
    let b = [0x02_u8; 32];
    let p = [0x03_u8; 32];
    let base = commit(&a, &b, &p, 10);
    assert_ne!(commit(&b, &a, &p, 10), base);
    assert_ne!(commit(&a, &p, &b, 10), base);
    assert_ne!(commit(&p, &b, &a, 10), base);
}

#[test]
fn commitment_changes_with_each_input() {
    let a = [0x01_u8; 32];
    let b = [0x02_u8; 32];
    let p = [0x03_u8; 32];
    let base = commit(&a, &b, &p, 10);
    let mut a2 = a;
    a2[31] ^= 0x01;
    let mut b2 = b;
    b2[0] ^= 0x80;
    let mut p2 = p;
    p2[16] ^= 0x10;
    assert_ne!(commit(&a2, &b, &p, 10), base);
    assert_ne!(commit(&a, &b2, &p, 10), base);
    assert_ne!(commit(&a, &b, &p2, 10), base);
    assert_ne!(commit(&a, &b, &p, 11), base);
    assert_eq!(commit(&a, &b, &p, 10), base);
}
