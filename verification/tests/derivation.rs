use bbs_keys::keys::{
    derive_blinded_g1, derive_blinded_g2, derive_g1, derive_g2, select_entropy, BLINDING_SUFFIX,
};

use bbs::keys::{DeterministicPublicKey, KeyGenOption, SecretKey};
use bbs::HashElem;
use pairing_plus::bls12_381::{Fr, G1};
use pairing_plus::serdes::SerDes;
use pairing_plus::CurveProjective;

#[test]
fn entropy_selector_empty_means_absent() {
    let empty: Vec<u8> = Vec::new();
    assert!(select_entropy(&empty).is_none());
    let seed = vec![4u8, 5u8, 6u8];
    assert_eq!(select_entropy(&seed), Some(seed.clone()));
}

#[test]
fn determinism_g1() {
    let seed = vec![1u8, 2u8, 3u8, 4u8];
    let a = derive_g1(&seed);
    let b = derive_g1(&seed);
    assert_eq!(a.public, b.public);
    assert_eq!(a.secret, b.secret);
    assert_eq!(a.public.len(), 48);
    assert_eq!(a.secret.len(), 32);
}

#[test]
fn determinism_g2() {
    let seed = vec![1u8, 2u8, 3u8, 4u8];
    let a = derive_g2(&seed);
    let b = derive_g2(&seed);
    assert_eq!(a.public, b.public);
    assert_eq!(a.secret, b.secret);
    assert_eq!(a.public.len(), 96);
    assert_eq!(a.secret.len(), 32);
}

#[test]
fn determinism_blinded_g1() {
    let seed = vec![9u8; 16];
    let a = derive_blinded_g1(&seed).unwrap();
    let b = derive_blinded_g1(&seed).unwrap();
    assert_eq!(a.blinding, b.blinding);
    assert_eq!(a.public, b.public);
    assert_eq!(a.secret, b.secret);
    assert_eq!(a.blinding.len(), 32);
    assert_eq!(a.public.len(), 48);
}

#[test]
fn determinism_blinded_g2() {
    let seed = vec![9u8; 16];
    let a = derive_blinded_g2(&seed).unwrap();
    let b = derive_blinded_g2(&seed).unwrap();
    assert_eq!(a.blinding, b.blinding);
    assert_eq!(a.public, b.public);
    assert_eq!(a.secret, b.secret);
    assert_eq!(a.public.len(), 96);
}

#[test]
fn empty_seed_draws_fresh_secrets() {
    let empty: Vec<u8> = Vec::new();
    let a = derive_g1(&empty);
    let b = derive_g1(&empty);
    assert_ne!(a.secret, b.secret);
    assert_eq!(a.secret.len(), 32);
    assert_eq!(b.secret.len(), 32);
}

#[test]
fn group_separation() {
    let seed = vec![42u8; 8];
    let g1 = derive_g1(&seed);
    let g2 = derive_g2(&seed);
    assert_eq!(g1.public.len(), 48);
    assert_eq!(g2.public.len(), 96);
    assert_ne!(g1.public, g2.public);
    assert_eq!(g1.secret, g2.secret);
}

#[test]
fn blinding_differs_from_secret() {
    let seed = vec![11u8, 22u8, 33u8];
    let kp = derive_blinded_g1(&seed).unwrap();
    assert_ne!(kp.blinding, kp.secret);
    let kp2 = derive_blinded_g2(&seed).unwrap();
    assert_ne!(kp2.blinding, kp2.secret);
    assert_eq!(kp.blinding, kp2.blinding);
    let empty: Vec<u8> = Vec::new();
    let kp3 = derive_blinded_g1(&empty).unwrap();
    assert_ne!(kp3.blinding, kp3.secret);
}

#[test]
fn seeded_secret_matches_primitive() {
    let seed = vec![13u8; 20];
    let derived = derive_g1(&seed);
    let expected = SecretKey::hash(seed.as_slice()).to_bytes_compressed_form();
    assert_eq!(derived.secret.as_slice(), &expected[..]);
}

#[test]
fn seeded_secret_matches_known_vector() {
    // Seed of 32 zero bytes; expected scalar taken from the primitive
    // library's own test suite.
    let seed = vec![0u8; 32];
    let derived = derive_g2(&seed);
    let expected: [u8; 32] = [
        0x0e, 0xb2, 0x5c, 0x42, 0x13, 0x50, 0x94, 0x7e, 0x8c, 0x99, 0xfa, 0xea, 0xee, 0x64, 0x3d,
        0x64, 0xf9, 0xe0, 0x1c, 0x56, 0x84, 0x67, 0xe5, 0xde, 0x41, 0x05, 0x0c, 0xc4, 0x19, 0x0e,
        0x8d, 0xb8,
    ];
    assert_eq!(derived.secret.as_slice(), &expected[..]);
}

#[test]
fn blinding_matches_primitive() {
    let seed = vec![8u8; 6];
    let kp = derive_blinded_g1(&seed).unwrap();
    let mut suffixed = seed.clone();
    suffixed.push(BLINDING_SUFFIX);
    let expected = SecretKey::hash(suffixed.as_slice()).to_bytes_compressed_form();
    assert_eq!(kp.blinding.as_slice(), &expected[..]);
    assert_eq!(kp.secret, derive_g1(&seed).secret);
}

#[test]
fn g2_public_matches_primitive() {
    let seed = vec![7u8; 12];
    let derived = derive_g2(&seed);
    let (dpk, sk) = DeterministicPublicKey::new(Some(KeyGenOption::UseSeed(seed.clone())));
    assert_eq!(derived.public.as_slice(), &dpk.to_bytes_compressed_form()[..]);
    assert_eq!(derived.secret.as_slice(), &sk.to_bytes_compressed_form()[..]);
}

#[test]
fn g1_public_matches_primitive() {
    let seed = vec![5u8; 10];
    let derived = derive_g1(&seed);
    let fr = Fr::deserialize(&mut derived.secret.as_slice(), true).unwrap();
    let mut point = G1::one();
    point.mul_assign(fr);
    let mut expected: Vec<u8> = Vec::new();
    point.serialize(&mut expected, true).unwrap();
    assert_eq!(derived.public, expected);
}
