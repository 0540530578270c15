//! The trusted boundary to the pairing-curve primitives.
//!
//! Every function here is `external_body`: its body makes one call into the
//! `bbs` or `pairing-plus` crate (plus the conversions around it), and its
//! contract states what that crate's source shows of the call. Results that
//! are functions of the arguments alone but have no short closed form (a key
//! derived by HKDF, a point multiplication, a hash-to-curve expansion) are
//! given names by the uninterpreted spec functions below; the verified code
//! reasons over those names.

use vstd::prelude::*;

verus! {

use std::convert::TryFrom;
use bbs::keys::{DeterministicPublicKey, KeyGenOption, PublicKey, SecretKey};
use bbs::{HashElem, RandomElem, ToVariableLengthBytes};
use pairing_plus::bls12_381::{Fr, G1};
use pairing_plus::serdes::SerDes;
use pairing_plus::CurveProjective;

/// Byte length of an encoded secret scalar.
pub const SECRET_LENGTH: usize = 32;

/// Byte length of a compressed public element of the G1 subgroup.
pub const G1_PUBLIC_LENGTH: usize = 48;

/// Byte length of a compressed public element of the G2 subgroup.
pub const G2_PUBLIC_LENGTH: usize = 96;

/// Byte length of the fixed part of a serialized multi-message public key:
/// the G2 commitment, the blinding generator and a four-byte attribute count.
pub const KEY_BASE_LENGTH: usize = 148;

/// Byte length each message attribute adds to a serialized multi-message
/// public key: one compressed G1 generator.
pub const KEY_ATTRIBUTE_LENGTH: usize = 48;

/// The 32-byte encoding of the secret scalar that the primitive library
/// derives (by HKDF) from the given input keying material.
pub uninterp spec fn sk_of_ikm(ikm: Seq<u8>) -> Seq<u8>;

/// Whether a byte encoding decodes to a scalar of the curve's scalar field.
pub uninterp spec fn scalar_ok(b: Seq<u8>) -> bool;

/// The compressed encoding of the G1 generator multiplied by the scalar
/// encoded in `sk`.
pub uninterp spec fn g1_point_of(sk: Seq<u8>) -> Seq<u8>;

/// The compressed encoding of the G2 generator multiplied by the scalar
/// encoded in `sk`.
pub uninterp spec fn g2_point_of(sk: Seq<u8>) -> Seq<u8>;

/// The compressed serialization of the multi-message public key that the
/// primitive library expands from the scalar encoded in `sk` for `n`
/// message attributes.
pub uninterp spec fn bbs_key_of(sk: Seq<u8>, n: int) -> Seq<u8>;

/// Whether bytes decode to a well-formed multi-message public key all of
/// whose components are valid, non-identity group elements.
pub uninterp spec fn key_bytes_valid(b: Seq<u8>) -> bool;

/// Relies on bbs's seeded secret-key generation (`SecretKey::hash`, an HKDF
/// over the keying material): the result depends on the bytes alone, is 32
/// bytes long, and decodes back to a valid scalar.
#[verifier::external_body]
pub(crate) fn seeded_secret(ikm: &Vec<u8>) -> (r: Vec<u8>)
    ensures
        r@ == sk_of_ikm(ikm@),
        r@.len() == SECRET_LENGTH,
        scalar_ok(r@),
{
    SecretKey::hash(ikm.as_slice()).to_bytes_compressed_form().to_vec()
}

/// Relies on bbs's random secret-key generation (`SecretKey::random`): each
/// call draws a fresh scalar from the secure random source; nothing is said
/// of the value beyond its length and that it decodes to a valid scalar.
#[verifier::external_body]
pub(crate) fn random_secret() -> (r: Vec<u8>)
    ensures
        r@.len() == SECRET_LENGTH,
        scalar_ok(r@),
{
    SecretKey::random().to_bytes_compressed_form().to_vec()
}

/// Relies on pairing-plus: deserializes the scalar and multiplies the fixed
/// G1 generator by it; the 48-byte compressed encoding depends on the scalar
/// bytes alone.
#[verifier::external_body]
pub(crate) fn g1_public(sk: &Vec<u8>) -> (r: Vec<u8>)
    requires
        sk@.len() == SECRET_LENGTH,
        scalar_ok(sk@),
    ensures
        r@ == g1_point_of(sk@),
        r@.len() == G1_PUBLIC_LENGTH,
{
    let fr = Fr::deserialize(&mut sk.as_slice(), true).unwrap();
    let mut point = G1::one();
    point.mul_assign(fr);
    let mut out = Vec::new();
    point.serialize(&mut out, true).unwrap();
    out
}

/// Relies on bbs's `DeterministicPublicKey::new` with the secret key handed
/// in: the G2 commitment to the scalar, compressed to 96 bytes, depending on
/// the scalar bytes alone.
#[verifier::external_body]
pub(crate) fn g2_public(sk: &Vec<u8>) -> (r: Vec<u8>)
    requires
        sk@.len() == SECRET_LENGTH,
        scalar_ok(sk@),
    ensures
        r@ == g2_point_of(sk@),
        r@.len() == G2_PUBLIC_LENGTH,
{
    let secret = SecretKey::try_from(sk.as_slice()).unwrap();
    let (dpk, _) = DeterministicPublicKey::new(Some(KeyGenOption::FromSecretKey(secret)));
    dpk.to_bytes_compressed_form().to_vec()
}

/// Relies on bbs's `DeterministicPublicKey::to_public_key`: for a positive
/// attribute count it deterministically expands the secret into the G2
/// commitment, a blinding generator and `n` per-attribute generators, all
/// derived by hash-to-curve from the commitment; the call fails exactly when
/// the secret bytes do not decode to a scalar. The compressed serialization
/// is the fixed base plus 48 bytes per attribute.
#[verifier::external_body]
pub(crate) fn expand_secret(sk: &Vec<u8>, n: usize) -> (r: Result<Vec<u8>, ()>)
    requires
        sk@.len() == SECRET_LENGTH,
        n >= 1,
    ensures
        r is Ok <==> scalar_ok(sk@),
        r matches Ok(v) ==> v@ == bbs_key_of(sk@, n as int)
            && v@.len() == KEY_BASE_LENGTH + KEY_ATTRIBUTE_LENGTH * n,
{
    let secret = match SecretKey::try_from(sk.as_slice()) {
        Ok(s) => s,
        Err(_) => {
            return Err(());
        },
    };
    let (dpk, _) = DeterministicPublicKey::new(Some(KeyGenOption::FromSecretKey(secret)));
    match dpk.to_public_key(n) {
        Ok(pk) => Ok(pk.to_bytes_compressed_form()),
        Err(_) => Err(()),
    }
}

/// Relies on bbs's `PublicKey` parsing and `validate`: whether the bytes
/// decode to a well-formed multi-message public key with no identity
/// component depends on the bytes alone.
#[verifier::external_body]
pub(crate) fn validate_key_bytes(b: &Vec<u8>) -> (r: bool)
    requires
        b@.len() >= 4,
    ensures
        r == key_bytes_valid(b@),
{
    match PublicKey::from_bytes_compressed_form(b.as_slice()) {
        Ok(pk) => pk.validate().is_ok(),
        Err(_) => false,
    }
}

} // verus!
