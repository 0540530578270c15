//! Keypair derivation over the two curve subgroups, plain and blinded.

use vstd::prelude::*;

verus! {

use crate::curve::{
    g1_point_of, g1_public, g2_point_of, g2_public, scalar_ok, seeded_secret, sk_of_ikm,
    random_secret, G1_PUBLIC_LENGTH, G2_PUBLIC_LENGTH, SECRET_LENGTH,
};
use crate::errors::KeyError;

/// The byte appended to the seed to obtain the keying material of the
/// blinding scalar, so that secret and blinding are derived from the same
/// seed but through distinct inputs.
pub const BLINDING_SUFFIX: u8 = 1;

/// A public element together with the secret scalar it commits to, both in
/// their fixed-length byte encodings.
pub struct KeyPair {
    /// Compressed encoding of the public group element.
    pub public: Vec<u8>,
    /// 32-byte encoding of the secret scalar.
    pub secret: Vec<u8>,
}

/// Copies a byte buffer; the copy holds exactly the same bytes.
fn clone_bytes(v: &Vec<u8>) -> (r: Vec<u8>)
    ensures
        r@ == v@,
{
    let r = v.clone();
    proof {
        assert(v@ =~= r@);
    }
    r
}

/// The entropy selector: a non-empty byte sequence is used as input keying
/// material; an empty one means the secure default randomness is wanted.
pub fn select_entropy(seed: &Vec<u8>) -> (r: Option<Vec<u8>>)
    ensures
        seed@.len() == 0 ==> r is None,
        seed@.len() > 0 ==> (r matches Some(ikm) && ikm@ == seed@),
{
    if seed.len() == 0 {
        None
    } else {
        Some(clone_bytes(seed))
    }
}

/// What `derive_g1` returns for a non-empty seed: the secret scalar derived
/// from the seed, and the G1 commitment to it, in their fixed-length
/// encodings.
pub open spec fn is_seeded_g1_keypair(seed: Seq<u8>, public: Seq<u8>, secret: Seq<u8>) -> bool {
    &&& secret == sk_of_ikm(seed)
    &&& public == g1_point_of(secret)
    &&& secret.len() == SECRET_LENGTH
    &&& public.len() == G1_PUBLIC_LENGTH
}

/// Derives a keypair over the G1 subgroup. A non-empty seed makes the result
/// a function of the seed alone; an empty seed draws the secret from the
/// secure random source.
pub fn derive_g1(seed: &Vec<u8>) -> (r: KeyPair)
    ensures
        r.secret@.len() == SECRET_LENGTH,
        scalar_ok(r.secret@),
        r.public@ == g1_point_of(r.secret@),
        r.public@.len() == G1_PUBLIC_LENGTH,
        seed@.len() > 0 ==> is_seeded_g1_keypair(seed@, r.public@, r.secret@),
{
    let secret = match select_entropy(seed) {
        Some(ikm) => seeded_secret(&ikm),
        None => random_secret(),
    };
    let public = g1_public(&secret);
    KeyPair { public, secret }
}

/// What `derive_g2` returns for a non-empty seed: the secret scalar derived
/// from the seed, and the G2 commitment to it, in their fixed-length
/// encodings.
pub open spec fn is_seeded_g2_keypair(seed: Seq<u8>, public: Seq<u8>, secret: Seq<u8>) -> bool {
    &&& secret == sk_of_ikm(seed)
    &&& public == g2_point_of(secret)
    &&& secret.len() == SECRET_LENGTH
    &&& public.len() == G2_PUBLIC_LENGTH
}

/// Derives a keypair over the G2 subgroup. A non-empty seed makes the result
/// a function of the seed alone; an empty seed draws the secret from the
/// secure random source.
pub fn derive_g2(seed: &Vec<u8>) -> (r: KeyPair)
    ensures
        r.secret@.len() == SECRET_LENGTH,
        scalar_ok(r.secret@),
        r.public@ == g2_point_of(r.secret@),
        r.public@.len() == G2_PUBLIC_LENGTH,
        seed@.len() > 0 ==> is_seeded_g2_keypair(seed@, r.public@, r.secret@),
{
    let secret = match select_entropy(seed) {
        Some(ikm) => seeded_secret(&ikm),
        None => random_secret(),
    };
    let public = g2_public(&secret);
    KeyPair { public, secret }
}

/// A keypair together with an independent blinding scalar, for key-splitting
/// and commitment protocols.
pub struct BlindedKeyPair {
    /// 32-byte encoding of the blinding scalar.
    pub blinding: Vec<u8>,
    /// Compressed encoding of the public group element.
    pub public: Vec<u8>,
    /// 32-byte encoding of the secret scalar.
    pub secret: Vec<u8>,
}

/// Compares two byte buffers for equality of their contents.
fn bytes_eq(a: &Vec<u8>, b: &Vec<u8>) -> (r: bool)
    ensures
        r == (a@ == b@),
{
    if a.len() != b.len() {
        return false;
    }
    let mut i: usize = 0;
    while i < a.len()
        invariant
            i <= a@.len(),
            a@.len() == b@.len(),
            forall|j: int| 0 <= j < i ==> a@[j] == b@[j],
        decreases a@.len() - i,
    {
        if a[i] != b[i] {
            return false;
        }
        i = i + 1;
    }
    proof {
        assert(a@ =~= b@);
    }
    true
}

/// The keying material of the blinding scalar: the seed with the
/// distinguishing suffix byte appended.
fn blinding_ikm(ikm: &Vec<u8>) -> (r: Vec<u8>)
    ensures
        r@ == ikm@.push(BLINDING_SUFFIX),
{
    let mut r = clone_bytes(ikm);
    r.push(BLINDING_SUFFIX);
    r
}

/// What the blinded derivations return for a non-empty seed, beyond the
/// keypair itself: the blinding scalar derived from the suffixed seed.
pub open spec fn is_seeded_blinding(seed: Seq<u8>, blinding: Seq<u8>) -> bool {
    &&& blinding == sk_of_ikm(seed.push(BLINDING_SUFFIX))
    &&& blinding.len() == SECRET_LENGTH
}

/// Derives the secret and blinding scalars from the selected entropy: both
/// from the seed when one is given (the blinding through the suffixed seed),
/// both from the secure random source otherwise.
fn derive_scalar_pair(seed: &Vec<u8>) -> (r: (Vec<u8>, Vec<u8>))
    ensures
        r.0@.len() == SECRET_LENGTH && scalar_ok(r.0@),
        r.1@.len() == SECRET_LENGTH && scalar_ok(r.1@),
        seed@.len() > 0 ==> r.0@ == sk_of_ikm(seed@) && is_seeded_blinding(seed@, r.1@),
{
    match select_entropy(seed) {
        Some(ikm) => {
            let secret = seeded_secret(&ikm);
            let suffixed = blinding_ikm(&ikm);
            let blinding = seeded_secret(&suffixed);
            (secret, blinding)
        },
        None => (random_secret(), random_secret()),
    }
}

/// Derives a keypair over the G1 subgroup together with an independent
/// blinding scalar. For a non-empty seed the whole triple is a function of
/// the seed alone. The blinding scalar is checked against the secret scalar;
/// a collision — which a correct derivation never produces, but which is
/// checked rather than assumed — is reported as an invalid derived key.
pub fn derive_blinded_g1(seed: &Vec<u8>) -> (r: Result<BlindedKeyPair, KeyError>)
    ensures
        r matches Ok(kp) ==> {
            &&& kp.secret@.len() == SECRET_LENGTH && scalar_ok(kp.secret@)
            &&& kp.blinding@.len() == SECRET_LENGTH && scalar_ok(kp.blinding@)
            &&& kp.public@ == g1_point_of(kp.secret@) && kp.public@.len() == G1_PUBLIC_LENGTH
            &&& kp.blinding@ != kp.secret@
            &&& seed@.len() > 0 ==> is_seeded_g1_keypair(seed@, kp.public@, kp.secret@)
                && is_seeded_blinding(seed@, kp.blinding@)
        },
        r matches Err(e) ==> e == KeyError::InvalidDerivedKey,
        seed@.len() > 0 ==> (r is Ok <==> sk_of_ikm(seed@.push(BLINDING_SUFFIX)) != sk_of_ikm(
            seed@,
        )),
{
    let (secret, blinding) = derive_scalar_pair(seed);
    if bytes_eq(&blinding, &secret) {
        return Err(KeyError::InvalidDerivedKey);
    }
    let public = g1_public(&secret);
    Ok(BlindedKeyPair { blinding, public, secret })
}

/// Derives a keypair over the G2 subgroup together with an independent
/// blinding scalar, as `derive_blinded_g1` does over G1.
pub fn derive_blinded_g2(seed: &Vec<u8>) -> (r: Result<BlindedKeyPair, KeyError>)
    ensures
        r matches Ok(kp) ==> {
            &&& kp.secret@.len() == SECRET_LENGTH && scalar_ok(kp.secret@)
            &&& kp.blinding@.len() == SECRET_LENGTH && scalar_ok(kp.blinding@)
            &&& kp.public@ == g2_point_of(kp.secret@) && kp.public@.len() == G2_PUBLIC_LENGTH
            &&& kp.blinding@ != kp.secret@
            &&& seed@.len() > 0 ==> is_seeded_g2_keypair(seed@, kp.public@, kp.secret@)
                && is_seeded_blinding(seed@, kp.blinding@)
        },
        r matches Err(e) ==> e == KeyError::InvalidDerivedKey,
        seed@.len() > 0 ==> (r is Ok <==> sk_of_ikm(seed@.push(BLINDING_SUFFIX)) != sk_of_ikm(
            seed@,
        )),
{
    let (secret, blinding) = derive_scalar_pair(seed);
    if bytes_eq(&blinding, &secret) {
        return Err(KeyError::InvalidDerivedKey);
    }
    let public = g2_public(&secret);
    Ok(BlindedKeyPair { blinding, public, secret })
}

/// Determinism in G1: for a non-empty seed the derived keypair is a function
/// of the seed alone, so any two keypairs derived from the same seed
/// coincide.
pub proof fn lemma_derive_g1_deterministic(
    seed: Seq<u8>,
    public1: Seq<u8>,
    secret1: Seq<u8>,
    public2: Seq<u8>,
    secret2: Seq<u8>,
)
    requires
        seed.len() > 0,
        is_seeded_g1_keypair(seed, public1, secret1),
        is_seeded_g1_keypair(seed, public2, secret2),
    ensures
        public1 == public2,
        secret1 == secret2,
{
}

/// Determinism in G2: for a non-empty seed the derived keypair is a function
/// of the seed alone, so any two keypairs derived from the same seed
/// coincide.
pub proof fn lemma_derive_g2_deterministic(
    seed: Seq<u8>,
    public1: Seq<u8>,
    secret1: Seq<u8>,
    public2: Seq<u8>,
    secret2: Seq<u8>,
)
    requires
        seed.len() > 0,
        is_seeded_g2_keypair(seed, public1, secret1),
        is_seeded_g2_keypair(seed, public2, secret2),
    ensures
        public1 == public2,
        secret1 == secret2,
{
}

/// Determinism of the blinded derivations: for a non-empty seed the blinding
/// scalar is a function of the seed alone, so together with the keypair
/// lemmas, any two blinded triples derived from the same seed coincide.
pub proof fn lemma_blinding_deterministic(seed: Seq<u8>, blinding1: Seq<u8>, blinding2: Seq<u8>)
    requires
        seed.len() > 0,
        is_seeded_blinding(seed, blinding1),
        is_seeded_blinding(seed, blinding2),
    ensures
        blinding1 == blinding2,
{
}

/// Group separation: for the same seed, the public elements of the two
/// variants have different byte lengths, and therefore differ.
pub proof fn lemma_group_separation(
    seed: Seq<u8>,
    public1: Seq<u8>,
    secret1: Seq<u8>,
    public2: Seq<u8>,
    secret2: Seq<u8>,
)
    requires
        is_seeded_g1_keypair(seed, public1, secret1),
        is_seeded_g2_keypair(seed, public2, secret2),
    ensures
        public1.len() != public2.len(),
        public1 != public2,
{
}

} // verus!
