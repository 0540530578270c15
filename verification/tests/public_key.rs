use bbs_keys::bbs_key::derive_public_from_secret;
use bbs_keys::errors::KeyError;
use bbs_keys::keys::derive_g1;

use bbs::keys::PublicKey;
use bbs::ToVariableLengthBytes;

fn derived_secret() -> Vec<u8> {
    let seed = vec![3u8, 1u8, 4u8, 1u8, 5u8];
    derive_g1(&seed).secret
}

#[test]
fn round_trip_validity() {
    let secret = derived_secret();
    for n in [1usize, 2, 5] {
        let bytes = derive_public_from_secret(&secret, n).unwrap();
        let key = PublicKey::from_bytes_compressed_form(bytes.as_slice()).unwrap();
        assert!(key.validate().is_ok());
        assert_eq!(key.message_count(), n);
    }
}

#[test]
fn zero_attribute_count_is_rejected() {
    // The primitive library refuses to expand a key for zero attributes, so a
    // count of zero is rejected before derivation.
    let secret = derived_secret();
    assert_eq!(
        derive_public_from_secret(&secret, 0),
        Err(KeyError::MalformedInput)
    );
}

#[test]
fn length_rejection() {
    for len in [0usize, 16, 31, 33, 64] {
        let secret = vec![1u8; len];
        assert_eq!(
            derive_public_from_secret(&secret, 3),
            Err(KeyError::MalformedInput)
        );
    }
}

#[test]
fn non_scalar_secret_is_rejected() {
    // 32 bytes of 0xff exceed the scalar field's order and do not decode.
    let secret = vec![0xffu8; 32];
    assert_eq!(
        derive_public_from_secret(&secret, 1),
        Err(KeyError::MalformedInput)
    );
}

#[test]
fn monotonic_sizing() {
    let secret = derived_secret();
    let mut previous: Option<usize> = None;
    for n in [1usize, 2, 3, 10] {
        let bytes = derive_public_from_secret(&secret, n).unwrap();
        assert_eq!(bytes.len(), 148 + 48 * n);
        if let Some(p) = previous {
            assert!(bytes.len() > p);
        }
        previous = Some(bytes.len());
    }
}

#[test]
fn expansion_is_deterministic() {
    let secret = derived_secret();
    let a = derive_public_from_secret(&secret, 4).unwrap();
    let b = derive_public_from_secret(&secret, 4).unwrap();
    assert_eq!(a, b);
}
