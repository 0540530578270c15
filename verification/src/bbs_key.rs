//! Expansion of a raw secret scalar into a multi-message public key.

use vstd::prelude::*;

verus! {

use crate::curve::{
    bbs_key_of, expand_secret, key_bytes_valid, scalar_ok, validate_key_bytes,
    KEY_ATTRIBUTE_LENGTH, KEY_BASE_LENGTH, SECRET_LENGTH,
};
use crate::errors::KeyError;

/// The outcome `derive_public_from_secret` is bound to: a secret of the wrong
/// length, one that does not decode to a scalar, or an attribute count of
/// zero is rejected before derivation; a derived key that fails its
/// validation is rejected after it; otherwise the expanded key is returned.
pub open spec fn derivation_outcome(secret: Seq<u8>, n: int) -> Result<Seq<u8>, KeyError> {
    if secret.len() != SECRET_LENGTH || n < 1 || !scalar_ok(secret) {
        Err(KeyError::MalformedInput)
    } else if key_bytes_valid(bbs_key_of(secret, n)) {
        Ok(bbs_key_of(secret, n))
    } else {
        Err(KeyError::InvalidDerivedKey)
    }
}

/// Expands a 32-byte secret scalar into a multi-message public key sized for
/// `message_count` attributes, and accepts it only after the derived key
/// passes its well-formedness validation.
pub fn derive_public_from_secret(secret: &Vec<u8>, message_count: usize) -> (r: Result<
    Vec<u8>,
    KeyError,
>)
    ensures
        match derivation_outcome(secret@, message_count as int) {
            Ok(b) => r matches Ok(v) && v@ == b,
            Err(e) => r == Err::<Vec<u8>, KeyError>(e),
        },
        r matches Ok(v) ==> v@.len() == KEY_BASE_LENGTH + KEY_ATTRIBUTE_LENGTH * message_count,
{
    if secret.len() != SECRET_LENGTH || message_count == 0 {
        return Err(KeyError::MalformedInput);
    }
    let expanded = match expand_secret(secret, message_count) {
        Ok(v) => v,
        Err(_) => {
            return Err(KeyError::MalformedInput);
        },
    };
    if !validate_key_bytes(&expanded) {
        return Err(KeyError::InvalidDerivedKey);
    }
    Ok(expanded)
}

/// Round-trip acceptance: a 32-byte secret that decodes to a scalar is never
/// rejected as malformed for a positive attribute count; the outcome is the
/// expanded key exactly when the derived key passes its validation, and the
/// key-validation failure otherwise.
pub proof fn lemma_valid_secret_never_malformed(secret: Seq<u8>, n: int)
    requires
        secret.len() == SECRET_LENGTH,
        scalar_ok(secret),
        n >= 1,
    ensures
        derivation_outcome(secret, n) != Err::<Seq<u8>, KeyError>(KeyError::MalformedInput),
        derivation_outcome(secret, n) is Ok <==> key_bytes_valid(bbs_key_of(secret, n)),
{
}

/// Monotonic sizing: serialized key lengths that satisfy the contract of
/// `derive_public_from_secret` grow linearly in the attribute count, by a
/// fixed increment per attribute over a fixed base.
pub proof fn lemma_key_size_linear(len1: int, len2: int, n1: int, n2: int)
    requires
        len1 == KEY_BASE_LENGTH + KEY_ATTRIBUTE_LENGTH * n1,
        len2 == KEY_BASE_LENGTH + KEY_ATTRIBUTE_LENGTH * n2,
        n1 <= n2,
    ensures
        len2 - len1 == KEY_ATTRIBUTE_LENGTH * (n2 - n1),
        len1 <= len2,
{
}

} // verus!
