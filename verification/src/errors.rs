//! The failure taxonomy of the derivation operations.

use vstd::prelude::*;

verus! {

/// The distinct ways a derivation call can fail. The host boundary collapses
/// these to a single failure signal; internally they stay apart.
#[derive(Clone, Copy, Debug, PartialEq, Eq, Structural)]
pub enum KeyError {
    /// Seed or secret bytes cannot be decoded to the required length or type,
    /// or the requested attribute count is zero, which the underlying scheme
    /// refuses before any derivation takes place.
    MalformedInput,
    /// A derived public key failed its well-formedness validation after
    /// derivation, or the blinding scalar collided with the secret scalar.
    InvalidDerivedKey,
    /// The secure random source could not be read when no seed was supplied.
    /// The primitive library in use aborts instead of reporting this, so the
    /// variant is kept for the taxonomy's sake and is never produced here.
    EntropyUnavailable,
}

} // verus!
