//! Key generation and key derivation for a BBS+ multi-message signature
//! scheme over the BLS12-381 pairing curve.
//!
//! The crate derives secret scalars from caller-supplied entropy (or from a
//! secure random source when none is supplied), expands them into public
//! elements of the curve's two subgroups, optionally pairs them with an
//! independent blinding scalar, and expands a raw secret into a
//! multi-message-capable public key sized for a chosen attribute count.
//! The curve arithmetic itself is supplied by the `bbs` and `pairing-plus`
//! crates behind a narrow trusted boundary; everything layered on top of it
//! is verified.

pub mod bbs_key;
pub mod curve;
pub mod errors;
pub mod keys;
