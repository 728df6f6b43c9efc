//! Structure-preserving signatures on equivalence classes (SPS-EQ), after
//! Fuchsbauer, Hanser and Slamanig, instantiated over the BLS12-381 pairing.
//!
//! A signing key is a vector of `l` non-zero scalars; the matching public key
//! is the vector of the scalars' images under the fixed generator of the
//! second source group. A message is a vector of `l` points of the first
//! source group, and a signature is a triple `(Z, Y, Yp)` that the verifier
//! accepts when two pairing equations hold. Given a valid pair of message and
//! signature, anyone can move to a fresh representative of the same
//! equivalence class without the signing key.

pub mod encoding;
pub mod errors;
pub mod pairing;
pub mod sign;
pub mod verify;
