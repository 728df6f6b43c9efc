//! Error values reported by key construction, verification and parsing.

use vstd::prelude::*;

verus! {

/// Everything that can go wrong while building keys, verifying a signature,
/// or moving public material through its byte encoding.
#[derive(Clone, Copy, Debug, Eq, PartialEq, Hash, Structural)]
pub enum SpsEqSignatureError {
    /// The length of a message vector differs from the capacity of the key.
    UnmatchedCapacity,
    /// One of the two pairing checks rejected the signature.
    InvalidSignature,
    /// A user-supplied scalar vector was empty or contained a zero scalar.
    InvalidSecretKeyVector,
    /// A public key could not be written out as bytes.
    IoErrorWrite,
    /// A byte string did not parse as a public key.
    InvalidEncoding,
}

impl SpsEqSignatureError {
    /// A short human-readable description of the error.
    pub fn description(&self) -> (r: &'static str)
        ensures
            r@ == match *self {
                SpsEqSignatureError::UnmatchedCapacity => "The capacities do not match"@,
                SpsEqSignatureError::InvalidSignature => "Invalid signature"@,
                SpsEqSignatureError::InvalidSecretKeyVector =>
                    "Failed to generate a secret key from the given array"@,
                SpsEqSignatureError::IoErrorWrite => "Error writing in the IO stream"@,
                SpsEqSignatureError::InvalidEncoding =>
                    "The bytes do not encode a public key"@,
            },
    {
        match *self {
            SpsEqSignatureError::UnmatchedCapacity => "The capacities do not match",
            SpsEqSignatureError::InvalidSignature => "Invalid signature",
            SpsEqSignatureError::InvalidSecretKeyVector => {
                "Failed to generate a secret key from the given array"
            },
            SpsEqSignatureError::IoErrorWrite => "Error writing in the IO stream",
            SpsEqSignatureError::InvalidEncoding => "The bytes do not encode a public key",
        }
    }
}

} // verus!
