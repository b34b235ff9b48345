//! What can go wrong while a key is generated or certified.

use vstd::prelude::*;

verus! {

/// Why no key material came out of a generation.
#[derive(Clone, Debug, PartialEq, Eq)]
pub enum GenerationError {
    /// The system offers no source of randomness.
    NoRandomSource,
    /// The search for an RSA key of the requested size failed; the message
    /// of the RSA implementation.
    Rsa(String),
    /// One prime of an RSA key has no inverse modulo the other, or none
    /// below it.
    InvalidPrime,
}

/// Why no signature was made.
#[derive(Debug, PartialEq, Eq)]
pub enum SigningError {
    /// No key id can be derived for the signing key.
    MissingKeyId,
    /// The signer failed, with this message.
    Failed(String),
}

/// The errors of this library.
#[derive(Debug, PartialEq, Eq)]
pub enum KeyError {
    /// Key material could not be generated.
    Generation(GenerationError),
    /// Secret key material could not be encrypted; the protector's message.
    Encryption(String),
    /// A signature could not be made.
    Signing(SigningError),
}

} // verus!
