//! Public and secret key material, by algorithm.

use vstd::prelude::*;
use crate::types::ECCCurve;
use crate::types::HashAlgorithm;
use crate::types::StringToKey;
use crate::types::SymmetricKeyAlgorithm;

verus! {

/// First byte of a Curve25519 or Ed25519 public value: it marks the 32 bytes
/// behind it as a point in native encoding.
pub const NATIVE_POINT_TAG: u8 = 0x40;

/// Length of a tagged public point: the tag and 32 bytes.
pub const TAGGED_POINT_LEN: usize = 33;

/// Public key material. Integers are big-endian byte strings.
#[derive(Clone, Debug, PartialEq, Eq)]
pub enum PublicParams {
    /// Modulus and public exponent.
    RSA { n: Vec<u8>, e: Vec<u8> },
    /// Tagged public point, with the hash and the cipher that encryption to
    /// this key will use.
    ECDH { curve: ECCCurve, p: Vec<u8>, hash: HashAlgorithm, alg_sym: SymmetricKeyAlgorithm },
    /// Tagged public point.
    EdDSA { curve: ECCCurve, q: Vec<u8> },
}

/// Whether `point` is the tag byte followed by 32 bytes.
pub open spec fn is_tagged_point(point: Seq<u8>) -> bool {
    &&& point.len() == TAGGED_POINT_LEN
    &&& point[0] == NATIVE_POINT_TAG
}

/// Whether `secret` is a clamped X25519 secret: 32 bytes, least
/// significant first, with the low three bits and the top bit clear and the
/// bit below the top set.
pub open spec fn is_clamped(secret: Seq<u8>) -> bool {
    &&& secret.len() == 32
    &&& secret[0] & 0x07 == 0
    &&& secret[31] & 0xc0 == 0x40
}

impl PublicParams {
    /// The structural invariant of public key material: the public point of an
    /// ECDH or EdDSA key is 33 bytes long and starts with the tag `0x40`.
    pub open spec fn well_formed(&self) -> bool {
        match self {
            PublicParams::RSA { .. } => true,
            PublicParams::ECDH { p, .. } => is_tagged_point(p@),
            PublicParams::EdDSA { q, .. } => is_tagged_point(q@),
        }
    }
}

/// Secret key material before any protection. Integers are big-endian byte
/// strings.
#[derive(Clone, Debug, PartialEq, Eq)]
pub enum PlainSecretParams {
    /// Private exponent, the two prime factors, and `u`, the inverse of `p`
    /// modulo `q`.
    RSA { d: Vec<u8>, p: Vec<u8>, q: Vec<u8>, u: Vec<u8> },
    /// The secret scalar, most significant byte first.
    ECDH(Vec<u8>),
    /// The 32-byte seed.
    EdDSA(Vec<u8>),
}

/// Secret key material encrypted under a key derived from a passphrase.
#[derive(Clone, Debug, PartialEq, Eq)]
pub struct EncryptedSecretParams {
    /// The ciphertext.
    pub data: Vec<u8>,
    /// Initialisation vector of the cipher.
    pub iv: Vec<u8>,
    /// The cipher.
    pub encryption_algorithm: SymmetricKeyAlgorithm,
    /// How the symmetric key is derived from the passphrase.
    pub string_to_key: StringToKey,
    /// Which checksum guards the plaintext.
    pub string_to_key_id: u8,
}

/// Secret key material, plain or protected.
#[derive(Clone, Debug, PartialEq, Eq)]
pub enum SecretParams {
    Plain(PlainSecretParams),
    Encrypted(EncryptedSecretParams),
}

} // verus!
