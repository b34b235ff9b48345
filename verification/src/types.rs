//! Algorithm identifiers and the small value types shared by the packets.

use vstd::prelude::*;

verus! {

/// Public-key algorithms that a key packet can name.
#[derive(Clone, Copy, Debug, PartialEq, Eq)]
pub enum PublicKeyAlgorithm {
    /// RSA, for encryption and signing.
    RSA,
    /// RSA, for encryption only.
    RSAEncrypt,
    /// RSA, for signing only.
    RSASign,
    /// DSA.
    DSA,
    /// Elliptic-curve Diffie-Hellman.
    ECDH,
    /// ECDSA.
    ECDSA,
    /// Elgamal.
    Elgamal,
    /// EdDSA.
    EdDSA,
}

/// Hash algorithms.
#[derive(Clone, Copy, Debug, PartialEq, Eq)]
pub enum HashAlgorithm {
    MD5,
    SHA1,
    RIPEMD160,
    SHA256,
    SHA384,
    SHA512,
    SHA224,
}

impl Default for HashAlgorithm {
    fn default() -> (r: Self)
        ensures
            r == HashAlgorithm::SHA256,
    {
        HashAlgorithm::SHA256
    }
}

/// Symmetric ciphers.
#[derive(Clone, Copy, Debug, PartialEq, Eq)]
pub enum SymmetricKeyAlgorithm {
    Plaintext,
    IDEA,
    TripleDES,
    CAST5,
    Blowfish,
    AES128,
    AES192,
    AES256,
    Twofish,
}

/// Compression algorithms.
#[derive(Clone, Copy, Debug, PartialEq, Eq)]
pub enum CompressionAlgorithm {
    Uncompressed,
    ZIP,
    ZLIB,
    BZip2,
}

/// Elliptic curves that public parameters can name.
#[derive(Clone, Copy, Debug, PartialEq, Eq)]
pub enum ECCCurve {
    Curve25519,
    Ed25519,
    P256,
    P384,
    P521,
}

/// Framing of a packet: the old or the new header format.
#[derive(Clone, Copy, Debug, PartialEq, Eq)]
pub enum Version {
    Old,
    New,
}

impl Default for Version {
    fn default() -> (r: Self)
        ensures
            r == Version::New,
    {
        Version::New
    }
}

/// Format version of a key packet.
#[derive(Clone, Copy, Debug, PartialEq, Eq)]
pub enum KeyVersion {
    V2,
    V3,
    V4,
    V5,
}

impl Default for KeyVersion {
    fn default() -> (r: Self)
        ensures
            r == KeyVersion::V4,
    {
        KeyVersion::V4
    }
}

/// The eight-byte identifier of a key.
#[derive(Clone, Copy, Debug, PartialEq, Eq)]
pub struct KeyId(pub [u8; 8]);

/// Pointer to a key that is allowed to revoke this one.
#[derive(Clone, Copy, Debug, PartialEq, Eq)]
pub struct RevocationKey {
    /// Class octet of the revocation key.
    pub class: u8,
    /// Algorithm of the revocation key.
    pub algorithm: PublicKeyAlgorithm,
    /// Fingerprint of the revocation key.
    pub fingerprint: [u8; 20],
}

/// How a string-to-key transform mixes the passphrase.
#[derive(Clone, Copy, Debug, PartialEq, Eq)]
pub enum StringToKeyType {
    Simple,
    Salted,
    IteratedAndSalted,
}

/// Descriptor of the string-to-key transform that turned a passphrase into a
/// symmetric key. It is stored next to the ciphertext so that the same key can
/// be derived again.
#[derive(Clone, Debug, PartialEq, Eq)]
pub struct StringToKey {
    pub typ: StringToKeyType,
    pub hash: HashAlgorithm,
    pub salt: Option<Vec<u8>>,
    pub count: Option<u8>,
}

} // verus!
