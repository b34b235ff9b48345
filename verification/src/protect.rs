//! Protection of secret key material under a passphrase.

use vstd::prelude::*;
use crate::error::KeyError;
use crate::params::EncryptedSecretParams;
use crate::params::PlainSecretParams;
use crate::params::SecretParams;
use crate::types::KeyVersion;
use crate::types::StringToKey;
use crate::types::SymmetricKeyAlgorithm;

verus! {

/// Checksum convention of protected secret keys: a SHA-1 digest of the
/// plaintext is encrypted along with it.
pub const SHA1_CHECKSUM: u8 = 254;

/// What encryption of secret key material yields.
#[derive(Clone, Debug, PartialEq, Eq)]
pub struct Ciphertext {
    /// The encrypted material.
    pub data: Vec<u8>,
    /// Initialisation vector that the cipher was run with.
    pub iv: Vec<u8>,
    /// The string-to-key transform that derived the symmetric key, with the
    /// salt that was drawn for it.
    pub string_to_key: StringToKey,
}

/// The capability to encrypt secret key material under a passphrase: it
/// derives a symmetric key from the passphrase by a string-to-key transform
/// with fresh random parameters, and encrypts under that key.
///
/// A wrong passphrase cannot be noticed here: it shows only when the key is
/// unlocked.
pub trait SecretProtector {
    /// What is known of an encryption: that `out` came back when `plain` was
    /// to be encrypted under `passphrase` with the cipher `alg`, for a key of
    /// format `version`, with the checksum convention `checksum`. An
    /// implementation that states nothing leaves this as it is.
    open spec fn encrypts(
        &self,
        plain: PlainSecretParams,
        passphrase: Seq<char>,
        alg: SymmetricKeyAlgorithm,
        version: KeyVersion,
        checksum: u8,
        out: Result<Ciphertext, String>,
    ) -> bool {
        true
    }

    /// Encrypts `plain` under a key derived from `passphrase`, or says why
    /// it could not.
    fn encrypt(
        &self,
        plain: &PlainSecretParams,
        passphrase: &str,
        alg: SymmetricKeyAlgorithm,
        version: KeyVersion,
        checksum: u8,
    ) -> (out: Result<Ciphertext, String>)
        ensures
            self.encrypts(*plain, passphrase@, alg, version, checksum, out),
    ;
}

/// The secret parameters that an encryption's outcome amounts to: the
/// ciphertext with its descriptors, or the protector's failure.
pub open spec fn sealed(out: Result<Ciphertext, String>) -> Result<SecretParams, KeyError> {
    match out {
        Ok(c) => Ok(
            SecretParams::Encrypted(
                EncryptedSecretParams {
                    data: c.data,
                    iv: c.iv,
                    encryption_algorithm: SymmetricKeyAlgorithm::AES256,
                    string_to_key: c.string_to_key,
                    string_to_key_id: SHA1_CHECKSUM,
                },
            ),
        ),
        Err(message) => Err(KeyError::Encryption(message)),
    }
}

/// Wraps the outcome of an encryption as secret parameters.
pub fn seal(out: Result<Ciphertext, String>) -> (r: Result<SecretParams, KeyError>)
    ensures
        r == sealed(out),
{
    match out {
        Ok(c) => Ok(
            SecretParams::Encrypted(
                EncryptedSecretParams {
                    data: c.data,
                    iv: c.iv,
                    encryption_algorithm: SymmetricKeyAlgorithm::AES256,
                    string_to_key: c.string_to_key,
                    string_to_key_id: SHA1_CHECKSUM,
                },
            ),
        ),
        Err(message) => Err(KeyError::Encryption(message)),
    }
}

/// Whether `r` is what protecting `plain` under `passphrase` may give: with
/// no passphrase the material itself, unchanged; with one, what an
/// encryption by `protector` under AES-256 with the SHA-1 checksum amounts to.
pub open spec fn protects<P: SecretProtector>(
    protector: &P,
    plain: PlainSecretParams,
    passphrase: Option<Seq<char>>,
    r: Result<SecretParams, KeyError>,
) -> bool {
    match passphrase {
        None => r == Ok::<SecretParams, KeyError>(SecretParams::Plain(plain)),
        Some(pw) => exists|out: Result<Ciphertext, String>|
            #![trigger sealed(out)]
            {
                &&& protector.encrypts(
                    plain,
                    pw,
                    SymmetricKeyAlgorithm::AES256,
                    KeyVersion::V4,
                    SHA1_CHECKSUM,
                    out,
                )
                &&& r == sealed(out)
            },
    }
}

/// What a passphrase is made of, if there is one.
pub open spec fn passphrase_text(passphrase: Option<String>) -> Option<Seq<char>> {
    match passphrase {
        Some(pw) => Some(pw@),
        None => None,
    }
}

/// Turns secret key material into secret parameters. Without a passphrase
/// the material stays as it is. With one it is encrypted by `protector`
/// under AES-256, guarded by a SHA-1 checksum.
pub fn protect<P: SecretProtector>(
    plain: PlainSecretParams,
    passphrase: Option<String>,
    protector: &P,
) -> (r: Result<SecretParams, KeyError>)
    ensures
        protects(protector, plain, passphrase_text(passphrase), r),
{
    match passphrase {
        Some(pw) => {
            let out = protector.encrypt(
                &plain,
                pw.as_str(),
                SymmetricKeyAlgorithm::AES256,
                KeyVersion::default(),
                SHA1_CHECKSUM,
            );
            let r = seal(out);
            assert(r == sealed(out));
            r
        },
        None => Ok(SecretParams::Plain(plain)),
    }
}

} // verus!
