//! The calls that this library makes into other crates: the system's random
//! source, key generation for RSA, X25519 and Ed25519, modular inversion, and
//! the clock. Nothing in this file is proved: each contract restates what the
//! called crate documents or what its source shows.

use vstd::prelude::*;
use crate::mpi::be_value;
use crate::mpi::bit_length;
use crate::mpi::is_inverse;
use crate::mpi::RSA_EXPONENT;
use crate::mpi::totient;
use crate::params::is_clamped;
use num_bigint_dig::traits::ModInverse;
use rsa::PublicKey;

verus! {

/// The operating system's random number generator, `rand::rngs::OsRng`.
#[verifier::external_type_specification]
#[verifier::external_body]
pub struct ExOsRng(rand::rngs::OsRng);

/// The error of the `rand` crate.
#[verifier::external_type_specification]
#[verifier::external_body]
pub struct ExRandError(rand::Error);

/// The error of the `rsa` crate.
#[verifier::external_type_specification]
#[verifier::external_body]
pub struct ExRsaError(rsa::errors::Error);

/// The error of the `ed25519_dalek` crate.
#[verifier::external_type_specification]
#[verifier::external_body]
pub struct ExSignatureError(ed25519_dalek::SignatureError);

/// `rand::rngs::OsRng::new` opens the system's random source, or fails where
/// there is none. Nothing is claimed of the outcome.
pub assume_specification[ rand::rngs::OsRng::new ]() -> (r: Result<
    rand::rngs::OsRng,
    rand::Error,
>)
;

/// The numbers of a freshly generated RSA key, each as big-endian bytes.
#[derive(Clone, Debug, PartialEq, Eq)]
pub struct RsaKeyParts {
    /// Modulus.
    pub n: Vec<u8>,
    /// Public exponent.
    pub e: Vec<u8>,
    /// Private exponent.
    pub d: Vec<u8>,
    /// First prime factor.
    pub p: Vec<u8>,
    /// Second prime factor.
    pub q: Vec<u8>,
}

/// Calls `rsa::RSAPrivateKey::new`, which searches for two distinct primes
/// until their product has exactly `bit_size` bits, and hands the key's
/// numbers out as bytes. The contract claims of a key that was found what
/// the search shows: the modulus has `bit_size` bits and is the product of
/// the two primes, which differ; the public exponent is 65537; and the
/// private exponent is its inverse modulo the product of the primes each
/// less one. The primes have passed a probabilistic test only, so nothing
/// is claimed of their primality.
#[verifier::external_body]
pub(crate) fn rsa_private_key(rng: &mut rand::rngs::OsRng, bit_size: usize) -> (r: Result<
    RsaKeyParts,
    rsa::errors::Error,
>)
    ensures
        r matches Ok(key) ==> {
            &&& bit_length(be_value(key.n@)) == bit_size
            &&& be_value(key.n@) == be_value(key.p@) * be_value(key.q@)
            &&& be_value(key.p@) != be_value(key.q@)
            &&& be_value(key.e@) == RSA_EXPONENT
            &&& is_inverse(
                be_value(key.e@),
                be_value(key.d@),
                totient(be_value(key.p@), be_value(key.q@)),
            )
        },
{
    let key = rsa::RSAPrivateKey::new(rng, bit_size)?;
    Ok(
        RsaKeyParts {
            n: key.n().to_bytes_be(),
            e: key.e().to_bytes_be(),
            d: key.d().to_bytes_be(),
            p: key.primes()[0].to_bytes_be(),
            q: key.primes()[1].to_bytes_be(),
        },
    )
}

/// The message that the `rsa` crate displays for its error.
#[verifier::external_body]
pub(crate) fn rsa_error_text(error: &rsa::errors::Error) -> (text: String) {
    format!("{}", error)
}

/// What `mod_inverse` of `num_bigint_dig` gives for two numbers: the bytes
/// of the inverse that it picks, if it finds one.
pub uninterp spec fn mod_inverse_of(a: Seq<u8>, m: Seq<u8>) -> Option<Seq<u8>>;

/// Calls `mod_inverse` of `num_bigint_dig` on two numbers given as big-endian
/// bytes. The contract claims what the crate documents: the result is the
/// inverse of `a` modulo `m`, and there is no result only where `a` has no
/// inverse. Which inverse it is, and in which bytes, is a function of the
/// two numbers.
#[verifier::external_body]
pub(crate) fn mod_inverse(a: &Vec<u8>, m: &Vec<u8>) -> (r: Option<Vec<u8>>)
    requires
        be_value(m@) > 1,
    ensures
        r matches Some(x) ==> mod_inverse_of(a@, m@) == Some(x@),
        r is None ==> mod_inverse_of(a@, m@) is None,
        r matches Some(x) ==> is_inverse(be_value(a@), be_value(x@), be_value(m@)),
        r is None ==> forall|x: nat| !#[trigger] is_inverse(be_value(a@), x, be_value(m@)),
{
    let a = num_bigint_dig::BigUint::from_bytes_be(a);
    let m = num_bigint_dig::BigUint::from_bytes_be(m);
    Some(a.mod_inverse(&m)?.to_biguint()?.to_bytes_be())
}

/// Calls `x25519_dalek::StaticSecret::new` and hands out the secret's bytes.
/// They are random. The contract claims only that they are clamped, as the
/// crate clamps every secret it draws.
#[verifier::external_body]
pub(crate) fn x25519_secret(rng: &mut rand::rngs::OsRng) -> (secret: [u8; 32])
    ensures
        is_clamped(secret@),
{
    x25519_dalek::StaticSecret::new(rng).to_bytes()
}

/// The X25519 public key that belongs to a secret, as `x25519_dalek` computes
/// it.
pub uninterp spec fn x25519_public_of(secret: Seq<u8>) -> Seq<u8>;

/// Calls `x25519_dalek::PublicKey::from` on the secret with these bytes. The
/// contract claims only that the result is a function of the secret.
#[verifier::external_body]
pub(crate) fn x25519_public(secret: &[u8; 32]) -> (public: [u8; 32])
    ensures
        public@ == x25519_public_of(secret@),
{
    let secret = x25519_dalek::StaticSecret::from(*secret);
    *x25519_dalek::PublicKey::from(&secret).as_bytes()
}

/// Calls `ed25519_dalek::SecretKey::generate` and hands out the seed's
/// bytes. They are random: nothing is claimed of them.
#[verifier::external_body]
pub(crate) fn ed25519_secret(rng: &mut rand::rngs::OsRng) -> (seed: [u8; 32]) {
    ed25519_dalek::SecretKey::generate(rng).to_bytes()
}

/// The Ed25519 public key that belongs to a seed, as `ed25519_dalek`
/// computes it.
pub uninterp spec fn ed25519_public_of(seed: Seq<u8>) -> Seq<u8>;

/// Calls `ed25519_dalek::PublicKey::from` on the secret key with these
/// bytes. The contract claims that there is a result, since the crate
/// refuses a secret key only for a length other than 32 bytes, and that the
/// result is a function of the seed.
#[verifier::external_body]
pub(crate) fn ed25519_public(seed: &[u8; 32]) -> (r: Result<
    [u8; 32],
    ed25519_dalek::SignatureError,
>)
    ensures
        r is Ok,
        r matches Ok(public) ==> public@ == ed25519_public_of(seed@),
{
    let secret = ed25519_dalek::SecretKey::from_bytes(seed)?;
    Ok(ed25519_dalek::PublicKey::from(&secret).to_bytes())
}

/// Calls `chrono::Utc::now` and hands out the time in whole seconds since the
/// Unix epoch. Nothing is claimed of it.
#[verifier::external_body]
pub(crate) fn now() -> (seconds: i64) {
    chrono::Utc::now().timestamp()
}

} // verus!
