//! The algorithms a key can be made for, and the generation of key material
//! for each.

use vstd::prelude::*;
use crate::error::GenerationError;
use crate::error::KeyError;
use crate::mpi::be_value;
use crate::mpi::bit_length;
use crate::mpi::inverse_modulo;
use crate::mpi::is_inverse;
use crate::mpi::RSA_EXPONENT;
use crate::mpi::totient;
use crate::params::is_clamped;
use crate::params::is_tagged_point;
use crate::params::NATIVE_POINT_TAG;
use crate::params::PlainSecretParams;
use crate::params::PublicParams;
use crate::params::SecretParams;
use crate::params::TAGGED_POINT_LEN;
use crate::primitives::ed25519_public;
use crate::primitives::ed25519_public_of;
use crate::primitives::ed25519_secret;
use crate::primitives::rsa_error_text;
use crate::primitives::RsaKeyParts;
use crate::primitives::rsa_private_key;
use crate::primitives::x25519_public;
use crate::primitives::x25519_public_of;
use crate::primitives::x25519_secret;
use crate::protect::passphrase_text;
use crate::protect::protect;
use crate::protect::protects;
use crate::protect::SecretProtector;
use crate::types::ECCCurve;
use crate::types::HashAlgorithm;
use crate::types::PublicKeyAlgorithm;
use crate::types::SymmetricKeyAlgorithm;

verus! {

/// The algorithm of a primary key or a subkey.
#[derive(Clone, Copy, Debug, PartialEq, Eq)]
pub enum KeyType {
    /// Encryption and signing with RSA and the given bit size.
    Rsa(usize),
    /// Encryption with Curve25519.
    ECDH,
    /// Signing with Ed25519.
    EdDSA,
}

/// The material of an RSA key from the numbers of a generated one and
/// `inverse`, the inverse of the first prime modulo the second, which
/// becomes `u`. Without an inverse there is no material.
pub fn rsa_params(key: RsaKeyParts, inverse: Option<Vec<u8>>) -> (r: Result<
    (PublicParams, PlainSecretParams),
    KeyError,
>)
    ensures
        r == (match inverse {
            Some(u) => Ok(
                (
                    PublicParams::RSA { n: key.n, e: key.e },
                    PlainSecretParams::RSA { d: key.d, p: key.p, q: key.q, u },
                ),
            ),
            None => Err(KeyError::Generation(GenerationError::InvalidPrime)),
        }),
{
    match inverse {
        Some(u) => Ok(
            (
                PublicParams::RSA { n: key.n, e: key.e },
                PlainSecretParams::RSA { d: key.d, p: key.p, q: key.q, u },
            ),
        ),
        None => Err(KeyError::Generation(GenerationError::InvalidPrime)),
    }
}

/// The material of an ECDH key on Curve25519 from a secret scalar and its
/// public point. The public value is the tag byte and the point. The secret
/// value is the scalar in reversed byte order. Encryption to the key will use
/// SHA-256 and AES-128.
pub fn ecdh_params(secret: &[u8; 32], public: &[u8; 32]) -> (r: (PublicParams, PlainSecretParams))
    ensures
        r.0 matches PublicParams::ECDH { curve, p, hash, alg_sym },
        r.0->ECDH_curve == ECCCurve::Curve25519,
        r.0->ECDH_p@ == seq![NATIVE_POINT_TAG] + public@,
        r.0->ECDH_hash == HashAlgorithm::SHA256,
        r.0->ECDH_alg_sym == SymmetricKeyAlgorithm::AES128,
        r.1 matches PlainSecretParams::ECDH(q),
        r.1->ECDH_0@ == secret@.reverse(),
{
    let mut p: Vec<u8> = Vec::with_capacity(TAGGED_POINT_LEN);
    p.push(NATIVE_POINT_TAG);
    let mut i: usize = 0;
    while i < 32
        invariant
            0 <= i <= 32,
            p@ == seq![NATIVE_POINT_TAG] + public@.take(i as int),
        decreases 32 - i,
    {
        p.push(public[i]);
        assert(public@.take(i + 1) =~= public@.take(i as int).push(public@[i as int]));
        i += 1;
    }
    assert(public@.take(32) =~= public@);
    let mut q: Vec<u8> = Vec::with_capacity(32);
    let mut j: usize = 0;
    while j < 32
        invariant
            0 <= j <= 32,
            q@.len() == j,
            forall|k: int| 0 <= k < j ==> q@[k] == secret@[31 - k],
        decreases 32 - j,
    {
        q.push(secret[31 - j]);
        j += 1;
    }
    assert(q@ =~= secret@.reverse());
    (
        PublicParams::ECDH {
            curve: ECCCurve::Curve25519,
            p,
            hash: HashAlgorithm::SHA256,
            alg_sym: SymmetricKeyAlgorithm::AES128,
        },
        PlainSecretParams::ECDH(q),
    )
}

/// The material of an EdDSA key on Ed25519 from a seed and its public
/// point. The public value is the tag byte and the point. The secret value
/// is the seed.
pub fn eddsa_params(seed: &[u8; 32], public: &[u8; 32]) -> (r: (PublicParams, PlainSecretParams))
    ensures
        r.0 matches PublicParams::EdDSA { curve, q },
        r.0->EdDSA_curve == ECCCurve::Ed25519,
        r.0->EdDSA_q@ == seq![NATIVE_POINT_TAG] + public@,
        r.1 matches PlainSecretParams::EdDSA(p),
        r.1->EdDSA_0@ == seed@,
{
    let mut q: Vec<u8> = Vec::with_capacity(TAGGED_POINT_LEN);
    q.push(NATIVE_POINT_TAG);
    let mut i: usize = 0;
    while i < 32
        invariant
            0 <= i <= 32,
            q@ == seq![NATIVE_POINT_TAG] + public@.take(i as int),
        decreases 32 - i,
    {
        q.push(public[i]);
        assert(public@.take(i + 1) =~= public@.take(i as int).push(public@[i as int]));
        i += 1;
    }
    assert(public@.take(32) =~= public@);
    let mut p: Vec<u8> = Vec::with_capacity(32);
    let mut j: usize = 0;
    while j < 32
        invariant
            0 <= j <= 32,
            p@ == seed@.take(j as int),
        decreases 32 - j,
    {
        p.push(seed[j]);
        assert(seed@.take(j + 1) =~= seed@.take(j as int).push(seed@[j as int]));
        j += 1;
    }
    assert(seed@.take(32) =~= seed@);
    (PublicParams::EdDSA { curve: ECCCurve::Ed25519, q }, PlainSecretParams::EdDSA(p))
}

impl KeyType {
    /// The algorithm that key packets of this type name.
    pub fn to_alg(&self) -> (alg: PublicKeyAlgorithm)
        ensures
            alg == self.spec_to_alg(),
    {
        match self {
            KeyType::Rsa(_) => PublicKeyAlgorithm::RSA,
            KeyType::ECDH => PublicKeyAlgorithm::ECDH,
            KeyType::EdDSA => PublicKeyAlgorithm::EdDSA,
        }
    }

    /// The algorithm that key packets of this type name.
    pub open spec fn spec_to_alg(&self) -> PublicKeyAlgorithm {
        match self {
            KeyType::Rsa(_) => PublicKeyAlgorithm::RSA,
            KeyType::ECDH => PublicKeyAlgorithm::ECDH,
            KeyType::EdDSA => PublicKeyAlgorithm::EdDSA,
        }
    }

    /// The structural invariant of public key material of this type: an RSA
    /// modulus has at least the requested number of bits; the public value
    /// of an ECDH or EdDSA key is 33 bytes long and starts with `0x40`.
    pub open spec fn admits(&self, public: PublicParams) -> bool {
        match self {
            KeyType::Rsa(bit_size) => {
                &&& public matches PublicParams::RSA { n, e }
                &&& bit_length(be_value(n@)) >= *bit_size
            },
            KeyType::ECDH => {
                &&& public matches PublicParams::ECDH { curve, p, hash, alg_sym }
                &&& curve == ECCCurve::Curve25519
                &&& is_tagged_point(p@)
                &&& hash == HashAlgorithm::SHA256
                &&& alg_sym == SymmetricKeyAlgorithm::AES128
            },
            KeyType::EdDSA => {
                &&& public matches PublicParams::EdDSA { curve, q }
                &&& curve == ECCCurve::Ed25519
                &&& is_tagged_point(q@)
            },
        }
    }

    /// What holds of the two halves of freshly generated key material of this
    /// type.
    ///
    /// RSA: the modulus has exactly the requested number of bits and is the
    /// product of the two primes, which differ; the public exponent is
    /// 65537 and the private exponent its inverse modulo the product of the
    /// primes each less one; and `u` is the inverse of the first prime modulo
    /// the second, and below it. ECDH: the secret, read backwards, is a
    /// clamped X25519 secret, and the public value is the tag byte and the
    /// X25519 public key of that secret. EdDSA: the seed is 32 bytes long,
    /// and the public value is the tag byte and the Ed25519 public key of
    /// the seed.
    pub open spec fn pairs(&self, public: PublicParams, secret: PlainSecretParams) -> bool {
        match self {
            KeyType::Rsa(bit_size) => {
                &&& public matches PublicParams::RSA { n, e }
                &&& secret matches PlainSecretParams::RSA { d, p, q, u }
                &&& bit_length(be_value(n@)) == *bit_size
                &&& be_value(n@) == be_value(p@) * be_value(q@)
                &&& be_value(p@) != be_value(q@)
                &&& be_value(e@) == RSA_EXPONENT
                &&& is_inverse(be_value(e@), be_value(d@), totient(be_value(p@), be_value(q@)))
                &&& is_inverse(be_value(p@), be_value(u@), be_value(q@))
                &&& be_value(u@) < be_value(q@)
            },
            KeyType::ECDH => {
                &&& public matches PublicParams::ECDH { curve, p, hash, alg_sym }
                &&& secret matches PlainSecretParams::ECDH(q)
                &&& curve == ECCCurve::Curve25519
                &&& hash == HashAlgorithm::SHA256
                &&& alg_sym == SymmetricKeyAlgorithm::AES128
                &&& q@.len() == 32
                &&& is_clamped(q@.reverse())
                &&& p@ == seq![NATIVE_POINT_TAG] + x25519_public_of(q@.reverse())
                &&& p@.len() == TAGGED_POINT_LEN
            },
            KeyType::EdDSA => {
                &&& public matches PublicParams::EdDSA { curve, q }
                &&& secret matches PlainSecretParams::EdDSA(seed)
                &&& curve == ECCCurve::Ed25519
                &&& seed@.len() == 32
                &&& q@ == seq![NATIVE_POINT_TAG] + ed25519_public_of(seed@)
                &&& is_tagged_point(q@)
            },
        }
    }

    /// Key material that pairs also meets the structural invariant.
    pub proof fn lemma_pairs_admits(&self, public: PublicParams, secret: PlainSecretParams)
        requires
            self.pairs(public, secret),
        ensures
            self.admits(public),
            public.well_formed(),
    {
    }

    /// Searches for an RSA key of `bit_size` bits and derives `u` for it.
    fn generate_rsa_key(&self, rng: &mut rand::rngs::OsRng, bit_size: usize) -> (r: Result<
        (PublicParams, PlainSecretParams),
        KeyError,
    >)
        ensures
            r matches Ok((public, secret)) ==> KeyType::Rsa(bit_size).pairs(public, secret),
            r matches Ok((public, secret)) ==> KeyType::Rsa(bit_size).admits(public),
            r matches Err(e) ==> e matches KeyError::Generation(GenerationError::Rsa(_)) || e
                == KeyError::Generation(GenerationError::InvalidPrime),
    {
        let key = match rsa_private_key(rng, bit_size) {
            Ok(key) => key,
            Err(e) => {
                return Err(KeyError::Generation(GenerationError::Rsa(rsa_error_text(&e))));
            },
        };
        let inverse = inverse_modulo(&key.p, &key.q);
        rsa_params(key, inverse)
    }

    /// Draws a secret for X25519 and derives its public key.
    fn generate_ecdh_key(&self, rng: &mut rand::rngs::OsRng) -> (r: (
        PublicParams,
        PlainSecretParams,
    ))
        ensures
            KeyType::ECDH.pairs(r.0, r.1),
            KeyType::ECDH.admits(r.0),
    {
        let secret = x25519_secret(rng);
        let public = x25519_public(&secret);
        let r = ecdh_params(&secret, &public);
        assert(secret@.reverse().reverse() =~= secret@);
        r
    }

    /// Draws a seed for Ed25519 and derives its public key.
    fn generate_eddsa_key(&self, rng: &mut rand::rngs::OsRng) -> (r: (
        PublicParams,
        PlainSecretParams,
    ))
        ensures
            KeyType::EdDSA.pairs(r.0, r.1),
            KeyType::EdDSA.admits(r.0),
    {
        let seed = ed25519_secret(rng);
        let public = ed25519_public(&seed).unwrap();
        eddsa_params(&seed, &public)
    }

    /// What `generate` may return for this type and passphrase with this
    /// protector: public key material that meets the structural invariant,
    /// with the secret material that pairs with it, protected under the
    /// passphrase.
    pub open spec fn generated<P: SecretProtector>(
        &self,
        passphrase: Option<Seq<char>>,
        protector: &P,
        public: PublicParams,
        secret: SecretParams,
    ) -> bool {
        &&& self.admits(public)
        &&& public.well_formed()
        &&& exists|plain: PlainSecretParams|
            #![trigger self.pairs(public, plain)]
            {
                &&& self.pairs(public, plain)
                &&& protects(protector, plain, passphrase, Ok(secret))
            }
    }

    /// Whether `e` is a way in which `generate` may fail for this type and
    /// passphrase with this protector: there is no random source; or, for
    /// RSA only, no key was found or a prime was not invertible; or the
    /// protector failed with this message on freshly generated material.
    pub open spec fn failed<P: SecretProtector>(
        &self,
        passphrase: Option<Seq<char>>,
        protector: &P,
        e: KeyError,
    ) -> bool {
        match e {
            KeyError::Generation(GenerationError::NoRandomSource) => true,
            KeyError::Generation(GenerationError::Rsa(_)) => self is Rsa,
            KeyError::Generation(GenerationError::InvalidPrime) => self is Rsa,
            KeyError::Encryption(_) => {
                &&& passphrase is Some
                &&& exists|public: PublicParams, plain: PlainSecretParams|
                    {
                        &&& #[trigger] self.pairs(public, plain)
                        &&& protects(protector, plain, passphrase, Err(e))
                    }
            },
            KeyError::Signing(_) => false,
        }
    }

    /// Generates key material of this type from the system's random source,
    /// and protects the secret half: under `passphrase` by `protector` where
    /// there is one, not at all where there is none.
    ///
    /// It fails in four ways. `NoRandomSource`: the system has no random
    /// source. `Rsa`, for an RSA key only: the search found no key, with the
    /// message of the RSA implementation. `InvalidPrime`, for an RSA key
    /// only: the first prime of the key that was found has no inverse below
    /// the second modulo it. `Encryption`, with a passphrase only: the
    /// protector failed, with its message.
    pub fn generate<P: SecretProtector>(&self, passphrase: Option<String>, protector: &P) -> (r:
        Result<(PublicParams, SecretParams), KeyError>)
        ensures
            r matches Ok((public, secret)) ==> self.generated(
                passphrase_text(passphrase),
                protector,
                public,
                secret,
            ),
            r matches Err(e) ==> self.failed(passphrase_text(passphrase), protector, e),
    {
        let mut rng = match rand::rngs::OsRng::new() {
            Ok(rng) => rng,
            Err(_) => {
                return Err(KeyError::Generation(GenerationError::NoRandomSource));
            },
        };
        let (public, plain) = match self {
            KeyType::Rsa(bit_size) => match self.generate_rsa_key(&mut rng, *bit_size) {
                Ok(pair) => pair,
                Err(e) => {
                    return Err(e);
                },
            },
            KeyType::ECDH => self.generate_ecdh_key(&mut rng),
            KeyType::EdDSA => self.generate_eddsa_key(&mut rng),
        };
        proof {
            self.lemma_pairs_admits(public, plain);
        }
        match protect(plain, passphrase, protector) {
            Ok(secret) => Ok((public, secret)),
            Err(e) => {
                assert(self.pairs(public, plain));
                Err(e)
            },
        }
    }
}

} // verus!
