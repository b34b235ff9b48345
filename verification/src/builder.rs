//! Configuration of a key to be generated: the builders, the check that
//! finalizes them, and the assembly of the unsigned key.

use vstd::prelude::*;
use crate::error::KeyError;
use crate::key::KeyDetails;
use crate::key::SecretKey;
use crate::key::SecretSubkey;
use crate::key_type::KeyType;
use crate::mpi::be_value;
use crate::mpi::bit_length;
use crate::packet::capability_bits;
use crate::packet::copy_of;
use crate::packet::KeyFlags;
use crate::packet::lemma_capability_flags;
use crate::packet::UserAttribute;
use crate::packet::UserAttributeView;
use crate::packet::UserId;
use crate::packet::UserIdView;
use crate::packet;
use crate::params::PublicParams;
use crate::primitives::now;
use crate::protect::passphrase_text;
use crate::protect::SecretProtector;
use crate::types::CompressionAlgorithm;
use crate::types::HashAlgorithm;
use crate::types::KeyVersion;
use crate::types::PublicKeyAlgorithm;
use crate::types::RevocationKey;
use crate::types::SymmetricKeyAlgorithm;
use crate::types::Version;

verus! {

/// Smallest size of an RSA key that is accepted, in bits.
pub const MIN_RSA_BITS: usize = 2048;

/// Why a key of type `key_type` with these capabilities is refused, if it
/// is: an RSA key of less than 2048 bits is insecure, an EdDSA key cannot
/// encrypt, an ECDH key cannot sign. Every other combination is accepted.
pub open spec fn refusal(key_type: KeyType, can_sign: bool, can_encrypt: bool) -> Option<Seq<char>> {
    match key_type {
        KeyType::Rsa(size) => if size < MIN_RSA_BITS {
            Some("Keys with less than 2048bits are considered insecure"@)
        } else {
            None
        },
        KeyType::EdDSA => if can_encrypt {
            Some("EdDSA can only be used for signing keys"@)
        } else {
            None
        },
        KeyType::ECDH => if can_sign {
            Some("ECDH can only be used for encryption keys"@)
        } else {
            None
        },
    }
}

/// Whether a key of type `key_type` may have these capabilities.
pub open spec fn acceptable(key_type: KeyType, can_sign: bool, can_encrypt: bool) -> bool {
    refusal(key_type, can_sign, can_encrypt) is None
}

/// Checks the type of a key against the capabilities asked of it. A
/// capability that was not set counts as not asked for, and without a type
/// there is nothing to refuse.
pub fn check(key_type: Option<KeyType>, can_sign: Option<bool>, can_encrypt: Option<bool>) -> (r:
    Result<(), String>)
    ensures
        match key_type {
            Some(key_type) => match refusal(
                key_type,
                can_sign == Some(true),
                can_encrypt == Some(true),
            ) {
                Some(reason) => r matches Err(message) && message@ == reason,
                None => r is Ok,
            },
            None => r is Ok,
        },
{
    match key_type {
        Some(KeyType::Rsa(size)) => {
            if size < MIN_RSA_BITS {
                return Err("Keys with less than 2048bits are considered insecure".to_owned());
            }
        },
        Some(KeyType::EdDSA) => {
            if let Some(can_encrypt) = can_encrypt {
                if can_encrypt {
                    return Err("EdDSA can only be used for signing keys".to_owned());
                }
            }
        },
        Some(KeyType::ECDH) => {
            if let Some(can_sign) = can_sign {
                if can_sign {
                    return Err("ECDH can only be used for encryption keys".to_owned());
                }
            }
        },
        _ => {},
    }
    Ok(())
}

/// The expiration that a key packet records for a duration of `seconds`:
/// its low 16 bits.
pub open spec fn packet_expiration(expiration: Option<u64>) -> Option<u16> {
    match expiration {
        Some(seconds) => Some((seconds % 0x10000) as u16),
        None => None,
    }
}

/// The expiration that a key packet records.
fn expiration_of(expiration: Option<u64>) -> (r: Option<u16>)
    ensures
        r == packet_expiration(expiration),
{
    match expiration {
        Some(seconds) => Some((seconds % 0x10000) as u16),
        None => None,
    }
}

/// A copy of a passphrase.
fn passphrase_copy(passphrase: &Option<String>) -> (r: Option<String>)
    ensures
        passphrase_text(r) == passphrase_text(*passphrase),
{
    match passphrase {
        Some(text) => Some(text.clone()),
        None => None,
    }
}

/// A copy of a list of user ids.
fn user_ids_copy(ids: &Vec<UserId>) -> (r: Vec<UserId>)
    ensures
        r.deep_view() == ids.deep_view(),
{
    let mut r: Vec<UserId> = Vec::with_capacity(ids.len());
    let mut i: usize = 0;
    while i < ids.len()
        invariant
            0 <= i <= ids.len(),
            r@.len() == i,
            forall|k: int| 0 <= k < i ==> r@[k]@ == ids@[k]@,
        decreases ids.len() - i,
    {
        r.push(ids[i].clone());
        i += 1;
    }
    assert(r.deep_view() =~= ids.deep_view());
    r
}

/// A copy of a list of user attributes.
fn user_attributes_copy(attributes: &Vec<UserAttribute>) -> (r: Vec<UserAttribute>)
    ensures
        r.deep_view() == attributes.deep_view(),
{
    let mut r: Vec<UserAttribute> = Vec::with_capacity(attributes.len());
    let mut i: usize = 0;
    while i < attributes.len()
        invariant
            0 <= i <= attributes.len(),
            r@.len() == i,
            forall|k: int| 0 <= k < i ==> r@[k]@ == attributes@[k]@,
        decreases attributes.len() - i,
    {
        r.push(attributes[i].clone());
        i += 1;
    }
    assert(r.deep_view() =~= attributes.deep_view());
    r
}

/// A copy of a list of strings.
fn strings_copy(strings: &Vec<String>) -> (r: Vec<String>)
    ensures
        r.deep_view() == strings.deep_view(),
{
    let mut r: Vec<String> = Vec::with_capacity(strings.len());
    let mut i: usize = 0;
    while i < strings.len()
        invariant
            0 <= i <= strings.len(),
            r@.len() == i,
            forall|k: int| 0 <= k < i ==> r@[k]@ == strings@[k]@,
        decreases strings.len() - i,
    {
        r.push(strings[i].clone());
        i += 1;
    }
    assert(r.deep_view() =~= strings.deep_view());
    r
}

/// The finalized configuration of a subkey. It can only come out of a
/// builder, so its type and capabilities have passed the check.
#[derive(Debug, PartialEq, Eq)]
pub struct SubkeyParams {
    key_type: KeyType,
    can_sign: bool,
    can_create_certificates: bool,
    can_encrypt: bool,
    user_ids: Vec<UserId>,
    user_attributes: Vec<UserAttribute>,
    passphrase: Option<String>,
    created_at: i64,
    packet_version: Version,
    version: KeyVersion,
    expiration: Option<u64>,
}

/// What the configuration of a subkey holds.
pub struct SubkeyParamsView {
    pub key_type: KeyType,
    pub can_sign: bool,
    pub can_create_certificates: bool,
    pub can_encrypt: bool,
    pub user_ids: Seq<UserIdView>,
    pub user_attributes: Seq<UserAttributeView>,
    pub passphrase: Option<Seq<char>>,
    pub created_at: i64,
    pub packet_version: Version,
    pub version: KeyVersion,
    pub expiration: Option<u64>,
}

impl View for SubkeyParams {
    type V = SubkeyParamsView;

    closed spec fn view(&self) -> SubkeyParamsView {
        SubkeyParamsView {
            key_type: self.key_type,
            can_sign: self.can_sign,
            can_create_certificates: self.can_create_certificates,
            can_encrypt: self.can_encrypt,
            user_ids: self.user_ids.deep_view(),
            user_attributes: self.user_attributes.deep_view(),
            passphrase: passphrase_text(self.passphrase),
            created_at: self.created_at,
            packet_version: self.packet_version,
            version: self.version,
            expiration: self.expiration,
        }
    }
}

impl DeepView for SubkeyParams {
    type V = SubkeyParamsView;

    open spec fn deep_view(&self) -> SubkeyParamsView {
        self@
    }
}

impl SubkeyParams {
    #[verifier::type_invariant]
    spec fn checked(&self) -> bool {
        acceptable(self.key_type, self.can_sign, self.can_encrypt)
    }
}

impl Clone for SubkeyParams {
    fn clone(&self) -> (r: Self)
        ensures
            r@ == self@,
    {
        proof {
            use_type_invariant(self);
        }
        SubkeyParams {
            key_type: self.key_type,
            can_sign: self.can_sign,
            can_create_certificates: self.can_create_certificates,
            can_encrypt: self.can_encrypt,
            user_ids: user_ids_copy(&self.user_ids),
            user_attributes: user_attributes_copy(&self.user_attributes),
            passphrase: passphrase_copy(&self.passphrase),
            created_at: self.created_at,
            packet_version: self.packet_version,
            version: self.version,
            expiration: self.expiration,
        }
    }
}

/// Collects the configuration of a subkey step by step. A field that was not
/// set takes its default when the builder is finalized.
#[derive(Clone, Debug)]
pub struct SubkeyParamsBuilder {
    /// The algorithm of the key.
    pub key_type: Option<KeyType>,
    /// Whether the key may sign data.
    pub can_sign: Option<bool>,
    /// Whether the key may certify other keys.
    pub can_create_certificates: Option<bool>,
    /// Whether the key may encrypt.
    pub can_encrypt: Option<bool>,
    /// User ids of the subkey.
    pub user_ids: Option<Vec<UserId>>,
    /// User attributes of the subkey.
    pub user_attributes: Option<Vec<UserAttribute>>,
    /// The passphrase that protects the secret key material, if any.
    pub passphrase: Option<Option<String>>,
    /// Creation time in seconds since the Unix epoch; the present time if unset.
    pub created_at: Option<i64>,
    /// Framing of the key packet.
    pub packet_version: Option<Version>,
    /// Format version of the key packet.
    pub version: Option<KeyVersion>,
    /// For how many seconds the key is valid, if it expires.
    pub expiration: Option<Option<u64>>,
}

impl Default for SubkeyParamsBuilder {
    /// A builder with no field set.
    fn default() -> (r: Self)
        ensures
            r.key_type is None,
            r.can_sign is None,
            r.can_create_certificates is None,
            r.can_encrypt is None,
            r.user_ids is None,
            r.user_attributes is None,
            r.passphrase is None,
            r.created_at is None,
            r.packet_version is None,
            r.version is None,
            r.expiration is None,
    {
        SubkeyParamsBuilder {
            key_type: None,
            can_sign: None,
            can_create_certificates: None,
            can_encrypt: None,
            user_ids: None,
            user_attributes: None,
            passphrase: None,
            created_at: None,
            packet_version: None,
            version: None,
            expiration: None,
        }
    }
}

impl SubkeyParamsBuilder {
    /// Sets the field `key_type`.
    pub fn key_type(&mut self, value: KeyType) -> (ret: &mut Self)
        ensures
            *ret == (SubkeyParamsBuilder { key_type: Some(value), ..*old(self) }),
            *final(self) == *final(ret),
    {
        self.key_type = Some(value);
        self
    }

    /// Sets the field `can_sign`.
    pub fn can_sign(&mut self, value: bool) -> (ret: &mut Self)
        ensures
            *ret == (SubkeyParamsBuilder { can_sign: Some(value), ..*old(self) }),
            *final(self) == *final(ret),
    {
        self.can_sign = Some(value);
        self
    }

    /// Sets the field `can_create_certificates`.
    pub fn can_create_certificates(&mut self, value: bool) -> (ret: &mut Self)
        ensures
            *ret == (SubkeyParamsBuilder { can_create_certificates: Some(value), ..*old(self) }),
            *final(self) == *final(ret),
    {
        self.can_create_certificates = Some(value);
        self
    }

    /// Sets the field `can_encrypt`.
    pub fn can_encrypt(&mut self, value: bool) -> (ret: &mut Self)
        ensures
            *ret == (SubkeyParamsBuilder { can_encrypt: Some(value), ..*old(self) }),
            *final(self) == *final(ret),
    {
        self.can_encrypt = Some(value);
        self
    }

    /// Sets the field `user_ids`.
    pub fn user_ids(&mut self, value: Vec<UserId>) -> (ret: &mut Self)
        ensures
            *ret == (SubkeyParamsBuilder { user_ids: Some(value), ..*old(self) }),
            *final(self) == *final(ret),
    {
        self.user_ids = Some(value);
        self
    }

    /// Sets the field `user_attributes`.
    pub fn user_attributes(&mut self, value: Vec<UserAttribute>) -> (ret: &mut Self)
        ensures
            *ret == (SubkeyParamsBuilder { user_attributes: Some(value), ..*old(self) }),
            *final(self) == *final(ret),
    {
        self.user_attributes = Some(value);
        self
    }

    /// Sets the field `passphrase`.
    pub fn passphrase(&mut self, value: Option<String>) -> (ret: &mut Self)
        ensures
            *ret == (SubkeyParamsBuilder { passphrase: Some(value), ..*old(self) }),
            *final(self) == *final(ret),
    {
        self.passphrase = Some(value);
        self
    }

    /// Sets the field `created_at`.
    pub fn created_at(&mut self, value: i64) -> (ret: &mut Self)
        ensures
            *ret == (SubkeyParamsBuilder { created_at: Some(value), ..*old(self) }),
            *final(self) == *final(ret),
    {
        self.created_at = Some(value);
        self
    }

    /// Sets the field `packet_version`.
    pub fn packet_version(&mut self, value: Version) -> (ret: &mut Self)
        ensures
            *ret == (SubkeyParamsBuilder { packet_version: Some(value), ..*old(self) }),
            *final(self) == *final(ret),
    {
        self.packet_version = Some(value);
        self
    }

    /// Sets the field `version`.
    pub fn version(&mut self, value: KeyVersion) -> (ret: &mut Self)
        ensures
            *ret == (SubkeyParamsBuilder { version: Some(value), ..*old(self) }),
            *final(self) == *final(ret),
    {
        self.version = Some(value);
        self
    }

    /// Sets the field `expiration`.
    pub fn expiration(&mut self, value: Option<u64>) -> (ret: &mut Self)
        ensures
            *ret == (SubkeyParamsBuilder { expiration: Some(value), ..*old(self) }),
            *final(self) == *final(ret),
    {
        self.expiration = Some(value);
        self
    }

    /// Why this builder cannot be finalized, if it cannot: the type and
    /// the capabilities are refused, or no type was set.
    pub open spec fn rejection(&self) -> Option<Seq<char>> {
        match self.key_type {
            Some(key_type) => refusal(
                key_type,
                self.can_sign == Some(true),
                self.can_encrypt == Some(true),
            ),
            None => Some("`key_type` must be initialized"@),
        }
    }

    /// The configuration that this builder stands for, where the field
    /// `created_at` is `now` if it was not set: each field as it was set,
    /// and otherwise no capability, no user id, no user attribute, no
    /// passphrase, the new packet framing, format version 4, no expiration.
    pub open spec fn outcome(&self, now: i64) -> SubkeyParamsView {
        SubkeyParamsView {
            key_type: self.key_type.unwrap(),
            can_sign: self.can_sign == Some(true),
            can_create_certificates: self.can_create_certificates == Some(true),
            can_encrypt: self.can_encrypt == Some(true),
            user_ids: match self.user_ids {
                Some(ids) => ids.deep_view(),
                None => Seq::empty(),
            },
            user_attributes: match self.user_attributes {
                Some(attributes) => attributes.deep_view(),
                None => Seq::empty(),
            },
            passphrase: match self.passphrase {
                Some(passphrase) => passphrase_text(passphrase),
                None => None,
            },
            created_at: match self.created_at {
                Some(time) => time,
                None => now,
            },
            packet_version: match self.packet_version {
                Some(version) => version,
                None => Version::New,
            },
            version: match self.version {
                Some(version) => version,
                None => KeyVersion::V4,
            },
            expiration: match self.expiration {
                Some(expiration) => expiration,
                None => None,
            },
        }
    }

    /// Finalizes the builder. The configuration is checked before anything
    /// else: an insecure RSA size, an EdDSA key that is to encrypt and an
    /// ECDH key that is to sign are refused, each with its reason. A
    /// builder without a key type is refused too. Every other builder gives
    /// the configuration it stands for, created at the present time unless
    /// a time was set.
    pub fn build(&self) -> (r: Result<SubkeyParams, String>)
        ensures
            match r {
                Ok(params) => {
                    &&& self.rejection() is None
                    &&& params@ == self.outcome(params@.created_at)
                    &&& acceptable(params@.key_type, params@.can_sign, params@.can_encrypt)
                },
                Err(message) => self.rejection() == Some(message@),
            },
    {
        match check(self.key_type, self.can_sign, self.can_encrypt) {
            Err(message) => {
                return Err(message);
            },
            Ok(_) => {},
        }
        let key_type = match self.key_type {
            Some(key_type) => key_type,
            None => {
                return Err("`key_type` must be initialized".to_owned());
            },
        };
        let params = SubkeyParams {
            key_type,
            can_sign: match self.can_sign {
                Some(value) => value,
                None => false,
            },
            can_create_certificates: match self.can_create_certificates {
                Some(value) => value,
                None => false,
            },
            can_encrypt: match self.can_encrypt {
                Some(value) => value,
                None => false,
            },
            user_ids: match &self.user_ids {
                Some(ids) => user_ids_copy(ids),
                None => Vec::new(),
            },
            user_attributes: match &self.user_attributes {
                Some(attributes) => user_attributes_copy(attributes),
                None => Vec::new(),
            },
            passphrase: match &self.passphrase {
                Some(passphrase) => passphrase_copy(passphrase),
                None => None,
            },
            created_at: match self.created_at {
                Some(time) => time,
                None => now(),
            },
            packet_version: match self.packet_version {
                Some(version) => version,
                None => Version::default(),
            },
            version: match self.version {
                Some(version) => version,
                None => KeyVersion::default(),
            },
            expiration: match self.expiration {
                Some(expiration) => expiration,
                None => None,
            },
        };
        assert(params.user_ids.deep_view() =~= self.outcome(params.created_at).user_ids);
        assert(params.user_attributes.deep_view() =~= self.outcome(
            params.created_at,
        ).user_attributes);
        Ok(params)
    }
}

/// A copy of a list of subkey configurations.
fn subkeys_copy(subkeys: &Vec<SubkeyParams>) -> (r: Vec<SubkeyParams>)
    ensures
        r.deep_view() == subkeys.deep_view(),
{
    let mut r: Vec<SubkeyParams> = Vec::with_capacity(subkeys.len());
    let mut i: usize = 0;
    while i < subkeys.len()
        invariant
            0 <= i <= subkeys.len(),
            r@.len() == i,
            forall|k: int| 0 <= k < i ==> r@[k]@ == subkeys@[k]@,
        decreases subkeys.len() - i,
    {
        r.push(subkeys[i].clone());
        i += 1;
    }
    assert(r.deep_view() =~= subkeys.deep_view());
    r
}

/// The finalized configuration of a primary key and its subkeys. It can
/// only come out of a builder, so its type and capabilities have passed the
/// check.
#[derive(Debug, PartialEq, Eq)]
pub struct SecretKeyParams {
    key_type: KeyType,
    can_sign: bool,
    can_create_certificates: bool,
    can_encrypt: bool,
    preferred_symmetric_algorithms: Vec<SymmetricKeyAlgorithm>,
    preferred_hash_algorithms: Vec<HashAlgorithm>,
    preferred_compression_algorithms: Vec<CompressionAlgorithm>,
    revocation_key: Option<RevocationKey>,
    primary_user_id: String,
    user_ids: Vec<String>,
    user_attributes: Vec<UserAttribute>,
    passphrase: Option<String>,
    created_at: i64,
    packet_version: Version,
    version: KeyVersion,
    expiration: Option<u64>,
    subkeys: Vec<SubkeyParams>,
}

/// What the configuration of a primary key holds.
pub struct SecretKeyParamsView {
    pub key_type: KeyType,
    pub can_sign: bool,
    pub can_create_certificates: bool,
    pub can_encrypt: bool,
    pub preferred_symmetric_algorithms: Seq<SymmetricKeyAlgorithm>,
    pub preferred_hash_algorithms: Seq<HashAlgorithm>,
    pub preferred_compression_algorithms: Seq<CompressionAlgorithm>,
    pub revocation_key: Option<RevocationKey>,
    pub primary_user_id: Seq<char>,
    pub user_ids: Seq<Seq<char>>,
    pub user_attributes: Seq<UserAttributeView>,
    pub passphrase: Option<Seq<char>>,
    pub created_at: i64,
    pub packet_version: Version,
    pub version: KeyVersion,
    pub expiration: Option<u64>,
    pub subkeys: Seq<SubkeyParamsView>,
}

impl View for SecretKeyParams {
    type V = SecretKeyParamsView;

    closed spec fn view(&self) -> SecretKeyParamsView {
        SecretKeyParamsView {
            key_type: self.key_type,
            can_sign: self.can_sign,
            can_create_certificates: self.can_create_certificates,
            can_encrypt: self.can_encrypt,
            preferred_symmetric_algorithms: self.preferred_symmetric_algorithms@,
            preferred_hash_algorithms: self.preferred_hash_algorithms@,
            preferred_compression_algorithms: self.preferred_compression_algorithms@,
            revocation_key: self.revocation_key,
            primary_user_id: self.primary_user_id@,
            user_ids: self.user_ids.deep_view(),
            user_attributes: self.user_attributes.deep_view(),
            passphrase: passphrase_text(self.passphrase),
            created_at: self.created_at,
            packet_version: self.packet_version,
            version: self.version,
            expiration: self.expiration,
            subkeys: self.subkeys.deep_view(),
        }
    }
}

impl SecretKeyParams {
    #[verifier::type_invariant]
    spec fn checked(&self) -> bool {
        acceptable(self.key_type, self.can_sign, self.can_encrypt)
    }
}

/// Collects the configuration of a primary key and its subkeys step by step. A field that was not
/// set takes its default when the builder is finalized.
#[derive(Clone, Debug)]
pub struct SecretKeyParamsBuilder {
    /// The algorithm of the key.
    pub key_type: Option<KeyType>,
    /// Whether the key may sign data.
    pub can_sign: Option<bool>,
    /// Whether the key may certify other keys.
    pub can_create_certificates: Option<bool>,
    /// Whether the key may encrypt.
    pub can_encrypt: Option<bool>,
    /// The ciphers that the key holder prefers, best first.
    pub preferred_symmetric_algorithms: Option<Vec<SymmetricKeyAlgorithm>>,
    /// The hash algorithms that the key holder prefers, best first.
    pub preferred_hash_algorithms: Option<Vec<HashAlgorithm>>,
    /// The compression algorithms that the key holder prefers, best first.
    pub preferred_compression_algorithms: Option<Vec<CompressionAlgorithm>>,
    /// A key that may revoke this one, if any.
    pub revocation_key: Option<Option<RevocationKey>>,
    /// The primary user id.
    pub primary_user_id: Option<String>,
    /// The other user ids, in the order in which they are to be certified.
    pub user_ids: Option<Vec<String>>,
    /// The user attributes, in the order in which they are to be certified.
    pub user_attributes: Option<Vec<UserAttribute>>,
    /// The passphrase that protects the secret key material, if any.
    pub passphrase: Option<Option<String>>,
    /// Creation time in seconds since the Unix epoch; the present time if unset.
    pub created_at: Option<i64>,
    /// Framing of the key packet.
    pub packet_version: Option<Version>,
    /// Format version of the key packet.
    pub version: Option<KeyVersion>,
    /// For how many seconds the key is valid, if it expires.
    pub expiration: Option<Option<u64>>,
    /// The subkeys, in the order in which they are to be generated and bound.
    pub subkeys: Option<Vec<SubkeyParams>>,
}

impl Default for SecretKeyParamsBuilder {
    /// A builder with no field set.
    fn default() -> (r: Self)
        ensures
            r.key_type is None,
            r.can_sign is None,
            r.can_create_certificates is None,
            r.can_encrypt is None,
            r.preferred_symmetric_algorithms is None,
            r.preferred_hash_algorithms is None,
            r.preferred_compression_algorithms is None,
            r.revocation_key is None,
            r.primary_user_id is None,
            r.user_ids is None,
            r.user_attributes is None,
            r.passphrase is None,
            r.created_at is None,
            r.packet_version is None,
            r.version is None,
            r.expiration is None,
            r.subkeys is None,
    {
        SecretKeyParamsBuilder {
            key_type: None,
            can_sign: None,
            can_create_certificates: None,
            can_encrypt: None,
            preferred_symmetric_algorithms: None,
            preferred_hash_algorithms: None,
            preferred_compression_algorithms: None,
            revocation_key: None,
            primary_user_id: None,
            user_ids: None,
            user_attributes: None,
            passphrase: None,
            created_at: None,
            packet_version: None,
            version: None,
            expiration: None,
            subkeys: None,
        }
    }
}

impl SecretKeyParamsBuilder {
    /// Sets the field `key_type`.
    pub fn key_type(&mut self, value: KeyType) -> (ret: &mut Self)
        ensures
            *ret == (SecretKeyParamsBuilder { key_type: Some(value), ..*old(self) }),
            *final(self) == *final(ret),
    {
        self.key_type = Some(value);
        self
    }

    /// Sets the field `can_sign`.
    pub fn can_sign(&mut self, value: bool) -> (ret: &mut Self)
        ensures
            *ret == (SecretKeyParamsBuilder { can_sign: Some(value), ..*old(self) }),
            *final(self) == *final(ret),
    {
        self.can_sign = Some(value);
        self
    }

    /// Sets the field `can_create_certificates`.
    pub fn can_create_certificates(&mut self, value: bool) -> (ret: &mut Self)
        ensures
            *ret == (SecretKeyParamsBuilder { can_create_certificates: Some(value), ..*old(self) }),
            *final(self) == *final(ret),
    {
        self.can_create_certificates = Some(value);
        self
    }

    /// Sets the field `can_encrypt`.
    pub fn can_encrypt(&mut self, value: bool) -> (ret: &mut Self)
        ensures
            *ret == (SecretKeyParamsBuilder { can_encrypt: Some(value), ..*old(self) }),
            *final(self) == *final(ret),
    {
        self.can_encrypt = Some(value);
        self
    }

    /// Sets the field `preferred_symmetric_algorithms`.
    pub fn preferred_symmetric_algorithms(&mut self, value: Vec<SymmetricKeyAlgorithm>) -> (ret: &mut Self)
        ensures
            *ret == (SecretKeyParamsBuilder { preferred_symmetric_algorithms: Some(value), ..*old(self) }),
            *final(self) == *final(ret),
    {
        self.preferred_symmetric_algorithms = Some(value);
        self
    }

    /// Sets the field `preferred_hash_algorithms`.
    pub fn preferred_hash_algorithms(&mut self, value: Vec<HashAlgorithm>) -> (ret: &mut Self)
        ensures
            *ret == (SecretKeyParamsBuilder { preferred_hash_algorithms: Some(value), ..*old(self) }),
            *final(self) == *final(ret),
    {
        self.preferred_hash_algorithms = Some(value);
        self
    }

    /// Sets the field `preferred_compression_algorithms`.
    pub fn preferred_compression_algorithms(&mut self, value: Vec<CompressionAlgorithm>) -> (ret: &mut Self)
        ensures
            *ret == (SecretKeyParamsBuilder { preferred_compression_algorithms: Some(value), ..*old(self) }),
            *final(self) == *final(ret),
    {
        self.preferred_compression_algorithms = Some(value);
        self
    }

    /// Sets the field `revocation_key`.
    pub fn revocation_key(&mut self, value: Option<RevocationKey>) -> (ret: &mut Self)
        ensures
            *ret == (SecretKeyParamsBuilder { revocation_key: Some(value), ..*old(self) }),
            *final(self) == *final(ret),
    {
        self.revocation_key = Some(value);
        self
    }

    /// Sets the field `primary_user_id`.
    pub fn primary_user_id(&mut self, value: String) -> (ret: &mut Self)
        ensures
            *ret == (SecretKeyParamsBuilder { primary_user_id: Some(value), ..*old(self) }),
            *final(self) == *final(ret),
    {
        self.primary_user_id = Some(value);
        self
    }

    /// Sets the field `user_ids`.
    pub fn user_ids(&mut self, value: Vec<String>) -> (ret: &mut Self)
        ensures
            *ret == (SecretKeyParamsBuilder { user_ids: Some(value), ..*old(self) }),
            *final(self) == *final(ret),
    {
        self.user_ids = Some(value);
        self
    }

    /// Sets the field `user_attributes`.
    pub fn user_attributes(&mut self, value: Vec<UserAttribute>) -> (ret: &mut Self)
        ensures
            *ret == (SecretKeyParamsBuilder { user_attributes: Some(value), ..*old(self) }),
            *final(self) == *final(ret),
    {
        self.user_attributes = Some(value);
        self
    }

    /// Sets the field `passphrase`.
    pub fn passphrase(&mut self, value: Option<String>) -> (ret: &mut Self)
        ensures
            *ret == (SecretKeyParamsBuilder { passphrase: Some(value), ..*old(self) }),
            *final(self) == *final(ret),
    {
        self.passphrase = Some(value);
        self
    }

    /// Sets the field `created_at`.
    pub fn created_at(&mut self, value: i64) -> (ret: &mut Self)
        ensures
            *ret == (SecretKeyParamsBuilder { created_at: Some(value), ..*old(self) }),
            *final(self) == *final(ret),
    {
        self.created_at = Some(value);
        self
    }

    /// Sets the field `packet_version`.
    pub fn packet_version(&mut self, value: Version) -> (ret: &mut Self)
        ensures
            *ret == (SecretKeyParamsBuilder { packet_version: Some(value), ..*old(self) }),
            *final(self) == *final(ret),
    {
        self.packet_version = Some(value);
        self
    }

    /// Sets the field `version`.
    pub fn version(&mut self, value: KeyVersion) -> (ret: &mut Self)
        ensures
            *ret == (SecretKeyParamsBuilder { version: Some(value), ..*old(self) }),
            *final(self) == *final(ret),
    {
        self.version = Some(value);
        self
    }

    /// Sets the field `expiration`.
    pub fn expiration(&mut self, value: Option<u64>) -> (ret: &mut Self)
        ensures
            *ret == (SecretKeyParamsBuilder { expiration: Some(value), ..*old(self) }),
            *final(self) == *final(ret),
    {
        self.expiration = Some(value);
        self
    }

    /// Sets the field `subkeys`.
    pub fn subkeys(&mut self, value: Vec<SubkeyParams>) -> (ret: &mut Self)
        ensures
            *ret == (SecretKeyParamsBuilder { subkeys: Some(value), ..*old(self) }),
            *final(self) == *final(ret),
    {
        self.subkeys = Some(value);
        self
    }

    /// Checks the type of the key against the capabilities asked of it: an
    /// RSA key of less than 2048 bits is refused as insecure, an EdDSA key
    /// that is to encrypt and an ECDH key that is to sign are refused. Every
    /// other combination passes, and so does a builder without a key type.
    pub fn validate(&self) -> (r: Result<(), String>)
        ensures
            match self.key_type {
                Some(key_type) => match refusal(
                    key_type,
                    self.can_sign == Some(true),
                    self.can_encrypt == Some(true),
                ) {
                    Some(reason) => r matches Err(message) && message@ == reason,
                    None => r is Ok,
                },
                None => r is Ok,
            },
    {
        check(self.key_type, self.can_sign, self.can_encrypt)
    }

    /// Adds a user id behind those that the builder holds.
    pub fn user_id(&mut self, value: String) -> (ret: &mut Self)
        ensures
            ret.user_ids matches Some(ids) && ids@ == (match old(self).user_ids {
                Some(before) => before@,
                None => Seq::empty(),
            }).push(value),
            *ret == (SecretKeyParamsBuilder { user_ids: ret.user_ids, ..*old(self) }),
            *final(self) == *final(ret),
    {
        let mut user_ids = match self.user_ids.take() {
            Some(ids) => ids,
            None => Vec::new(),
        };
        user_ids.push(value);
        self.user_ids = Some(user_ids);
        self
    }

    /// Adds a subkey behind those that the builder holds.
    pub fn subkey(&mut self, value: SubkeyParams) -> (ret: &mut Self)
        ensures
            ret.subkeys matches Some(subkeys) && subkeys@ == (match old(self).subkeys {
                Some(before) => before@,
                None => Seq::empty(),
            }).push(value),
            *ret == (SecretKeyParamsBuilder { subkeys: ret.subkeys, ..*old(self) }),
            *final(self) == *final(ret),
    {
        let mut subkeys = match self.subkeys.take() {
            Some(subkeys) => subkeys,
            None => Vec::new(),
        };
        subkeys.push(value);
        self.subkeys = Some(subkeys);
        self
    }

    /// Why this builder cannot be finalized, if it cannot: the type and
    /// the capabilities are refused, or no type was set, or no primary user
    /// id.
    pub open spec fn rejection(&self) -> Option<Seq<char>> {
        match self.key_type {
            Some(key_type) => match refusal(
                key_type,
                self.can_sign == Some(true),
                self.can_encrypt == Some(true),
            ) {
                Some(reason) => Some(reason),
                None => if self.primary_user_id is None {
                    Some("`primary_user_id` must be initialized"@)
                } else {
                    None
                },
            },
            None => Some("`key_type` must be initialized"@),
        }
    }

    /// The configuration that this builder stands for, where the field
    /// `created_at` is `now` if it was not set: each field as it was set,
    /// and otherwise no capability, empty lists, no revocation key, no
    /// passphrase, the new packet framing, format version 4, no expiration.
    pub open spec fn outcome(&self, now: i64) -> SecretKeyParamsView {
        SecretKeyParamsView {
            key_type: self.key_type.unwrap(),
            can_sign: self.can_sign == Some(true),
            can_create_certificates: self.can_create_certificates == Some(true),
            can_encrypt: self.can_encrypt == Some(true),
            preferred_symmetric_algorithms: match self.preferred_symmetric_algorithms {
                Some(algorithms) => algorithms@,
                None => Seq::empty(),
            },
            preferred_hash_algorithms: match self.preferred_hash_algorithms {
                Some(algorithms) => algorithms@,
                None => Seq::empty(),
            },
            preferred_compression_algorithms: match self.preferred_compression_algorithms {
                Some(algorithms) => algorithms@,
                None => Seq::empty(),
            },
            revocation_key: match self.revocation_key {
                Some(key) => key,
                None => None,
            },
            primary_user_id: self.primary_user_id.unwrap()@,
            user_ids: match self.user_ids {
                Some(ids) => ids.deep_view(),
                None => Seq::empty(),
            },
            user_attributes: match self.user_attributes {
                Some(attributes) => attributes.deep_view(),
                None => Seq::empty(),
            },
            passphrase: match self.passphrase {
                Some(passphrase) => passphrase_text(passphrase),
                None => None,
            },
            created_at: match self.created_at {
                Some(time) => time,
                None => now,
            },
            packet_version: match self.packet_version {
                Some(version) => version,
                None => Version::New,
            },
            version: match self.version {
                Some(version) => version,
                None => KeyVersion::V4,
            },
            expiration: match self.expiration {
                Some(expiration) => expiration,
                None => None,
            },
            subkeys: match self.subkeys {
                Some(subkeys) => subkeys.deep_view(),
                None => Seq::empty(),
            },
        }
    }

    /// Finalizes the builder, before any key material is generated. The
    /// configuration is checked first: an insecure RSA size, an EdDSA key
    /// that is to encrypt and an ECDH key that is to sign are refused, each
    /// with its reason. A builder without a key type or without a primary
    /// user id is refused too. Every other builder gives the configuration
    /// it stands for, created at the present time unless a time was set.
    pub fn build(&self) -> (r: Result<SecretKeyParams, String>)
        ensures
            match r {
                Ok(params) => {
                    &&& self.rejection() is None
                    &&& params@ == self.outcome(params@.created_at)
                    &&& acceptable(params@.key_type, params@.can_sign, params@.can_encrypt)
                },
                Err(message) => self.rejection() == Some(message@),
            },
    {
        match self.validate() {
            Err(message) => {
                return Err(message);
            },
            Ok(_) => {},
        }
        let key_type = match self.key_type {
            Some(key_type) => key_type,
            None => {
                return Err("`key_type` must be initialized".to_owned());
            },
        };
        let primary_user_id = match &self.primary_user_id {
            Some(id) => id.clone(),
            None => {
                return Err("`primary_user_id` must be initialized".to_owned());
            },
        };
        let params = SecretKeyParams {
            key_type,
            can_sign: match self.can_sign {
                Some(value) => value,
                None => false,
            },
            can_create_certificates: match self.can_create_certificates {
                Some(value) => value,
                None => false,
            },
            can_encrypt: match self.can_encrypt {
                Some(value) => value,
                None => false,
            },
            preferred_symmetric_algorithms: match &self.preferred_symmetric_algorithms {
                Some(algorithms) => copy_of(algorithms),
                None => Vec::new(),
            },
            preferred_hash_algorithms: match &self.preferred_hash_algorithms {
                Some(algorithms) => copy_of(algorithms),
                None => Vec::new(),
            },
            preferred_compression_algorithms: match &self.preferred_compression_algorithms {
                Some(algorithms) => copy_of(algorithms),
                None => Vec::new(),
            },
            revocation_key: match self.revocation_key {
                Some(key) => key,
                None => None,
            },
            primary_user_id,
            user_ids: match &self.user_ids {
                Some(ids) => strings_copy(ids),
                None => Vec::new(),
            },
            user_attributes: match &self.user_attributes {
                Some(attributes) => user_attributes_copy(attributes),
                None => Vec::new(),
            },
            passphrase: match &self.passphrase {
                Some(passphrase) => passphrase_copy(passphrase),
                None => None,
            },
            created_at: match self.created_at {
                Some(time) => time,
                None => now(),
            },
            packet_version: match self.packet_version {
                Some(version) => version,
                None => Version::default(),
            },
            version: match self.version {
                Some(version) => version,
                None => KeyVersion::default(),
            },
            expiration: match self.expiration {
                Some(expiration) => expiration,
                None => None,
            },
            subkeys: match &self.subkeys {
                Some(subkeys) => subkeys_copy(subkeys),
                None => Vec::new(),
            },
        };
        proof {
            let expected = self.outcome(params.created_at);
            assert(params.user_ids.deep_view() =~= expected.user_ids);
            assert(params.user_attributes.deep_view() =~= expected.user_attributes);
            assert(params.subkeys.deep_view() =~= expected.subkeys);
            assert(params.preferred_symmetric_algorithms@ =~= expected.preferred_symmetric_algorithms);
            assert(params.preferred_hash_algorithms@ =~= expected.preferred_hash_algorithms);
            assert(params.preferred_compression_algorithms@
                =~= expected.preferred_compression_algorithms);
        }
        Ok(params)
    }
}

/// Whether `subkey` is an unsigned subkey assembled from the configuration
/// `params`: its packet carries the configured framing, format version,
/// creation time and expiration and names the algorithm of the configured
/// type; its key material is freshly generated for that type and protected
/// under the configured passphrase; and its flags stand for the configured
/// capabilities, which the type admits.
pub open spec fn subkey_assembled<P: SecretProtector>(
    params: SubkeyParamsView,
    protector: &P,
    subkey: SecretSubkey,
) -> bool {
    &&& subkey.key.details.packet_version == params.packet_version
    &&& subkey.key.details.version == params.version
    &&& subkey.key.details.algorithm == params.key_type.spec_to_alg()
    &&& subkey.key.details.created_at == params.created_at
    &&& subkey.key.details.expiration == packet_expiration(params.expiration)
    &&& params.key_type.generated(
        params.passphrase,
        protector,
        subkey.key.details.public_params,
        subkey.key.secret_params,
    )
    &&& subkey.keyflags.0 == capability_bits(
        params.can_create_certificates,
        params.can_sign,
        params.can_encrypt,
        params.can_encrypt,
    )
    &&& acceptable(params.key_type, params.can_sign, params.can_encrypt)
}

/// The user ids with the given texts, in the new packet framing.
pub open spec fn user_ids_of(texts: Seq<Seq<char>>) -> Seq<UserIdView> {
    Seq::new(texts.len(), |i: int| UserIdView { packet_version: Version::New, id: texts[i] })
}

/// Whether `key` is an unsigned secret key assembled from the configuration
/// `params`.
///
/// The primary key packet carries the configured framing, format version,
/// creation time and expiration and names the algorithm of the configured
/// type; its key material is freshly generated for that type and protected
/// under the configured passphrase. The details hold the configured user
/// ids in their order, the user attributes, the preferences and the
/// revocation key, and flags that stand for the configured capabilities,
/// which the type admits. There is no public subkey, and one secret subkey
/// for each configured subkey, in their order.
pub open spec fn assembled<P: SecretProtector>(
    params: SecretKeyParamsView,
    protector: &P,
    key: SecretKey,
) -> bool {
    &&& key.primary_key.details.packet_version == params.packet_version
    &&& key.primary_key.details.version == params.version
    &&& key.primary_key.details.algorithm == params.key_type.spec_to_alg()
    &&& key.primary_key.details.created_at == params.created_at
    &&& key.primary_key.details.expiration == packet_expiration(params.expiration)
    &&& params.key_type.generated(
        params.passphrase,
        protector,
        key.primary_key.details.public_params,
        key.primary_key.secret_params,
    )
    &&& key.details.primary_user_id@ == (UserIdView {
        packet_version: Version::New,
        id: params.primary_user_id,
    })
    &&& key.details.user_ids.deep_view() == user_ids_of(params.user_ids)
    &&& key.details.user_attributes.deep_view() == params.user_attributes
    &&& key.details.keyflags.0 == capability_bits(
        params.can_create_certificates,
        params.can_sign,
        params.can_encrypt,
        params.can_encrypt,
    )
    &&& key.details.preferred_symmetric_algorithms@ == params.preferred_symmetric_algorithms
    &&& key.details.preferred_hash_algorithms@ == params.preferred_hash_algorithms
    &&& key.details.preferred_compression_algorithms@ == params.preferred_compression_algorithms
    &&& key.details.revocation_key == params.revocation_key
    &&& acceptable(params.key_type, params.can_sign, params.can_encrypt)
    &&& key.public_subkeys@.len() == 0
    &&& key.secret_subkeys@.len() == params.subkeys.len()
    &&& forall|i: int|
        0 <= i < params.subkeys.len() ==> subkey_assembled(
            params.subkeys[i],
            protector,
            #[trigger] key.secret_subkeys@[i],
        )
}

impl SubkeyParams {
    /// Generates the key material of the subkey and assembles the unsigned
    /// subkey. The secret half is protected by `protector` under the
    /// configured passphrase, if there is one.
    ///
    /// It fails where generating the key material fails: without a random
    /// source, without an RSA key or an inverse of its first prime, or
    /// because the protector failed.
    pub fn generate<P: SecretProtector>(self, protector: &P) -> (r: Result<
        SecretSubkey,
        KeyError,
    >)
        ensures
            r matches Ok(subkey) ==> subkey_assembled(self@, protector, subkey),
            r matches Err(e) ==> self@.key_type.failed(self@.passphrase, protector, e),
    {
        proof {
            use_type_invariant(&self);
        }
        let (public_params, secret_params) = match self.key_type.generate(
            self.passphrase,
            protector,
        ) {
            Ok(pair) => pair,
            Err(e) => {
                return Err(e);
            },
        };
        let keyflags = KeyFlags::from_capabilities(
            self.can_create_certificates,
            self.can_sign,
            self.can_encrypt,
        );
        Ok(
            SecretSubkey {
                key: packet::SecretSubkey {
                    details: packet::PublicSubkey {
                        packet_version: self.packet_version,
                        version: self.version,
                        algorithm: self.key_type.to_alg(),
                        created_at: self.created_at,
                        expiration: expiration_of(self.expiration),
                        public_params,
                    },
                    secret_params,
                },
                keyflags,
            },
        )
    }
}

impl SecretKeyParams {
    /// Generates the key material of the primary key and of each subkey, in
    /// the order of the configuration, and assembles the unsigned secret
    /// key. Each secret half is protected by `protector` under the
    /// passphrase configured for it, if there is one.
    ///
    /// It fails at the first key for which generating the key material
    /// fails: without a random source, without an RSA key or an inverse of
    /// its first prime, or because the protector failed. No part of a key is
    /// returned then.
    pub fn generate<P: SecretProtector>(self, protector: &P) -> (r: Result<SecretKey, KeyError>)
        ensures
            r matches Ok(key) ==> assembled(self@, protector, key),
            r matches Err(e) ==> {
                ||| self@.key_type.failed(self@.passphrase, protector, e)
                ||| exists|i: int|
                    0 <= i < self@.subkeys.len() && (#[trigger] self@.subkeys[i]).key_type.failed(
                        self@.subkeys[i].passphrase,
                        protector,
                        e,
                    )
            },
    {
        proof {
            use_type_invariant(&self);
        }
        let ghost params = self@;
        let (public_params, secret_params) = match self.key_type.generate(
            self.passphrase,
            protector,
        ) {
            Ok(pair) => pair,
            Err(e) => {
                return Err(e);
            },
        };
        let primary_key = packet::SecretKey {
            details: packet::PublicKey {
                packet_version: self.packet_version,
                version: self.version,
                algorithm: self.key_type.to_alg(),
                created_at: self.created_at,
                expiration: expiration_of(self.expiration),
                public_params,
            },
            secret_params,
        };
        let keyflags = KeyFlags::from_capabilities(
            self.can_create_certificates,
            self.can_sign,
            self.can_encrypt,
        );
        let primary_user_id = UserId::from_str(Version::default(), self.primary_user_id.as_str());
        let mut user_ids: Vec<UserId> = Vec::with_capacity(self.user_ids.len());
        let mut i: usize = 0;
        while i < self.user_ids.len()
            invariant
                0 <= i <= self.user_ids.len(),
                user_ids@.len() == i,
                forall|k: int|
                    0 <= k < i ==> user_ids@[k]@ == (UserIdView {
                        packet_version: Version::New,
                        id: self.user_ids@[k]@,
                    }),
            decreases self.user_ids.len() - i,
        {
            user_ids.push(UserId::from_str(Version::default(), self.user_ids[i].as_str()));
            i += 1;
        }
        assert(user_ids.deep_view() =~= user_ids_of(params.user_ids));
        let ghost all = self.subkeys@;
        assert(params.subkeys =~= all.map_values(|subkey: SubkeyParams| subkey@));
        let mut secret_subkeys: Vec<SecretSubkey> = Vec::with_capacity(self.subkeys.len());
        for subkey in iter: self.subkeys
            invariant
                iter.seq() == all,
                params == self@,
                params.subkeys == all.map_values(|subkey: SubkeyParams| subkey@),
                secret_subkeys@.len() == iter.index(),
                forall|k: int|
                    0 <= k < iter.index() ==> subkey_assembled(
                        all[k]@,
                        protector,
                        #[trigger] secret_subkeys@[k],
                    ),
        {
            let ghost at = secret_subkeys@.len() as int;
            match subkey.generate(protector) {
                Ok(secret_subkey) => {
                    secret_subkeys.push(secret_subkey);
                },
                Err(e) => {
                    assert(0 <= at < params.subkeys.len() && params.subkeys[at] == subkey@);
                    return Err(e);
                },
            }
        }
        Ok(
            SecretKey {
                primary_key,
                details: KeyDetails {
                    primary_user_id,
                    user_ids,
                    user_attributes: self.user_attributes,
                    keyflags,
                    preferred_symmetric_algorithms: self.preferred_symmetric_algorithms,
                    preferred_hash_algorithms: self.preferred_hash_algorithms,
                    preferred_compression_algorithms: self.preferred_compression_algorithms,
                    revocation_key: self.revocation_key,
                },
                public_subkeys: Vec::new(),
                secret_subkeys,
            },
        )
    }
}

/// A builder can be finalized exactly where it has a key type and a primary
/// user id, and the type is not RSA of less than 2048 bits, nor EdDSA that
/// is to encrypt, nor ECDH that is to sign.
pub proof fn lemma_accepted(builder: SecretKeyParamsBuilder)
    ensures
        builder.rejection() is None <==> {
            &&& builder.primary_user_id is Some
            &&& match builder.key_type {
                Some(KeyType::Rsa(size)) => size >= 2048,
                Some(KeyType::EdDSA) => builder.can_encrypt != Some(true),
                Some(KeyType::ECDH) => builder.can_sign != Some(true),
                None => false,
            }
        },
{
}

/// A subkey builder can be finalized exactly where it has a key type, and
/// the type is not RSA of less than 2048 bits, nor EdDSA that is to encrypt,
/// nor ECDH that is to sign.
pub proof fn lemma_subkey_accepted(builder: SubkeyParamsBuilder)
    ensures
        builder.rejection() is None <==> match builder.key_type {
            Some(KeyType::Rsa(size)) => size >= 2048,
            Some(KeyType::EdDSA) => builder.can_encrypt != Some(true),
            Some(KeyType::ECDH) => builder.can_sign != Some(true),
            None => false,
        },
{
}

/// In a key assembled from a configuration, the algorithm and the
/// capabilities go together: the public key material meets the structural
/// invariant of the configured type, an RSA modulus has at least 2048 bits,
/// an EdDSA key does not encrypt, and an ECDH key does not sign. The same
/// holds of each subkey.
pub proof fn lemma_assembled_sound<P: SecretProtector>(
    params: SecretKeyParamsView,
    protector: &P,
    key: SecretKey,
)
    requires
        assembled(params, protector, key),
    ensures
        key.primary_key.details.public_params.well_formed(),
        params.key_type.admits(key.primary_key.details.public_params),
        key.primary_key.details.public_params matches PublicParams::RSA { n, e } ==> bit_length(
            be_value(n@),
        ) >= 2048,
        key.primary_key.details.algorithm == PublicKeyAlgorithm::EdDSA
            ==> !key.details.keyflags.encrypt_comms() && !key.details.keyflags.encrypt_storage(),
        key.primary_key.details.algorithm == PublicKeyAlgorithm::ECDH
            ==> !key.details.keyflags.sign(),
        forall|i: int|
            #![trigger key.secret_subkeys@[i]]
            0 <= i < key.secret_subkeys@.len() ==> {
                let subkey = key.secret_subkeys@[i];
                &&& subkey.key.details.public_params.well_formed()
                &&& params.subkeys[i].key_type.admits(subkey.key.details.public_params)
                &&& (subkey.key.details.public_params matches PublicParams::RSA { n, e }
                    ==> bit_length(be_value(n@)) >= 2048)
                &&& (subkey.key.details.algorithm == PublicKeyAlgorithm::EdDSA
                    ==> !subkey.keyflags.encrypt_comms() && !subkey.keyflags.encrypt_storage())
                &&& (subkey.key.details.algorithm == PublicKeyAlgorithm::ECDH
                    ==> !subkey.keyflags.sign())
            },
{
    lemma_capability_flags(
        params.can_create_certificates,
        params.can_sign,
        params.can_encrypt,
        params.can_encrypt,
    );
    assert forall|i: int| 0 <= i < key.secret_subkeys@.len() implies {
        let subkey = #[trigger] key.secret_subkeys@[i];
        &&& subkey.key.details.public_params.well_formed()
        &&& params.subkeys[i].key_type.admits(subkey.key.details.public_params)
        &&& (subkey.key.details.public_params matches PublicParams::RSA { n, e } ==> bit_length(
            be_value(n@),
        ) >= 2048)
        &&& (subkey.key.details.algorithm == PublicKeyAlgorithm::EdDSA
            ==> !subkey.keyflags.encrypt_comms() && !subkey.keyflags.encrypt_storage())
        &&& (subkey.key.details.algorithm == PublicKeyAlgorithm::ECDH
            ==> !subkey.keyflags.sign())
    } by {
        let sub = params.subkeys[i];
        lemma_capability_flags(
            sub.can_create_certificates,
            sub.can_sign,
            sub.can_encrypt,
            sub.can_encrypt,
        );
    }
}

} // verus!
