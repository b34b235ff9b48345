//! Unsigned keys and their certification: the self-signatures over the
//! users of a key and the signatures that bind its subkeys.

use vstd::prelude::*;
use crate::error::KeyError;
use crate::error::SigningError;
use crate::packet::copy_of;
use crate::packet::KeyFlags;
use crate::packet::Signature;
use crate::packet::SignatureConfig;
use crate::packet::SignatureConfigView;
use crate::packet::SignatureType;
use crate::packet::SignatureVersion;
use crate::packet::Subpacket;
use crate::packet::SubpacketView;
use crate::packet::UserAttribute;
use crate::packet::UserId;
use crate::packet;
use crate::primitives::now;
use crate::signed::SignedKeyDetails;
use crate::signed::SignedPublicKey;
use crate::signed::SignedPublicSubKey;
use crate::signed::SignedSecretKey;
use crate::signed::SignedSecretSubKey;
use crate::signed::SignedUser;
use crate::signed::SignedUserAttribute;
use crate::signer::Signer;
use crate::types::CompressionAlgorithm;
use crate::types::HashAlgorithm;
use crate::types::KeyId;
use crate::types::PublicKeyAlgorithm;
use crate::types::RevocationKey;
use crate::types::SymmetricKeyAlgorithm;

verus! {

/// How a signature names the key that made it.
#[derive(Clone, Debug, PartialEq, Eq)]
pub struct Issuer {
    /// Algorithm of the signing key.
    pub algorithm: PublicKeyAlgorithm,
    /// Id of the signing key.
    pub key_id: KeyId,
    /// Fingerprint of the signing key.
    pub fingerprint: Vec<u8>,
}

impl Issuer {
    /// Whether this is how `signer` named `key`: the algorithm is the key's
    /// own, and the id and the fingerprint are what the signer derived.
    pub open spec fn names<S: Signer>(&self, signer: &S, key: packet::SecretKey) -> bool {
        &&& self.algorithm == key.details.algorithm
        &&& signer.derives_key_id(key.details, Some(self.key_id))
        &&& signer.derives_fingerprint(key.details, self.fingerprint@)
    }

    /// Names the signing key `key`, as `signer` derives its id and its
    /// fingerprint. There is no name exactly where the signer derived no key
    /// id.
    pub fn of<S: Signer>(signer: &S, key: &packet::SecretKey) -> (r: Result<Issuer, KeyError>)
        ensures
            match r {
                Ok(issuer) => issuer.names(signer, *key),
                Err(e) => {
                    &&& e == KeyError::Signing(SigningError::MissingKeyId)
                    &&& signer.derives_key_id(key.details, None)
                },
            },
    {
        match signer.key_id(&key.details) {
            Some(key_id) => {
                let fingerprint = signer.fingerprint(&key.details);
                Ok(Issuer { algorithm: key.details.algorithm, key_id, fingerprint })
            },
            None => Err(KeyError::Signing(SigningError::MissingKeyId)),
        }
    }
}

/// The attributes outside the digest of every signature by `issuer`: the id
/// and the fingerprint of the signing key.
pub open spec fn issuer_subpackets(issuer: Issuer) -> Seq<SubpacketView> {
    seq![
        SubpacketView::Issuer(issuer.key_id),
        SubpacketView::IssuerFingerprint(issuer.fingerprint@),
    ]
}

/// What a key states of itself in every certification of one of its users.
pub struct Statement {
    pub keyflags: KeyFlags,
    pub preferred_symmetric_algorithms: Seq<SymmetricKeyAlgorithm>,
    pub preferred_hash_algorithms: Seq<HashAlgorithm>,
    pub preferred_compression_algorithms: Seq<CompressionAlgorithm>,
    pub revocation_key: Option<RevocationKey>,
}

/// The attributes inside the digest of a certification made at `created`:
/// for the primary user id the mark that it is the primary one; the time;
/// the key flags; the three lists of preferred algorithms; and the
/// revocation key, where there is one.
pub open spec fn certification_subpackets(
    statement: Statement,
    primary: bool,
    created: i64,
) -> Seq<SubpacketView> {
    let mark = if primary {
        seq![SubpacketView::IsPrimary(true)]
    } else {
        Seq::<SubpacketView>::empty()
    };
    let pointer = match statement.revocation_key {
        Some(key) => seq![SubpacketView::RevocationKey(key)],
        None => Seq::<SubpacketView>::empty(),
    };
    mark + seq![
        SubpacketView::SignatureCreationTime(created),
        SubpacketView::KeyFlags(seq![statement.keyflags.0]),
        SubpacketView::PreferredSymmetricAlgorithms(statement.preferred_symmetric_algorithms),
        SubpacketView::PreferredHashAlgorithms(statement.preferred_hash_algorithms),
        SubpacketView::PreferredCompressionAlgorithms(statement.preferred_compression_algorithms),
    ] + pointer
}

/// The configuration of a certification of a user id by `issuer`, made at
/// `created`: a generic certification, in the current format, hashed with
/// SHA-256.
pub open spec fn certification_config(
    statement: Statement,
    issuer: Issuer,
    primary: bool,
    created: i64,
) -> SignatureConfigView {
    SignatureConfigView {
        version: SignatureVersion::V4,
        typ: SignatureType::CertGeneric,
        pub_alg: issuer.algorithm,
        hash_alg: HashAlgorithm::SHA256,
        hashed_subpackets: certification_subpackets(statement, primary, created),
        unhashed_subpackets: issuer_subpackets(issuer),
    }
}

/// The configuration of a signature by `issuer`, made at `created`, that
/// binds a subkey with the capabilities `keyflags`: a subkey binding, in the
/// current format, hashed with SHA-256, with the time and the key flags
/// inside the digest.
pub open spec fn binding_config(keyflags: KeyFlags, issuer: Issuer, created: i64) -> SignatureConfigView {
    SignatureConfigView {
        version: SignatureVersion::V4,
        typ: SignatureType::SubkeyBinding,
        pub_alg: issuer.algorithm,
        hash_alg: HashAlgorithm::SHA256,
        hashed_subpackets: seq![
            SubpacketView::SignatureCreationTime(created),
            SubpacketView::KeyFlags(seq![keyflags.0]),
        ],
        unhashed_subpackets: issuer_subpackets(issuer),
    }
}

/// The two unhashed attributes that name `issuer`.
fn issuer_hints(issuer: &Issuer) -> (r: Vec<Subpacket>)
    ensures
        r.deep_view() == issuer_subpackets(*issuer),
{
    let mut r: Vec<Subpacket> = Vec::with_capacity(2);
    r.push(Subpacket::Issuer(issuer.key_id));
    r.push(Subpacket::IssuerFingerprint(copy_of(&issuer.fingerprint)));
    assert(r.deep_view() =~= issuer_subpackets(*issuer));
    r
}

/// Builds the configuration under which `issuer` binds a subkey with the
/// capabilities `keyflags` at the time `created`.
pub fn binding(keyflags: KeyFlags, issuer: &Issuer, created: i64) -> (config: SignatureConfig)
    ensures
        config@ == binding_config(keyflags, *issuer, created),
{
    let mut hashed: Vec<Subpacket> = Vec::with_capacity(2);
    hashed.push(Subpacket::SignatureCreationTime(created));
    hashed.push(Subpacket::KeyFlags(keyflags.to_bytes()));
    assert(hashed.deep_view() =~= binding_config(keyflags, *issuer, created).hashed_subpackets);
    SignatureConfig::new(
        SignatureType::SubkeyBinding,
        issuer.algorithm,
        hashed,
        issuer_hints(issuer),
    )
}

/// Identity and policy of a key: its users and what it states of itself.
#[derive(Debug, PartialEq, Eq)]
pub struct KeyDetails {
    pub primary_user_id: UserId,
    pub user_ids: Vec<UserId>,
    pub user_attributes: Vec<UserAttribute>,
    pub keyflags: KeyFlags,
    pub preferred_symmetric_algorithms: Vec<SymmetricKeyAlgorithm>,
    pub preferred_hash_algorithms: Vec<HashAlgorithm>,
    pub preferred_compression_algorithms: Vec<CompressionAlgorithm>,
    pub revocation_key: Option<RevocationKey>,
}

/// Builds the configuration under which `issuer` certifies a user id at the
/// time `created`, the primary one if `primary`.
pub fn certification(
    keyflags: KeyFlags,
    preferred_symmetric_algorithms: &Vec<SymmetricKeyAlgorithm>,
    preferred_hash_algorithms: &Vec<HashAlgorithm>,
    preferred_compression_algorithms: &Vec<CompressionAlgorithm>,
    revocation_key: Option<RevocationKey>,
    issuer: &Issuer,
    primary: bool,
    created: i64,
) -> (config: SignatureConfig)
    ensures
        config@ == certification_config(
            Statement {
                keyflags,
                preferred_symmetric_algorithms: preferred_symmetric_algorithms@,
                preferred_hash_algorithms: preferred_hash_algorithms@,
                preferred_compression_algorithms: preferred_compression_algorithms@,
                revocation_key,
            },
            *issuer,
            primary,
            created,
        ),
{
    let ghost statement = Statement {
        keyflags,
        preferred_symmetric_algorithms: preferred_symmetric_algorithms@,
        preferred_hash_algorithms: preferred_hash_algorithms@,
        preferred_compression_algorithms: preferred_compression_algorithms@,
        revocation_key,
    };
    let mut hashed: Vec<Subpacket> = Vec::with_capacity(7);
    if primary {
        hashed.push(Subpacket::IsPrimary(true));
    }
    hashed.push(Subpacket::SignatureCreationTime(created));
    hashed.push(Subpacket::KeyFlags(keyflags.to_bytes()));
    hashed.push(Subpacket::PreferredSymmetricAlgorithms(copy_of(preferred_symmetric_algorithms)));
    hashed.push(Subpacket::PreferredHashAlgorithms(copy_of(preferred_hash_algorithms)));
    hashed.push(
        Subpacket::PreferredCompressionAlgorithms(copy_of(preferred_compression_algorithms)),
    );
    if let Some(key) = revocation_key {
        hashed.push(Subpacket::RevocationKey(key));
    }
    assert(hashed.deep_view() =~= certification_subpackets(statement, primary, created));
    SignatureConfig::new(SignatureType::CertGeneric, issuer.algorithm, hashed, issuer_hints(issuer))
}

/// Whether `user` is the user id `id` with one certification: made by
/// `signer` with `key`, unlocked with `passphrase`, under the configuration
/// of a certification by `issuer` at some time.
pub open spec fn certified<S: Signer>(
    signer: &S,
    key: packet::SecretKey,
    passphrase: Seq<char>,
    statement: Statement,
    issuer: Issuer,
    primary: bool,
    id: UserId,
    user: SignedUser,
) -> bool {
    &&& user.id == id
    &&& user.signatures@.len() == 1
    &&& exists|created: i64|
        user.signatures@[0].config@ == #[trigger] certification_config(
            statement,
            issuer,
            primary,
            created,
        )
    &&& signer.certifies(
        key,
        passphrase,
        user.signatures@[0].config@,
        id,
        Ok(user.signatures@[0].value),
    )
}

/// Whether `signer` refused, with `message`, to certify the user id `id`
/// with `key`, unlocked with `passphrase`, under the configuration of a
/// certification by `issuer` at some time.
pub open spec fn certification_refused<S: Signer>(
    signer: &S,
    key: packet::SecretKey,
    passphrase: Seq<char>,
    statement: Statement,
    issuer: Issuer,
    primary: bool,
    id: UserId,
    message: String,
) -> bool {
    exists|created: i64|
        signer.certifies(
            key,
            passphrase,
            #[trigger] certification_config(statement, issuer, primary, created),
            id,
            Err(message),
        )
}

/// Whether `signed` is the user attribute `attribute` with one
/// certification, made by `signer` with `key`, unlocked with `passphrase`.
pub open spec fn attribute_certified<S: Signer>(
    signer: &S,
    key: packet::SecretKey,
    passphrase: Seq<char>,
    attribute: UserAttribute,
    signed: SignedUserAttribute,
) -> bool {
    &&& signed.attr == attribute
    &&& signed.signatures@.len() == 1
    &&& signer.certifies_attribute(key, passphrase, attribute, Ok(signed.signatures@[0]))
}

/// Certifies the user id `id` at the present time.
fn certify_user<S: Signer>(
    signer: &S,
    key: &packet::SecretKey,
    passphrase: &str,
    keyflags: KeyFlags,
    preferred_symmetric_algorithms: &Vec<SymmetricKeyAlgorithm>,
    preferred_hash_algorithms: &Vec<HashAlgorithm>,
    preferred_compression_algorithms: &Vec<CompressionAlgorithm>,
    revocation_key: Option<RevocationKey>,
    issuer: &Issuer,
    primary: bool,
    id: UserId,
) -> (r: Result<SignedUser, KeyError>)
    ensures
        match r {
            Ok(user) => certified(
                signer,
                *key,
                passphrase@,
                Statement {
                    keyflags,
                    preferred_symmetric_algorithms: preferred_symmetric_algorithms@,
                    preferred_hash_algorithms: preferred_hash_algorithms@,
                    preferred_compression_algorithms: preferred_compression_algorithms@,
                    revocation_key,
                },
                *issuer,
                primary,
                id,
                user,
            ),
            Err(e) => e matches KeyError::Signing(SigningError::Failed(message))
                && certification_refused(
                signer,
                *key,
                passphrase@,
                Statement {
                    keyflags,
                    preferred_symmetric_algorithms: preferred_symmetric_algorithms@,
                    preferred_hash_algorithms: preferred_hash_algorithms@,
                    preferred_compression_algorithms: preferred_compression_algorithms@,
                    revocation_key,
                },
                *issuer,
                primary,
                id,
                message,
            ),
        },
{
    let config = certification(
        keyflags,
        preferred_symmetric_algorithms,
        preferred_hash_algorithms,
        preferred_compression_algorithms,
        revocation_key,
        issuer,
        primary,
        now(),
    );
    match signer.sign_certificate(key, passphrase, &config, &id) {
        Ok(value) => Ok(SignedUser::new(id, Signature { config, value })),
        Err(message) => Err(KeyError::Signing(SigningError::Failed(message))),
    }
}

impl KeyDetails {
    /// What this key states of itself in the certifications of its users.
    pub open spec fn statement(&self) -> Statement {
        Statement {
            keyflags: self.keyflags,
            preferred_symmetric_algorithms: self.preferred_symmetric_algorithms@,
            preferred_hash_algorithms: self.preferred_hash_algorithms@,
            preferred_compression_algorithms: self.preferred_compression_algorithms@,
            revocation_key: self.revocation_key,
        }
    }

    /// Whether `signed` is these details certified by `signer` with `key`,
    /// unlocked with `passphrase` and named as `issuer`.
    ///
    /// The users stand in order: the primary user id first, marked as the
    /// primary one, then the other user ids as they stand in the list. Each
    /// has one certification. The user attributes follow the same order,
    /// each with one certification. There are no other signatures.
    pub open spec fn certified_by<S: Signer>(
        &self,
        signer: &S,
        key: packet::SecretKey,
        issuer: Issuer,
        passphrase: Seq<char>,
        signed: SignedKeyDetails,
    ) -> bool {
        &&& signed.revocation_signatures@.len() == 0
        &&& signed.direct_signatures@.len() == 0
        &&& signed.users@.len() == 1 + self.user_ids@.len()
        &&& certified(
            signer,
            key,
            passphrase,
            self.statement(),
            issuer,
            true,
            self.primary_user_id,
            signed.users@[0],
        )
        &&& forall|i: int|
            1 <= i <= self.user_ids@.len() ==> certified(
                signer,
                key,
                passphrase,
                self.statement(),
                issuer,
                false,
                self.user_ids@[i - 1],
                #[trigger] signed.users@[i],
            )
        &&& signed.user_attributes@.len() == self.user_attributes@.len()
        &&& forall|j: int|
            0 <= j < self.user_attributes@.len() ==> attribute_certified(
                signer,
                key,
                passphrase,
                self.user_attributes@[j],
                #[trigger] signed.user_attributes@[j],
            )
    }

    /// Whether `signer` refused, with `message`, one of the signatures that
    /// certify these details: that over the primary user id, or over one of
    /// the other user ids, or over one of the user attributes.
    pub open spec fn refused_by<S: Signer>(
        &self,
        signer: &S,
        key: packet::SecretKey,
        issuer: Issuer,
        passphrase: Seq<char>,
        message: String,
    ) -> bool {
        ||| certification_refused(
            signer,
            key,
            passphrase,
            self.statement(),
            issuer,
            true,
            self.primary_user_id,
            message,
        )
        ||| exists|i: int|
            0 <= i < self.user_ids@.len() && certification_refused(
                signer,
                key,
                passphrase,
                self.statement(),
                issuer,
                false,
                #[trigger] self.user_ids@[i],
                message,
            )
        ||| exists|j: int|
            0 <= j < self.user_attributes@.len() && signer.certifies_attribute(
                key,
                passphrase,
                #[trigger] self.user_attributes@[j],
                Err(message),
            )
    }

    /// Certifies the users of the key with `key`, named as `issuer` and
    /// unlocked with `passphrase`: the primary user id first, then the other
    /// user ids in their order, then the user attributes in theirs. The
    /// first signature that `signer` fails to make ends it.
    pub fn certify<S: Signer>(
        self,
        key: &packet::SecretKey,
        signer: &S,
        issuer: &Issuer,
        passphrase: &str,
    ) -> (r: Result<SignedKeyDetails, KeyError>)
        ensures
            match r {
                Ok(signed) => self.certified_by(signer, *key, *issuer, passphrase@, signed),
                Err(e) => e matches KeyError::Signing(SigningError::Failed(message))
                    && self.refused_by(signer, *key, *issuer, passphrase@, message),
            },
    {
        let ghost statement = self.statement();
        let KeyDetails {
            primary_user_id,
            user_ids,
            user_attributes,
            keyflags,
            preferred_symmetric_algorithms,
            preferred_hash_algorithms,
            preferred_compression_algorithms,
            revocation_key,
        } = self;
        let mut users: Vec<SignedUser> = Vec::new();
        let first = match certify_user(
            signer,
            key,
            passphrase,
            keyflags,
            &preferred_symmetric_algorithms,
            &preferred_hash_algorithms,
            &preferred_compression_algorithms,
            revocation_key,
            issuer,
            true,
            primary_user_id,
        ) {
            Ok(user) => user,
            Err(e) => {
                return Err(e);
            },
        };
        users.push(first);
        let ghost ids = user_ids@;
        for id in iter: user_ids
            invariant
                iter.seq() == ids,
                ids == self.user_ids@,
                statement == self.statement(),
                statement == (Statement {
                    keyflags,
                    preferred_symmetric_algorithms: preferred_symmetric_algorithms@,
                    preferred_hash_algorithms: preferred_hash_algorithms@,
                    preferred_compression_algorithms: preferred_compression_algorithms@,
                    revocation_key,
                }),
                users@.len() == 1 + iter.index(),
                certified(
                    signer,
                    *key,
                    passphrase@,
                    statement,
                    *issuer,
                    true,
                    primary_user_id,
                    users@[0],
                ),
                forall|i: int|
                    1 <= i <= iter.index() ==> certified(
                        signer,
                        *key,
                        passphrase@,
                        statement,
                        *issuer,
                        false,
                        ids[i - 1],
                        #[trigger] users@[i],
                    ),
        {
            let ghost at = users@.len() - 1;
            let user = match certify_user(
                signer,
                key,
                passphrase,
                keyflags,
                &preferred_symmetric_algorithms,
                &preferred_hash_algorithms,
                &preferred_compression_algorithms,
                revocation_key,
                issuer,
                false,
                id,
            ) {
                Ok(user) => user,
                Err(e) => {
                    assert(0 <= at < ids.len() && ids[at] == id);
                    return Err(e);
                },
            };
            users.push(user);
        }
        let ghost attributes = user_attributes@;
        let mut signed_attributes: Vec<SignedUserAttribute> = Vec::new();
        for attribute in iter: user_attributes
            invariant
                iter.seq() == attributes,
                attributes == self.user_attributes@,
                signed_attributes@.len() == iter.index(),
                forall|j: int|
                    0 <= j < iter.index() ==> attribute_certified(
                        signer,
                        *key,
                        passphrase@,
                        attributes[j],
                        #[trigger] signed_attributes@[j],
                    ),
        {
            let ghost at = signed_attributes@.len() as int;
            match signer.sign_user_attribute(key, passphrase, &attribute) {
                Ok(signature) => {
                    signed_attributes.push(SignedUserAttribute::new(attribute, signature));
                },
                Err(message) => {
                    assert(0 <= at < attributes.len() && attributes[at] == attribute);
                    return Err(KeyError::Signing(SigningError::Failed(message)));
                },
            }
        }
        Ok(
            SignedKeyDetails {
                revocation_signatures: Vec::new(),
                direct_signatures: Vec::new(),
                users,
                user_attributes: signed_attributes,
            },
        )
    }
}

/// An unsigned public subkey with its capabilities.
#[derive(Debug, PartialEq, Eq)]
pub struct PublicSubkey {
    pub key: packet::PublicSubkey,
    pub keyflags: KeyFlags,
}

/// An unsigned secret subkey with its capabilities.
#[derive(Debug, PartialEq, Eq)]
pub struct SecretSubkey {
    pub key: packet::SecretSubkey,
    pub keyflags: KeyFlags,
}

/// What a signing run may end with: the signed value `signed`, made with a
/// name of `key` that `signer` derived and with a passphrase that `key_pw`
/// returned, as `made` says; or the missing key id, where the signer derived
/// none; or a message with which the signer refused a signature, as
/// `refused` says, under such a name and passphrase.
pub open spec fn signing_outcome<S: Signer, F: FnOnce() -> String, T>(
    signer: &S,
    key: packet::SecretKey,
    key_pw: F,
    r: Result<T, KeyError>,
    made: spec_fn(Issuer, Seq<char>, T) -> bool,
    refused: spec_fn(Issuer, Seq<char>, String) -> bool,
) -> bool {
    match r {
        Ok(signed) => exists|issuer: Issuer, passphrase: String|
            {
                &&& #[trigger] issuer.names(signer, key)
                &&& #[trigger] key_pw.ensures((), passphrase)
                &&& made(issuer, passphrase@, signed)
            },
        Err(KeyError::Signing(SigningError::MissingKeyId)) => signer.derives_key_id(
            key.details,
            None,
        ),
        Err(KeyError::Signing(SigningError::Failed(message))) => exists|
            issuer: Issuer,
            passphrase: String,
        |
            {
                &&& #[trigger] issuer.names(signer, key)
                &&& #[trigger] key_pw.ensures((), passphrase)
                &&& refused(issuer, passphrase@, message)
            },
        Err(_) => false,
    }
}

impl PublicSubkey {
    /// Whether `signed` is this subkey with one signature that binds it:
    /// made by `signer` with `key`, unlocked with `passphrase`, under the
    /// configuration of a binding by `issuer` at some time.
    pub open spec fn bound_by<S: Signer>(
        &self,
        signer: &S,
        key: packet::SecretKey,
        issuer: Issuer,
        passphrase: Seq<char>,
        signed: SignedPublicSubKey,
    ) -> bool {
        &&& signed.key == self.key
        &&& signed.signatures@.len() == 1
        &&& exists|created: i64|
            signed.signatures@[0].config@ == #[trigger] binding_config(
                self.keyflags,
                issuer,
                created,
            )
        &&& signer.binds_public(
            key,
            passphrase,
            signed.signatures@[0].config@,
            self.key,
            Ok(signed.signatures@[0].value),
        )
    }

    /// Whether `signer` refused, with `message`, to bind this subkey with
    /// `key`, unlocked with `passphrase`, under the configuration of a
    /// binding by `issuer` at some time.
    pub open spec fn refused_by<S: Signer>(
        &self,
        signer: &S,
        key: packet::SecretKey,
        issuer: Issuer,
        passphrase: Seq<char>,
        message: String,
    ) -> bool {
        exists|created: i64|
            signer.binds_public(
                key,
                passphrase,
                #[trigger] binding_config(self.keyflags, issuer, created),
                self.key,
                Err(message),
            )
    }

    /// Binds the subkey to the primary key `key`, named as `issuer` and
    /// unlocked with `passphrase`, at the present time.
    pub fn bind<S: Signer>(
        self,
        key: &packet::SecretKey,
        signer: &S,
        issuer: &Issuer,
        passphrase: &str,
    ) -> (r: Result<SignedPublicSubKey, KeyError>)
        ensures
            match r {
                Ok(signed) => self.bound_by(signer, *key, *issuer, passphrase@, signed),
                Err(e) => e matches KeyError::Signing(SigningError::Failed(message))
                    && self.refused_by(signer, *key, *issuer, passphrase@, message),
            },
    {
        let config = binding(self.keyflags, issuer, now());
        match signer.sign_key(key, passphrase, &config, &self.key) {
            Ok(value) => {
                let mut signatures = Vec::with_capacity(1);
                signatures.push(Signature { config, value });
                Ok(SignedPublicSubKey { key: self.key, signatures })
            },
            Err(message) => Err(KeyError::Signing(SigningError::Failed(message))),
        }
    }

    /// Binds the subkey to the primary key `sec_key`. The key's name is
    /// derived by `signer`, and `key_pw` is asked once for the passphrase
    /// that unlocks it.
    ///
    /// It fails where the signer derives no key id for `sec_key`, before
    /// `key_pw` is asked, and where the signer fails to sign.
    pub fn sign<S: Signer, F: FnOnce() -> String>(
        self,
        sec_key: &packet::SecretKey,
        key_pw: F,
        signer: &S,
    ) -> (r: Result<SignedPublicSubKey, KeyError>)
        requires
            key_pw.requires(()),
        ensures
            signing_outcome(
                signer,
                *sec_key,
                key_pw,
                r,
                |issuer: Issuer, passphrase: Seq<char>, signed: SignedPublicSubKey|
                    self.bound_by(signer, *sec_key, issuer, passphrase, signed),
                |issuer: Issuer, passphrase: Seq<char>, message: String|
                    self.refused_by(signer, *sec_key, issuer, passphrase, message),
            ),
    {
        let issuer = match Issuer::of(signer, sec_key) {
            Ok(issuer) => issuer,
            Err(e) => {
                return Err(e);
            },
        };
        let passphrase = key_pw();
        self.bind(sec_key, signer, &issuer, passphrase.as_str())
    }
}

impl SecretSubkey {
    /// Whether `signed` is this subkey with one signature that binds it:
    /// made by `signer` with `key`, unlocked with `passphrase`, over the
    /// subkey's secret packet, under the configuration of a binding by
    /// `issuer` at some time.
    pub open spec fn bound_by<S: Signer>(
        &self,
        signer: &S,
        key: packet::SecretKey,
        issuer: Issuer,
        passphrase: Seq<char>,
        signed: SignedSecretSubKey,
    ) -> bool {
        &&& signed.key == self.key
        &&& signed.signatures@.len() == 1
        &&& exists|created: i64|
            signed.signatures@[0].config@ == #[trigger] binding_config(
                self.keyflags,
                issuer,
                created,
            )
        &&& signer.binds_secret(
            key,
            passphrase,
            signed.signatures@[0].config@,
            self.key,
            Ok(signed.signatures@[0].value),
        )
    }

    /// Whether `signer` refused, with `message`, to bind this subkey with
    /// `key`, unlocked with `passphrase`, under the configuration of a
    /// binding by `issuer` at some time.
    pub open spec fn refused_by<S: Signer>(
        &self,
        signer: &S,
        key: packet::SecretKey,
        issuer: Issuer,
        passphrase: Seq<char>,
        message: String,
    ) -> bool {
        exists|created: i64|
            signer.binds_secret(
                key,
                passphrase,
                #[trigger] binding_config(self.keyflags, issuer, created),
                self.key,
                Err(message),
            )
    }

    /// Binds the subkey to the primary key `key`, named as `issuer` and
    /// unlocked with `passphrase`, at the present time.
    pub fn bind<S: Signer>(
        self,
        key: &packet::SecretKey,
        signer: &S,
        issuer: &Issuer,
        passphrase: &str,
    ) -> (r: Result<SignedSecretSubKey, KeyError>)
        ensures
            match r {
                Ok(signed) => self.bound_by(signer, *key, *issuer, passphrase@, signed),
                Err(e) => e matches KeyError::Signing(SigningError::Failed(message))
                    && self.refused_by(signer, *key, *issuer, passphrase@, message),
            },
    {
        let config = binding(self.keyflags, issuer, now());
        match signer.sign_key_binding(key, passphrase, &config, &self.key) {
            Ok(value) => {
                let mut signatures = Vec::with_capacity(1);
                signatures.push(Signature { config, value });
                Ok(SignedSecretSubKey { key: self.key, signatures })
            },
            Err(message) => Err(KeyError::Signing(SigningError::Failed(message))),
        }
    }

    /// Binds the subkey to the primary key `sec_key`. The key's name is
    /// derived by `signer`, and `key_pw` is asked once for the passphrase
    /// that unlocks it.
    ///
    /// It fails where the signer derives no key id for `sec_key`, before
    /// `key_pw` is asked, and where the signer fails to sign.
    pub fn sign<S: Signer, F: FnOnce() -> String>(
        self,
        sec_key: &packet::SecretKey,
        key_pw: F,
        signer: &S,
    ) -> (r: Result<SignedSecretSubKey, KeyError>)
        requires
            key_pw.requires(()),
        ensures
            signing_outcome(
                signer,
                *sec_key,
                key_pw,
                r,
                |issuer: Issuer, passphrase: Seq<char>, signed: SignedSecretSubKey|
                    self.bound_by(signer, *sec_key, issuer, passphrase, signed),
                |issuer: Issuer, passphrase: Seq<char>, message: String|
                    self.refused_by(signer, *sec_key, issuer, passphrase, message),
            ),
    {
        let issuer = match Issuer::of(signer, sec_key) {
            Ok(issuer) => issuer,
            Err(e) => {
                return Err(e);
            },
        };
        let passphrase = key_pw();
        self.bind(sec_key, signer, &issuer, passphrase.as_str())
    }
}

impl KeyDetails {
    /// Certifies the users of the key with `key`: the primary user id first,
    /// then the other user ids in their order, then the user attributes in
    /// theirs. The key's name is derived by `signer`, and `key_pw` is asked
    /// once for the passphrase that unlocks it, so that every signature is
    /// made with the same passphrase.
    ///
    /// It fails where the signer derives no key id for `key`, before
    /// `key_pw` is asked, and where the signer fails to sign.
    pub fn sign<S: Signer, F: FnOnce() -> String>(
        self,
        key: &packet::SecretKey,
        key_pw: F,
        signer: &S,
    ) -> (r: Result<SignedKeyDetails, KeyError>)
        requires
            key_pw.requires(()),
        ensures
            signing_outcome(
                signer,
                *key,
                key_pw,
                r,
                |issuer: Issuer, passphrase: Seq<char>, signed: SignedKeyDetails|
                    self.certified_by(signer, *key, issuer, passphrase, signed),
                |issuer: Issuer, passphrase: Seq<char>, message: String|
                    self.refused_by(signer, *key, issuer, passphrase, message),
            ),
            r matches Ok(signed) ==> {
                &&& signed.users@.len() == 1 + self.user_ids@.len()
                &&& signed.users@[0].id == self.primary_user_id
                &&& forall|i: int|
                    1 <= i <= self.user_ids@.len() ==> (#[trigger] signed.users@[i]).id
                        == self.user_ids@[i - 1]
            },
    {
        let issuer = match Issuer::of(signer, key) {
            Ok(issuer) => issuer,
            Err(e) => {
                return Err(e);
            },
        };
        let passphrase = key_pw();
        self.certify(key, signer, &issuer, passphrase.as_str())
    }
}

/// An unsigned public key: the primary key, its details and its subkeys.
#[derive(Debug, PartialEq, Eq)]
pub struct PublicKey {
    pub primary_key: packet::PublicKey,
    pub details: KeyDetails,
    pub public_subkeys: Vec<PublicSubkey>,
}

/// An unsigned secret key: the primary key with its secret part, its
/// details and its subkeys.
#[derive(Debug, PartialEq, Eq)]
pub struct SecretKey {
    pub primary_key: packet::SecretKey,
    pub details: KeyDetails,
    pub public_subkeys: Vec<PublicSubkey>,
    pub secret_subkeys: Vec<SecretSubkey>,
}

/// Whether `signed` holds the subkeys `subkeys` in their order, each bound
/// by `signer` with `key`.
pub open spec fn public_subkeys_bound<S: Signer>(
    subkeys: Seq<PublicSubkey>,
    signer: &S,
    key: packet::SecretKey,
    issuer: Issuer,
    passphrase: Seq<char>,
    signed: Seq<SignedPublicSubKey>,
) -> bool {
    &&& signed.len() == subkeys.len()
    &&& forall|i: int|
        0 <= i < subkeys.len() ==> subkeys[i].bound_by(
            signer,
            key,
            issuer,
            passphrase,
            #[trigger] signed[i],
        )
}

/// Whether `signed` holds the subkeys `subkeys` in their order, each bound
/// by `signer` with `key`.
pub open spec fn secret_subkeys_bound<S: Signer>(
    subkeys: Seq<SecretSubkey>,
    signer: &S,
    key: packet::SecretKey,
    issuer: Issuer,
    passphrase: Seq<char>,
    signed: Seq<SignedSecretSubKey>,
) -> bool {
    &&& signed.len() == subkeys.len()
    &&& forall|i: int|
        0 <= i < subkeys.len() ==> subkeys[i].bound_by(
            signer,
            key,
            issuer,
            passphrase,
            #[trigger] signed[i],
        )
}

/// Whether `signer` refused, with `message`, to bind one of `subkeys`.
pub open spec fn public_subkey_refused<S: Signer>(
    subkeys: Seq<PublicSubkey>,
    signer: &S,
    key: packet::SecretKey,
    issuer: Issuer,
    passphrase: Seq<char>,
    message: String,
) -> bool {
    exists|i: int|
        0 <= i < subkeys.len() && (#[trigger] subkeys[i]).refused_by(
            signer,
            key,
            issuer,
            passphrase,
            message,
        )
}

/// Whether `signer` refused, with `message`, to bind one of `subkeys`.
pub open spec fn secret_subkey_refused<S: Signer>(
    subkeys: Seq<SecretSubkey>,
    signer: &S,
    key: packet::SecretKey,
    issuer: Issuer,
    passphrase: Seq<char>,
    message: String,
) -> bool {
    exists|i: int|
        0 <= i < subkeys.len() && (#[trigger] subkeys[i]).refused_by(
            signer,
            key,
            issuer,
            passphrase,
            message,
        )
}

/// Binds each of the public subkeys, in their order.
fn bind_public_subkeys<S: Signer>(
    subkeys: Vec<PublicSubkey>,
    key: &packet::SecretKey,
    signer: &S,
    issuer: &Issuer,
    passphrase: &str,
) -> (r: Result<Vec<SignedPublicSubKey>, KeyError>)
    ensures
        match r {
            Ok(signed) => public_subkeys_bound(
                subkeys@,
                signer,
                *key,
                *issuer,
                passphrase@,
                signed@,
            ),
            Err(e) => e matches KeyError::Signing(SigningError::Failed(message))
                && public_subkey_refused(subkeys@, signer, *key, *issuer, passphrase@, message),
        },
{
    let ghost all = subkeys@;
    let mut signed: Vec<SignedPublicSubKey> = Vec::new();
    for subkey in iter: subkeys
        invariant
            iter.seq() == all,
            all == subkeys@,
            signed@.len() == iter.index(),
            forall|i: int|
                0 <= i < iter.index() ==> all[i].bound_by(
                    signer,
                    *key,
                    *issuer,
                    passphrase@,
                    #[trigger] signed@[i],
                ),
    {
        let ghost at = signed@.len() as int;
        match subkey.bind(key, signer, issuer, passphrase) {
            Ok(bound) => {
                signed.push(bound);
            },
            Err(e) => {
                assert(0 <= at < all.len() && all[at] == subkey);
                return Err(e);
            },
        }
    }
    Ok(signed)
}

/// Binds each of the secret subkeys, in their order.
fn bind_secret_subkeys<S: Signer>(
    subkeys: Vec<SecretSubkey>,
    key: &packet::SecretKey,
    signer: &S,
    issuer: &Issuer,
    passphrase: &str,
) -> (r: Result<Vec<SignedSecretSubKey>, KeyError>)
    ensures
        match r {
            Ok(signed) => secret_subkeys_bound(
                subkeys@,
                signer,
                *key,
                *issuer,
                passphrase@,
                signed@,
            ),
            Err(e) => e matches KeyError::Signing(SigningError::Failed(message))
                && secret_subkey_refused(subkeys@, signer, *key, *issuer, passphrase@, message),
        },
{
    let ghost all = subkeys@;
    let mut signed: Vec<SignedSecretSubKey> = Vec::new();
    for subkey in iter: subkeys
        invariant
            iter.seq() == all,
            all == subkeys@,
            signed@.len() == iter.index(),
            forall|i: int|
                0 <= i < iter.index() ==> all[i].bound_by(
                    signer,
                    *key,
                    *issuer,
                    passphrase@,
                    #[trigger] signed@[i],
                ),
    {
        let ghost at = signed@.len() as int;
        match subkey.bind(key, signer, issuer, passphrase) {
            Ok(bound) => {
                signed.push(bound);
            },
            Err(e) => {
                assert(0 <= at < all.len() && all[at] == subkey);
                return Err(e);
            },
        }
    }
    Ok(signed)
}

impl PublicKey {
    /// Whether `signed` is this key certified by `signer` with `key`,
    /// unlocked with `passphrase` and named as `issuer`: the primary key as
    /// it was, the certified details, and every public subkey bound, in
    /// order.
    pub open spec fn certified_by<S: Signer>(
        &self,
        signer: &S,
        key: packet::SecretKey,
        issuer: Issuer,
        passphrase: Seq<char>,
        signed: SignedPublicKey,
    ) -> bool {
        &&& signed.primary_key == self.primary_key
        &&& self.details.certified_by(signer, key, issuer, passphrase, signed.details)
        &&& public_subkeys_bound(
            self.public_subkeys@,
            signer,
            key,
            issuer,
            passphrase,
            signed.public_subkeys@,
        )
    }

    /// Whether `signer` refused, with `message`, one of the signatures that
    /// certify this key: one over the details, or the binding of a public
    /// subkey.
    pub open spec fn refused_by<S: Signer>(
        &self,
        signer: &S,
        key: packet::SecretKey,
        issuer: Issuer,
        passphrase: Seq<char>,
        message: String,
    ) -> bool {
        ||| self.details.refused_by(signer, key, issuer, passphrase, message)
        ||| public_subkey_refused(
            self.public_subkeys@,
            signer,
            key,
            issuer,
            passphrase,
            message,
        )
    }

    /// Certifies the key with the secret key `sec_key`, which the caller
    /// supplies: first the details, then each public subkey in order. The
    /// signing key's name is derived by `signer`, and `key_pw` is asked once
    /// for the passphrase that unlocks it.
    ///
    /// It fails where the signer derives no key id for `sec_key`, before
    /// `key_pw` is asked, and at the first signature that the signer fails
    /// to make. No part of a signed key is returned then.
    pub fn sign<S: Signer, F: FnOnce() -> String>(
        self,
        sec_key: &packet::SecretKey,
        key_pw: F,
        signer: &S,
    ) -> (r: Result<SignedPublicKey, KeyError>)
        requires
            key_pw.requires(()),
        ensures
            signing_outcome(
                signer,
                *sec_key,
                key_pw,
                r,
                |issuer: Issuer, passphrase: Seq<char>, signed: SignedPublicKey|
                    self.certified_by(signer, *sec_key, issuer, passphrase, signed),
                |issuer: Issuer, passphrase: Seq<char>, message: String|
                    self.refused_by(signer, *sec_key, issuer, passphrase, message),
            ),
    {
        let issuer = match Issuer::of(signer, sec_key) {
            Ok(issuer) => issuer,
            Err(e) => {
                return Err(e);
            },
        };
        let passphrase = key_pw();
        let primary_key = self.primary_key;
        let details = match self.details.certify(sec_key, signer, &issuer, passphrase.as_str()) {
            Ok(details) => details,
            Err(e) => {
                return Err(e);
            },
        };
        let public_subkeys = match bind_public_subkeys(
            self.public_subkeys,
            sec_key,
            signer,
            &issuer,
            passphrase.as_str(),
        ) {
            Ok(subkeys) => subkeys,
            Err(e) => {
                return Err(e);
            },
        };
        Ok(SignedPublicKey { primary_key, details, public_subkeys })
    }
}

impl SecretKey {
    /// Whether `signed` is this key certified by `signer` with its own
    /// primary key, unlocked with `passphrase` and named as `issuer`: the
    /// primary key as it was, the certified details, every public subkey
    /// bound, in order, and every secret subkey bound, in order.
    pub open spec fn certified_by<S: Signer>(
        &self,
        signer: &S,
        issuer: Issuer,
        passphrase: Seq<char>,
        signed: SignedSecretKey,
    ) -> bool {
        &&& signed.primary_key == self.primary_key
        &&& self.details.certified_by(
            signer,
            self.primary_key,
            issuer,
            passphrase,
            signed.details,
        )
        &&& public_subkeys_bound(
            self.public_subkeys@,
            signer,
            self.primary_key,
            issuer,
            passphrase,
            signed.public_subkeys@,
        )
        &&& secret_subkeys_bound(
            self.secret_subkeys@,
            signer,
            self.primary_key,
            issuer,
            passphrase,
            signed.secret_subkeys@,
        )
    }

    /// Whether `signer` refused, with `message`, one of the signatures that
    /// certify this key: one over the details, or the binding of a public
    /// or of a secret subkey.
    pub open spec fn refused_by<S: Signer>(
        &self,
        signer: &S,
        issuer: Issuer,
        passphrase: Seq<char>,
        message: String,
    ) -> bool {
        ||| self.details.refused_by(signer, self.primary_key, issuer, passphrase, message)
        ||| public_subkey_refused(
            self.public_subkeys@,
            signer,
            self.primary_key,
            issuer,
            passphrase,
            message,
        )
        ||| secret_subkey_refused(
            self.secret_subkeys@,
            signer,
            self.primary_key,
            issuer,
            passphrase,
            message,
        )
    }

    /// Certifies the key with its own primary secret key: first the
    /// details, then each public subkey in order, then each secret subkey
    /// in order. The key's name is derived by `signer`, and `key_pw` is
    /// asked once for the passphrase that unlocks it.
    ///
    /// It fails where the signer derives no key id for the primary key,
    /// before `key_pw` is asked, and at the first signature that the signer
    /// fails to make. No part of a signed key is returned then.
    pub fn sign<S: Signer, F: FnOnce() -> String>(self, key_pw: F, signer: &S) -> (r: Result<
        SignedSecretKey,
        KeyError,
    >)
        requires
            key_pw.requires(()),
        ensures
            signing_outcome(
                signer,
                self.primary_key,
                key_pw,
                r,
                |issuer: Issuer, passphrase: Seq<char>, signed: SignedSecretKey|
                    self.certified_by(signer, issuer, passphrase, signed),
                |issuer: Issuer, passphrase: Seq<char>, message: String|
                    self.refused_by(signer, issuer, passphrase, message),
            ),
    {
        let primary_key = self.primary_key;
        let issuer = match Issuer::of(signer, &primary_key) {
            Ok(issuer) => issuer,
            Err(e) => {
                return Err(e);
            },
        };
        let passphrase = key_pw();
        let details = match self.details.certify(
            &primary_key,
            signer,
            &issuer,
            passphrase.as_str(),
        ) {
            Ok(details) => details,
            Err(e) => {
                return Err(e);
            },
        };
        let public_subkeys = match bind_public_subkeys(
            self.public_subkeys,
            &primary_key,
            signer,
            &issuer,
            passphrase.as_str(),
        ) {
            Ok(subkeys) => subkeys,
            Err(e) => {
                return Err(e);
            },
        };
        let secret_subkeys = match bind_secret_subkeys(
            self.secret_subkeys,
            &primary_key,
            signer,
            &issuer,
            passphrase.as_str(),
        ) {
            Ok(subkeys) => subkeys,
            Err(e) => {
                return Err(e);
            },
        };
        Ok(SignedSecretKey { primary_key, details, public_subkeys, secret_subkeys })
    }
}

} // verus!
