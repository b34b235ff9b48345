use pgp_keygen::key::binding;
use pgp_keygen::key::certification;
use pgp_keygen::packet;
use pgp_keygen::packet::KeyFlags;
use pgp_keygen::packet::Signature;
use pgp_keygen::packet::SignatureConfig;
use pgp_keygen::packet::SignatureType;
use pgp_keygen::packet::SignatureValue;
use pgp_keygen::packet::SignatureVersion;
use pgp_keygen::packet::Subpacket;
use pgp_keygen::packet::UserAttribute;
use pgp_keygen::packet::UserId;
use pgp_keygen::Ciphertext;
use pgp_keygen::CompressionAlgorithm;
use pgp_keygen::HashAlgorithm;
use pgp_keygen::Issuer;
use pgp_keygen::KeyDetails;
use pgp_keygen::KeyError;
use pgp_keygen::KeyId;
use pgp_keygen::KeyType;
use pgp_keygen::KeyVersion;
use pgp_keygen::PlainSecretParams;
use pgp_keygen::PublicKey;
use pgp_keygen::PublicKeyAlgorithm;
use pgp_keygen::PublicParams;
use pgp_keygen::PublicSubkey;
use pgp_keygen::RevocationKey;
use pgp_keygen::SecretKey;
use pgp_keygen::SecretKeyParamsBuilder;
use pgp_keygen::SecretParams;
use pgp_keygen::SecretProtector;
use pgp_keygen::SecretSubkey;
use pgp_keygen::SignedSecretKey;
use pgp_keygen::Signer;
use pgp_keygen::SigningError;
use pgp_keygen::StringToKey;
use pgp_keygen::StringToKeyType;
use pgp_keygen::SubkeyParamsBuilder;
use pgp_keygen::SymmetricKeyAlgorithm;
use pgp_keygen::Version;
use std::cell::Cell;

fn digest(text: &str) -> [u8; 8] {
    let mut h: u64 = 0xcbf29ce484222325;
    for b in text.as_bytes() {
        h ^= *b as u64;
        h = h.wrapping_mul(0x100000001b3);
    }
    h.to_be_bytes()
}

/// A toy in place of real cryptography: it keeps the plain material beside a
/// digest of the passphrase, and "signs" by digesting what it was handed.
struct Toy {
    with_key_id: bool,
    fail_on: Option<&'static str>,
}

fn toy() -> Toy {
    Toy { with_key_id: true, fail_on: None }
}

impl SecretProtector for Toy {
    fn encrypt(
        &self,
        plain: &PlainSecretParams,
        passphrase: &str,
        _alg: SymmetricKeyAlgorithm,
        _version: KeyVersion,
        _checksum: u8,
    ) -> Result<Ciphertext, String> {
        let mut data = digest(passphrase).to_vec();
        data.extend_from_slice(format!("{:?}", plain).as_bytes());
        Ok(Ciphertext {
            data,
            iv: vec![0; 16],
            string_to_key: StringToKey {
                typ: StringToKeyType::IteratedAndSalted,
                hash: HashAlgorithm::SHA256,
                salt: Some(vec![0; 8]),
                count: Some(224),
            },
        })
    }
}

/// Unlocks the toy's protection: the plain material, rendered as text.
fn unlock(secret: &SecretParams, passphrase: &str) -> Result<String, String> {
    match secret {
        SecretParams::Plain(plain) => Ok(format!("{:?}", plain)),
        SecretParams::Encrypted(encrypted) => {
            if encrypted.data[..8] != digest(passphrase)[..] {
                return Err("wrong passphrase".to_string());
            }
            Ok(String::from_utf8(encrypted.data[8..].to_vec()).unwrap())
        },
    }
}

fn toy_signature(public: &PublicParams, config: &SignatureConfig, subject: &str) -> SignatureValue {
    let d = digest(&format!("{:?}|{:?}|{}", public, config, subject));
    SignatureValue { signed_hash_value: [d[0], d[1]], signature: vec![d.to_vec()] }
}

impl Toy {
    fn make(
        &self,
        key: &packet::SecretKey,
        passphrase: &str,
        config: &SignatureConfig,
        kind: &'static str,
        subject: String,
    ) -> Result<SignatureValue, String> {
        if self.fail_on == Some(kind) {
            return Err(format!("cannot sign {}", kind));
        }
        unlock(&key.secret_params, passphrase)?;
        Ok(toy_signature(&key.details.public_params, config, &subject))
    }
}

impl Signer for Toy {
    fn key_id(&self, key: &packet::PublicKey) -> Option<KeyId> {
        if self.with_key_id {
            Some(KeyId(digest(&format!("{:?}", key.public_params))))
        } else {
            None
        }
    }

    fn fingerprint(&self, key: &packet::PublicKey) -> Vec<u8> {
        let mut f = digest(&format!("{:?}", key.public_params)).to_vec();
        f.extend_from_slice(&[0; 12]);
        f
    }

    fn sign_certificate(
        &self,
        key: &packet::SecretKey,
        passphrase: &str,
        config: &SignatureConfig,
        id: &UserId,
    ) -> Result<SignatureValue, String> {
        self.make(key, passphrase, config, "user id", format!("{:?}", id))
    }

    fn sign_user_attribute(
        &self,
        key: &packet::SecretKey,
        passphrase: &str,
        attribute: &UserAttribute,
    ) -> Result<Signature, String> {
        let config = SignatureConfig::new(
            SignatureType::CertGeneric,
            key.details.algorithm,
            vec![Subpacket::SignatureCreationTime(1)],
            vec![],
        );
        let value = self.make(key, passphrase, &config, "attribute", format!("{:?}", attribute))?;
        Ok(Signature { config, value })
    }

    fn sign_key(
        &self,
        key: &packet::SecretKey,
        passphrase: &str,
        config: &SignatureConfig,
        subkey: &packet::PublicSubkey,
    ) -> Result<SignatureValue, String> {
        self.make(key, passphrase, config, "public subkey", format!("{:?}", subkey))
    }

    fn sign_key_binding(
        &self,
        key: &packet::SecretKey,
        passphrase: &str,
        config: &SignatureConfig,
        subkey: &packet::SecretSubkey,
    ) -> Result<SignatureValue, String> {
        self.make(key, passphrase, config, "secret subkey", format!("{:?}", subkey))
    }
}

/// Checks every signature of the toy against the embedded primary key.
fn verify(key: &SignedSecretKey) -> Result<(), String> {
    let public = &key.primary_key.details.public_params;
    let check = |signature: &Signature, subject: String| -> Result<(), String> {
        if signature.value == toy_signature(public, &signature.config, &subject) {
            Ok(())
        } else {
            Err(format!("bad signature over {}", subject))
        }
    };
    if key.details.users.is_empty() {
        return Err("no user".to_string());
    }
    for user in &key.details.users {
        if user.signatures.len() != 1 {
            return Err("user without one signature".to_string());
        }
        check(&user.signatures[0], format!("{:?}", user.id))?;
    }
    for attribute in &key.details.user_attributes {
        check(&attribute.signatures[0], format!("{:?}", attribute.attr))?;
    }
    for subkey in &key.public_subkeys {
        check(&subkey.signatures[0], format!("{:?}", subkey.key))?;
    }
    for subkey in &key.secret_subkeys {
        if subkey.signatures.len() != 1 {
            return Err("subkey without one signature".to_string());
        }
        check(&subkey.signatures[0], format!("{:?}", subkey.key))?;
    }
    Ok(())
}

fn seconds_now() -> i64 {
    chrono::Utc::now().timestamp()
}

fn creation_time(config: &SignatureConfig) -> i64 {
    for subpacket in &config.hashed_subpackets {
        if let Subpacket::SignatureCreationTime(t) = subpacket {
            return *t;
        }
    }
    panic!("no creation time");
}

/// An RSA key with an encrypt-only RSA subkey, as key assembly would make
/// it, of a size that is generated quickly.
fn rsa_key(passphrase: Option<&str>) -> SecretKey {
    let (public_params, secret_params) = KeyType::Rsa(1024)
        .generate(passphrase.map(|p| p.to_string()), &toy())
        .expect("failed to generate secret key");
    let (sub_public_params, sub_secret_params) =
        KeyType::Rsa(1024).generate(None, &toy()).expect("failed to generate secret key");
    SecretKey {
        primary_key: packet::SecretKey {
            details: packet::PublicKey {
                packet_version: Version::New,
                version: KeyVersion::V4,
                algorithm: KeyType::Rsa(1024).to_alg(),
                created_at: seconds_now(),
                expiration: None,
                public_params,
            },
            secret_params,
        },
        details: KeyDetails {
            primary_user_id: UserId::from_str(Version::New, "Me <me@mail.com>"),
            user_ids: vec![],
            user_attributes: vec![],
            keyflags: KeyFlags::from_capabilities(true, true, false),
            preferred_symmetric_algorithms: vec![
                SymmetricKeyAlgorithm::AES256,
                SymmetricKeyAlgorithm::AES192,
                SymmetricKeyAlgorithm::AES128,
            ],
            preferred_hash_algorithms: vec![
                HashAlgorithm::SHA256,
                HashAlgorithm::SHA384,
                HashAlgorithm::SHA512,
                HashAlgorithm::SHA224,
                HashAlgorithm::SHA1,
            ],
            preferred_compression_algorithms: vec![
                CompressionAlgorithm::ZLIB,
                CompressionAlgorithm::ZIP,
            ],
            revocation_key: None,
        },
        public_subkeys: vec![],
        secret_subkeys: vec![SecretSubkey {
            key: packet::SecretSubkey {
                details: packet::PublicSubkey {
                    packet_version: Version::New,
                    version: KeyVersion::V4,
                    algorithm: KeyType::Rsa(1024).to_alg(),
                    created_at: seconds_now(),
                    expiration: None,
                    public_params: sub_public_params,
                },
                secret_params: sub_secret_params,
            },
            keyflags: KeyFlags::from_capabilities(false, false, true),
        }],
    }
}

fn check_rsa(signed_key: &SignedSecretKey) {
    let primary = &signed_key.primary_key.details;
    assert_eq!(primary.algorithm, PublicKeyAlgorithm::RSA);
    match &primary.public_params {
        PublicParams::RSA { n, .. } => {
            assert_eq!(num_bigint_dig::BigUint::from_bytes_be(n).bits(), 1024)
        },
        other => panic!("not RSA: {:?}", other),
    }
    assert_eq!(signed_key.details.users.len(), 1);
    assert_eq!(signed_key.details.users[0].id.id, "Me <me@mail.com>");
    let hashed = &signed_key.details.users[0].signatures[0].config.hashed_subpackets;
    assert_eq!(hashed[0], Subpacket::IsPrimary(true));
    assert_eq!(hashed[2], Subpacket::KeyFlags(vec![0x03]));
    assert_eq!(
        hashed[3],
        Subpacket::PreferredSymmetricAlgorithms(vec![
            SymmetricKeyAlgorithm::AES256,
            SymmetricKeyAlgorithm::AES192,
            SymmetricKeyAlgorithm::AES128,
        ])
    );
    assert_eq!(
        hashed[4],
        Subpacket::PreferredHashAlgorithms(vec![
            HashAlgorithm::SHA256,
            HashAlgorithm::SHA384,
            HashAlgorithm::SHA512,
            HashAlgorithm::SHA224,
            HashAlgorithm::SHA1,
        ])
    );
    assert_eq!(
        hashed[5],
        Subpacket::PreferredCompressionAlgorithms(vec![
            CompressionAlgorithm::ZLIB,
            CompressionAlgorithm::ZIP,
        ])
    );
    assert!(signed_key.public_subkeys.is_empty());
    assert_eq!(signed_key.secret_subkeys.len(), 1);
    let subkey = &signed_key.secret_subkeys[0];
    assert_eq!(subkey.key.details.algorithm, PublicKeyAlgorithm::RSA);
    assert_eq!(
        subkey.signatures[0].config.hashed_subpackets[1],
        Subpacket::KeyFlags(vec![0x0c])
    );
    assert!(matches!(subkey.key.secret_params, SecretParams::Plain(_)));
}

#[test]
fn rsa_key_with_passphrase_is_certified_and_unlocks() {
    let signed_key_enc =
        rsa_key(Some("hello")).sign(|| "hello".into(), &toy()).expect("failed to sign key");

    verify(&signed_key_enc).expect("invalid key (enc)");

    unlock(&signed_key_enc.primary_key.secret_params, "hello")
        .expect("failed to unlock parsed key (enc)");
    assert_eq!(
        unlock(&signed_key_enc.primary_key.secret_params, "wrong"),
        Err("wrong passphrase".to_string())
    );
    assert!(matches!(signed_key_enc.primary_key.secret_params, SecretParams::Encrypted(_)));
    check_rsa(&signed_key_enc);
}

#[test]
fn rsa_key_without_passphrase_is_certified_and_unlocks() {
    let signed_key_plain = rsa_key(None).sign(|| "".into(), &toy()).expect("failed to sign key");

    verify(&signed_key_plain).expect("invalid key (plain)");

    unlock(&signed_key_plain.primary_key.secret_params, "")
        .expect("failed to unlock parsed key (plain)");
    unlock(&signed_key_plain.primary_key.secret_params, "anything")
        .expect("failed to unlock parsed key (plain)");
    assert!(matches!(signed_key_plain.primary_key.secret_params, SecretParams::Plain(_)));
    check_rsa(&signed_key_plain);
}

#[test]
fn rsa_2048_configuration_is_accepted() {
    let mut key_params = SecretKeyParamsBuilder::default();
    key_params
        .key_type(KeyType::Rsa(2048))
        .can_create_certificates(true)
        .can_sign(true)
        .primary_user_id("Me <me@mail.com>".into())
        .preferred_symmetric_algorithms(vec![
            SymmetricKeyAlgorithm::AES256,
            SymmetricKeyAlgorithm::AES192,
            SymmetricKeyAlgorithm::AES128,
        ])
        .preferred_hash_algorithms(vec![
            HashAlgorithm::SHA256,
            HashAlgorithm::SHA384,
            HashAlgorithm::SHA512,
            HashAlgorithm::SHA224,
            HashAlgorithm::SHA1,
        ])
        .preferred_compression_algorithms(vec![
            CompressionAlgorithm::ZLIB,
            CompressionAlgorithm::ZIP,
        ])
        .subkey(
            SubkeyParamsBuilder::default()
                .key_type(KeyType::Rsa(2048))
                .can_encrypt(true)
                .build()
                .unwrap(),
        );
    assert!(key_params.clone().passphrase(Some("hello".into())).build().is_ok());
    assert!(key_params.clone().passphrase(None).build().is_ok());
}

#[test]
fn test_key_gen_x25519() {
    let key_params = SecretKeyParamsBuilder::default()
        .key_type(KeyType::EdDSA)
        .can_create_certificates(true)
        .can_sign(true)
        .primary_user_id("Me-X <me-x25519@mail.com>".into())
        .passphrase(None)
        .preferred_symmetric_algorithms(vec![
            SymmetricKeyAlgorithm::AES256,
            SymmetricKeyAlgorithm::AES192,
            SymmetricKeyAlgorithm::AES128,
        ])
        .preferred_hash_algorithms(vec![
            HashAlgorithm::SHA256,
            HashAlgorithm::SHA384,
            HashAlgorithm::SHA512,
            HashAlgorithm::SHA224,
            HashAlgorithm::SHA1,
        ])
        .preferred_compression_algorithms(vec![
            CompressionAlgorithm::ZLIB,
            CompressionAlgorithm::ZIP,
        ])
        .subkey(
            SubkeyParamsBuilder::default()
                .key_type(KeyType::ECDH)
                .can_encrypt(true)
                .passphrase(None)
                .build()
                .unwrap(),
        )
        .build()
        .unwrap();

    let key = key_params.generate(&toy()).expect("failed to generate secret key");

    let signed_key = key.sign(|| "".into(), &toy()).expect("failed to sign key");

    verify(&signed_key).expect("invalid key");

    assert_eq!(signed_key.primary_key.details.algorithm, PublicKeyAlgorithm::EdDSA);
    assert_eq!(signed_key.details.users.len(), 1);
    assert_eq!(signed_key.details.users[0].id.id, "Me-X <me-x25519@mail.com>");
    assert_eq!(signed_key.secret_subkeys.len(), 1);
    let subkey = &signed_key.secret_subkeys[0];
    assert_eq!(subkey.key.details.algorithm, PublicKeyAlgorithm::ECDH);
    match &subkey.key.details.public_params {
        PublicParams::ECDH { p, .. } => {
            assert_eq!(p.len(), 33);
            assert_eq!(p[0], 0x40);
        },
        other => panic!("not ECDH: {:?}", other),
    }
    assert_eq!(
        subkey.signatures[0].config.hashed_subpackets[1],
        Subpacket::KeyFlags(vec![0x0c])
    );
}

#[test]
fn protected_key_signs_only_with_its_passphrase() {
    let mut builder = SecretKeyParamsBuilder::default();
    builder
        .key_type(KeyType::EdDSA)
        .can_sign(true)
        .primary_user_id("Me".into())
        .passphrase(Some("hello".into()));
    let key = builder.build().unwrap().generate(&toy()).unwrap();
    assert_eq!(
        key.sign(|| "wrong".into(), &toy()),
        Err(KeyError::Signing(SigningError::Failed("wrong passphrase".to_string())))
    );
    let key = builder.build().unwrap().generate(&toy()).unwrap();
    assert!(key.sign(|| "hello".into(), &toy()).is_ok());
    // without a passphrase any answer unlocks
    builder.passphrase(None);
    let key = builder.build().unwrap().generate(&toy()).unwrap();
    assert!(key.sign(|| "anything".into(), &toy()).is_ok());
}

fn sample_details() -> KeyDetails {
    KeyDetails {
        primary_user_id: UserId::from_str(Version::New, "primary"),
        user_ids: vec![
            UserId::from_str(Version::New, "second"),
            UserId::from_str(Version::New, "third"),
            UserId::from_str(Version::Old, "fourth"),
        ],
        user_attributes: vec![
            UserAttribute::Image { packet_version: Version::New, header: vec![1], data: vec![2, 3] },
            UserAttribute::Unknown { packet_version: Version::New, typ: 9, data: vec![4] },
        ],
        keyflags: KeyFlags::from_capabilities(true, true, false),
        preferred_symmetric_algorithms: vec![
            SymmetricKeyAlgorithm::AES256,
            SymmetricKeyAlgorithm::AES128,
        ],
        preferred_hash_algorithms: vec![HashAlgorithm::SHA512],
        preferred_compression_algorithms: vec![],
        revocation_key: None,
    }
}

fn sample_key() -> packet::SecretKey {
    packet::SecretKey {
        details: packet::PublicKey {
            packet_version: Version::New,
            version: KeyVersion::V4,
            algorithm: PublicKeyAlgorithm::EdDSA,
            created_at: 1_550_000_000,
            expiration: None,
            public_params: PublicParams::EdDSA {
                curve: pgp_keygen::ECCCurve::Ed25519,
                q: vec![0x40; 33],
            },
        },
        secret_params: SecretParams::Plain(PlainSecretParams::EdDSA(vec![1; 32])),
    }
}

fn sample_issuer() -> Issuer {
    Issuer {
        algorithm: PublicKeyAlgorithm::EdDSA,
        key_id: KeyId([1, 2, 3, 4, 5, 6, 7, 8]),
        fingerprint: vec![0xaa; 20],
    }
}

#[test]
fn users_are_signed_in_order() {
    let key = sample_key();
    let signed = sample_details().sign(&key, || "".into(), &toy()).unwrap();
    let ids: Vec<&str> = signed.users.iter().map(|u| u.id.id.as_str()).collect();
    assert_eq!(ids, vec!["primary", "second", "third", "fourth"]);
    assert_eq!(signed.users[3].id.packet_version, Version::Old);
    for (i, user) in signed.users.iter().enumerate() {
        assert_eq!(user.signatures.len(), 1);
        let hashed = &user.signatures[0].config.hashed_subpackets;
        // only the first is marked as the primary user id
        assert_eq!(hashed[0] == Subpacket::IsPrimary(true), i == 0);
        assert_eq!(hashed.len(), if i == 0 { 6 } else { 5 });
        assert_eq!(
            user.signatures[0].value,
            toy_signature(
                &key.details.public_params,
                &user.signatures[0].config,
                &format!("{:?}", user.id)
            )
        );
    }
    assert_eq!(signed.user_attributes.len(), 2);
    assert_eq!(signed.user_attributes[0].attr, sample_details().user_attributes[0]);
    assert_eq!(signed.user_attributes[1].attr, sample_details().user_attributes[1]);
    assert_eq!(signed.user_attributes[0].signatures.len(), 1);
    assert!(signed.revocation_signatures.is_empty());
    assert!(signed.direct_signatures.is_empty());
}

#[test]
fn details_without_other_users() {
    let mut details = sample_details();
    details.user_ids = vec![];
    details.user_attributes = vec![];
    let signed = details.sign(&sample_key(), || "".into(), &toy()).unwrap();
    assert_eq!(signed.users.len(), 1);
    assert_eq!(signed.users[0].id.id, "primary");
    assert!(signed.user_attributes.is_empty());
}

#[test]
fn certification_has_its_attributes() {
    let before = seconds_now();
    let key = sample_key();
    let signed = sample_details().sign(&key, || "".into(), &toy()).unwrap();
    let after = seconds_now();
    let t = &toy();
    let unhashed = vec![
        Subpacket::Issuer(t.key_id(&key.details).unwrap()),
        Subpacket::IssuerFingerprint(t.fingerprint(&key.details)),
    ];
    let config = &signed.users[0].signatures[0].config;
    let created = creation_time(config);
    assert!(before <= created && created <= after);
    assert_eq!(
        *config,
        SignatureConfig {
            version: SignatureVersion::V4,
            typ: SignatureType::CertGeneric,
            pub_alg: PublicKeyAlgorithm::EdDSA,
            hash_alg: HashAlgorithm::SHA256,
            hashed_subpackets: vec![
                Subpacket::IsPrimary(true),
                Subpacket::SignatureCreationTime(created),
                Subpacket::KeyFlags(vec![0x03]),
                Subpacket::PreferredSymmetricAlgorithms(vec![
                    SymmetricKeyAlgorithm::AES256,
                    SymmetricKeyAlgorithm::AES128,
                ]),
                Subpacket::PreferredHashAlgorithms(vec![HashAlgorithm::SHA512]),
                Subpacket::PreferredCompressionAlgorithms(vec![]),
            ],
            unhashed_subpackets: unhashed.clone(),
        }
    );
    let config = &signed.users[2].signatures[0].config;
    let created = creation_time(config);
    assert!(before <= created && created <= after);
    assert_eq!(
        *config,
        SignatureConfig {
            version: SignatureVersion::V4,
            typ: SignatureType::CertGeneric,
            pub_alg: PublicKeyAlgorithm::EdDSA,
            hash_alg: HashAlgorithm::SHA256,
            hashed_subpackets: vec![
                Subpacket::SignatureCreationTime(created),
                Subpacket::KeyFlags(vec![0x03]),
                Subpacket::PreferredSymmetricAlgorithms(vec![
                    SymmetricKeyAlgorithm::AES256,
                    SymmetricKeyAlgorithm::AES128,
                ]),
                Subpacket::PreferredHashAlgorithms(vec![HashAlgorithm::SHA512]),
                Subpacket::PreferredCompressionAlgorithms(vec![]),
            ],
            unhashed_subpackets: unhashed,
        }
    );
}

#[test]
fn certification_config_is_exact() {
    let revocation_key = RevocationKey {
        class: 0x80,
        algorithm: PublicKeyAlgorithm::RSA,
        fingerprint: [7; 20],
    };
    let config = certification(
        KeyFlags(0x0f),
        &vec![SymmetricKeyAlgorithm::AES192],
        &vec![HashAlgorithm::SHA384, HashAlgorithm::SHA1],
        &vec![CompressionAlgorithm::ZIP],
        Some(revocation_key),
        &sample_issuer(),
        true,
        1_234_567,
    );
    let unhashed = vec![
        Subpacket::Issuer(KeyId([1, 2, 3, 4, 5, 6, 7, 8])),
        Subpacket::IssuerFingerprint(vec![0xaa; 20]),
    ];
    assert_eq!(
        config,
        SignatureConfig {
            version: SignatureVersion::V4,
            typ: SignatureType::CertGeneric,
            pub_alg: PublicKeyAlgorithm::EdDSA,
            hash_alg: HashAlgorithm::SHA256,
            hashed_subpackets: vec![
                Subpacket::IsPrimary(true),
                Subpacket::SignatureCreationTime(1_234_567),
                Subpacket::KeyFlags(vec![0x0f]),
                Subpacket::PreferredSymmetricAlgorithms(vec![SymmetricKeyAlgorithm::AES192]),
                Subpacket::PreferredHashAlgorithms(vec![
                    HashAlgorithm::SHA384,
                    HashAlgorithm::SHA1
                ]),
                Subpacket::PreferredCompressionAlgorithms(vec![CompressionAlgorithm::ZIP]),
                Subpacket::RevocationKey(revocation_key),
            ],
            unhashed_subpackets: unhashed.clone(),
        }
    );
    let config = certification(
        KeyFlags(0x01),
        &vec![],
        &vec![],
        &vec![],
        Some(revocation_key),
        &sample_issuer(),
        false,
        -5,
    );
    assert_eq!(
        config.hashed_subpackets,
        vec![
            Subpacket::SignatureCreationTime(-5),
            Subpacket::KeyFlags(vec![0x01]),
            Subpacket::PreferredSymmetricAlgorithms(vec![]),
            Subpacket::PreferredHashAlgorithms(vec![]),
            Subpacket::PreferredCompressionAlgorithms(vec![]),
            Subpacket::RevocationKey(revocation_key),
        ]
    );
    assert_eq!(config.unhashed_subpackets, unhashed);
}

#[test]
fn binding_config_is_exact() {
    let config = binding(KeyFlags(0x0c), &sample_issuer(), 42);
    assert_eq!(
        config,
        SignatureConfig {
            version: SignatureVersion::V4,
            typ: SignatureType::SubkeyBinding,
            pub_alg: PublicKeyAlgorithm::EdDSA,
            hash_alg: HashAlgorithm::SHA256,
            hashed_subpackets: vec![
                Subpacket::SignatureCreationTime(42),
                Subpacket::KeyFlags(vec![0x0c]),
            ],
            unhashed_subpackets: vec![
                Subpacket::Issuer(KeyId([1, 2, 3, 4, 5, 6, 7, 8])),
                Subpacket::IssuerFingerprint(vec![0xaa; 20]),
            ],
        }
    );
}

#[test]
fn issuer_is_what_the_signer_derives() {
    let key = sample_key();
    let issuer = Issuer::of(&toy(), &key).unwrap();
    assert_eq!(issuer.algorithm, PublicKeyAlgorithm::EdDSA);
    assert_eq!(Some(issuer.key_id), toy().key_id(&key.details));
    assert_eq!(issuer.fingerprint, toy().fingerprint(&key.details));
    let anonymous = Toy { with_key_id: false, fail_on: None };
    assert_eq!(
        Issuer::of(&anonymous, &key),
        Err(KeyError::Signing(SigningError::MissingKeyId))
    );
}

#[test]
fn missing_key_id_is_a_signing_error() {
    let anonymous = Toy { with_key_id: false, fail_on: None };
    let asked = Cell::new(0);
    let r = sample_details().sign(
        &sample_key(),
        || {
            asked.set(asked.get() + 1);
            String::new()
        },
        &anonymous,
    );
    assert_eq!(r, Err(KeyError::Signing(SigningError::MissingKeyId)));
    // the passphrase was not asked for
    assert_eq!(asked.get(), 0);
}

#[test]
fn passphrase_is_asked_for_once() {
    let asked = Cell::new(0);
    let key = SecretKey {
        primary_key: sample_key(),
        details: sample_details(),
        public_subkeys: vec![sample_public_subkey(), sample_public_subkey()],
        secret_subkeys: vec![sample_secret_subkey()],
    };
    let signed = key
        .sign(
            || {
                asked.set(asked.get() + 1);
                "pw".to_string()
            },
            &toy(),
        )
        .unwrap();
    assert_eq!(asked.get(), 1);
    assert_eq!(signed.details.users.len(), 4);
    assert_eq!(signed.public_subkeys.len(), 2);
    assert_eq!(signed.secret_subkeys.len(), 1);
    verify(&signed).unwrap();
}

fn sample_public_subkey() -> PublicSubkey {
    PublicSubkey {
        key: packet::PublicSubkey {
            packet_version: Version::New,
            version: KeyVersion::V4,
            algorithm: PublicKeyAlgorithm::ECDH,
            created_at: 1_550_000_000,
            expiration: Some(7),
            public_params: PublicParams::ECDH {
                curve: pgp_keygen::ECCCurve::Curve25519,
                p: vec![0x40; 33],
                hash: HashAlgorithm::SHA256,
                alg_sym: SymmetricKeyAlgorithm::AES128,
            },
        },
        keyflags: KeyFlags::from_capabilities(false, false, true),
    }
}

fn sample_secret_subkey() -> SecretSubkey {
    SecretSubkey {
        key: packet::SecretSubkey {
            details: sample_public_subkey().key,
            secret_params: SecretParams::Plain(PlainSecretParams::ECDH(vec![3; 32])),
        },
        keyflags: KeyFlags::from_capabilities(false, true, false),
    }
}

#[test]
fn public_subkey_is_bound() {
    let key = sample_key();
    let before = seconds_now();
    let signed = sample_public_subkey().sign(&key, || "".into(), &toy()).unwrap();
    let after = seconds_now();
    assert_eq!(signed.key, sample_public_subkey().key);
    assert_eq!(signed.signatures.len(), 1);
    let config = &signed.signatures[0].config;
    let created = creation_time(config);
    assert!(before <= created && created <= after);
    assert_eq!(*config, binding(KeyFlags(0x0c), &Issuer::of(&toy(), &key).unwrap(), created));
    assert_eq!(
        signed.signatures[0].value,
        toy_signature(&key.details.public_params, config, &format!("{:?}", signed.key))
    );
}

#[test]
fn secret_subkey_is_bound_over_its_secret_packet() {
    let key = sample_key();
    let signed = sample_secret_subkey().sign(&key, || "".into(), &toy()).unwrap();
    assert_eq!(signed.key, sample_secret_subkey().key);
    assert_eq!(signed.signatures.len(), 1);
    let config = &signed.signatures[0].config;
    assert_eq!(config.typ, SignatureType::SubkeyBinding);
    assert_eq!(config.hashed_subpackets[1], Subpacket::KeyFlags(vec![0x02]));
    assert_eq!(
        signed.signatures[0].value,
        toy_signature(&key.details.public_params, config, &format!("{:?}", signed.key))
    );
    // not the signature over the public part
    assert_ne!(
        signed.signatures[0].value,
        toy_signature(&key.details.public_params, config, &format!("{:?}", signed.key.details))
    );
}

#[test]
fn public_key_is_signed_by_the_key_supplied() {
    let signing_key = sample_key();
    let public = PublicKey {
        primary_key: packet::PublicKey {
            packet_version: Version::New,
            version: KeyVersion::V4,
            algorithm: PublicKeyAlgorithm::RSA,
            created_at: 5,
            expiration: None,
            public_params: PublicParams::RSA { n: vec![33], e: vec![3] },
        },
        details: sample_details(),
        public_subkeys: vec![sample_public_subkey()],
    };
    let signed = public.sign(&signing_key, || "".into(), &toy()).unwrap();
    assert_eq!(signed.primary_key.public_params, PublicParams::RSA { n: vec![33], e: vec![3] });
    assert_eq!(signed.details.users.len(), 4);
    assert_eq!(signed.public_subkeys.len(), 1);
    // the issuer is the signing key, not the key that is signed
    let config = &signed.public_subkeys[0].signatures[0].config;
    assert_eq!(config.pub_alg, PublicKeyAlgorithm::EdDSA);
    assert_eq!(
        config.unhashed_subpackets[0],
        Subpacket::Issuer(toy().key_id(&signing_key.details).unwrap())
    );
    assert_eq!(
        signed.details.users[0].signatures[0].value,
        toy_signature(
            &signing_key.details.public_params,
            &signed.details.users[0].signatures[0].config,
            &format!("{:?}", signed.details.users[0].id),
        )
    );
}

#[test]
fn a_failing_signer_ends_the_signing() {
    for kind in ["user id", "attribute", "public subkey", "secret subkey"] {
        let key = SecretKey {
            primary_key: sample_key(),
            details: sample_details(),
            public_subkeys: vec![sample_public_subkey()],
            secret_subkeys: vec![sample_secret_subkey()],
        };
        let failing = Toy { with_key_id: true, fail_on: Some(kind) };
        assert_eq!(
            key.sign(|| "".into(), &failing),
            Err(KeyError::Signing(SigningError::Failed(format!("cannot sign {}", kind))))
        );
    }
}

#[test]
fn assembly_follows_the_configuration() {
    let revocation_key = RevocationKey {
        class: 0x80,
        algorithm: PublicKeyAlgorithm::RSA,
        fingerprint: [7; 20],
    };
    let attribute =
        UserAttribute::Unknown { packet_version: Version::New, typ: 3, data: vec![1, 2] };
    let mut builder = SecretKeyParamsBuilder::default();
    builder
        .key_type(KeyType::EdDSA)
        .can_sign(true)
        .can_create_certificates(true)
        .primary_user_id("first".into())
        .user_ids(vec!["second".into(), "third".into()])
        .user_attributes(vec![attribute.clone()])
        .revocation_key(Some(revocation_key))
        .created_at(1_550_000_000)
        .expiration(Some(65_536 + 5))
        .packet_version(Version::Old)
        .preferred_hash_algorithms(vec![HashAlgorithm::SHA256])
        .subkey(
            SubkeyParamsBuilder::default()
                .key_type(KeyType::ECDH)
                .can_encrypt(true)
                .created_at(1_550_000_001)
                .expiration(Some(60))
                .passphrase(Some("sub".into()))
                .build()
                .unwrap(),
        )
        .subkey(
            SubkeyParamsBuilder::default()
                .key_type(KeyType::EdDSA)
                .can_sign(true)
                .created_at(1_550_000_002)
                .build()
                .unwrap(),
        );
    let key = builder.build().unwrap().generate(&toy()).unwrap();
    let primary = &key.primary_key.details;
    assert_eq!(primary.packet_version, Version::Old);
    assert_eq!(primary.version, KeyVersion::V4);
    assert_eq!(primary.algorithm, PublicKeyAlgorithm::EdDSA);
    assert_eq!(primary.created_at, 1_550_000_000);
    // the packet keeps the low 16 bits
    assert_eq!(primary.expiration, Some(5));
    assert!(matches!(primary.public_params, PublicParams::EdDSA { .. }));
    assert!(matches!(
        key.primary_key.secret_params,
        SecretParams::Plain(PlainSecretParams::EdDSA(_))
    ));
    assert_eq!(key.details.primary_user_id, UserId::from_str(Version::New, "first"));
    assert_eq!(
        key.details.user_ids,
        vec![UserId::from_str(Version::New, "second"), UserId::from_str(Version::New, "third")]
    );
    assert_eq!(key.details.user_attributes, vec![attribute]);
    assert_eq!(key.details.keyflags, KeyFlags(0x03));
    assert_eq!(key.details.preferred_hash_algorithms, vec![HashAlgorithm::SHA256]);
    assert!(key.details.preferred_symmetric_algorithms.is_empty());
    assert!(key.details.preferred_compression_algorithms.is_empty());
    assert_eq!(key.details.revocation_key, Some(revocation_key));
    assert!(key.public_subkeys.is_empty());
    assert_eq!(key.secret_subkeys.len(), 2);
    let first = &key.secret_subkeys[0];
    assert_eq!(first.key.details.algorithm, PublicKeyAlgorithm::ECDH);
    assert_eq!(first.key.details.created_at, 1_550_000_001);
    assert_eq!(first.key.details.expiration, Some(60));
    assert_eq!(first.key.details.packet_version, Version::New);
    assert_eq!(first.keyflags, KeyFlags(0x0c));
    assert!(matches!(first.key.secret_params, SecretParams::Encrypted(_)));
    assert!(unlock(&first.key.secret_params, "sub").is_ok());
    assert!(unlock(&first.key.secret_params, "other").is_err());
    let second = &key.secret_subkeys[1];
    assert_eq!(second.key.details.algorithm, PublicKeyAlgorithm::EdDSA);
    assert_eq!(second.key.details.created_at, 1_550_000_002);
    assert_eq!(second.key.details.expiration, None);
    assert_eq!(second.keyflags, KeyFlags(0x02));
    // the revocation key is stated in the certification of every user id
    let signed = key.sign(|| "".into(), &toy()).unwrap();
    for user in &signed.details.users {
        assert_eq!(
            user.signatures[0].config.hashed_subpackets.last(),
            Some(&Subpacket::RevocationKey(revocation_key))
        );
    }
}

#[test]
fn creation_time_defaults_to_now() {
    let before = seconds_now();
    let key = SecretKeyParamsBuilder::default()
        .key_type(KeyType::EdDSA)
        .primary_user_id("Me".into())
        .subkey(SubkeyParamsBuilder::default().key_type(KeyType::ECDH).build().unwrap())
        .build()
        .unwrap()
        .generate(&toy())
        .unwrap();
    let after = seconds_now();
    let created = key.primary_key.details.created_at;
    assert!(before <= created && created <= after);
    let created = key.secret_subkeys[0].key.details.created_at;
    assert!(before <= created && created <= after);
    assert!(before > 1_500_000_000);
}
