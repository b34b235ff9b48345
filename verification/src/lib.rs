//! Generation and self-certification of OpenPGP keys.

pub mod builder;
pub mod error;
pub mod key;
pub mod key_type;
pub mod mpi;
pub mod packet;
pub mod params;
pub mod primitives;
pub mod protect;
pub mod signed;
pub mod signer;
pub mod types;

pub use types::CompressionAlgorithm;
pub use types::ECCCurve;
pub use types::HashAlgorithm;
pub use types::KeyId;
pub use types::KeyVersion;
pub use types::PublicKeyAlgorithm;
pub use types::RevocationKey;
pub use types::StringToKey;
pub use types::StringToKeyType;
pub use types::SymmetricKeyAlgorithm;
pub use types::Version;
pub use builder::SecretKeyParams;
pub use builder::SecretKeyParamsBuilder;
pub use builder::SubkeyParams;
pub use builder::SubkeyParamsBuilder;
pub use error::KeyError;
pub use error::GenerationError;
pub use error::SigningError;
pub use key::Issuer;
pub use key::KeyDetails;
pub use key::PublicKey;
pub use key::PublicSubkey;
pub use key::SecretKey;
pub use key::SecretSubkey;
pub use key_type::KeyType;
pub use params::EncryptedSecretParams;
pub use params::PlainSecretParams;
pub use params::PublicParams;
pub use params::SecretParams;
pub use protect::Ciphertext;
pub use protect::SecretProtector;
pub use signed::SignedKeyDetails;
pub use signed::SignedPublicKey;
pub use signed::SignedPublicSubKey;
pub use signed::SignedSecretKey;
pub use signed::SignedSecretSubKey;
pub use signed::SignedUser;
pub use signed::SignedUserAttribute;
pub use signer::Signer;
