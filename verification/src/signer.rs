//! The capability to sign with a secret key, and to name the key that
//! signed.

use vstd::prelude::*;
use crate::packet::PublicKey;
use crate::packet::PublicSubkey;
use crate::packet::SecretKey;
use crate::packet::SecretSubkey;
use crate::packet::Signature;
use crate::packet::SignatureConfig;
use crate::packet::SignatureConfigView;
use crate::packet::SignatureValue;
use crate::packet::UserAttribute;
use crate::packet::UserId;
use crate::types::KeyId;

verus! {

/// The capability that certification rests on: to derive the id and the
/// fingerprint of a key from its public part, and to hash and sign what a
/// signature covers with a secret key.
///
/// Each method is paired with a relation of the same meaning, which says
/// what is known of a call: that this result came back for these arguments.
/// The functions of this library state through these relations what they
/// handed to the signer. An implementation that states nothing leaves the
/// relations as they are.
///
/// The passphrase unlocks the secret key where it is protected. Where it is
/// not, the passphrase is ignored.
pub trait Signer {
    /// `id` came back as the key id of `key`.
    open spec fn derives_key_id(&self, key: PublicKey, id: Option<KeyId>) -> bool {
        true
    }

    /// `fingerprint` came back as the fingerprint of `key`.
    open spec fn derives_fingerprint(&self, key: PublicKey, fingerprint: Seq<u8>) -> bool {
        true
    }

    /// `out` came back when `key`, unlocked with `passphrase`, was to certify
    /// the user id `id` under `config`.
    open spec fn certifies(
        &self,
        key: SecretKey,
        passphrase: Seq<char>,
        config: SignatureConfigView,
        id: UserId,
        out: Result<SignatureValue, String>,
    ) -> bool {
        true
    }

    /// `out` came back when `key`, unlocked with `passphrase`, was to certify
    /// the user attribute `attribute`.
    open spec fn certifies_attribute(
        &self,
        key: SecretKey,
        passphrase: Seq<char>,
        attribute: UserAttribute,
        out: Result<Signature, String>,
    ) -> bool {
        true
    }

    /// `out` came back when `key`, unlocked with `passphrase`, was to bind
    /// the public subkey `subkey` under `config`.
    open spec fn binds_public(
        &self,
        key: SecretKey,
        passphrase: Seq<char>,
        config: SignatureConfigView,
        subkey: PublicSubkey,
        out: Result<SignatureValue, String>,
    ) -> bool {
        true
    }

    /// `out` came back when `key`, unlocked with `passphrase`, was to bind
    /// the secret subkey `subkey` under `config`.
    open spec fn binds_secret(
        &self,
        key: SecretKey,
        passphrase: Seq<char>,
        config: SignatureConfigView,
        subkey: SecretSubkey,
        out: Result<SignatureValue, String>,
    ) -> bool {
        true
    }

    /// The id of `key`, if one can be derived.
    fn key_id(&self, key: &PublicKey) -> (id: Option<KeyId>)
        ensures
            self.derives_key_id(*key, id),
    ;

    /// The fingerprint of `key`.
    fn fingerprint(&self, key: &PublicKey) -> (fingerprint: Vec<u8>)
        ensures
            self.derives_fingerprint(*key, fingerprint@),
    ;

    /// Signs the user id `id`, together with the primary key that `key`
    /// holds, under `config`.
    fn sign_certificate(
        &self,
        key: &SecretKey,
        passphrase: &str,
        config: &SignatureConfig,
        id: &UserId,
    ) -> (out: Result<SignatureValue, String>)
        ensures
            self.certifies(*key, passphrase@, config@, *id, out),
    ;

    /// Signs the user attribute `attribute` under a configuration of the
    /// signer's own making.
    fn sign_user_attribute(&self, key: &SecretKey, passphrase: &str, attribute: &UserAttribute) -> (out:
        Result<Signature, String>)
        ensures
            self.certifies_attribute(*key, passphrase@, *attribute, out),
    ;

    /// Signs the public subkey `subkey`, together with the primary key that
    /// `key` holds, under `config`.
    fn sign_key(
        &self,
        key: &SecretKey,
        passphrase: &str,
        config: &SignatureConfig,
        subkey: &PublicSubkey,
    ) -> (out: Result<SignatureValue, String>)
        ensures
            self.binds_public(*key, passphrase@, config@, *subkey, out),
    ;

    /// Signs the secret subkey `subkey`, in the form of its own packet,
    /// together with the primary key that `key` holds, under `config`.
    fn sign_key_binding(
        &self,
        key: &SecretKey,
        passphrase: &str,
        config: &SignatureConfig,
        subkey: &SecretSubkey,
    ) -> (out: Result<SignatureValue, String>)
        ensures
            self.binds_secret(*key, passphrase@, config@, *subkey, out),
    ;
}

} // verus!
