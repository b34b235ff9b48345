//! Certified keys: each part of a key with the signatures made over it.

use vstd::prelude::*;
use crate::packet::PublicKey;
use crate::packet::PublicSubkey;
use crate::packet::SecretKey;
use crate::packet::SecretSubkey;
use crate::packet::Signature;
use crate::packet::UserAttribute;
use crate::packet::UserId;

verus! {

/// A user id with its certifications.
#[derive(Clone, Debug, PartialEq, Eq)]
pub struct SignedUser {
    pub id: UserId,
    pub signatures: Vec<Signature>,
}

impl SignedUser {
    /// The user id `id` with the one certification `signature`.
    pub fn new(id: UserId, signature: Signature) -> (r: Self)
        ensures
            r.id == id,
            r.signatures@ == seq![signature],
    {
        let mut signatures = Vec::with_capacity(1);
        signatures.push(signature);
        SignedUser { id, signatures }
    }
}

/// A user attribute with its certifications.
#[derive(Clone, Debug, PartialEq, Eq)]
pub struct SignedUserAttribute {
    pub attr: UserAttribute,
    pub signatures: Vec<Signature>,
}

impl SignedUserAttribute {
    /// The user attribute `attr` with the one certification `signature`.
    pub fn new(attr: UserAttribute, signature: Signature) -> (r: Self)
        ensures
            r.attr == attr,
            r.signatures@ == seq![signature],
    {
        let mut signatures = Vec::with_capacity(1);
        signatures.push(signature);
        SignedUserAttribute { attr, signatures }
    }
}

/// The certified identity of a key: its users, the primary one first, and
/// its user attributes.
#[derive(Clone, Debug, PartialEq, Eq)]
pub struct SignedKeyDetails {
    pub revocation_signatures: Vec<Signature>,
    pub direct_signatures: Vec<Signature>,
    pub users: Vec<SignedUser>,
    pub user_attributes: Vec<SignedUserAttribute>,
}

/// A public subkey with the signatures that bind it to its primary key.
#[derive(Clone, Debug, PartialEq, Eq)]
pub struct SignedPublicSubKey {
    pub key: PublicSubkey,
    pub signatures: Vec<Signature>,
}

/// A secret subkey with the signatures that bind it to its primary key.
#[derive(Clone, Debug, PartialEq, Eq)]
pub struct SignedSecretSubKey {
    pub key: SecretSubkey,
    pub signatures: Vec<Signature>,
}

/// A certified public key.
#[derive(Clone, Debug, PartialEq, Eq)]
pub struct SignedPublicKey {
    pub primary_key: PublicKey,
    pub details: SignedKeyDetails,
    pub public_subkeys: Vec<SignedPublicSubKey>,
}

/// A certified secret key.
#[derive(Clone, Debug, PartialEq, Eq)]
pub struct SignedSecretKey {
    pub primary_key: SecretKey,
    pub details: SignedKeyDetails,
    pub public_subkeys: Vec<SignedPublicSubKey>,
    pub secret_subkeys: Vec<SignedSecretSubKey>,
}

} // verus!
