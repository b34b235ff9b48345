//! The packets that a key is made of: key flags, user ids, user attributes,
//! signature configurations and signatures, and the key packets themselves.

use vstd::prelude::*;
use crate::params::PublicParams;
use crate::params::SecretParams;
use crate::types::CompressionAlgorithm;
use crate::types::HashAlgorithm;
use crate::types::KeyId;
use crate::types::KeyVersion;
use crate::types::PublicKeyAlgorithm;
use crate::types::RevocationKey;
use crate::types::SymmetricKeyAlgorithm;
use crate::types::Version;

verus! {

/// Bit of the capability to certify other keys.
pub const FLAG_CERTIFY: u8 = 0x01;

/// Bit of the capability to sign data.
pub const FLAG_SIGN: u8 = 0x02;

/// Bit of the capability to encrypt communications.
pub const FLAG_ENCRYPT_COMMS: u8 = 0x04;

/// Bit of the capability to encrypt storage.
pub const FLAG_ENCRYPT_STORAGE: u8 = 0x08;

/// The capabilities of a key, one bit each.
#[derive(Clone, Copy, Debug, PartialEq, Eq)]
pub struct KeyFlags(pub u8);

/// Whether the bit `mask` is set in `bits`.
pub open spec fn has_flag(bits: u8, mask: u8) -> bool {
    bits & mask == mask
}

/// The flag byte that stands for the given capabilities, and for no other.
pub open spec fn capability_bits(
    certify: bool,
    sign: bool,
    encrypt_comms: bool,
    encrypt_storage: bool,
) -> u8 {
    ((if certify { 1int } else { 0int }) + (if sign { 2int } else { 0int }) + (if encrypt_comms {
        4int
    } else {
        0int
    }) + (if encrypt_storage { 8int } else { 0int })) as u8
}

/// Whether `mask` is the bit of one of the four capabilities.
pub open spec fn is_capability(mask: u8) -> bool {
    mask == FLAG_CERTIFY || mask == FLAG_SIGN || mask == FLAG_ENCRYPT_COMMS || mask
        == FLAG_ENCRYPT_STORAGE
}

/// Whether two flag bytes agree on every bit but `mask`.
pub open spec fn same_but(a: u8, b: u8, mask: u8) -> bool {
    &&& mask != FLAG_CERTIFY ==> has_flag(a, FLAG_CERTIFY) == has_flag(b, FLAG_CERTIFY)
    &&& mask != FLAG_SIGN ==> has_flag(a, FLAG_SIGN) == has_flag(b, FLAG_SIGN)
    &&& mask != FLAG_ENCRYPT_COMMS ==> has_flag(a, FLAG_ENCRYPT_COMMS) == has_flag(
        b,
        FLAG_ENCRYPT_COMMS,
    )
    &&& mask != FLAG_ENCRYPT_STORAGE ==> has_flag(a, FLAG_ENCRYPT_STORAGE) == has_flag(
        b,
        FLAG_ENCRYPT_STORAGE,
    )
    &&& a & 0xf0 == b & 0xf0
}

/// `bits` with the bit `mask` set to `value`.
fn with_flag(bits: u8, mask: u8, value: bool) -> (r: u8)
    requires
        is_capability(mask),
    ensures
        has_flag(r, mask) == value,
        same_but(r, bits, mask),
{
    if value {
        let r = bits | mask;
        assert((mask == 1 || mask == 2 || mask == 4 || mask == 8) ==> {
            &&& r & mask == mask
            &&& (mask != 1 ==> (r & 1 == 1) == (bits & 1 == 1))
            &&& (mask != 2 ==> (r & 2 == 2) == (bits & 2 == 2))
            &&& (mask != 4 ==> (r & 4 == 4) == (bits & 4 == 4))
            &&& (mask != 8 ==> (r & 8 == 8) == (bits & 8 == 8))
            &&& r & 0xf0 == bits & 0xf0
        }) by (bit_vector)
            requires
                r == bits | mask,
        ;
        r
    } else {
        let r = bits & !mask;
        assert((mask == 1 || mask == 2 || mask == 4 || mask == 8) ==> {
            &&& r & mask != mask
            &&& (mask != 1 ==> (r & 1 == 1) == (bits & 1 == 1))
            &&& (mask != 2 ==> (r & 2 == 2) == (bits & 2 == 2))
            &&& (mask != 4 ==> (r & 4 == 4) == (bits & 4 == 4))
            &&& (mask != 8 ==> (r & 8 == 8) == (bits & 8 == 8))
            &&& r & 0xf0 == bits & 0xf0
        }) by (bit_vector)
            requires
                r == bits & !mask,
        ;
        r
    }
}

impl KeyFlags {
    /// Whether the key may certify other keys.
    pub open spec fn spec_certify(&self) -> bool {
        has_flag(self.0, FLAG_CERTIFY)
    }

    /// Whether the key may sign data.
    pub open spec fn spec_sign(&self) -> bool {
        has_flag(self.0, FLAG_SIGN)
    }

    /// Whether the key may encrypt communications.
    pub open spec fn spec_encrypt_comms(&self) -> bool {
        has_flag(self.0, FLAG_ENCRYPT_COMMS)
    }

    /// Whether the key may encrypt storage.
    pub open spec fn spec_encrypt_storage(&self) -> bool {
        has_flag(self.0, FLAG_ENCRYPT_STORAGE)
    }

    /// Whether the key may certify other keys.
    #[verifier::when_used_as_spec(spec_certify)]
    pub fn certify(&self) -> (r: bool)
        ensures
            r == self.spec_certify(),
    {
        self.0 & FLAG_CERTIFY == FLAG_CERTIFY
    }

    /// Whether the key may sign data.
    #[verifier::when_used_as_spec(spec_sign)]
    pub fn sign(&self) -> (r: bool)
        ensures
            r == self.spec_sign(),
    {
        self.0 & FLAG_SIGN == FLAG_SIGN
    }

    /// Whether the key may encrypt communications.
    #[verifier::when_used_as_spec(spec_encrypt_comms)]
    pub fn encrypt_comms(&self) -> (r: bool)
        ensures
            r == self.spec_encrypt_comms(),
    {
        self.0 & FLAG_ENCRYPT_COMMS == FLAG_ENCRYPT_COMMS
    }

    /// Whether the key may encrypt storage.
    #[verifier::when_used_as_spec(spec_encrypt_storage)]
    pub fn encrypt_storage(&self) -> (r: bool)
        ensures
            r == self.spec_encrypt_storage(),
    {
        self.0 & FLAG_ENCRYPT_STORAGE == FLAG_ENCRYPT_STORAGE
    }

    /// Sets or clears the capability to certify; the other bits stay.
    pub fn set_certify(&mut self, value: bool)
        ensures
            final(self).certify() == value,
            same_but(final(self).0, old(self).0, FLAG_CERTIFY),
    {
        self.0 = with_flag(self.0, FLAG_CERTIFY, value);
    }

    /// Sets or clears the capability to sign; the other bits stay.
    pub fn set_sign(&mut self, value: bool)
        ensures
            final(self).sign() == value,
            same_but(final(self).0, old(self).0, FLAG_SIGN),
    {
        self.0 = with_flag(self.0, FLAG_SIGN, value);
    }

    /// Sets or clears the capability to encrypt communications; the other
    /// bits stay.
    pub fn set_encrypt_comms(&mut self, value: bool)
        ensures
            final(self).encrypt_comms() == value,
            same_but(final(self).0, old(self).0, FLAG_ENCRYPT_COMMS),
    {
        self.0 = with_flag(self.0, FLAG_ENCRYPT_COMMS, value);
    }

    /// Sets or clears the capability to encrypt storage; the other bits stay.
    pub fn set_encrypt_storage(&mut self, value: bool)
        ensures
            final(self).encrypt_storage() == value,
            same_but(final(self).0, old(self).0, FLAG_ENCRYPT_STORAGE),
    {
        self.0 = with_flag(self.0, FLAG_ENCRYPT_STORAGE, value);
    }

    /// The flags of a key with the given capabilities. A key that may
    /// encrypt may encrypt both communications and storage.
    pub fn from_capabilities(can_certify: bool, can_sign: bool, can_encrypt: bool) -> (r: Self)
        ensures
            r.0 == capability_bits(can_certify, can_sign, can_encrypt, can_encrypt),
            r.certify() == can_certify,
            r.sign() == can_sign,
            r.encrypt_comms() == can_encrypt,
            r.encrypt_storage() == can_encrypt,
    {
        let mut flags = KeyFlags::default();
        flags.set_certify(can_certify);
        flags.set_encrypt_comms(can_encrypt);
        flags.set_encrypt_storage(can_encrypt);
        flags.set_sign(can_sign);
        proof {
            assert(0u8 & 0xf0 == 0) by (bit_vector);
            lemma_flag_bits(flags.0);
        }
        flags
    }

    /// The flags as the bytes of a signature subpacket.
    pub fn to_bytes(&self) -> (bytes: Vec<u8>)
        ensures
            bytes@ == seq![self.0],
    {
        let mut bytes = Vec::with_capacity(1);
        bytes.push(self.0);
        bytes
    }
}

impl Default for KeyFlags {
    /// No capability at all.
    fn default() -> (r: Self)
        ensures
            r.0 == 0,
            !r.certify(),
            !r.sign(),
            !r.encrypt_comms(),
            !r.encrypt_storage(),
    {
        assert(0u8 & 1 != 1 && 0u8 & 2 != 2 && 0u8 & 4 != 4 && 0u8 & 8 != 8) by (bit_vector);
        KeyFlags(0)
    }
}

/// The flag byte that stands for four capabilities shows each of them, and
/// no bit above them.
pub proof fn lemma_capability_flags(
    certify: bool,
    sign: bool,
    encrypt_comms: bool,
    encrypt_storage: bool,
)
    ensures
        has_flag(capability_bits(certify, sign, encrypt_comms, encrypt_storage), FLAG_CERTIFY)
            == certify,
        has_flag(capability_bits(certify, sign, encrypt_comms, encrypt_storage), FLAG_SIGN)
            == sign,
        has_flag(
            capability_bits(certify, sign, encrypt_comms, encrypt_storage),
            FLAG_ENCRYPT_COMMS,
        ) == encrypt_comms,
        has_flag(
            capability_bits(certify, sign, encrypt_comms, encrypt_storage),
            FLAG_ENCRYPT_STORAGE,
        ) == encrypt_storage,
        capability_bits(certify, sign, encrypt_comms, encrypt_storage) & 0xf0 == 0,
{
    let bits = capability_bits(certify, sign, encrypt_comms, encrypt_storage);
    assert(bits <= 15 ==> {
        &&& (bits & 1 == 1) == (bits % 2 == 1)
        &&& (bits & 2 == 2) == ((bits / 2) % 2 == 1)
        &&& (bits & 4 == 4) == ((bits / 4) % 2 == 1)
        &&& (bits & 8 == 8) == (bits / 8 == 1)
        &&& bits & 0xf0 == 0
    }) by (bit_vector);
}

/// A flag byte with no bit above the four capabilities is determined by
/// those four.
pub proof fn lemma_flag_bits(bits: u8)
    requires
        bits & 0xf0 == 0,
    ensures
        bits == capability_bits(
            has_flag(bits, FLAG_CERTIFY),
            has_flag(bits, FLAG_SIGN),
            has_flag(bits, FLAG_ENCRYPT_COMMS),
            has_flag(bits, FLAG_ENCRYPT_STORAGE),
        ),
{
    let c: u8 = if bits & 1 == 1 { 1 } else { 0 };
    let s: u8 = if bits & 2 == 2 { 2 } else { 0 };
    let m: u8 = if bits & 4 == 4 { 4 } else { 0 };
    let t: u8 = if bits & 8 == 8 { 8 } else { 0 };
    assert(bits & 0xf0 == 0 ==> bits == (if bits & 1 == 1 { 1u8 } else { 0u8 }) + (if bits & 2
        == 2 { 2u8 } else { 0u8 }) + (if bits & 4 == 4 { 4u8 } else { 0u8 }) + (if bits & 8 == 8 {
        8u8
    } else {
        0u8
    })) by (bit_vector);
    assert(bits == c + s + m + t);
}

/// A user id: the name and address of the key holder, as one string.
#[derive(Debug, PartialEq, Eq)]
pub struct UserId {
    /// Framing of the packet.
    pub packet_version: Version,
    /// The text of the id.
    pub id: String,
}

/// What a user id holds.
pub struct UserIdView {
    pub packet_version: Version,
    pub id: Seq<char>,
}

impl View for UserId {
    type V = UserIdView;

    open spec fn view(&self) -> UserIdView {
        UserIdView { packet_version: self.packet_version, id: self.id@ }
    }
}

impl DeepView for UserId {
    type V = UserIdView;

    open spec fn deep_view(&self) -> UserIdView {
        self@
    }
}

impl UserId {
    /// The user id with the text `input`.
    pub fn from_str(packet_version: Version, input: &str) -> (r: Self)
        ensures
            r@ == (UserIdView { packet_version, id: input@ }),
    {
        UserId { packet_version, id: input.to_owned() }
    }
}

impl Clone for UserId {
    fn clone(&self) -> (r: Self)
        ensures
            r@ == self@,
    {
        UserId { packet_version: self.packet_version, id: self.id.clone() }
    }
}

/// A user attribute: an image of the key holder, or data of a kind that this
/// library does not interpret.
#[derive(Debug, PartialEq, Eq)]
pub enum UserAttribute {
    Image { packet_version: Version, header: Vec<u8>, data: Vec<u8> },
    Unknown { packet_version: Version, typ: u8, data: Vec<u8> },
}

/// What a user attribute holds.
pub enum UserAttributeView {
    Image { packet_version: Version, header: Seq<u8>, data: Seq<u8> },
    Unknown { packet_version: Version, typ: u8, data: Seq<u8> },
}

impl View for UserAttribute {
    type V = UserAttributeView;

    open spec fn view(&self) -> UserAttributeView {
        match self {
            UserAttribute::Image { packet_version, header, data } => UserAttributeView::Image {
                packet_version: *packet_version,
                header: header@,
                data: data@,
            },
            UserAttribute::Unknown { packet_version, typ, data } => UserAttributeView::Unknown {
                packet_version: *packet_version,
                typ: *typ,
                data: data@,
            },
        }
    }
}

impl DeepView for UserAttribute {
    type V = UserAttributeView;

    open spec fn deep_view(&self) -> UserAttributeView {
        self@
    }
}

impl Clone for UserAttribute {
    fn clone(&self) -> (r: Self)
        ensures
            r@ == self@,
    {
        match self {
            UserAttribute::Image { packet_version, header, data } => UserAttribute::Image {
                packet_version: *packet_version,
                header: copy_of(header),
                data: copy_of(data),
            },
            UserAttribute::Unknown { packet_version, typ, data } => UserAttribute::Unknown {
                packet_version: *packet_version,
                typ: *typ,
                data: copy_of(data),
            },
        }
    }
}

/// A vector with the same items in the same order.
pub fn copy_of<T: Copy>(items: &Vec<T>) -> (r: Vec<T>)
    ensures
        r@ == items@,
{
    let mut r = Vec::with_capacity(items.len());
    let mut i: usize = 0;
    while i < items.len()
        invariant
            0 <= i <= items.len(),
            r@ == items@.take(i as int),
        decreases items.len() - i,
    {
        r.push(items[i]);
        assert(items@.take(i + 1) =~= items@.take(i as int).push(items@[i as int]));
        i += 1;
    }
    assert(items@.take(items.len() as int) =~= items@);
    r
}

/// What a signature attests.
#[derive(Clone, Copy, Debug, PartialEq, Eq)]
pub enum SignatureType {
    /// Signature over a binary document.
    Binary,
    /// Signature over a text document.
    Text,
    /// Signature over its own subpackets only.
    Standalone,
    /// Certification of a user id, with no claim on how well it was checked.
    CertGeneric,
    /// Certification of a user id that was not checked at all.
    CertPersona,
    /// Certification of a user id after some casual checking.
    CertCasual,
    /// Certification of a user id after substantial checking.
    CertPositive,
    /// Statement of the primary key that it owns the subkey.
    SubkeyBinding,
    /// Statement of a signing subkey that it belongs to the primary key.
    KeyBinding,
    /// Signature directly over a key.
    Key,
    /// Revocation of a key.
    KeyRevocation,
    /// Revocation of a subkey.
    SubkeyRevocation,
    /// Revocation of a certification.
    CertRevocation,
}

/// Format version of a signature packet.
#[derive(Clone, Copy, Debug, PartialEq, Eq)]
pub enum SignatureVersion {
    V2,
    V3,
    V4,
    V5,
}

impl Default for SignatureVersion {
    fn default() -> (r: Self)
        ensures
            r == SignatureVersion::V4,
    {
        SignatureVersion::V4
    }
}

/// One attribute of a signature.
#[derive(Clone, Debug, PartialEq, Eq)]
pub enum Subpacket {
    /// Marks the user id as the primary one of its key.
    IsPrimary(bool),
    /// When the signature was made, in seconds since the Unix epoch.
    SignatureCreationTime(i64),
    /// The capabilities of the key.
    KeyFlags(Vec<u8>),
    /// The ciphers that the key holder prefers, best first.
    PreferredSymmetricAlgorithms(Vec<SymmetricKeyAlgorithm>),
    /// The hash algorithms that the key holder prefers, best first.
    PreferredHashAlgorithms(Vec<HashAlgorithm>),
    /// The compression algorithms that the key holder prefers, best first.
    PreferredCompressionAlgorithms(Vec<CompressionAlgorithm>),
    /// A key that may revoke this one.
    RevocationKey(RevocationKey),
    /// The id of the key that made the signature.
    Issuer(KeyId),
    /// The fingerprint of the key that made the signature.
    IssuerFingerprint(Vec<u8>),
}

/// What a subpacket holds.
pub enum SubpacketView {
    IsPrimary(bool),
    SignatureCreationTime(i64),
    KeyFlags(Seq<u8>),
    PreferredSymmetricAlgorithms(Seq<SymmetricKeyAlgorithm>),
    PreferredHashAlgorithms(Seq<HashAlgorithm>),
    PreferredCompressionAlgorithms(Seq<CompressionAlgorithm>),
    RevocationKey(RevocationKey),
    Issuer(KeyId),
    IssuerFingerprint(Seq<u8>),
}

impl View for Subpacket {
    type V = SubpacketView;

    open spec fn view(&self) -> SubpacketView {
        match self {
            Subpacket::IsPrimary(b) => SubpacketView::IsPrimary(*b),
            Subpacket::SignatureCreationTime(t) => SubpacketView::SignatureCreationTime(*t),
            Subpacket::KeyFlags(f) => SubpacketView::KeyFlags(f@),
            Subpacket::PreferredSymmetricAlgorithms(a) => {
                SubpacketView::PreferredSymmetricAlgorithms(a@)
            },
            Subpacket::PreferredHashAlgorithms(a) => SubpacketView::PreferredHashAlgorithms(a@),
            Subpacket::PreferredCompressionAlgorithms(a) => {
                SubpacketView::PreferredCompressionAlgorithms(a@)
            },
            Subpacket::RevocationKey(k) => SubpacketView::RevocationKey(*k),
            Subpacket::Issuer(id) => SubpacketView::Issuer(*id),
            Subpacket::IssuerFingerprint(f) => SubpacketView::IssuerFingerprint(f@),
        }
    }
}

impl DeepView for Subpacket {
    type V = SubpacketView;

    open spec fn deep_view(&self) -> SubpacketView {
        self@
    }
}

/// Everything about a signature but the signature itself: what it attests,
/// with which algorithms it is made, and its attributes. The hashed
/// attributes are covered by the signature; the unhashed ones are hints
/// beside it.
#[derive(Clone, Debug, PartialEq, Eq)]
pub struct SignatureConfig {
    pub version: SignatureVersion,
    pub typ: SignatureType,
    pub pub_alg: PublicKeyAlgorithm,
    pub hash_alg: HashAlgorithm,
    pub hashed_subpackets: Vec<Subpacket>,
    pub unhashed_subpackets: Vec<Subpacket>,
}

/// What a signature configuration holds.
pub struct SignatureConfigView {
    pub version: SignatureVersion,
    pub typ: SignatureType,
    pub pub_alg: PublicKeyAlgorithm,
    pub hash_alg: HashAlgorithm,
    pub hashed_subpackets: Seq<SubpacketView>,
    pub unhashed_subpackets: Seq<SubpacketView>,
}

impl View for SignatureConfig {
    type V = SignatureConfigView;

    open spec fn view(&self) -> SignatureConfigView {
        SignatureConfigView {
            version: self.version,
            typ: self.typ,
            pub_alg: self.pub_alg,
            hash_alg: self.hash_alg,
            hashed_subpackets: self.hashed_subpackets.deep_view(),
            unhashed_subpackets: self.unhashed_subpackets.deep_view(),
        }
    }
}

impl SignatureConfig {
    /// A configuration of the current format version, hashed with the
    /// default hash algorithm.
    pub fn new(
        typ: SignatureType,
        pub_alg: PublicKeyAlgorithm,
        hashed_subpackets: Vec<Subpacket>,
        unhashed_subpackets: Vec<Subpacket>,
    ) -> (r: Self)
        ensures
            r.version == SignatureVersion::V4,
            r.typ == typ,
            r.pub_alg == pub_alg,
            r.hash_alg == HashAlgorithm::SHA256,
            r.hashed_subpackets == hashed_subpackets,
            r.unhashed_subpackets == unhashed_subpackets,
    {
        SignatureConfig {
            version: SignatureVersion::default(),
            typ,
            pub_alg,
            hash_alg: HashAlgorithm::default(),
            hashed_subpackets,
            unhashed_subpackets,
        }
    }
}

/// What signing yields: the first two bytes of the digest that was signed,
/// and the signature's numbers.
#[derive(Clone, Debug, PartialEq, Eq)]
pub struct SignatureValue {
    pub signed_hash_value: [u8; 2],
    pub signature: Vec<Vec<u8>>,
}

/// A signature with the configuration it was made under.
#[derive(Clone, Debug, PartialEq, Eq)]
pub struct Signature {
    pub config: SignatureConfig,
    pub value: SignatureValue,
}

/// The packet of a primary key, public part.
#[derive(Clone, Debug, PartialEq, Eq)]
pub struct PublicKey {
    pub packet_version: Version,
    pub version: KeyVersion,
    pub algorithm: PublicKeyAlgorithm,
    /// Creation time in seconds since the Unix epoch.
    pub created_at: i64,
    pub expiration: Option<u16>,
    pub public_params: PublicParams,
}

/// The packet of a primary key, with its secret part.
#[derive(Clone, Debug, PartialEq, Eq)]
pub struct SecretKey {
    pub details: PublicKey,
    pub secret_params: SecretParams,
}

/// The packet of a subkey, public part.
#[derive(Clone, Debug, PartialEq, Eq)]
pub struct PublicSubkey {
    pub packet_version: Version,
    pub version: KeyVersion,
    pub algorithm: PublicKeyAlgorithm,
    /// Creation time in seconds since the Unix epoch.
    pub created_at: i64,
    pub expiration: Option<u16>,
    pub public_params: PublicParams,
}

/// The packet of a subkey, with its secret part.
#[derive(Clone, Debug, PartialEq, Eq)]
pub struct SecretSubkey {
    pub details: PublicSubkey,
    pub secret_params: SecretParams,
}

} // verus!
