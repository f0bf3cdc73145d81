//! Public keys and key hashes.
use vstd::prelude::*;

use crate::bytes::to_array;
use crate::crypto::{
    hash160, hash160_digest, is_public_key, is_x_only_public_key, parse_public_key,
    parse_x_only_public_key,
};
use crate::error::Error;

verus! {

/// The serialization of a full key, in either of its forms.
#[derive(Clone, Copy, PartialEq, Eq, Debug)]
enum Serialization {
    /// One byte for the parity of `y`, then `x`.
    Compressed([u8; 33]),
    /// The byte 4, then `x`, then `y`.
    Uncompressed([u8; 65]),
}

/// A full (ECDSA) public key, held as its serialization.
#[derive(Clone, Copy, PartialEq, Eq, Debug)]
pub struct PublicKey {
    serialization: Serialization,
}

impl View for PublicKey {
    type V = Seq<u8>;

    closed spec fn view(&self) -> Seq<u8> {
        match self.serialization {
            Serialization::Compressed(bytes) => bytes@,
            Serialization::Uncompressed(bytes) => bytes@,
        }
    }
}

impl PublicKey {
    #[verifier::type_invariant]
    pub open spec fn well_formed(self) -> bool {
        is_public_key(self@)
    }

    /// The key with this serialization.
    fn from_serialized(bytes: &[u8]) -> (key: PublicKey)
        requires
            is_public_key(bytes@),
            bytes@.len() == 33 || bytes@.len() == 65,
        ensures
            key@ == bytes@,
    {
        if bytes.len() == 33 {
            PublicKey { serialization: Serialization::Compressed(to_array(bytes)) }
        } else {
            PublicKey { serialization: Serialization::Uncompressed(to_array(bytes)) }
        }
    }

    /// Reads a serialized key, if these bytes are one.
    pub fn from_slice(slice: &[u8]) -> (key: Option<PublicKey>)
        ensures
            key is Some == is_public_key(slice@),
            key matches Some(pk) ==> pk@ == slice@,
    {
        match parse_public_key(slice) {
            Some(bytes) => Some(PublicKey::from_serialized(bytes.as_slice())),
            None => None,
        }
    }

    /// The serialization of the key.
    pub fn serialize(&self) -> (bytes: &[u8])
        ensures
            bytes@ == self@,
            is_public_key(self@),
    {
        proof {
            use_type_invariant(self);
        }
        match &self.serialization {
            Serialization::Compressed(bytes) => bytes,
            Serialization::Uncompressed(bytes) => bytes,
        }
    }

    /// Whether this is the compressed form, which is the one with 33 bytes.
    pub fn compressed(&self) -> (yes: bool)
        ensures
            yes == (self@.len() == 33),
    {
        match &self.serialization {
            Serialization::Compressed(_) => true,
            Serialization::Uncompressed(_) => false,
        }
    }

    /// The hash of the serialized key.
    pub fn to_pubkeyhash(&self) -> (hash: [u8; 20])
        ensures
            hash@ == hash160_digest(self@),
    {
        hash160(self.serialize())
    }

    /// The key that parsing gave, unless a compressed key is asked for and it is not one.
    pub fn checked(parsed: Option<PublicKey>, require_compressed: bool) -> (key: Result<
        PublicKey,
        Error,
    >)
        ensures
            key == match parsed {
                None => Err::<PublicKey, Error>(Error::PubkeyParseError),
                Some(pk) => if require_compressed && pk@.len() != 33 {
                    Err(Error::UncompressedPubkey)
                } else {
                    Ok(pk)
                },
            },
    {
        match parsed {
            Some(pk) => {
                if require_compressed && !pk.compressed() {
                    Err(Error::UncompressedPubkey)
                } else {
                    Ok(pk)
                }
            },
            None => Err(Error::PubkeyParseError),
        }
    }
}

/// An x-only (Schnorr) public key, held as its serialization.
#[derive(Clone, Copy, PartialEq, Eq, Debug)]
pub struct XOnlyPublicKey {
    bytes: [u8; 32],
}

impl View for XOnlyPublicKey {
    type V = Seq<u8>;

    closed spec fn view(&self) -> Seq<u8> {
        self.bytes@
    }
}

impl XOnlyPublicKey {
    #[verifier::type_invariant]
    pub open spec fn well_formed(self) -> bool {
        is_x_only_public_key(self@)
    }

    /// Reads a serialized key, if these bytes are one.
    pub fn from_slice(slice: &[u8]) -> (key: Option<XOnlyPublicKey>)
        ensures
            key is Some == is_x_only_public_key(slice@),
            key matches Some(pk) ==> pk@ == slice@,
    {
        match parse_x_only_public_key(slice) {
            Some(bytes) => Some(XOnlyPublicKey { bytes }),
            None => None,
        }
    }

    /// The serialization of the key.
    pub fn serialize(&self) -> (bytes: [u8; 32])
        ensures
            bytes@ == self@,
            is_x_only_public_key(self@),
    {
        proof {
            use_type_invariant(self);
        }
        self.bytes
    }
}

/// A public key of either kind.
#[derive(Clone, Copy, PartialEq, Eq, Debug)]
pub enum BitcoinKey {
    /// A full key.
    Fullkey(PublicKey),
    /// An x-only key.
    XOnlyPublicKey(XOnlyPublicKey),
}

/// What a [`BitcoinKey`] stands for: its kind, and its serialization.
pub enum BitcoinKeyModel {
    Fullkey(Seq<u8>),
    XOnlyPublicKey(Seq<u8>),
}

impl BitcoinKeyModel {
    /// Whether the serialization is one of a key of this kind.
    pub open spec fn is_key(self) -> bool {
        match self {
            BitcoinKeyModel::Fullkey(bytes) => is_public_key(bytes),
            BitcoinKeyModel::XOnlyPublicKey(bytes) => is_x_only_public_key(bytes),
        }
    }
}

impl View for BitcoinKey {
    type V = BitcoinKeyModel;

    open spec fn view(&self) -> BitcoinKeyModel {
        match self {
            BitcoinKey::Fullkey(pk) => BitcoinKeyModel::Fullkey(pk@),
            BitcoinKey::XOnlyPublicKey(pk) => BitcoinKeyModel::XOnlyPublicKey(pk@),
        }
    }
}

impl vstd::std_specs::convert::FromSpecImpl<PublicKey> for BitcoinKey {
    open spec fn obeys_from_spec() -> bool {
        true
    }

    open spec fn from_spec(key: PublicKey) -> BitcoinKey {
        BitcoinKey::Fullkey(key)
    }
}

impl From<PublicKey> for BitcoinKey {
    fn from(key: PublicKey) -> (tagged: BitcoinKey) {
        BitcoinKey::Fullkey(key)
    }
}

impl vstd::std_specs::convert::FromSpecImpl<XOnlyPublicKey> for BitcoinKey {
    open spec fn obeys_from_spec() -> bool {
        true
    }

    open spec fn from_spec(key: XOnlyPublicKey) -> BitcoinKey {
        BitcoinKey::XOnlyPublicKey(key)
    }
}

impl From<XOnlyPublicKey> for BitcoinKey {
    fn from(key: XOnlyPublicKey) -> (tagged: BitcoinKey) {
        BitcoinKey::XOnlyPublicKey(key)
    }
}

/// The hash of a public key, tagged with the kind of the key.
#[derive(Clone, Copy, PartialEq, Eq, Debug)]
pub enum TaggedHash160 {
    /// The hash of an x-only key.
    XonlyKey([u8; 20]),
    /// The hash of a full key.
    FullKey([u8; 20]),
}

/// What a [`TaggedHash160`] stands for.
pub enum TaggedHash160Model {
    XonlyKey(Seq<u8>),
    FullKey(Seq<u8>),
}

impl View for TaggedHash160 {
    type V = TaggedHash160Model;

    open spec fn view(&self) -> TaggedHash160Model {
        match self {
            TaggedHash160::XonlyKey(hash) => TaggedHash160Model::XonlyKey(hash@),
            TaggedHash160::FullKey(hash) => TaggedHash160Model::FullKey(hash@),
        }
    }
}

} // verus!
