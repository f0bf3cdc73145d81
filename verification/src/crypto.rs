//! Hashes, key parsing and taproot commitments.
use vstd::prelude::*;

use bitcoin::util::taproot;

use crate::error::TaprootError;

verus! {

/// What `bitcoin::hashes::hash160::Hash::hash` returns: RIPEMD-160 of SHA-256.
pub uninterp spec fn hash160_digest(data: Seq<u8>) -> Seq<u8>;

/// Calls `bitcoin::hashes::hash160::Hash::hash`. Nothing is said of the digest but that it is a
/// function of the data.
#[verifier::external_body]
pub(crate) fn hash160(data: &[u8]) -> (digest: [u8; 20])
    ensures
        digest@ == hash160_digest(data@),
{
    let digest: bitcoin::hashes::hash160::Hash = bitcoin::hashes::Hash::hash(data);
    bitcoin::hashes::Hash::into_inner(digest)
}

/// What `bitcoin::hashes::sha256::Hash::hash` returns.
pub uninterp spec fn sha256_digest(data: Seq<u8>) -> Seq<u8>;

/// Calls `bitcoin::hashes::sha256::Hash::hash`. Nothing is said of the digest but that it is a
/// function of the data.
#[verifier::external_body]
pub(crate) fn sha256(data: &[u8]) -> (digest: [u8; 32])
    ensures
        digest@ == sha256_digest(data@),
{
    let digest: bitcoin::hashes::sha256::Hash = bitcoin::hashes::Hash::hash(data);
    bitcoin::hashes::Hash::into_inner(digest)
}

/// Whether `bitcoin::PublicKey::from_slice` accepts these bytes: they are the compressed or the
/// uncompressed serialization of a point on the curve.
pub uninterp spec fn is_public_key(data: Seq<u8>) -> bool;

/// Calls `bitcoin::PublicKey::from_slice` and serializes the key again with `to_bytes`. A key has
/// 33 bytes if it is compressed and 65 if it is not, no other encoding is accepted, and
/// serializing undoes parsing.
#[verifier::external_body]
pub(crate) fn parse_public_key(data: &[u8]) -> (key: Option<Vec<u8>>)
    ensures
        key is Some == is_public_key(data@),
        key matches Some(bytes) ==> bytes@ == data@ && (data@.len() == 33 || data@.len() == 65),
{
    match bitcoin::PublicKey::from_slice(data) {
        Ok(key) => Some(key.to_bytes()),
        Err(_) => None,
    }
}

/// Whether `bitcoin::XOnlyPublicKey::from_slice` accepts these bytes: they are the `x` coordinate
/// of a point on the curve.
pub uninterp spec fn is_x_only_public_key(data: Seq<u8>) -> bool;

/// Calls `bitcoin::XOnlyPublicKey::from_slice` and serializes the key again. A key has 32 bytes,
/// and serializing undoes parsing.
#[verifier::external_body]
pub(crate) fn parse_x_only_public_key(data: &[u8]) -> (key: Option<[u8; 32]>)
    ensures
        key is Some == is_x_only_public_key(data@),
        key matches Some(bytes) ==> bytes@ == data@,
{
    match bitcoin::XOnlyPublicKey::from_slice(data) {
        Ok(key) => Some(key.serialize()),
        Err(_) => None,
    }
}

/// What is wrong with a control block. A good one is a byte that holds the leaf version (its last
/// bit is the parity of the output key), an x-only key, and at most 128 hashes of 32 bytes.
pub open spec fn control_block_error(data: Seq<u8>) -> Option<TaprootError> {
    if data.len() < 33 || (data.len() - 33) % 32 != 0 {
        Some(TaprootError::InvalidControlBlockSize(data.len() as usize))
    } else if data[0] == 0x50 || data[0] == 0x51 {
        Some(TaprootError::InvalidTaprootLeafVersion(0x50))
    } else if !is_x_only_public_key(data.subrange(1, 33)) {
        Some(TaprootError::InvalidInternalKey)
    } else if data.len() > 33 + 32 * 128 {
        Some(TaprootError::InvalidMerkleTreeDepth(((data.len() - 33) / 32) as usize))
    } else {
        None
    }
}

/// Calls `bitcoin::util::taproot::ControlBlock::from_slice`, which checks in turn the size, the
/// leaf version (0x50 is kept free for the annex), the internal key and the depth. The variants
/// of the error are the ones of `bitcoin::util::taproot::TaprootError`, without the errors
/// nested in them.
#[verifier::external_body]
pub(crate) fn check_control_block(data: &[u8]) -> (checked: Result<(), TaprootError>)
    ensures
        match control_block_error(data@) {
            Some(e) => checked == Err::<(), TaprootError>(e),
            None => checked is Ok,
        },
{
    match taproot::ControlBlock::from_slice(data) {
        Ok(_) => Ok(()),
        Err(e) => Err(match e {
            taproot::TaprootError::InvalidMerkleBranchSize(n) => TaprootError::InvalidMerkleBranchSize(n),
            taproot::TaprootError::InvalidMerkleTreeDepth(n) => TaprootError::InvalidMerkleTreeDepth(n),
            taproot::TaprootError::InvalidTaprootLeafVersion(v) => TaprootError::InvalidTaprootLeafVersion(v),
            taproot::TaprootError::InvalidControlBlockSize(n) => TaprootError::InvalidControlBlockSize(n),
            taproot::TaprootError::InvalidInternalKey(_) => TaprootError::InvalidInternalKey,
            taproot::TaprootError::InvalidParity(_) => TaprootError::InvalidParity,
            taproot::TaprootError::EmptyTree => TaprootError::EmptyTree,
        }),
    }
}

/// What `bitcoin::util::taproot::ControlBlock::verify_taproot_commitment` returns on a control
/// block, an output key and a script: whether the output key is the internal key of the control
/// block, tweaked by the tree that the script and the hashes of the control block give.
pub uninterp spec fn taproot_commitment_holds(
    control_block: Seq<u8>,
    output_key: Seq<u8>,
    script: Seq<u8>,
) -> bool;

/// Calls `bitcoin::util::taproot::ControlBlock::verify_taproot_commitment` on the control block
/// and the key that the bytes stand for, with a new verification context. Nothing is said of the
/// answer but that it is a function of the three byte strings.
#[verifier::external_body]
pub(crate) fn verify_taproot_commitment(
    control_block: &[u8],
    output_key: &[u8; 32],
    script: &[u8],
) -> (holds: bool)
    requires
        control_block_error(control_block@) is None,
        is_x_only_public_key(output_key@),
    ensures
        holds == taproot_commitment_holds(control_block@, output_key@, script@),
{
    let secp = bitcoin::secp256k1::Secp256k1::verification_only();
    let control_block = taproot::ControlBlock::from_slice(control_block).unwrap();
    let output_key = bitcoin::XOnlyPublicKey::from_slice(output_key).unwrap();
    let script = bitcoin::Script::from(script.to_vec());
    control_block.verify_taproot_commitment(&secp, output_key, &script)
}

} // verus!
