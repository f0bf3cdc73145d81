//! Output scripts as byte strings, and the forms that they have.
use vstd::prelude::*;

verus! {

/// Whether `spk` pays to a public key: a push of 65 or of 33 bytes, then `OP_CHECKSIG`.
pub open spec fn is_p2pk_script(spk: Seq<u8>) -> bool {
    ||| spk.len() == 67 && spk[0] == 65 && spk[66] == 0xac
    ||| spk.len() == 35 && spk[0] == 33 && spk[34] == 0xac
}

/// Whether `spk` pays to the hash of a public key.
pub open spec fn is_p2pkh_script(spk: Seq<u8>) -> bool {
    &&& spk.len() == 25
    &&& spk[0] == 0x76 && spk[1] == 0xa9 && spk[2] == 20
    &&& spk[23] == 0x88 && spk[24] == 0xac
}

/// Whether `spk` pays to the hash of a script.
pub open spec fn is_p2sh_script(spk: Seq<u8>) -> bool {
    spk.len() == 23 && spk[0] == 0xa9 && spk[1] == 20 && spk[22] == 0x87
}

/// Whether `spk` is a version 0 witness program of 20 bytes.
pub open spec fn is_p2wpkh_script(spk: Seq<u8>) -> bool {
    spk.len() == 22 && spk[0] == 0 && spk[1] == 20
}

/// Whether `spk` is a version 0 witness program of 32 bytes.
pub open spec fn is_p2wsh_script(spk: Seq<u8>) -> bool {
    spk.len() == 34 && spk[0] == 0 && spk[1] == 32
}

/// Whether `spk` is a version 1 witness program of 32 bytes.
pub open spec fn is_p2tr_script(spk: Seq<u8>) -> bool {
    spk.len() == 34 && spk[0] == 0x51 && spk[1] == 32
}

/// The script that pays to a key with this hash: `OP_DUP OP_HASH160`, a push of the hash,
/// `OP_EQUALVERIFY OP_CHECKSIG`.
pub open spec fn p2pkh_script(hash: Seq<u8>) -> Seq<u8> {
    seq![0x76u8, 0xa9u8, 20u8] + hash + seq![0x88u8, 0xacu8]
}

/// The script that pays to a script with this hash: `OP_HASH160`, a push of the hash, `OP_EQUAL`.
pub open spec fn p2sh_script(hash: Seq<u8>) -> Seq<u8> {
    seq![0xa9u8, 20u8] + hash + seq![0x87u8]
}

/// The version 0 witness program for a key with this hash.
pub open spec fn p2wpkh_script(hash: Seq<u8>) -> Seq<u8> {
    seq![0u8, 20u8] + hash
}

/// The version 0 witness program for a script with this hash.
pub open spec fn p2wsh_script(hash: Seq<u8>) -> Seq<u8> {
    seq![0u8, 32u8] + hash
}

/// Calls `bitcoin::Script::is_p2pk`, which compares the length and the first and last byte with
/// those of the two forms.
#[verifier::external_body]
pub(crate) fn is_p2pk(spk: &[u8]) -> (yes: bool)
    ensures
        yes == is_p2pk_script(spk@),
{
    bitcoin::Script::from(spk.to_vec()).is_p2pk()
}

/// Calls `bitcoin::Script::is_p2pkh`, which compares the length and all bytes but the hash with
/// those of the form.
#[verifier::external_body]
pub(crate) fn is_p2pkh(spk: &[u8]) -> (yes: bool)
    ensures
        yes == is_p2pkh_script(spk@),
{
    bitcoin::Script::from(spk.to_vec()).is_p2pkh()
}

/// Calls `bitcoin::Script::is_p2sh`, which compares the length and all bytes but the hash with
/// those of the form.
#[verifier::external_body]
pub(crate) fn is_p2sh(spk: &[u8]) -> (yes: bool)
    ensures
        yes == is_p2sh_script(spk@),
{
    bitcoin::Script::from(spk.to_vec()).is_p2sh()
}

/// Calls `bitcoin::Script::is_v0_p2wpkh`, which compares the length, the version and the push
/// opcode with those of the form.
#[verifier::external_body]
pub(crate) fn is_v0_p2wpkh(spk: &[u8]) -> (yes: bool)
    ensures
        yes == is_p2wpkh_script(spk@),
{
    bitcoin::Script::from(spk.to_vec()).is_v0_p2wpkh()
}

/// Calls `bitcoin::Script::is_v0_p2wsh`, which compares the length, the version and the push
/// opcode with those of the form.
#[verifier::external_body]
pub(crate) fn is_v0_p2wsh(spk: &[u8]) -> (yes: bool)
    ensures
        yes == is_p2wsh_script(spk@),
{
    bitcoin::Script::from(spk.to_vec()).is_v0_p2wsh()
}

/// Calls `bitcoin::Script::is_v1_p2tr`, which compares the length, the version and the push
/// opcode with those of the form.
#[verifier::external_body]
pub(crate) fn is_v1_p2tr(spk: &[u8]) -> (yes: bool)
    ensures
        yes == is_p2tr_script(spk@),
{
    bitcoin::Script::from(spk.to_vec()).is_v1_p2tr()
}

/// Calls `bitcoin::Script::new_p2pkh`, which writes the form around the hash.
#[verifier::external_body]
pub(crate) fn new_p2pkh(hash: &[u8; 20]) -> (script: Vec<u8>)
    ensures
        script@ == p2pkh_script(hash@),
{
    let hash: bitcoin::PubkeyHash = bitcoin::hashes::Hash::from_inner(*hash);
    bitcoin::Script::new_p2pkh(&hash).into_bytes()
}

/// Calls `bitcoin::Script::new_p2sh`, which writes the form around the hash.
#[verifier::external_body]
pub(crate) fn new_p2sh(hash: &[u8; 20]) -> (script: Vec<u8>)
    ensures
        script@ == p2sh_script(hash@),
{
    let hash: bitcoin::ScriptHash = bitcoin::hashes::Hash::from_inner(*hash);
    bitcoin::Script::new_p2sh(&hash).into_bytes()
}

/// Calls `bitcoin::Script::new_v0_p2wpkh`, which writes the version and a push of the hash.
#[verifier::external_body]
pub(crate) fn new_v0_p2wpkh(hash: &[u8; 20]) -> (script: Vec<u8>)
    ensures
        script@ == p2wpkh_script(hash@),
{
    let hash: bitcoin::WPubkeyHash = bitcoin::hashes::Hash::from_inner(*hash);
    bitcoin::Script::new_v0_p2wpkh(&hash).into_bytes()
}

/// Calls `bitcoin::Script::new_v0_p2wsh`, which writes the version and a push of the hash.
#[verifier::external_body]
pub(crate) fn new_v0_p2wsh(hash: &[u8; 32]) -> (script: Vec<u8>)
    ensures
        script@ == p2wsh_script(hash@),
{
    let hash: bitcoin::WScriptHash = bitcoin::hashes::Hash::from_inner(*hash);
    bitcoin::Script::new_v0_p2wsh(&hash).into_bytes()
}

/// The form of an output script.
#[derive(Clone, Copy, PartialEq, Eq, Debug, Structural)]
pub enum OutputType {
    /// Pays to a public key.
    P2pk,
    /// Pays to the hash of a public key.
    P2pkh,
    /// Pays to the hash of a public key, in a witness program.
    P2wpkh,
    /// Pays to the hash of a script, in a witness program.
    P2wsh,
    /// Pays to a taproot output key.
    P2tr,
    /// Pays to the hash of a script.
    P2sh,
    /// Any other script, which is its own spending condition.
    Bare,
}

/// The form of an output script.
pub open spec fn output_type_model(spk: Seq<u8>) -> OutputType {
    if is_p2pk_script(spk) {
        OutputType::P2pk
    } else if is_p2pkh_script(spk) {
        OutputType::P2pkh
    } else if is_p2wpkh_script(spk) {
        OutputType::P2wpkh
    } else if is_p2wsh_script(spk) {
        OutputType::P2wsh
    } else if is_p2tr_script(spk) {
        OutputType::P2tr
    } else if is_p2sh_script(spk) {
        OutputType::P2sh
    } else {
        OutputType::Bare
    }
}

/// The form of an output script.
pub fn output_type(spk: &[u8]) -> (form: OutputType)
    ensures
        form == output_type_model(spk@),
{
    if is_p2pk(spk) {
        OutputType::P2pk
    } else if is_p2pkh(spk) {
        OutputType::P2pkh
    } else if is_v0_p2wpkh(spk) {
        OutputType::P2wpkh
    } else if is_v0_p2wsh(spk) {
        OutputType::P2wsh
    } else if is_v1_p2tr(spk) {
        OutputType::P2tr
    } else if is_p2sh(spk) {
        OutputType::P2sh
    } else {
        OutputType::Bare
    }
}

} // verus!
