use bitcoin::blockdata::script;
use bitcoin::blockdata::witness::Witness;
use bitcoin::hashes::hex::FromHex;
use bitcoin::hashes::{hash160, sha256};
use bitcoin::Script;
use std::str::FromStr;

use spend_data::error::Error;
use spend_data::inner::{Decoded, Inner, Outcome, PubkeyType, ScriptContext, ScriptType, TxData};
use spend_data::keys::{BitcoinKey, PublicKey, TaggedHash160};
use spend_data::miniscript::{pre_taproot_to_no_checks, Miniscript};
use spend_data::stack::{Element, Stack};
use spend_data::txdata::from_txdata;

fn hash160_of(data: &[u8]) -> hash160::Hash {
    bitcoin::hashes::Hash::hash(data)
}

fn sha256_of(data: &[u8]) -> sha256::Hash {
    bitcoin::hashes::Hash::hash(data)
}

/// Decodes the one script that these tests use, `hash160(h)`.
fn decode(script: &[u8]) -> Result<Decoded<PublicKey>, String> {
    if script.len() == 27 {
        let mut hash = [0u8; 20];
        hash.copy_from_slice(&script[6..26]);
        if hash160_script(&hash).as_bytes() == script {
            return Ok(Decoded {
                miniscript: Miniscript::Hash160(hash),
                script: script.to_vec(),
            });
        }
    }
    Err(format!("unexpected script of {} bytes", script.len()))
}

/// The script of `hash160(h)`.
fn hash160_script(hash: &[u8; 20]) -> Script {
    script::Builder::new()
        .push_opcode(bitcoin::blockdata::opcodes::all::OP_SIZE)
        .push_int(32)
        .push_opcode(bitcoin::blockdata::opcodes::all::OP_EQUALVERIFY)
        .push_opcode(bitcoin::blockdata::opcodes::all::OP_HASH160)
        .push_slice(hash)
        .push_opcode(bitcoin::blockdata::opcodes::all::OP_EQUAL)
        .into_script()
}

/// Takes a spend apart, decoding its script where it has one.
fn parse_txdata(
    context: Option<ScriptContext>,
    spk: &Script,
    script_sig: &Script,
    witness: &Witness,
) -> Result<TxData, Error> {
    match from_txdata(spk.as_bytes(), script_sig.as_bytes(), &witness.to_vec())? {
        Outcome::Complete(data) => Ok(data),
        Outcome::NeedsScript(pending) => {
            assert_eq!(Some(pending.spend.context()), context);
            let reply = decode(&pending.script);
            pending.resume(reply)
        }
        Outcome::NeedsTapScript(pending) => pending.resume(Err(format!("no taproot here"))),
    }
}

fn parse_key(spk: &Script, script_sig: &Script, witness: &Witness) -> Result<TxData, Error> {
    parse_txdata(None, spk, script_sig, witness)
}

fn library_key(key: &bitcoin::PublicKey) -> PublicKey {
    PublicKey::from_slice(&key.to_bytes()).unwrap()
}

fn stack_of(items: Vec<&[u8]>) -> Stack {
    Stack::from(items.iter().map(|item| Element::from_bytes(item)).collect::<Vec<Element>>())
}

struct KeyTestData {
    pk_spk: bitcoin::Script,
    pk_sig: bitcoin::Script,
    pkh_spk: bitcoin::Script,
    pkh_sig: bitcoin::Script,
    pkh_sig_justkey: bitcoin::Script,
    wpkh_spk: bitcoin::Script,
    wpkh_stack: Witness,
    wpkh_stack_justkey: Witness,
    sh_wpkh_spk: bitcoin::Script,
    sh_wpkh_sig: bitcoin::Script,
    sh_wpkh_stack: Witness,
    sh_wpkh_stack_justkey: Witness,
}

impl KeyTestData {
    fn from_key(key: bitcoin::PublicKey) -> KeyTestData {
        // what a funny looking signature..
        let dummy_sig = Vec::from_hex(
            "\
            302e02153b78ce563f89a0ed9414f5aa28ad0d96d6795f9c63\
                02153b78ce563f89a0ed9414f5aa28ad0d96d6795f9c65\
        ",
        )
        .unwrap();

        let key_hash = hash160_of(&key.to_bytes());
        let pkhash = key_hash.into();
        let wpkhash = key_hash.into();
        let wpkh_spk = bitcoin::Script::new_v0_p2wpkh(&wpkhash);
        let wpkh_scripthash = hash160_of(&wpkh_spk[..]).into();

        KeyTestData {
            pk_spk: bitcoin::Script::new_p2pk(&key),
            pkh_spk: bitcoin::Script::new_p2pkh(&pkhash),
            pk_sig: script::Builder::new().push_slice(&dummy_sig).into_script(),
            pkh_sig: script::Builder::new()
                .push_slice(&dummy_sig)
                .push_key(&key)
                .into_script(),
            pkh_sig_justkey: script::Builder::new().push_key(&key).into_script(),
            wpkh_spk: wpkh_spk.clone(),
            wpkh_stack: Witness::from_vec(vec![dummy_sig.clone(), key.to_bytes()]),
            wpkh_stack_justkey: Witness::from_vec(vec![key.to_bytes()]),
            sh_wpkh_spk: bitcoin::Script::new_p2sh(&wpkh_scripthash),
            sh_wpkh_sig: script::Builder::new()
                .push_slice(&wpkh_spk[..])
                .into_script(),
            sh_wpkh_stack: Witness::from_vec(vec![dummy_sig, key.to_bytes()]),
            sh_wpkh_stack_justkey: Witness::from_vec(vec![key.to_bytes()]),
        }
    }
}

struct FixedTestData {
    pk_comp: bitcoin::PublicKey,
    pk_uncomp: bitcoin::PublicKey,
}

fn fixed_test_data() -> FixedTestData {
    FixedTestData {
        pk_comp: bitcoin::PublicKey::from_str(
            "\
            025edd5cc23c51e87a497ca815d5dce0f8ab52554f849ed8995de64c5f34ce7143\
        ",
        )
        .unwrap(),
        pk_uncomp: bitcoin::PublicKey::from_str(
            "\
            045edd5cc23c51e87a497ca815d5dce0f8ab52554f849ed8995de64c5f34ce7143\
              efae9c8dbc14130661e8cec030c89ad0c13c66c0d17a2905cdc706ab7399a868\
        ",
        )
        .unwrap(),
    }
}

#[test]
fn pubkey_pk() {
    let fixed = fixed_test_data();
    let comp = KeyTestData::from_key(fixed.pk_comp);
    let uncomp = KeyTestData::from_key(fixed.pk_uncomp);
    let blank_script = bitcoin::Script::new();
    let empty_wit = Witness::default();

    // Compressed pk, empty scriptsig
    let data = parse_key(&comp.pk_spk, &blank_script, &empty_wit).expect("parse txdata");
    assert_eq!(
        data.inner,
        Inner::PublicKey(library_key(&fixed.pk_comp).into(), PubkeyType::Pk)
    );
    assert_eq!(data.stack, Stack::from(vec![]));
    assert_eq!(data.script_code, Some(comp.pk_spk.to_bytes()));

    // Uncompressed pk, empty scriptsig
    let data = parse_key(&uncomp.pk_spk, &blank_script, &empty_wit).expect("parse txdata");
    assert_eq!(
        data.inner,
        Inner::PublicKey(library_key(&fixed.pk_uncomp).into(), PubkeyType::Pk)
    );
    assert_eq!(data.stack, Stack::from(vec![]));
    assert_eq!(data.script_code, Some(uncomp.pk_spk.to_bytes()));

    // Compressed pk, correct scriptsig
    let data = parse_key(&comp.pk_spk, &comp.pk_sig, &empty_wit).expect("parse txdata");
    assert_eq!(
        data.inner,
        Inner::PublicKey(library_key(&fixed.pk_comp).into(), PubkeyType::Pk)
    );
    assert_eq!(data.stack, stack_of(vec![&comp.pk_sig[1..]]));
    assert_eq!(data.script_code, Some(comp.pk_spk.to_bytes()));

    // Uncompressed pk, correct scriptsig
    let data = parse_key(&uncomp.pk_spk, &uncomp.pk_sig, &empty_wit).expect("parse txdata");
    assert_eq!(
        data.inner,
        Inner::PublicKey(library_key(&fixed.pk_uncomp).into(), PubkeyType::Pk)
    );
    assert_eq!(data.stack, stack_of(vec![&uncomp.pk_sig[1..]]));
    assert_eq!(data.script_code, Some(uncomp.pk_spk.to_bytes()));

    // Scriptpubkey has invalid key
    let mut spk = comp.pk_spk.to_bytes();
    spk[1] = 5;
    let spk = bitcoin::Script::from(spk);
    let err = parse_key(&spk, &bitcoin::Script::new(), &empty_wit).unwrap_err();
    assert_eq!(err.message(), "could not parse pubkey");

    // Scriptpubkey has invalid script
    let mut spk = comp.pk_spk.to_bytes();
    spk[0] = 100;
    let spk = bitcoin::Script::from(spk);
    let err = parse_txdata(
        Some(ScriptContext::Bare),
        &spk,
        &bitcoin::Script::new(),
        &empty_wit,
    )
    .unwrap_err();
    assert_eq!(&err.message()[0..12], "parse error:");

    // Witness is nonempty
    let wit = Witness::from_vec(vec![vec![]]);
    let err = parse_key(&comp.pk_spk, &comp.pk_sig, &wit).unwrap_err();
    assert_eq!(err.message(), "legacy spend had nonempty witness");
}

#[test]
fn pubkey_pkh() {
    let fixed = fixed_test_data();
    let comp = KeyTestData::from_key(fixed.pk_comp);
    let uncomp = KeyTestData::from_key(fixed.pk_uncomp);
    let empty_wit = Witness::default();

    // pkh, empty scriptsig; this time it errors out
    let err = parse_key(&comp.pkh_spk, &bitcoin::Script::new(), &empty_wit).unwrap_err();
    assert_eq!(err.message(), "unexpected end of stack");

    // pkh, wrong pubkey
    let err = parse_key(&comp.pkh_spk, &uncomp.pkh_sig_justkey, &empty_wit).unwrap_err();
    assert_eq!(err.message(), "public key did not match scriptpubkey");

    // pkh, right pubkey, no signature
    let data = parse_key(&comp.pkh_spk, &comp.pkh_sig_justkey, &empty_wit).expect("parse txdata");
    assert_eq!(
        data.inner,
        Inner::PublicKey(library_key(&fixed.pk_comp).into(), PubkeyType::Pkh)
    );
    assert_eq!(data.stack, Stack::from(vec![]));
    assert_eq!(data.script_code, Some(comp.pkh_spk.to_bytes()));

    let data =
        parse_key(&uncomp.pkh_spk, &uncomp.pkh_sig_justkey, &empty_wit).expect("parse txdata");
    assert_eq!(
        data.inner,
        Inner::PublicKey(library_key(&fixed.pk_uncomp).into(), PubkeyType::Pkh)
    );
    assert_eq!(data.stack, Stack::from(vec![]));
    assert_eq!(data.script_code, Some(uncomp.pkh_spk.to_bytes()));

    // pkh, right pubkey, signature
    let data = parse_key(&comp.pkh_spk, &comp.pkh_sig_justkey, &empty_wit).expect("parse txdata");
    assert_eq!(
        data.inner,
        Inner::PublicKey(library_key(&fixed.pk_comp).into(), PubkeyType::Pkh)
    );
    assert_eq!(data.stack, Stack::from(vec![]));
    assert_eq!(data.script_code, Some(comp.pkh_spk.to_bytes()));

    let data =
        parse_key(&uncomp.pkh_spk, &uncomp.pkh_sig_justkey, &empty_wit).expect("parse txdata");
    assert_eq!(
        data.inner,
        Inner::PublicKey(library_key(&fixed.pk_uncomp).into(), PubkeyType::Pkh)
    );
    assert_eq!(data.stack, Stack::from(vec![]));
    assert_eq!(data.script_code, Some(uncomp.pkh_spk.to_bytes()));

    // Witness is nonempty
    let wit = Witness::from_vec(vec![vec![]]);
    let err = parse_key(&comp.pkh_spk, &comp.pkh_sig, &wit).unwrap_err();
    assert_eq!(err.message(), "legacy spend had nonempty witness");
}

#[test]
fn pubkey_wpkh() {
    let fixed = fixed_test_data();
    let comp = KeyTestData::from_key(fixed.pk_comp);
    let uncomp = KeyTestData::from_key(fixed.pk_uncomp);
    let blank_script = bitcoin::Script::new();

    // wpkh, empty witness; this time it errors out
    let err = parse_key(&comp.wpkh_spk, &blank_script, &Witness::default()).unwrap_err();
    assert_eq!(err.message(), "unexpected end of stack");

    // wpkh, uncompressed pubkey
    let err = parse_key(&comp.wpkh_spk, &blank_script, &uncomp.wpkh_stack_justkey).unwrap_err();
    assert_eq!(err.message(), "uncompressed pubkey in non-legacy descriptor");

    // wpkh, wrong pubkey
    let err = parse_key(&uncomp.wpkh_spk, &blank_script, &comp.wpkh_stack_justkey).unwrap_err();
    assert_eq!(err.message(), "public key did not match scriptpubkey (segwit v0)");

    // wpkh, right pubkey, no signature
    let data =
        parse_key(&comp.wpkh_spk, &blank_script, &comp.wpkh_stack_justkey).expect("parse txdata");
    assert_eq!(
        data.inner,
        Inner::PublicKey(library_key(&fixed.pk_comp).into(), PubkeyType::Wpkh)
    );
    assert_eq!(data.stack, Stack::from(vec![]));
    assert_eq!(data.script_code, Some(comp.pkh_spk.to_bytes()));

    // wpkh, right pubkey, signature
    let data = parse_key(&comp.wpkh_spk, &blank_script, &comp.wpkh_stack).expect("parse txdata");
    assert_eq!(
        data.inner,
        Inner::PublicKey(library_key(&fixed.pk_comp).into(), PubkeyType::Wpkh)
    );
    assert_eq!(data.stack, stack_of(vec![comp.wpkh_stack.second_to_last().unwrap()]));
    assert_eq!(data.script_code, Some(comp.pkh_spk.to_bytes()));

    // Scriptsig is nonempty
    let err = parse_key(&comp.wpkh_spk, &comp.pk_sig, &comp.wpkh_stack_justkey).unwrap_err();
    assert_eq!(err.message(), "segwit spend had nonempty scriptsig");
}

#[test]
fn pubkey_sh_wpkh() {
    let fixed = fixed_test_data();
    let comp = KeyTestData::from_key(fixed.pk_comp);
    let uncomp = KeyTestData::from_key(fixed.pk_uncomp);
    let blank_script = bitcoin::Script::new();

    // sh_wpkh, missing witness or scriptsig
    let err = parse_key(&comp.sh_wpkh_spk, &blank_script, &Witness::default()).unwrap_err();
    assert_eq!(err.message(), "unexpected end of stack");
    let err = parse_key(&comp.sh_wpkh_spk, &comp.sh_wpkh_sig, &Witness::default()).unwrap_err();
    assert_eq!(err.message(), "unexpected end of stack");
    let err = parse_key(&comp.sh_wpkh_spk, &blank_script, &comp.sh_wpkh_stack).unwrap_err();
    assert_eq!(err.message(), "unexpected end of stack");

    // sh_wpkh, uncompressed pubkey
    let err = parse_key(
        &uncomp.sh_wpkh_spk,
        &uncomp.sh_wpkh_sig,
        &uncomp.sh_wpkh_stack_justkey,
    )
    .unwrap_err();
    assert_eq!(err.message(), "uncompressed pubkey in non-legacy descriptor");

    // sh_wpkh, wrong redeem script for scriptpubkey
    let err = parse_key(
        &uncomp.sh_wpkh_spk,
        &comp.sh_wpkh_sig,
        &comp.sh_wpkh_stack_justkey,
    )
    .unwrap_err();
    assert_eq!(err.message(), "redeem script did not match scriptpubkey");

    // sh_wpkh, wrong redeem script for witness script
    let err = parse_key(
        &uncomp.sh_wpkh_spk,
        &uncomp.sh_wpkh_sig,
        &comp.sh_wpkh_stack_justkey,
    )
    .unwrap_err();
    assert_eq!(err.message(), "witness script did not match scriptpubkey");

    // sh_wpkh, right pubkey, no signature
    let data = parse_key(
        &comp.sh_wpkh_spk,
        &comp.sh_wpkh_sig,
        &comp.sh_wpkh_stack_justkey,
    )
    .expect("parse txdata");
    assert_eq!(
        data.inner,
        Inner::PublicKey(library_key(&fixed.pk_comp).into(), PubkeyType::ShWpkh)
    );
    assert_eq!(data.stack, Stack::from(vec![]));
    assert_eq!(data.script_code, Some(comp.pkh_spk.to_bytes()));

    // sh_wpkh, right pubkey, signature
    let data = parse_key(&comp.sh_wpkh_spk, &comp.sh_wpkh_sig, &comp.sh_wpkh_stack)
        .expect("parse txdata");
    assert_eq!(
        data.inner,
        Inner::PublicKey(library_key(&fixed.pk_comp).into(), PubkeyType::ShWpkh)
    );
    assert_eq!(data.stack, stack_of(vec![comp.sh_wpkh_stack.second_to_last().unwrap()]));
    assert_eq!(data.script_code, Some(comp.pkh_spk.to_bytes()));
}

fn ms_inner_script(hash: hash160::Hash) -> (Miniscript<BitcoinKey, TaggedHash160>, bitcoin::Script) {
    let hash: [u8; 20] = bitcoin::hashes::Hash::into_inner(hash);
    let ms: Miniscript<PublicKey, [u8; 20]> = Miniscript::Hash160(hash);
    let spk = hash160_script(&hash);
    let miniscript = pre_taproot_to_no_checks(&ms);
    (miniscript, spk)
}

#[test]
fn script_bare() {
    let preimage = b"12345678----____12345678----____";
    let hash = hash160_of(&preimage[..]);
    let blank_script = bitcoin::Script::new();
    let empty_wit = Witness::default();
    let (miniscript, spk) = ms_inner_script(hash);
    let bare = Some(ScriptContext::Bare);

    // bare script has no validity requirements beyond being a sane script
    let data = parse_txdata(bare, &spk, &blank_script, &empty_wit).expect("parse txdata");
    assert_eq!(data.inner, Inner::Script(miniscript, ScriptType::Bare));
    assert_eq!(data.stack, Stack::from(vec![]));
    assert_eq!(data.script_code, Some(spk.to_bytes()));

    let err = parse_txdata(bare, &blank_script, &blank_script, &empty_wit).unwrap_err();
    assert_eq!(&err.message()[0..12], "parse error:");

    // nonempty witness
    let wit = Witness::from_vec(vec![vec![]]);
    let err = parse_txdata(bare, &spk, &blank_script, &wit).unwrap_err();
    assert_eq!(&err.message(), "legacy spend had nonempty witness");
}

#[test]
fn script_sh() {
    let preimage = b"12345678----____12345678----____";
    let hash = hash160_of(&preimage[..]);

    let (miniscript, redeem_script) = ms_inner_script(hash);
    let rs_hash = hash160_of(&redeem_script[..]).into();

    let spk = Script::new_p2sh(&rs_hash);
    let script_sig = script::Builder::new()
        .push_slice(&redeem_script[..])
        .into_script();
    let blank_script = bitcoin::Script::new();
    let empty_wit = Witness::default();
    let legacy = Some(ScriptContext::Legacy);

    // sh without scriptsig
    let err = parse_txdata(legacy, &spk, &blank_script, &Witness::default()).unwrap_err();
    assert_eq!(&err.message(), "unexpected end of stack");

    // with incorrect scriptsig
    let err = parse_txdata(legacy, &spk, &spk, &Witness::default()).unwrap_err();
    assert_eq!(&err.message(), "expected push in script");

    // with correct scriptsig
    let data = parse_txdata(legacy, &spk, &script_sig, &empty_wit).expect("parse txdata");
    assert_eq!(data.inner, Inner::Script(miniscript, ScriptType::Sh));
    assert_eq!(data.stack, Stack::from(vec![]));
    assert_eq!(data.script_code, Some(redeem_script.to_bytes()));

    // nonempty witness
    let wit = Witness::from_vec(vec![vec![]]);
    let err = parse_txdata(legacy, &spk, &script_sig, &wit).unwrap_err();
    assert_eq!(&err.message(), "legacy spend had nonempty witness");
}

#[test]
fn script_wsh() {
    let preimage = b"12345678----____12345678----____";
    let hash = hash160_of(&preimage[..]);
    let (miniscript, witness_script) = ms_inner_script(hash);
    let wit_hash = sha256_of(&witness_script[..]).into();
    let wit_stack = Witness::from_vec(vec![witness_script.to_bytes()]);
    let segwit = Some(ScriptContext::Segwitv0);

    let spk = Script::new_v0_p2wsh(&wit_hash);
    let blank_script = bitcoin::Script::new();

    // wsh without witness
    let err = parse_txdata(segwit, &spk, &blank_script, &Witness::default()).unwrap_err();
    assert_eq!(&err.message(), "unexpected end of stack");

    // with incorrect witness
    let wit = Witness::from_vec(vec![spk.to_bytes()]);
    let err = parse_txdata(segwit, &spk, &blank_script, &wit).unwrap_err();
    assert_eq!(&err.message()[0..12], "parse error:");

    // with correct witness
    let data = parse_txdata(segwit, &spk, &blank_script, &wit_stack).expect("parse txdata");
    assert_eq!(data.inner, Inner::Script(miniscript, ScriptType::Wsh));
    assert_eq!(data.stack, Stack::from(vec![]));
    assert_eq!(data.script_code, Some(witness_script.to_bytes()));

    // nonempty script_sig
    let script_sig = script::Builder::new()
        .push_slice(&witness_script[..])
        .into_script();
    let err = parse_txdata(segwit, &spk, &script_sig, &wit_stack).unwrap_err();
    assert_eq!(&err.message(), "segwit spend had nonempty scriptsig");
}

#[test]
fn script_sh_wsh() {
    let preimage = b"12345678----____12345678----____";
    let hash = hash160_of(&preimage[..]);
    let (miniscript, witness_script) = ms_inner_script(hash);
    let wit_hash = sha256_of(&witness_script[..]).into();
    let wit_stack = Witness::from_vec(vec![witness_script.to_bytes()]);
    let segwit = Some(ScriptContext::Segwitv0);

    let redeem_script = Script::new_v0_p2wsh(&wit_hash);
    let script_sig = script::Builder::new()
        .push_slice(&redeem_script[..])
        .into_script();
    let blank_script = bitcoin::Script::new();

    let rs_hash = hash160_of(&redeem_script[..]).into();
    let spk = Script::new_p2sh(&rs_hash);

    // shwsh without witness or scriptsig
    let err = parse_txdata(segwit, &spk, &blank_script, &Witness::default()).unwrap_err();
    assert_eq!(&err.message(), "unexpected end of stack");
    let err = parse_txdata(segwit, &spk, &script_sig, &Witness::default()).unwrap_err();
    assert_eq!(&err.message(), "unexpected end of stack");
    let err = parse_txdata(segwit, &spk, &blank_script, &wit_stack).unwrap_err();
    assert_eq!(&err.message(), "unexpected end of stack");

    // with incorrect witness
    let wit = Witness::from_vec(vec![spk.to_bytes()]);
    let err = parse_txdata(segwit, &spk, &script_sig, &wit).unwrap_err();
    assert_eq!(&err.message()[0..12], "parse error:");

    // with incorrect scriptsig
    let err = parse_txdata(segwit, &spk, &redeem_script, &wit_stack).unwrap_err();
    assert_eq!(&err.message(), "redeem script did not match scriptpubkey");

    // with correct witness
    let data = parse_txdata(segwit, &spk, &script_sig, &wit_stack).expect("parse txdata");
    assert_eq!(data.inner, Inner::Script(miniscript, ScriptType::ShWsh));
    assert_eq!(data.stack, Stack::from(vec![]));
    assert_eq!(data.script_code, Some(witness_script.to_bytes()));
}
