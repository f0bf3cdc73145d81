use bitcoin::blockdata::opcodes;
use bitcoin::blockdata::script::Builder;
use bitcoin::hashes::hex::FromHex;
use bitcoin::hashes::{hash160, sha256};
use bitcoin::secp256k1::Secp256k1;
use bitcoin::util::taproot::{LeafVersion, TaprootBuilder};
use bitcoin::Script;
use std::str::FromStr;

use spend_data::error::{Error, TaprootError};
use spend_data::inner::{
    pkh_data, script_from_stackelem, sh_data, sh_wpkh_data, tr_script_data, wpkh_data, wsh_data,
    Decoded, Inner, Outcome, PubkeyType, ScriptContext, ScriptSource, ScriptSpend, ScriptType,
    TxData,
};
use spend_data::keys::{BitcoinKey, PublicKey, TaggedHash160, XOnlyPublicKey};
use spend_data::miniscript::{pre_taproot_to_no_checks, taproot_to_no_checks, Miniscript};
use spend_data::script::{output_type, OutputType};
use spend_data::script_sig::{readable, script_sig_stack};
use spend_data::stack::{Element, Instruction, Stack};
use spend_data::taproot::ControlBlock;
use spend_data::txdata::{
    from_stacks, from_txdata, from_txdata_with, pk_from_slice, pk_from_stackelem, redeem, taproot,
};

const KEY: &str = "025edd5cc23c51e87a497ca815d5dce0f8ab52554f849ed8995de64c5f34ce7143";
const FULL_KEY: &str = "045edd5cc23c51e87a497ca815d5dce0f8ab52554f849ed8995de64c5f34ce7143\
                        efae9c8dbc14130661e8cec030c89ad0c13c66c0d17a2905cdc706ab7399a868";
const X_KEY: &str = "5edd5cc23c51e87a497ca815d5dce0f8ab52554f849ed8995de64c5f34ce7143";

fn bytes(hex: &str) -> Vec<u8> {
    Vec::from_hex(hex).unwrap()
}

fn key() -> PublicKey {
    PublicKey::from_slice(&bytes(KEY)).unwrap()
}

fn full_key() -> PublicKey {
    PublicKey::from_slice(&bytes(FULL_KEY)).unwrap()
}

fn x_key() -> XOnlyPublicKey {
    XOnlyPublicKey::from_slice(&bytes(X_KEY)).unwrap()
}

fn hash160_of(data: &[u8]) -> [u8; 20] {
    let hash: hash160::Hash = bitcoin::hashes::Hash::hash(data);
    bitcoin::hashes::Hash::into_inner(hash)
}

fn sha256_of(data: &[u8]) -> [u8; 32] {
    let hash: sha256::Hash = bitcoin::hashes::Hash::hash(data);
    bitcoin::hashes::Hash::into_inner(hash)
}

fn p2pkh(hash: [u8; 20]) -> Vec<u8> {
    let mut script = vec![0x76, 0xa9, 20];
    script.extend_from_slice(&hash);
    script.extend_from_slice(&[0x88, 0xac]);
    script
}

fn p2wpkh(hash: [u8; 20]) -> Vec<u8> {
    let mut script = vec![0, 20];
    script.extend_from_slice(&hash);
    script
}

fn p2wsh(hash: [u8; 32]) -> Vec<u8> {
    let mut script = vec![0, 32];
    script.extend_from_slice(&hash);
    script
}

fn p2sh(hash: [u8; 20]) -> Vec<u8> {
    let mut script = vec![0xa9, 20];
    script.extend_from_slice(&hash);
    script.push(0x87);
    script
}

fn push(item: &[u8]) -> Element {
    Element::Push(item.to_vec())
}

fn decoded<Pk>(script: &[u8]) -> Decoded<Pk> {
    Decoded { miniscript: Miniscript::Older(7), script: script.to_vec() }
}

/// Takes a spend apart with a decoder that reads every script as `older(7)`.
fn spend(spk: &[u8], script_sig: &[u8], witness: &[Vec<u8>]) -> Result<TxData, Error> {
    from_txdata_with(
        spk,
        script_sig,
        witness,
        |_: ScriptContext, script: &[u8]| Ok(decoded(script)),
        |script: &[u8]| Ok(decoded(script)),
    )
}

fn older() -> Miniscript<BitcoinKey, TaggedHash160> {
    Miniscript::Older(7)
}

// Keys

#[test]
fn keys_are_read_and_written() {
    assert_eq!(key().serialize(), &bytes(KEY)[..]);
    assert_eq!(full_key().serialize(), &bytes(FULL_KEY)[..]);
    assert!(key().compressed());
    assert!(!full_key().compressed());
    assert_eq!(x_key().serialize().to_vec(), bytes(X_KEY));
    assert_eq!(key().to_pubkeyhash(), hash160_of(&bytes(KEY)));
    assert_eq!(full_key().to_pubkeyhash(), hash160_of(&bytes(FULL_KEY)));
}

#[test]
fn bytes_that_are_no_key_are_refused() {
    assert_eq!(PublicKey::from_slice(&[]), None);
    assert_eq!(PublicKey::from_slice(&bytes(X_KEY)), None);
    // no such point on the curve
    let mut off_curve = bytes(FULL_KEY);
    off_curve[64] ^= 1;
    assert_eq!(PublicKey::from_slice(&off_curve), None);
    // the hybrid encoding
    let mut hybrid = bytes(FULL_KEY);
    hybrid[0] = 6;
    assert_eq!(PublicKey::from_slice(&hybrid), None);
    assert_eq!(XOnlyPublicKey::from_slice(&bytes(KEY)), None);
    assert_eq!(XOnlyPublicKey::from_slice(&[0xff; 32]), None);
}

#[test]
fn compressedness_is_checked_if_asked_for() {
    assert_eq!(pk_from_slice(&bytes(KEY), true), Ok(key()));
    assert_eq!(pk_from_slice(&bytes(FULL_KEY), false), Ok(full_key()));
    assert_eq!(pk_from_slice(&bytes(FULL_KEY), true), Err(Error::UncompressedPubkey));
    assert_eq!(pk_from_slice(&bytes(X_KEY), false), Err(Error::PubkeyParseError));
    assert_eq!(PublicKey::checked(None, true), Err(Error::PubkeyParseError));
    assert_eq!(PublicKey::checked(Some(full_key()), true), Err(Error::UncompressedPubkey));
    assert_eq!(PublicKey::checked(Some(full_key()), false), Ok(full_key()));
}

#[test]
fn booleans_are_no_keys() {
    assert_eq!(pk_from_stackelem(&Element::Satisfied, false), Err(Error::PubkeyParseError));
    assert_eq!(pk_from_stackelem(&Element::Dissatisfied, false), Err(Error::PubkeyParseError));
    assert_eq!(pk_from_stackelem(&push(&bytes(KEY)), true), Ok(key()));
}

// The stack

#[test]
fn elements_of_byte_strings() {
    assert_eq!(Element::from_bytes(&[]), Element::Dissatisfied);
    assert_eq!(Element::from_bytes(&[1]), Element::Satisfied);
    assert_eq!(Element::from_bytes(&[0]), push(&[0]));
    assert_eq!(Element::from_bytes(&[1, 0]), push(&[1, 0]));
    assert_eq!(Element::from_bytes(&[1]).as_push(), Err(Error::UnexpectedStackBoolean));
    assert_eq!(push(&[3]).as_push(), Ok(&[3u8][..]));
}

#[test]
fn elements_of_instructions() {
    let element = |instruction: Instruction| Element::from_instruction(&instruction);
    assert_eq!(element(Instruction::PushBytes(vec![])), Ok(Element::Dissatisfied));
    assert_eq!(element(Instruction::PushBytes(vec![9, 9])), Ok(push(&[9, 9])));
    assert_eq!(element(Instruction::Op(0x51)), Ok(Element::Satisfied));
    assert_eq!(element(Instruction::Op(0x52)), Err(Error::ExpectedPush));
    assert_eq!(element(Instruction::Malformed), Err(Error::ExpectedPush));
}

#[test]
fn the_top_is_popped_first() {
    let mut stack = Stack::from_witness(&[vec![1], vec![], vec![5, 6]]);
    assert_eq!(stack.len(), 3);
    assert!(!stack.is_empty());
    assert_eq!(stack.pop(), Some(push(&[5, 6])));
    assert_eq!(stack.pop(), Some(Element::Dissatisfied));
    assert_eq!(stack.pop(), Some(Element::Satisfied));
    assert_eq!(stack.pop(), None);
    assert!(stack.is_empty());
}

#[test]
fn script_signatures_are_read_minimally() {
    let spk = [];
    let stack_of = |script_sig: &[u8]| spend(&spk, script_sig, &[]).map(|data| data.stack);
    assert_eq!(stack_of(&[]), Ok(Stack::from(vec![])));
    assert_eq!(stack_of(&[0]), Ok(Stack::from(vec![Element::Dissatisfied])));
    assert_eq!(stack_of(&[0x51]), Ok(Stack::from(vec![Element::Satisfied])));
    assert_eq!(
        stack_of(&[2, 7, 8, 1, 0x11, 0]),
        Ok(Stack::from(vec![push(&[7, 8]), push(&[0x11]), Element::Dissatisfied]))
    );
    // small numbers have opcodes of their own
    assert_eq!(stack_of(&[1, 1]), Err(Error::ExpectedPush));
    assert_eq!(stack_of(&[1, 16]), Err(Error::ExpectedPush));
    assert_eq!(stack_of(&[1, 0x81]), Err(Error::ExpectedPush));
    // a push that is cut short
    assert_eq!(stack_of(&[2, 7]), Err(Error::ExpectedPush));
    // a long push has to be written in the shortest way
    let mut long = vec![0x4c, 75];
    long.extend_from_slice(&[7; 75]);
    assert_eq!(stack_of(&long), Err(Error::ExpectedPush));
    let mut long = vec![0x4c, 76];
    long.extend_from_slice(&[7; 76]);
    assert_eq!(stack_of(&long), Ok(Stack::from(vec![push(&[7; 76])])));
    // only one of the numbers is known
    assert_eq!(stack_of(&[0x52]), Err(Error::ExpectedPush));
}

/// A push of `len` bytes, after these bytes.
fn long_push(header: &[u8], len: usize) -> Vec<u8> {
    let mut script = header.to_vec();
    script.extend_from_slice(&vec![7; len]);
    script
}

#[test]
fn long_pushes_have_one_form() {
    let read = |header: &[u8], len: usize| script_sig_stack(&long_push(header, len));
    let pushed = |len: usize| Ok(Stack::from(vec![push(&vec![7; len])]));
    assert_eq!(read(&[75], 75), pushed(75));
    assert_eq!(read(&[0x4c, 76], 76), pushed(76));
    assert_eq!(read(&[0x4c, 255], 255), pushed(255));
    assert_eq!(read(&[0x4d, 0, 1], 0x100), pushed(0x100));
    assert_eq!(read(&[0x4d, 0x34, 0x12], 0x1234), pushed(0x1234));
    assert_eq!(read(&[0x4d, 255, 255], 0xffff), pushed(0xffff));
    assert_eq!(read(&[0x4e, 0, 0, 1, 0], 0x10000), pushed(0x10000));
    assert_eq!(read(&[0x4e, 3, 2, 1, 0], 0x10203), pushed(0x10203));
    // a shorter form would do
    assert_eq!(read(&[0x4d, 255, 0], 255), Err(Error::ExpectedPush));
    assert_eq!(read(&[0x4e, 255, 255, 0, 0], 0xffff), Err(Error::ExpectedPush));
    // cut short
    assert_eq!(read(&[0x4c], 0), Err(Error::ExpectedPush));
    assert_eq!(read(&[0x4c, 76], 75), Err(Error::ExpectedPush));
    assert_eq!(read(&[0x4d, 0], 0), Err(Error::ExpectedPush));
    assert_eq!(read(&[0x4d, 0, 1], 0xff), Err(Error::ExpectedPush));
    assert_eq!(read(&[0x4e, 0, 0, 1], 0), Err(Error::ExpectedPush));
    assert_eq!(read(&[0x4e, 0, 0, 1, 0], 0xffff), Err(Error::ExpectedPush));
    // what follows a long push is read on
    let mut script = long_push(&[0x4d, 0, 1], 0x100);
    script.extend_from_slice(&[0x51, 2, 8, 9]);
    let expected = vec![push(&vec![7; 0x100]), Element::Satisfied, push(&[8, 9])];
    assert_eq!(script_sig_stack(&script), Ok(Stack::from(expected)));
    script.push(0xac);
    assert_eq!(script_sig_stack(&script), Err(Error::ExpectedPush));
}

#[test]
fn script_signatures_that_can_be_read() {
    assert!(readable(&[]));
    assert!(readable(&[0x51, 2, 7, 8]));
    assert!(readable(&[0x4e, 0, 0, 1, 0]));
    // nothing is read behind an instruction that leaves no item
    assert!(readable(&[0xa9, 0x4e, 0xff, 0xff, 0xff, 0xff]));
    // the end of this push is beyond what 32 bits can count
    let overlong = [0x4e, 0xff, 0xff, 0xff, 0xff];
    assert_eq!(readable(&overlong), usize::MAX as u128 > u32::MAX as u128);
    if readable(&overlong) {
        assert_eq!(script_sig_stack(&overlong), Err(Error::ExpectedPush));
    }
}

#[test]
fn a_long_redeem_script_is_spent() {
    let script = vec![0x82; 300];
    let mut script_sig = vec![2, 5, 5, 0x4d, 0x2c, 0x01];
    script_sig.extend_from_slice(&script);
    let data = spend(&p2sh(hash160_of(&script)), &script_sig, &[]).unwrap();
    assert_eq!(data.inner, Inner::Script(older(), ScriptType::Sh));
    assert_eq!(data.stack, Stack::from(vec![push(&[5, 5])]));
    assert_eq!(data.script_code, Some(script));
    assert_eq!(data.leaf_script, None);
}

#[test]
fn witness_programs_take_no_script_signature() {
    let mut p2tr = p2wsh([9; 32]);
    p2tr[0] = 0x51;
    for spk in [p2wpkh([9; 20]), p2wsh([9; 32]), p2tr] {
        assert_eq!(spend(&spk, &[0x51], &[]), Err(Error::NonEmptyScriptSig));
        assert_eq!(spend(&spk, &[0x52], &[]), Err(Error::ExpectedPush));
    }
}

#[test]
fn every_opcode_is_read() {
    for code in 0..=255u8 {
        let stack = spend(&[], &[code], &[]).map(|data| data.stack);
        let expected = match code {
            0 => Ok(Stack::from(vec![Element::Dissatisfied])),
            0x51 => Ok(Stack::from(vec![Element::Satisfied])),
            _ => Err(Error::ExpectedPush),
        };
        assert_eq!(stack, expected);
    }
}

#[test]
fn a_bad_script_signature_is_refused_whatever_the_output_is() {
    let bad = [0xac];
    assert_eq!(spend(&p2pkh([0; 20]), &bad, &[vec![3]]), Err(Error::ExpectedPush));
    assert_eq!(spend(&p2wsh([0; 32]), &bad, &[]), Err(Error::ExpectedPush));
    assert_eq!(spend(&[], &bad, &[]), Err(Error::ExpectedPush));
}

// Output scripts

#[test]
fn forms_of_outputs() {
    let mut p2pk = vec![33];
    p2pk.extend_from_slice(&[2; 33]);
    p2pk.push(0xac);
    assert_eq!(output_type(&p2pk), OutputType::P2pk);
    let mut p2pk = vec![65];
    p2pk.extend_from_slice(&[4; 65]);
    p2pk.push(0xac);
    assert_eq!(output_type(&p2pk), OutputType::P2pk);
    p2pk[0] = 64;
    assert_eq!(output_type(&p2pk), OutputType::Bare);
    assert_eq!(output_type(&p2pkh([9; 20])), OutputType::P2pkh);
    assert_eq!(output_type(&p2wpkh([9; 20])), OutputType::P2wpkh);
    assert_eq!(output_type(&p2wsh([9; 32])), OutputType::P2wsh);
    assert_eq!(output_type(&p2sh([9; 20])), OutputType::P2sh);
    let mut p2tr = p2wsh([9; 32]);
    p2tr[0] = 0x51;
    assert_eq!(output_type(&p2tr), OutputType::P2tr);
    p2tr[0] = 0x52;
    assert_eq!(output_type(&p2tr), OutputType::Bare);
    assert_eq!(output_type(&[]), OutputType::Bare);
}

// Steps with given hashes

#[test]
fn a_key_hash_has_to_be_the_one_in_the_output() {
    let stack = || Stack::from(vec![push(&[9, 9])]);
    let data = pkh_data(&p2pkh([7; 20]), key(), &[7; 20], stack()).unwrap();
    assert_eq!(data.inner, Inner::PublicKey(BitcoinKey::Fullkey(key()), PubkeyType::Pkh));
    assert_eq!(data.stack, stack());
    assert_eq!(data.script_code, Some(p2pkh([7; 20])));
    assert_eq!(
        pkh_data(&p2pkh([7; 20]), key(), &[8; 20], stack()),
        Err(Error::IncorrectPubkeyHash)
    );

    let data = wpkh_data(&p2wpkh([7; 20]), key(), &[7; 20], stack()).unwrap();
    assert_eq!(data.inner, Inner::PublicKey(BitcoinKey::Fullkey(key()), PubkeyType::Wpkh));
    assert_eq!(data.script_code, Some(p2pkh([7; 20])));
    assert_eq!(
        wpkh_data(&p2wpkh([7; 20]), key(), &[8; 20], stack()),
        Err(Error::IncorrectWPubkeyHash)
    );

    let data = sh_wpkh_data(&p2wpkh([7; 20]), key(), &[7; 20], stack()).unwrap();
    assert_eq!(data.inner, Inner::PublicKey(BitcoinKey::Fullkey(key()), PubkeyType::ShWpkh));
    assert_eq!(data.script_code, Some(p2pkh([7; 20])));
    assert_eq!(
        sh_wpkh_data(&p2wpkh([7; 20]), key(), &[8; 20], stack()),
        Err(Error::IncorrectWScriptHash)
    );
}

#[test]
fn a_script_hash_has_to_be_the_one_in_the_output() {
    let stack = || Stack::from(vec![]);
    let data = sh_data(&p2sh([7; 20]), true, decoded(&[5]), &[7; 20], stack()).unwrap();
    assert_eq!(data.inner, Inner::Script(older(), ScriptType::Sh));
    assert_eq!(data.script_code, Some(vec![5]));
    assert_eq!(
        sh_data(&p2sh([7; 20]), true, decoded(&[5]), &[8; 20], stack()),
        Err(Error::IncorrectScriptHash)
    );
    assert_eq!(
        sh_data(&p2sh([7; 20]), false, decoded(&[5]), &[8; 20], stack()),
        Err(Error::NonEmptyWitness)
    );
    let data = wsh_data(&p2wsh([7; 32]), ScriptType::Wsh, decoded(&[5]), &[7; 32], stack());
    assert_eq!(data.unwrap().inner, Inner::Script(older(), ScriptType::Wsh));
    assert_eq!(
        wsh_data(&p2wsh([7; 32]), ScriptType::ShWsh, decoded(&[5]), &[8; 32], stack()),
        Err(Error::IncorrectWScriptHash)
    );
    assert_eq!(
        tr_script_data(decoded(&[5]), false, stack()),
        Err(Error::ControlBlockVerificationError)
    );
    let data = tr_script_data(decoded(&[5]), true, stack()).unwrap();
    assert_eq!(data.inner, Inner::Script(older(), ScriptType::Tr));
    assert_eq!(data.script_code, None);
    assert_eq!(data.leaf_script, Some(vec![5]));
}

#[test]
fn redeem_scripts_are_told_apart() {
    let none = || Stack::from(vec![]);
    let one = || Stack::from(vec![push(&bytes(KEY))]);
    let spk = p2sh([7; 20]);
    let program = p2wpkh(hash160_of(&bytes(KEY)));

    assert_eq!(
        redeem(&spk, program.clone(), &[8; 20], none(), one()),
        Err(Error::IncorrectScriptHash)
    );
    assert_eq!(
        redeem(&spk, program.clone(), &[7; 20], none(), none()),
        Err(Error::UnexpectedStackEnd)
    );
    assert_eq!(
        redeem(&spk, program.clone(), &[7; 20], one(), one()),
        Err(Error::NonEmptyScriptSig)
    );
    match redeem(&spk, program, &[7; 20], none(), one()) {
        Ok(Outcome::Complete(data)) => {
            assert_eq!(
                data.inner,
                Inner::PublicKey(BitcoinKey::Fullkey(key()), PubkeyType::ShWpkh)
            );
        }
        other => panic!("{:?}", other),
    }

    let program = p2wsh([6; 32]);
    assert_eq!(
        redeem(&spk, program.clone(), &[7; 20], none(), none()),
        Err(Error::UnexpectedStackEnd)
    );
    assert_eq!(
        redeem(&spk, program.clone(), &[7; 20], one(), one()),
        Err(Error::NonEmptyScriptSig)
    );
    match redeem(&spk, program.clone(), &[7; 20], none(), one()) {
        Ok(Outcome::NeedsScript(pending)) => {
            assert_eq!(pending.spend.context(), ScriptContext::Segwitv0);
            assert_eq!(pending.script, bytes(KEY));
            assert_eq!(
                pending.spend,
                ScriptSpend::ShWsh { redeem_script: program, stack: none() }
            );
        }
        other => panic!("{:?}", other),
    }

    // almost a witness program
    let script = vec![0, 20, 3];
    match redeem(&spk, script.clone(), &[7; 20], one(), one()) {
        Ok(Outcome::NeedsScript(pending)) => {
            assert_eq!(pending.spend.context(), ScriptContext::Legacy);
            assert_eq!(pending.script, script);
            assert_eq!(pending.resume(Ok(decoded(&script))), Err(Error::NonEmptyWitness));
        }
        other => panic!("{:?}", other),
    }
}

#[test]
fn a_script_that_does_not_decode_is_refused_with_the_reason() {
    let refuse = |spk: &[u8], script_sig: &[u8], witness: &[Vec<u8>]| {
        from_txdata_with(
            spk,
            script_sig,
            witness,
            |context: ScriptContext, _: &[u8]| Err(format!("{:?}", context)),
            |_: &[u8]| Err(format!("tap")),
        )
    };
    let script = vec![0x82, 0x75];
    let miniscript = |reason: &str| Err(Error::Miniscript(reason.to_string()));
    assert_eq!(refuse(&script, &[], &[]), miniscript("Bare"));
    assert_eq!(
        refuse(&p2sh(hash160_of(&script)), &[2, 0x82, 0x75], &[vec![3]]),
        miniscript("Legacy")
    );
    // decoding comes before the comparison of hashes
    assert_eq!(refuse(&p2wsh([0; 32]), &[], &[script.clone()]), miniscript("Segwitv0"));
    assert_eq!(
        Error::Miniscript("because".to_string()).message(),
        "parse error: because".to_string()
    );
}

#[test]
fn the_script_code_of_a_script_hash_is_the_encoding() {
    let script = vec![0x82, 0x75];
    let spk = p2wsh(sha256_of(&script));
    let data = spend(&spk, &[], &[vec![4], script.clone()]).unwrap();
    assert_eq!(data.inner, Inner::Script(older(), ScriptType::Wsh));
    assert_eq!(data.stack, Stack::from(vec![push(&[4])]));
    assert_eq!(data.script_code, Some(script.clone()));
    // a script that encodes to something else does not match
    match from_txdata(&spk, &[], &[script]) {
        Ok(Outcome::NeedsScript(pending)) => {
            assert_eq!(pending.resume(Ok(decoded(&[0]))), Err(Error::IncorrectWScriptHash));
        }
        other => panic!("{:?}", other),
    }
}

#[test]
fn booleans_are_scripts() {
    let source: ScriptSource<PublicKey> = script_from_stackelem(Element::Satisfied);
    let known = Decoded { miniscript: Miniscript::True, script: vec![0x51] };
    assert_eq!(source, ScriptSource::Known(known));
    let source: ScriptSource<PublicKey> = script_from_stackelem(Element::Dissatisfied);
    let known = Decoded { miniscript: Miniscript::False, script: vec![0] };
    assert_eq!(source, ScriptSource::Known(known));
    let source: ScriptSource<PublicKey> = script_from_stackelem(push(&[5]));
    assert_eq!(source, ScriptSource::Encoded(vec![5]));

    // no decoder is asked
    let refuse = |spk: &[u8], script_sig: &[u8], witness: &[Vec<u8>]| {
        from_txdata_with(
            spk,
            script_sig,
            witness,
            |_: ScriptContext, _: &[u8]| panic!("not a script to decode"),
            |_: &[u8]| panic!("not a script to decode"),
        )
    };
    let data = refuse(&p2wsh(sha256_of(&[0x51])), &[], &[vec![1]]).unwrap();
    assert_eq!(data.inner, Inner::Script(Miniscript::True, ScriptType::Wsh));
    assert_eq!(data.script_code, Some(vec![0x51]));
    let data = refuse(&p2sh(hash160_of(&[0])), &[0], &[]).unwrap();
    assert_eq!(data.inner, Inner::Script(Miniscript::False, ScriptType::Sh));
    assert_eq!(data.script_code, Some(vec![0]));
    assert_eq!(
        refuse(&p2sh(hash160_of(&[0])), &[0], &[vec![3]]),
        Err(Error::NonEmptyWitness)
    );
    assert_eq!(refuse(&p2sh([0; 20]), &[0x51], &[]), Err(Error::IncorrectScriptHash));
    assert_eq!(refuse(&p2wsh([0; 32]), &[], &[vec![]]), Err(Error::IncorrectWScriptHash));
}

#[test]
fn a_wrapped_program_is_spent_like_a_native_one() {
    let script = vec![0x82, 0x75];
    let program = p2wsh(sha256_of(&script));
    let mut script_sig = vec![34];
    script_sig.extend_from_slice(&program);
    let witness = [vec![4], script];
    let native = spend(&program, &[], &witness).unwrap();
    let wrapped = spend(&p2sh(hash160_of(&program)), &script_sig, &witness).unwrap();
    assert_eq!(native.inner, Inner::Script(older(), ScriptType::Wsh));
    assert_eq!(wrapped.inner, Inner::Script(older(), ScriptType::ShWsh));
    assert_eq!(wrapped.stack, native.stack);
    assert_eq!(wrapped.script_code, native.script_code);
    assert!(spend(&p2sh(hash160_of(&program)), &script_sig, &[vec![4], vec![5]]).is_err());
}

// Taproot

fn tap_script() -> Script {
    Builder::new().push_int(7).push_opcode(opcodes::all::OP_CSV).into_script()
}

/// A taproot output with two leaves, one of them `tap_script`, and the control block for that leaf.
fn tap_output() -> (Vec<u8>, Vec<u8>) {
    let secp = Secp256k1::verification_only();
    let internal_key = bitcoin::XOnlyPublicKey::from_str(X_KEY).unwrap();
    let other = Builder::new().push_int(8).into_script();
    let info = TaprootBuilder::new()
        .add_leaf(1, tap_script())
        .unwrap()
        .add_leaf(1, other)
        .unwrap()
        .finalize(&secp, internal_key)
        .unwrap();
    let control_block = info.control_block(&(tap_script(), LeafVersion::TapScript)).unwrap();
    let mut spk = vec![0x51, 32];
    spk.extend_from_slice(&info.output_key().serialize());
    (spk, control_block.serialize())
}

#[test]
fn taproot_key_spend() {
    let (spk, _) = tap_output();
    let output_key = XOnlyPublicKey::from_slice(&spk[2..]).unwrap();
    let data = spend(&spk, &[], &[vec![9; 64]]).unwrap();
    assert_eq!(data.inner, Inner::PublicKey(BitcoinKey::XOnlyPublicKey(output_key), PubkeyType::Tr));
    assert_eq!(data.stack, Stack::from(vec![push(&[9; 64])]));
    assert_eq!(data.script_code, None);
    assert_eq!(data.leaf_script, None);

    assert_eq!(spend(&spk, &[0], &[vec![9; 64]]), Err(Error::NonEmptyScriptSig));
    assert_eq!(spend(&spk, &[], &[]), Err(Error::UnexpectedStackEnd));
    let mut bad = vec![0x51, 32];
    bad.extend_from_slice(&[0xff; 32]);
    assert_eq!(spend(&bad, &[], &[vec![9; 64]]), Err(Error::XOnlyPublicKeyParseError));
}

#[test]
fn taproot_script_spend() {
    let (spk, control_block) = tap_output();
    let script = tap_script().to_bytes();
    let witness = [vec![4], vec![5, 5], script.clone(), control_block.clone()];
    let data = spend(&spk, &[], &witness).unwrap();
    assert_eq!(data.inner, Inner::Script(older(), ScriptType::Tr));
    assert_eq!(data.stack, Stack::from(vec![push(&[4]), push(&[5, 5])]));
    assert_eq!(data.script_code, None);
    assert_eq!(data.leaf_script, Some(script.clone()));

    // a script that the output does not commit to
    let witness = [vec![4], vec![5, 5], vec![0x51, 0x51], control_block.clone()];
    assert_eq!(spend(&spk, &[], &witness), Err(Error::ControlBlockVerificationError));

    // a control block with another hash
    let mut other = control_block.clone();
    other[64] ^= 1;
    let witness = [vec![4], vec![5, 5], script.clone(), other];
    assert_eq!(spend(&spk, &[], &witness), Err(Error::ControlBlockVerificationError));

    // a boolean as script
    let witness = [vec![4], vec![5, 5], vec![1], control_block.clone()];
    assert_eq!(spend(&spk, &[], &witness), Err(Error::ControlBlockVerificationError));

    // fewer than two items left
    let witness = [vec![4], script.clone(), control_block.clone()];
    assert_eq!(spend(&spk, &[], &witness), Err(Error::UnexpectedStackBoolean));
    let witness = [script.clone(), control_block.clone()];
    assert_eq!(spend(&spk, &[], &witness), Err(Error::UnexpectedStackBoolean));

    // a boolean as control block
    let witness = [vec![4], vec![5, 5], script.clone(), vec![1]];
    assert_eq!(spend(&spk, &[], &witness), Err(Error::UnexpectedStackBoolean));

    // an annex
    let witness = [script.clone(), vec![0x50]];
    assert_eq!(spend(&spk, &[], &witness), Err(Error::TapAnnexUnsupported));

    // a control block that cannot be read comes before the script
    match from_txdata(&spk, &[], &[vec![4], vec![5, 5], script, vec![0xc0; 40]]) {
        Err(e) => assert_eq!(e, Error::ControlBlockParse(TaprootError::InvalidControlBlockSize(40))),
        other => panic!("{:?}", other),
    }
}

#[test]
fn taproot_by_output_key() {
    match taproot(x_key(), Stack::from(vec![Element::Satisfied])) {
        Ok(Outcome::Complete(data)) => {
            assert_eq!(data.inner, Inner::PublicKey(x_key().into(), PubkeyType::Tr));
            assert_eq!(data.stack, Stack::from(vec![Element::Satisfied]));
        }
        other => panic!("{:?}", other),
    }
    let mut block = vec![0xc0];
    block.extend_from_slice(&bytes(X_KEY));
    let wit = Stack::from(vec![push(&[4]), push(&[5]), push(&[6, 6]), push(&block)]);
    match taproot(x_key(), wit) {
        Ok(Outcome::NeedsTapScript(pending)) => {
            assert_eq!(pending.script, vec![6, 6]);
            assert_eq!(pending.spend.control_block, ControlBlock::from_slice(&block).unwrap());
            assert_eq!(pending.spend.output_key, x_key());
            assert_eq!(pending.spend.stack, Stack::from(vec![push(&[4]), push(&[5])]));
            assert_eq!(
                pending.resume(Err("no".to_string())),
                Err(Error::Miniscript("no".to_string()))
            );
        }
        other => panic!("{:?}", other),
    }
}

#[test]
fn control_blocks() {
    let block = |first: u8, key: &[u8], hashes: usize| {
        let mut block = vec![first];
        block.extend_from_slice(key);
        block.extend_from_slice(&vec![3; 32 * hashes]);
        block
    };
    let key = bytes(X_KEY);
    let read = |bytes: &[u8]| ControlBlock::from_slice(bytes).map(|b| b.serialize().to_vec());
    assert_eq!(read(&block(0xc0, &key, 0)), Ok(block(0xc0, &key, 0)));
    assert_eq!(read(&block(0xc1, &key, 128)), Ok(block(0xc1, &key, 128)));
    assert_eq!(read(&block(0, &key, 1)), Ok(block(0, &key, 1)));
    assert_eq!(read(&[]), Err(TaprootError::InvalidControlBlockSize(0)));
    assert_eq!(read(&[0xc0; 34]), Err(TaprootError::InvalidControlBlockSize(34)));
    assert_eq!(
        read(&block(0x50, &key, 0)),
        Err(TaprootError::InvalidTaprootLeafVersion(0x50))
    );
    assert_eq!(
        read(&block(0x51, &key, 0)),
        Err(TaprootError::InvalidTaprootLeafVersion(0x50))
    );
    assert_eq!(read(&block(0xc0, &[0xff; 32], 129)), Err(TaprootError::InvalidInternalKey));
    assert_eq!(
        read(&block(0xc0, &key, 129)),
        Err(TaprootError::InvalidMerkleTreeDepth(129))
    );
}

// Translations

#[test]
fn translations_mark_every_key() {
    let h = [3u8; 20];
    let full = pre_taproot_to_no_checks(&Miniscript::AndOr(
        Box::new(Miniscript::Check(Box::new(Miniscript::PkK(key())))),
        Box::new(Miniscript::Thresh(
            1,
            vec![Miniscript::Check(Box::new(Miniscript::PkH(h))), Miniscript::Hash160(h)],
        )),
        Box::new(Miniscript::Multi(1, vec![key(), full_key()])),
    ));
    assert_eq!(
        full,
        Miniscript::AndOr(
            Box::new(Miniscript::Check(Box::new(Miniscript::PkK(BitcoinKey::Fullkey(key()))))),
            Box::new(Miniscript::Thresh(
                1,
                vec![
                    Miniscript::Check(Box::new(Miniscript::PkH(TaggedHash160::FullKey(h)))),
                    Miniscript::Hash160(h),
                ],
            )),
            Box::new(Miniscript::Multi(
                1,
                vec![BitcoinKey::Fullkey(key()), BitcoinKey::Fullkey(full_key())],
            )),
        )
    );

    let tap = taproot_to_no_checks(&Miniscript::OrD(
        Box::new(Miniscript::MultiA(1, vec![x_key()])),
        Box::new(Miniscript::AndV(
            Box::new(Miniscript::Verify(Box::new(Miniscript::PkH(h)))),
            Box::new(Miniscript::After(9)),
        )),
    ));
    assert_eq!(
        tap,
        Miniscript::OrD(
            Box::new(Miniscript::MultiA(1, vec![BitcoinKey::XOnlyPublicKey(x_key())])),
            Box::new(Miniscript::AndV(
                Box::new(Miniscript::Verify(Box::new(Miniscript::PkH(
                    TaggedHash160::XonlyKey(h)
                )))),
                Box::new(Miniscript::After(9)),
            )),
        )
    );
}

#[test]
fn translations_keep_every_fragment() {
    let h20 = [3u8; 20];
    let h32 = [4u8; 32];
    type Ms<Pk, Pkh> = Miniscript<Pk, Pkh>;
    fn unary<Pk, Pkh>(x: Ms<Pk, Pkh>) -> Ms<Pk, Pkh> {
        Ms::Alt(Box::new(Ms::Swap(Box::new(Ms::DupIf(Box::new(Ms::NonZero(Box::new(
            Ms::ZeroNotEqual(Box::new(x)),
        ))))))))
    }
    fn all<Pk, Pkh>(h20: [u8; 20], h32: [u8; 32]) -> Ms<Pk, Pkh> {
        Ms::OrB(
            Box::new(Ms::OrC(Box::new(unary(Ms::True)), Box::new(Ms::Sha256(h32)))),
            Box::new(Ms::OrI(
                Box::new(Ms::AndB(Box::new(Ms::Hash256(h32)), Box::new(Ms::Ripemd160(h20)))),
                Box::new(Ms::AndV(Box::new(Ms::False), Box::new(Ms::Older(5)))),
            )),
        )
    }
    assert_eq!(pre_taproot_to_no_checks(&all(h20, h32)), all(h20, h32));
    assert_eq!(taproot_to_no_checks(&all(h20, h32)), all(h20, h32));
}

// Whole spends

#[test]
fn what_is_left_keeps_its_order() {
    let spk = p2pkh(hash160_of(&bytes(KEY)));
    let ssig = Stack::from(vec![push(&[7]), Element::Satisfied, push(&bytes(KEY))]);
    match from_stacks(&spk, ssig, Stack::from(vec![])) {
        Ok(Outcome::Complete(data)) => {
            assert_eq!(data.stack, Stack::from(vec![push(&[7]), Element::Satisfied]));
        }
        other => panic!("{:?}", other),
    }
}

#[test]
fn a_pushed_key_spends_like_its_stack() {
    let spk = p2pkh(hash160_of(&bytes(KEY)));
    let mut script_sig = vec![2, 7, 8, 33];
    script_sig.extend_from_slice(&bytes(KEY));
    let by_stack =
        from_stacks(&spk, Stack::from(vec![push(&[7, 8]), push(&bytes(KEY))]), Stack::from(vec![]));
    assert_eq!(from_txdata(&spk, &script_sig, &[]), by_stack);
}

#[test]
fn messages() {
    let text = |e: Error| e.message();
    assert_eq!(text(Error::ExpectedPush), "expected push in script");
    assert_eq!(
        text(Error::UnexpectedStackBoolean),
        "expected stack push, found stack boolean"
    );
    assert_eq!(text(Error::XOnlyPublicKeyParseError), "could not parse x-only pubkey");
    assert_eq!(text(Error::TapAnnexUnsupported), "encountered annex element");
    assert_eq!(
        text(Error::ControlBlockParse(TaprootError::InvalidInternalKey)),
        "control block parse error"
    );
    assert_eq!(
        text(Error::ControlBlockVerificationError),
        "control block verification failed"
    );
}
