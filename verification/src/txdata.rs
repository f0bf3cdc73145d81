//! Takes spending data apart.
use vstd::prelude::*;
use vstd::slice::{slice_subrange, slice_to_vec};

use crate::bytes::bytes_eq;
use crate::crypto::{
    control_block_error, hash160, hash160_digest, is_public_key, is_x_only_public_key,
};
use crate::error::Error;
use crate::inner::{
    complete_model, pk_data, pkh_data, pkh_data_model, reply_model, result_model, script_from_stackelem,
    script_outcome, script_outcome_model, script_source_model, sh_wpkh_data, tap_outcome,
    tap_outcome_model, tr_key_data, wpkh_data, wpkh_data_model, Decoded, DecodedModel, InnerModel,
    Outcome, OutcomeModel, PendingScript, PendingScriptModel, PubkeyType, ScriptContext,
    ScriptSource, ScriptSourceModel, ScriptSpend, ScriptSpendModel, TapSpend, TapSpendModel,
    TxData, TxDataModel,
};
use crate::keys::{BitcoinKeyModel, PublicKey, XOnlyPublicKey};
use crate::script::{
    is_p2pk_script, is_p2tr_script, is_p2wpkh_script, is_p2wsh_script, new_p2sh, output_type,
    output_type_model, p2sh_script, OutputType,
};
use crate::script_sig::{
    is_readable, law_script_sig_stack, only_pushes, script_sig_model, script_sig_stack,
};
use crate::laws::{law_complete_keys, law_script_sig_bytes_are_refused};
use crate::stack::{
    pushed_stack_model, witness_model, witness_stack_model, Element, ElementModel,
    InstructionModel, Stack,
};
use crate::taproot::ControlBlock;

verus! {

/// The first byte of an annex, the item that may stand last in a taproot witness.
pub const TAPROOT_ANNEX_PREFIX: u8 = 0x50;

/// The key that a byte string has to be.
pub open spec fn checked_key_model(slice: Seq<u8>, require_compressed: bool) -> Result<
    Seq<u8>,
    Error,
> {
    if !is_public_key(slice) {
        Err(Error::PubkeyParseError)
    } else if require_compressed && slice.len() != 33 {
        Err(Error::UncompressedPubkey)
    } else {
        Ok(slice)
    }
}

/// Reads a byte string as a public key, checking compressedness if asked to, but otherwise
/// dropping it.
pub fn pk_from_slice(slice: &[u8], require_compressed: bool) -> (key: Result<PublicKey, Error>)
    ensures
        result_model(key) == checked_key_model(slice@, require_compressed),
{
    PublicKey::checked(PublicKey::from_slice(slice), require_compressed)
}

/// The key that a stack element has to be. A boolean is none.
pub open spec fn element_key_model(elem: ElementModel, require_compressed: bool) -> Result<
    Seq<u8>,
    Error,
> {
    match elem {
        ElementModel::Push(slice) => checked_key_model(slice, require_compressed),
        _ => Err(Error::PubkeyParseError),
    }
}

/// Reads a stack element as a public key.
pub fn pk_from_stackelem(elem: &Element, require_compressed: bool) -> (key: Result<
    PublicKey,
    Error,
>)
    ensures
        result_model(key) == element_key_model(elem@, require_compressed),
{
    match elem {
        Element::Push(slice) => pk_from_slice(slice.as_slice(), require_compressed),
        _ => Err(Error::PubkeyParseError),
    }
}

/// A spend of an output that pays to a key: the key stands in the output script.
pub open spec fn p2pk_model(
    spk: Seq<u8>,
    ssig: Seq<ElementModel>,
    wit: Seq<ElementModel>,
) -> Result<OutcomeModel, Error> {
    if wit.len() != 0 {
        Err(Error::NonEmptyWitness)
    } else {
        match checked_key_model(spk.subrange(1, spk.len() - 1), false) {
            Err(e) => Err(e),
            Ok(key) => Ok(
                OutcomeModel::Complete(
                    TxDataModel {
                        inner: InnerModel::PublicKey(BitcoinKeyModel::Fullkey(key), PubkeyType::Pk),
                        stack: ssig,
                        script_code: Some(spk),
                        leaf_script: None,
                    },
                ),
            ),
        }
    }
}

fn p2pk(spk: &[u8], ssig: Stack, wit: Stack) -> (outcome: Result<Outcome, Error>)
    requires
        is_p2pk_script(spk@),
    ensures
        result_model(outcome) == p2pk_model(spk@, ssig@, wit@),
{
    if !wit.is_empty() {
        return Err(Error::NonEmptyWitness);
    }
    match pk_from_slice(slice_subrange(spk, 1, spk.len() - 1), false) {
        Ok(key) => Ok(Outcome::Complete(pk_data(spk, key, ssig))),
        Err(e) => Err(e),
    }
}

/// A spend of an output that pays to the hash of a key: the key is on top of the stack of the
/// script signature.
pub open spec fn p2pkh_model(
    spk: Seq<u8>,
    ssig: Seq<ElementModel>,
    wit: Seq<ElementModel>,
) -> Result<OutcomeModel, Error> {
    if wit.len() != 0 {
        Err(Error::NonEmptyWitness)
    } else if ssig.len() == 0 {
        Err(Error::UnexpectedStackEnd)
    } else {
        match element_key_model(ssig.last(), false) {
            Err(e) => Err(e),
            Ok(key) => complete_model(
                pkh_data_model(spk, key, hash160_digest(key), ssig.drop_last()),
            ),
        }
    }
}

fn p2pkh(spk: &[u8], ssig: Stack, wit: Stack) -> (outcome: Result<Outcome, Error>)
    ensures
        result_model(outcome) == p2pkh_model(spk@, ssig@, wit@),
{
    if !wit.is_empty() {
        return Err(Error::NonEmptyWitness);
    }
    let mut stack = ssig;
    let elem = match stack.pop() {
        Some(elem) => elem,
        None => {
            return Err(Error::UnexpectedStackEnd);
        },
    };
    let key = match pk_from_stackelem(&elem, false) {
        Ok(key) => key,
        Err(e) => {
            return Err(e);
        },
    };
    let hash = key.to_pubkeyhash();
    match pkh_data(spk, key, &hash, stack) {
        Ok(data) => Ok(Outcome::Complete(data)),
        Err(e) => Err(e),
    }
}

/// A spend of a witness program for a key: the key, compressed, is on top of the witness stack.
pub open spec fn p2wpkh_model(
    spk: Seq<u8>,
    ssig: Seq<ElementModel>,
    wit: Seq<ElementModel>,
) -> Result<OutcomeModel, Error> {
    if ssig.len() != 0 {
        Err(Error::NonEmptyScriptSig)
    } else if wit.len() == 0 {
        Err(Error::UnexpectedStackEnd)
    } else {
        match element_key_model(wit.last(), true) {
            Err(e) => Err(e),
            Ok(key) => complete_model(
                wpkh_data_model(
                    spk,
                    PubkeyType::Wpkh,
                    Error::IncorrectWPubkeyHash,
                    key,
                    hash160_digest(key),
                    wit.drop_last(),
                ),
            ),
        }
    }
}

fn p2wpkh(spk: &[u8], ssig: Stack, wit: Stack) -> (outcome: Result<Outcome, Error>)
    ensures
        result_model(outcome) == p2wpkh_model(spk@, ssig@, wit@),
{
    if !ssig.is_empty() {
        return Err(Error::NonEmptyScriptSig);
    }
    let mut stack = wit;
    let elem = match stack.pop() {
        Some(elem) => elem,
        None => {
            return Err(Error::UnexpectedStackEnd);
        },
    };
    let key = match pk_from_stackelem(&elem, true) {
        Ok(key) => key,
        Err(e) => {
            return Err(e);
        },
    };
    let hash = key.to_pubkeyhash();
    match wpkh_data(spk, key, &hash, stack) {
        Ok(data) => Ok(Outcome::Complete(data)),
        Err(e) => Err(e),
    }
}

/// A spend of a witness program for a script: the script is on top of the witness stack.
pub open spec fn p2wsh_model(
    spk: Seq<u8>,
    ssig: Seq<ElementModel>,
    wit: Seq<ElementModel>,
) -> Result<OutcomeModel, Error> {
    if ssig.len() != 0 {
        Err(Error::NonEmptyScriptSig)
    } else if wit.len() == 0 {
        Err(Error::UnexpectedStackEnd)
    } else {
        script_outcome_model(
            ScriptSpendModel::Wsh { spk, stack: wit.drop_last() },
            script_source_model(wit.last()),
        )
    }
}

fn p2wsh(spk: &[u8], ssig: Stack, wit: Stack) -> (outcome: Result<Outcome, Error>)
    ensures
        result_model(outcome) == p2wsh_model(spk@, ssig@, wit@),
{
    if !ssig.is_empty() {
        return Err(Error::NonEmptyScriptSig);
    }
    let mut stack = wit;
    match stack.pop() {
        Some(elem) => script_outcome(
            ScriptSpend::Wsh { spk: slice_to_vec(spk), stack },
            script_from_stackelem(elem),
        ),
        None => Err(Error::UnexpectedStackEnd),
    }
}

/// A spend of the taproot output with this key. A witness of one item spends through the key.
/// Otherwise the control block is on top of the witness stack, the script below it, and at least
/// two items below that.
pub open spec fn taproot_model(output_key: Seq<u8>, wit: Seq<ElementModel>) -> Result<
    OutcomeModel,
    Error,
> {
    if wit.len() == 1 {
        Ok(
            OutcomeModel::Complete(
                TxDataModel {
                    inner: InnerModel::PublicKey(
                        BitcoinKeyModel::XOnlyPublicKey(output_key),
                        PubkeyType::Tr,
                    ),
                    stack: wit,
                    script_code: None,
                    leaf_script: None,
                },
            ),
        )
    } else if wit.len() == 0 {
        Err(Error::UnexpectedStackEnd)
    } else {
        match wit.last() {
            ElementModel::Push(control_block) => {
                let stack = wit.take(wit.len() - 2);
                if control_block.len() > 0 && control_block[0] == TAPROOT_ANNEX_PREFIX {
                    Err(Error::TapAnnexUnsupported)
                } else if stack.len() < 2 {
                    Err(Error::UnexpectedStackBoolean)
                } else {
                    match control_block_error(control_block) {
                        Some(e) => Err(Error::ControlBlockParse(e)),
                        None => tap_outcome_model(
                            TapSpendModel { control_block, output_key, stack },
                            script_source_model(wit[wit.len() - 2]),
                        ),
                    }
                }
            },
            _ => Err(Error::UnexpectedStackBoolean),
        }
    }
}

/// A spend of the taproot output with this key.
pub fn taproot(output_key: XOnlyPublicKey, wit: Stack) -> (outcome: Result<Outcome, Error>)
    ensures
        result_model(outcome) == taproot_model(output_key@, wit@),
{
    if wit.len() == 1 {
        return Ok(Outcome::Complete(tr_key_data(output_key, wit)));
    }
    let mut stack = wit;
    let top = match stack.pop() {
        Some(elem) => elem,
        None => {
            return Err(Error::UnexpectedStackEnd);
        },
    };
    let control_block = match top.as_push() {
        Ok(bytes) => bytes,
        Err(e) => {
            return Err(e);
        },
    };
    let tap_script = match stack.pop() {
        Some(elem) => elem,
        None => {
            return Err(Error::UnexpectedStackEnd);
        },
    };
    assert(stack@ =~= wit@.take(wit@.len() - 2));
    if control_block.len() > 0 && control_block[0] == TAPROOT_ANNEX_PREFIX {
        // The annex is not standard, and consensus ignores it. The signature hashes in use here
        // do not support it.
        return Err(Error::TapAnnexUnsupported);
    }
    if stack.len() < 2 {
        return Err(Error::UnexpectedStackBoolean);
    }
    match ControlBlock::from_slice(control_block) {
        Ok(control_block) => tap_outcome(
            TapSpend { control_block, output_key, stack },
            script_from_stackelem(tap_script),
        ),
        Err(e) => Err(Error::ControlBlockParse(e)),
    }
}

/// A spend of a taproot output: the output key stands in the output script.
pub open spec fn p2tr_model(
    spk: Seq<u8>,
    ssig: Seq<ElementModel>,
    wit: Seq<ElementModel>,
) -> Result<OutcomeModel, Error> {
    let output_key = spk.skip(2);
    if ssig.len() != 0 {
        Err(Error::NonEmptyScriptSig)
    } else if !is_x_only_public_key(output_key) {
        Err(Error::XOnlyPublicKeyParseError)
    } else {
        taproot_model(output_key, wit)
    }
}

fn p2tr(spk: &[u8], ssig: Stack, wit: Stack) -> (outcome: Result<Outcome, Error>)
    requires
        is_p2tr_script(spk@),
    ensures
        result_model(outcome) == p2tr_model(spk@, ssig@, wit@),
{
    if !ssig.is_empty() {
        return Err(Error::NonEmptyScriptSig);
    }
    assert(spk@.subrange(2, spk@.len() as int) =~= spk@.skip(2));
    match XOnlyPublicKey::from_slice(slice_subrange(spk, 2, spk.len())) {
        Some(output_key) => taproot(output_key, wit),
        None => Err(Error::XOnlyPublicKeyParseError),
    }
}

/// A spend through a redeem script with hash `hash`, when the redeem script has been taken off
/// the stack `ssig`. A redeem script that has the form of a version 0 witness program is read as
/// one.
pub open spec fn redeem_model(
    spk: Seq<u8>,
    redeem_script: Seq<u8>,
    hash: Seq<u8>,
    ssig: Seq<ElementModel>,
    wit: Seq<ElementModel>,
) -> Result<OutcomeModel, Error> {
    if spk != p2sh_script(hash) {
        Err(Error::IncorrectScriptHash)
    } else if is_p2wpkh_script(redeem_script) || is_p2wsh_script(redeem_script) {
        if wit.len() == 0 {
            Err(Error::UnexpectedStackEnd)
        } else if ssig.len() != 0 {
            Err(Error::NonEmptyScriptSig)
        } else if is_p2wsh_script(redeem_script) {
            script_outcome_model(
                ScriptSpendModel::ShWsh { redeem_script, stack: wit.drop_last() },
                script_source_model(wit.last()),
            )
        } else {
            match element_key_model(wit.last(), true) {
                Err(e) => Err(e),
                Ok(key) => complete_model(
                    wpkh_data_model(
                        redeem_script,
                        PubkeyType::ShWpkh,
                        Error::IncorrectWScriptHash,
                        key,
                        hash160_digest(key),
                        wit.drop_last(),
                    ),
                ),
            }
        }
    } else {
        Ok(
            OutcomeModel::NeedsScript(
                PendingScriptModel {
                    spend: ScriptSpendModel::Sh { spk, witness_empty: wit.len() == 0, stack: ssig },
                    script: redeem_script,
                },
            ),
        )
    }
}

/// A spend through a redeem script with hash `hash`, when the redeem script has been taken off
/// the stack `ssig`.
pub fn redeem(
    spk: &[u8],
    redeem_script: Vec<u8>,
    hash: &[u8; 20],
    ssig: Stack,
    wit: Stack,
) -> (outcome: Result<Outcome, Error>)
    ensures
        result_model(outcome) == redeem_model(spk@, redeem_script@, hash@, ssig@, wit@),
{
    if !bytes_eq(spk, new_p2sh(hash).as_slice()) {
        return Err(Error::IncorrectScriptHash);
    }
    if redeem_script.len() == 22 && redeem_script[0] == 0 && redeem_script[1] == 20 {
        let mut stack = wit;
        let elem = match stack.pop() {
            Some(elem) => elem,
            None => {
                return Err(Error::UnexpectedStackEnd);
            },
        };
        if !ssig.is_empty() {
            return Err(Error::NonEmptyScriptSig);
        }
        let key = match pk_from_stackelem(&elem, true) {
            Ok(key) => key,
            Err(e) => {
                return Err(e);
            },
        };
        let hash = key.to_pubkeyhash();
        return match sh_wpkh_data(redeem_script.as_slice(), key, &hash, stack) {
            Ok(data) => Ok(Outcome::Complete(data)),
            Err(e) => Err(e),
        };
    }
    if redeem_script.len() == 34 && redeem_script[0] == 0 && redeem_script[1] == 32 {
        let mut stack = wit;
        let elem = match stack.pop() {
            Some(elem) => elem,
            None => {
                return Err(Error::UnexpectedStackEnd);
            },
        };
        if !ssig.is_empty() {
            return Err(Error::NonEmptyScriptSig);
        }
        return script_outcome(
            ScriptSpend::ShWsh { redeem_script, stack },
            script_from_stackelem(elem),
        );
    }
    let witness_empty = wit.is_empty();
    Ok(
        Outcome::NeedsScript(
            PendingScript {
                spend: ScriptSpend::Sh { spk: slice_to_vec(spk), witness_empty, stack: ssig },
                script: redeem_script,
            },
        ),
    )
}

/// A spend of an output that pays to the hash of a script: the redeem script is on top of the
/// stack of the script signature.
pub open spec fn p2sh_model(
    spk: Seq<u8>,
    ssig: Seq<ElementModel>,
    wit: Seq<ElementModel>,
) -> Result<OutcomeModel, Error> {
    if ssig.len() == 0 {
        Err(Error::UnexpectedStackEnd)
    } else {
        match script_source_model(ssig.last()) {
            ScriptSourceModel::Encoded(script) => redeem_model(
                spk,
                script,
                hash160_digest(script),
                ssig.drop_last(),
                wit,
            ),
            ScriptSourceModel::Known(decoded) => complete_model(
                (ScriptSpendModel::Sh {
                    spk,
                    witness_empty: wit.len() == 0,
                    stack: ssig.drop_last(),
                }).finish(decoded),
            ),
        }
    }
}

fn p2sh(spk: &[u8], ssig: Stack, wit: Stack) -> (outcome: Result<Outcome, Error>)
    ensures
        result_model(outcome) == p2sh_model(spk@, ssig@, wit@),
{
    let mut stack = ssig;
    match stack.pop() {
        Some(elem) => match script_from_stackelem(elem) {
            ScriptSource::Encoded(script) => {
                let hash = hash160(script.as_slice());
                redeem(spk, script, &hash, stack, wit)
            },
            ScriptSource::Known(decoded) => script_outcome(
                ScriptSpend::Sh { spk: slice_to_vec(spk), witness_empty: wit.is_empty(), stack },
                ScriptSource::Known(decoded),
            ),
        },
        None => Err(Error::UnexpectedStackEnd),
    }
}

/// A spend of an output whose script is its own spending condition.
pub open spec fn bare_model(
    spk: Seq<u8>,
    ssig: Seq<ElementModel>,
    wit: Seq<ElementModel>,
) -> Result<OutcomeModel, Error> {
    if wit.len() != 0 {
        Err(Error::NonEmptyWitness)
    } else {
        Ok(
            OutcomeModel::NeedsScript(
                PendingScriptModel {
                    spend: ScriptSpendModel::Bare { spk, stack: ssig },
                    script: spk,
                },
            ),
        )
    }
}

fn bare(spk: &[u8], ssig: Stack, wit: Stack) -> (outcome: Result<Outcome, Error>)
    ensures
        result_model(outcome) == bare_model(spk@, ssig@, wit@),
{
    if !wit.is_empty() {
        return Err(Error::NonEmptyWitness);
    }
    Ok(
        Outcome::NeedsScript(
            PendingScript {
                spend: ScriptSpend::Bare { spk: slice_to_vec(spk), stack: ssig },
                script: slice_to_vec(spk),
            },
        ),
    )
}

/// Whether the outputs of a form are witness programs.
pub open spec fn is_native_segwit(form: OutputType) -> bool {
    form == OutputType::P2wpkh || form == OutputType::P2wsh || form == OutputType::P2tr
}

/// A spend of the output `spk` by the stacks of a script signature and of a witness.
pub open spec fn from_stacks_model(
    spk: Seq<u8>,
    ssig: Seq<ElementModel>,
    wit: Seq<ElementModel>,
) -> Result<OutcomeModel, Error> {
    match output_type_model(spk) {
        OutputType::P2pk => p2pk_model(spk, ssig, wit),
        OutputType::P2pkh => p2pkh_model(spk, ssig, wit),
        OutputType::P2wpkh => p2wpkh_model(spk, ssig, wit),
        OutputType::P2wsh => p2wsh_model(spk, ssig, wit),
        OutputType::P2tr => p2tr_model(spk, ssig, wit),
        OutputType::P2sh => p2sh_model(spk, ssig, wit),
        OutputType::Bare => bare_model(spk, ssig, wit),
    }
}

/// Takes apart a spend of the output `spk` by the stacks of a script signature and of a witness.
pub fn from_stacks(spk: &[u8], ssig: Stack, wit: Stack) -> (outcome: Result<Outcome, Error>)
    ensures
        result_model(outcome) == from_stacks_model(spk@, ssig@, wit@),
{
    match output_type(spk) {
        OutputType::P2pk => p2pk(spk, ssig, wit),
        OutputType::P2pkh => p2pkh(spk, ssig, wit),
        OutputType::P2wpkh => p2wpkh(spk, ssig, wit),
        OutputType::P2wsh => p2wsh(spk, ssig, wit),
        OutputType::P2tr => p2tr(spk, ssig, wit),
        OutputType::P2sh => p2sh(spk, ssig, wit),
        OutputType::Bare => bare(spk, ssig, wit),
    }
}

/// A spend of the output `spk` by a script signature and a witness.
pub open spec fn from_txdata_model(
    spk: Seq<u8>,
    script_sig: Seq<u8>,
    witness: Seq<Seq<u8>>,
) -> Result<OutcomeModel, Error> {
    match script_sig_model(script_sig) {
        Ok(ssig) => from_stacks_model(spk, ssig, witness_stack_model(witness)),
        Err(e) => Err(e),
    }
}

/// Takes completed transaction data apart: what the spend of the output `spk` is evaluated
/// against, the stack that is left for the evaluation, and the script that a signature hash is
/// taken over. Where a script stands in the way it has to be decoded first.
pub fn from_txdata(spk: &[u8], script_sig: &[u8], witness: &[Vec<u8>]) -> (outcome: Result<
    Outcome,
    Error,
>)
    requires
        is_readable(script_sig@),
    ensures
        result_model(outcome) == from_txdata_model(spk@, script_sig@, witness_model(witness@)),
        // A script signature acts as the stack that its instructions leave.
        forall|instructions: Seq<InstructionModel>| #[trigger]
            only_pushes(script_sig@, instructions) ==> result_model(outcome) == from_stacks_model(
                spk@,
                pushed_stack_model(instructions),
                witness_stack_model(witness_model(witness@)),
            ),
        // A native segwit output takes no script signature.
        script_sig@.len() > 0 && is_native_segwit(output_type_model(spk@)) ==> outcome is Err,
        outcome matches Ok(Outcome::Complete(data)) ==> data@.inner.holds_keys(),
{
    proof {
        assert forall|instructions: Seq<InstructionModel>| #[trigger]
            only_pushes(script_sig@, instructions) implies script_sig_model(script_sig@) == Ok::<
            Seq<ElementModel>,
            Error,
        >(pushed_stack_model(instructions)) by {
            law_script_sig_stack(script_sig@, instructions);
        }
        law_script_sig_bytes_are_refused(spk@, script_sig@, witness_model(witness@));
        law_complete_keys(spk@, script_sig@, witness_model(witness@));
    }
    match script_sig_stack(script_sig) {
        Ok(ssig) => from_stacks(spk, ssig, Stack::from_witness(witness)),
        Err(e) => Err(e),
    }
}

/// A way to decode scripts: what comes of a script under the rules of a context.
pub type Decoder = spec_fn(ScriptContext, Seq<u8>) -> Result<DecodedModel<Seq<u8>>, String>;

/// What becomes of a spend once the script that it may wait for is decoded by `decode`.
pub open spec fn settled(outcome: Result<OutcomeModel, Error>, decode: Decoder) -> Result<
    TxDataModel,
    Error,
> {
    match outcome {
        Err(e) => Err(e),
        Ok(OutcomeModel::Complete(data)) => Ok(data),
        Ok(OutcomeModel::NeedsScript(pending)) => pending.resume(
            decode(pending.spend.context(), pending.script),
        ),
        Ok(OutcomeModel::NeedsTapScript(pending)) => pending.resume(
            decode(ScriptContext::Tap, pending.script),
        ),
    }
}

/// Whether two functions decode scripts in the way `model`: one those over full keys, in the
/// context that it is given, the other those of taproot outputs.
pub open spec fn decodes_as<F, G>(decode: F, decode_tap: G, model: Decoder) -> bool where
    F: Fn(ScriptContext, &[u8]) -> Result<Decoded<PublicKey>, String>,
    G: Fn(&[u8]) -> Result<Decoded<XOnlyPublicKey>, String>,
 {
    &&& forall|context: ScriptContext, script: &[u8], reply: Result<Decoded<PublicKey>, String>|
        #[trigger]
        call_ensures(decode, (context, script), reply) && context != ScriptContext::Tap
            ==> reply_model(reply) == model(context, script@)
    &&& forall|script: &[u8], reply: Result<Decoded<XOnlyPublicKey>, String>| #[trigger]
        call_ensures(decode_tap, (script,), reply) ==> reply_model(reply) == model(
            ScriptContext::Tap,
            script@,
        )
}

/// Takes completed transaction data apart, all the way. A script over full keys is decoded by
/// `decode`, under the rules of the context that is handed to it, and a taproot script by
/// `decode_tap`. At most one of them is called, and at most once.
pub fn from_txdata_with<F, G>(
    spk: &[u8],
    script_sig: &[u8],
    witness: &[Vec<u8>],
    decode: F,
    decode_tap: G,
) -> (data: Result<TxData, Error>) where
    F: Fn(ScriptContext, &[u8]) -> Result<Decoded<PublicKey>, String>,
    G: Fn(&[u8]) -> Result<Decoded<XOnlyPublicKey>, String>,

    requires
        is_readable(script_sig@),
        forall|context: ScriptContext, script: &[u8]|
            context != ScriptContext::Tap ==> #[trigger] call_requires(decode, (context, script)),
        forall|script: &[u8]| #[trigger] call_requires(decode_tap, (script,)),
    ensures
        match from_txdata_model(spk@, script_sig@, witness_model(witness@)) {
            Err(e) => data == Err::<TxData, Error>(e),
            Ok(OutcomeModel::Complete(model)) => result_model(data) == Ok::<TxDataModel, Error>(
                model,
            ),
            Ok(OutcomeModel::NeedsScript(pending)) => exists|
                script: &[u8],
                reply: Result<Decoded<PublicKey>, String>,
            | #[trigger]
                call_ensures(decode, (pending.spend.context(), script), reply) && script@
                    == pending.script && result_model(data) == pending.resume(reply_model(reply)),
            Ok(OutcomeModel::NeedsTapScript(pending)) => exists|
                script: &[u8],
                reply: Result<Decoded<XOnlyPublicKey>, String>,
            | #[trigger]
                call_ensures(decode_tap, (script,), reply) && script@ == pending.script
                    && result_model(data) == pending.resume(reply_model(reply)),
        },
        forall|model: Decoder| #[trigger]
            decodes_as(decode, decode_tap, model) ==> result_model(data) == settled(
                from_txdata_model(spk@, script_sig@, witness_model(witness@)),
                model,
            ),
        data matches Ok(d) ==> d@.inner.holds_keys(),
{
    match from_txdata(spk, script_sig, witness) {
        Err(e) => Err(e),
        Ok(Outcome::Complete(data)) => Ok(data),
        Ok(Outcome::NeedsScript(pending)) => {
            let reply = decode(pending.spend.context(), pending.script.as_slice());
            pending.resume(reply)
        },
        Ok(Outcome::NeedsTapScript(pending)) => {
            let reply = decode_tap(pending.script.as_slice());
            pending.resume(reply)
        },
    }
}

} // verus!
