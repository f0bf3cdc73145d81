//! What holds of every spend that is taken apart.
use vstd::prelude::*;

use crate::crypto::{
    control_block_error, hash160_digest, is_public_key, is_x_only_public_key, sha256_digest,
    taproot_commitment_holds,
};
use crate::error::Error;
use crate::inner::{
    DecodedModel, InnerModel, OutcomeModel, PubkeyType, ScriptContext, ScriptType, TxDataModel,
};
use crate::keys::BitcoinKeyModel;
use crate::miniscript::{full_hash_model, full_key_model, x_only_hash_model, x_only_key_model};
use crate::script::{
    is_p2pk_script, is_p2pkh_script, is_p2sh_script, is_p2tr_script, is_p2wpkh_script,
    is_p2wsh_script, output_type_model, p2pkh_script, p2sh_script,
    p2wpkh_script, p2wsh_script, OutputType,
};
use crate::script_sig::{
    comes_to, law_script_sig_is_refused_at, law_script_sig_leaves_items, script_sig_model,
    starts_badly,
};
use crate::stack::{witness_stack_model, ElementModel, InstructionModel};
use crate::tree_laws::{all_full, all_x_only, law_marks_tell_the_kind};
use crate::txdata::{
    from_stacks_model, from_txdata_model, is_native_segwit, settled, Decoder, TAPROOT_ANNEX_PREFIX,
};

verus! {

/// What becomes of a spend of the output `spk` by two stacks.
pub open spec fn spend(
    spk: Seq<u8>,
    ssig: Seq<ElementModel>,
    wit: Seq<ElementModel>,
    decode: Decoder,
) -> Result<TxDataModel, Error> {
    settled(from_stacks_model(spk, ssig, wit), decode)
}

/// Spending data is what its stacks are: unless the script signature is refused, the outcome is
/// that of a spend by the stack of the script signature and the stack of the witness.
pub proof fn law_spend_by_stacks(
    spk: Seq<u8>,
    script_sig: Seq<u8>,
    witness: Seq<Seq<u8>>,
    decode: Decoder,
)
    ensures
        settled(from_txdata_model(spk, script_sig, witness), decode)
            == match script_sig_model(script_sig) {
            Ok(ssig) => spend(spk, ssig, witness_stack_model(witness), decode),
            Err(e) => Err(e),
        },
{
}

/// No output script has two forms, so that the form does not depend on the order in which the
/// forms are tried.
pub proof fn law_forms_are_disjoint(spk: Seq<u8>)
    ensures
        is_p2pk_script(spk) <==> output_type_model(spk) == OutputType::P2pk,
        is_p2pkh_script(spk) <==> output_type_model(spk) == OutputType::P2pkh,
        is_p2wpkh_script(spk) <==> output_type_model(spk) == OutputType::P2wpkh,
        is_p2wsh_script(spk) <==> output_type_model(spk) == OutputType::P2wsh,
        is_p2tr_script(spk) <==> output_type_model(spk) == OutputType::P2tr,
        is_p2sh_script(spk) <==> output_type_model(spk) == OutputType::P2sh,
{
}

/// Whether the output `spk` commits to the key or the script of a spend, in the way that its
/// origin says. For a taproot script the proof is the control block on top of the witness.
pub open spec fn commits(spk: Seq<u8>, wit: Seq<ElementModel>, data: TxDataModel) -> bool {
    match data.inner {
        InnerModel::PublicKey(BitcoinKeyModel::Fullkey(key), origin) => {
            &&& is_public_key(key)
            &&& match origin {
                PubkeyType::Pk => spk == seq![key.len() as u8] + key + seq![0xacu8],
                PubkeyType::Pkh => spk == p2pkh_script(hash160_digest(key)),
                PubkeyType::Wpkh => key.len() == 33 && spk == p2wpkh_script(hash160_digest(key)),
                PubkeyType::ShWpkh => key.len() == 33 && spk == p2sh_script(
                    hash160_digest(p2wpkh_script(hash160_digest(key))),
                ),
                PubkeyType::Tr => false,
            }
        },
        InnerModel::PublicKey(BitcoinKeyModel::XOnlyPublicKey(key), origin) => {
            &&& is_x_only_public_key(key)
            &&& origin == PubkeyType::Tr
            &&& spk == seq![0x51u8, 32u8] + key
        },
        InnerModel::Script(_, ScriptType::Tr) => {
            &&& data.leaf_script matches Some(script)
            &&& wit.last() matches ElementModel::Push(control_block)
            &&& taproot_commitment_holds(control_block, spk.skip(2), script)
        },
        InnerModel::Script(_, origin) => {
            &&& data.script_code matches Some(script)
            &&& match origin {
                ScriptType::Bare => spk == script,
                ScriptType::Sh => spk == p2sh_script(hash160_digest(script)),
                ScriptType::Wsh => spk == p2wsh_script(sha256_digest(script)),
                ScriptType::ShWsh => spk == p2sh_script(
                    hash160_digest(p2wsh_script(sha256_digest(script))),
                ),
                ScriptType::Tr => false,
            }
        },
    }
}

/// Every spend that is accepted is one of a key or a script that the output commits to, and a key
/// of a segwit spend is compressed.
pub proof fn law_output_commits(
    spk: Seq<u8>,
    ssig: Seq<ElementModel>,
    wit: Seq<ElementModel>,
    decode: Decoder,
    data: TxDataModel,
)
    requires
        spend(spk, ssig, wit, decode) == Ok::<TxDataModel, Error>(data),
    ensures
        commits(spk, wit, data),
{
    match output_type_model(spk) {
        OutputType::P2pk => {
            let key = spk.subrange(1, spk.len() - 1);
            assert(spk =~= seq![key.len() as u8] + key + seq![0xacu8]);
        },
        OutputType::P2tr => {
            assert(spk =~= seq![0x51u8, 32u8] + spk.skip(2));
        },
        _ => {},
    }
}

/// A spend from a form of output has the origins that go with that form, and no other: a key is
/// x-only exactly if it comes from a taproot output, and so are the keys of a script.
pub open spec fn appropriate(form: OutputType, inner: InnerModel) -> bool {
    match inner {
        InnerModel::PublicKey(key, origin) => {
            &&& key is XOnlyPublicKey <==> origin == PubkeyType::Tr
            &&& match origin {
                PubkeyType::Pk => form == OutputType::P2pk,
                PubkeyType::Pkh => form == OutputType::P2pkh,
                PubkeyType::Wpkh => form == OutputType::P2wpkh,
                PubkeyType::ShWpkh => form == OutputType::P2sh,
                PubkeyType::Tr => form == OutputType::P2tr,
            }
        },
        InnerModel::Script(tree, origin) => {
            &&& origin == ScriptType::Tr ==> all_x_only(tree)
            &&& origin != ScriptType::Tr ==> all_full(tree)
            &&& match origin {
                ScriptType::Bare => form == OutputType::Bare,
                ScriptType::Sh => form == OutputType::P2sh,
                ScriptType::Wsh => form == OutputType::P2wsh,
                ScriptType::ShWsh => form == OutputType::P2sh,
                ScriptType::Tr => form == OutputType::P2tr,
            }
        },
    }
}

/// Only appropriate combinations of keys, scripts and origins are created.
pub proof fn law_only_appropriate(
    spk: Seq<u8>,
    ssig: Seq<ElementModel>,
    wit: Seq<ElementModel>,
    decode: Decoder,
    data: TxDataModel,
)
    requires
        spend(spk, ssig, wit, decode) == Ok::<TxDataModel, Error>(data),
    ensures
        appropriate(output_type_model(spk), data.inner),
{
    assert forall|decoded: DecodedModel<Seq<u8>>|
        #![trigger decoded.miniscript]
        all_full(decoded.miniscript.map_keys(full_key_model(), full_hash_model())) by {
        law_marks_tell_the_kind(decoded.miniscript);
    }
    assert forall|decoded: DecodedModel<Seq<u8>>|
        #![trigger decoded.miniscript]
        all_x_only(
            decoded.miniscript.map_keys(x_only_key_model(), x_only_hash_model()),
        ) by {
        law_marks_tell_the_kind(decoded.miniscript);
    }
}

/// A taproot spend has no script code, and every other spend has one: a bare output and a key that
/// is not in a witness program are signed over the output script, a key in a witness program over
/// the script that pays to its hash outside of segwit. A taproot spend through a script has that
/// script as its leaf script, and no other spend has one.
pub proof fn law_script_code(
    spk: Seq<u8>,
    ssig: Seq<ElementModel>,
    wit: Seq<ElementModel>,
    decode: Decoder,
    data: TxDataModel,
)
    requires
        spend(spk, ssig, wit, decode) == Ok::<TxDataModel, Error>(data),
    ensures
        output_type_model(spk) == OutputType::P2tr <==> data.script_code is None,
        match data.inner {
            InnerModel::PublicKey(BitcoinKeyModel::Fullkey(key), origin) => data.script_code
                == Some(
                if origin == PubkeyType::Pk || origin == PubkeyType::Pkh {
                    spk
                } else {
                    p2pkh_script(hash160_digest(key))
                },
            ),
            InnerModel::Script(_, ScriptType::Bare) => data.script_code == Some(spk),
            _ => true,
        },
        data.leaf_script is Some <==> (data.inner matches InnerModel::Script(_, origin) && origin
            == ScriptType::Tr),
{
}

/// What is left for the evaluation: all of the stack that the spend is read from, in order, but
/// for the key, or the script with its control block, on top of it. The other stack is empty, or
/// holds the redeem script alone.
pub open spec fn leaves(
    ssig: Seq<ElementModel>,
    wit: Seq<ElementModel>,
    data: TxDataModel,
) -> bool {
    match data.inner {
        InnerModel::PublicKey(_, origin) => match origin {
            PubkeyType::Pk => wit.len() == 0 && data.stack == ssig,
            PubkeyType::Pkh => wit.len() == 0 && ssig.len() > 0 && data.stack == ssig.drop_last(),
            PubkeyType::Wpkh => ssig.len() == 0 && wit.len() > 0 && data.stack == wit.drop_last(),
            PubkeyType::ShWpkh => ssig.len() == 1 && wit.len() > 0 && data.stack
                == wit.drop_last(),
            PubkeyType::Tr => ssig.len() == 0 && wit.len() == 1 && data.stack == wit,
        },
        InnerModel::Script(_, origin) => match origin {
            ScriptType::Bare => wit.len() == 0 && data.stack == ssig,
            ScriptType::Sh => wit.len() == 0 && ssig.len() > 0 && data.stack == ssig.drop_last(),
            ScriptType::Wsh => ssig.len() == 0 && wit.len() > 0 && data.stack == wit.drop_last(),
            ScriptType::ShWsh => ssig.len() == 1 && wit.len() > 0 && data.stack == wit.drop_last(),
            ScriptType::Tr => ssig.len() == 0 && wit.len() >= 4 && data.stack == wit.take(
                wit.len() - 2,
            ),
        },
    }
}

/// A spend from before segwit has no witness, a native segwit spend has no script signature, and
/// nothing of the stack is lost or reordered.
pub proof fn law_stack_is_kept(
    spk: Seq<u8>,
    ssig: Seq<ElementModel>,
    wit: Seq<ElementModel>,
    decode: Decoder,
    data: TxDataModel,
)
    requires
        spend(spk, ssig, wit, decode) == Ok::<TxDataModel, Error>(data),
    ensures
        leaves(ssig, wit, data),
{
}

/// A script signature is refused, whatever the output and the witness are, if it holds anything but
/// pushes and the number one, each in its shortest form: `instructions` are those before the first
/// such place, and `rest` is what starts there.
pub proof fn law_script_sig_pushes(
    spk: Seq<u8>,
    script_sig: Seq<u8>,
    witness: Seq<Seq<u8>>,
    instructions: Seq<InstructionModel>,
    rest: Seq<u8>,
)
    requires
        comes_to(script_sig, instructions, rest),
        starts_badly(rest),
    ensures
        from_txdata_model(spk, script_sig, witness) == Err::<OutcomeModel, Error>(
            Error::ExpectedPush,
        ),
{
    law_script_sig_is_refused_at(script_sig, instructions, rest);
}

/// A native segwit output takes no script signature: one that is not empty is refused, as what it
/// is not meant to hold or as what should not be there.
pub proof fn law_script_sig_bytes_are_refused(
    spk: Seq<u8>,
    script_sig: Seq<u8>,
    witness: Seq<Seq<u8>>,
)
    ensures
        script_sig.len() > 0 && is_native_segwit(output_type_model(spk)) ==> {
            ||| from_txdata_model(spk, script_sig, witness) == Err::<OutcomeModel, Error>(
                Error::ExpectedPush,
            )
            ||| from_txdata_model(spk, script_sig, witness) == Err::<OutcomeModel, Error>(
                Error::NonEmptyScriptSig,
            )
        },
{
    law_script_sig_leaves_items(script_sig);
}

/// Every key of a spend that needs no script to be decoded is one, of the kind that it is marked
/// with.
pub proof fn law_complete_keys(spk: Seq<u8>, script_sig: Seq<u8>, witness: Seq<Seq<u8>>)
    ensures
        from_txdata_model(spk, script_sig, witness) matches Ok(OutcomeModel::Complete(data))
            ==> data.inner.holds_keys(),
{
}

/// A key is spent from the output that holds it, whatever stands in the script signature.
pub proof fn law_pk_is_spent(key: Seq<u8>, ssig: Seq<ElementModel>, decode: Decoder)
    requires
        is_public_key(key),
        key.len() == 33 || key.len() == 65,
    ensures
        ({
            let spk = seq![key.len() as u8] + key + seq![0xacu8];
            spend(spk, ssig, seq![], decode) == Ok::<TxDataModel, Error>(
                TxDataModel {
                    inner: InnerModel::PublicKey(BitcoinKeyModel::Fullkey(key), PubkeyType::Pk),
                    stack: ssig,
                    script_code: Some(spk),
                    leaf_script: None,
                },
            )
        }),
{
    let spk = seq![key.len() as u8] + key + seq![0xacu8];
    assert(spk.subrange(1, spk.len() - 1) =~= key);
}

/// A key is spent from the output that pays to its hash by a script signature that leaves the key
/// on top of its stack.
pub proof fn law_pkh_is_spent(
    key: Seq<u8>,
    hash: [u8; 20],
    rest: Seq<ElementModel>,
    decode: Decoder,
)
    requires
        is_public_key(key),
        hash@ == hash160_digest(key),
    ensures
        spend(p2pkh_script(hash@), rest.push(ElementModel::Push(key)), seq![], decode) == Ok::<
            TxDataModel,
            Error,
        >(
            TxDataModel {
                inner: InnerModel::PublicKey(BitcoinKeyModel::Fullkey(key), PubkeyType::Pkh),
                stack: rest,
                script_code: Some(p2pkh_script(hash@)),
                leaf_script: None,
            },
        ),
{
    let spk = p2pkh_script(hash@);
    assert(is_p2pkh_script(spk));
    assert(rest.push(ElementModel::Push(key)).drop_last() =~= rest);
}

/// A compressed key is spent from the witness program for its hash by a witness with the key on
/// top.
pub proof fn law_wpkh_is_spent(
    key: Seq<u8>,
    hash: [u8; 20],
    rest: Seq<ElementModel>,
    decode: Decoder,
)
    requires
        is_public_key(key),
        key.len() == 33,
        hash@ == hash160_digest(key),
    ensures
        spend(p2wpkh_script(hash@), seq![], rest.push(ElementModel::Push(key)), decode) == Ok::<
            TxDataModel,
            Error,
        >(
            TxDataModel {
                inner: InnerModel::PublicKey(BitcoinKeyModel::Fullkey(key), PubkeyType::Wpkh),
                stack: rest,
                script_code: Some(p2pkh_script(hash@)),
                leaf_script: None,
            },
        ),
{
    let spk = p2wpkh_script(hash@);
    assert(is_p2wpkh_script(spk));
    assert(rest.push(ElementModel::Push(key)).drop_last() =~= rest);
}

/// A compressed key is spent from the output that pays to the hash of the witness program for its
/// hash, by a script signature that is the witness program and a witness with the key on top.
pub proof fn law_sh_wpkh_is_spent(
    key: Seq<u8>,
    hash: [u8; 20],
    script_hash: [u8; 20],
    rest: Seq<ElementModel>,
    decode: Decoder,
)
    requires
        is_public_key(key),
        key.len() == 33,
        hash@ == hash160_digest(key),
        script_hash@ == hash160_digest(p2wpkh_script(hash@)),
    ensures
        spend(
            p2sh_script(script_hash@),
            seq![ElementModel::Push(p2wpkh_script(hash@))],
            rest.push(ElementModel::Push(key)),
            decode,
        ) == Ok::<TxDataModel, Error>(
            TxDataModel {
                inner: InnerModel::PublicKey(BitcoinKeyModel::Fullkey(key), PubkeyType::ShWpkh),
                stack: rest,
                script_code: Some(p2pkh_script(hash@)),
                leaf_script: None,
            },
        ),
{
    let spk = p2sh_script(script_hash@);
    assert(is_p2sh_script(spk));
    let redeem_script = p2wpkh_script(hash@);
    assert(redeem_script.len() == 22 && redeem_script[0] == 0 && redeem_script[1] == 20);
    assert(rest.push(ElementModel::Push(key)).drop_last() =~= rest);
}

/// A taproot output is spent through its key by a witness of one item.
pub proof fn law_tr_key_is_spent(key: Seq<u8>, item: ElementModel, decode: Decoder)
    requires
        is_x_only_public_key(key),
        key.len() == 32,
    ensures
        spend(seq![0x51u8, 32u8] + key, seq![], seq![item], decode) == Ok::<TxDataModel, Error>(
            TxDataModel {
                inner: InnerModel::PublicKey(BitcoinKeyModel::XOnlyPublicKey(key), PubkeyType::Tr),
                stack: seq![item],
                script_code: None,
                leaf_script: None,
            },
        ),
{
    let spk = seq![0x51u8, 32u8] + key;
    assert(is_p2tr_script(spk));
    assert(spk.skip(2) =~= key);
}

/// The spend of a script that has been decoded.
pub open spec fn script_spent(
    decoded: DecodedModel<Seq<u8>>,
    origin: ScriptType,
    rest: Seq<ElementModel>,
    script: Seq<u8>,
) -> Result<TxDataModel, Error> {
    Ok(
        TxDataModel {
            inner: InnerModel::Script(
                decoded.miniscript.map_keys(full_key_model(), full_hash_model()),
                origin,
            ),
            stack: rest,
            script_code: Some(script),
            leaf_script: None,
        },
    )
}

/// A script that decodes is spent from the output that is this script, if the output is of no
/// other form.
pub proof fn law_bare_is_spent(
    script: Seq<u8>,
    decoded: DecodedModel<Seq<u8>>,
    ssig: Seq<ElementModel>,
    decode: Decoder,
)
    requires
        output_type_model(script) == OutputType::Bare,
        decode(ScriptContext::Bare, script) == Ok::<DecodedModel<Seq<u8>>, String>(decoded),
    ensures
        spend(script, ssig, seq![], decode) == script_spent(
            decoded,
            ScriptType::Bare,
            ssig,
            script,
        ),
{
}

/// A script that decodes, and encodes again to the same bytes, is spent from the output that pays
/// to its hash by a script signature that leaves the script on top of its stack. A script that
/// has the form of a witness program is not meant for this.
pub proof fn law_sh_is_spent(
    script: Seq<u8>,
    hash: [u8; 20],
    decoded: DecodedModel<Seq<u8>>,
    rest: Seq<ElementModel>,
    decode: Decoder,
)
    requires
        !is_p2wpkh_script(script),
        !is_p2wsh_script(script),
        hash@ == hash160_digest(script),
        decode(ScriptContext::Legacy, script) == Ok::<DecodedModel<Seq<u8>>, String>(decoded),
        decoded.script == script,
    ensures
        spend(p2sh_script(hash@), rest.push(ElementModel::Push(script)), seq![], decode)
            == script_spent(decoded, ScriptType::Sh, rest, script),
{
    let spk = p2sh_script(hash@);
    assert(is_p2sh_script(spk));
    assert(rest.push(ElementModel::Push(script)).drop_last() =~= rest);
}

/// A script that decodes, and encodes again to the same bytes, is spent from the witness program
/// for its hash by a witness with the script on top.
pub proof fn law_wsh_is_spent(
    script: Seq<u8>,
    hash: [u8; 32],
    decoded: DecodedModel<Seq<u8>>,
    rest: Seq<ElementModel>,
    decode: Decoder,
)
    requires
        hash@ == sha256_digest(script),
        decode(ScriptContext::Segwitv0, script) == Ok::<DecodedModel<Seq<u8>>, String>(decoded),
        decoded.script == script,
    ensures
        spend(p2wsh_script(hash@), seq![], rest.push(ElementModel::Push(script)), decode)
            == script_spent(decoded, ScriptType::Wsh, rest, script),
{
    let spk = p2wsh_script(hash@);
    assert(is_p2wsh_script(spk));
    assert(rest.push(ElementModel::Push(script)).drop_last() =~= rest);
}

/// A script that decodes, and encodes again to the same bytes, is spent from the output that pays
/// to the hash of the witness program for its hash, by a script signature that is the witness
/// program and a witness with the script on top.
pub proof fn law_sh_wsh_is_spent(
    script: Seq<u8>,
    hash: [u8; 32],
    script_hash: [u8; 20],
    decoded: DecodedModel<Seq<u8>>,
    rest: Seq<ElementModel>,
    decode: Decoder,
)
    requires
        hash@ == sha256_digest(script),
        script_hash@ == hash160_digest(p2wsh_script(hash@)),
        decode(ScriptContext::Segwitv0, script) == Ok::<DecodedModel<Seq<u8>>, String>(decoded),
        decoded.script == script,
    ensures
        spend(
            p2sh_script(script_hash@),
            seq![ElementModel::Push(p2wsh_script(hash@))],
            rest.push(ElementModel::Push(script)),
            decode,
        ) == script_spent(decoded, ScriptType::ShWsh, rest, script),
{
    let spk = p2sh_script(script_hash@);
    assert(is_p2sh_script(spk));
    let redeem_script = p2wsh_script(hash@);
    assert(redeem_script.len() == 34 && redeem_script[0] == 0 && redeem_script[1] == 32);
    assert(rest.push(ElementModel::Push(script)).drop_last() =~= rest);
}

/// A taproot script that decodes is spent by a witness with a good control block on top and the
/// script below it, if the control block proves that the output commits to what the script
/// encodes to, and if at least two items are left.
pub proof fn law_tr_script_is_spent(
    key: Seq<u8>,
    control_block: Seq<u8>,
    script: Seq<u8>,
    decoded: DecodedModel<Seq<u8>>,
    rest: Seq<ElementModel>,
    decode: Decoder,
)
    requires
        is_x_only_public_key(key),
        key.len() == 32,
        control_block_error(control_block) is None,
        decode(ScriptContext::Tap, script) == Ok::<DecodedModel<Seq<u8>>, String>(decoded),
        taproot_commitment_holds(control_block, key, decoded.script),
        rest.len() >= 2,
    ensures
        spend(
            seq![0x51u8, 32u8] + key,
            seq![],
            rest.push(ElementModel::Push(script)).push(ElementModel::Push(control_block)),
            decode,
        ) == Ok::<TxDataModel, Error>(
            TxDataModel {
                inner: InnerModel::Script(
                    decoded.miniscript.map_keys(x_only_key_model(), x_only_hash_model()),
                    ScriptType::Tr,
                ),
                stack: rest,
                script_code: None,
                leaf_script: Some(decoded.script),
            },
        ),
{
    let spk = seq![0x51u8, 32u8] + key;
    let wit = rest.push(ElementModel::Push(script)).push(ElementModel::Push(control_block));
    assert(is_p2tr_script(spk));
    assert(spk.skip(2) =~= key);
    assert(wit.take(wit.len() - 2) =~= rest);
}

/// The spend of a witness program, as one through a redeem script that is this witness program.
pub open spec fn wrapped(data: TxDataModel) -> TxDataModel {
    TxDataModel {
        inner: match data.inner {
            InnerModel::PublicKey(key, _) => InnerModel::PublicKey(key, PubkeyType::ShWpkh),
            InnerModel::Script(tree, _) => InnerModel::Script(tree, ScriptType::ShWsh),
        },
        ..data
    }
}

/// A version 0 witness program is spent behind a script hash by the witness that spends it as an
/// output, and by no other. Only the origin differs.
pub proof fn law_wrapped_like_native(
    spk: Seq<u8>,
    program: Seq<u8>,
    wit: Seq<ElementModel>,
    decode: Decoder,
)
    requires
        output_type_model(spk) == OutputType::P2sh,
        spk == p2sh_script(hash160_digest(program)),
        is_p2wpkh_script(program) || is_p2wsh_script(program),
    ensures
        match spend(program, seq![], wit, decode) {
            Ok(data) => spend(spk, seq![ElementModel::Push(program)], wit, decode) == Ok::<
                TxDataModel,
                Error,
            >(wrapped(data)),
            Err(_) => spend(spk, seq![ElementModel::Push(program)], wit, decode) is Err,
        },
{
}

/// A spend from before segwit is refused if there is a witness.
pub proof fn law_witness_is_refused(
    spk: Seq<u8>,
    ssig: Seq<ElementModel>,
    wit: Seq<ElementModel>,
    decode: Decoder,
)
    requires
        wit.len() != 0,
        ({
            ||| output_type_model(spk) == OutputType::P2pk
            ||| output_type_model(spk) == OutputType::P2pkh
            ||| output_type_model(spk) == OutputType::Bare
        }),
    ensures
        spend(spk, ssig, wit, decode) == Err::<TxDataModel, Error>(Error::NonEmptyWitness),
{
}

/// A native segwit spend is refused if there is a script signature.
pub proof fn law_script_sig_is_refused(
    spk: Seq<u8>,
    ssig: Seq<ElementModel>,
    wit: Seq<ElementModel>,
    decode: Decoder,
)
    requires
        ssig.len() != 0,
        is_native_segwit(output_type_model(spk)),
    ensures
        spend(spk, ssig, wit, decode) == Err::<TxDataModel, Error>(Error::NonEmptyScriptSig),
{
}

/// A spend is refused if the stack that should hold the key or the script is empty.
pub proof fn law_missing_item_is_refused(
    spk: Seq<u8>,
    wit: Seq<ElementModel>,
    decode: Decoder,
)
    ensures
        ({
            ||| output_type_model(spk) == OutputType::P2pkh
            ||| output_type_model(spk) == OutputType::P2wpkh
            ||| output_type_model(spk) == OutputType::P2wsh
        }) ==> spend(spk, seq![], seq![], decode) == Err::<TxDataModel, Error>(
            Error::UnexpectedStackEnd,
        ),
        output_type_model(spk) == OutputType::P2sh ==> spend(spk, seq![], wit, decode) == Err::<
            TxDataModel,
            Error,
        >(Error::UnexpectedStackEnd),
        output_type_model(spk) == OutputType::P2tr && is_x_only_public_key(spk.skip(2)) ==> spend(
            spk,
            seq![],
            seq![],
            decode,
        ) == Err::<TxDataModel, Error>(Error::UnexpectedStackEnd),
{
}

/// Whether a spend is one of `key`, from an output that takes the key from a stack: the form of
/// the output, and the stack that has the key on top.
pub open spec fn offers_key(
    spk: Seq<u8>,
    ssig: Seq<ElementModel>,
    wit: Seq<ElementModel>,
    key: Seq<u8>,
) -> bool {
    match output_type_model(spk) {
        OutputType::P2pkh => wit.len() == 0 && ssig.len() > 0 && ssig.last() == ElementModel::Push(
            key,
        ),
        OutputType::P2wpkh => ssig.len() == 0 && wit.len() > 0 && wit.last() == ElementModel::Push(
            key,
        ),
        _ => false,
    }
}

/// A key that the output does not commit to is refused. So are bytes that are no key, and, in a
/// segwit spend, a key that is not compressed.
pub proof fn law_wrong_key_is_refused(
    spk: Seq<u8>,
    ssig: Seq<ElementModel>,
    wit: Seq<ElementModel>,
    key: Seq<u8>,
    decode: Decoder,
)
    requires
        offers_key(spk, ssig, wit, key),
    ensures
        !is_public_key(key) ==> spend(spk, ssig, wit, decode) == Err::<TxDataModel, Error>(
            Error::PubkeyParseError,
        ),
        is_public_key(key) && output_type_model(spk) == OutputType::P2pkh && spk != p2pkh_script(
            hash160_digest(key),
        ) ==> spend(spk, ssig, wit, decode) == Err::<TxDataModel, Error>(
            Error::IncorrectPubkeyHash,
        ),
        is_public_key(key) && output_type_model(spk) == OutputType::P2wpkh && key.len() != 33
            ==> spend(spk, ssig, wit, decode) == Err::<TxDataModel, Error>(
            Error::UncompressedPubkey,
        ),
        is_public_key(key) && output_type_model(spk) == OutputType::P2wpkh && key.len() == 33 && spk
            != p2wpkh_script(hash160_digest(key)) ==> spend(spk, ssig, wit, decode) == Err::<
            TxDataModel,
            Error,
        >(Error::IncorrectWPubkeyHash),
{
}

/// A redeem script that the output does not commit to is refused, whatever the witness is.
pub proof fn law_wrong_redeem_script_is_refused(
    spk: Seq<u8>,
    rest: Seq<ElementModel>,
    redeem_script: Seq<u8>,
    wit: Seq<ElementModel>,
    decode: Decoder,
)
    requires
        output_type_model(spk) == OutputType::P2sh,
        spk != p2sh_script(hash160_digest(redeem_script)),
    ensures
        spend(spk, rest.push(ElementModel::Push(redeem_script)), wit, decode) == Err::<
            TxDataModel,
            Error,
        >(Error::IncorrectScriptHash),
{
}

/// A redeem script that is a witness program is refused without a witness, and with anything
/// beside it in the script signature. If it is for a key, then so is a key that is not compressed
/// or that the witness program does not commit to.
pub proof fn law_wrapped_program_is_refused(
    spk: Seq<u8>,
    rest: Seq<ElementModel>,
    redeem_script: Seq<u8>,
    wit: Seq<ElementModel>,
    key: Seq<u8>,
    decode: Decoder,
)
    requires
        output_type_model(spk) == OutputType::P2sh,
        spk == p2sh_script(hash160_digest(redeem_script)),
        is_p2wpkh_script(redeem_script) || is_p2wsh_script(redeem_script),
    ensures
        ({
            let result = spend(spk, rest.push(ElementModel::Push(redeem_script)), wit, decode);
            &&& wit.len() == 0 ==> result == Err::<TxDataModel, Error>(Error::UnexpectedStackEnd)
            &&& wit.len() > 0 && rest.len() > 0 ==> result == Err::<TxDataModel, Error>(
                Error::NonEmptyScriptSig,
            )
            &&& is_p2wpkh_script(redeem_script) && rest.len() == 0 && wit.len() > 0 && wit.last()
                == ElementModel::Push(key) && is_public_key(key) ==> {
                &&& key.len() != 33 ==> result == Err::<TxDataModel, Error>(
                    Error::UncompressedPubkey,
                )
                &&& key.len() == 33 && redeem_script != p2wpkh_script(hash160_digest(key))
                    ==> result == Err::<TxDataModel, Error>(Error::IncorrectWScriptHash)
            }
        }),
{
    let ssig = rest.push(ElementModel::Push(redeem_script));
    assert(ssig.drop_last() =~= rest);
}

/// A witness script that decodes is refused if the witness program, be it the output or the redeem
/// script, does not commit to what it encodes to.
pub proof fn law_wrong_witness_script_is_refused(
    spk: Seq<u8>,
    redeem_script: Seq<u8>,
    rest: Seq<ElementModel>,
    script: Seq<u8>,
    decoded: DecodedModel<Seq<u8>>,
    decode: Decoder,
)
    requires
        decode(ScriptContext::Segwitv0, script) == Ok::<DecodedModel<Seq<u8>>, String>(decoded),
    ensures
        output_type_model(spk) == OutputType::P2wsh && spk != p2wsh_script(
            sha256_digest(decoded.script),
        ) ==> spend(spk, seq![], rest.push(ElementModel::Push(script)), decode) == Err::<
            TxDataModel,
            Error,
        >(Error::IncorrectWScriptHash),
        output_type_model(spk) == OutputType::P2sh && spk == p2sh_script(
            hash160_digest(redeem_script),
        ) && is_p2wsh_script(redeem_script) && redeem_script != p2wsh_script(
            sha256_digest(decoded.script),
        ) ==> spend(
            spk,
            seq![ElementModel::Push(redeem_script)],
            rest.push(ElementModel::Push(script)),
            decode,
        ) == Err::<TxDataModel, Error>(Error::IncorrectWScriptHash),
{
}

/// A redeem script that is no witness program and decodes is refused if there is a witness, and if
/// the output does not commit to what it encodes to.
pub proof fn law_redeem_script_is_refused(
    spk: Seq<u8>,
    rest: Seq<ElementModel>,
    redeem_script: Seq<u8>,
    wit: Seq<ElementModel>,
    decoded: DecodedModel<Seq<u8>>,
    decode: Decoder,
)
    requires
        output_type_model(spk) == OutputType::P2sh,
        spk == p2sh_script(hash160_digest(redeem_script)),
        !is_p2wpkh_script(redeem_script),
        !is_p2wsh_script(redeem_script),
        decode(ScriptContext::Legacy, redeem_script) == Ok::<DecodedModel<Seq<u8>>, String>(
            decoded,
        ),
    ensures
        ({
            let result = spend(spk, rest.push(ElementModel::Push(redeem_script)), wit, decode);
            &&& wit.len() != 0 ==> result == Err::<TxDataModel, Error>(Error::NonEmptyWitness)
            &&& wit.len() == 0 && spk != p2sh_script(hash160_digest(decoded.script)) ==> result
                == Err::<TxDataModel, Error>(Error::IncorrectScriptHash)
        }),
{
}

/// A taproot witness of several items is refused if it ends in an annex, if fewer than two items
/// stand below the script, and if its control block cannot be read. With a good control block it
/// is refused if the output does not commit to what the script encodes to.
pub proof fn law_taproot_is_refused(
    spk: Seq<u8>,
    rest: Seq<ElementModel>,
    script: Seq<u8>,
    control_block: Seq<u8>,
    decoded: DecodedModel<Seq<u8>>,
    decode: Decoder,
)
    requires
        output_type_model(spk) == OutputType::P2tr,
        is_x_only_public_key(spk.skip(2)),
        control_block.len() > 0,
        decode(ScriptContext::Tap, script) == Ok::<DecodedModel<Seq<u8>>, String>(decoded),
    ensures
        ({
            let result = spend(
                spk,
                seq![],
                rest.push(ElementModel::Push(script)).push(ElementModel::Push(control_block)),
                decode,
            );
            if control_block[0] == TAPROOT_ANNEX_PREFIX {
                result == Err::<TxDataModel, Error>(Error::TapAnnexUnsupported)
            } else if rest.len() < 2 {
                result == Err::<TxDataModel, Error>(Error::UnexpectedStackBoolean)
            } else {
                match control_block_error(control_block) {
                    Some(e) => result == Err::<TxDataModel, Error>(Error::ControlBlockParse(e)),
                    None => !taproot_commitment_holds(
                        control_block,
                        spk.skip(2),
                        decoded.script,
                    ) ==> result == Err::<TxDataModel, Error>(Error::ControlBlockVerificationError),
                }
            }
        }),
{
    let wit = rest.push(ElementModel::Push(script)).push(ElementModel::Push(control_block));
    assert(wit.take(wit.len() - 2) =~= rest);
}

/// A script that does not decode is refused, and the reason is passed on.
pub proof fn law_undecodable_is_refused(
    outcome: OutcomeModel,
    reason: String,
    decode: Decoder,
)
    requires
        match outcome {
            OutcomeModel::Complete(_) => false,
            OutcomeModel::NeedsScript(pending) => decode(pending.spend.context(), pending.script)
                == Err::<DecodedModel<Seq<u8>>, String>(reason),
            OutcomeModel::NeedsTapScript(pending) => decode(ScriptContext::Tap, pending.script)
                == Err::<DecodedModel<Seq<u8>>, String>(reason),
        },
    ensures
        settled(Ok(outcome), decode) == Err::<TxDataModel, Error>(Error::Miniscript(reason)),
{
}

/// The script that is handed out for decoding, and the rules that go with it, are those of the
/// form of the output: the output script itself, the redeem script, or the script on top of the
/// witness, where in a taproot witness the control block is above it.
pub proof fn law_script_to_decode(
    spk: Seq<u8>,
    ssig: Seq<ElementModel>,
    wit: Seq<ElementModel>,
)
    ensures
        match from_stacks_model(spk, ssig, wit) {
            Ok(OutcomeModel::NeedsScript(pending)) => match pending.spend.context() {
                ScriptContext::Bare => output_type_model(spk) == OutputType::Bare && pending.script
                    == spk,
                ScriptContext::Legacy => output_type_model(spk) == OutputType::P2sh && ssig.last()
                    == ElementModel::Push(pending.script),
                ScriptContext::Segwitv0 => {
                    &&& output_type_model(spk) == OutputType::P2wsh || output_type_model(spk)
                        == OutputType::P2sh
                    &&& wit.last() == ElementModel::Push(pending.script)
                },
                ScriptContext::Tap => false,
            },
            Ok(OutcomeModel::NeedsTapScript(pending)) => {
                &&& output_type_model(spk) == OutputType::P2tr
                &&& wit.len() >= 4
                &&& wit[wit.len() - 2] == ElementModel::Push(pending.script)
                &&& wit.last() == ElementModel::Push(pending.spend.control_block)
                &&& control_block_error(pending.spend.control_block) is None
            },
            _ => true,
        },
{
}

} // verus!
