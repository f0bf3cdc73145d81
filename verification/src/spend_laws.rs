//! Which bytes spend an output of each form, what comes of it, and which bytes are refused.
use vstd::prelude::*;

use crate::byte_laws::{
    all_pushable, holds, is_pushable, law_accepted_script_sig, law_bytes_are_spent_as_stacks,
    law_items_keep_their_bytes, law_one_push, law_push_scripts_join, law_witness_items,
    push_script, stands_for,
};
use crate::crypto::{
    control_block_error, hash160_digest, is_public_key, is_x_only_public_key, sha256_digest,
    taproot_commitment_holds,
};
use crate::error::Error;
use crate::inner::{
    pkh_data_model, sh_data_model, tr_script_data_model, wpkh_data_model, wsh_data_model,
    DecodedModel, InnerModel, PubkeyType, ScriptContext, ScriptType, TxDataModel,
};
use crate::keys::{BitcoinKeyModel, TaggedHash160Model};
use crate::miniscript::{
    full_hash_model, full_key_model, x_only_hash_model, x_only_key_model, Tree,
};
use crate::script::{
    is_p2pk_script, is_p2pkh_script, is_p2sh_script, is_p2tr_script, is_p2wpkh_script,
    is_p2wsh_script, output_type_model, p2pkh_script, p2sh_script, p2wpkh_script, p2wsh_script,
    OutputType,
};
use crate::script_sig::{encoding, script_sig_model};
use crate::stack::{element_model, witness_stack_model, ElementModel, InstructionModel};
use crate::txdata::{from_txdata_model, settled, Decoder};

verus! {

/// What comes of a byte string on the stack that is to be read as a script: the byte string `[1]`
/// is the script `1`, the empty one is the script `0`, and any other is decoded.
pub open spec fn decode_item(bytes: Seq<u8>, context: ScriptContext, decode: Decoder) -> Result<
    DecodedModel<Seq<u8>>,
    String,
> {
    if bytes.len() == 0 {
        Ok(DecodedModel { miniscript: Tree::False, script: seq![0u8] })
    } else if bytes.len() == 1 && bytes[0] == 1 {
        Ok(DecodedModel { miniscript: Tree::True, script: seq![0x51u8] })
    } else {
        decode(context, bytes)
    }
}

/// The byte string `[1]` and the empty one are scripts that need no decoding, and encode to one
/// opcode. Every other byte string is handed out for decoding as it is.
pub proof fn law_booleans_are_scripts(bytes: Seq<u8>, context: ScriptContext, decode: Decoder)
    ensures
        decode_item(seq![1u8], context, decode) == Ok::<DecodedModel<Seq<u8>>, String>(
            (DecodedModel { miniscript: Tree::True, script: seq![0x51u8] }),
        ),
        decode_item(seq![], context, decode) == Ok::<DecodedModel<Seq<u8>>, String>(
            (DecodedModel { miniscript: Tree::False, script: seq![0u8] }),
        ),
        bytes.len() > 1 ==> decode_item(bytes, context, decode) == decode(context, bytes),
        bytes.len() == 1 && bytes[0] != 1 ==> decode_item(bytes, context, decode) == decode(
            context,
            bytes,
        ),
{
}

/// A tree with every key and every key hash marked as full.
pub open spec fn marked_full(tree: Tree<Seq<u8>, Seq<u8>>) -> Tree<
    BitcoinKeyModel,
    TaggedHash160Model,
> {
    tree.map_keys(
        |key: Seq<u8>| BitcoinKeyModel::Fullkey(key),
        |hash: Seq<u8>| TaggedHash160Model::FullKey(hash),
    )
}

/// A tree with every key and every key hash marked as x-only.
pub open spec fn marked_x_only(tree: Tree<Seq<u8>, Seq<u8>>) -> Tree<
    BitcoinKeyModel,
    TaggedHash160Model,
> {
    tree.map_keys(
        |key: Seq<u8>| BitcoinKeyModel::XOnlyPublicKey(key),
        |hash: Seq<u8>| TaggedHash160Model::XonlyKey(hash),
    )
}

proof fn lemma_marks(tree: Tree<Seq<u8>, Seq<u8>>)
    ensures
        marked_full(tree) == tree.map_keys(full_key_model(), full_hash_model()),
        marked_x_only(tree) == tree.map_keys(x_only_key_model(), x_only_hash_model()),
{
    assert(full_key_model() =~= |key: Seq<u8>| BitcoinKeyModel::Fullkey(key));
    assert(full_hash_model() =~= |hash: Seq<u8>| TaggedHash160Model::FullKey(hash));
    assert(x_only_key_model() =~= |key: Seq<u8>| BitcoinKeyModel::XOnlyPublicKey(key));
    assert(x_only_hash_model() =~= |hash: Seq<u8>| TaggedHash160Model::XonlyKey(hash));
}

/// One more byte string on a stack.
proof fn lemma_one_more(stack: Seq<ElementModel>, items: Seq<Seq<u8>>, last: Seq<u8>)
    requires
        holds(stack, items),
    ensures
        holds(stack.push(element_model(last)), items.push(last)),
        stack.push(element_model(last)).drop_last() == stack,
        stands_for(element_model(last), last),
        all_pushable(items) && is_pushable(last) ==> all_pushable(items.push(last)),
{
    law_items_keep_their_bytes(element_model(last), last);
    let more = items.push(last);
    let taller = stack.push(element_model(last));
    assert forall|i: int| 0 <= i < more.len() implies stands_for(taller[i], more[i]) by {
        if i < items.len() {
            assert(stands_for(stack[i], items[i]));
        }
    }
    assert(taller.drop_last() =~= stack);
    if all_pushable(items) && is_pushable(last) {
        assert forall|i: int| 0 <= i < more.len() implies is_pushable(#[trigger] more[i]) by {
            if i < items.len() {
                assert(is_pushable(items[i]));
            }
        }
    }
}

/// A script that pushes nothing.
pub proof fn law_no_pushes()
    ensures
        push_script(seq![]) == Seq::<u8>::empty(),
{
    assert(push_script(seq![]) =~= Seq::<u8>::empty());
}

/// An output that holds a key is spent by any script signature of pushes, without a witness, and
/// the pushes are what is left. Bytes that are no key are refused, and so is a witness.
pub proof fn law_pk_by_bytes(
    key: Seq<u8>,
    items: Seq<Seq<u8>>,
    stack: Seq<ElementModel>,
    witness: Seq<Seq<u8>>,
    decode: Decoder,
)
    requires
        key.len() == 33 || key.len() == 65,
        all_pushable(items),
        holds(stack, items),
    ensures
        ({
            let spk = seq![key.len() as u8] + key + seq![0xacu8];
            let result = settled(from_txdata_model(spk, push_script(items), witness), decode);
            &&& witness.len() > 0 ==> result == Err::<TxDataModel, Error>(Error::NonEmptyWitness)
            &&& witness.len() == 0 && !is_public_key(key) ==> result == Err::<TxDataModel, Error>(
                Error::PubkeyParseError,
            )
            &&& witness.len() == 0 && is_public_key(key) ==> result == Ok::<TxDataModel, Error>(
                TxDataModel {
                    inner: InnerModel::PublicKey(BitcoinKeyModel::Fullkey(key), PubkeyType::Pk),
                    stack,
                    script_code: Some(spk),
                    leaf_script: None,
                },
            )
        }),
{
    let spk = seq![key.len() as u8] + key + seq![0xacu8];
    assert(is_p2pk_script(spk));
    assert(spk.subrange(1, spk.len() - 1) =~= key);
    law_witness_items(witness);
    law_bytes_are_spent_as_stacks(spk, items, stack, witness, witness_stack_model(witness));
}

/// Whether a byte string on the stack is read as a full key.
pub open spec fn is_key_item(bytes: Seq<u8>) -> bool {
    bytes.len() > 0 && !(bytes.len() == 1 && bytes[0] == 1) && is_public_key(bytes)
}

/// Every byte string of more than one byte that is a key is read as one.
pub proof fn law_key_items(bytes: Seq<u8>)
    requires
        bytes.len() > 1,
    ensures
        is_key_item(bytes) == is_public_key(bytes),
{
}

/// An output that pays to the hash of a key is spent by a script signature that pushes the key
/// last, without a witness, and what is pushed before the key is left. Another key is refused, and
/// so are bytes that are no key, and a witness.
pub proof fn law_pkh_by_bytes(
    hash: [u8; 20],
    items: Seq<Seq<u8>>,
    stack: Seq<ElementModel>,
    key: Seq<u8>,
    witness: Seq<Seq<u8>>,
    decode: Decoder,
)
    requires
        all_pushable(items),
        holds(stack, items),
        is_pushable(key),
    ensures
        ({
            let spk = p2pkh_script(hash@);
            let result = settled(
                from_txdata_model(spk, push_script(items.push(key)), witness),
                decode,
            );
            &&& witness.len() > 0 ==> result == Err::<TxDataModel, Error>(Error::NonEmptyWitness)
            &&& witness.len() == 0 && !is_key_item(key) ==> result == Err::<TxDataModel, Error>(
                Error::PubkeyParseError,
            )
            &&& witness.len() == 0 && is_key_item(key) && hash160_digest(key) != hash@ ==> result
                == Err::<TxDataModel, Error>(Error::IncorrectPubkeyHash)
            &&& witness.len() == 0 && is_key_item(key) && hash160_digest(key) == hash@ ==> result
                == Ok::<TxDataModel, Error>(
                TxDataModel {
                    inner: InnerModel::PublicKey(BitcoinKeyModel::Fullkey(key), PubkeyType::Pkh),
                    stack,
                    script_code: Some(spk),
                    leaf_script: None,
                },
            )
        }),
{
    let spk = p2pkh_script(hash@);
    assert(is_p2pkh_script(spk));
    lemma_one_more(stack, items, key);
    law_witness_items(witness);
    law_bytes_are_spent_as_stacks(
        spk,
        items.push(key),
        stack.push(element_model(key)),
        witness,
        witness_stack_model(witness),
    );
    law_forms_tell_hashes_apart(hash@, hash160_digest(key));
}

/// Each form of output holds its hash: outputs for different hashes are different.
pub proof fn law_forms_tell_hashes_apart(a: Seq<u8>, b: Seq<u8>)
    ensures
        p2pkh_script(a) == p2pkh_script(b) ==> a == b,
        p2sh_script(a) == p2sh_script(b) ==> a == b,
        p2wpkh_script(a) == p2wpkh_script(b) ==> a == b,
        p2wsh_script(a) == p2wsh_script(b) ==> a == b,
{
    assert(p2pkh_script(a).subrange(3, p2pkh_script(a).len() - 2) =~= a);
    assert(p2pkh_script(b).subrange(3, p2pkh_script(b).len() - 2) =~= b);
    assert(p2sh_script(a).subrange(2, p2sh_script(a).len() - 1) =~= a);
    assert(p2sh_script(b).subrange(2, p2sh_script(b).len() - 1) =~= b);
    assert(p2wpkh_script(a).skip(2) =~= a);
    assert(p2wpkh_script(b).skip(2) =~= b);
    assert(p2wsh_script(a).skip(2) =~= a);
    assert(p2wsh_script(b).skip(2) =~= b);
}

/// A witness program for a key is spent by a witness that ends in the key, compressed, without a
/// script signature, and what stands before the key is left. The signature hash is taken over the
/// script that pays to the hash outside of segwit. Another key is refused, and so are a key that is
/// not compressed, bytes that are no key, and a script signature.
pub proof fn law_wpkh_by_bytes(
    hash: [u8; 20],
    items: Seq<Seq<u8>>,
    rest: Seq<Seq<u8>>,
    stack: Seq<ElementModel>,
    key: Seq<u8>,
    decode: Decoder,
)
    requires
        all_pushable(items),
        holds(stack, rest),
    ensures
        ({
            let spk = p2wpkh_script(hash@);
            let result = settled(
                from_txdata_model(spk, push_script(items), rest.push(key)),
                decode,
            );
            let alone = items.len() == 0;
            &&& !alone ==> result == Err::<TxDataModel, Error>(Error::NonEmptyScriptSig)
            &&& alone && !is_key_item(key) ==> result == Err::<TxDataModel, Error>(
                Error::PubkeyParseError,
            )
            &&& alone && is_key_item(key) && key.len() != 33 ==> result == Err::<
                TxDataModel,
                Error,
            >(Error::UncompressedPubkey)
            &&& alone && is_key_item(key) && key.len() == 33 && hash160_digest(key) != hash@
                ==> result == Err::<TxDataModel, Error>(Error::IncorrectWPubkeyHash)
            &&& alone && is_key_item(key) && key.len() == 33 && hash160_digest(key) == hash@
                ==> result == Ok::<TxDataModel, Error>(
                TxDataModel {
                    inner: InnerModel::PublicKey(BitcoinKeyModel::Fullkey(key), PubkeyType::Wpkh),
                    stack,
                    script_code: Some(p2pkh_script(hash@)),
                    leaf_script: None,
                },
            )
        }),
{
    let spk = p2wpkh_script(hash@);
    assert(is_p2wpkh_script(spk));
    lemma_one_more(stack, rest, key);
    let ssig = lemma_stack_of(items);
    law_bytes_are_spent_as_stacks(
        spk,
        items,
        ssig,
        rest.push(key),
        stack.push(element_model(key)),
    );
    law_forms_tell_hashes_apart(hash@, hash160_digest(key));
}

/// Some stack stands for every list of byte strings.
proof fn lemma_stack_of(items: Seq<Seq<u8>>) -> (stack: Seq<ElementModel>)
    ensures
        holds(stack, items),
{
    law_witness_items(items);
    witness_stack_model(items)
}

/// The output that pays to the hash of a witness program for a key is spent by a script signature
/// that pushes the witness program and nothing else, and by a witness that spends the witness
/// program.
pub proof fn law_sh_wpkh_by_bytes(
    script_hash: [u8; 20],
    hash: [u8; 20],
    items: Seq<Seq<u8>>,
    rest: Seq<Seq<u8>>,
    stack: Seq<ElementModel>,
    key: Seq<u8>,
    decode: Decoder,
)
    requires
        script_hash@ == hash160_digest(p2wpkh_script(hash@)),
        all_pushable(items),
        holds(stack, rest),
    ensures
        ({
            let program = p2wpkh_script(hash@);
            let result = settled(
                from_txdata_model(
                    p2sh_script(script_hash@),
                    push_script(items.push(program)),
                    rest.push(key),
                ),
                decode,
            );
            let alone = items.len() == 0;
            &&& !alone ==> result == Err::<TxDataModel, Error>(Error::NonEmptyScriptSig)
            &&& alone && !is_key_item(key) ==> result == Err::<TxDataModel, Error>(
                Error::PubkeyParseError,
            )
            &&& alone && is_key_item(key) && key.len() != 33 ==> result == Err::<
                TxDataModel,
                Error,
            >(Error::UncompressedPubkey)
            &&& alone && is_key_item(key) && key.len() == 33 && hash160_digest(key) != hash@
                ==> result == Err::<TxDataModel, Error>(Error::IncorrectWScriptHash)
            &&& alone && is_key_item(key) && key.len() == 33 && hash160_digest(key) == hash@
                ==> result == Ok::<TxDataModel, Error>(
                TxDataModel {
                    inner: InnerModel::PublicKey(
                        BitcoinKeyModel::Fullkey(key),
                        PubkeyType::ShWpkh,
                    ),
                    stack,
                    script_code: Some(p2pkh_script(hash@)),
                    leaf_script: None,
                },
            )
        }),
{
    let spk = p2sh_script(script_hash@);
    let program = p2wpkh_script(hash@);
    assert(is_p2sh_script(spk));
    assert(program.len() == 22 && program[0] == 0 && program[1] == 20);
    lemma_one_more(stack, rest, key);
    let ssig = lemma_stack_of(items);
    lemma_one_more(ssig, items, program);
    law_bytes_are_spent_as_stacks(
        spk,
        items.push(program),
        ssig.push(element_model(program)),
        rest.push(key),
        stack.push(element_model(key)),
    );
    law_forms_tell_hashes_apart(hash@, hash160_digest(key));
}

/// A witness program for a script is spent by a witness that ends in the script, without a script
/// signature, and what stands before the script is left. The script is decoded under the rules of
/// segwit, and its encoding is what the witness program has to commit to and what the signature
/// hash is taken over.
pub proof fn law_wsh_by_bytes(
    hash: [u8; 32],
    items: Seq<Seq<u8>>,
    rest: Seq<Seq<u8>>,
    stack: Seq<ElementModel>,
    script: Seq<u8>,
    decode: Decoder,
)
    requires
        all_pushable(items),
        holds(stack, rest),
    ensures
        ({
            let result = settled(
                from_txdata_model(p2wsh_script(hash@), push_script(items), rest.push(script)),
                decode,
            );
            &&& items.len() > 0 ==> result == Err::<TxDataModel, Error>(Error::NonEmptyScriptSig)
            &&& items.len() == 0 ==> match decode_item(script, ScriptContext::Segwitv0, decode) {
                Err(reason) => result == Err::<TxDataModel, Error>(Error::Miniscript(reason)),
                Ok(decoded) => {
                    &&& sha256_digest(decoded.script) != hash@ ==> result == Err::<
                        TxDataModel,
                        Error,
                    >(Error::IncorrectWScriptHash)
                    &&& sha256_digest(decoded.script) == hash@ ==> result == Ok::<
                        TxDataModel,
                        Error,
                    >(
                        TxDataModel {
                            inner: InnerModel::Script(
                                marked_full(decoded.miniscript),
                                ScriptType::Wsh,
                            ),
                            stack,
                            script_code: Some(decoded.script),
                            leaf_script: None,
                        },
                    )
                },
            }
        }),
{
    let spk = p2wsh_script(hash@);
    assert(is_p2wsh_script(spk));
    lemma_one_more(stack, rest, script);
    let ssig = lemma_stack_of(items);
    law_bytes_are_spent_as_stacks(
        spk,
        items,
        ssig,
        rest.push(script),
        stack.push(element_model(script)),
    );
    if let Ok(decoded) = decode_item(script, ScriptContext::Segwitv0, decode) {
        lemma_marks(decoded.miniscript);
        law_forms_tell_hashes_apart(hash@, sha256_digest(decoded.script));
    }
}

/// The output that pays to the hash of a witness program for a script is spent by a script
/// signature that pushes the witness program and nothing else, and by a witness that spends the
/// witness program.
pub proof fn law_sh_wsh_by_bytes(
    script_hash: [u8; 20],
    hash: [u8; 32],
    items: Seq<Seq<u8>>,
    rest: Seq<Seq<u8>>,
    stack: Seq<ElementModel>,
    script: Seq<u8>,
    decode: Decoder,
)
    requires
        script_hash@ == hash160_digest(p2wsh_script(hash@)),
        all_pushable(items),
        holds(stack, rest),
    ensures
        ({
            let program = p2wsh_script(hash@);
            let result = settled(
                from_txdata_model(
                    p2sh_script(script_hash@),
                    push_script(items.push(program)),
                    rest.push(script),
                ),
                decode,
            );
            &&& items.len() > 0 ==> result == Err::<TxDataModel, Error>(Error::NonEmptyScriptSig)
            &&& items.len() == 0 ==> match decode_item(script, ScriptContext::Segwitv0, decode) {
                Err(reason) => result == Err::<TxDataModel, Error>(Error::Miniscript(reason)),
                Ok(decoded) => {
                    &&& sha256_digest(decoded.script) != hash@ ==> result == Err::<
                        TxDataModel,
                        Error,
                    >(Error::IncorrectWScriptHash)
                    &&& sha256_digest(decoded.script) == hash@ ==> result == Ok::<
                        TxDataModel,
                        Error,
                    >(
                        TxDataModel {
                            inner: InnerModel::Script(
                                marked_full(decoded.miniscript),
                                ScriptType::ShWsh,
                            ),
                            stack,
                            script_code: Some(decoded.script),
                            leaf_script: None,
                        },
                    )
                },
            }
        }),
{
    let spk = p2sh_script(script_hash@);
    let program = p2wsh_script(hash@);
    assert(is_p2sh_script(spk));
    assert(program.len() == 34 && program[0] == 0 && program[1] == 32);
    lemma_one_more(stack, rest, script);
    let ssig = lemma_stack_of(items);
    lemma_one_more(ssig, items, program);
    law_bytes_are_spent_as_stacks(
        spk,
        items.push(program),
        ssig.push(element_model(program)),
        rest.push(script),
        stack.push(element_model(script)),
    );
    if let Ok(decoded) = decode_item(script, ScriptContext::Segwitv0, decode) {
        lemma_marks(decoded.miniscript);
        law_forms_tell_hashes_apart(hash@, sha256_digest(decoded.script));
    }
}

/// The output that pays to the hash of a script that is no witness program is spent by a script
/// signature that pushes the script last, without a witness, and what is pushed before the script
/// is left. The script is decoded under the rules from before segwit, and its encoding too is what
/// the output has to commit to and what the signature hash is taken over.
pub proof fn law_sh_by_bytes(
    hash: [u8; 20],
    items: Seq<Seq<u8>>,
    stack: Seq<ElementModel>,
    script: Seq<u8>,
    witness: Seq<Seq<u8>>,
    decode: Decoder,
)
    requires
        all_pushable(items),
        holds(stack, items),
        is_pushable(script),
        !is_p2wpkh_script(script),
        !is_p2wsh_script(script),
    ensures
        ({
            let result = settled(
                from_txdata_model(p2sh_script(hash@), push_script(items.push(script)), witness),
                decode,
            );
            let is_boolean = script.len() == 0 || script.len() == 1 && script[0] == 1;
            if !is_boolean && hash160_digest(script) != hash@ {
                result == Err::<TxDataModel, Error>(Error::IncorrectScriptHash)
            } else {
                match decode_item(script, ScriptContext::Legacy, decode) {
                    Err(reason) => result == Err::<TxDataModel, Error>(Error::Miniscript(reason)),
                    Ok(decoded) => {
                        &&& witness.len() > 0 ==> result == Err::<TxDataModel, Error>(
                            Error::NonEmptyWitness,
                        )
                        &&& witness.len() == 0 && hash160_digest(decoded.script) != hash@ ==> result
                            == Err::<TxDataModel, Error>(Error::IncorrectScriptHash)
                        &&& witness.len() == 0 && hash160_digest(decoded.script) == hash@ ==> result
                            == Ok::<TxDataModel, Error>(
                            TxDataModel {
                                inner: InnerModel::Script(
                                    marked_full(decoded.miniscript),
                                    ScriptType::Sh,
                                ),
                                stack,
                                script_code: Some(decoded.script),
                                leaf_script: None,
                            },
                        )
                    },
                }
            }
        }),
{
    let spk = p2sh_script(hash@);
    assert(is_p2sh_script(spk));
    lemma_one_more(stack, items, script);
    law_witness_items(witness);
    law_bytes_are_spent_as_stacks(
        spk,
        items.push(script),
        stack.push(element_model(script)),
        witness,
        witness_stack_model(witness),
    );
    law_forms_tell_hashes_apart(hash@, hash160_digest(script));
    if let Ok(decoded) = decode_item(script, ScriptContext::Legacy, decode) {
        lemma_marks(decoded.miniscript);
        law_forms_tell_hashes_apart(hash@, hash160_digest(decoded.script));
    }
}

/// An output whose script has no other form is spent by any script signature of pushes, without a
/// witness, and the pushes are what is left. The output script is decoded, and the signature hash
/// is taken over it.
pub proof fn law_bare_by_bytes(
    spk: Seq<u8>,
    items: Seq<Seq<u8>>,
    stack: Seq<ElementModel>,
    witness: Seq<Seq<u8>>,
    decode: Decoder,
)
    requires
        !is_p2pk_script(spk),
        !is_p2pkh_script(spk),
        !is_p2wpkh_script(spk),
        !is_p2wsh_script(spk),
        !is_p2tr_script(spk),
        !is_p2sh_script(spk),
        all_pushable(items),
        holds(stack, items),
    ensures
        ({
            let result = settled(from_txdata_model(spk, push_script(items), witness), decode);
            &&& witness.len() > 0 ==> result == Err::<TxDataModel, Error>(Error::NonEmptyWitness)
            &&& witness.len() == 0 ==> match decode(ScriptContext::Bare, spk) {
                Err(reason) => result == Err::<TxDataModel, Error>(Error::Miniscript(reason)),
                Ok(decoded) => result == Ok::<TxDataModel, Error>(
                    TxDataModel {
                        inner: InnerModel::Script(
                            marked_full(decoded.miniscript),
                            ScriptType::Bare,
                        ),
                        stack,
                        script_code: Some(spk),
                        leaf_script: None,
                    },
                ),
            }
        }),
{
    law_witness_items(witness);
    law_bytes_are_spent_as_stacks(spk, items, stack, witness, witness_stack_model(witness));
    if let Ok(decoded) = decode(ScriptContext::Bare, spk) {
        lemma_marks(decoded.miniscript);
    }
}

/// A taproot output is spent through its key by a witness of one byte string, whatever it is,
/// without a script signature, and that byte string is left. A script signature is refused, and so
/// is an output key that is none.
pub proof fn law_tr_key_by_bytes(
    key: Seq<u8>,
    items: Seq<Seq<u8>>,
    signature: Seq<u8>,
    item: ElementModel,
    decode: Decoder,
)
    requires
        key.len() == 32,
        all_pushable(items),
        stands_for(item, signature),
    ensures
        ({
            let result = settled(
                from_txdata_model(
                    seq![0x51u8, 32u8] + key,
                    push_script(items),
                    seq![signature],
                ),
                decode,
            );
            &&& items.len() > 0 ==> result == Err::<TxDataModel, Error>(Error::NonEmptyScriptSig)
            &&& items.len() == 0 && !is_x_only_public_key(key) ==> result == Err::<
                TxDataModel,
                Error,
            >(Error::XOnlyPublicKeyParseError)
            &&& items.len() == 0 && is_x_only_public_key(key) ==> result == Ok::<
                TxDataModel,
                Error,
            >(
                TxDataModel {
                    inner: InnerModel::PublicKey(
                        BitcoinKeyModel::XOnlyPublicKey(key),
                        PubkeyType::Tr,
                    ),
                    stack: seq![item],
                    script_code: None,
                    leaf_script: None,
                },
            )
        }),
{
    let spk = seq![0x51u8, 32u8] + key;
    assert(is_p2tr_script(spk));
    assert(spk.skip(2) =~= key);
    let ssig = lemma_stack_of(items);
    law_bytes_are_spent_as_stacks(spk, items, ssig, seq![signature], seq![item]);
}

/// A taproot output is spent through a script by a witness that ends in the script and a control
/// block, without a script signature, if at least two byte strings stand before them, and these
/// are what is left. The control block has to be a good one, and to prove that the output commits
/// to the encoding of the script, which is the leaf script.
pub proof fn law_tr_script_by_bytes(
    key: Seq<u8>,
    items: Seq<Seq<u8>>,
    rest: Seq<Seq<u8>>,
    stack: Seq<ElementModel>,
    script: Seq<u8>,
    control_block: Seq<u8>,
    decode: Decoder,
)
    requires
        key.len() == 32,
        all_pushable(items),
        holds(stack, rest),
    ensures
        ({
            let result = settled(
                from_txdata_model(
                    seq![0x51u8, 32u8] + key,
                    push_script(items),
                    rest.push(script).push(control_block),
                ),
                decode,
            );
            let is_boolean = control_block.len() == 0 || control_block.len() == 1
                && control_block[0] == 1;
            if items.len() > 0 {
                result == Err::<TxDataModel, Error>(Error::NonEmptyScriptSig)
            } else if !is_x_only_public_key(key) {
                result == Err::<TxDataModel, Error>(Error::XOnlyPublicKeyParseError)
            } else if is_boolean {
                result == Err::<TxDataModel, Error>(Error::UnexpectedStackBoolean)
            } else if control_block[0] == 0x50 {
                result == Err::<TxDataModel, Error>(Error::TapAnnexUnsupported)
            } else if rest.len() < 2 {
                result == Err::<TxDataModel, Error>(Error::UnexpectedStackBoolean)
            } else {
                match (
                    control_block_error(control_block),
                    decode_item(script, ScriptContext::Tap, decode),
                ) {
                    (Some(e), _) => result == Err::<TxDataModel, Error>(
                        Error::ControlBlockParse(e),
                    ),
                    (None, Err(reason)) => result == Err::<TxDataModel, Error>(
                        Error::Miniscript(reason),
                    ),
                    (None, Ok(decoded)) => {
                        let committed = taproot_commitment_holds(
                            control_block,
                            key,
                            decoded.script,
                        );
                        &&& !committed ==> result == Err::<TxDataModel, Error>(
                            Error::ControlBlockVerificationError,
                        )
                        &&& committed ==> result == Ok::<TxDataModel, Error>(
                            TxDataModel {
                                inner: InnerModel::Script(
                                    marked_x_only(decoded.miniscript),
                                    ScriptType::Tr,
                                ),
                                stack,
                                script_code: None,
                                leaf_script: Some(decoded.script),
                            },
                        )
                    },
                }
            }
        }),
{
    let spk = seq![0x51u8, 32u8] + key;
    assert(is_p2tr_script(spk));
    assert(spk.skip(2) =~= key);
    let ssig = lemma_stack_of(items);
    let lower = stack.push(element_model(script));
    let wit = lower.push(element_model(control_block));
    lemma_one_more(stack, rest, script);
    lemma_one_more(lower, rest.push(script), control_block);
    assert(wit.take(wit.len() - 2) =~= stack);
    law_bytes_are_spent_as_stacks(
        spk,
        items,
        ssig,
        rest.push(script).push(control_block),
        wit,
    );
    if let Ok(decoded) = decode_item(script, ScriptContext::Tap, decode) {
        lemma_marks(decoded.miniscript);
    }
}

/// A spend is refused if the byte string is missing that should be the key or the script: in the
/// script signature for an output that pays to a hash, in the witness for a witness program, be it
/// the output or the redeem script. A witness where none belongs, a script signature where none
/// belongs, and an output key that is none are refused before that.
pub proof fn law_missing_bytes_are_refused(
    spk: Seq<u8>,
    items: Seq<Seq<u8>>,
    program: Seq<u8>,
    witness: Seq<Seq<u8>>,
    decode: Decoder,
)
    requires
        all_pushable(items),
    ensures
        is_p2pkh_script(spk) ==> settled(from_txdata_model(spk, seq![], seq![]), decode) == Err::<
            TxDataModel,
            Error,
        >(Error::UnexpectedStackEnd),
        is_p2pkh_script(spk) && witness.len() > 0 ==> settled(
            from_txdata_model(spk, seq![], witness),
            decode,
        ) == Err::<TxDataModel, Error>(Error::NonEmptyWitness),
        is_p2tr_script(spk) && !is_x_only_public_key(spk.skip(2)) ==> settled(
            from_txdata_model(spk, seq![], witness),
            decode,
        ) == Err::<TxDataModel, Error>(Error::XOnlyPublicKeyParseError),
        (is_p2wpkh_script(spk) || is_p2wsh_script(spk) || is_p2tr_script(spk)) && items.len() > 0
            ==> settled(from_txdata_model(spk, push_script(items), witness), decode) == Err::<
            TxDataModel,
            Error,
        >(Error::NonEmptyScriptSig),
        is_p2sh_script(spk) ==> settled(from_txdata_model(spk, seq![], witness), decode) == Err::<
            TxDataModel,
            Error,
        >(Error::UnexpectedStackEnd),
        is_p2wpkh_script(spk) || is_p2wsh_script(spk) || is_p2tr_script(spk)
            && is_x_only_public_key(spk.skip(2)) ==> settled(
            from_txdata_model(spk, seq![], seq![]),
            decode,
        ) == Err::<TxDataModel, Error>(Error::UnexpectedStackEnd),
        is_p2sh_script(spk) && spk == p2sh_script(hash160_digest(program)) && (is_p2wpkh_script(
            program,
        ) || is_p2wsh_script(program)) ==> settled(
            from_txdata_model(spk, push_script(items.push(program)), seq![]),
            decode,
        ) == Err::<TxDataModel, Error>(Error::UnexpectedStackEnd),
{
    law_no_pushes();
    law_witness_items(witness);
    let none: Seq<Seq<u8>> = seq![];
    let empty: Seq<ElementModel> = seq![];
    law_bytes_are_spent_as_stacks(spk, none, empty, none, empty);
    law_bytes_are_spent_as_stacks(spk, none, empty, witness, witness_stack_model(witness));
    let pushed = lemma_stack_of(items);
    law_bytes_are_spent_as_stacks(spk, items, pushed, witness, witness_stack_model(witness));
    if is_p2wpkh_script(program) || is_p2wsh_script(program) {
        let ssig = lemma_stack_of(items);
        lemma_one_more(ssig, items, program);
        law_bytes_are_spent_as_stacks(
            spk,
            items.push(program),
            ssig.push(element_model(program)),
            none,
            empty,
        );
    }
}

/// A redeem script that the output does not commit to is refused, whatever it is and whatever the
/// witness is.
pub proof fn law_wrong_redeem_bytes_are_refused(
    hash: [u8; 20],
    items: Seq<Seq<u8>>,
    redeem_script: Seq<u8>,
    witness: Seq<Seq<u8>>,
    decode: Decoder,
)
    requires
        all_pushable(items),
        is_pushable(redeem_script),
        redeem_script.len() > 1,
        hash160_digest(redeem_script) != hash@,
    ensures
        settled(
            from_txdata_model(p2sh_script(hash@), push_script(items.push(redeem_script)), witness),
            decode,
        ) == Err::<TxDataModel, Error>(Error::IncorrectScriptHash),
{
    let spk = p2sh_script(hash@);
    assert(is_p2sh_script(spk));
    let ssig = lemma_stack_of(items);
    lemma_one_more(ssig, items, redeem_script);
    law_witness_items(witness);
    law_bytes_are_spent_as_stacks(
        spk,
        items.push(redeem_script),
        ssig.push(element_model(redeem_script)),
        witness,
        witness_stack_model(witness),
    );
    law_forms_tell_hashes_apart(hash@, hash160_digest(redeem_script));
}

/// What every accepted spend shows of its bytes. The script signature is made of pushes, of the
/// byte strings that this returns. The key is one of its kind, and the output commits to it; or the
/// script is what decoding gives, and the output commits to its encoding. What is left are the byte
/// strings below the key or the script, on the side that they were taken from, and nothing stands
/// on the other side but a redeem script.
pub proof fn law_accepted_by_bytes(
    spk: Seq<u8>,
    script_sig: Seq<u8>,
    witness: Seq<Seq<u8>>,
    decode: Decoder,
    data: TxDataModel,
) -> (items: Seq<Seq<u8>>)
    requires
        settled(from_txdata_model(spk, script_sig, witness), decode) == Ok::<TxDataModel, Error>(
            data,
        ),
    ensures
        all_pushable(items),
        script_sig == push_script(items),
        match data.inner {
            InnerModel::PublicKey(BitcoinKeyModel::Fullkey(key), PubkeyType::Pk) => {
                &&& is_public_key(key) && spk == seq![key.len() as u8] + key + seq![0xacu8]
                &&& witness.len() == 0 && holds(data.stack, items)
                &&& data.script_code == Some(spk) && data.leaf_script is None
            },
            InnerModel::PublicKey(BitcoinKeyModel::Fullkey(key), PubkeyType::Pkh) => {
                &&& is_public_key(key) && spk == p2pkh_script(hash160_digest(key))
                &&& witness.len() == 0 && items.len() > 0 && items.last() == key
                &&& holds(data.stack, items.drop_last())
                &&& data.script_code == Some(spk) && data.leaf_script is None
            },
            InnerModel::PublicKey(BitcoinKeyModel::Fullkey(key), PubkeyType::Wpkh) => {
                &&& is_public_key(key) && key.len() == 33
                &&& spk == p2wpkh_script(hash160_digest(key))
                &&& items.len() == 0 && witness.len() > 0 && witness.last() == key
                &&& holds(data.stack, witness.drop_last())
                &&& data.script_code == Some(p2pkh_script(hash160_digest(key)))
                &&& data.leaf_script is None
            },
            InnerModel::PublicKey(BitcoinKeyModel::Fullkey(key), PubkeyType::ShWpkh) => {
                &&& is_public_key(key) && key.len() == 33
                &&& items.len() == 1 && items[0] == p2wpkh_script(hash160_digest(key))
                &&& spk == p2sh_script(hash160_digest(items[0]))
                &&& witness.len() > 0 && witness.last() == key
                &&& holds(data.stack, witness.drop_last())
                &&& data.script_code == Some(p2pkh_script(hash160_digest(key)))
                &&& data.leaf_script is None
            },
            InnerModel::PublicKey(BitcoinKeyModel::XOnlyPublicKey(key), PubkeyType::Tr) => {
                &&& is_x_only_public_key(key) && spk == seq![0x51u8, 32u8] + key
                &&& items.len() == 0 && witness.len() == 1 && holds(data.stack, witness)
                &&& data.script_code is None && data.leaf_script is None
            },
            InnerModel::PublicKey(_, _) => false,
            InnerModel::Script(tree, ScriptType::Bare) => {
                &&& decode(ScriptContext::Bare, spk) matches Ok(decoded)
                &&& tree == marked_full(decoded.miniscript)
                &&& witness.len() == 0 && holds(data.stack, items)
                &&& data.script_code == Some(spk) && data.leaf_script is None
            },
            InnerModel::Script(tree, ScriptType::Sh) => {
                &&& items.len() > 0
                &&& decode_item(items.last(), ScriptContext::Legacy, decode) matches Ok(decoded)
                &&& tree == marked_full(decoded.miniscript)
                &&& spk == p2sh_script(hash160_digest(decoded.script))
                &&& witness.len() == 0 && holds(data.stack, items.drop_last())
                &&& data.script_code == Some(decoded.script) && data.leaf_script is None
            },
            InnerModel::Script(tree, ScriptType::Wsh) => {
                &&& items.len() == 0 && witness.len() > 0
                &&& decode_item(witness.last(), ScriptContext::Segwitv0, decode) matches Ok(decoded)
                &&& tree == marked_full(decoded.miniscript)
                &&& spk == p2wsh_script(sha256_digest(decoded.script))
                &&& holds(data.stack, witness.drop_last())
                &&& data.script_code == Some(decoded.script) && data.leaf_script is None
            },
            InnerModel::Script(tree, ScriptType::ShWsh) => {
                &&& items.len() == 1 && witness.len() > 0
                &&& decode_item(witness.last(), ScriptContext::Segwitv0, decode) matches Ok(decoded)
                &&& tree == marked_full(decoded.miniscript)
                &&& items[0] == p2wsh_script(sha256_digest(decoded.script))
                &&& spk == p2sh_script(hash160_digest(items[0]))
                &&& holds(data.stack, witness.drop_last())
                &&& data.script_code == Some(decoded.script) && data.leaf_script is None
            },
            InnerModel::Script(tree, ScriptType::Tr) => {
                &&& items.len() == 0 && witness.len() >= 4
                &&& decode_item(witness[witness.len() - 2], ScriptContext::Tap, decode) matches Ok(
                    decoded,
                )
                &&& tree == marked_x_only(decoded.miniscript)
                &&& spk == seq![0x51u8, 32u8] + spk.skip(2) && is_x_only_public_key(spk.skip(2))
                &&& control_block_error(witness.last()) is None
                &&& taproot_commitment_holds(witness.last(), spk.skip(2), decoded.script)
                &&& holds(data.stack, witness.take(witness.len() - 2))
                &&& data.script_code is None && data.leaf_script == Some(decoded.script)
            },
        },
{
    let ssig = script_sig_model(script_sig)->Ok_0;
    let items = law_accepted_script_sig(script_sig, ssig);
    let wit = witness_stack_model(witness);
    law_witness_items(witness);
    assert forall|tree: Tree<Seq<u8>, Seq<u8>>|
        #![trigger tree.map_keys(full_key_model(), full_hash_model())]
        marked_full(tree) == tree.map_keys(full_key_model(), full_hash_model()) by {
        lemma_marks(tree);
    }
    assert forall|tree: Tree<Seq<u8>, Seq<u8>>|
        #![trigger tree.map_keys(x_only_key_model(), x_only_hash_model())]
        marked_x_only(tree) == tree.map_keys(x_only_key_model(), x_only_hash_model()) by {
        lemma_marks(tree);
    }
    if ssig.len() > 0 {
        assert(stands_for(ssig.last(), items.last()));
        assert(holds(ssig.drop_last(), items.drop_last()));
    }
    if wit.len() > 0 {
        assert(stands_for(wit.last(), witness.last()));
        assert(holds(wit.drop_last(), witness.drop_last()));
    }
    if wit.len() > 1 {
        assert(stands_for(wit[wit.len() - 2], witness[wit.len() - 2]));
        assert(holds(wit.take(wit.len() - 2), witness.take(wit.len() - 2)));
    }
    match output_type_model(spk) {
        OutputType::P2pk => {
            let key = spk.subrange(1, spk.len() - 1);
            assert(spk =~= seq![key.len() as u8] + key + seq![0xacu8]);
        },
        OutputType::P2tr => {
            assert(spk =~= seq![0x51u8, 32u8] + spk.skip(2));
        },
        _ => {},
    }
    items
}

/// The steps that are given a hash accept the output or the witness program that commits to this
/// hash, and no other.
pub proof fn law_given_hashes(
    program: Seq<u8>,
    key: Seq<u8>,
    hash: Seq<u8>,
    decoded: DecodedModel<Seq<u8>>,
    stack: Seq<ElementModel>,
    key_origin: PubkeyType,
    origin: ScriptType,
    mismatch: Error,
)
    ensures
        pkh_data_model(p2pkh_script(hash), key, hash, stack) == Ok::<TxDataModel, Error>(
            TxDataModel {
                inner: InnerModel::PublicKey(BitcoinKeyModel::Fullkey(key), PubkeyType::Pkh),
                stack,
                script_code: Some(p2pkh_script(hash)),
                leaf_script: None,
            },
        ),
        program != p2pkh_script(hash) ==> pkh_data_model(program, key, hash, stack) == Err::<
            TxDataModel,
            Error,
        >(Error::IncorrectPubkeyHash),
        wpkh_data_model(p2wpkh_script(hash), key_origin, mismatch, key, hash, stack) == Ok::<
            TxDataModel,
            Error,
        >(
            TxDataModel {
                inner: InnerModel::PublicKey(BitcoinKeyModel::Fullkey(key), key_origin),
                stack,
                script_code: Some(p2pkh_script(hash)),
                leaf_script: None,
            },
        ),
        program != p2wpkh_script(hash) ==> wpkh_data_model(
            program,
            key_origin,
            mismatch,
            key,
            hash,
            stack,
        ) == Err::<TxDataModel, Error>(mismatch),
        sh_data_model(p2sh_script(hash), true, decoded, hash, stack) == Ok::<TxDataModel, Error>(
            TxDataModel {
                inner: InnerModel::Script(marked_full(decoded.miniscript), ScriptType::Sh),
                stack,
                script_code: Some(decoded.script),
                leaf_script: None,
            },
        ),
        program != p2sh_script(hash) ==> sh_data_model(program, true, decoded, hash, stack)
            == Err::<TxDataModel, Error>(Error::IncorrectScriptHash),
        sh_data_model(program, false, decoded, hash, stack) == Err::<TxDataModel, Error>(
            Error::NonEmptyWitness,
        ),
        wsh_data_model(p2wsh_script(hash), origin, decoded, hash, stack) == Ok::<
            TxDataModel,
            Error,
        >(
            TxDataModel {
                inner: InnerModel::Script(marked_full(decoded.miniscript), origin),
                stack,
                script_code: Some(decoded.script),
                leaf_script: None,
            },
        ),
        program != p2wsh_script(hash) ==> wsh_data_model(program, origin, decoded, hash, stack)
            == Err::<TxDataModel, Error>(Error::IncorrectWScriptHash),
        tr_script_data_model(decoded, true, stack) == Ok::<TxDataModel, Error>(
            TxDataModel {
                inner: InnerModel::Script(marked_x_only(decoded.miniscript), ScriptType::Tr),
                stack,
                script_code: None,
                leaf_script: Some(decoded.script),
            },
        ),
        tr_script_data_model(decoded, false, stack) == Err::<TxDataModel, Error>(
            Error::ControlBlockVerificationError,
        ),
{
    lemma_marks(decoded.miniscript);
}

/// A signature and a key, pushed one after the other, spend the output that pays to the hash of the
/// key, and the signature is left as it is.
pub proof fn law_signed_pkh(hash: [u8; 20], signature: Seq<u8>, key: Seq<u8>, decode: Decoder)
    requires
        1 < signature.len() <= 0xffff_ffff,
        is_public_key(key),
        1 < key.len() <= 0xffff_ffff,
        hash@ == hash160_digest(key),
    ensures
        settled(
            from_txdata_model(
                p2pkh_script(hash@),
                encoding(InstructionModel::PushBytes(signature)) + encoding(
                    InstructionModel::PushBytes(key),
                ),
                seq![],
            ),
            decode,
        ) == Ok::<TxDataModel, Error>(
            TxDataModel {
                inner: InnerModel::PublicKey(BitcoinKeyModel::Fullkey(key), PubkeyType::Pkh),
                stack: seq![ElementModel::Push(signature)],
                script_code: Some(p2pkh_script(hash@)),
                leaf_script: None,
            },
        ),
{
    let items = seq![signature];
    law_pkh_by_bytes(hash, items, seq![ElementModel::Push(signature)], key, seq![], decode);
    law_push_scripts_join(items, seq![key]);
    law_one_push(signature);
    law_one_push(key);
    assert(items + seq![key] =~= items.push(key));
}

/// A witness of a signature and a compressed key spends the witness program for the key, and the
/// signature is left as it is.
pub proof fn law_signed_wpkh(hash: [u8; 20], signature: Seq<u8>, key: Seq<u8>, decode: Decoder)
    requires
        signature.len() > 1,
        is_public_key(key),
        key.len() == 33,
        hash@ == hash160_digest(key),
    ensures
        settled(
            from_txdata_model(p2wpkh_script(hash@), seq![], seq![signature, key]),
            decode,
        ) == Ok::<TxDataModel, Error>(
            TxDataModel {
                inner: InnerModel::PublicKey(BitcoinKeyModel::Fullkey(key), PubkeyType::Wpkh),
                stack: seq![ElementModel::Push(signature)],
                script_code: Some(p2pkh_script(hash@)),
                leaf_script: None,
            },
        ),
{
    let rest = seq![signature];
    law_no_pushes();
    law_wpkh_by_bytes(hash, seq![], rest, seq![ElementModel::Push(signature)], key, decode);
    assert(rest.push(key) =~= seq![signature, key]);
}

/// What stands below the script of a witness program is left byte for byte, but for the booleans,
/// and nothing is lost: a spend by a longer witness leaves the further items below the others.
pub proof fn law_further_items_are_kept(
    hash: [u8; 32],
    further: Seq<Seq<u8>>,
    rest: Seq<Seq<u8>>,
    script: Seq<u8>,
    decode: Decoder,
)
    ensures
        ({
            let short = settled(
                from_txdata_model(p2wsh_script(hash@), seq![], rest.push(script)),
                decode,
            );
            let long = settled(
                from_txdata_model(p2wsh_script(hash@), seq![], (further + rest).push(script)),
                decode,
            );
            match short {
                Err(e) => long == Err::<TxDataModel, Error>(e),
                Ok(data) => {
                    &&& long matches Ok(more)
                    &&& more.inner == data.inner
                    &&& more.script_code == data.script_code
                    &&& more.stack.len() == further.len() + rest.len()
                    &&& more.stack.skip(further.len() as int) == data.stack
                    &&& holds(more.stack, further + rest)
                },
            }
        }),
{
    law_no_pushes();
    let stack = lemma_stack_of(rest);
    let below = lemma_stack_of(further);
    assert forall|i: int| 0 <= i < further.len() + rest.len() implies stands_for(
        (below + stack)[i],
        (further + rest)[i],
    ) by {
        if i < further.len() {
            assert(stands_for(below[i], further[i]));
        } else {
            assert(stands_for(stack[i - further.len()], rest[i - further.len()]));
        }
    }
    law_wsh_by_bytes(hash, seq![], rest, stack, script, decode);
    law_wsh_by_bytes(hash, seq![], further + rest, below + stack, script, decode);
    assert((below + stack).skip(further.len() as int) =~= stack);
}

} // verus!
