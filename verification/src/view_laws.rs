//! What the values that go in and come out stand for.
use vstd::prelude::*;

use crate::error::Error;
use crate::inner::{
    reply_model, result_model, Decoded, DecodedModel, Inner, InnerModel, Outcome, OutcomeModel,
    PendingScript, PendingTapScript, ScriptSource, ScriptSourceModel, ScriptSpend,
    ScriptSpendModel, TapSpend, TxData, TxDataModel,
};
use crate::keys::{BitcoinKey, BitcoinKeyModel, TaggedHash160, TaggedHash160Model};
use crate::miniscript::{Miniscript, Tree};
use crate::stack::{witness_model, Element, ElementModel, Instruction, InstructionModel, Stack};

verus! {

/// A witness stands for its byte strings, one for one and in order.
pub proof fn law_witness_bytes(witness: Seq<Vec<u8>>)
    ensures
        witness_model(witness).len() == witness.len(),
        forall|i: int|
            0 <= i < witness.len() ==> #[trigger] witness_model(witness)[i] == witness[i]@,
{
}

/// A stack stands for its items, one for one and in order, and an item for its bytes.
pub proof fn law_stack_elements(stack: Stack)
    ensures
        stack@.len() == stack.0@.len(),
        forall|i: int|
            0 <= i < stack.0@.len() ==> match #[trigger] stack.0@[i] {
                Element::Satisfied => stack@[i] == ElementModel::Satisfied,
                Element::Dissatisfied => stack@[i] == ElementModel::Dissatisfied,
                Element::Push(bytes) => stack@[i] == ElementModel::Push(bytes@),
            },
{
}

/// An instruction stands for its bytes, or for its opcode.
pub proof fn law_instructions(instruction: Instruction)
    ensures
        match instruction {
            Instruction::PushBytes(bytes) => instruction@ == InstructionModel::PushBytes(bytes@),
            Instruction::Op(code) => instruction@ == InstructionModel::Op(code),
            Instruction::Malformed => instruction@ == InstructionModel::Malformed,
        },
{
}

/// Keys and key hashes stand for their kind and their bytes.
pub proof fn law_keys_and_hashes(key: BitcoinKey, hash: TaggedHash160)
    ensures
        match key {
            BitcoinKey::Fullkey(pk) => key@ == BitcoinKeyModel::Fullkey(pk@),
            BitcoinKey::XOnlyPublicKey(pk) => key@ == BitcoinKeyModel::XOnlyPublicKey(pk@),
        },
        match hash {
            TaggedHash160::XonlyKey(bytes) => hash@ == TaggedHash160Model::XonlyKey(bytes@),
            TaggedHash160::FullKey(bytes) => hash@ == TaggedHash160Model::FullKey(bytes@),
        },
{
}

/// A spend stands for all its parts.
pub proof fn law_spends(data: TxData)
    ensures
        data@.inner == data.inner@,
        data@.stack == data.stack@,
        data.script_code is Some == data@.script_code is Some,
        data.script_code matches Some(script) ==> data@.script_code == Some(script@),
        data.leaf_script is Some == data@.leaf_script is Some,
        data.leaf_script matches Some(script) ==> data@.leaf_script == Some(script@),
        match data.inner {
            Inner::PublicKey(key, origin) => data@.inner == InnerModel::PublicKey(key@, origin),
            Inner::Script(ms, origin) => data@.inner == InnerModel::Script(ms@, origin),
        },
{
}

/// A result stands for its value or for its error, and so does what comes of decoding.
pub proof fn law_results<Pk: View>(
    data: Result<TxData, Error>,
    outcome: Result<Outcome, Error>,
    reply: Result<Decoded<Pk>, String>,
)
    ensures
        data matches Ok(value) ==> result_model(data) == Ok::<TxDataModel, Error>(value@),
        data matches Err(e) ==> result_model(data) == Err::<TxDataModel, Error>(e),
        outcome matches Ok(value) ==> result_model(outcome) == Ok::<OutcomeModel, Error>(
            value@,
        ),
        outcome matches Err(e) ==> result_model(outcome) == Err::<OutcomeModel, Error>(e),
        reply matches Ok(decoded) ==> reply_model(reply) == Ok::<DecodedModel<Pk::V>, String>(
            (DecodedModel { miniscript: decoded.miniscript@, script: decoded.script@ }),
        ),
        reply matches Err(reason) ==> reply_model(reply) == Err::<DecodedModel<Pk::V>, String>(
            reason,
        ),
{
}

/// A spend that waits for its script stands for all that it holds.
pub proof fn law_pending_spends(outcome: Outcome)
    ensures
        match outcome {
            Outcome::Complete(data) => outcome@ == OutcomeModel::Complete(data@),
            Outcome::NeedsScript(PendingScript { spend, script }) => {
                &&& outcome@ matches OutcomeModel::NeedsScript(model)
                &&& model.script == script@
                &&& match spend {
                    ScriptSpend::Bare { spk, stack } => model.spend == (ScriptSpendModel::Bare {
                        spk: spk@,
                        stack: stack@,
                    }),
                    ScriptSpend::Sh { spk, witness_empty, stack } => model.spend == (
                    ScriptSpendModel::Sh { spk: spk@, witness_empty, stack: stack@ }),
                    ScriptSpend::Wsh { spk, stack } => model.spend == (ScriptSpendModel::Wsh {
                        spk: spk@,
                        stack: stack@,
                    }),
                    ScriptSpend::ShWsh { redeem_script, stack } => model.spend == (
                    ScriptSpendModel::ShWsh { redeem_script: redeem_script@, stack: stack@ }),
                }
            },
            Outcome::NeedsTapScript(
                PendingTapScript { spend: TapSpend { control_block, output_key, stack }, script },
            ) => {
                &&& outcome@ matches OutcomeModel::NeedsTapScript(model)
                &&& model.script == script@
                &&& model.spend.control_block == control_block@
                &&& model.spend.output_key == output_key@
                &&& model.spend.stack == stack@
            },
        },
{
}

/// A script that a stack element gives stands for its bytes, or for the tree and the script that
/// are known.
pub proof fn law_script_sources<Pk: View>(source: ScriptSource<Pk>)
    ensures
        match source {
            ScriptSource::Encoded(script) => source@ == ScriptSourceModel::<Pk::V>::Encoded(
                script@,
            ),
            ScriptSource::Known(decoded) => source@ == ScriptSourceModel::<Pk::V>::Known(
                (DecodedModel { miniscript: decoded.miniscript@, script: decoded.script@ }),
            ),
        },
{
}

/// A miniscript stands for the tree with the same fragment on top, the same numbers and hashes, and
/// the trees of its parts in their order.
pub proof fn law_miniscript_trees<Pk: View, Pkh: View>(ms: Miniscript<Pk, Pkh>)
    ensures
        match ms {
            Miniscript::True => ms@ == Tree::<Pk::V, Pkh::V>::True,
            Miniscript::False => ms@ == Tree::<Pk::V, Pkh::V>::False,
            Miniscript::PkK(pk) => ms@ == Tree::<Pk::V, Pkh::V>::PkK(pk@),
            Miniscript::PkH(hash) => ms@ == Tree::<Pk::V, Pkh::V>::PkH(hash@),
            Miniscript::After(n) => ms@ == Tree::<Pk::V, Pkh::V>::After(n),
            Miniscript::Older(n) => ms@ == Tree::<Pk::V, Pkh::V>::Older(n),
            Miniscript::Sha256(h) => ms@ == Tree::<Pk::V, Pkh::V>::Sha256(h@),
            Miniscript::Hash256(h) => ms@ == Tree::<Pk::V, Pkh::V>::Hash256(h@),
            Miniscript::Ripemd160(h) => ms@ == Tree::<Pk::V, Pkh::V>::Ripemd160(h@),
            Miniscript::Hash160(h) => ms@ == Tree::<Pk::V, Pkh::V>::Hash160(h@),
            Miniscript::Alt(x) => ms@ matches Tree::Alt(a) && *a == x@,
            Miniscript::Swap(x) => ms@ matches Tree::Swap(a) && *a == x@,
            Miniscript::Check(x) => ms@ matches Tree::Check(a) && *a == x@,
            Miniscript::DupIf(x) => ms@ matches Tree::DupIf(a) && *a == x@,
            Miniscript::Verify(x) => ms@ matches Tree::Verify(a) && *a == x@,
            Miniscript::NonZero(x) => ms@ matches Tree::NonZero(a) && *a == x@,
            Miniscript::ZeroNotEqual(x) => ms@ matches Tree::ZeroNotEqual(a) && *a == x@,
            Miniscript::AndV(x, y) => ms@ matches Tree::AndV(a, b) && *a == x@ && *b == y@,
            Miniscript::AndB(x, y) => ms@ matches Tree::AndB(a, b) && *a == x@ && *b == y@,
            Miniscript::AndOr(x, y, z) => ms@ matches Tree::AndOr(a, b, c) && *a == x@ && *b == y@
                && *c == z@,
            Miniscript::OrB(x, y) => ms@ matches Tree::OrB(a, b) && *a == x@ && *b == y@,
            Miniscript::OrD(x, y) => ms@ matches Tree::OrD(a, b) && *a == x@ && *b == y@,
            Miniscript::OrC(x, y) => ms@ matches Tree::OrC(a, b) && *a == x@ && *b == y@,
            Miniscript::OrI(x, y) => ms@ matches Tree::OrI(a, b) && *a == x@ && *b == y@,
            Miniscript::Thresh(k, subs) => ms@ matches Tree::Thresh(j, trees) && j == k
                && trees.len() == subs@.len() && forall|i: int|
                0 <= i < subs@.len() ==> #[trigger] trees[i] == subs@[i]@,
            Miniscript::Multi(k, keys) => ms@ matches Tree::Multi(j, pks) && j == k && pks.len()
                == keys@.len() && forall|i: int|
                0 <= i < keys@.len() ==> #[trigger] pks[i] == keys@[i]@,
            Miniscript::MultiA(k, keys) => ms@ matches Tree::MultiA(j, pks) && j == k && pks.len()
                == keys@.len() && forall|i: int|
                0 <= i < keys@.len() ==> #[trigger] pks[i] == keys@[i]@,
        },
{
}

} // verus!
