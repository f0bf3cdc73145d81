//! What a spend is checked against, and the steps that need a decoded script.
use vstd::prelude::*;
use vstd::slice::slice_to_vec;

use crate::bytes::bytes_eq;
use crate::crypto::{hash160, hash160_digest, sha256, sha256_digest, taproot_commitment_holds};
use crate::error::Error;
use crate::keys::{BitcoinKey, BitcoinKeyModel, PublicKey, TaggedHash160, TaggedHash160Model, XOnlyPublicKey};
use crate::miniscript::{
    any_hash, full_hash_model, full_key_model, good_key, pre_taproot_to_no_checks,
    taproot_to_no_checks, x_only_hash_model, x_only_key_model, Miniscript, Tree,
};
use crate::script::{
    new_p2pkh, new_p2sh, new_v0_p2wpkh, new_v0_p2wsh, p2pkh_script, p2sh_script, p2wpkh_script,
    p2wsh_script,
};
use crate::stack::{Element, ElementModel, Stack, OP_FALSE, OP_TRUE};
use crate::taproot::ControlBlock;

verus! {

/// Where a bare public key comes from.
#[derive(Copy, Clone, PartialEq, Eq, Debug, Structural)]
pub enum PubkeyType {
    Pk,
    Pkh,
    Wpkh,
    ShWpkh,
    /// The key path of a taproot output.
    Tr,
}

/// Where a bare miniscript comes from.
#[derive(Copy, Clone, PartialEq, Eq, Debug, Structural)]
pub enum ScriptType {
    Bare,
    Sh,
    Wsh,
    ShWsh,
    /// The script path of a taproot output.
    Tr,
}

/// The rules under which a script is decoded.
#[derive(Copy, Clone, PartialEq, Eq, Debug, Structural)]
pub enum ScriptContext {
    /// The script is the output script itself.
    Bare,
    /// The script stands behind a script hash.
    Legacy,
    /// The script is a version 0 witness script.
    Segwitv0,
    /// The script is a leaf of a taproot tree.
    Tap,
}

/// What a spend is evaluated against.
#[derive(PartialEq, Eq, Debug)]
pub enum Inner {
    /// A signature check with one key.
    PublicKey(BitcoinKey, PubkeyType),
    /// A script.
    Script(Miniscript<BitcoinKey, TaggedHash160>, ScriptType),
}

/// What an [`Inner`] stands for.
pub enum InnerModel {
    PublicKey(BitcoinKeyModel, PubkeyType),
    Script(Tree<BitcoinKeyModel, TaggedHash160Model>, ScriptType),
}

impl InnerModel {
    /// Whether every key is one, of the kind that it is marked with.
    pub open spec fn holds_keys(self) -> bool {
        match self {
            InnerModel::PublicKey(key, _) => key.is_key(),
            InnerModel::Script(tree, _) => tree.all_keys(good_key(), any_hash()),
        }
    }
}

impl View for Inner {
    type V = InnerModel;

    open spec fn view(&self) -> InnerModel {
        match self {
            Inner::PublicKey(key, origin) => InnerModel::PublicKey(key@, *origin),
            Inner::Script(ms, origin) => InnerModel::Script(ms@, *origin),
        }
    }
}

/// A spend, taken apart.
#[derive(PartialEq, Eq, Debug)]
pub struct TxData {
    /// What the spend is evaluated against.
    pub inner: Inner,
    /// The items that are left for the evaluation.
    pub stack: Stack,
    /// The script code that a signature hash is taken over. A taproot spend has none.
    pub script_code: Option<Vec<u8>>,
    /// The script that a taproot output is spent through. No other spend has one.
    pub leaf_script: Option<Vec<u8>>,
}

/// What a [`TxData`] stands for.
pub struct TxDataModel {
    pub inner: InnerModel,
    pub stack: Seq<ElementModel>,
    pub script_code: Option<Seq<u8>>,
    pub leaf_script: Option<Seq<u8>>,
}

impl View for TxData {
    type V = TxDataModel;

    open spec fn view(&self) -> TxDataModel {
        TxDataModel {
            inner: self.inner@,
            stack: self.stack@,
            script_code: match self.script_code {
                Some(script) => Some(script@),
                None => None,
            },
            leaf_script: match self.leaf_script {
                Some(script) => Some(script@),
                None => None,
            },
        }
    }
}

/// A result with its value taken by its view.
pub open spec fn result_model<T: View>(result: Result<T, Error>) -> Result<T::V, Error> {
    match result {
        Ok(value) => Ok(value@),
        Err(e) => Err(e),
    }
}

/// A decoded script: the miniscript, and the script that the miniscript encodes to.
#[derive(PartialEq, Eq, Debug)]
pub struct Decoded<Pk> {
    pub miniscript: Miniscript<Pk, [u8; 20]>,
    pub script: Vec<u8>,
}

/// What a [`Decoded`] stands for.
pub struct DecodedModel<K> {
    pub miniscript: Tree<K, Seq<u8>>,
    pub script: Seq<u8>,
}

impl<Pk: View> View for Decoded<Pk> {
    type V = DecodedModel<Pk::V>;

    open spec fn view(&self) -> DecodedModel<Pk::V> {
        DecodedModel { miniscript: self.miniscript@, script: self.script@ }
    }
}

/// What came of decoding a script, with the decoded script taken by its view.
pub open spec fn reply_model<Pk: View>(reply: Result<Decoded<Pk>, String>) -> Result<
    DecodedModel<Pk::V>,
    String,
> {
    match reply {
        Ok(decoded) => Ok(decoded@),
        Err(reason) => Err(reason),
    }
}

/// The script that a stack element gives.
#[derive(PartialEq, Eq, Debug)]
pub enum ScriptSource<Pk> {
    /// These bytes, which have to be decoded.
    Encoded(Vec<u8>),
    /// A script that is known without decoding.
    Known(Decoded<Pk>),
}

/// What a [`ScriptSource`] stands for.
pub enum ScriptSourceModel<K> {
    Encoded(Seq<u8>),
    Known(DecodedModel<K>),
}

impl<Pk: View> View for ScriptSource<Pk> {
    type V = ScriptSourceModel<Pk::V>;

    open spec fn view(&self) -> ScriptSourceModel<Pk::V> {
        match self {
            ScriptSource::Encoded(script) => ScriptSourceModel::Encoded(script@),
            ScriptSource::Known(decoded) => ScriptSourceModel::Known(decoded@),
        }
    }
}

/// A push holds an encoded script; the two booleans are the scripts `1` and `0`.
pub open spec fn script_source_model<K>(elem: ElementModel) -> ScriptSourceModel<K> {
    match elem {
        ElementModel::Push(script) => ScriptSourceModel::Encoded(script),
        ElementModel::Satisfied => ScriptSourceModel::Known(
            DecodedModel { miniscript: Tree::True, script: seq![OP_TRUE] },
        ),
        ElementModel::Dissatisfied => ScriptSourceModel::Known(
            DecodedModel { miniscript: Tree::False, script: seq![OP_FALSE] },
        ),
    }
}

/// The script that a stack element gives.
pub fn script_from_stackelem<Pk: View>(elem: Element) -> (source: ScriptSource<Pk>)
    ensures
        source@ == script_source_model::<Pk::V>(elem@),
{
    match elem {
        Element::Push(script) => ScriptSource::Encoded(script),
        Element::Satisfied => {
            let mut script: Vec<u8> = Vec::new();
            script.push(OP_TRUE);
            assert(script@ =~= seq![OP_TRUE]);
            ScriptSource::Known(Decoded { miniscript: Miniscript::True, script })
        },
        Element::Dissatisfied => {
            let mut script: Vec<u8> = Vec::new();
            script.push(OP_FALSE);
            assert(script@ =~= seq![OP_FALSE]);
            ScriptSource::Known(Decoded { miniscript: Miniscript::False, script })
        },
    }
}

/// The spend of a key whose output script holds the key itself.
pub fn pk_data(spk: &[u8], key: PublicKey, stack: Stack) -> (data: TxData)
    ensures
        data@ == (TxDataModel {
            inner: InnerModel::PublicKey(BitcoinKeyModel::Fullkey(key@), PubkeyType::Pk),
            stack: stack@,
            script_code: Some(spk@),
            leaf_script: None,
        }),
{
    TxData {
        inner: Inner::PublicKey(key.into(), PubkeyType::Pk),
        stack,
        script_code: Some(slice_to_vec(spk)),
        leaf_script: None,
    }
}

/// The spend of a key with hash `hash` from an output `spk` that should commit to that hash.
pub open spec fn pkh_data_model(
    spk: Seq<u8>,
    key: Seq<u8>,
    hash: Seq<u8>,
    stack: Seq<ElementModel>,
) -> Result<TxDataModel, Error> {
    if spk == p2pkh_script(hash) {
        Ok(
            TxDataModel {
                inner: InnerModel::PublicKey(BitcoinKeyModel::Fullkey(key), PubkeyType::Pkh),
                stack,
                script_code: Some(spk),
                leaf_script: None,
            },
        )
    } else {
        Err(Error::IncorrectPubkeyHash)
    }
}

/// The spend of a key with hash `hash` from an output `spk` that should commit to that hash.
pub fn pkh_data(spk: &[u8], key: PublicKey, hash: &[u8; 20], stack: Stack) -> (data: Result<
    TxData,
    Error,
>)
    ensures
        result_model(data) == pkh_data_model(spk@, key@, hash@, stack@),
{
    if bytes_eq(spk, new_p2pkh(hash).as_slice()) {
        Ok(
            TxData {
                inner: Inner::PublicKey(key.into(), PubkeyType::Pkh),
                stack,
                script_code: Some(slice_to_vec(spk)),
                leaf_script: None,
            },
        )
    } else {
        Err(Error::IncorrectPubkeyHash)
    }
}

/// The spend of a key with hash `hash` through the witness program `program`, which should
/// commit to that hash. As bip143 has it, the signature hash is taken over the script that pays
/// to the hash outside of segwit.
pub open spec fn wpkh_data_model(
    program: Seq<u8>,
    origin: PubkeyType,
    mismatch: Error,
    key: Seq<u8>,
    hash: Seq<u8>,
    stack: Seq<ElementModel>,
) -> Result<TxDataModel, Error> {
    if program == p2wpkh_script(hash) {
        Ok(
            TxDataModel {
                inner: InnerModel::PublicKey(BitcoinKeyModel::Fullkey(key), origin),
                stack,
                script_code: Some(p2pkh_script(hash)),
                leaf_script: None,
            },
        )
    } else {
        Err(mismatch)
    }
}

/// The spend of a key with hash `hash` from a witness program output `spk`.
pub fn wpkh_data(spk: &[u8], key: PublicKey, hash: &[u8; 20], stack: Stack) -> (data: Result<
    TxData,
    Error,
>)
    ensures
        result_model(data) == wpkh_data_model(
            spk@,
            PubkeyType::Wpkh,
            Error::IncorrectWPubkeyHash,
            key@,
            hash@,
            stack@,
        ),
{
    if bytes_eq(spk, new_v0_p2wpkh(hash).as_slice()) {
        Ok(
            TxData {
                inner: Inner::PublicKey(key.into(), PubkeyType::Wpkh),
                stack,
                script_code: Some(new_p2pkh(hash)),
                leaf_script: None,
            },
        )
    } else {
        Err(Error::IncorrectWPubkeyHash)
    }
}

/// The spend of a key with hash `hash` through a witness program that is a redeem script.
pub fn sh_wpkh_data(redeem_script: &[u8], key: PublicKey, hash: &[u8; 20], stack: Stack) -> (data:
    Result<TxData, Error>)
    ensures
        result_model(data) == wpkh_data_model(
            redeem_script@,
            PubkeyType::ShWpkh,
            Error::IncorrectWScriptHash,
            key@,
            hash@,
            stack@,
        ),
{
    if bytes_eq(redeem_script, new_v0_p2wpkh(hash).as_slice()) {
        Ok(
            TxData {
                inner: Inner::PublicKey(key.into(), PubkeyType::ShWpkh),
                stack,
                script_code: Some(new_p2pkh(hash)),
                leaf_script: None,
            },
        )
    } else {
        Err(Error::IncorrectWScriptHash)
    }
}

/// The spend of a decoded script over full keys.
pub open spec fn script_data_model(
    miniscript: Tree<Seq<u8>, Seq<u8>>,
    origin: ScriptType,
    stack: Seq<ElementModel>,
    script_code: Seq<u8>,
) -> TxDataModel {
    TxDataModel {
        inner: InnerModel::Script(miniscript.map_keys(full_key_model(), full_hash_model()), origin),
        stack,
        script_code: Some(script_code),
        leaf_script: None,
    }
}

/// The spend of a script that is the output script `spk` itself.
pub fn bare_data(spk: Vec<u8>, decoded: Decoded<PublicKey>, stack: Stack) -> (data: TxData)
    ensures
        data@ == script_data_model(decoded@.miniscript, ScriptType::Bare, stack@, spk@),
        data@.inner.holds_keys(),
{
    TxData {
        inner: Inner::Script(pre_taproot_to_no_checks(&decoded.miniscript), ScriptType::Bare),
        stack,
        script_code: Some(spk),
        leaf_script: None,
    }
}

/// The spend of a script with hash `hash` from an output `spk` that should commit to it. The
/// witness has to be empty.
pub open spec fn sh_data_model(
    spk: Seq<u8>,
    witness_empty: bool,
    decoded: DecodedModel<Seq<u8>>,
    hash: Seq<u8>,
    stack: Seq<ElementModel>,
) -> Result<TxDataModel, Error> {
    if !witness_empty {
        Err(Error::NonEmptyWitness)
    } else if spk == p2sh_script(hash) {
        Ok(script_data_model(decoded.miniscript, ScriptType::Sh, stack, decoded.script))
    } else {
        Err(Error::IncorrectScriptHash)
    }
}

/// The spend of a script with hash `hash` from an output `spk` that should commit to it.
pub fn sh_data(
    spk: &[u8],
    witness_empty: bool,
    decoded: Decoded<PublicKey>,
    hash: &[u8; 20],
    stack: Stack,
) -> (data: Result<TxData, Error>)
    ensures
        result_model(data) == sh_data_model(spk@, witness_empty, decoded@, hash@, stack@),
        data matches Ok(d) ==> d@.inner.holds_keys(),
{
    if !witness_empty {
        Err(Error::NonEmptyWitness)
    } else if bytes_eq(spk, new_p2sh(hash).as_slice()) {
        Ok(
            TxData {
                inner: Inner::Script(pre_taproot_to_no_checks(&decoded.miniscript), ScriptType::Sh),
                stack,
                script_code: Some(decoded.script),
                leaf_script: None,
            },
        )
    } else {
        Err(Error::IncorrectScriptHash)
    }
}

/// The spend of a script with hash `hash` through the witness program `program`, which should
/// commit to it.
pub open spec fn wsh_data_model(
    program: Seq<u8>,
    origin: ScriptType,
    decoded: DecodedModel<Seq<u8>>,
    hash: Seq<u8>,
    stack: Seq<ElementModel>,
) -> Result<TxDataModel, Error> {
    if program == p2wsh_script(hash) {
        Ok(script_data_model(decoded.miniscript, origin, stack, decoded.script))
    } else {
        Err(Error::IncorrectWScriptHash)
    }
}

/// The spend of a script with hash `hash` through a witness program, which is the output script
/// or the redeem script as `origin` says.
pub fn wsh_data(
    program: &[u8],
    origin: ScriptType,
    decoded: Decoded<PublicKey>,
    hash: &[u8; 32],
    stack: Stack,
) -> (data: Result<TxData, Error>)
    ensures
        result_model(data) == wsh_data_model(program@, origin, decoded@, hash@, stack@),
        data matches Ok(d) ==> d@.inner.holds_keys(),
{
    if bytes_eq(program, new_v0_p2wsh(hash).as_slice()) {
        Ok(
            TxData {
                inner: Inner::Script(pre_taproot_to_no_checks(&decoded.miniscript), origin),
                stack,
                script_code: Some(decoded.script),
                leaf_script: None,
            },
        )
    } else {
        Err(Error::IncorrectWScriptHash)
    }
}

/// The spend of a taproot output through its key.
pub fn tr_key_data(output_key: XOnlyPublicKey, stack: Stack) -> (data: TxData)
    ensures
        data@ == (TxDataModel {
            inner: InnerModel::PublicKey(
                BitcoinKeyModel::XOnlyPublicKey(output_key@),
                PubkeyType::Tr,
            ),
            stack: stack@,
            script_code: None,
            leaf_script: None,
        }),
{
    TxData {
        inner: Inner::PublicKey(output_key.into(), PubkeyType::Tr),
        stack,
        script_code: None,
        leaf_script: None,
    }
}

/// The spend of a taproot output through a script, given whether the control block proves that
/// the output commits to the script.
pub open spec fn tr_script_data_model(
    decoded: DecodedModel<Seq<u8>>,
    committed: bool,
    stack: Seq<ElementModel>,
) -> Result<TxDataModel, Error> {
    if committed {
        Ok(
            TxDataModel {
                inner: InnerModel::Script(
                    decoded.miniscript.map_keys(x_only_key_model(), x_only_hash_model()),
                    ScriptType::Tr,
                ),
                stack,
                script_code: None,
                leaf_script: Some(decoded.script),
            },
        )
    } else {
        Err(Error::ControlBlockVerificationError)
    }
}

/// The spend of a taproot output through a script, given whether the control block proves that
/// the output commits to the script.
pub fn tr_script_data(decoded: Decoded<XOnlyPublicKey>, committed: bool, stack: Stack) -> (data:
    Result<TxData, Error>)
    ensures
        result_model(data) == tr_script_data_model(decoded@, committed, stack@),
        data matches Ok(d) ==> d@.inner.holds_keys(),
{
    if committed {
        Ok(
            TxData {
                inner: Inner::Script(taproot_to_no_checks(&decoded.miniscript), ScriptType::Tr),
                stack,
                script_code: None,
                leaf_script: Some(decoded.script),
            },
        )
    } else {
        Err(Error::ControlBlockVerificationError)
    }
}

/// A spend through a script over full keys, all but the script.
#[derive(PartialEq, Eq, Debug)]
pub enum ScriptSpend {
    /// The script is the output script.
    Bare { spk: Vec<u8>, stack: Stack },
    /// The output commits to the hash of the script.
    Sh { spk: Vec<u8>, witness_empty: bool, stack: Stack },
    /// The output is a witness program that commits to the hash of the script.
    Wsh { spk: Vec<u8>, stack: Stack },
    /// The redeem script is a witness program that commits to the hash of the script.
    ShWsh { redeem_script: Vec<u8>, stack: Stack },
}

/// What a [`ScriptSpend`] stands for.
pub enum ScriptSpendModel {
    Bare { spk: Seq<u8>, stack: Seq<ElementModel> },
    Sh { spk: Seq<u8>, witness_empty: bool, stack: Seq<ElementModel> },
    Wsh { spk: Seq<u8>, stack: Seq<ElementModel> },
    ShWsh { redeem_script: Seq<u8>, stack: Seq<ElementModel> },
}

impl View for ScriptSpend {
    type V = ScriptSpendModel;

    open spec fn view(&self) -> ScriptSpendModel {
        match self {
            ScriptSpend::Bare { spk, stack } => ScriptSpendModel::Bare {
                spk: spk@,
                stack: stack@,
            },
            ScriptSpend::Sh { spk, witness_empty, stack } => ScriptSpendModel::Sh {
                spk: spk@,
                witness_empty: *witness_empty,
                stack: stack@,
            },
            ScriptSpend::Wsh { spk, stack } => ScriptSpendModel::Wsh { spk: spk@, stack: stack@ },
            ScriptSpend::ShWsh { redeem_script, stack } => ScriptSpendModel::ShWsh {
                redeem_script: redeem_script@,
                stack: stack@,
            },
        }
    }
}

impl ScriptSpendModel {
    /// The rules under which the script is to be decoded.
    pub open spec fn context(self) -> ScriptContext {
        match self {
            ScriptSpendModel::Bare { .. } => ScriptContext::Bare,
            ScriptSpendModel::Sh { .. } => ScriptContext::Legacy,
            ScriptSpendModel::Wsh { .. } => ScriptContext::Segwitv0,
            ScriptSpendModel::ShWsh { .. } => ScriptContext::Segwitv0,
        }
    }

    /// The spend with its script.
    pub open spec fn finish(self, decoded: DecodedModel<Seq<u8>>) -> Result<TxDataModel, Error> {
        match self {
            ScriptSpendModel::Bare { spk, stack } => Ok(
                script_data_model(decoded.miniscript, ScriptType::Bare, stack, spk),
            ),
            ScriptSpendModel::Sh { spk, witness_empty, stack } => sh_data_model(
                spk,
                witness_empty,
                decoded,
                hash160_digest(decoded.script),
                stack,
            ),
            ScriptSpendModel::Wsh { spk, stack } => wsh_data_model(
                spk,
                ScriptType::Wsh,
                decoded,
                sha256_digest(decoded.script),
                stack,
            ),
            ScriptSpendModel::ShWsh { redeem_script, stack } => wsh_data_model(
                redeem_script,
                ScriptType::ShWsh,
                decoded,
                sha256_digest(decoded.script),
                stack,
            ),
        }
    }
}

impl ScriptSpend {
    /// The rules under which the script is to be decoded.
    pub fn context(&self) -> (context: ScriptContext)
        ensures
            context == self@.context(),
    {
        match self {
            ScriptSpend::Bare { .. } => ScriptContext::Bare,
            ScriptSpend::Sh { .. } => ScriptContext::Legacy,
            ScriptSpend::Wsh { .. } => ScriptContext::Segwitv0,
            ScriptSpend::ShWsh { .. } => ScriptContext::Segwitv0,
        }
    }

    /// The spend with its script.
    pub fn finish(self, decoded: Decoded<PublicKey>) -> (data: Result<TxData, Error>)
        ensures
            result_model(data) == self@.finish(decoded@),
            data matches Ok(d) ==> d@.inner.holds_keys(),
    {
        match self {
            ScriptSpend::Bare { spk, stack } => Ok(bare_data(spk, decoded, stack)),
            ScriptSpend::Sh { spk, witness_empty, stack } => {
                let hash = hash160(decoded.script.as_slice());
                sh_data(spk.as_slice(), witness_empty, decoded, &hash, stack)
            },
            ScriptSpend::Wsh { spk, stack } => {
                let hash = sha256(decoded.script.as_slice());
                wsh_data(spk.as_slice(), ScriptType::Wsh, decoded, &hash, stack)
            },
            ScriptSpend::ShWsh { redeem_script, stack } => {
                let hash = sha256(decoded.script.as_slice());
                wsh_data(redeem_script.as_slice(), ScriptType::ShWsh, decoded, &hash, stack)
            },
        }
    }
}

/// A spend that waits for its script, over full keys, to be decoded.
#[derive(PartialEq, Eq, Debug)]
pub struct PendingScript {
    /// The spend.
    pub spend: ScriptSpend,
    /// The script to decode.
    pub script: Vec<u8>,
}

/// What a [`PendingScript`] stands for.
pub struct PendingScriptModel {
    pub spend: ScriptSpendModel,
    pub script: Seq<u8>,
}

impl View for PendingScript {
    type V = PendingScriptModel;

    open spec fn view(&self) -> PendingScriptModel {
        PendingScriptModel { spend: self.spend@, script: self.script@ }
    }
}

impl PendingScriptModel {
    /// The spend once its script has been decoded, or has turned out not to decode.
    pub open spec fn resume(self, reply: Result<DecodedModel<Seq<u8>>, String>) -> Result<
        TxDataModel,
        Error,
    > {
        match reply {
            Ok(decoded) => self.spend.finish(decoded),
            Err(reason) => Err(Error::Miniscript(reason)),
        }
    }
}

impl PendingScript {
    /// Goes on with what came of decoding `script` under the rules of the spend's context: the
    /// decoded script, or a text that says why there is none.
    pub fn resume(self, reply: Result<Decoded<PublicKey>, String>) -> (data: Result<TxData, Error>)
        ensures
            result_model(data) == self@.resume(reply_model(reply)),
            data matches Ok(d) ==> d@.inner.holds_keys(),
    {
        match reply {
            Ok(decoded) => self.spend.finish(decoded),
            Err(reason) => Err(Error::Miniscript(reason)),
        }
    }
}

/// A spend of a taproot output through a script, all but the script.
#[derive(PartialEq, Eq, Debug)]
pub struct TapSpend {
    /// The control block that should lead from the script to the output key.
    pub control_block: ControlBlock,
    /// The output key.
    pub output_key: XOnlyPublicKey,
    /// The items that are left for the evaluation.
    pub stack: Stack,
}

/// What a [`TapSpend`] stands for.
pub struct TapSpendModel {
    pub control_block: Seq<u8>,
    pub output_key: Seq<u8>,
    pub stack: Seq<ElementModel>,
}

impl View for TapSpend {
    type V = TapSpendModel;

    open spec fn view(&self) -> TapSpendModel {
        TapSpendModel {
            control_block: self.control_block@,
            output_key: self.output_key@,
            stack: self.stack@,
        }
    }
}

impl TapSpendModel {
    /// The spend with its script.
    pub open spec fn finish(self, decoded: DecodedModel<Seq<u8>>) -> Result<TxDataModel, Error> {
        tr_script_data_model(
            decoded,
            taproot_commitment_holds(self.control_block, self.output_key, decoded.script),
            self.stack,
        )
    }
}

impl TapSpend {
    /// The spend with its script.
    pub fn finish(self, decoded: Decoded<XOnlyPublicKey>) -> (data: Result<TxData, Error>)
        ensures
            result_model(data) == self@.finish(decoded@),
            data matches Ok(d) ==> d@.inner.holds_keys(),
    {
        let committed = self.control_block.verify_taproot_commitment(
            &self.output_key,
            decoded.script.as_slice(),
        );
        tr_script_data(decoded, committed, self.stack)
    }
}

/// A spend of a taproot output that waits for its script to be decoded, under the rules of
/// [`ScriptContext::Tap`].
#[derive(PartialEq, Eq, Debug)]
pub struct PendingTapScript {
    /// The spend.
    pub spend: TapSpend,
    /// The script to decode.
    pub script: Vec<u8>,
}

/// What a [`PendingTapScript`] stands for.
pub struct PendingTapScriptModel {
    pub spend: TapSpendModel,
    pub script: Seq<u8>,
}

impl View for PendingTapScript {
    type V = PendingTapScriptModel;

    open spec fn view(&self) -> PendingTapScriptModel {
        PendingTapScriptModel { spend: self.spend@, script: self.script@ }
    }
}

impl PendingTapScriptModel {
    /// The spend once its script has been decoded, or has turned out not to decode.
    pub open spec fn resume(self, reply: Result<DecodedModel<Seq<u8>>, String>) -> Result<
        TxDataModel,
        Error,
    > {
        match reply {
            Ok(decoded) => self.spend.finish(decoded),
            Err(reason) => Err(Error::Miniscript(reason)),
        }
    }
}

impl PendingTapScript {
    /// Goes on with what came of decoding `script`: the decoded script, or a text that says why
    /// there is none.
    pub fn resume(self, reply: Result<Decoded<XOnlyPublicKey>, String>) -> (data: Result<
        TxData,
        Error,
    >)
        ensures
            result_model(data) == self@.resume(reply_model(reply)),
            data matches Ok(d) ==> d@.inner.holds_keys(),
    {
        match reply {
            Ok(decoded) => self.spend.finish(decoded),
            Err(reason) => Err(Error::Miniscript(reason)),
        }
    }
}

/// How far spending data could be taken apart.
#[derive(PartialEq, Eq, Debug)]
pub enum Outcome {
    /// All the way.
    Complete(TxData),
    /// Up to a script over full keys, which has to be decoded.
    NeedsScript(PendingScript),
    /// Up to a taproot script, which has to be decoded.
    NeedsTapScript(PendingTapScript),
}

/// What an [`Outcome`] stands for.
pub enum OutcomeModel {
    Complete(TxDataModel),
    NeedsScript(PendingScriptModel),
    NeedsTapScript(PendingTapScriptModel),
}

impl View for Outcome {
    type V = OutcomeModel;

    open spec fn view(&self) -> OutcomeModel {
        match self {
            Outcome::Complete(data) => OutcomeModel::Complete(data@),
            Outcome::NeedsScript(pending) => OutcomeModel::NeedsScript(pending@),
            Outcome::NeedsTapScript(pending) => OutcomeModel::NeedsTapScript(pending@),
        }
    }
}

/// A result that needs no script.
pub open spec fn complete_model(data: Result<TxDataModel, Error>) -> Result<OutcomeModel, Error> {
    match data {
        Ok(data) => Ok(OutcomeModel::Complete(data)),
        Err(e) => Err(e),
    }
}

/// What becomes of a spend through the script that `source` gives.
pub open spec fn script_outcome_model(
    spend: ScriptSpendModel,
    source: ScriptSourceModel<Seq<u8>>,
) -> Result<OutcomeModel, Error> {
    match source {
        ScriptSourceModel::Encoded(script) => Ok(
            OutcomeModel::NeedsScript(PendingScriptModel { spend, script }),
        ),
        ScriptSourceModel::Known(decoded) => complete_model(spend.finish(decoded)),
    }
}

/// What becomes of a spend of a taproot output through the script that `source` gives.
pub open spec fn tap_outcome_model(
    spend: TapSpendModel,
    source: ScriptSourceModel<Seq<u8>>,
) -> Result<OutcomeModel, Error> {
    match source {
        ScriptSourceModel::Encoded(script) => Ok(
            OutcomeModel::NeedsTapScript(PendingTapScriptModel { spend, script }),
        ),
        ScriptSourceModel::Known(decoded) => complete_model(spend.finish(decoded)),
    }
}

/// What becomes of a spend through the script that `source` gives: it waits for the script, or,
/// if the script is known, is finished with it.
pub fn script_outcome(spend: ScriptSpend, source: ScriptSource<PublicKey>) -> (outcome: Result<
    Outcome,
    Error,
>)
    ensures
        result_model(outcome) == script_outcome_model(spend@, source@),
{
    match source {
        ScriptSource::Encoded(script) => Ok(Outcome::NeedsScript(PendingScript { spend, script })),
        ScriptSource::Known(decoded) => match spend.finish(decoded) {
            Ok(data) => Ok(Outcome::Complete(data)),
            Err(e) => Err(e),
        },
    }
}

/// What becomes of a spend of a taproot output through the script that `source` gives.
pub fn tap_outcome(spend: TapSpend, source: ScriptSource<XOnlyPublicKey>) -> (outcome: Result<
    Outcome,
    Error,
>)
    ensures
        result_model(outcome) == tap_outcome_model(spend@, source@),
{
    match source {
        ScriptSource::Encoded(script) => Ok(
            Outcome::NeedsTapScript(PendingTapScript { spend, script }),
        ),
        ScriptSource::Known(decoded) => match spend.finish(decoded) {
            Ok(data) => Ok(Outcome::Complete(data)),
            Err(e) => Err(e),
        },
    }
}

} // verus!
