//! Miniscript trees, and their translation into trees whose keys say what kind they are.
use vstd::prelude::*;

use crate::keys::{BitcoinKey, BitcoinKeyModel, PublicKey, TaggedHash160, TaggedHash160Model, XOnlyPublicKey};

verus! {

/// A miniscript: a tree of script fragments, over keys `Pk` and key hashes `Pkh`.
#[derive(PartialEq, Eq, Debug)]
pub enum Miniscript<Pk, Pkh> {
    /// `1`
    True,
    /// `0`
    False,
    /// `pk_k(key)`
    PkK(Pk),
    /// `pk_h(hash of a key)`
    PkH(Pkh),
    /// `after(n)`
    After(u32),
    /// `older(n)`
    Older(u32),
    /// `sha256(h)`
    Sha256([u8; 32]),
    /// `hash256(h)`
    Hash256([u8; 32]),
    /// `ripemd160(h)`
    Ripemd160([u8; 20]),
    /// `hash160(h)`
    Hash160([u8; 20]),
    /// `a:X`
    Alt(Box<Miniscript<Pk, Pkh>>),
    /// `s:X`
    Swap(Box<Miniscript<Pk, Pkh>>),
    /// `c:X`
    Check(Box<Miniscript<Pk, Pkh>>),
    /// `d:X`
    DupIf(Box<Miniscript<Pk, Pkh>>),
    /// `v:X`
    Verify(Box<Miniscript<Pk, Pkh>>),
    /// `j:X`
    NonZero(Box<Miniscript<Pk, Pkh>>),
    /// `n:X`
    ZeroNotEqual(Box<Miniscript<Pk, Pkh>>),
    /// `and_v(X,Y)`
    AndV(Box<Miniscript<Pk, Pkh>>, Box<Miniscript<Pk, Pkh>>),
    /// `and_b(X,Y)`
    AndB(Box<Miniscript<Pk, Pkh>>, Box<Miniscript<Pk, Pkh>>),
    /// `andor(X,Y,Z)`
    AndOr(Box<Miniscript<Pk, Pkh>>, Box<Miniscript<Pk, Pkh>>, Box<Miniscript<Pk, Pkh>>),
    /// `or_b(X,Y)`
    OrB(Box<Miniscript<Pk, Pkh>>, Box<Miniscript<Pk, Pkh>>),
    /// `or_d(X,Y)`
    OrD(Box<Miniscript<Pk, Pkh>>, Box<Miniscript<Pk, Pkh>>),
    /// `or_c(X,Y)`
    OrC(Box<Miniscript<Pk, Pkh>>, Box<Miniscript<Pk, Pkh>>),
    /// `or_i(X,Y)`
    OrI(Box<Miniscript<Pk, Pkh>>, Box<Miniscript<Pk, Pkh>>),
    /// `thresh(k,X1,...,Xn)`
    Thresh(usize, Vec<Miniscript<Pk, Pkh>>),
    /// `multi(k,key1,...,keyn)`
    Multi(usize, Vec<Pk>),
    /// `multi_a(k,key1,...,keyn)`
    MultiA(usize, Vec<Pk>),
}

/// The mathematical tree that a [`Miniscript`] stands for.
pub enum Tree<Pk, Pkh> {
    True,
    False,
    PkK(Pk),
    PkH(Pkh),
    After(u32),
    Older(u32),
    Sha256(Seq<u8>),
    Hash256(Seq<u8>),
    Ripemd160(Seq<u8>),
    Hash160(Seq<u8>),
    Alt(Box<Tree<Pk, Pkh>>),
    Swap(Box<Tree<Pk, Pkh>>),
    Check(Box<Tree<Pk, Pkh>>),
    DupIf(Box<Tree<Pk, Pkh>>),
    Verify(Box<Tree<Pk, Pkh>>),
    NonZero(Box<Tree<Pk, Pkh>>),
    ZeroNotEqual(Box<Tree<Pk, Pkh>>),
    AndV(Box<Tree<Pk, Pkh>>, Box<Tree<Pk, Pkh>>),
    AndB(Box<Tree<Pk, Pkh>>, Box<Tree<Pk, Pkh>>),
    AndOr(Box<Tree<Pk, Pkh>>, Box<Tree<Pk, Pkh>>, Box<Tree<Pk, Pkh>>),
    OrB(Box<Tree<Pk, Pkh>>, Box<Tree<Pk, Pkh>>),
    OrD(Box<Tree<Pk, Pkh>>, Box<Tree<Pk, Pkh>>),
    OrC(Box<Tree<Pk, Pkh>>, Box<Tree<Pk, Pkh>>),
    OrI(Box<Tree<Pk, Pkh>>, Box<Tree<Pk, Pkh>>),
    Thresh(usize, Seq<Tree<Pk, Pkh>>),
    Multi(usize, Seq<Pk>),
    MultiA(usize, Seq<Pk>),
}

impl<Pk: View, Pkh: View> Miniscript<Pk, Pkh> {
    /// The tree of this miniscript, with every key and key hash taken by its view.
    pub open spec fn tree(self) -> Tree<Pk::V, Pkh::V>
        decreases self,
    {
        match self {
            Miniscript::True => Tree::True,
            Miniscript::False => Tree::False,
            Miniscript::PkK(pk) => Tree::PkK(pk@),
            Miniscript::PkH(hash) => Tree::PkH(hash@),
            Miniscript::After(n) => Tree::After(n),
            Miniscript::Older(n) => Tree::Older(n),
            Miniscript::Sha256(h) => Tree::Sha256(h@),
            Miniscript::Hash256(h) => Tree::Hash256(h@),
            Miniscript::Ripemd160(h) => Tree::Ripemd160(h@),
            Miniscript::Hash160(h) => Tree::Hash160(h@),
            Miniscript::Alt(x) => Tree::Alt(Box::new(x.tree())),
            Miniscript::Swap(x) => Tree::Swap(Box::new(x.tree())),
            Miniscript::Check(x) => Tree::Check(Box::new(x.tree())),
            Miniscript::DupIf(x) => Tree::DupIf(Box::new(x.tree())),
            Miniscript::Verify(x) => Tree::Verify(Box::new(x.tree())),
            Miniscript::NonZero(x) => Tree::NonZero(Box::new(x.tree())),
            Miniscript::ZeroNotEqual(x) => Tree::ZeroNotEqual(Box::new(x.tree())),
            Miniscript::AndV(x, y) => Tree::AndV(Box::new(x.tree()), Box::new(y.tree())),
            Miniscript::AndB(x, y) => Tree::AndB(Box::new(x.tree()), Box::new(y.tree())),
            Miniscript::AndOr(x, y, z) => Tree::AndOr(
                Box::new(x.tree()),
                Box::new(y.tree()),
                Box::new(z.tree()),
            ),
            Miniscript::OrB(x, y) => Tree::OrB(Box::new(x.tree()), Box::new(y.tree())),
            Miniscript::OrD(x, y) => Tree::OrD(Box::new(x.tree()), Box::new(y.tree())),
            Miniscript::OrC(x, y) => Tree::OrC(Box::new(x.tree()), Box::new(y.tree())),
            Miniscript::OrI(x, y) => Tree::OrI(Box::new(x.tree()), Box::new(y.tree())),
            Miniscript::Thresh(k, subs) => Tree::Thresh(
                k,
                Seq::new(
                    subs@.len(),
                    |i: int|
                        if 0 <= i < subs@.len() {
                            subs@[i].tree()
                        } else {
                            Tree::False
                        },
                ),
            ),
            Miniscript::Multi(k, keys) => Tree::Multi(k, keys@.map_values(|pk: Pk| pk@)),
            Miniscript::MultiA(k, keys) => Tree::MultiA(k, keys@.map_values(|pk: Pk| pk@)),
        }
    }
}

impl<Pk: View, Pkh: View> View for Miniscript<Pk, Pkh> {
    type V = Tree<Pk::V, Pkh::V>;

    open spec fn view(&self) -> Tree<Pk::V, Pkh::V> {
        self.tree()
    }
}

impl<Pk, Pkh> Tree<Pk, Pkh> {
    /// The tree of the same shape with `key` applied to each key and `hash` to each key hash.
    pub open spec fn map_keys<Q, Qkh>(
        self,
        key: spec_fn(Pk) -> Q,
        hash: spec_fn(Pkh) -> Qkh,
    ) -> Tree<Q, Qkh>
        decreases self,
    {
        match self {
            Tree::True => Tree::True,
            Tree::False => Tree::False,
            Tree::PkK(pk) => Tree::PkK(key(pk)),
            Tree::PkH(h) => Tree::PkH(hash(h)),
            Tree::After(n) => Tree::After(n),
            Tree::Older(n) => Tree::Older(n),
            Tree::Sha256(h) => Tree::Sha256(h),
            Tree::Hash256(h) => Tree::Hash256(h),
            Tree::Ripemd160(h) => Tree::Ripemd160(h),
            Tree::Hash160(h) => Tree::Hash160(h),
            Tree::Alt(x) => Tree::Alt(Box::new(x.map_keys(key, hash))),
            Tree::Swap(x) => Tree::Swap(Box::new(x.map_keys(key, hash))),
            Tree::Check(x) => Tree::Check(Box::new(x.map_keys(key, hash))),
            Tree::DupIf(x) => Tree::DupIf(Box::new(x.map_keys(key, hash))),
            Tree::Verify(x) => Tree::Verify(Box::new(x.map_keys(key, hash))),
            Tree::NonZero(x) => Tree::NonZero(Box::new(x.map_keys(key, hash))),
            Tree::ZeroNotEqual(x) => Tree::ZeroNotEqual(Box::new(x.map_keys(key, hash))),
            Tree::AndV(x, y) => Tree::AndV(
                Box::new(x.map_keys(key, hash)),
                Box::new(y.map_keys(key, hash)),
            ),
            Tree::AndB(x, y) => Tree::AndB(
                Box::new(x.map_keys(key, hash)),
                Box::new(y.map_keys(key, hash)),
            ),
            Tree::AndOr(x, y, z) => Tree::AndOr(
                Box::new(x.map_keys(key, hash)),
                Box::new(y.map_keys(key, hash)),
                Box::new(z.map_keys(key, hash)),
            ),
            Tree::OrB(x, y) => Tree::OrB(
                Box::new(x.map_keys(key, hash)),
                Box::new(y.map_keys(key, hash)),
            ),
            Tree::OrD(x, y) => Tree::OrD(
                Box::new(x.map_keys(key, hash)),
                Box::new(y.map_keys(key, hash)),
            ),
            Tree::OrC(x, y) => Tree::OrC(
                Box::new(x.map_keys(key, hash)),
                Box::new(y.map_keys(key, hash)),
            ),
            Tree::OrI(x, y) => Tree::OrI(
                Box::new(x.map_keys(key, hash)),
                Box::new(y.map_keys(key, hash)),
            ),
            Tree::Thresh(k, subs) => Tree::Thresh(
                k,
                Seq::new(
                    subs.len(),
                    |i: int|
                        if 0 <= i < subs.len() {
                            subs[i].map_keys(key, hash)
                        } else {
                            Tree::False
                        },
                ),
            ),
            Tree::Multi(k, keys) => Tree::Multi(k, keys.map_values(key)),
            Tree::MultiA(k, keys) => Tree::MultiA(k, keys.map_values(key)),
        }
    }

    /// Whether `key` holds of each key and `hash` of each key hash.
    pub open spec fn all_keys(self, key: spec_fn(Pk) -> bool, hash: spec_fn(Pkh) -> bool) -> bool
        decreases self,
    {
        match self {
            Tree::PkK(pk) => key(pk),
            Tree::PkH(h) => hash(h),
            Tree::Alt(x) => x.all_keys(key, hash),
            Tree::Swap(x) => x.all_keys(key, hash),
            Tree::Check(x) => x.all_keys(key, hash),
            Tree::DupIf(x) => x.all_keys(key, hash),
            Tree::Verify(x) => x.all_keys(key, hash),
            Tree::NonZero(x) => x.all_keys(key, hash),
            Tree::ZeroNotEqual(x) => x.all_keys(key, hash),
            Tree::AndV(x, y) => x.all_keys(key, hash) && y.all_keys(key, hash),
            Tree::AndB(x, y) => x.all_keys(key, hash) && y.all_keys(key, hash),
            Tree::AndOr(x, y, z) => x.all_keys(key, hash) && y.all_keys(key, hash) && z.all_keys(
                key,
                hash,
            ),
            Tree::OrB(x, y) => x.all_keys(key, hash) && y.all_keys(key, hash),
            Tree::OrD(x, y) => x.all_keys(key, hash) && y.all_keys(key, hash),
            Tree::OrC(x, y) => x.all_keys(key, hash) && y.all_keys(key, hash),
            Tree::OrI(x, y) => x.all_keys(key, hash) && y.all_keys(key, hash),
            Tree::Thresh(k, subs) => forall|i: int|
                0 <= i < subs.len() ==> (#[trigger] subs[i]).all_keys(key, hash),
            Tree::Multi(k, keys) => forall|i: int| 0 <= i < keys.len() ==> key(#[trigger] keys[i]),
            Tree::MultiA(k, keys) => forall|i: int| 0 <= i < keys.len() ==> key(#[trigger] keys[i]),
            _ => true,
        }
    }
}

/// What holds of every key hash.
pub open spec fn any_hash<Pkh>() -> spec_fn(Pkh) -> bool {
    |hash: Pkh| true
}

/// What holds of the serialization of a key, of the kind that it is marked with.
pub open spec fn good_key() -> spec_fn(BitcoinKeyModel) -> bool {
    |key: BitcoinKeyModel| key.is_key()
}

/// Rebuilds `ms` with `key` applied to each key and `hash` to each key hash. What `key_ok` says
/// holds of every key that `key` gives, and so of every key of the new tree.
fn translate_pk<Pk, Pkh, Q, Qkh, F, G>(
    ms: &Miniscript<Pk, Pkh>,
    key: &F,
    hash: &G,
    Ghost(key_model): Ghost<spec_fn(Pk::V) -> Q::V>,
    Ghost(hash_model): Ghost<spec_fn(Pkh::V) -> Qkh::V>,
    Ghost(key_ok): Ghost<spec_fn(Q::V) -> bool>,
) -> (out: Miniscript<Q, Qkh>) where
    Pk: View,
    Pkh: View,
    Q: View,
    Qkh: View,
    F: Fn(&Pk) -> Q,
    G: Fn(&Pkh) -> Qkh,

    requires
        forall|pk: &Pk| #[trigger] call_requires(key, (pk,)),
        forall|pkh: &Pkh| #[trigger] call_requires(hash, (pkh,)),
        forall|pk: &Pk, q: Q| #[trigger] call_ensures(key, (pk,), q) ==> q@ == key_model(pk@) && key_ok(q@),
        forall|pkh: &Pkh, q: Qkh| #[trigger]
            call_ensures(hash, (pkh,), q) ==> q@ == hash_model(pkh@),
    ensures
        out@ == ms@.map_keys(key_model, hash_model),
        out@.all_keys(key_ok, any_hash()),
    decreases ms,
{
    match ms {
        Miniscript::True => Miniscript::True,
        Miniscript::False => Miniscript::False,
        Miniscript::PkK(pk) => Miniscript::PkK(key(pk)),
        Miniscript::PkH(pkh) => Miniscript::PkH(hash(pkh)),
        Miniscript::After(n) => Miniscript::After(*n),
        Miniscript::Older(n) => Miniscript::Older(*n),
        Miniscript::Sha256(h) => Miniscript::Sha256(*h),
        Miniscript::Hash256(h) => Miniscript::Hash256(*h),
        Miniscript::Ripemd160(h) => Miniscript::Ripemd160(*h),
        Miniscript::Hash160(h) => Miniscript::Hash160(*h),
        Miniscript::Alt(x) => Miniscript::Alt(
            Box::new(translate_pk(x, key, hash, Ghost(key_model), Ghost(hash_model), Ghost(key_ok))),
        ),
        Miniscript::Swap(x) => Miniscript::Swap(
            Box::new(translate_pk(x, key, hash, Ghost(key_model), Ghost(hash_model), Ghost(key_ok))),
        ),
        Miniscript::Check(x) => Miniscript::Check(
            Box::new(translate_pk(x, key, hash, Ghost(key_model), Ghost(hash_model), Ghost(key_ok))),
        ),
        Miniscript::DupIf(x) => Miniscript::DupIf(
            Box::new(translate_pk(x, key, hash, Ghost(key_model), Ghost(hash_model), Ghost(key_ok))),
        ),
        Miniscript::Verify(x) => Miniscript::Verify(
            Box::new(translate_pk(x, key, hash, Ghost(key_model), Ghost(hash_model), Ghost(key_ok))),
        ),
        Miniscript::NonZero(x) => Miniscript::NonZero(
            Box::new(translate_pk(x, key, hash, Ghost(key_model), Ghost(hash_model), Ghost(key_ok))),
        ),
        Miniscript::ZeroNotEqual(x) => Miniscript::ZeroNotEqual(
            Box::new(translate_pk(x, key, hash, Ghost(key_model), Ghost(hash_model), Ghost(key_ok))),
        ),
        Miniscript::AndV(x, y) => Miniscript::AndV(
            Box::new(translate_pk(x, key, hash, Ghost(key_model), Ghost(hash_model), Ghost(key_ok))),
            Box::new(translate_pk(y, key, hash, Ghost(key_model), Ghost(hash_model), Ghost(key_ok))),
        ),
        Miniscript::AndB(x, y) => Miniscript::AndB(
            Box::new(translate_pk(x, key, hash, Ghost(key_model), Ghost(hash_model), Ghost(key_ok))),
            Box::new(translate_pk(y, key, hash, Ghost(key_model), Ghost(hash_model), Ghost(key_ok))),
        ),
        Miniscript::AndOr(x, y, z) => Miniscript::AndOr(
            Box::new(translate_pk(x, key, hash, Ghost(key_model), Ghost(hash_model), Ghost(key_ok))),
            Box::new(translate_pk(y, key, hash, Ghost(key_model), Ghost(hash_model), Ghost(key_ok))),
            Box::new(translate_pk(z, key, hash, Ghost(key_model), Ghost(hash_model), Ghost(key_ok))),
        ),
        Miniscript::OrB(x, y) => Miniscript::OrB(
            Box::new(translate_pk(x, key, hash, Ghost(key_model), Ghost(hash_model), Ghost(key_ok))),
            Box::new(translate_pk(y, key, hash, Ghost(key_model), Ghost(hash_model), Ghost(key_ok))),
        ),
        Miniscript::OrD(x, y) => Miniscript::OrD(
            Box::new(translate_pk(x, key, hash, Ghost(key_model), Ghost(hash_model), Ghost(key_ok))),
            Box::new(translate_pk(y, key, hash, Ghost(key_model), Ghost(hash_model), Ghost(key_ok))),
        ),
        Miniscript::OrC(x, y) => Miniscript::OrC(
            Box::new(translate_pk(x, key, hash, Ghost(key_model), Ghost(hash_model), Ghost(key_ok))),
            Box::new(translate_pk(y, key, hash, Ghost(key_model), Ghost(hash_model), Ghost(key_ok))),
        ),
        Miniscript::OrI(x, y) => Miniscript::OrI(
            Box::new(translate_pk(x, key, hash, Ghost(key_model), Ghost(hash_model), Ghost(key_ok))),
            Box::new(translate_pk(y, key, hash, Ghost(key_model), Ghost(hash_model), Ghost(key_ok))),
        ),
        Miniscript::Thresh(k, subs) => {
            let mut out: Vec<Miniscript<Q, Qkh>> = Vec::new();
            let mut i: usize = 0;
            while i < subs.len()
                invariant
                    i <= subs@.len(),
                    out@.len() == i,
                    ms == &Miniscript::Thresh(*k, *subs),
                    forall|pk: &Pk| #[trigger] call_requires(key, (pk,)),
                    forall|pkh: &Pkh| #[trigger] call_requires(hash, (pkh,)),
                    forall|pk: &Pk, q: Q| #[trigger]
                        call_ensures(key, (pk,), q) ==> q@ == key_model(pk@) && key_ok(q@),
                    forall|pkh: &Pkh, q: Qkh| #[trigger]
                        call_ensures(hash, (pkh,), q) ==> q@ == hash_model(pkh@),
                    forall|j: int|
                        0 <= j < i ==> (#[trigger] out@[j])@ == subs@[j]@.map_keys(
                            key_model,
                            hash_model,
                        ),
                    forall|j: int|
                        0 <= j < i ==> (#[trigger] out@[j])@.all_keys(key_ok, any_hash()),
                decreases subs@.len() - i,
            {
                assert(decreases_to!(ms->Thresh_1 => subs[i as int]));
                assert(decreases_to!(ms => ms->Thresh_1));
                out.push(
                    translate_pk(&subs[i], key, hash, Ghost(key_model), Ghost(hash_model), Ghost(key_ok)),
                );
                i += 1;
            }
            let res = Miniscript::Thresh(*k, out);
            assert(res@->Thresh_1 =~= ms@.map_keys(key_model, hash_model)->Thresh_1);
            res
        },
        Miniscript::Multi(k, keys) => {
            let out = translate_keys(keys, key, Ghost(key_model), Ghost(key_ok));
            assert(out@.map_values(|q: Q| q@) =~= keys@.map_values(|pk: Pk| pk@).map_values(
                key_model,
            ));
            Miniscript::Multi(*k, out)
        },
        Miniscript::MultiA(k, keys) => {
            let out = translate_keys(keys, key, Ghost(key_model), Ghost(key_ok));
            assert(out@.map_values(|q: Q| q@) =~= keys@.map_values(|pk: Pk| pk@).map_values(
                key_model,
            ));
            Miniscript::MultiA(*k, out)
        },
    }
}

/// Applies `key` to each of `keys`.
fn translate_keys<Pk, Q, F>(
    keys: &Vec<Pk>,
    key: &F,
    Ghost(key_model): Ghost<spec_fn(Pk::V) -> Q::V>,
    Ghost(key_ok): Ghost<spec_fn(Q::V) -> bool>,
) -> (out: Vec<Q>) where Pk: View, Q: View, F: Fn(&Pk) -> Q
    requires
        forall|pk: &Pk| #[trigger] call_requires(key, (pk,)),
        forall|pk: &Pk, q: Q| #[trigger] call_ensures(key, (pk,), q) ==> q@ == key_model(pk@) && key_ok(q@),
    ensures
        out@.len() == keys@.len(),
        forall|j: int| 0 <= j < out@.len() ==> (#[trigger] out@[j])@ == key_model(keys@[j]@),
        forall|j: int| 0 <= j < out@.len() ==> key_ok((#[trigger] out@[j])@),
{
    let mut out: Vec<Q> = Vec::new();
    let mut i: usize = 0;
    while i < keys.len()
        invariant
            i <= keys@.len(),
            out@.len() == i,
            forall|pk: &Pk| #[trigger] call_requires(key, (pk,)),
            forall|pk: &Pk, q: Q| #[trigger] call_ensures(key, (pk,), q) ==> q@ == key_model(pk@) && key_ok(q@),
            forall|j: int| 0 <= j < i ==> (#[trigger] out@[j])@ == key_model(keys@[j]@),
            forall|j: int| 0 <= j < i ==> key_ok((#[trigger] out@[j])@),
        decreases keys@.len() - i,
    {
        out.push(key(&keys[i]));
        i += 1;
    }
    out
}

/// The kind of key that stands in a script from before taproot.
pub open spec fn full_key_model() -> spec_fn(Seq<u8>) -> BitcoinKeyModel {
    |pk: Seq<u8>| BitcoinKeyModel::Fullkey(pk)
}

/// A key hash in a script from before taproot is the hash of a full key.
pub open spec fn full_hash_model() -> spec_fn(Seq<u8>) -> TaggedHash160Model {
    |hash: Seq<u8>| TaggedHash160Model::FullKey(hash)
}

/// The kind of key that stands in a tapscript.
pub open spec fn x_only_key_model() -> spec_fn(Seq<u8>) -> BitcoinKeyModel {
    |pk: Seq<u8>| BitcoinKeyModel::XOnlyPublicKey(pk)
}

/// A key hash in a tapscript is the hash of an x-only key.
pub open spec fn x_only_hash_model() -> spec_fn(Seq<u8>) -> TaggedHash160Model {
    |hash: Seq<u8>| TaggedHash160Model::XonlyKey(hash)
}

/// Turns a miniscript over full keys into one that remembers, for each key and each key hash,
/// that it is of a full key: a signature check has to know whether the key in the witness is
/// to be read as x-only or as full.
pub fn pre_taproot_to_no_checks(ms: &Miniscript<PublicKey, [u8; 20]>) -> (out: Miniscript<
    BitcoinKey,
    TaggedHash160,
>)
    ensures
        out@ == ms@.map_keys(full_key_model(), full_hash_model()),
        out@.all_keys(good_key(), any_hash()),
{
    let key = |pk: &PublicKey| -> (q: BitcoinKey)
        ensures
            q == BitcoinKey::Fullkey(*pk),
            q@.is_key(),
        {
            proof {
                use_type_invariant(pk);
            }
            BitcoinKey::Fullkey(*pk)
        };
    let hash = |pkh: &[u8; 20]| -> (q: TaggedHash160)
        ensures
            q == TaggedHash160::FullKey(*pkh),
        { TaggedHash160::FullKey(*pkh) };
    translate_pk(
        ms,
        &key,
        &hash,
        Ghost(full_key_model()),
        Ghost(full_hash_model()),
        Ghost(good_key()),
    )
}

/// Turns a miniscript over x-only keys into one that remembers, for each key and each key hash,
/// that it is of an x-only key.
pub fn taproot_to_no_checks(ms: &Miniscript<XOnlyPublicKey, [u8; 20]>) -> (out: Miniscript<
    BitcoinKey,
    TaggedHash160,
>)
    ensures
        out@ == ms@.map_keys(x_only_key_model(), x_only_hash_model()),
        out@.all_keys(good_key(), any_hash()),
{
    let key = |pk: &XOnlyPublicKey| -> (q: BitcoinKey)
        ensures
            q == BitcoinKey::XOnlyPublicKey(*pk),
            q@.is_key(),
        {
            proof {
                use_type_invariant(pk);
            }
            BitcoinKey::XOnlyPublicKey(*pk)
        };
    let hash = |pkh: &[u8; 20]| -> (q: TaggedHash160)
        ensures
            q == TaggedHash160::XonlyKey(*pkh),
        { TaggedHash160::XonlyKey(*pkh) };
    translate_pk(
        ms,
        &key,
        &hash,
        Ghost(x_only_key_model()),
        Ghost(x_only_hash_model()),
        Ghost(good_key()),
    )
}

} // verus!
