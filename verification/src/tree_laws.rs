//! What holds of trees whose keys are replaced.
use vstd::prelude::*;

use crate::keys::{BitcoinKeyModel, TaggedHash160Model};
use crate::miniscript::{
    full_hash_model, full_key_model, x_only_hash_model, x_only_key_model, Tree,
};

verus! {

/// Replacing the keys of a tree makes hold of every key what holds of every replacement.
pub proof fn law_replaced_keys<Pk, Pkh, Q, Qkh>(
    tree: Tree<Pk, Pkh>,
    key: spec_fn(Pk) -> Q,
    hash: spec_fn(Pkh) -> Qkh,
    key_ok: spec_fn(Q) -> bool,
    hash_ok: spec_fn(Qkh) -> bool,
)
    requires
        forall|pk: Pk| key_ok(#[trigger] key(pk)),
        forall|h: Pkh| hash_ok(#[trigger] hash(h)),
    ensures
        tree.map_keys(key, hash).all_keys(key_ok, hash_ok),
    decreases tree,
{
    match tree {
        Tree::Alt(x) => {
            law_replaced_keys(*x, key, hash, key_ok, hash_ok);
        },
        Tree::Swap(x) => {
            law_replaced_keys(*x, key, hash, key_ok, hash_ok);
        },
        Tree::Check(x) => {
            law_replaced_keys(*x, key, hash, key_ok, hash_ok);
        },
        Tree::DupIf(x) => {
            law_replaced_keys(*x, key, hash, key_ok, hash_ok);
        },
        Tree::Verify(x) => {
            law_replaced_keys(*x, key, hash, key_ok, hash_ok);
        },
        Tree::NonZero(x) => {
            law_replaced_keys(*x, key, hash, key_ok, hash_ok);
        },
        Tree::ZeroNotEqual(x) => {
            law_replaced_keys(*x, key, hash, key_ok, hash_ok);
        },
        Tree::AndV(x, y) => {
            law_replaced_keys(*x, key, hash, key_ok, hash_ok);
            law_replaced_keys(*y, key, hash, key_ok, hash_ok);
        },
        Tree::AndB(x, y) => {
            law_replaced_keys(*x, key, hash, key_ok, hash_ok);
            law_replaced_keys(*y, key, hash, key_ok, hash_ok);
        },
        Tree::AndOr(x, y, z) => {
            law_replaced_keys(*x, key, hash, key_ok, hash_ok);
            law_replaced_keys(*y, key, hash, key_ok, hash_ok);
            law_replaced_keys(*z, key, hash, key_ok, hash_ok);
        },
        Tree::OrB(x, y) => {
            law_replaced_keys(*x, key, hash, key_ok, hash_ok);
            law_replaced_keys(*y, key, hash, key_ok, hash_ok);
        },
        Tree::OrD(x, y) => {
            law_replaced_keys(*x, key, hash, key_ok, hash_ok);
            law_replaced_keys(*y, key, hash, key_ok, hash_ok);
        },
        Tree::OrC(x, y) => {
            law_replaced_keys(*x, key, hash, key_ok, hash_ok);
            law_replaced_keys(*y, key, hash, key_ok, hash_ok);
        },
        Tree::OrI(x, y) => {
            law_replaced_keys(*x, key, hash, key_ok, hash_ok);
            law_replaced_keys(*y, key, hash, key_ok, hash_ok);
        },
        Tree::Thresh(k, subs) => {
            let mapped = tree.map_keys(key, hash)->Thresh_1;
            assert forall|i: int| 0 <= i < mapped.len() implies (#[trigger] mapped[i]).all_keys(
                key_ok,
                hash_ok,
            ) by {
                law_replaced_keys(subs[i], key, hash, key_ok, hash_ok);
            }
        },
        _ => {},
    }
}

/// Replacing the keys of a tree twice is replacing them once by what the second replacement makes
/// of the first.
pub proof fn law_replacing_composes<A, Akh, B, Bkh, C, Ckh>(
    tree: Tree<A, Akh>,
    key: spec_fn(A) -> B,
    hash: spec_fn(Akh) -> Bkh,
    key2: spec_fn(B) -> C,
    hash2: spec_fn(Bkh) -> Ckh,
)
    ensures
        tree.map_keys(key, hash).map_keys(key2, hash2) == tree.map_keys(
            |a: A| key2(key(a)),
            |a: Akh| hash2(hash(a)),
        ),
    decreases tree,
{
    let key12 = |a: A| key2(key(a));
    let hash12 = |a: Akh| hash2(hash(a));
    match tree {
        Tree::Alt(x) => {
            law_replacing_composes(*x, key, hash, key2, hash2);
        },
        Tree::Swap(x) => {
            law_replacing_composes(*x, key, hash, key2, hash2);
        },
        Tree::Check(x) => {
            law_replacing_composes(*x, key, hash, key2, hash2);
        },
        Tree::DupIf(x) => {
            law_replacing_composes(*x, key, hash, key2, hash2);
        },
        Tree::Verify(x) => {
            law_replacing_composes(*x, key, hash, key2, hash2);
        },
        Tree::NonZero(x) => {
            law_replacing_composes(*x, key, hash, key2, hash2);
        },
        Tree::ZeroNotEqual(x) => {
            law_replacing_composes(*x, key, hash, key2, hash2);
        },
        Tree::AndV(x, y) => {
            law_replacing_composes(*x, key, hash, key2, hash2);
            law_replacing_composes(*y, key, hash, key2, hash2);
        },
        Tree::AndB(x, y) => {
            law_replacing_composes(*x, key, hash, key2, hash2);
            law_replacing_composes(*y, key, hash, key2, hash2);
        },
        Tree::AndOr(x, y, z) => {
            law_replacing_composes(*x, key, hash, key2, hash2);
            law_replacing_composes(*y, key, hash, key2, hash2);
            law_replacing_composes(*z, key, hash, key2, hash2);
        },
        Tree::OrB(x, y) => {
            law_replacing_composes(*x, key, hash, key2, hash2);
            law_replacing_composes(*y, key, hash, key2, hash2);
        },
        Tree::OrD(x, y) => {
            law_replacing_composes(*x, key, hash, key2, hash2);
            law_replacing_composes(*y, key, hash, key2, hash2);
        },
        Tree::OrC(x, y) => {
            law_replacing_composes(*x, key, hash, key2, hash2);
            law_replacing_composes(*y, key, hash, key2, hash2);
        },
        Tree::OrI(x, y) => {
            law_replacing_composes(*x, key, hash, key2, hash2);
            law_replacing_composes(*y, key, hash, key2, hash2);
        },
        Tree::Thresh(k, subs) => {
            let twice = tree.map_keys(key, hash).map_keys(key2, hash2)->Thresh_1;
            let once = tree.map_keys(key12, hash12)->Thresh_1;
            assert forall|i: int| 0 <= i < subs.len() implies twice[i] == once[i] by {
                law_replacing_composes(subs[i], key, hash, key2, hash2);
            }
            assert(twice =~= once);
        },
        Tree::Multi(k, keys) => {
            assert(keys.map_values(key).map_values(key2) =~= keys.map_values(key12));
        },
        Tree::MultiA(k, keys) => {
            assert(keys.map_values(key).map_values(key2) =~= keys.map_values(key12));
        },
        _ => {},
    }
}

/// Replacing each key and each key hash by itself changes nothing.
pub proof fn law_replacing_by_itself<Pk, Pkh>(
    tree: Tree<Pk, Pkh>,
    key: spec_fn(Pk) -> Pk,
    hash: spec_fn(Pkh) -> Pkh,
)
    requires
        forall|pk: Pk| #[trigger] key(pk) == pk,
        forall|h: Pkh| #[trigger] hash(h) == h,
    ensures
        tree.map_keys(key, hash) == tree,
    decreases tree,
{
    match tree {
        Tree::Alt(x) => {
            law_replacing_by_itself(*x, key, hash);
        },
        Tree::Swap(x) => {
            law_replacing_by_itself(*x, key, hash);
        },
        Tree::Check(x) => {
            law_replacing_by_itself(*x, key, hash);
        },
        Tree::DupIf(x) => {
            law_replacing_by_itself(*x, key, hash);
        },
        Tree::Verify(x) => {
            law_replacing_by_itself(*x, key, hash);
        },
        Tree::NonZero(x) => {
            law_replacing_by_itself(*x, key, hash);
        },
        Tree::ZeroNotEqual(x) => {
            law_replacing_by_itself(*x, key, hash);
        },
        Tree::AndV(x, y) => {
            law_replacing_by_itself(*x, key, hash);
            law_replacing_by_itself(*y, key, hash);
        },
        Tree::AndB(x, y) => {
            law_replacing_by_itself(*x, key, hash);
            law_replacing_by_itself(*y, key, hash);
        },
        Tree::AndOr(x, y, z) => {
            law_replacing_by_itself(*x, key, hash);
            law_replacing_by_itself(*y, key, hash);
            law_replacing_by_itself(*z, key, hash);
        },
        Tree::OrB(x, y) => {
            law_replacing_by_itself(*x, key, hash);
            law_replacing_by_itself(*y, key, hash);
        },
        Tree::OrD(x, y) => {
            law_replacing_by_itself(*x, key, hash);
            law_replacing_by_itself(*y, key, hash);
        },
        Tree::OrC(x, y) => {
            law_replacing_by_itself(*x, key, hash);
            law_replacing_by_itself(*y, key, hash);
        },
        Tree::OrI(x, y) => {
            law_replacing_by_itself(*x, key, hash);
            law_replacing_by_itself(*y, key, hash);
        },
        Tree::Thresh(k, subs) => {
            let mapped = tree.map_keys(key, hash)->Thresh_1;
            assert forall|i: int| 0 <= i < subs.len() implies mapped[i] == subs[i] by {
                law_replacing_by_itself(subs[i], key, hash);
            }
            assert(mapped =~= subs);
        },
        Tree::Multi(k, keys) => {
            assert(keys.map_values(key) =~= keys);
        },
        Tree::MultiA(k, keys) => {
            assert(keys.map_values(key) =~= keys);
        },
        _ => {},
    }
}

/// The key without the mark of its kind.
pub open spec fn unmarked_key() -> spec_fn(BitcoinKeyModel) -> Seq<u8> {
    |key: BitcoinKeyModel|
        match key {
            BitcoinKeyModel::Fullkey(pk) => pk,
            BitcoinKeyModel::XOnlyPublicKey(pk) => pk,
        }
}

/// The key hash without the mark of its kind.
pub open spec fn unmarked_hash() -> spec_fn(TaggedHash160Model) -> Seq<u8> {
    |hash: TaggedHash160Model|
        match hash {
            TaggedHash160Model::XonlyKey(h) => h,
            TaggedHash160Model::FullKey(h) => h,
        }
}

/// Marking the keys of a tree loses nothing: taking the marks off again gives the tree back,
/// whichever of the two marks was set. So two trees that are marked alike and come out equal were
/// equal before.
pub proof fn law_marks_come_off(tree: Tree<Seq<u8>, Seq<u8>>)
    ensures
        tree.map_keys(full_key_model(), full_hash_model()).map_keys(
            unmarked_key(),
            unmarked_hash(),
        ) == tree,
        tree.map_keys(x_only_key_model(), x_only_hash_model()).map_keys(
            unmarked_key(),
            unmarked_hash(),
        ) == tree,
{
    law_replacing_composes(
        tree,
        full_key_model(),
        full_hash_model(),
        unmarked_key(),
        unmarked_hash(),
    );
    law_replacing_by_itself(
        tree,
        |a: Seq<u8>| unmarked_key()(full_key_model()(a)),
        |a: Seq<u8>| unmarked_hash()(full_hash_model()(a)),
    );
    law_replacing_composes(
        tree,
        x_only_key_model(),
        x_only_hash_model(),
        unmarked_key(),
        unmarked_hash(),
    );
    law_replacing_by_itself(
        tree,
        |a: Seq<u8>| unmarked_key()(x_only_key_model()(a)),
        |a: Seq<u8>| unmarked_hash()(x_only_hash_model()(a)),
    );
}

/// Whether every key and every key hash is marked as full.
pub open spec fn all_full(tree: Tree<BitcoinKeyModel, TaggedHash160Model>) -> bool {
    tree.all_keys(
        |key: BitcoinKeyModel| key is Fullkey,
        |hash: TaggedHash160Model| hash is FullKey,
    )
}

/// Whether every key and every key hash is marked as x-only.
pub open spec fn all_x_only(tree: Tree<BitcoinKeyModel, TaggedHash160Model>) -> bool {
    tree.all_keys(
        |key: BitcoinKeyModel| key is XOnlyPublicKey,
        |hash: TaggedHash160Model| hash is XonlyKey,
    )
}

/// Translating a script from before taproot marks all its keys as full, and translating a taproot
/// script marks all its keys as x-only.
pub proof fn law_marks_tell_the_kind(tree: Tree<Seq<u8>, Seq<u8>>)
    ensures
        all_full(tree.map_keys(full_key_model(), full_hash_model())),
        all_x_only(tree.map_keys(x_only_key_model(), x_only_hash_model())),
{
    law_replaced_keys(
        tree,
        full_key_model(),
        full_hash_model(),
        |key: BitcoinKeyModel| key is Fullkey,
        |hash: TaggedHash160Model| hash is FullKey,
    );
    law_replaced_keys(
        tree,
        x_only_key_model(),
        x_only_hash_model(),
        |key: BitcoinKeyModel| key is XOnlyPublicKey,
        |hash: TaggedHash160Model| hash is XonlyKey,
    );
}

} // verus!
