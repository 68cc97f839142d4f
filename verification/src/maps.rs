//! Transformation support for the hash-keyed and the order-keyed mapping:
//! the reshaping calls stand behind trusted wrappers whose contracts say,
//! over the maps' views, what iterating and rebuilding do with the
//! transformed pairs.
//!
//! The views of std's maps are meaningful only for key types that obey the
//! models vstd states its own map specifications under — the hash key model
//! for `HashMap`, the comparison model for `BTreeMap` — so each relation
//! below speaks under those conditions on the subject's and the result's key
//! types. Under them the relations say, in both directions, which entries the
//! result holds: every result entry is the transform of some subject entry,
//! and every subject key has a transformed image among the result's keys.
//! Nothing is promised about which of two entries survives when two
//! transformed keys collide, and no iteration order is named.

use vstd::prelude::*;
use vstd::std_specs::btree::key_obeys_cmp_spec;
use vstd::std_specs::hash::obeys_key_model;
use core::hash::Hash;
use std::collections::{BTreeMap, HashMap};
use crate::makeowned::MakeOwned;
use crate::shallowclone::ShallowClone;

verus! {

/// Under the hash key models of both key types: every entry of the detached
/// map is the detachment of some entry of the subject, every subject key has
/// a detached image among the result's keys, and an empty subject gives an
/// empty result.
pub open spec fn hash_map_owned_rel<K: MakeOwned, V: MakeOwned>(
    m: HashMap<K, V>,
    o: HashMap<K::Owned, V::Owned>,
) -> bool {
    obeys_key_model::<K>() && obeys_key_model::<K::Owned>() ==> ({
        &&& forall|k2: K::Owned| #[trigger]
            o@.dom().contains(k2) ==> exists|k: K|
                m@.dom().contains(k) && k.owned_rel(k2) && m@[k].owned_rel(o@[k2])
        &&& forall|k: K| #[trigger]
            m@.dom().contains(k) ==> exists|k2: K::Owned| o@.dom().contains(k2) && k.owned_rel(k2)
        &&& (m@.dom() == Set::<K>::empty() ==> o@.dom() == Set::<K::Owned>::empty())
    })
}

/// Under the hash key models of both key types: every entry of the view is
/// the shallow view of some entry of the subject, every subject key has a
/// viewed image among the result's keys, and an empty subject gives an empty
/// result.
pub open spec fn hash_map_shallow_rel<'a, K: ShallowClone<'a>, V: ShallowClone<'a>>(
    m: &'a HashMap<K, V>,
    t: HashMap<K::Target, V::Target>,
) -> bool {
    obeys_key_model::<K>() && obeys_key_model::<K::Target>() ==> ({
        &&& forall|k2: K::Target| #[trigger]
            t@.dom().contains(k2) ==> exists|k: K|
                m@.dom().contains(k) && k.shallow_rel(&k2) && m@[k].shallow_rel(&t@[k2])
        &&& forall|k: K| #[trigger]
            m@.dom().contains(k) ==> exists|k2: K::Target|
                t@.dom().contains(k2) && k.shallow_rel(&k2)
        &&& (m@.dom() == Set::<K>::empty() ==> t@.dom() == Set::<K::Target>::empty())
    })
}

/// Under the comparison models of both key types: every entry of the detached
/// map is the detachment of some entry of the subject, every subject key has
/// a detached image among the result's keys, and an empty subject gives an
/// empty result.
pub open spec fn btree_map_owned_rel<K: MakeOwned, V: MakeOwned>(
    m: BTreeMap<K, V>,
    o: BTreeMap<K::Owned, V::Owned>,
) -> bool {
    key_obeys_cmp_spec::<K>() && key_obeys_cmp_spec::<K::Owned>() ==> ({
        &&& forall|k2: K::Owned| #[trigger]
            o@.dom().contains(k2) ==> exists|k: K|
                m@.dom().contains(k) && k.owned_rel(k2) && m@[k].owned_rel(o@[k2])
        &&& forall|k: K| #[trigger]
            m@.dom().contains(k) ==> exists|k2: K::Owned| o@.dom().contains(k2) && k.owned_rel(k2)
        &&& (m@.dom() == Set::<K>::empty() ==> o@.dom() == Set::<K::Owned>::empty())
    })
}

/// Under the comparison models of both key types: every entry of the view is
/// the shallow view of some entry of the subject, every subject key has a
/// viewed image among the result's keys, and an empty subject gives an empty
/// result.
pub open spec fn btree_map_shallow_rel<'a, K: ShallowClone<'a>, V: ShallowClone<'a>>(
    m: &'a BTreeMap<K, V>,
    t: BTreeMap<K::Target, V::Target>,
) -> bool {
    key_obeys_cmp_spec::<K>() && key_obeys_cmp_spec::<K::Target>() ==> ({
        &&& forall|k2: K::Target| #[trigger]
            t@.dom().contains(k2) ==> exists|k: K|
                m@.dom().contains(k) && k.shallow_rel(&k2) && m@[k].shallow_rel(&t@[k2])
        &&& forall|k: K| #[trigger]
            m@.dom().contains(k) ==> exists|k2: K::Target|
                t@.dom().contains(k2) && k.shallow_rel(&k2)
        &&& (m@.dom() == Set::<K>::empty() ==> t@.dom() == Set::<K::Target>::empty())
    })
}

/// Relies on std's HashMap::into_iter, which yields every entry exactly once,
/// and on FromIterator, which inserts each transformed pair (keeping, on a
/// key collision, the first key and the last value — both of them transforms
/// of subject entries). Under the key models that makes the result relate to
/// the subject exactly as `hash_map_owned_rel` says, in both directions.
#[verifier::external_body]
fn hash_map_make_owned<K: MakeOwned, V: MakeOwned>(m: HashMap<K, V>) -> (r: HashMap<
    K::Owned,
    V::Owned,
>) where K::Owned: Eq + Hash
    ensures
        hash_map_owned_rel(m, r),
{
    m.into_iter().map(|(k, v)| (k.make_owned(), v.make_owned())).collect()
}

/// Relies on std's HashMap::iter, which yields every entry exactly once, and
/// on FromIterator: under the key models the result relates to the subject
/// exactly as `hash_map_shallow_rel` says, in both directions.
#[verifier::external_body]
fn hash_map_shallow_clone<'a, K: ShallowClone<'a>, V: ShallowClone<'a>>(
    m: &'a HashMap<K, V>,
) -> (r: HashMap<K::Target, V::Target>) where K::Target: Eq + Hash
    ensures
        hash_map_shallow_rel(m, r),
{
    m.iter().map(|(k, v)| (k.shallow_clone(), v.shallow_clone())).collect()
}

/// Relies on std's BTreeMap::into_iter, which yields every entry exactly
/// once, and on FromIterator, which inserts each transformed pair: under the
/// comparison models the result relates to the subject exactly as
/// `btree_map_owned_rel` says, in both directions.
#[verifier::external_body]
fn btree_map_make_owned<K: MakeOwned, V: MakeOwned>(m: BTreeMap<K, V>) -> (r: BTreeMap<
    K::Owned,
    V::Owned,
>) where K::Owned: Eq + Ord
    ensures
        btree_map_owned_rel(m, r),
{
    m.into_iter().map(|(k, v)| (k.make_owned(), v.make_owned())).collect()
}

/// Relies on std's BTreeMap::iter, which yields every entry exactly once, and
/// on FromIterator: under the comparison models the result relates to the
/// subject exactly as `btree_map_shallow_rel` says, in both directions.
#[verifier::external_body]
fn btree_map_shallow_clone<'a, K: ShallowClone<'a>, V: ShallowClone<'a>>(
    m: &'a BTreeMap<K, V>,
) -> (r: BTreeMap<K::Target, V::Target>) where K::Target: Eq + Ord
    ensures
        btree_map_shallow_rel(m, r),
{
    m.iter().map(|(k, v)| (k.shallow_clone(), v.shallow_clone())).collect()
}

impl<K: MakeOwned, V: MakeOwned> MakeOwned for HashMap<K, V> where K::Owned: Eq + Hash {
    type Owned = HashMap<K::Owned, V::Owned>;

    open spec fn owned_rel(self, o: HashMap<K::Owned, V::Owned>) -> bool {
        hash_map_owned_rel(self, o)
    }

    fn make_owned(self) -> (o: HashMap<K::Owned, V::Owned>) {
        hash_map_make_owned(self)
    }
}

impl<'a, K: ShallowClone<'a>, V: ShallowClone<'a>> ShallowClone<'a> for HashMap<K, V> where K::Target: Eq + Hash {
    type Target = HashMap<K::Target, V::Target>;

    open spec fn shallow_rel(&'a self, t: &HashMap<K::Target, V::Target>) -> bool {
        hash_map_shallow_rel(self, *t)
    }

    fn shallow_clone(&'a self) -> (t: HashMap<K::Target, V::Target>) {
        hash_map_shallow_clone(self)
    }
}

impl<K: MakeOwned, V: MakeOwned> MakeOwned for BTreeMap<K, V> where K::Owned: Eq + Ord {
    type Owned = BTreeMap<K::Owned, V::Owned>;

    open spec fn owned_rel(self, o: BTreeMap<K::Owned, V::Owned>) -> bool {
        btree_map_owned_rel(self, o)
    }

    fn make_owned(self) -> (o: BTreeMap<K::Owned, V::Owned>) {
        btree_map_make_owned(self)
    }
}

impl<'a, K: ShallowClone<'a>, V: ShallowClone<'a>> ShallowClone<'a> for BTreeMap<K, V> where K::Target: Eq + Ord {
    type Target = BTreeMap<K::Target, V::Target>;

    open spec fn shallow_rel(&'a self, t: &BTreeMap<K::Target, V::Target>) -> bool {
        btree_map_shallow_rel(self, *t)
    }

    fn shallow_clone(&'a self) -> (t: BTreeMap<K::Target, V::Target>) {
        btree_map_shallow_clone(self)
    }
}

} // verus!
