//! The slab of registered listeners: `slabmap::SlabMap`, seen as the map from each occupied
//! key to the id of the listener it holds.

use vstd::prelude::*;
use slabmap::SlabMap;
use crate::registry::Listener;

verus! {

#[verifier::external_type_specification]
#[verifier::external_body]
#[verifier::reject_recursive_types(T)]
pub struct ExSlabMap<T>(SlabMap<T>);

/// What a slab of listeners holds: each occupied key, with the id of the listener under it.
pub uninterp spec fn slab_ids(slab: SlabMap<Listener>) -> Map<usize, u64>;

/// `SlabMap::new`: a slab with no occupied key.
#[verifier::external_body]
pub(crate) fn slab_new() -> (slab: SlabMap<Listener>)
    ensures
        slab_ids(slab).is_empty(),
{
    SlabMap::new()
}

/// `SlabMap::insert`: stores the value under a key that was vacant and returns that key.
/// The key is an index of the slab's entry vector, so less than `usize::MAX`.
/// As with `Vec::push`, running out of memory is not modeled.
#[verifier::external_body]
pub(crate) fn slab_insert(slab: &mut SlabMap<Listener>, value: Listener) -> (key: usize)
    ensures
        key < usize::MAX,
        !slab_ids(*old(slab)).dom().contains(key),
        slab_ids(*final(slab)) == slab_ids(*old(slab)).insert(key, value.id),
{
    slab.insert(value)
}

/// `SlabMap::remove`: vacates the key and hands back its value when the key was occupied;
/// otherwise the slab is left as it was and `None` comes back. It computes `key + 1`, so the
/// key must be less than `usize::MAX`.
#[verifier::external_body]
pub(crate) fn slab_remove(slab: &mut SlabMap<Listener>, key: usize) -> (value: Option<Listener>)
    requires
        key < usize::MAX,
    ensures
        value is Some <==> slab_ids(*old(slab)).dom().contains(key),
        value matches Some(v) ==> v.id == slab_ids(*old(slab))[key],
        slab_ids(*final(slab)) == slab_ids(*old(slab)).remove(key),
    opens_invariants none
    no_unwind
{
    slab.remove(key)
}

/// `SlabMap::contains_key`: whether the key is occupied.
#[verifier::external_body]
pub(crate) fn slab_contains_key(slab: &SlabMap<Listener>, key: usize) -> (b: bool)
    ensures
        b == slab_ids(*slab).dom().contains(key),
{
    slab.contains_key(key)
}

/// Assignment through `SlabMap`'s `IndexMut` at an occupied key: the key now holds the new
/// value, and the value it held before comes back.
#[verifier::external_body]
pub(crate) fn slab_replace(slab: &mut SlabMap<Listener>, key: usize, value: Listener) -> (previous: Listener)
    requires
        slab_ids(*old(slab)).dom().contains(key),
    ensures
        previous.id == slab_ids(*old(slab))[key],
        slab_ids(*final(slab)) == slab_ids(*old(slab)).insert(key, value.id),
{
    std::mem::replace(&mut slab[key], value)
}

/// `SlabMap::into_iter`, collected: every occupied key with its value, in increasing key order.
#[verifier::external_body]
pub(crate) fn slab_into_entries(slab: SlabMap<Listener>) -> (entries: Vec<(usize, Listener)>)
    ensures
        forall|i: int, j: int| 0 <= i < j < entries@.len() ==> entries@[i].0 < entries@[j].0,
        forall|k: usize| slab_ids(slab).dom().contains(k) <==> exists|i: int| 0 <= i < entries@.len() && entries@[i].0 == k,
        forall|i: int| 0 <= i < entries@.len() ==> entries@[i].1.id == slab_ids(slab)[entries@[i].0],
{
    slab.into_iter().collect()
}

} // verus!
