//! Laws of a source's state machine, over the model that the transitions' contracts use:
//! `Some(keys)` for a live source holding callbacks under `keys`, `None` for a canceled one.

use vstd::prelude::*;
use crate::registry::{holds_key, kept_key, lists_keys_in_order, registered, unregistered};

verus! {

/// A canceled source stays canceled: registering or unregistering leaves it canceled
/// and holding no key.
pub proof fn lemma_canceled_is_final(key: usize)
    ensures
        registered(None, key) is None,
        unregistered(None, key) is None,
        !holds_key(None, key),
{
}

/// Unregistering the key that a registration just took undoes the registration.
pub proof fn lemma_unregister_undoes_register(state: Option<Set<usize>>, key: usize)
    requires
        !holds_key(state, key),
    ensures
        unregistered(registered(state, key), key) == state,
{
    match state {
        Some(keys) => {
            assert(keys.insert(key).remove(key) =~= keys);
        },
        None => {},
    }
}

/// After a registration on a live source, the new key is held, and every other key is held
/// exactly when it was held before.
pub proof fn lemma_register_holds_only_new_key(state: Option<Set<usize>>, key: usize, other: usize)
    requires
        state is Some,
    ensures
        holds_key(registered(state, key), key),
        other != key ==> holds_key(registered(state, key), other) == holds_key(state, other),
{
}

/// Unregistering a key releases that key and no other.
pub proof fn lemma_unregister_releases_only_its_key(state: Option<Set<usize>>, key: usize, other: usize)
    ensures
        !holds_key(unregistered(state, key), key),
        other != key ==> holds_key(unregistered(state, key), other) == holds_key(state, other),
{
}

/// Setting a waker again under the key it is registered under leaves the held keys as they are.
pub proof fn lemma_waker_reset_keeps_keys(state: Option<Set<usize>>, key: usize)
    requires
        kept_key(state, Some(key)),
    ensures
        registered(state, key) == state,
{
    match state {
        Some(keys) => {
            assert(keys.insert(key) =~= keys);
        },
        None => {},
    }
}

/// When a source is canceled, each callback registered under a key is handed out to be called
/// exactly once: its key is listed, and at one place only.
pub proof fn lemma_each_key_handed_out_once<V>(entries: Seq<(usize, V)>, keys: Set<usize>, key: usize)
    requires
        lists_keys_in_order(entries, keys),
        keys.contains(key),
    ensures
        exists|i: int| 0 <= i < entries.len() && entries[i].0 == key,
        forall|i: int, j: int|
            0 <= i < entries.len() && 0 <= j < entries.len() && entries[i].0 == key && entries[j].0 == key
            ==> i == j,
{
    assert forall|i: int, j: int|
        0 <= i < entries.len() && 0 <= j < entries.len() && entries[i].0 == key && entries[j].0 == key
        implies i == j by {
        if i < j {
            assert(entries[i].0 < entries[j].0);
        } else if j < i {
            assert(entries[j].0 < entries[i].0);
        }
    }
}

} // verus!
