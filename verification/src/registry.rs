//! The state behind a token source: the callbacks registered while it is live,
//! and its transitions. `None` stands for a canceled source.

use vstd::prelude::*;
use std::sync::Arc;
use std::sync::atomic::AtomicBool;
use slabmap::SlabMap;
use crate::callback::CancelCallback;
use crate::slab::{slab_contains_key, slab_ids, slab_insert, slab_into_entries, slab_new, slab_remove, slab_replace};

verus! {

/// What a live source keeps only to drop it when the source is canceled or released:
/// the registration that links it to its parent.
pub(crate) trait Link: Send + Sync {}

/// A callback as a source holds it, with the flag that its registration raises when it is
/// dropped while the source's lock is held elsewhere: a raised callback is not called.
/// The source that takes it gives it an id, by which the slab's contents are told apart.
pub struct Listener {
    pub(crate) cb: CancelCallback,
    pub(crate) revoked: Arc<AtomicBool>,
    pub(crate) id: u64,
}

impl Listener {
    /// A listener for `cb`, whose id is given when a source takes it.
    pub(crate) fn new(cb: CancelCallback, revoked: Arc<AtomicBool>) -> (r: Listener)
        ensures
            r.cb == cb,
            r.revoked == revoked,
    {
        Listener { cb, revoked, id: 0 }
    }
}

pub(crate) struct Data {
    cbs: SlabMap<Listener>,
    parent: Option<Box<dyn Link>>,
    next_id: u64,
}

/// The model of a source's state: the keys of its registered callbacks while it is live,
/// `None` once it is canceled.
pub(crate) open spec fn state_keys(state: Option<Data>) -> Option<Set<usize>> {
    match state {
        Some(data) => Some(data.keys()),
        None => None,
    }
}

/// The ids of the listeners under the keys of a live state, `None` once it is canceled.
pub(crate) open spec fn state_ids(state: Option<Data>) -> Option<Map<usize, u64>> {
    match state {
        Some(data) => Some(data.ids()),
        None => None,
    }
}

/// The parent link a live state keeps; a canceled state keeps none.
pub(crate) open spec fn state_link(state: Option<Data>) -> Option<Box<dyn Link>> {
    match state {
        Some(data) => data.link(),
        None => None,
    }
}

/// The id that a live state gives the next listener it takes.
pub(crate) open spec fn state_next_id(state: Option<Data>) -> u64 {
    match state {
        Some(data) => data.next_id(),
        None => 0,
    }
}

/// The ids after the listener with `id` is put under `key`.
pub(crate) open spec fn ids_with(ids: Option<Map<usize, u64>>, key: usize, id: u64) -> Option<Map<usize, u64>> {
    match ids {
        Some(m) => Some(m.insert(key, id)),
        None => None,
    }
}

/// The ids after the listener under `key` is taken out.
pub(crate) open spec fn ids_without(ids: Option<Map<usize, u64>>, key: usize) -> Option<Map<usize, u64>> {
    match ids {
        Some(m) => Some(m.remove(key)),
        None => None,
    }
}

/// The state after registering a callback under `key`.
pub open spec fn registered(state: Option<Set<usize>>, key: usize) -> Option<Set<usize>> {
    match state {
        Some(keys) => Some(keys.insert(key)),
        None => None,
    }
}

/// The state after unregistering the callback under `key`.
pub open spec fn unregistered(state: Option<Set<usize>>, key: usize) -> Option<Set<usize>> {
    match state {
        Some(keys) => Some(keys.remove(key)),
        None => None,
    }
}

/// Whether `key` is a key under which a callback of the state is registered.
pub open spec fn holds_key(state: Option<Set<usize>>, key: usize) -> bool {
    match state {
        Some(keys) => keys.contains(key),
        None => false,
    }
}

/// Whether `key` is some key under which a callback of the state is registered.
pub open spec fn kept_key(state: Option<Set<usize>>, key: Option<usize>) -> bool {
    match key {
        Some(k) => holds_key(state, k),
        None => false,
    }
}

/// `entries` holds each key of `keys`, and no other, in increasing key order.
pub open spec fn lists_keys_in_order<V>(entries: Seq<(usize, V)>, keys: Set<usize>) -> bool {
    &&& forall|i: int, j: int| 0 <= i < j < entries.len() ==> entries[i].0 < entries[j].0
    &&& forall|k: usize| keys.contains(k) <==> exists|i: int| 0 <= i < entries.len() && entries[i].0 == k
}

impl Data {
    /// Every key a slab hands out is less than `usize::MAX`.
    #[verifier::type_invariant]
    spec fn keys_bounded(self) -> bool {
        forall|k: usize| slab_ids(self.cbs).dom().contains(k) ==> k < usize::MAX
    }

    pub(crate) closed spec fn ids(self) -> Map<usize, u64> {
        slab_ids(self.cbs)
    }

    pub(crate) closed spec fn keys(self) -> Set<usize> {
        slab_ids(self.cbs).dom()
    }

    pub(crate) closed spec fn next_id(self) -> u64 {
        self.next_id
    }

    pub(crate) closed spec fn link(self) -> Option<Box<dyn Link>> {
        self.parent
    }

    pub(crate) fn new(parent: Option<Box<dyn Link>>) -> (data: Data)
        ensures
            data.keys() == Set::<usize>::empty(),
            data.link() == parent,
    {
        let cbs = slab_new();
        proof {
            assert(slab_ids(cbs).dom() =~= Set::<usize>::empty());
        }
        Data { cbs, parent, next_id: 0 }
    }

    /// The data with `cb` registered under a fresh key, with the next id, and that key.
    fn with_inserted(self, cb: Listener) -> (r: (Data, usize))
        ensures
            !self.keys().contains(r.1),
            r.0.keys() == self.keys().insert(r.1),
            r.0.ids() == self.ids().insert(r.1, self.next_id()),
            r.0.link() == self.link(),
    {
        proof {
            use_type_invariant(&self);
        }
        let Data { cbs, parent, next_id } = self;
        let mut cb = cb;
        cb.id = next_id;
        let mut cbs = cbs;
        let key = slab_insert(&mut cbs, cb);
        (Data { cbs, parent, next_id: next_id.wrapping_add(1) }, key)
    }

    /// The data with `cb`, given the next id, in place of the callback under `key`, and the
    /// callback it displaced.
    fn with_replaced(self, key: usize, cb: Listener) -> (r: (Data, Listener))
        requires
            self.keys().contains(key),
        ensures
            r.0.keys() == self.keys(),
            r.0.ids() == self.ids().insert(key, self.next_id()),
            r.1.id == self.ids()[key],
            r.0.link() == self.link(),
    {
        proof {
            use_type_invariant(&self);
        }
        let Data { cbs, parent, next_id } = self;
        let mut cb = cb;
        cb.id = next_id;
        let mut cbs = cbs;
        let displaced = slab_replace(&mut cbs, key, cb);
        proof {
            assert(slab_ids(cbs).dom() =~= slab_ids(self.cbs).dom());
        }
        (Data { cbs, parent, next_id: next_id.wrapping_add(1) }, displaced)
    }

    /// The data with `link` as its parent link, and the link it held before.
    fn relinked(self, link: Box<dyn Link>) -> (r: (Data, Option<Box<dyn Link>>))
        ensures
            r.0.keys() == self.keys(),
            r.0.ids() == self.ids(),
            r.0.link() is Some,
            r.1 == self.link(),
    {
        proof {
            use_type_invariant(&self);
        }
        let Data { cbs, parent, next_id } = self;
        (Data { cbs, parent: Some(link), next_id }, parent)
    }

    /// The registered callbacks with their keys, in increasing key order, and the parent link.
    pub(crate) fn into_parts(self) -> (parts: (Vec<(usize, Listener)>, Option<Box<dyn Link>>))
        ensures
            parts.1 == self.link(),
            lists_keys_in_order(parts.0@, self.keys()),
            forall|i: int| 0 <= i < parts.0@.len() ==> parts.0@[i].1.id == self.ids()[parts.0@[i].0],
    {
        proof {
            use_type_invariant(&self);
        }
        let Data { cbs, parent, next_id: _ } = self;
        (slab_into_entries(cbs), parent)
    }
}

/// Registers `cb` in a live state under a fresh key; a canceled state is left as it is
/// and `cb` comes back, to be called at once.
pub(crate) fn register(state: &mut Option<Data>, cb: Listener) -> (r: Result<usize, Listener>)
    ensures
        match r {
            Ok(key) => state_keys(*old(state)) is Some
                && !holds_key(state_keys(*old(state)), key)
                && state_keys(*final(state)) == registered(state_keys(*old(state)), key)
                && state_ids(*final(state)) == ids_with(state_ids(*old(state)), key, state_next_id(*old(state)))
                && state_link(*final(state)) == state_link(*old(state)),
            Err(back) => state_keys(*old(state)) is None && back == cb && *final(state) == *old(state),
        },
{
    match state.take() {
        Some(data) => {
            let (data, key) = data.with_inserted(cb);
            *state = Some(data);
            Ok(key)
        },
        None => Err(cb),
    }
}

/// Unregisters the callback under `key`; it comes back when it was registered.
pub(crate) fn unregister(state: &mut Option<Data>, key: usize) -> (r: Option<Listener>)
    ensures
        r is Some <==> holds_key(state_keys(*old(state)), key),
        r matches Some(l) ==> state_ids(*old(state)) matches Some(ids) && l.id == ids[key],
        state_keys(*final(state)) == unregistered(state_keys(*old(state)), key),
        state_ids(*final(state)) == ids_without(state_ids(*old(state)), key),
        state_link(*final(state)) == state_link(*old(state)),
    opens_invariants none
    no_unwind
{
    match state {
        Some(data) => {
            proof {
                use_type_invariant(&*data);
            }
            if key == usize::MAX {
                None
            } else {
                slab_remove(&mut data.cbs, key)
            }
        },
        None => None,
    }
}

/// Whether the state is canceled.
pub(crate) fn is_canceled(state: &Option<Data>) -> (r: bool)
    ensures
        r == (state_keys(*state) is None),
{
    state.is_none()
}

/// Cancels the state; what it held while live comes back.
pub(crate) fn cancel(state: &mut Option<Data>) -> (r: Option<Data>)
    ensures
        state_keys(*final(state)) is None,
        r == *old(state),
{
    state.take()
}

/// Puts the waker callback `cb` under `key` when that key is still registered, or else under a
/// fresh key; the key that holds it and the callback it displaced come back. A canceled state
/// is left as it is and `cb` comes back.
pub(crate) fn set_waker(state: &mut Option<Data>, key: Option<usize>, cb: Listener) -> (r: Result<(usize, Option<Listener>), Listener>)
    ensures
        match r {
            Ok((k, displaced)) => {
                &&& state_keys(*old(state)) is Some
                &&& state_keys(*final(state)) == registered(state_keys(*old(state)), k)
                &&& state_ids(*final(state)) == ids_with(state_ids(*old(state)), k, state_next_id(*old(state)))
                &&& state_link(*final(state)) == state_link(*old(state))
                &&& (displaced matches Some(d) ==> state_ids(*old(state)) matches Some(ids) && d.id == ids[k])
                &&& if kept_key(state_keys(*old(state)), key) {
                    key == Some(k) && displaced is Some
                } else {
                    !holds_key(state_keys(*old(state)), k) && displaced is None
                }
            },
            Err(back) => state_keys(*old(state)) is None && back == cb && *final(state) == *old(state),
        },
{
    match state.take() {
        Some(data) => {
            match key {
                Some(k) => {
                    if slab_contains_key(&data.cbs, k) {
                        let (data, displaced) = data.with_replaced(k, cb);
                        proof { assert(data.keys() =~= data.keys().insert(k)); }
                        *state = Some(data);
                        return Ok((k, Some(displaced)));
                    }
                },
                None => {},
            }
            let (data, k) = data.with_inserted(cb);
            *state = Some(data);
            Ok((k, None))
        },
        None => Err(cb),
    }
}

/// Gives a live state its parent link; a canceled state is left as it is and the link comes back,
/// to be released.
pub(crate) fn set_parent(state: &mut Option<Data>, link: Box<dyn Link>) -> (r: Option<Box<dyn Link>>)
    ensures
        state_keys(*final(state)) == state_keys(*old(state)),
        state_ids(*final(state)) == state_ids(*old(state)),
        match *old(state) {
            Some(data) => r == data.link() && (*final(state) matches Some(after) && after.link() is Some),
            None => r == Some(link) && *final(state) is None,
        },
{
    match state.take() {
        Some(data) => {
            let (data, previous) = data.relinked(link);
            *state = Some(data);
            previous
        },
        None => {
            let back = Some(link);
            back
        },
    }
}

} // verus!
