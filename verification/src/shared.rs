//! A token source's state shared between threads: the state of `registry` behind a
//! `std::sync::Mutex`. Each operation locks, applies one transition of `registry`, and
//! unlocks before any callback is called or dropped.

use vstd::prelude::*;
use std::sync::{Arc, Mutex, MutexGuard, TryLockError};
use std::sync::atomic::AtomicBool;
use crate::callback::CancelCallback;
use crate::registry::{
    self, holds_key, ids_with, ids_without, kept_key, lists_keys_in_order, registered, state_ids, state_keys,
    state_link, state_next_id, unregistered, Data, Link, Listener,
};
use crate::sync::{raise, WeakRef};

verus! {

#[verifier::external_type_specification]
#[verifier::external_body]
#[verifier::reject_recursive_types(T)]
pub struct ExMutex<T: ?Sized>(Mutex<T>);

#[verifier::external_type_specification]
#[verifier::external_body]
#[verifier::reject_recursive_types(T)]
pub struct ExMutexGuard<'a, T: ?Sized + 'a>(MutexGuard<'a, T>);

/// `Mutex::new`.
#[verifier::external_body]
fn new_state_lock(state: Option<Data>) -> Mutex<Option<Data>> {
    Mutex::new(state)
}

/// `Mutex::lock`, with a poisoned lock taken as it is. When the current thread holds the
/// lock already it may panic or deadlock, so it is not claimed not to unwind.
#[verifier::external_body]
fn lock_state(lock: &Mutex<Option<Data>>) -> MutexGuard<'_, Option<Data>> {
    lock.lock().unwrap_or_else(|poisoned| poisoned.into_inner())
}

/// `Mutex::try_lock`, with a poisoned lock taken as it is: the guard, or `None` when the lock
/// is held, by this thread or another. It does not block and does not panic.
#[verifier::external_body]
fn try_lock_state(lock: &Mutex<Option<Data>>) -> Option<MutexGuard<'_, Option<Data>>>
    opens_invariants none
    no_unwind
{
    match lock.try_lock() {
        Ok(guard) => Some(guard),
        Err(TryLockError::Poisoned(poisoned)) => Some(poisoned.into_inner()),
        Err(TryLockError::WouldBlock) => None,
    }
}

/// `std::mem::replace` on the state a guard gives access to. What the state held before
/// depends on the other threads, so nothing is promised of it.
#[verifier::external_body]
fn exchange_locked(guard: &mut MutexGuard<'_, Option<Data>>, state: Option<Data>) -> Option<Data>
    opens_invariants none
    no_unwind
{
    std::mem::replace(&mut **guard, state)
}

pub(crate) struct RawTokenSource(Mutex<Option<Data>>);

/// Each operation of a `RawTokenSource` but `new` hands back, as ghost values, the state it found
/// under the lock and the state it left there. What the lock held depends on the other threads,
/// so nothing is said of the state found; each operation states how what it left and what it
/// returns follow from it.
impl RawTokenSource {
    pub(crate) fn new(parent: Option<Box<dyn Link>>) -> RawTokenSource {
        RawTokenSource(new_state_lock(Some(Data::new(parent))))
    }

    /// Whether the state found is canceled; it is left as it was found.
    pub(crate) fn is_canceled(&self) -> (r: (bool, Ghost<(Option<Data>, Option<Data>)>))
        ensures
            r.0 == (state_keys(r.1@.0) is None),
            r.1@.1 == r.1@.0,
    {
        let mut guard = lock_state(&self.0);
        let state = exchange_locked(&mut guard, None);
        let ghost found = state;
        let canceled = registry::is_canceled(&state);
        let ghost left = state;
        let _ = exchange_locked(&mut guard, state);
        (canceled, Ghost((found, left)))
    }

    /// Cancels the source and calls, in increasing key order, each callback that was registered
    /// and whose registration was not dropped: the state is left canceled, and the listeners of
    /// the state found, each under its key, once, in increasing key order, come back with the
    /// revocation flags read for them; each one whose flag read as not raised has been called.
    pub(crate) fn cancel(&self) -> (r: Ghost<(Option<Data>, Option<Data>, Seq<(usize, Listener)>, Seq<bool>)>)
        ensures
            state_keys(r@.1) is None,
            r@.3.len() == r@.2.len(),
            match r@.0 {
                Some(data) => lists_keys_in_order(r@.2, data.keys())
                    && forall|i: int| 0 <= i < r@.2.len() ==> (#[trigger] r@.2[i]).1.id == data.ids()[r@.2[i].0],
                None => r@.2.len() == 0,
            },
            forall|i: int| 0 <= i < r@.2.len() && !r@.3[i] ==> (#[trigger] r@.2[i]).1.cb.ran(),
    {
        let (taken, found, left) = {
            let mut guard = lock_state(&self.0);
            let mut state = exchange_locked(&mut guard, None);
            let ghost found = state;
            let taken = registry::cancel(&mut state);
            let ghost left = state;
            let _ = exchange_locked(&mut guard, state);
            (taken, Ghost(found), Ghost(left))
        };
        match taken {
            Some(data) => {
                // The parent link is released after the callbacks have run.
                let (entries, _parent) = data.into_parts();
                let ghost listed = entries@;
                let read = run_listeners(entries);
                Ghost((found@, left@, listed, read@))
            },
            None => Ghost((found@, left@, Seq::empty(), Seq::empty())),
        }
    }

    /// Registers `cb` under a fresh key when the state found is live; when it is canceled, the
    /// state is left as it is and `cb` comes back.
    pub(crate) fn register(&self, cb: Listener) -> (r: (Result<usize, Listener>, Ghost<(Option<Data>, Option<Data>)>))
        ensures
            match r.0 {
                Ok(key) => state_keys(r.1@.0) is Some
                    && !holds_key(state_keys(r.1@.0), key)
                    && state_keys(r.1@.1) == registered(state_keys(r.1@.0), key)
                    && state_ids(r.1@.1) == ids_with(state_ids(r.1@.0), key, state_next_id(r.1@.0))
                    && state_link(r.1@.1) == state_link(r.1@.0),
                Err(back) => state_keys(r.1@.0) is None && back == cb && r.1@.1 == r.1@.0,
            },
    {
        let mut guard = lock_state(&self.0);
        let mut state = exchange_locked(&mut guard, None);
        let ghost found = state;
        let r = registry::register(&mut state, cb);
        let ghost left = state;
        let _ = exchange_locked(&mut guard, state);
        (r, Ghost((found, left)))
    }

    /// Unregisters the callback under `key` and hands it back, to be dropped once unlocked: it
    /// comes back exactly when the state found holds `key`, and the state is left without it.
    /// When the lock is held elsewhere, nothing is found: `revoked` is raised instead, so that
    /// the callback is not called, and it stays until the source is canceled or released.
    pub(crate) fn unregister(&self, key: usize, revoked: &AtomicBool) -> (r: (Option<Listener>, Ghost<Option<(Option<Data>, Option<Data>)>>))
        ensures
            r.1@ is None ==> r.0 is None,
            r.1@ matches Some((found, left)) ==> {
                &&& (r.0 is Some <==> holds_key(state_keys(found), key))
                &&& state_keys(left) == unregistered(state_keys(found), key)
                &&& state_ids(left) == ids_without(state_ids(found), key)
                &&& state_link(left) == state_link(found)
            },
        opens_invariants none
        no_unwind
    {
        match try_lock_state(&self.0) {
            Some(guard) => {
                let mut guard = guard;
                let mut state = exchange_locked(&mut guard, None);
                let ghost found = state;
                let removed = registry::unregister(&mut state, key);
                let ghost left = state;
                let _ = exchange_locked(&mut guard, state);
                (removed, Ghost(Some((found, left))))
            },
            None => {
                raise(revoked);
                (None, Ghost(None))
            },
        }
    }

    /// Puts a waker callback under `key`, or under a fresh key when the state found no longer
    /// holds `key`, when that state is live; when it is canceled, the state is left as it is and
    /// `cb` comes back.
    pub(crate) fn set_waker(&self, key: Option<usize>, cb: Listener) -> (r: (Result<(usize, Option<Listener>), Listener>, Ghost<(Option<Data>, Option<Data>)>))
        ensures
            match r.0 {
                Ok((k, displaced)) => {
                    &&& state_keys(r.1@.0) is Some
                    &&& state_keys(r.1@.1) == registered(state_keys(r.1@.0), k)
                    &&& state_ids(r.1@.1) == ids_with(state_ids(r.1@.0), k, state_next_id(r.1@.0))
                    &&& state_link(r.1@.1) == state_link(r.1@.0)
                    &&& if kept_key(state_keys(r.1@.0), key) {
                        key == Some(k) && displaced is Some
                    } else {
                        !holds_key(state_keys(r.1@.0), k) && displaced is None
                    }
                },
                Err(back) => state_keys(r.1@.0) is None && back == cb && r.1@.1 == r.1@.0,
            },
    {
        let mut guard = lock_state(&self.0);
        let mut state = exchange_locked(&mut guard, None);
        let ghost found = state;
        let r = registry::set_waker(&mut state, key, cb);
        let ghost left = state;
        let _ = exchange_locked(&mut guard, state);
        (r, Ghost((found, left)))
    }

    /// Keeps `link` until the source is canceled or released, when the state found is live; the
    /// link held before comes back. When it is canceled already, `link` comes back, to be
    /// released at once. The keys and ids are left as they were found.
    pub(crate) fn set_parent(&self, link: Box<dyn Link>) -> (r: (Option<Box<dyn Link>>, Ghost<(Option<Data>, Option<Data>)>))
        ensures
            state_keys(r.1@.1) == state_keys(r.1@.0),
            state_ids(r.1@.1) == state_ids(r.1@.0),
            match r.1@.0 {
                Some(data) => r.0 == data.link() && (r.1@.1 matches Some(after) && after.link() is Some),
                None => r.0 is Some && r.1@.1 is None,
            },
    {
        let mut guard = lock_state(&self.0);
        let mut state = exchange_locked(&mut guard, None);
        let ghost found = state;
        let back = registry::set_parent(&mut state, link);
        let ghost left = state;
        let _ = exchange_locked(&mut guard, state);
        (back, Ghost((found, left)))
    }
}

/// Runs, in the order given, each listener whose registration was not dropped, and hands back
/// the revocation flags it read: each listener whose flag read as not raised has run.
fn run_listeners(entries: Vec<(usize, Listener)>) -> (read: Ghost<Seq<bool>>)
    ensures
        read@.len() == entries@.len(),
        forall|i: int| 0 <= i < entries@.len() && !read@[i] ==> entries@[i].1.cb.ran(),
{
    let ghost all = entries@;
    let ghost mut read: Seq<bool> = Seq::empty();
    for entry in it: entries
        invariant
            it.seq() == all,
            read.len() == it.index(),
            forall|i: int| 0 <= i < it.index() && !read[i] ==> all[i].1.cb.ran(),
    {
        let (_, listener) = entry;
        let Listener { cb, revoked, id: _ } = listener;
        let raised = revoked.load(std::sync::atomic::Ordering::SeqCst);
        proof {
            read = read.push(raised);
        }
        if !raised {
            cb.call();
        }
    }
    Ghost(read)
}

/// Cancels the source.
pub(crate) fn cancel_source(source: Arc<RawTokenSource>) {
    let _ = source.cancel();
}

impl CancelCallback {
    /// A callback that cancels the source, when it still exists.
    pub(crate) fn from_raw_token_source(source: &WeakRef<RawTokenSource>) -> (r: CancelCallback)
        ensures
            !r.wakes(),
            r.calls_with_weak(*source, cancel_source),
    {
        CancelCallback::from_weak_fn(source.clone(), cancel_source)
    }
}

} // verus!
