//! Weak references to values held by an `Arc`, and flags shared between threads.

use vstd::prelude::*;
use std::sync::Arc;
use std::sync::atomic::AtomicBool;

verus! {

/// `AtomicBool::store(true)`: raises the flag. A store does not panic.
#[verifier::external_body]
pub(crate) fn raise(flag: &AtomicBool)
    opens_invariants none
    no_unwind
{
    flag.store(true, std::sync::atomic::Ordering::SeqCst)
}

/// A non-owning reference to a value held by an `Arc`: a `std::sync::Weak`, held in a private
/// field. `Weak` has an allocator parameter and cannot be declared as an outside type.
#[verifier::external_body]
#[verifier::reject_recursive_types(T)]
pub struct WeakRef<T>(std::sync::Weak<T>);

impl<T> WeakRef<T> {
    /// `Arc::downgrade`: a weak reference to the value `this` holds. Nothing is promised of it:
    /// what it upgrades to later depends on the other owners of the value.
    #[verifier::external_body]
    pub fn downgrade(this: &Arc<T>) -> WeakRef<T> {
        WeakRef(Arc::downgrade(this))
    }

    /// `Weak::upgrade`: the value, when some `Arc` still holds it. Whether it does depends on
    /// the other owners of the value, so nothing is promised of the result.
    #[verifier::external_body]
    pub fn upgrade(&self) -> Option<Arc<T>> {
        self.0.upgrade()
    }
}

impl<T> Clone for WeakRef<T> {
    /// `Weak::clone`: another weak reference to the same value, so equal to this one.
    #[verifier::external_body]
    fn clone(&self) -> (r: Self)
        ensures
            r == *self,
    {
        WeakRef(self.0.clone())
    }
}

} // verus!
