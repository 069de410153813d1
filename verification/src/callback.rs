//! Callbacks: a user function, possibly with a shared or weakly held value to call it with,
//! or a waker to wake.

use vstd::prelude::*;
use vstd::std_specs::convert::FromSpecImpl;
use std::sync::Arc;
use std::task::Waker;
use crate::sync::WeakRef;

verus! {

#[verifier::external_type_specification]
#[verifier::external_body]
pub struct ExWaker(Waker);

/// `Waker::wake`: wakes the task the waker belongs to. Nothing is promised of its effect.
#[verifier::external_body]
fn wake(waker: Waker) {
    waker.wake()
}

/// `Waker::clone`: another waker for the same task. Nothing is promised of the result.
#[verifier::external_body]
fn clone_waker(waker: &Waker) -> Waker {
    waker.clone()
}

/// Something to do once, when a source is canceled.
trait Callback: Send + Sync {
    /// What holds once the callback has run.
    spec fn post(&self) -> bool;

    fn invoke(self: Box<Self>)
        ensures
            self.post(),
    ;
}

/// Calls a function that may be called with no argument.
struct FnCallback<F: FnOnce() + Send + Sync>(F);

impl<F: FnOnce() + Send + Sync> FnCallback<F> {
    #[verifier::type_invariant]
    spec fn callable(self) -> bool {
        self.0.requires(())
    }
}

impl<F: FnOnce() + Send + Sync> Callback for FnCallback<F> {
    /// The function has run.
    spec fn post(&self) -> bool {
        self.0.ensures((), ())
    }

    fn invoke(self: Box<Self>) {
        proof {
            use_type_invariant(&*self);
        }
        let FnCallback(f) = *self;
        f()
    }
}

/// Calls a function with a shared value.
struct ArcCallback<T: Send + Sync, F: FnOnce(Arc<T>) + Send + Sync> {
    this: Arc<T>,
    f: F,
}

impl<T: Send + Sync, F: FnOnce(Arc<T>) + Send + Sync> ArcCallback<T, F> {
    #[verifier::type_invariant]
    spec fn callable(self) -> bool {
        self.f.requires((self.this,))
    }
}

impl<T: Send + Sync, F: FnOnce(Arc<T>) + Send + Sync> Callback for ArcCallback<T, F> {
    /// The function has run with the shared value.
    spec fn post(&self) -> bool {
        self.f.ensures((self.this,), ())
    }

    fn invoke(self: Box<Self>) {
        proof {
            use_type_invariant(&*self);
        }
        let ArcCallback { this, f } = *self;
        f(this)
    }
}

/// Calls a function with a weakly held value, when that value still exists.
#[verifier::reject_recursive_types(T)]
struct WeakCallback<T: Send + Sync, F: FnOnce(Arc<T>) + Send + Sync> {
    this: WeakRef<T>,
    f: F,
}

impl<T: Send + Sync, F: FnOnce(Arc<T>) + Send + Sync> WeakCallback<T, F> {
    #[verifier::type_invariant]
    spec fn callable(self) -> bool {
        forall|this: Arc<T>| self.f.requires((this,))
    }
}

impl<T: Send + Sync, F: FnOnce(Arc<T>) + Send + Sync> Callback for WeakCallback<T, F> {
    /// Whether the value still existed depends on its other owners, so nothing is stated.
    spec fn post(&self) -> bool {
        true
    }

    fn invoke(self: Box<Self>) {
        proof {
            use_type_invariant(&*self);
        }
        let WeakCallback { this, f } = *self;
        match this.upgrade() {
            Some(this) => f(this),
            None => {},
        }
    }
}

enum RawCancelCallback {
    Fn(Box<dyn Callback>),
    Waker(Waker),
}

impl RawCancelCallback {
    /// What holds once the callback has run: the post of its function.
    spec fn ran(&self) -> bool {
        match self {
            RawCancelCallback::Fn(f) => f.post(),
            RawCancelCallback::Waker(_) => true,
        }
    }

    fn call(self)
        ensures
            self.ran(),
    {
        match self {
            RawCancelCallback::Fn(f) => f.invoke(),
            RawCancelCallback::Waker(waker) => wake(waker),
        }
    }
}

/// Callback function passed to [`CancellationToken::register()`](crate::CancellationToken::register).
///
/// You can create `CancelCallback` using the following methods.
///
/// - [`new`](Self::new)
/// - [`from_arc_fn`](Self::from_arc_fn)
/// - [`from_weak_fn`](Self::from_weak_fn)
/// - [`From::from`] or [`Into::into`] (convert from [`Waker`] or `&Waker`)
///
/// The callback functions are called synchronously when
/// [`CancellationTokenSource::cancel()`](crate::CancellationTokenSource::cancel) is called,
/// so care must be taken to avoid deadlocks.
pub struct CancelCallback(RawCancelCallback);

impl CancelCallback {
    /// Whether the callback wakes a waker, rather than calling a function.
    pub closed spec fn wakes(&self) -> bool {
        self.0 is Waker
    }

    /// Whether the callback calls `f`.
    pub closed spec fn calls<F: FnOnce() + Sync + Send + 'static>(&self, f: F) -> bool {
        self.0 == RawCancelCallback::Fn(Box::new(FnCallback(f)))
    }

    /// Whether the callback calls `f` with `this`.
    pub closed spec fn calls_with<T: Send + Sync + 'static, F: FnOnce(Arc<T>) + Sync + Send + 'static>(
        &self,
        this: Arc<T>,
        f: F,
    ) -> bool {
        self.0 == RawCancelCallback::Fn(Box::new(ArcCallback { this, f }))
    }

    /// Whether the callback calls `f` with the value `this` refers to, when it still exists.
    pub closed spec fn calls_with_weak<T: Send + Sync + 'static, F: FnOnce(Arc<T>) + Sync + Send + 'static>(
        &self,
        this: WeakRef<T>,
        f: F,
    ) -> bool {
        self.0 == RawCancelCallback::Fn(Box::new(WeakCallback { this, f }))
    }

    /// Create a new callback from a function.
    pub fn new<F: FnOnce() + Sync + Send + 'static>(f: F) -> (r: Self)
        requires
            f.requires(()),
        ensures
            !r.wakes(),
            r.calls(f),
    {
        CancelCallback(RawCancelCallback::Fn(Box::new(FnCallback(f))))
    }

    /// Create a new callback from an `Arc` and a function.
    pub fn from_arc_fn<T: Send + Sync + 'static, F: FnOnce(Arc<T>) + Sync + Send + Copy + 'static>(
        this: Arc<T>,
        f: F,
    ) -> (r: Self)
        requires
            f.requires((this,)),
        ensures
            !r.wakes(),
            r.calls_with(this, f),
    {
        CancelCallback(RawCancelCallback::Fn(Box::new(ArcCallback { this, f })))
    }

    /// Create a new callback from a [`WeakRef`] and a function.
    ///
    /// Calls the function only if the specified weak reference is alive when cancelled.
    pub fn from_weak_fn<T: Send + Sync + 'static, F: FnOnce(Arc<T>) + Sync + Send + Copy + 'static>(
        this: WeakRef<T>,
        f: F,
    ) -> (r: Self)
        requires
            forall|a: Arc<T>| f.requires((a,)),
        ensures
            !r.wakes(),
            r.calls_with_weak(this, f),
    {
        CancelCallback(RawCancelCallback::Fn(Box::new(WeakCallback { this, f })))
    }

    /// What holds once the callback has run: for one made by `new(f)`, that `f` ran; for one
    /// made by `from_arc_fn(this, f)`, that `f` ran with `this` (see `lemma_ran_calls`).
    pub closed spec fn ran(&self) -> bool {
        self.0.ran()
    }

    /// Calls the callback: runs its function, or wakes its waker.
    pub fn call(self)
        ensures
            self.ran(),
    {
        self.0.call()
    }
}

/// A callback made from `f` has run only when `f` has.
pub proof fn lemma_ran_calls<F: FnOnce() + Sync + Send + 'static>(cb: CancelCallback, f: F)
    requires
        cb.calls(f),
        cb.ran(),
    ensures
        f.ensures((), ()),
{
}

/// A callback made from `this` and `f` has run only when `f` has run with `this`.
pub proof fn lemma_ran_calls_with<T: Send + Sync + 'static, F: FnOnce(Arc<T>) + Sync + Send + 'static>(
    cb: CancelCallback,
    this: Arc<T>,
    f: F,
)
    requires
        cb.calls_with(this, f),
        cb.ran(),
    ensures
        f.ensures((this,), ()),
{
}

impl From<Waker> for CancelCallback {
    fn from(value: Waker) -> (r: Self)
        ensures
            r.wakes(),
    {
        CancelCallback(RawCancelCallback::Waker(value))
    }
}

impl FromSpecImpl<Waker> for CancelCallback {
    open spec fn obeys_from_spec() -> bool {
        true
    }

    closed spec fn from_spec(v: Waker) -> Self {
        CancelCallback(RawCancelCallback::Waker(v))
    }
}

impl<'a> From<&'a Waker> for CancelCallback {
    fn from(value: &'a Waker) -> (r: Self)
        ensures
            r.wakes(),
    {
        CancelCallback(RawCancelCallback::Waker(clone_waker(value)))
    }
}

/// The waker is cloned, and nothing is promised of a clone, so the result is no function of
/// the argument.
impl<'a> FromSpecImpl<&'a Waker> for CancelCallback {
    open spec fn obeys_from_spec() -> bool {
        false
    }

    open spec fn from_spec(v: &'a Waker) -> Self {
        arbitrary()
    }
}

} // verus!
