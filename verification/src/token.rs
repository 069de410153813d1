//! Token sources, tokens and registrations.

use vstd::prelude::*;
use std::sync::Arc;
use std::sync::atomic::AtomicBool;
use std::task::Waker;
use crate::callback::CancelCallback;
use crate::registry::{holds_key, kept_key, state_keys, state_link, Data, Link, Listener};
use crate::shared::RawTokenSource;
use crate::sync::WeakRef;

verus! {

/// An object for sending cancellation notifications.
///
/// Use [`cancel()`](CancellationTokenSource::cancel) to notify cancellation.
pub struct CancellationTokenSource(Option<Arc<RawTokenSource>>);

impl CancellationTokenSource {
    /// Whether the source has state of its own; one without is canceled from the start.
    pub closed spec fn has_state(&self) -> bool {
        self.0 is Some
    }

    /// Whether the two share one state (or both have none), as clones of one source do.
    pub closed spec fn same_source(&self, other: &CancellationTokenSource) -> bool {
        self.0 == other.0
    }

    fn new_canceled() -> (r: Self)
        ensures
            !r.has_state(),
    {
        CancellationTokenSource(None)
    }

    /// Create a new CancellationTokenSource.
    pub fn new() -> (r: Self)
        ensures
            r.has_state(),
    {
        CancellationTokenSource(Some(Arc::new(RawTokenSource::new(None))))
    }

    /// Create a new CancellationTokenSource with a parent token.
    ///
    /// When the parent token is canceled, the child token is also canceled.
    pub fn with_parent(parent: &CancellationToken) -> (r: Self)
        ensures
            parent.fixed() == Some(true) ==> !r.has_state(),
            parent.fixed() == Some(false) ==> r.has_state(),
    {
        match &parent.0 {
            RawToken::IsCanceled(is_canceled) => {
                if *is_canceled {
                    Self::new_canceled()
                } else {
                    Self::new()
                }
            },
            RawToken::Source(source) => {
                let child = Arc::new(RawTokenSource::new(None));
                let link = CancelCallback::from_raw_token_source(&WeakRef::downgrade(&child));
                let revoked = Arc::new(AtomicBool::new(false));
                let (outcome, _) = source.register(Listener::new(link, revoked.clone()));
                let (r, _) = Self::linked(source, child, revoked, outcome);
                r
            },
        }
    }

    /// The child of a parent source, after its link was offered to the parent: the linked
    /// child when the parent took it, a source canceled from the start when the parent was
    /// canceled. When the parent took it, the registration of the link is handed to the child,
    /// which keeps it as its parent link, with its callbacks as they were, unless it was found
    /// canceled in between; the child's state found and left come back.
    fn linked(
        parent: &Arc<RawTokenSource>,
        child: Arc<RawTokenSource>,
        revoked: Arc<AtomicBool>,
        outcome: Result<usize, Listener>,
    ) -> (r: (Self, Ghost<Option<(Option<Data>, Option<Data>)>>))
        ensures
            outcome is Err ==> !r.0.has_state() && r.1@ is None,
            outcome is Ok ==> r.0.0 == Some(child) && r.1@ is Some,
            r.1@ matches Some((found, left)) ==> {
                &&& state_keys(left) == state_keys(found)
                &&& (found is Some ==> state_link(left) is Some)
            },
    {
        match outcome {
            Ok(key) => {
                let registration = CancellationTokenRegistration(
                    Some(RawRegistration { source: parent.clone(), key, revoked }),
                );
                // Comes back only when the child was canceled in between; it is released here.
                let (_released, handed) = child.set_parent(Box::new(registration));
                (CancellationTokenSource(Some(child)), Ghost(Some(handed@)))
            },
            Err(_link) => (Self::new_canceled(), Ghost(None)),
        }
    }

    /// Send cancellation notification.
    pub fn cancel(&self) {
        match &self.0 {
            Some(source) => {
                let _ = source.cancel();
            },
            None => {},
        }
    }

    /// Get [`CancellationToken`] to receive cancellation notification from this source.
    pub fn token(&self) -> (r: CancellationToken)
        ensures
            r.fixed() == (if self.has_state() { None } else { Some(true) }),
            self.has_state() ==> r.follows(self),
    {
        match &self.0 {
            Some(source) => CancellationToken(RawToken::Source(source.clone())),
            None => CancellationToken(RawToken::IsCanceled(true)),
        }
    }

    /// Returns true if canceled.
    pub fn is_canceled(&self) -> (r: bool)
        ensures
            !self.has_state() ==> r,
    {
        match &self.0 {
            Some(source) => source.is_canceled().0,
            None => true,
        }
    }
}

/// The debug form of a source: `CancellationTokenSource { is_canceled: .. }`.
pub open spec fn source_debug_text(is_canceled: bool) -> Seq<char> {
    if is_canceled {
        "CancellationTokenSource { is_canceled: true }"@
    } else {
        "CancellationTokenSource { is_canceled: false }"@
    }
}

impl CancellationTokenSource {
    /// The source's debug form, with the cancellation state that it observes.
    pub fn to_debug_string(&self) -> (r: String)
        ensures
            r@ == source_debug_text(true) || (self.has_state() && r@ == source_debug_text(false)),
    {
        if self.is_canceled() {
            "CancellationTokenSource { is_canceled: true }".to_owned()
        } else {
            "CancellationTokenSource { is_canceled: false }".to_owned()
        }
    }
}

impl Clone for CancellationTokenSource {
    /// Create a CancellationTokenSource that shares the destination for cancellation notifications.
    fn clone(&self) -> (r: Self)
        ensures
            r.has_state() == self.has_state(),
            r.same_source(self),
    {
        match &self.0 {
            Some(source) => CancellationTokenSource(Some(source.clone())),
            None => CancellationTokenSource(None),
        }
    }
}

impl Default for CancellationTokenSource {
    fn default() -> (r: Self)
        ensures
            r.has_state(),
    {
        Self::new()
    }
}

enum RawToken {
    IsCanceled(bool),
    Source(Arc<RawTokenSource>),
}

/// An object for receiving cancellation notifications.
///
/// Obtained by [`CancellationTokenSource::token()`] or [`new()`](CancellationToken::new).
pub struct CancellationToken(RawToken);

/// How a token can be waited on.
pub enum Listen<'a> {
    /// The token will never be canceled.
    Never,
    /// The token is canceled.
    Now,
    /// The token follows a source: register a waker to learn of its cancellation.
    Waiting(WakerRegistration<'a>),
}

impl CancellationToken {
    /// The cancellation state the token was made with, when it follows no source.
    pub closed spec fn fixed(&self) -> Option<bool> {
        match self.0 {
            RawToken::IsCanceled(is_canceled) => Some(is_canceled),
            RawToken::Source(_) => None,
        }
    }

    /// Whether the token receives the notifications of `source`.
    pub closed spec fn follows(&self, source: &CancellationTokenSource) -> bool {
        match self.0 {
            RawToken::Source(s) => source.0 == Some(s),
            RawToken::IsCanceled(_) => false,
        }
    }

    /// Whether the two are the same token: the same fixed state, or following the same source.
    pub closed spec fn same_as(&self, other: &CancellationToken) -> bool {
        self.0 == other.0
    }

    /// Whether the token can be canceled: all but a token made as never canceled.
    pub open spec fn may_be_canceled(&self) -> bool {
        self.fixed() != Some(false)
    }

    /// Create a new CancellationToken with cancellation state.
    pub fn new(is_canceled: bool) -> (r: Self)
        ensures
            r.fixed() == Some(is_canceled),
    {
        CancellationToken(RawToken::IsCanceled(is_canceled))
    }

    /// Return true if this token can be canceled.
    pub fn can_be_canceled(&self) -> (r: bool)
        ensures
            r == self.may_be_canceled(),
    {
        match &self.0 {
            RawToken::IsCanceled(is_canceled) => *is_canceled,
            RawToken::Source(_) => true,
        }
    }

    /// Returns true if canceled.
    pub fn is_canceled(&self) -> (r: bool)
        ensures
            self.fixed() matches Some(is_canceled) ==> r == is_canceled,
            !self.may_be_canceled() ==> !r,
    {
        match &self.0 {
            RawToken::IsCanceled(is_canceled) => *is_canceled,
            RawToken::Source(source) => source.is_canceled().0,
        }
    }

    /// Returns `Err(Canceled)` if canceled, otherwise returns `Ok(())`.
    ///
    /// This method corresponds to `ThrowIfCancellationRequested` in C#.
    pub fn canceled(&self) -> (r: MayBeCanceled)
        ensures
            self.fixed() matches Some(is_canceled) ==> (r is Err <==> is_canceled),
    {
        if self.is_canceled() {
            Err(Canceled)
        } else {
            Ok(())
        }
    }

    /// Register a callback to be called when this token is canceled.
    ///
    /// If this token has already been canceled, the callback is called before the function returns.
    ///
    /// Callbacks are called synchronously when [`CancellationTokenSource::cancel()`] is called, so care must be taken to avoid deadlocks.
    pub fn register(&self, cb: CancelCallback) -> (r: CancellationTokenRegistration)
        ensures
            self.fixed() is Some ==> r.is_empty(),
            !r.is_empty() ==> r.on(self),
            r.is_empty() && self.may_be_canceled() ==> cb.ran(),
    {
        match &self.0 {
            RawToken::IsCanceled(is_canceled) => {
                if *is_canceled {
                    cb.call();
                }
                CancellationTokenRegistration::empty()
            },
            RawToken::Source(source) => {
                let revoked = Arc::new(AtomicBool::new(false));
                let (outcome, _) = source.register(Listener::new(cb, revoked.clone()));
                CancellationTokenRegistration::settled(source, revoked, outcome)
            },
        }
    }

    /// How to wait for this token's cancellation.
    pub fn listen(&self) -> (r: Listen<'_>)
        ensures
            (self.fixed() == Some(false)) == (r is Never),
            (self.fixed() == Some(true)) == (r is Now),
            r matches Listen::Waiting(registration) ==> registration.key() is None && registration.follows(self),
    {
        match &self.0 {
            RawToken::IsCanceled(is_canceled) => {
                if *is_canceled {
                    Listen::Now
                } else {
                    Listen::Never
                }
            },
            RawToken::Source(source) => Listen::Waiting(WakerRegistration::new(source)),
        }
    }
}

/// The debug form of a token: `CancellationToken { can_be_canceled: .., is_canceled: .. }`.
pub open spec fn token_debug_text(can_be_canceled: bool, is_canceled: bool) -> Seq<char> {
    if can_be_canceled {
        if is_canceled {
            "CancellationToken { can_be_canceled: true, is_canceled: true }"@
        } else {
            "CancellationToken { can_be_canceled: true, is_canceled: false }"@
        }
    } else {
        if is_canceled {
            "CancellationToken { can_be_canceled: false, is_canceled: true }"@
        } else {
            "CancellationToken { can_be_canceled: false, is_canceled: false }"@
        }
    }
}

impl CancellationToken {
    /// The token's debug form, with the cancellation state that it observes.
    pub fn to_debug_string(&self) -> (r: String)
        ensures
            (self.may_be_canceled() && r@ == token_debug_text(self.may_be_canceled(), true))
            || (self.fixed() != Some(true) && r@ == token_debug_text(self.may_be_canceled(), false)),
    {
        let can_be_canceled = self.can_be_canceled();
        let is_canceled = self.is_canceled();
        let r = if can_be_canceled {
            if is_canceled {
                "CancellationToken { can_be_canceled: true, is_canceled: true }".to_owned()
            } else {
                "CancellationToken { can_be_canceled: true, is_canceled: false }".to_owned()
            }
        } else {
            if is_canceled {
                "CancellationToken { can_be_canceled: false, is_canceled: true }".to_owned()
            } else {
                "CancellationToken { can_be_canceled: false, is_canceled: false }".to_owned()
            }
        };
        r
    }
}

impl Clone for CancellationToken {
    fn clone(&self) -> (r: Self)
        ensures
            r.fixed() == self.fixed(),
            r.same_as(self),
    {
        match &self.0 {
            RawToken::IsCanceled(is_canceled) => CancellationToken(RawToken::IsCanceled(*is_canceled)),
            RawToken::Source(source) => CancellationToken(RawToken::Source(source.clone())),
        }
    }
}

impl Default for CancellationToken {
    /// Create a CancellationToken that will never be canceled.
    fn default() -> (r: Self)
        ensures
            r.fixed() == Some(false),
    {
        Self::new(false)
    }
}

struct RawRegistration {
    source: Arc<RawTokenSource>,
    key: usize,
    revoked: Arc<AtomicBool>,
}

/// An object to unregister callback.
///
/// Callbacks are automatically unregistered when dropped.
pub struct CancellationTokenRegistration(Option<RawRegistration>);

impl CancellationTokenRegistration {
    /// Whether there is no callback to unregister.
    pub closed spec fn is_empty(&self) -> bool {
        self.0 is None
    }

    /// The key under which the callback is registered, when there is one.
    pub closed spec fn key(&self) -> Option<usize> {
        match self.0 {
            Some(raw) => Some(raw.key),
            None => None,
        }
    }

    /// Whether the callback is registered with the source that `token` follows.
    pub closed spec fn on(&self, token: &CancellationToken) -> bool {
        match self.0 {
            Some(raw) => token.0 == RawToken::Source(raw.source),
            None => false,
        }
    }

    fn empty() -> (r: Self)
        ensures
            r.is_empty(),
    {
        CancellationTokenRegistration(None)
    }

    /// The registration after a callback was offered to `source`: under the key it took,
    /// or none, with the callback called at once, when the source was canceled.
    fn settled(source: &Arc<RawTokenSource>, revoked: Arc<AtomicBool>, outcome: Result<usize, Listener>) -> (r: Self)
        ensures
            outcome matches Ok(key) ==> r.key() == Some(key) && r.on(&CancellationToken(RawToken::Source(*source))),
            outcome matches Err(listener) ==> r.is_empty() && listener.cb.ran(),
    {
        match outcome {
            Ok(key) => CancellationTokenRegistration(Some(RawRegistration { source: source.clone(), key, revoked })),
            Err(listener) => {
                let Listener { cb, revoked: _, id: _ } = listener;
                cb.call();
                CancellationTokenRegistration::empty()
            },
        }
    }

    /// Ensure the callback is never unregistered.
    pub fn detach(self) {
        let mut this = self;
        this.0 = None;
    }
}

/// The debug form of a registration: `CancellationTokenRegistration { is_empty: .. }`.
pub open spec fn registration_debug_text(is_empty: bool) -> Seq<char> {
    if is_empty {
        "CancellationTokenRegistration { is_empty: true }"@
    } else {
        "CancellationTokenRegistration { is_empty: false }"@
    }
}

impl CancellationTokenRegistration {
    /// The registration's debug form.
    pub fn to_debug_string(&self) -> (r: String)
        ensures
            r@ == registration_debug_text(self.is_empty()),
    {
        match &self.0 {
            None => "CancellationTokenRegistration { is_empty: true }".to_owned(),
            Some(_) => "CancellationTokenRegistration { is_empty: false }".to_owned(),
        }
    }
}

impl Default for CancellationTokenRegistration {
    fn default() -> (r: Self)
        ensures
            r.is_empty(),
    {
        Self::empty()
    }
}

impl Drop for CancellationTokenRegistration {
    fn drop(&mut self)
        opens_invariants none
        no_unwind
    {
        match &self.0 {
            Some(raw) => {
                let _removed = raw.source.unregister(raw.key, &raw.revoked);
            },
            None => {},
        }
    }
}

impl Link for CancellationTokenRegistration {}

/// A waker registered with a token source, unregistered when dropped.
pub struct WakerRegistration<'a> {
    source: &'a RawTokenSource,
    key: Option<usize>,
    revoked: Arc<AtomicBool>,
    offers: Ghost<Seq<Option<Set<usize>>>>,
}

impl<'a> WakerRegistration<'a> {
    /// The key under which the waker is registered, once one is.
    pub closed spec fn key(&self) -> Option<usize> {
        self.key
    }

    /// Whether the registration follows the source that `token` follows.
    pub closed spec fn follows(&self, token: &CancellationToken) -> bool {
        match token.0 {
            RawToken::Source(s) => *s == *self.source,
            RawToken::IsCanceled(_) => false,
        }
    }

    /// For each waker offered to the source through this registration, in order, the keys of
    /// the callbacks registered with the source as found when it was offered: `None` where the
    /// source was canceled and refused it.
    pub closed spec fn offers(&self) -> Seq<Option<Set<usize>>> {
        self.offers@
    }

    pub(crate) closed spec fn registers_with(&self, source: &RawTokenSource) -> bool {
        *self.source == *source
    }

    pub(crate) fn new(source: &'a RawTokenSource) -> (r: Self)
        ensures
            r.key() is None,
            r.registers_with(source),
            r.offers() == Seq::<Option<Set<usize>>>::empty(),
    {
        WakerRegistration { source, key: None, revoked: Arc::new(AtomicBool::new(false)), offers: Ghost(Seq::empty()) }
    }

    /// Returns true if the source is canceled.
    pub fn is_canceled(&self) -> bool {
        self.source.is_canceled().0
    }

    /// Registers `waker` in place of the one registered before; returns false,
    /// registering nothing, when the source is canceled.
    ///
    /// The waker is offered to the source once. When the source is live, it is registered under
    /// the key the registration keeps, if the source still holds that key, and otherwise under
    /// a key the source did not hold.
    pub fn set(&mut self, waker: &Waker) -> (r: bool)
        ensures
            final(self).offers() == old(self).offers().push(final(self).offers().last()),
            r == (final(self).offers().last() is Some),
            r ==> match final(self).key() {
                Some(k) => if kept_key(final(self).offers().last(), old(self).key()) {
                    old(self).key() == Some(k)
                } else {
                    !holds_key(final(self).offers().last(), k)
                },
                None => false,
            },
            !r ==> final(self).key() == old(self).key(),
    {
        let cb = CancelCallback::from(waker);
        let (outcome, seen) = self.source.set_waker(self.key, Listener::new(cb, self.revoked.clone()));
        proof {
            self.offers = Ghost(self.offers@.push(state_keys(seen@.0)));
        }
        self.settle(outcome)
    }

    /// Takes in the outcome of offering a waker to the source: true, with the key that now holds
    /// it, when the source took it; false, with the key unchanged, when it was canceled.
    fn settle(&mut self, outcome: Result<(usize, Option<Listener>), Listener>) -> (r: bool)
        ensures
            r == outcome is Ok,
            outcome matches Ok((key, _)) ==> final(self).key() == Some(key),
            outcome is Err ==> final(self).key() == old(self).key(),
            final(self).offers() == old(self).offers(),
    {
        match outcome {
            Ok((key, _displaced)) => {
                self.key = Some(key);
                true
            },
            Err(_listener) => false,
        }
    }
}

impl<'a> WakerRegistration<'a> {
    /// What a future run under this registration yields before its inner future is polled:
    /// `Err(Canceled)` when the source is canceled, otherwise nothing yet.
    pub fn before_poll<T>(&self) -> (r: Option<MayBeCanceled<T>>)
        ensures
            r is None || r == Some(Err::<T, Canceled>(Canceled)),
    {
        if self.is_canceled() {
            Some(Err(Canceled))
        } else {
            None
        }
    }

    /// What a future run under this registration yields once its inner future was polled:
    /// the inner output when there is one; otherwise `waker` is offered to the source, once,
    /// and the result is nothing yet when the source was found live and took it, and
    /// `Err(Canceled)` when it was found canceled and refused it.
    pub fn after_poll<T>(&mut self, output: Option<T>, waker: &Waker) -> (r: Option<MayBeCanceled<T>>)
        ensures
            output matches Some(v) ==> r == Some(Ok::<T, Canceled>(v)) && final(self).key() == old(self).key(),
            output is Some ==> final(self).offers() == old(self).offers(),
            output is None ==> final(self).offers() == old(self).offers().push(final(self).offers().last()),
            output is None ==> (r is None <==> final(self).offers().last() is Some),
            output is None && r is None ==> final(self).key() is Some,
            output is None && r is Some ==> r == Some(Err::<T, Canceled>(Canceled)) && final(self).key() == old(self).key(),
    {
        match output {
            Some(v) => poll_outcome(Some(v), true),
            None => {
                let registered = self.set(waker);
                poll_outcome(None, registered)
            },
        }
    }
}

/// What a future run under a registration yields, from the inner output and whether the waker
/// could be registered: the output when there is one, nothing yet when the waker is
/// registered, `Err(Canceled)` when the source is canceled.
pub open spec fn poll_outcome_of<T>(output: Option<T>, registered: bool) -> Option<MayBeCanceled<T>> {
    match output {
        Some(v) => Some(Ok(v)),
        None => if registered { None } else { Some(Err(Canceled)) },
    }
}

fn poll_outcome<T>(output: Option<T>, registered: bool) -> (r: Option<MayBeCanceled<T>>)
    ensures
        r == poll_outcome_of(output, registered),
{
    match output {
        Some(v) => Some(Ok(v)),
        None => {
            if registered {
                None
            } else {
                Some(Err(Canceled))
            }
        },
    }
}

impl<'a> Drop for WakerRegistration<'a> {
    fn drop(&mut self)
        opens_invariants none
        no_unwind
    {
        match self.key {
            Some(key) => {
                let _removed = self.source.unregister(key, &self.revoked);
            },
            None => {},
        }
    }
}

/// Return value of the method that may be canceled.
pub type MayBeCanceled<T = ()> = Result<T, Canceled>;

/// A value indicating that it has been canceled.
#[derive(Debug, Clone, Copy, PartialEq, Eq, Structural, Hash, PartialOrd, Ord)]
pub struct Canceled;

impl Canceled {
    /// The message that describes the value: "operation has been cancelled".
    pub fn to_string(&self) -> (r: String)
        ensures
            r@ == "operation has been cancelled"@,
    {
        "operation has been cancelled".to_owned()
    }
}

} // verus!
