use std::sync::atomic::{AtomicUsize, Ordering};
use std::sync::{Arc, Mutex};
use std::task::{Wake, Waker};

use cancellation_token::{
    CancelCallback, Canceled, CancellationToken, CancellationTokenRegistration,
    CancellationTokenSource, Listen,
};

#[derive(Clone)]
struct Log(Arc<Mutex<Vec<&'static str>>>);

impl Log {
    fn new() -> Self {
        Log(Arc::new(Mutex::new(Vec::new())))
    }
    fn callback(&self, s: &'static str) -> CancelCallback {
        let log = self.clone();
        CancelCallback::new(move || log.0.lock().unwrap().push(s))
    }
    fn get(&self) -> Vec<&'static str> {
        self.0.lock().unwrap().clone()
    }
}

struct CountWake(AtomicUsize);

impl Wake for CountWake {
    fn wake(self: Arc<Self>) {
        self.0.fetch_add(1, Ordering::SeqCst);
    }
}

#[test]
fn register_on_canceled_source_calls_at_once() {
    let log = Log::new();
    let cts = CancellationTokenSource::new();
    let ct = cts.token();
    cts.cancel();
    let r = ct.register(log.callback("a"));
    assert_eq!(log.get(), vec!["a"]);
    assert_eq!(r.to_debug_string(), "CancellationTokenRegistration { is_empty: true }");
}

#[test]
fn register_on_fixed_tokens() {
    let log = Log::new();
    let r = CancellationToken::new(true).register(log.callback("canceled"));
    assert_eq!(log.get(), vec!["canceled"]);
    assert_eq!(r.to_debug_string(), "CancellationTokenRegistration { is_empty: true }");
    let r = CancellationToken::new(false).register(log.callback("never"));
    assert_eq!(log.get(), vec!["canceled"]);
    assert_eq!(r.to_debug_string(), "CancellationTokenRegistration { is_empty: true }");
}

#[test]
fn register_on_live_source_is_not_empty() {
    let log = Log::new();
    let cts = CancellationTokenSource::new();
    let r = cts.token().register(log.callback("a"));
    assert_eq!(r.to_debug_string(), "CancellationTokenRegistration { is_empty: false }");
    assert!(log.get().is_empty());
}

#[test]
fn cancel_twice_calls_once() {
    let log = Log::new();
    let cts = CancellationTokenSource::new();
    let _r = cts.token().register(log.callback("a"));
    cts.cancel();
    cts.cancel();
    assert_eq!(log.get(), vec!["a"]);
}

#[test]
fn callbacks_run_in_key_order() {
    let log = Log::new();
    let cts = CancellationTokenSource::new();
    let ct = cts.token();
    let _a = ct.register(log.callback("a"));
    let b = ct.register(log.callback("b"));
    let _c = ct.register(log.callback("c"));
    drop(b);
    // The key that `b` vacated is taken again.
    let _d = ct.register(log.callback("d"));
    cts.cancel();
    assert_eq!(log.get(), vec!["a", "d", "c"]);
}

#[test]
fn unregistered_callback_is_not_called() {
    let log = Log::new();
    let cts = CancellationTokenSource::new();
    let ct = cts.token();
    let a = ct.register(log.callback("a"));
    let _b = ct.register(log.callback("b"));
    drop(a);
    cts.cancel();
    assert_eq!(log.get(), vec!["b"]);
}

#[test]
fn canceled_result() {
    let cts = CancellationTokenSource::new();
    let ct = cts.token();
    assert_eq!(ct.canceled(), Ok(()));
    cts.cancel();
    assert_eq!(ct.canceled(), Err(Canceled));
    assert_eq!(CancellationToken::new(true).canceled(), Err(Canceled));
    assert_eq!(CancellationToken::new(false).canceled(), Ok(()));
}

#[test]
fn source_token_can_be_canceled() {
    let cts = CancellationTokenSource::new();
    assert!(cts.token().can_be_canceled());
    assert!(!cts.token().is_canceled());
}

#[test]
fn canceled_from_start_source() {
    let cts = CancellationTokenSource::with_parent(&CancellationToken::new(true));
    let ct = cts.token();
    assert!(ct.can_be_canceled());
    assert!(ct.is_canceled());
    assert_eq!(
        ct.to_debug_string(),
        "CancellationToken { can_be_canceled: true, is_canceled: true }"
    );
}

#[test]
fn defaults() {
    let cts = CancellationTokenSource::default();
    assert!(!cts.is_canceled());
    let ct = CancellationToken::default();
    assert!(!ct.can_be_canceled());
    assert!(!ct.is_canceled());
    let r = CancellationTokenRegistration::default();
    assert_eq!(r.to_debug_string(), "CancellationTokenRegistration { is_empty: true }");
}

#[test]
fn clone_shares_the_source() {
    let cts = CancellationTokenSource::new();
    let other = cts.clone();
    let ct = cts.token().clone();
    other.cancel();
    assert!(cts.is_canceled());
    assert!(ct.is_canceled());
}

#[test]
fn child_cancel_leaves_parent() {
    let parent = CancellationTokenSource::new();
    let child = CancellationTokenSource::with_parent(&parent.token());
    child.cancel();
    assert!(child.is_canceled());
    assert!(!parent.is_canceled());
    parent.cancel();
    assert!(parent.is_canceled());
}

#[test]
fn child_callbacks_run_on_parent_cancel() {
    let log = Log::new();
    let parent = CancellationTokenSource::new();
    let child = CancellationTokenSource::with_parent(&parent.token());
    let _r = child.token().register(log.callback("child"));
    drop(child);
    parent.cancel();
    assert_eq!(log.get(), vec!["child"]);
}

#[test]
fn debug_strings() {
    let cts = CancellationTokenSource::new();
    assert_eq!(cts.to_debug_string(), "CancellationTokenSource { is_canceled: false }");
    assert_eq!(
        cts.token().to_debug_string(),
        "CancellationToken { can_be_canceled: true, is_canceled: false }"
    );
    cts.cancel();
    assert_eq!(cts.to_debug_string(), "CancellationTokenSource { is_canceled: true }");
    assert_eq!(
        CancellationToken::new(false).to_debug_string(),
        "CancellationToken { can_be_canceled: false, is_canceled: false }"
    );
}

#[test]
fn canceled_message() {
    assert_eq!(Canceled.to_string(), "operation has been cancelled");
}

#[test]
fn listen_kinds() {
    assert!(matches!(CancellationToken::new(false).listen(), Listen::Never));
    assert!(matches!(CancellationToken::new(true).listen(), Listen::Now));
    let cts = CancellationTokenSource::new();
    let ct = cts.token();
    assert!(matches!(ct.listen(), Listen::Waiting(_)));
}

#[test]
fn waker_registration_wakes_once_on_cancel() {
    let count = Arc::new(CountWake(AtomicUsize::new(0)));
    let waker = Waker::from(count.clone());
    let cts = CancellationTokenSource::new();
    let ct = cts.token();
    let Listen::Waiting(mut reg) = ct.listen() else {
        panic!("a source token waits");
    };
    assert!(!reg.is_canceled());
    assert!(reg.set(&waker));
    // Setting again replaces the waker under the same key: it is woken once.
    assert!(reg.set(&waker));
    cts.cancel();
    assert_eq!(count.0.load(Ordering::SeqCst), 1);
    assert!(reg.is_canceled());
    assert!(!reg.set(&waker));
    assert_eq!(count.0.load(Ordering::SeqCst), 1);
}

#[test]
fn dropped_waker_registration_is_not_woken() {
    let count = Arc::new(CountWake(AtomicUsize::new(0)));
    let waker = Waker::from(count.clone());
    let cts = CancellationTokenSource::new();
    let ct = cts.token();
    if let Listen::Waiting(mut reg) = ct.listen() {
        assert!(reg.set(&waker));
    }
    cts.cancel();
    assert_eq!(count.0.load(Ordering::SeqCst), 0);
}

#[test]
fn after_poll_outcomes() {
    let waker = Waker::noop();
    let cts = CancellationTokenSource::new();
    let ct = cts.token();
    let Listen::Waiting(mut reg) = ct.listen() else {
        panic!("a source token waits");
    };
    assert_eq!(reg.after_poll(Some(5), &waker), Some(Ok(5)));
    assert_eq!(reg.after_poll::<i32>(None, &waker), None);
    cts.cancel();
    assert_eq!(reg.after_poll::<i32>(None, &waker), Some(Err(Canceled)));
    assert_eq!(reg.after_poll(Some(7), &waker), Some(Ok(7)));
}

#[test]
fn waker_callback_registered_directly() {
    let count = Arc::new(CountWake(AtomicUsize::new(0)));
    let waker = Waker::from(count.clone());
    let cts = CancellationTokenSource::new();
    let _r1 = cts.token().register(CancelCallback::from(&waker));
    let _r2 = cts.token().register(CancelCallback::from(waker));
    cts.cancel();
    assert_eq!(count.0.load(Ordering::SeqCst), 2);
}

#[test]
fn callback_may_register_during_cancel() {
    let log = Log::new();
    let cts = CancellationTokenSource::new();
    let ct = cts.token();
    let inner_ct = ct.clone();
    let inner_log = log.clone();
    let _r = ct.register(CancelCallback::new(move || {
        // The source is canceled by now: the new callback runs at once.
        let _ = inner_ct.register(inner_log.callback("late"));
    }));
    cts.cancel();
    assert_eq!(log.get(), vec!["late"]);
}

fn assert_send_sync<T: Send + Sync>() {}

#[test]
fn types_are_send_and_sync() {
    assert_send_sync::<CancellationTokenSource>();
    assert_send_sync::<CancellationToken>();
    assert_send_sync::<CancellationTokenRegistration>();
    assert_send_sync::<CancelCallback>();
}

#[test]
fn before_poll_outcomes() {
    let cts = CancellationTokenSource::new();
    let ct = cts.token();
    let Listen::Waiting(reg) = ct.listen() else {
        panic!("a source token waits");
    };
    assert_eq!(reg.before_poll::<i32>(), None);
    cts.cancel();
    assert_eq!(reg.before_poll::<i32>(), Some(Err(Canceled)));
}
