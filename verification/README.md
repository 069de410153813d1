# cancellation_token

Cancellation tokens after C#'s `CancellationToken` API, verified with Verus.

A `CancellationTokenSource` sends a cancellation notification; the `CancellationToken`s it
hands out receive it. Callbacks registered on a token run, synchronously and in the order of
their keys, when the source is canceled, or at once when it is canceled already (the contracts
of `Data::into_parts` and `run_listeners` state this for the callbacks a cancel takes out of
the source: each runs, in key order, unless its registration was revoked); dropping the
returned `CancellationTokenRegistration` unregisters the callback. A source made with a parent
token is canceled when the parent is.

## Layout

- `src/registry.rs`: the state of one source (the keys of its registered callbacks while it is
  live, nothing once it is canceled) and its transitions, with exact contracts.
- `src/laws.rs`: laws of that state machine (a canceled source stays canceled, unregistering
  undoes registering, and so on), proved.
- `src/shared.rs`: the state behind a `std::sync::Mutex`, shared by a source, its tokens and
  registrations; each operation applies one transition under the lock and calls callbacks
  only after unlocking. A registration dropped while the lock is held elsewhere raises its
  revocation flag instead of waiting, and a callback whose flag is raised is not called.
- `src/token.rs`: the public types.
- `src/callback.rs`, `src/slab.rs`, `src/sync.rs`: callbacks, the `slabmap::SlabMap` that holds
  them, and weak references, with the trusted declarations of the outside code they call.
- `app/lib.rs`: what Verus does not take: `async` waiting (`wait`, `run`), the
  `CancelOnDrop` guard, and `Display`/`Error` for the cancellation marker.
- `tests/`: scenarios of the API, and the laws on concrete values.
