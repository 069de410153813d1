//! Cancellation tokens, after C#'s CancellationToken API: a source sends a cancellation
//! notification, tokens receive it, and callbacks registered on a token run when it comes.
//!
//! - `registry`: the state of one source and its transitions, with exact contracts;
//!   `laws` states what holds across them.
//! - `shared`: that state behind a lock, shared between the source, its tokens and registrations.
//! - `token`: the public types.
//! - `callback`, `slab`, `sync`: callbacks, the slab that holds them, weak references.

mod callback;
pub mod laws;
pub mod registry;
mod shared;
mod slab;
mod sync;
pub mod token;

pub use callback::CancelCallback;
pub use sync::WeakRef;
pub use token::{
    Canceled, CancellationToken, CancellationTokenRegistration, CancellationTokenSource, Listen,
    MayBeCanceled, WakerRegistration,
};
