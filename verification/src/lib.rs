//! Clipboard-watching core: content model, identity and ordering of clip
//! entries, sensitive-format filtering and format ranking, a bounded phased
//! reconnect schedule, and a level-triggered change channel.

use vstd::prelude::*;

pub mod content;
pub mod entry;
pub mod facade;
pub mod filter;
pub mod kind;
pub mod listener;
pub mod pubsub;
pub mod retry;
pub mod text;

pub use content::ClipboardContent;
pub use entry::ClipEntry;
pub use filter::ClipFilter;
pub use kind::ClipboardKind;
pub use listener::ListenerKind;
pub use pubsub::{Publisher, Subscriber, WaitStatus};
pub use retry::RetryInterval;

verus! {

/// Failures surfaced by the library.
#[derive(Clone, Copy, Debug, PartialEq, Eq, Structural)]
pub enum Error {
    /// The display server was unreachable when a listener was constructed;
    /// fatal, returned to the constructor's caller.
    ConnectionError,
    /// The change channel was closed by its publisher; terminal for waiters.
    NotifierClosed,
    /// Reconnect attempts were exhausted; carries the attempt ceiling.
    RetryLimitReached { value: usize },
    /// The listener is shutting down, so reconnecting was abandoned.
    ListenerIsClosing,
    /// No content was available in the requested (or any) format.
    Empty,
}

} // verus!
