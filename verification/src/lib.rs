//! Turn a blocking computation into a non-blocking, pollable handle.
//!
//! A closure is wrapped into a [`Futurified`] handle. The closure runs on a
//! dedicated worker thread, either started eagerly at construction
//! ([`wrap_eager`]) or lazily on the first poll ([`wrap`]). Each poll performs
//! a non-blocking check for the delivered result and never stalls the calling
//! thread.

mod adapter;
mod chan;
mod launch;

pub use adapter::Futurified;
pub use adapter::PollResult;
pub use adapter::lemma_drained_stays;
pub use adapter::lemma_launch_exactly_once;
pub use adapter::lemma_ready_at_most_once;
pub use adapter::wrap;
pub use adapter::wrap_eager;
