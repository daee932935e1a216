//! Trusted boundary around the worker launcher.

use vstd::prelude::*;

verus! {

/// Relies on futures::executor::ThreadPool: a fresh pool of exactly one
/// worker runs the queued task to completion before it sees the close
/// message that dropping the pool handle leaves behind, so the task still
/// runs although the handle is dropped at once, and the worker shuts down
/// afterwards. The task only calls the library's own worker routine on the
/// moved-in closure and producer endpoint. Creating the pool aborts only
/// when the operating system refuses to supply a worker.
#[verifier::external_body]
pub(crate) fn spawn_worker<T, F>(sfn: F, tx: std::sync::mpsc::Sender<T>) where
    T: Send + 'static,
    F: FnOnce() -> T + Send + 'static,

    requires
        call_requires(sfn, ()),
{
    let pool = futures::executor::ThreadPool::builder()
        .pool_size(1)
        .create()
        .expect("failed to launch the worker");
    pool.spawn_ok(futures::future::lazy(move |_| crate::adapter::worker_body(sfn, tx)));
}

} // verus!
