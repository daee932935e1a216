//! The deferred-computation handle: a pollable adapter around a one-shot
//! background computation.

use vstd::prelude::*;

use crate::chan;

verus! {

/// Outcome of one poll of a [`Futurified`] handle.
pub enum PollResult<T> {
    /// No result has been delivered yet, or the handle is already drained.
    Pending,
    /// The computation's result, handed out exactly once.
    Ready(T),
}

/// Handle wrapping a blocking computation that runs on a dedicated worker
/// thread; the result comes back through a one-shot channel and is picked up
/// by non-blocking polls.
#[verifier::reject_recursive_types(T)]
#[verifier::reject_recursive_types(F)]
pub struct Futurified<T, F> where T: Send + 'static, F: FnOnce() -> T + Send + 'static {
    tx: Option<std::sync::mpsc::Sender<T>>,
    rx: std::sync::mpsc::Receiver<T>,
    wrapped: Option<F>,
    is_running: bool,
    drained: bool,
    launches: Ghost<nat>,
}

impl<T, F> Futurified<T, F> where T: Send + 'static, F: FnOnce() -> T + Send + 'static {
    /// Whether the worker thread has been launched.
    pub closed spec fn started(self) -> bool {
        self.is_running
    }

    /// Whether a delivered result has already been handed out by a poll.
    pub closed spec fn drained(self) -> bool {
        self.drained
    }

    /// The closure still waiting to be started, if any.
    pub closed spec fn pending(self) -> Option<F> {
        self.wrapped
    }

    /// How many worker threads were ever launched for this handle.
    pub closed spec fn launch_count(self) -> nat {
        self.launches@
    }

    /// Well-formedness: the closure slot and the producer endpoint are full
    /// exactly until the worker is launched, the stored closure is callable,
    /// the launch count mirrors the started flag, and a handle drains only
    /// after it has started.
    pub closed spec fn wf(self) -> bool {
        &&& (self.wrapped is Some <==> !self.is_running)
        &&& (self.tx is Some <==> !self.is_running)
        &&& (self.wrapped matches Some(f) ==> call_requires(f, ()))
        &&& self.launches@ == (if self.is_running { 1nat } else { 0nat })
        &&& (self.drained ==> self.is_running)
    }

    /// How one poll may change a handle: the poll leaves the handle started,
    /// launches the worker exactly on the first poll and never again, hands a
    /// result out exactly when the handle moves from not drained to drained,
    /// and otherwise leaves the drained state alone.
    pub open spec fn poll_transition(pre: Self, post: Self, r: PollResult<T>) -> bool {
        &&& post.started()
        &&& post.launch_count() == if pre.started() {
            pre.launch_count()
        } else {
            pre.launch_count() + 1
        }
        &&& (r is Ready <==> (!pre.drained() && post.drained()))
        &&& (r is Pending ==> post.drained() == pre.drained())
    }

    /// Reports whether the worker thread has been launched.
    pub fn is_started(&self) -> (r: bool)
        ensures
            r == self.started(),
    {
        self.is_running
    }

    /// Launches the worker thread: marks the handle started, moves the
    /// closure and the producer endpoint out, and spawns a thread that runs
    /// the closure to completion and then delivers the result; a failed
    /// delivery (the handle was abandoned) is discarded by the worker.
    fn run(&mut self)
        requires
            old(self).wf(),
            !old(self).started(),
        ensures
            final(self).wf(),
            final(self).started(),
            !final(self).drained(),
            final(self).launch_count() == old(self).launch_count() + 1,
    {
        self.is_running = true;
        self.launches = Ghost(self.launches@ + 1);
        let tx = self.tx.take().unwrap();
        let sfn = self.wrapped.take().unwrap();
        crate::launch::spawn_worker(sfn, tx);
    }

    /// Turns the channel's answer into the poll outcome: a delivered value is
    /// handed out and the handle becomes drained; no value leaves the handle
    /// unchanged, and the poll reports pending.
    fn settle(&mut self, got: Option<T>) -> (r: PollResult<T>)
        requires
            old(self).wf(),
            old(self).started(),
            !old(self).drained(),
        ensures
            final(self).wf(),
            final(self).started(),
            final(self).launch_count() == old(self).launch_count(),
            (got matches Some(v) ==> r == PollResult::Ready(v) && final(self).drained()),
            (got is None ==> r is Pending && !final(self).drained()),
    {
        match got {
            Some(v) => {
                self.drained = true;
                PollResult::Ready(v)
            },
            None => PollResult::Pending,
        }
    }

    /// Polls the handle without ever blocking: the first poll of a lazily
    /// created handle launches the worker; every poll then checks the channel
    /// for the delivered result. A result is reported ready exactly once;
    /// before it arrives, and forever after it was handed out, the poll
    /// reports pending.
    pub fn poll(&mut self) -> (r: PollResult<T>)
        requires
            old(self).wf(),
        ensures
            final(self).wf(),
            Self::poll_transition(*old(self), *final(self), r),
    {
        if !self.is_running {
            self.run();
        }
        if self.drained {
            PollResult::Pending
        } else {
            let got = chan::try_recv_value(&self.rx);
            self.settle(got)
        }
    }
}

/// Runs the wrapped computation to completion on the worker and then
/// delivers the result; a failed delivery (the handle was abandoned) is
/// discarded, and the worker ends normally.
pub(crate) fn worker_body<T, F>(sfn: F, tx: std::sync::mpsc::Sender<T>) where
    T: Send + 'static,
    F: FnOnce() -> T + Send + 'static,

    requires
        call_requires(sfn, ()),
{
    let result = sfn();
    let _ = chan::send_value(&tx, result);
}

/// Wraps a closure to be executed on a separate worker thread, lazily: the
/// worker is launched only when the returned handle is first polled, so no
/// side effect of the closure can be observed before that poll.
///
/// A later poll returns whatever the closure returns.
pub fn wrap<T, F>(wrapped: F) -> (r: Futurified<T, F>) where
    T: Send + 'static,
    F: FnOnce() -> T + Send + 'static,

    requires
        call_requires(wrapped, ()),
    ensures
        r.wf(),
        !r.started(),
        !r.drained(),
        r.launch_count() == 0,
        r.pending() == Some(wrapped),
{
    let (tx, rx) = chan::new_channel();
    Futurified {
        tx: Some(tx),
        rx,
        wrapped: Some(wrapped),
        is_running: false,
        drained: false,
        launches: Ghost(0nat),
    }
}

/// Like [`wrap`], but eager: the worker thread is already launched when the
/// handle is returned, so the closure runs even if the handle is never
/// polled.
pub fn wrap_eager<T, F>(wrapped: F) -> (r: Futurified<T, F>) where
    T: Send + 'static,
    F: FnOnce() -> T + Send + 'static,

    requires
        call_requires(wrapped, ()),
    ensures
        r.wf(),
        r.started(),
        !r.drained(),
        r.launch_count() == 1,
        r.pending() is None,
{
    let mut this = wrap(wrapped);
    this.run();
    this
}

/// A handle hands its result out at most once: when a poll has reported the
/// result ready, the poll right after it reports pending.
pub proof fn lemma_ready_at_most_once<T, F>(
    h0: Futurified<T, F>,
    h1: Futurified<T, F>,
    h2: Futurified<T, F>,
    r1: PollResult<T>,
    r2: PollResult<T>,
) where T: Send + 'static, F: FnOnce() -> T + Send + 'static
    requires
        Futurified::poll_transition(h0, h1, r1),
        Futurified::poll_transition(h1, h2, r2),
        r1 is Ready,
    ensures
        r2 is Pending,
{
}

/// Once a handle is drained it stays drained, and every further poll reports
/// pending: no second result can ever be handed out.
pub proof fn lemma_drained_stays<T, F>(
    pre: Futurified<T, F>,
    post: Futurified<T, F>,
    r: PollResult<T>,
) where T: Send + 'static, F: FnOnce() -> T + Send + 'static
    requires
        Futurified::poll_transition(pre, post, r),
        pre.drained(),
    ensures
        post.drained(),
        r is Pending,
{
}

/// The worker is launched exactly once per handle, however many rapid
/// successive polls come before completion: after any poll of a well-formed
/// handle the launch count is one, and a poll of an already started handle
/// launches nothing.
pub proof fn lemma_launch_exactly_once<T, F>(
    pre: Futurified<T, F>,
    post: Futurified<T, F>,
    r: PollResult<T>,
) where T: Send + 'static, F: FnOnce() -> T + Send + 'static
    requires
        pre.wf(),
        Futurified::poll_transition(pre, post, r),
    ensures
        post.launch_count() == 1,
        pre.started() ==> post.launch_count() == pre.launch_count(),
{
}

} // verus!
