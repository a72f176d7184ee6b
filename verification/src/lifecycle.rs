//! The lifecycle controller's protocol.
//!
//! One background task runs the reactor; the controller co-owns the stop
//! signal and the task handle. Shutdown is cooperative: the stop flag is
//! written once (false to true), the reactor polls it at every iteration
//! boundary and exits as soon as it observes it, and the task is joined
//! exactly once, after the signal. The embedding keeps a [`Lifecycle`]
//! beside the real task handle as the runtime guard for that protocol.

use vstd::prelude::*;

verus! {

/// What the reactor does at an iteration boundary.
#[derive(Debug, Clone, Copy, PartialEq, Eq, Structural)]
pub enum ReactorStep {
    Exit,
    ProcessBatch,
}

/// The reactor's decision at an iteration boundary: it exits exactly when
/// the stop signal has been observed, and nothing else ends the loop. With
/// one poll per interval, shutdown latency is bounded by one polling
/// interval plus whatever batch is in flight.
pub fn reactor_step_decision(stop_observed: bool) -> (r: ReactorStep)
    ensures
        (r == ReactorStep::Exit) <==> stop_observed,
{
    if stop_observed {
        ReactorStep::Exit
    } else {
        ReactorStep::ProcessBatch
    }
}

/// How many iteration boundaries the reactor passes for a given sequence of
/// stop-flag observations, one observation per polling interval: by
/// [`reactor_step_decision`] it processes batches until the first `true`
/// observation and exits at that boundary. When no observation is `true` it
/// passes them all and keeps running.
pub open spec fn iterations_until_exit(obs: Seq<bool>) -> int
    decreases obs.len(),
{
    if obs.len() == 0 {
        0
    } else if obs.first() {
        1
    } else {
        1 + iterations_until_exit(obs.drop_first())
    }
}

/// Law: shutdown is deterministic. Once the stop flag is observed — at the
/// latest one polling interval after it is raised — the reactor passes no
/// further iteration boundary: when observation `k` is the flag, at most
/// `k + 1` boundaries are passed, however many notifications are pending.
/// The wall-clock bound is that count of polling intervals plus the batch in
/// flight.
pub proof fn lemma_shutdown_bounded(obs: Seq<bool>, k: int)
    requires
        0 <= k < obs.len(),
        obs[k],
    ensures
        iterations_until_exit(obs) <= k + 1,
    decreases k,
{
    if !obs.first() {
        assert(obs.drop_first()[k - 1] == obs[k]);
        lemma_shutdown_bounded(obs.drop_first(), k - 1);
    }
}

/// The two-state lifecycle handle: running, then stopped, then joined. The
/// stop signal is raised at most once and the task is joined exactly once,
/// after the signal; a second shutdown is a programming-invariant violation
/// the preconditions rule out.
#[derive(Debug)]
pub struct Lifecycle {
    stopped: bool,
    joined: bool,
}

impl Lifecycle {
    #[verifier::type_invariant]
    spec fn inv(&self) -> bool {
        self.joined ==> self.stopped
    }

    /// Whether the stop signal has been raised.
    pub closed spec fn is_stopped(&self) -> bool {
        self.stopped
    }

    /// Whether the background task has been joined.
    pub closed spec fn is_joined(&self) -> bool {
        self.joined
    }

    /// A fresh handle: the task runs, no stop was requested.
    pub fn new() -> (r: Self)
        ensures
            !r.is_stopped() && !r.is_joined(),
    {
        Lifecycle { stopped: false, joined: false }
    }

    /// Raises the stop signal: the single false-to-true write. Never after
    /// the task was joined.
    pub fn request_stop(&mut self)
        requires
            !old(self).is_joined(),
        ensures
            final(self).is_stopped(),
            !final(self).is_joined(),
    {
        self.stopped = true;
    }

    /// Records that the background task has exited and was joined; this
    /// happens exactly once, and only after the stop signal.
    pub fn mark_joined(&mut self)
        requires
            old(self).is_stopped(),
            !old(self).is_joined(),
        ensures
            final(self).is_stopped(),
            final(self).is_joined(),
    {
        self.joined = true;
    }

    /// Whether the stop signal has been raised; the runtime guard's test.
    pub fn stopped(&self) -> (r: bool)
        ensures
            r == self.is_stopped(),
    {
        self.stopped
    }

    /// Whether the task has been joined; the runtime guard's test.
    pub fn joined(&self) -> (r: bool)
        ensures
            r == self.is_joined(),
    {
        self.joined
    }

    /// A joined handle is always a stopped one: the task is never joined
    /// before it was asked to exit.
    pub fn joined_implies_stopped(&self)
        ensures
            self.is_joined() ==> self.is_stopped(),
    {
        proof {
            use_type_invariant(self);
        }
    }
}

} // verus!
