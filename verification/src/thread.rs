//! One background worker per path, so that a slow render never blocks the
//! shell: a request is answered with a fresh render when it arrives within
//! the compute budget, and with the last cached render otherwise. A worker
//! that has seen no request for the idle timeout announces its death and
//! stops; the next request revives it.
//!
//! Creating an operating-system thread is outside work: the caller hands
//! in a spawner that is given the worker's [`WorkerTask`], and is expected
//! to drive [`WorkerTask::serve_one`] in a loop on a thread of its own.
//! Every decision the task takes is verified here.
//!
//! Requests travel over a bounded channel that holds at most one pending
//! notification, so overlapping requests coalesce at the sender: one
//! render answers them all.

use vstd::prelude::*;
use core::time::Duration;
use std::sync::mpsc::{Receiver, Sender, SyncSender};
use crate::buffer::{PromptBuffer, PromptBufferPlugin};
use crate::render::render_spec;

verus! {

/// How long a worker may sit without a request before it tears itself
/// down, in milliseconds.
pub const IDLE_TIMEOUT_MS: u64 = 10 * 60 * 1000;

/// How long a request waits for a fresh render before falling back to the
/// cached one, in milliseconds.
pub const COMPUTE_BUDGET_MS: u64 = 100;

/// How many buffered responses one request is prepared to drain. The
/// request channel holds at most one pending notification, so at most one
/// render is in flight and at most one more can follow it: no more than a
/// couple of responses are ever buffered, and this limit is generous
/// slack. A bound is needed at all only because how much sits in the
/// channel depends on the background task, so the drain loop must carry
/// its own.
pub const DRAIN_LIMIT: usize = 32;

/// Why a worker operation failed.
#[derive(Clone, Copy, PartialEq, Eq, Structural, Debug)]
pub enum PromptBufferError {
    /// The background task could not be created.
    SpawnError,
    /// A channel peer closed unexpectedly during a send.
    ChannelError,
}

/// The result of a worker operation.
pub type PromptBufferResult<T> = Result<T, PromptBufferError>;

#[verifier::external_type_specification]
#[verifier::external_body]
#[verifier::reject_recursive_types(T)]
pub struct ExSender<T>(Sender<T>);

#[verifier::external_type_specification]
#[verifier::external_body]
#[verifier::reject_recursive_types(T)]
pub struct ExSyncSender<T>(SyncSender<T>);

#[verifier::external_type_specification]
#[verifier::external_body]
#[verifier::reject_recursive_types(T)]
pub struct ExReceiver<T>(Receiver<T>);

/// Relies on std::sync::mpsc::channel: creates a paired sender and
/// receiver with an unbounded buffer.
pub assume_specification<T>[ std::sync::mpsc::channel::<T> ]() -> (r: (Sender<T>, Receiver<T>));

/// Relies on std::sync::mpsc::sync_channel: creates a paired sender and
/// receiver whose buffer holds at most `bound` values.
pub assume_specification<T>[ std::sync::mpsc::sync_channel::<T> ](bound: usize) -> (r: (
    SyncSender<T>,
    Receiver<T>,
));

/// Relies on core::time::Duration::from_millis: a duration of the given
/// number of milliseconds.
pub assume_specification[ Duration::from_millis ](millis: u64) -> (r: Duration);

/// The outcome of a non-blocking bounded-channel send.
pub enum SendOutcome {
    /// The value was queued.
    Sent,
    /// The buffer already holds a value; nothing was queued.
    AlreadyPending,
    /// The receiving side is gone.
    Closed,
}

/// The outcome of a bounded-wait receive.
pub enum RecvOutcome<T> {
    /// A value arrived before the deadline.
    Got(T),
    /// The deadline passed with nothing received.
    TimedOut,
    /// The sending side is gone; nothing will arrive.
    Closed,
}

/// Relies on mpsc::SyncSender::try_send: queues the value without
/// blocking, reporting a full buffer and a hung-up peer apart. Which
/// outcome comes back depends on the other side, so nothing is promised
/// of it.
#[verifier::external_body]
fn try_send_unit(s: &SyncSender<()>) -> SendOutcome {
    match s.try_send(()) {
        Ok(()) => SendOutcome::Sent,
        Err(std::sync::mpsc::TrySendError::Full(_)) => SendOutcome::AlreadyPending,
        Err(std::sync::mpsc::TrySendError::Disconnected(_)) => SendOutcome::Closed,
    }
}

/// Relies on mpsc::Sender::send: hands the value to the paired receiver,
/// failing exactly when the receiver is gone. Nothing can be promised
/// here: whether the peer is alive depends on the other side.
#[verifier::external_body]
fn send_unit(s: &Sender<()>) -> bool {
    s.send(()).is_ok()
}

/// Relies on mpsc::Sender::send, as [`send_unit`] does.
#[verifier::external_body]
fn send_string(s: &Sender<String>, text: String) -> bool {
    s.send(text).is_ok()
}

/// Relies on mpsc::Receiver::recv_timeout: waits up to the given duration
/// for a value from the paired sender. Which outcome comes back depends on
/// the other side and the clock, so nothing is promised of it.
#[verifier::external_body]
fn recv_timeout_unit(r: &Receiver<()>, d: Duration) -> RecvOutcome<()> {
    match r.recv_timeout(d) {
        Ok(v) => RecvOutcome::Got(v),
        Err(std::sync::mpsc::RecvTimeoutError::Timeout) => RecvOutcome::TimedOut,
        Err(std::sync::mpsc::RecvTimeoutError::Disconnected) => RecvOutcome::Closed,
    }
}

/// Relies on mpsc::Receiver::recv_timeout, as [`recv_timeout_unit`] does.
#[verifier::external_body]
fn recv_timeout_string(r: &Receiver<String>, d: Duration) -> RecvOutcome<String> {
    match r.recv_timeout(d) {
        Ok(v) => RecvOutcome::Got(v),
        Err(std::sync::mpsc::RecvTimeoutError::Timeout) => RecvOutcome::TimedOut,
        Err(std::sync::mpsc::RecvTimeoutError::Disconnected) => RecvOutcome::Closed,
    }
}

/// Relies on mpsc::Receiver::try_recv: non-blocking poll; true exactly
/// when a value was pending. Whether one is pending depends on the other
/// side, so nothing is promised of the outcome.
#[verifier::external_body]
fn try_recv_unit(r: &Receiver<()>) -> bool {
    r.try_recv().is_ok()
}

/// Relies on mpsc::Receiver::try_recv, as [`try_recv_unit`] does.
#[verifier::external_body]
fn try_recv_string(r: &Receiver<String>) -> Option<String> {
    match r.try_recv() {
        Ok(v) => Some(v),
        Err(_) => None,
    }
}

/// A worker's background task: the buffer it renders with and its ends of
/// the three channels. The spawner given to [`PromptThread::new`] receives
/// one of these and is expected to loop `while task.serve_one() {}` on a
/// thread of its own.
pub struct WorkerTask<P: PromptBufferPlugin> {
    pub prompt: PromptBuffer<P>,
    pub idle_ms: u64,
    pub notify: Receiver<()>,
    pub responses: Sender<String>,
    pub death: Sender<()>,
}

impl<P: PromptBufferPlugin> WorkerTask<P> {
    /// One turn of the background loop: wait for a request or the idle
    /// tick, whichever comes first. A request is answered with a full
    /// render; a request notification that arrived while rendering is then
    /// cleared, since the answer just sent serves it too, and the render
    /// is not re-triggered. On the idle tick the task announces its death
    /// (best effort) and asks to stop; it also asks to stop when the
    /// requesting side is gone. Returns whether the loop should go on.
    pub fn serve_one(&mut self) -> (go_on: bool)
        ensures
            final(self).idle_ms == old(self).idle_ms,
            final(self).prompt.path == old(self).prompt.path,
            final(self).prompt.plugins@.len() == old(self).prompt.plugins@.len(),
    {
        let idle = Duration::from_millis(self.idle_ms);
        match recv_timeout_unit(&self.notify, idle) {
            RecvOutcome::Got(_) => {
                let text = self.prompt.to_string();
                if send_string(&self.responses, text) {
                    let _ = try_recv_unit(&self.notify);
                    true
                } else {
                    false
                }
            },
            RecvOutcome::TimedOut => {
                let _ = send_unit(&self.death);
                false
            },
            RecvOutcome::Closed => false,
        }
    }
}

/// One per-path worker: the channels to its background task, the path it
/// renders for, the last known-good output, and whether the task is still
/// believed alive.
pub struct PromptThread {
    pub send: SyncSender<()>,
    pub recv: Receiver<String>,
    pub death: Receiver<()>,
    pub path: String,
    pub idle_ms: u64,
    pub cached: String,
    pub alive: bool,
}

impl PromptThread {
    /// A worker is well formed once its cache holds a render: the cache is
    /// seeded at construction and never emptied after.
    pub open spec fn wf(self) -> bool {
        self.cached@.len() > 0
    }

    /// Creates a worker for `path` with the given idle timeout: seeds the
    /// cache synchronously with the fast render, then hands the background
    /// task to `spawner`. Fails with a spawn error exactly when the
    /// spawner reports failure.
    pub fn new_with_idle_timeout<P, F, S>(
        path: String,
        make_prompt: &F,
        spawner: &S,
        idle_ms: u64,
    ) -> (r: PromptBufferResult<PromptThread>)
        where
            P: PromptBufferPlugin,
            F: Fn() -> PromptBuffer<P>,
            S: Fn(WorkerTask<P>) -> bool,
        requires
            call_requires(*make_prompt, ()),
            forall|t: WorkerTask<P>| call_requires(*spawner, (t,)),
        ensures
            r matches Ok(t) ==> t.wf() && t.alive && t.path@ == path@ && t.idle_ms == idle_ms
                && t.cached@ == render_spec(Seq::empty()),
            r matches Err(e) ==> e == PromptBufferError::SpawnError,
            r is Err ==> exists|t: WorkerTask<P>| call_ensures(*spawner, (t,), false),
    {
        let (tx_notify, rx_notify) = std::sync::mpsc::sync_channel::<()>(1);
        let (tx_prompt, rx_prompt) = std::sync::mpsc::channel::<String>();
        let (tx_death, rx_death) = std::sync::mpsc::channel::<()>();

        let mut prompt = make_prompt();
        let cached = prompt.to_string_fast();
        prompt.set_path(path.clone());

        let task = WorkerTask {
            prompt,
            idle_ms,
            notify: rx_notify,
            responses: tx_prompt,
            death: tx_death,
        };
        let ghost handed = task;
        if !spawner(task) {
            proof {
                assert(call_ensures(*spawner, (handed,), false));
            }
            return Err(PromptBufferError::SpawnError);
        }

        Ok(
            PromptThread {
                send: tx_notify,
                recv: rx_prompt,
                death: rx_death,
                path,
                idle_ms,
                cached,
                alive: true,
            },
        )
    }

    /// Creates a worker for `path` with the default idle timeout.
    pub fn new<P, F, S>(path: String, make_prompt: &F, spawner: &S) -> (r: PromptBufferResult<
        PromptThread,
    >)
        where
            P: PromptBufferPlugin,
            F: Fn() -> PromptBuffer<P>,
            S: Fn(WorkerTask<P>) -> bool,
        requires
            call_requires(*make_prompt, ()),
            forall|t: WorkerTask<P>| call_requires(*spawner, (t,)),
        ensures
            r matches Ok(t) ==> t.wf() && t.alive && t.path@ == path@ && t.idle_ms
                == IDLE_TIMEOUT_MS && t.cached@ == render_spec(Seq::empty()),
            r matches Err(e) ==> e == PromptBufferError::SpawnError,
            r is Err ==> exists|t: WorkerTask<P>| call_ensures(*spawner, (t,), false),
    {
        PromptThread::new_with_idle_timeout(path, make_prompt, spawner, IDLE_TIMEOUT_MS)
    }

    /// Folds one poll of the death signal into the liveness flag: the
    /// worker stays alive exactly when it was alive and no signal was
    /// seen; nothing else changes.
    fn observe_death(&mut self, dead: bool)
        ensures
            final(self).alive == (old(self).alive && !dead),
            final(self).cached == old(self).cached,
            final(self).path == old(self).path,
            final(self).idle_ms == old(self).idle_ms,
            final(self).send == old(self).send,
            final(self).recv == old(self).recv,
            final(self).death == old(self).death,
    {
        if dead {
            self.alive = false;
        }
    }

    /// Polls the death signal without blocking; once a death announcement
    /// has been seen, the worker counts as dead until revived. Safe to
    /// call any number of times.
    pub fn check_is_alive(&mut self) -> (r: bool)
        ensures
            r == final(self).alive,
            final(self).alive ==> old(self).alive,
            final(self).cached == old(self).cached,
            final(self).path == old(self).path,
            final(self).idle_ms == old(self).idle_ms,
    {
        let dead = try_recv_unit(&self.death);
        self.observe_death(dead);
        self.alive
    }

    fn revive<P, F, S>(&mut self, make_prompt: &F, spawner: &S) -> (r: PromptBufferResult<()>)
        where
            P: PromptBufferPlugin,
            F: Fn() -> PromptBuffer<P>,
            S: Fn(WorkerTask<P>) -> bool,
        requires
            call_requires(*make_prompt, ()),
            forall|t: WorkerTask<P>| call_requires(*spawner, (t,)),
        ensures
            r is Ok ==> final(self).wf() && final(self).alive && final(self).path@ == old(
                self,
            ).path@ && final(self).idle_ms == old(self).idle_ms && final(self).cached@
                == render_spec(Seq::empty()),
            r matches Err(e) ==> e == PromptBufferError::SpawnError && *final(self) == *old(self),
    {
        match PromptThread::new_with_idle_timeout(
            self.path.clone(),
            make_prompt,
            spawner,
            self.idle_ms,
        ) {
            Ok(t) => {
                *self = t;
                Ok(())
            },
            Err(e) => Err(e),
        }
    }

    /// Decides what a request hands back from what the bounded wait
    /// produced. A non-empty response becomes the new cached output; an
    /// empty one — which the background task never sends, since every
    /// render holds at least the marker row — is kept out of the cache. On
    /// a timeout or a closed channel nothing changes. Either way the
    /// (new) cached output is returned.
    fn settle(&mut self, outcome: RecvOutcome<String>) -> (r: String)
        requires
            old(self).wf(),
        ensures
            final(self).wf(),
            r@ == final(self).cached@,
            final(self).path == old(self).path,
            final(self).idle_ms == old(self).idle_ms,
            final(self).alive == old(self).alive,
            final(self).send == old(self).send,
            final(self).recv == old(self).recv,
            final(self).death == old(self).death,
            match outcome {
                RecvOutcome::Got(text) => (text@.len() > 0 ==> final(self).cached@ == text@) && (
                text@.len() == 0 ==> final(self).cached == old(self).cached),
                RecvOutcome::TimedOut => final(self).cached == old(self).cached,
                RecvOutcome::Closed => final(self).cached == old(self).cached,
            },
    {
        match outcome {
            RecvOutcome::Got(text) => {
                if !text.as_str().is_empty() {
                    self.cached = text;
                }
            },
            RecvOutcome::TimedOut => {},
            RecvOutcome::Closed => {},
        }
        self.cached.clone()
    }

    /// Asks the worker for a render of its path, reviving it first if it
    /// has died. The call waits at most the compute budget: a fresh result
    /// arriving in time becomes the new cached output and is returned;
    /// otherwise the cached output is returned unchanged, and the
    /// computation, which is not cancelled, is drained or adopted by a
    /// later call. Fails with a channel error exactly when the request
    /// cannot be delivered, and with a spawn error exactly when a revival
    /// fails; an error never loses the cached output, which is the prior
    /// one or, when a revival got that far, the fresh seed.
    pub fn get<P, F, S>(&mut self, make_prompt: &F, spawner: &S) -> (r: PromptBufferResult<String>)
        where
            P: PromptBufferPlugin,
            F: Fn() -> PromptBuffer<P>,
            S: Fn(WorkerTask<P>) -> bool,
        requires
            old(self).wf(),
            call_requires(*make_prompt, ()),
            forall|t: WorkerTask<P>| call_requires(*spawner, (t,)),
        ensures
            final(self).wf(),
            final(self).path@ == old(self).path@,
            final(self).idle_ms == old(self).idle_ms,
            r matches Ok(text) ==> final(self).alive && text@ == final(self).cached@
                && text@.len() > 0,
            r matches Err(e) ==> e == PromptBufferError::SpawnError || e
                == PromptBufferError::ChannelError,
            r is Err ==> final(self).cached@ == old(self).cached@ || final(self).cached@
                == render_spec(Seq::empty()),
    {
        if !self.check_is_alive() {
            match self.revive(make_prompt, spawner) {
                Ok(_) => {},
                Err(e) => {
                    return Err(e);
                },
            }
        }

        // a full buffer means a request is already pending, which the next
        // answer serves just as well
        match try_send_unit(&self.send) {
            SendOutcome::Sent => {},
            SendOutcome::AlreadyPending => {},
            SendOutcome::Closed => {
                return Err(PromptBufferError::ChannelError);
            },
        }

        let budget = Duration::from_millis(COMPUTE_BUDGET_MS);
        let outcome = match recv_timeout_string(&self.recv, budget) {
            RecvOutcome::Got(first) => {
                // keep only the last buffered response: earlier ones are
                // superseded
                let mut text = first;
                let mut more = true;
                let mut n: usize = 0;
                while more && n < DRAIN_LIMIT
                    invariant
                        n <= DRAIN_LIMIT,
                    decreases DRAIN_LIMIT - n + (if more {
                        1int
                    } else {
                        0int
                    }),
                {
                    match try_recv_string(&self.recv) {
                        Some(t) => {
                            text = t;
                            n = n + 1;
                        },
                        None => {
                            more = false;
                        },
                    }
                }
                RecvOutcome::Got(text)
            },
            RecvOutcome::TimedOut => RecvOutcome::TimedOut,
            RecvOutcome::Closed => RecvOutcome::Closed,
        };
        Ok(self.settle(outcome))
    }
}

} // verus!
