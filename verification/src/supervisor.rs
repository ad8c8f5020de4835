//! Owns the worker for the currently active path: the first request for a
//! path creates its worker, a request for a different path replaces it,
//! and a dead worker revives itself inside `get`.

use vstd::prelude::*;
use crate::buffer::{PromptBuffer, PromptBufferPlugin};
use crate::thread::{PromptBufferError, PromptBufferResult, PromptThread, WorkerTask};

verus! {

/// The registry of workers, keyed by path; at most one, for the currently
/// active path, is kept.
pub struct Supervisor {
    pub workers: Vec<PromptThread>,
}

impl Supervisor {
    /// At most one worker is owned, and every owned worker is well formed.
    pub open spec fn wf(self) -> bool {
        &&& self.workers@.len() <= 1
        &&& forall|i: int| 0 <= i < self.workers@.len() ==> self.workers@[i].wf()
    }

    /// A supervisor that owns no worker yet.
    pub fn new() -> (r: Supervisor)
        ensures
            r.wf(),
            r.workers@.len() == 0,
    {
        Supervisor { workers: Vec::new() }
    }

    /// Renders `path`: gets or creates the worker for it, asks it for a
    /// render, and surfaces the worker's errors unchanged. A request for a
    /// path other than the current worker's replaces the worker.
    pub fn render<P, F, S>(&mut self, path: String, make_prompt: &F, spawner: &S) -> (r:
        PromptBufferResult<String>)
        where
            P: PromptBufferPlugin,
            F: Fn() -> PromptBuffer<P>,
            S: Fn(WorkerTask<P>) -> bool,
        requires
            old(self).wf(),
            call_requires(*make_prompt, ()),
            forall|t: WorkerTask<P>| call_requires(*spawner, (t,)),
        ensures
            final(self).wf(),
            r is Ok ==> final(self).workers@.len() == 1 && final(self).workers@[0].path@ == path@,
            r matches Ok(text) ==> text@.len() > 0 && text@ == final(self).workers@[0].cached@,
            r matches Err(e) ==> e == PromptBufferError::SpawnError || e
                == PromptBufferError::ChannelError,
    {
        let same = self.workers.len() == 1 && self.workers[0].path == path;
        if !same {
            self.workers.clear();
            match PromptThread::new(path, make_prompt, spawner) {
                Ok(t) => {
                    self.workers.push(t);
                },
                Err(e) => {
                    return Err(e);
                },
            }
        }
        let r = self.workers[0].get(make_prompt, spawner);
        proof {
            assert(self.workers@.len() == 1);
            assert(self.workers@[0].wf());
        }
        r
    }
}

} // verus!
