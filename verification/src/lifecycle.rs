//! Starting and stopping the worker.
//!
//! A sampler has at most one worker. Starting is a test-and-set on the running
//! flag: whoever finds the flag clear sets it and spawns the worker, and
//! whoever finds it set does nothing. Stopping clears the flag and joins the
//! worker, if there is one. A [`WorkerControl`] makes these decisions and
//! counts the workers; the caller spawns and joins the threads.

use vstd::prelude::*;

verus! {

/// The running flag of a sampler, and the number of its workers that have
/// been spawned and not joined.
#[derive(Debug)]
pub struct WorkerControl {
    running: bool,
    workers: usize,
}

impl WorkerControl {
    /// There is one worker while the flag is set, and none while it is clear.
    #[verifier::type_invariant]
    spec fn one_worker_while_running(self) -> bool {
        self.workers == if self.running {
            1usize
        } else {
            0usize
        }
    }

    /// Whether the running flag is set.
    pub closed spec fn running(self) -> bool {
        self.running
    }

    /// The number of workers that have been spawned and not joined.
    pub closed spec fn workers(self) -> nat {
        self.workers as nat
    }

    /// The control of a sampler that has not been started.
    pub fn new() -> (r: Self)
        ensures
            !r.running(),
            r.workers() == 0,
    {
        WorkerControl { running: false, workers: 0 }
    }

    /// Whether the sampler is running. The number of workers is one where it
    /// is, and zero where it is not.
    pub fn is_running(&self) -> (b: bool)
        ensures
            b == self.running(),
            self.workers() == if b {
                1nat
            } else {
                0nat
            },
    {
        proof {
            use_type_invariant(self);
        }
        self.running
    }

    /// Sets the running flag. Returns whether the caller has to spawn the
    /// worker: `true` where the flag was clear, `false` where the sampler was
    /// running already. Either way exactly one worker exists afterwards, once
    /// the caller has done as told.
    pub fn start(&mut self) -> (spawn: bool)
        ensures
            spawn == !old(self).running(),
            final(self).running(),
            final(self).workers() == 1,
            final(self).workers() == old(self).workers() + if spawn {
                1nat
            } else {
                0nat
            },
    {
        proof {
            use_type_invariant(&*self);
        }
        if self.running {
            false
        } else {
            *self = WorkerControl { running: true, workers: 1 };
            true
        }
    }

    /// Clears the running flag. Returns the number of workers that the caller
    /// has to join: every worker there was. No worker exists afterwards, once
    /// the caller has done as told.
    pub fn stop(&mut self) -> (joined: usize)
        ensures
            !final(self).running(),
            final(self).workers() == 0,
            joined == old(self).workers(),
            joined <= 1,
    {
        proof {
            use_type_invariant(&*self);
        }
        let joined = self.workers;
        *self = WorkerControl { running: false, workers: 0 };
        joined
    }
}

} // verus!
