//! Cancellable units of work, optionally backed by an OS process.
//!
//! Cancelling the asynchronous work alone cannot reach a privileged
//! subprocess running under an elevation helper, so a forced abort must
//! also ask for an OS-level kill of the recorded pid. The caller performs
//! the cancellation and the kill; the handle records what must be done.

use vstd::prelude::*;

verus! {

/// Record of a spawned unit of work.
pub struct TaskHandle {
    cancelled: bool,
    process: Option<u32>,
}

/// What the caller must do after an abort: cancel the asynchronous work,
/// and, for a forced abort of a process-backed task, kill the recorded pid.
pub struct AbortEffect {
    pub kill_pid: Option<u32>,
}

impl TaskHandle {
    /// Whether the task was aborted.
    pub closed spec fn cancelled(&self) -> bool {
        self.cancelled
    }

    /// The recorded OS pid, for process-backed tasks.
    pub closed spec fn process(&self) -> Option<u32> {
        self.process
    }

    /// A handle for plain asynchronous work.
    pub fn new() -> (r: TaskHandle)
        ensures
            !r.cancelled(),
            r.process() is None,
    {
        TaskHandle { cancelled: false, process: None }
    }

    /// A handle for work backed by the OS process `pid`.
    pub fn new_process(pid: u32) -> (r: TaskHandle)
        ensures
            !r.cancelled(),
            r.process() == Some(pid),
    {
        TaskHandle { cancelled: false, process: Some(pid) }
    }

    /// Abort the work. A graceful abort only cancels; a forced abort also
    /// demands an OS-level kill of the recorded pid, since cancelling the
    /// asynchronous work cannot reach an elevated subprocess.
    pub fn abort(&mut self, graceful: bool) -> (e: AbortEffect)
        ensures
            final(self).cancelled(),
            final(self).process() == old(self).process(),
            e.kill_pid == if graceful {
                None::<u32>
            } else {
                old(self).process()
            },
    {
        self.cancelled = true;
        if graceful {
            AbortEffect { kill_pid: None }
        } else {
            AbortEffect { kill_pid: self.process }
        }
    }
}

} // verus!
