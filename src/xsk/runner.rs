use vstd::prelude::*;

use std::sync::atomic::{AtomicBool, Ordering};
use std::sync::Arc;

verus! {

/// The running flag that the RX threads share, and the shutdown pipe that
/// wakes them from `poll`.
#[derive(Clone)]
pub struct Runner {
    pub running: Arc<AtomicBool>,
    pub pipe_fds: [i32; 2],
}

impl Runner {
    /// A running runner over the pipe `pipe_fds` (read end first).
    pub fn new(pipe_fds: [i32; 2]) -> (r: Self)
        ensures
            r.pipe_fds == pipe_fds,
    {
        Runner { running: Arc::new(AtomicBool::new(true)), pipe_fds }
    }

    /// The runner has not been stopped. Other threads may stop it at any
    /// time, so nothing is claimed of the answer.
    pub fn is_running(&self) -> bool {
        self.running.load(Ordering::SeqCst)
    }

    /// The read end of the shutdown pipe.
    pub fn pipe_reader_fd(&self) -> (r: i32)
        ensures
            r == self.pipe_fds[0],
    {
        self.pipe_fds[0]
    }

    /// The write end of the shutdown pipe.
    pub fn pipe_writer_fd(&self) -> (r: i32)
        ensures
            r == self.pipe_fds[1],
    {
        self.pipe_fds[1]
    }

    /// Clears the running flag; returns whether it was set, in which case
    /// the caller writes into the shutdown pipe to wake the threads.
    pub fn stop(&self) -> bool {
        self.running.swap(false, Ordering::SeqCst)
    }
}

} // verus!
