//! The completion signal: one write-once flag per job.

use vstd::prelude::*;

verus! {

/// Whether the command's output has been drained and logged.
///
/// A job's flag is `Pending` until both sinks have answered for the terminal
/// marker and `Done` from then on; see [`crate::job::Job::flag`].
#[derive(Clone, Copy, Debug, PartialEq, Eq, Structural)]
pub enum CompletionFlag {
    Pending,
    Done,
}

impl CompletionFlag {
    /// `true` exactly when the flag is `Done`.
    pub fn is_done(&self) -> (done: bool)
        ensures
            done == (*self == CompletionFlag::Done),
    {
        match self {
            CompletionFlag::Done => true,
            CompletionFlag::Pending => false,
        }
    }
}

} // verus!
