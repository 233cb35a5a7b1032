use vstd::prelude::*;

verus! {

/// What a provider's prerequisite check observes about the environment:
/// whether the required external tool is on the search path, and whether
/// the expected project marker file is present. The check itself mutates
/// nothing; it only reads this snapshot.
#[derive(Clone, Copy, Debug)]
pub struct PrereqEnv {
    pub tool_present: bool,
    pub marker_present: bool,
}

/// Observed result of one external package-manager invocation.
#[derive(Debug)]
pub enum RunOutcome {
    /// The process could not be started; the detail is the launcher's error text.
    CouldNotStart(String),
    /// The process ran to completion, with its exit status and captured stderr.
    Completed { exit_success: bool, stderr: String },
}

impl RunOutcome {
    /// The failure text of the invocation, if it failed: the launcher's error
    /// text when the process never started, or the captured stderr when it
    /// exited unsuccessfully.
    pub open spec fn failure(self) -> Option<Seq<char>> {
        match self {
            RunOutcome::CouldNotStart(d) => Some(d@),
            RunOutcome::Completed { exit_success, stderr } => if exit_success {
                None
            } else {
                Some(stderr@)
            },
        }
    }
}

/// Observed result of writing one configuration file (full-file overwrite,
/// creating it if absent).
#[derive(Debug)]
pub enum WriteOutcome {
    Written,
    WriteFailed(String),
}

/// Observed result of deleting one file a provider had created. A file that
/// was already absent is not a failure: removal is idempotent.
#[derive(Debug)]
pub enum DeleteOutcome {
    Absent,
    Deleted,
    DeleteFailed(String),
}

/// The detail text of the first failed deletion in a sequence of cleanup
/// outcomes, if any deletion failed.
pub open spec fn first_delete_failure(s: Seq<DeleteOutcome>) -> Option<Seq<char>>
    decreases s.len(),
{
    if s.len() == 0 {
        None
    } else {
        match s.first() {
            DeleteOutcome::DeleteFailed(d) => Some(d@),
            _ => first_delete_failure(s.drop_first()),
        }
    }
}

} // verus!
