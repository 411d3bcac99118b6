//! Collecting children that have ended, so that none stays behind as a
//! zombie.

use nix::errno::Errno;
use nix::sys::wait::WaitPidFlag;
use nix::sys::wait::WaitStatus;
use vstd::prelude::*;

verus! {

/// What the operating system reports about a child, as far as the
/// supervisor tells the cases apart.
#[derive(Clone, Copy, Debug, PartialEq, Eq, Structural)]
pub enum ChildStatus {
    /// A child exited, and its status was collected.
    Exited,
    /// A child was killed by a signal, and its status was collected.
    Signaled,
    /// A child was stopped by a signal.
    Stopped,
    /// A traced child was stopped by a trace event.
    PtraceEvent,
    /// A traced child was stopped at a system call.
    PtraceSyscall,
    /// A stopped child went on.
    Continued,
    /// No child has a change of state to report.
    StillAlive,
}

/// The process id that stands for any child of the calling process.
pub const ANY_CHILD: i32 = -1;

/// `waitpid` of nix with the flag `WNOHANG`, for the process id with the
/// number `pid`: asks the operating system, without waiting, for a child
/// that changed state. The answer keeps the variant of the status and
/// drops its fields. What comes back is up to the operating system.
#[verifier::external_body]
pub(crate) fn collect_child(pid: i32) -> (outcome: Result<ChildStatus, Errno>) {
    match nix::sys::wait::waitpid(nix::unistd::Pid::from_raw(pid), Some(WaitPidFlag::WNOHANG)) {
        Ok(WaitStatus::Exited(..)) => Ok(ChildStatus::Exited),
        Ok(WaitStatus::Signaled(..)) => Ok(ChildStatus::Signaled),
        Ok(WaitStatus::Stopped(..)) => Ok(ChildStatus::Stopped),
        Ok(WaitStatus::PtraceEvent(..)) => Ok(ChildStatus::PtraceEvent),
        Ok(WaitStatus::PtraceSyscall(..)) => Ok(ChildStatus::PtraceSyscall),
        Ok(WaitStatus::Continued(..)) => Ok(ChildStatus::Continued),
        Ok(WaitStatus::StillAlive) => Ok(ChildStatus::StillAlive),
        Err(e) => Err(e),
    }
}

/// Whether an answer ends the drain: nothing is pending any more, or the
/// operating system reported an error (as it does when no child is left).
pub open spec fn ends_drain(outcome: Result<ChildStatus, Errno>) -> bool {
    match outcome {
        Ok(status) => status == ChildStatus::StillAlive,
        Err(_) => true,
    }
}

/// Tells whether an answer ends the drain.
pub fn drain_is_over(outcome: &Result<ChildStatus, Errno>) -> (over: bool)
    ensures
        over == ends_drain(*outcome),
{
    match outcome {
        Ok(ChildStatus::StillAlive) => true,
        Ok(_) => false,
        Err(_) => true,
    }
}

/// The account of one drain.
#[derive(Debug)]
pub struct Drained {
    /// How many answers came before the last one; each of them reported a
    /// child whose change of state was collected.
    pub collected: u64,
    /// The answer after which the drain stopped.
    pub last: Result<ChildStatus, Errno>,
}

} // verus!
