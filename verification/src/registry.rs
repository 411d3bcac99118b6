//! The process id of the child, shared between the thread that launches the
//! child and the thread that forwards signals to it.

use vstd::prelude::*;
use vstd::rwlock::RwLock;
use vstd::rwlock::RwLockPredicate;

verus! {

/// A process identifier.
#[derive(Clone, Copy, Debug, PartialEq, Eq, Structural)]
pub struct Pid {
    raw: i32,
}

impl View for Pid {
    type V = int;

    closed spec fn view(&self) -> int {
        self.raw as int
    }
}

impl Pid {
    /// Makes a process identifier from its number.
    pub fn from_raw(raw: i32) -> (pid: Pid)
        ensures
            pid@ == raw,
    {
        Pid { raw }
    }

    /// Returns the number of this process identifier.
    pub fn as_raw(self) -> (raw: i32)
        ensures
            raw == self@,
    {
        self.raw
    }
}

/// Two process identifiers with the same number are the same.
pub proof fn lemma_pid_is_its_number(a: Pid, b: Pid)
    requires
        a@ == b@,
    ensures
        a == b,
{
}

/// What the lock of a registry admits: a registry that was created with a
/// process id never goes back to holding none.
pub struct StaysPublished {
    /// The value that the registry was created with.
    pub initial: Option<Pid>,
}

impl RwLockPredicate<Option<Pid>> for StaysPublished {
    open spec fn inv(self, v: Option<Pid>) -> bool {
        self.initial is Some ==> v is Some
    }
}

/// Holder for the process id of the child.
///
/// The thread that forwards signals is started before the child exists, so
/// it reads the process id from here each time it needs it. The value is
/// guarded by one lock that is held only for the read or the write itself.
pub struct ChildPid {
    pid: RwLock<Option<Pid>, StaysPublished>,
}

impl ChildPid {
    /// The value that this registry was created with.
    pub closed spec fn initial(&self) -> Option<Pid> {
        self.pid.pred().initial
    }

    /// Makes a registry that holds `initial`.
    fn holding(initial: Option<Pid>) -> (registry: ChildPid)
        ensures
            registry.initial() == initial,
    {
        ChildPid { pid: RwLock::new(initial, Ghost(StaysPublished { initial })) }
    }

    /// Returns the process id of the child if it has been published, `None`
    /// if it has not.
    ///
    /// Another thread may publish at any moment, so of a registry that was
    /// created empty nothing is known of the answer. A registry that was
    /// created with a process id always answers with one.
    pub fn get_pid(&self) -> (pid: Option<Pid>)
        ensures
            self.initial() is Some ==> pid is Some,
    {
        let handle = self.pid.acquire_read();
        let pid = *handle.borrow();
        handle.release_read();
        pid
    }

    /// Publishes the process id of the child. From then on the registry
    /// holds a process id.
    pub fn set_pid(&self, pid: Pid) {
        let (_, handle) = self.pid.acquire_write();
        handle.release_write(Some(pid));
    }
}

impl Default for ChildPid {
    /// A registry in which no process id has been published yet.
    fn default() -> (registry: ChildPid)
        ensures
            registry.initial() is None,
    {
        ChildPid::holding(None)
    }
}

impl From<Pid> for ChildPid {
    /// A registry in which `pid` is already published.
    fn from(pid: Pid) -> (registry: ChildPid)
        ensures
            registry.initial() == Some(pid),
    {
        ChildPid::holding(Some(pid))
    }
}

impl vstd::std_specs::convert::FromSpecImpl<Pid> for ChildPid {
    /// Each registry has a lock of its own, so no two calls give the same
    /// value, and the result is not a function of the argument.
    open spec fn obeys_from_spec() -> bool {
        false
    }

    open spec fn from_spec(pid: Pid) -> ChildPid {
        choose|registry: ChildPid| registry.initial() == Some(pid)
    }
}

impl From<i32> for ChildPid {
    /// A registry in which the process id with the number `raw` is already
    /// published.
    fn from(raw: i32) -> (registry: ChildPid)
        ensures
            registry.initial() matches Some(pid) && pid@ == raw,
    {
        ChildPid::holding(Some(Pid::from_raw(raw)))
    }
}

impl vstd::std_specs::convert::FromSpecImpl<i32> for ChildPid {
    /// Each registry has a lock of its own, so no two calls give the same
    /// value, and the result is not a function of the argument.
    open spec fn obeys_from_spec() -> bool {
        false
    }

    open spec fn from_spec(raw: i32) -> ChildPid {
        choose|registry: ChildPid|
            (#[trigger] registry.initial()) matches Some(pid) && pid@ == raw
    }
}

} // verus!
