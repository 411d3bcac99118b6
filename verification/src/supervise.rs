//! The course of the supervisor from its start to its exit, and the exit
//! code that it derives from the way the child ended.

use crate::registry::Pid;
use vstd::prelude::*;

verus! {

/// The exit code of the supervisor where its own work failed: the signal
/// setup, the launch of the child, or the wait for it.
pub const EXIT_FAILURE: i32 = 1;

/// What is added to the number of the signal that killed the child to get
/// the exit code of the supervisor.
pub const EXIT_SIGNAL_BASE: i32 = 128;

/// How the child ended.
#[derive(Clone, Copy, Debug, PartialEq, Eq, Structural)]
pub enum Termination {
    /// The child exited with this code.
    Exited(i32),
    /// The child was killed by the signal with this number.
    Signaled(i32),
    /// The child ended, and neither an exit code nor a signal is known.
    Unknown,
}

impl Termination {
    /// How the child ended, from the exit code and the signal that the
    /// operating system reports, where it reports them. An exit code goes
    /// before a signal.
    pub open spec fn of(code: Option<i32>, signal: Option<i32>) -> Termination {
        match (code, signal) {
            (Some(c), _) => Termination::Exited(c),
            (None, Some(n)) => Termination::Signaled(n),
            (None, None) => Termination::Unknown,
        }
    }

    /// The exit code with which the supervisor answers this end of the
    /// child: the child's own exit code, or 128 more than the number of the
    /// signal that killed it, or 0 where neither is known.
    pub open spec fn exit_code(self) -> int {
        match self {
            Termination::Exited(c) => c as int,
            Termination::Signaled(n) => EXIT_SIGNAL_BASE + n,
            Termination::Unknown => 0,
        }
    }

    /// Whether the exit code for this end of the child is a 32-bit number.
    pub open spec fn fits(self) -> bool {
        self.exit_code() <= i32::MAX
    }

    /// Tells how the child ended.
    pub fn from_status(code: Option<i32>, signal: Option<i32>) -> (termination: Termination)
        ensures
            termination == Termination::of(code, signal),
    {
        match code {
            Some(c) => Termination::Exited(c),
            None => match signal {
                Some(n) => Termination::Signaled(n),
                None => Termination::Unknown,
            },
        }
    }

    /// Tells whether the exit code for this end of the child is a 32-bit
    /// number. It is for every signal number that an operating system uses.
    pub fn has_exit_code(self) -> (fits: bool)
        ensures
            fits == self.fits(),
    {
        match self {
            Termination::Signaled(n) => n <= i32::MAX - EXIT_SIGNAL_BASE,
            _ => true,
        }
    }

    /// Returns the exit code with which the supervisor answers this end of
    /// the child.
    pub fn to_exit_code(self) -> (code: i32)
        requires
            self.fits(),
        ensures
            code == self.exit_code(),
    {
        match self {
            Termination::Exited(c) => c,
            Termination::Signaled(n) => EXIT_SIGNAL_BASE + n,
            Termination::Unknown => 0,
        }
    }
}

/// How far the supervisor has come.
#[derive(Clone, Copy, Debug, PartialEq, Eq, Structural)]
pub enum Phase {
    /// Nothing is done yet.
    Init,
    /// The signals are blocked on the main thread. `relay_launched` tells
    /// whether the catching and the forwarding thread are running.
    SignalSetup { relay_launched: bool },
    /// The child with this process id is running.
    Spawned(Pid),
    /// The process id is published, and the supervisor waits for the child.
    Waiting,
    /// The supervisor is done, with this exit code.
    Exited(i32),
}

/// What happened to the last thing that the supervisor did.
#[derive(Clone, Copy, Debug, PartialEq, Eq, Structural)]
pub enum Event {
    /// The signals are blocked on the main thread.
    SignalsBlocked,
    /// The catching thread and the forwarding thread are running.
    RelayLaunched,
    /// The signal setup failed.
    SetupFailed,
    /// The child was launched, with this process id.
    ChildSpawned(Pid),
    /// The child could not be launched.
    SpawnFailed,
    /// The process id of the child is in the registry.
    PidPublished,
    /// The child ended.
    ChildEnded(Termination),
    /// The wait for the child failed.
    WaitFailed,
}

/// What the supervisor is to do next.
#[derive(Clone, Copy, Debug, PartialEq, Eq, Structural)]
pub enum Action {
    /// Block the handled signals on the main thread.
    BlockSignals,
    /// Start the catching thread, make the registry, and start the
    /// forwarding thread.
    LaunchRelay,
    /// Launch the child.
    SpawnChild,
    /// Put this process id into the registry.
    PublishPid(Pid),
    /// Wait until the child ends.
    WaitForChild,
    /// End the process with this exit code.
    Exit(i32),
}

/// One step of the supervisor: where it gets to, and what it does next.
#[derive(Clone, Copy, Debug, PartialEq, Eq, Structural)]
pub struct Transition {
    pub next: Phase,
    pub action: Action,
}

/// The failure of the supervisor's own work: it ends with the exit code 1.
pub open spec fn failure() -> Transition {
    Transition { next: Phase::Exited(EXIT_FAILURE), action: Action::Exit(EXIT_FAILURE) }
}

/// The step that an event leads to in a phase, or `None` where the event
/// cannot happen in that phase.
///
/// The signals are blocked first, then the two threads are started, then
/// the child is launched, its process id published, and its end awaited.
/// A failure of any of these ends the supervisor at once with the exit code
/// 1. The end of the child ends it with the exit code of that termination.
pub open spec fn transition(phase: Phase, event: Event) -> Option<Transition> {
    match (phase, event) {
        (Phase::Init, Event::SignalsBlocked) => Some(
            Transition {
                next: Phase::SignalSetup { relay_launched: false },
                action: Action::LaunchRelay,
            },
        ),
        (Phase::Init, Event::SetupFailed) => Some(failure()),
        (Phase::SignalSetup { relay_launched: false }, Event::RelayLaunched) => Some(
            Transition {
                next: Phase::SignalSetup { relay_launched: true },
                action: Action::SpawnChild,
            },
        ),
        (Phase::SignalSetup { relay_launched: false }, Event::SetupFailed) => Some(failure()),
        (Phase::SignalSetup { relay_launched: true }, Event::ChildSpawned(pid)) => Some(
            Transition { next: Phase::Spawned(pid), action: Action::PublishPid(pid) },
        ),
        (Phase::SignalSetup { relay_launched: true }, Event::SpawnFailed) => Some(failure()),
        (Phase::Spawned(_), Event::PidPublished) => Some(
            Transition { next: Phase::Waiting, action: Action::WaitForChild },
        ),
        (Phase::Waiting, Event::ChildEnded(termination)) => Some(
            Transition {
                next: Phase::Exited(termination.exit_code() as i32),
                action: Action::Exit(termination.exit_code() as i32),
            },
        ),
        (Phase::Waiting, Event::WaitFailed) => Some(failure()),
        _ => None,
    }
}

/// Whether the exit code that an event calls for is a 32-bit number.
pub open spec fn event_fits(event: Event) -> bool {
    event matches Event::ChildEnded(termination) ==> termination.fits()
}

/// The first thing that the supervisor does, before any event.
pub fn first_action() -> (action: Action)
    ensures
        action == Action::BlockSignals,
{
    Action::BlockSignals
}

/// Takes the step that `event` leads to in `phase`. Returns `None` where
/// the event cannot happen in that phase.
pub fn advance(phase: Phase, event: Event) -> (step: Option<Transition>)
    requires
        event_fits(event),
    ensures
        step == transition(phase, event),
{
    let failed = Transition { next: Phase::Exited(EXIT_FAILURE), action: Action::Exit(EXIT_FAILURE) };
    match phase {
        Phase::Init => match event {
            Event::SignalsBlocked => Some(
                Transition {
                    next: Phase::SignalSetup { relay_launched: false },
                    action: Action::LaunchRelay,
                },
            ),
            Event::SetupFailed => Some(failed),
            _ => None,
        },
        Phase::SignalSetup { relay_launched: false } => match event {
            Event::RelayLaunched => Some(
                Transition {
                    next: Phase::SignalSetup { relay_launched: true },
                    action: Action::SpawnChild,
                },
            ),
            Event::SetupFailed => Some(failed),
            _ => None,
        },
        Phase::SignalSetup { relay_launched: true } => match event {
            Event::ChildSpawned(pid) => Some(
                Transition { next: Phase::Spawned(pid), action: Action::PublishPid(pid) },
            ),
            Event::SpawnFailed => Some(failed),
            _ => None,
        },
        Phase::Spawned(_) => match event {
            Event::PidPublished => Some(
                Transition { next: Phase::Waiting, action: Action::WaitForChild },
            ),
            _ => None,
        },
        Phase::Waiting => match event {
            Event::ChildEnded(termination) => {
                let code = termination.to_exit_code();
                Some(Transition { next: Phase::Exited(code), action: Action::Exit(code) })
            },
            Event::WaitFailed => Some(failed),
            _ => None,
        },
        Phase::Exited(_) => None,
    }
}

/// Where a run of events takes the supervisor from its start, and what it
/// does on the way, its first action included. `None` where some event of
/// the run cannot happen in the phase in which it comes.
pub open spec fn run(events: Seq<Event>) -> Option<(Phase, Seq<Action>)>
    decreases events.len(),
{
    if events.len() == 0 {
        Some((Phase::Init, seq![Action::BlockSignals]))
    } else {
        match run(events.drop_last()) {
            Some((phase, actions)) => match transition(phase, events.last()) {
                Some(step) => Some((step.next, actions.push(step.action))),
                None => None,
            },
            None => None,
        }
    }
}

/// The place of an action in the course of the supervisor.
pub open spec fn rank(action: Action) -> int {
    match action {
        Action::BlockSignals => 0,
        Action::LaunchRelay => 1,
        Action::SpawnChild => 2,
        Action::PublishPid(_) => 3,
        Action::WaitForChild => 4,
        Action::Exit(_) => 5,
    }
}

/// How many actions the supervisor has taken when it is in a phase that is
/// not its last.
pub open spec fn actions_taken(phase: Phase) -> int {
    match phase {
        Phase::Init => 1,
        Phase::SignalSetup { relay_launched: false } => 2,
        Phase::SignalSetup { relay_launched: true } => 3,
        Phase::Spawned(_) => 4,
        Phase::Waiting => 5,
        Phase::Exited(_) => 0,
    }
}

/// The supervisor keeps to its course. Whatever happens, it blocks the
/// signals first, starts the two threads second, launches the child third,
/// publishes the process id fourth and waits for the child fifth. It leaves
/// that course only to exit, and exits last. So no thread is started before
/// the signals are blocked, and the child is not waited for unless it was
/// launched and its process id published.
pub proof fn lemma_course(events: Seq<Event>)
    requires
        run(events) is Some,
    ensures
        ({
            let (phase, actions) = run(events)->Some_0;
            &&& actions.len() == events.len() + 1
            &&& forall|i: int|
                0 <= i < actions.len() ==> {
                    ||| rank(#[trigger] actions[i]) == i
                    ||| (actions[i] is Exit && i == actions.len() - 1)
                }
            &&& phase is Exited <==> actions.last() is Exit
            &&& !(phase is Exited) ==> actions.len() == actions_taken(phase)
            &&& phase matches Phase::Exited(code) ==> actions.last() == Action::Exit(code)
            &&& phase matches Phase::Spawned(pid) ==> actions.last() == Action::PublishPid(pid)
        }),
    decreases events.len(),
{
    if events.len() > 0 {
        lemma_course(events.drop_last());
    }
}

/// A child that cannot be launched ends the supervisor with the exit code
/// 1, and the supervisor never waits for it.
pub proof fn lemma_spawn_failure_exits(events: Seq<Event>)
    requires
        run(events) is Some,
        events.len() > 0,
        events.last() == Event::SpawnFailed,
    ensures
        ({
            let (phase, actions) = run(events)->Some_0;
            &&& phase == Phase::Exited(EXIT_FAILURE)
            &&& actions.last() == Action::Exit(EXIT_FAILURE)
            &&& forall|i: int| 0 <= i < actions.len() ==> !(#[trigger] actions[i] is WaitForChild)
        }),
{
    lemma_course(events);
    lemma_course(events.drop_last());
}

/// The end of the child ends the supervisor with the exit code of that
/// termination.
pub proof fn lemma_child_end_exits(events: Seq<Event>, termination: Termination)
    requires
        run(events) is Some,
        events.len() > 0,
        events.last() == Event::ChildEnded(termination),
        termination.fits(),
    ensures
        ({
            let (phase, actions) = run(events)->Some_0;
            &&& phase matches Phase::Exited(code) && code == termination.exit_code()
            &&& actions.last() matches Action::Exit(code) && code == termination.exit_code()
        }),
{
}

} // verus!
