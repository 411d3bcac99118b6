//! What the forwarding thread does with each signal that was caught.

use crate::mask::MaskError;
use crate::mask::ThreadMasker;
use crate::reap::collect_child;
use crate::reap::drain_is_over;
use crate::reap::ends_drain;
use crate::reap::Drained;
use crate::reap::ANY_CHILD;
use crate::registry::ChildPid;
use crate::registry::Pid;
use crate::signal::Signal;
use crate::signal::MAX_SIGNAL_NUMBER;
use crate::signal::MIN_SIGNAL_NUMBER;
use crossbeam_channel::Receiver;
use nix::errno::Errno;
use std::sync::Arc;
use vstd::prelude::*;

verus! {

/// The receiving end of a channel of crossbeam.
#[verifier::external_type_specification]
#[verifier::external_body]
#[verifier::reject_recursive_types(T)]
pub struct ExReceiver<T>(Receiver<T>);

/// `kill` of nix, for the process id with the number `pid` and the signal
/// that nix knows by `number`: asks the operating system to send that signal.
/// Every number from 1 to 31 is one that nix knows. Whether the signal is
/// sent is up to the operating system.
#[verifier::external_body]
fn send_signal(pid: i32, number: i32) -> (r: Result<(), Errno>)
    requires
        MIN_SIGNAL_NUMBER <= number <= MAX_SIGNAL_NUMBER,
{
    match nix::sys::signal::Signal::try_from(number) {
        Ok(signal) => nix::sys::signal::kill(nix::unistd::Pid::from_raw(pid), signal),
        Err(e) => Err(e),
    }
}

/// `Receiver::recv` of crossbeam: waits for the next message of the channel.
/// Gives `None` once the channel is empty and every sender is gone.
#[verifier::external_body]
fn receive(receiver: &Receiver<Signal>) -> (message: Option<Signal>) {
    receiver.recv().ok()
}

/// One thing that the forwarding thread does to the world around it.
#[derive(Clone, Copy, Debug, PartialEq, Eq, Structural)]
pub enum Effect {
    /// Every child that had ended was collected.
    Drain,
    /// The signal was sent to the process.
    Forward { pid: Pid, signal: Signal },
}

/// What is owed for one caught signal, in the order in which it is done,
/// where `registered` is what the registry answers once the drain, if any,
/// is over.
///
/// The signal that reports a change of state of a child calls for a drain,
/// whether or not a process id is registered. After that the signal is
/// forwarded to the registered process; with none registered it is dropped.
pub open spec fn effects_of(signal: Signal, registered: Option<Pid>) -> Seq<Effect> {
    let drain = if signal == Signal::SIGCHLD {
        seq![Effect::Drain]
    } else {
        Seq::<Effect>::empty()
    };
    match registered {
        Some(pid) => drain.push(Effect::Forward { pid, signal }),
        None => drain,
    }
}

/// The account of one caught signal.
#[derive(Debug)]
pub struct Handled {
    /// The signal that was caught.
    pub signal: Signal,
    /// What the registry answered when it was asked for the child.
    pub registered: Option<Pid>,
    /// What was done, in the order in which it was done.
    pub effects: Vec<Effect>,
}

/// Forward received signals to the child process and clean up after any
/// descendant that ends.
///
/// The thread that runs this keeps the forwarded signals blocked for itself:
/// it acts only on what another thread has caught and put on the channel.
pub struct SignalHandler {
    receiver: Receiver<Signal>,
    child: Arc<ChildPid>,
    masker: ThreadMasker,
}

impl SignalHandler {
    /// The registry that is asked for the child.
    pub closed spec fn registry(&self) -> ChildPid {
        *self.child
    }

    /// The signals that the forwarding thread blocks for itself.
    pub closed spec fn blocked(&self) -> Set<Signal> {
        self.masker@
    }

    /// Set the channel for receiving signals, the registry of the child, and
    /// the signals that are blocked in the forwarding thread since they are
    /// caught elsewhere.
    pub fn new(receiver: Receiver<Signal>, child: Arc<ChildPid>, allowed: &[Signal]) -> (handler:
        SignalHandler)
        ensures
            handler.registry() == *child,
            handler.blocked() == allowed@.to_set(),
    {
        SignalHandler { receiver, child, masker: ThreadMasker::new(allowed) }
    }

    /// The masker of the forwarding thread, to be applied with
    /// `block_for_thread` when the thread starts.
    pub fn masker(&self) -> (masker: &ThreadMasker)
        ensures
            masker@ == self.blocked(),
    {
        &self.masker
    }

    /// Collects children that changed state, one after the other and without
    /// ever waiting, until the operating system has none left to report or
    /// answers with an error.
    ///
    /// The count of what was collected is kept in 64 bits; the drain also
    /// stops once that count is used up.
    pub fn wait_child() -> (drained: Drained)
        ensures
            ends_drain(drained.last) || drained.collected == u64::MAX,
    {
        let mut collected: u64 = 0;
        loop
            decreases u64::MAX - collected,
        {
            let outcome = collect_child(ANY_CHILD);
            if drain_is_over(&outcome) || collected == u64::MAX {
                return Drained { collected, last: outcome };
            }
            collected += 1;
        }
    }

    /// Send the given signal to the given process.
    ///
    /// The process may be gone by the time the signal is sent: the attempt
    /// is made, and a failure is not reported.
    fn propagate(pid: Pid, signal: Signal) {
        let _ = send_signal(pid.as_raw(), signal.to_number());
    }

    /// Take all appropriate action for a caught signal: the drain where the
    /// signal calls for it, then the forwarding to the child where one is
    /// registered.
    pub fn dispatch(&self, signal: Signal) -> (handled: Handled)
        ensures
            handled.signal == signal,
            handled.effects@ == effects_of(signal, handled.registered),
            self.registry().initial() is Some ==> handled.registered is Some,
    {
        let mut effects: Vec<Effect> = Vec::new();
        if signal == Signal::SIGCHLD {
            let _ = Self::wait_child();
            effects.push(Effect::Drain);
        }
        let registered = self.child.get_pid();
        if let Some(pid) = registered {
            Self::propagate(pid, signal);
            effects.push(Effect::Forward { pid, signal });
        }
        Handled { signal, registered, effects }
    }

    /// Serves what came out of the channel: a signal is dispatched, and its
    /// account returned; `None`, which the channel gives once it is closed,
    /// is answered with `None`.
    pub fn serve(&self, received: Option<Signal>) -> (served: Option<Handled>)
        ensures
            served is Some <==> received is Some,
            served matches Some(handled) ==> {
                &&& received == Some(handled.signal)
                &&& handled.effects@ == effects_of(handled.signal, handled.registered)
                &&& self.registry().initial() is Some ==> handled.registered is Some
            },
    {
        match received {
            Some(signal) => Some(self.dispatch(signal)),
            None => None,
        }
    }

    /// Waits for the next caught signal and dispatches it. Returns `None`
    /// once the channel is closed, and the account of the signal otherwise:
    /// what the channel gives is served as `serve` says.
    pub fn serve_next(&self) -> (served: Option<Handled>)
        ensures
            served matches Some(handled) ==> {
                &&& handled.effects@ == effects_of(handled.signal, handled.registered)
                &&& self.registry().initial() is Some ==> handled.registered is Some
            },
    {
        self.serve(receive(&self.receiver))
    }

    /// The work of the forwarding thread: blocks the signals of the masker
    /// for the calling thread, then serves the caught signals in the order
    /// in which they come out of the channel, until the channel is closed.
    ///
    /// Returns how many signals were served, or the error of the operating
    /// system if the signals cannot be blocked; no signal is served then.
    /// The count is kept in 64 bits, and the work also ends once that count
    /// is used up.
    pub fn run(&self) -> (r: Result<u64, MaskError>)
        ensures
            r matches Err(e) ==> e is Block,
    {
        match self.masker.block_for_thread() {
            Ok(()) => {},
            Err(e) => {
                return Err(e);
            },
        }
        let mut served: u64 = 0;
        while served < u64::MAX
            decreases u64::MAX - served,
        {
            if self.serve_next().is_none() {
                return Ok(served);
            }
            served += 1;
        }
        Ok(served)
    }
}

/// What is done for a run of caught signals, each given with what the
/// registry answered when the signal was handled: the effects of the first
/// signal, then those of the second, and so on.
pub open spec fn journal(events: Seq<(Signal, Option<Pid>)>) -> Seq<Effect>
    decreases events.len(),
{
    if events.len() == 0 {
        Seq::<Effect>::empty()
    } else {
        journal(events.drop_last()) + effects_of(events.last().0, events.last().1)
    }
}

/// The signals that a run of effects sends, each with the process that it
/// is sent to, in the order in which they are sent.
pub open spec fn forwards(effects: Seq<Effect>) -> Seq<(Pid, Signal)>
    decreases effects.len(),
{
    if effects.len() == 0 {
        Seq::<(Pid, Signal)>::empty()
    } else {
        match effects.last() {
            Effect::Forward { pid, signal } => forwards(effects.drop_last()).push((pid, signal)),
            Effect::Drain => forwards(effects.drop_last()),
        }
    }
}

/// A run of signals that are all handled while `pid` is registered.
pub open spec fn all_registered(signals: Seq<Signal>, pid: Pid) -> Seq<(Signal, Option<Pid>)> {
    Seq::new(signals.len(), |i: int| (signals[i], Some(pid)))
}

/// What a run of effects sends once one more effect is done after it.
pub proof fn lemma_forwards_of_push(effects: Seq<Effect>, next: Effect)
    ensures
        forwards(effects.push(next)) == match next {
            Effect::Forward { pid, signal } => forwards(effects).push((pid, signal)),
            Effect::Drain => forwards(effects),
        },
{
    assert(effects.push(next).drop_last() =~= effects);
}

/// Once the process id of the child is published, every caught signal is
/// forwarded to the child: the forwarding is the last thing done for the
/// signal, and nothing else is sent.
pub proof fn lemma_published_signal_is_forwarded(signal: Signal, pid: Pid)
    ensures
        effects_of(signal, Some(pid)).len() > 0,
        effects_of(signal, Some(pid)).last() == (Effect::Forward { pid, signal }),
        forwards(effects_of(signal, Some(pid))) == seq![(pid, signal)],
{
    let none = Seq::<Effect>::empty();
    let sent = Effect::Forward { pid, signal };
    if signal == Signal::SIGCHLD {
        lemma_forwards_of_push(none, Effect::Drain);
        lemma_forwards_of_push(seq![Effect::Drain], sent);
    } else {
        lemma_forwards_of_push(none, sent);
    }
}

/// The drain comes before the forwarding: children are collected for the
/// signal that reports a change of state of a child and for no other, with
/// or without a registered process id, and whatever is forwarded for a
/// signal is forwarded after the drain for that signal is over.
pub proof fn lemma_drain_comes_first(signal: Signal, registered: Option<Pid>)
    ensures
        effects_of(signal, registered).contains(Effect::Drain) <==> signal == Signal::SIGCHLD,
        signal == Signal::SIGCHLD ==> effects_of(signal, registered)[0] == Effect::Drain,
        forall|i: int, j: int|
            #![trigger effects_of(signal, registered)[i], effects_of(signal, registered)[j]]
            0 <= i < effects_of(signal, registered).len() && 0 <= j < effects_of(
                signal,
                registered,
            ).len() && effects_of(signal, registered)[i] is Drain && effects_of(
                signal,
                registered,
            )[j] is Forward ==> i < j,
{
}

/// A signal that is handled before the process id of the child is published
/// is dropped: nothing is forwarded for it.
pub proof fn lemma_unpublished_signal_is_dropped(signal: Signal)
    ensures
        forall|i: int|
            0 <= i < effects_of(signal, None).len() ==> !(#[trigger] effects_of(signal, None)[i]
                is Forward),
        forwards(effects_of(signal, None)) == Seq::<(Pid, Signal)>::empty(),
{
    if signal == Signal::SIGCHLD {
        lemma_forwards_of_push(Seq::<Effect>::empty(), Effect::Drain);
    }
}

/// What two runs of effects send, one after the other, is what the first
/// sends followed by what the second sends.
pub proof fn lemma_forwards_of_concatenation(a: Seq<Effect>, b: Seq<Effect>)
    ensures
        forwards(a + b) == forwards(a) + forwards(b),
    decreases b.len(),
{
    if b.len() > 0 {
        assert((a + b).drop_last() =~= a + b.drop_last());
        lemma_forwards_of_concatenation(a, b.drop_last());
    }
}

/// Signals are forwarded in the order in which they were caught: where
/// every signal of a run is handled while `pid` is registered, the child is
/// sent exactly the signals of the run, each once and in the same order.
pub proof fn lemma_forwarding_keeps_order(signals: Seq<Signal>, pid: Pid)
    ensures
        forwards(journal(all_registered(signals, pid))) == Seq::new(
            signals.len(),
            |i: int| (pid, signals[i]),
        ),
    decreases signals.len(),
{
    let events = all_registered(signals, pid);
    if signals.len() > 0 {
        let earlier = signals.drop_last();
        assert(events.drop_last() =~= all_registered(earlier, pid));
        lemma_forwarding_keeps_order(earlier, pid);
        lemma_published_signal_is_forwarded(signals.last(), pid);
        lemma_forwards_of_concatenation(
            journal(events.drop_last()),
            effects_of(signals.last(), Some(pid)),
        );
    }
}

} // verus!
