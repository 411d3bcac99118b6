//! Catching the signals that are delivered to the supervisor and handing
//! them on, one by one, to the thread that forwards them.

use crate::mask::MaskError;
use crate::mask::ThreadMasker;
use crate::signal::lemma_handled_signals_can_be_caught;
use crate::signal::lemma_number_round_trip;
use crate::signal::numbers_of;
use crate::signal::Signal;
use crate::signal::SIGNALS_TO_HANDLE;
use crossbeam_channel::Receiver;
use crossbeam_channel::Sender;
use signal_hook::iterator::Signals;
use vstd::prelude::*;

verus! {

/// The sending end of a channel of crossbeam.
#[verifier::external_type_specification]
#[verifier::external_body]
#[verifier::reject_recursive_types(T)]
pub struct ExSender<T>(Sender<T>);

/// The error of an input or output operation of the standard library.
#[verifier::external_type_specification]
#[verifier::external_body]
pub struct ExIoError(std::io::Error);

/// The registration of signal-hook for a set of signals, through which the
/// signals that arrive are read.
#[verifier::external_body]
pub struct SignalSource {
    inner: Signals,
}

/// The numbers of the signals that a registration was made for.
pub uninterp spec fn watched(source: SignalSource) -> Set<int>;

/// How many signals the channel between the two threads holds before the
/// catching thread has to wait for the forwarding thread.
pub const CHANNEL_CAP: usize = 32;

/// Whether signal-hook takes a registration for the signal with this
/// number: the number lies below its limit of 128, and the signal is none of
/// those it refuses (`SIGKILL`, `SIGSTOP`, `SIGILL`, `SIGFPE`, `SIGSEGV`).
pub open spec fn registrable(number: int) -> bool {
    &&& 0 <= number < 128
    &&& match Signal::with_number(number) {
        Some(signal) => !signal.is_forbidden(),
        None => true,
    }
}

/// How many messages the channel of a sender holds at most.
pub uninterp spec fn channel_limit(sender: Sender<Signal>) -> nat;

/// `bounded` of crossbeam: makes a channel that holds at most `cap`
/// messages at a time, and gives its two ends. Capacities up to 65535 are
/// far from those it refuses.
#[verifier::external_body]
fn bounded_channel(cap: usize) -> (ends: (Sender<Signal>, Receiver<Signal>))
    requires
        cap <= 0xffff,
    ensures
        channel_limit(ends.0) == cap,
{
    crossbeam_channel::bounded(cap)
}

/// `Signals::new` of signal-hook: registers for the signals with the given
/// numbers. Where it succeeds, the registration is for exactly those
/// signals. Whether it succeeds is up to the operating system.
#[verifier::external_body]
fn register(numbers: &Vec<i32>) -> (r: Result<SignalSource, std::io::Error>)
    requires
        forall|i: int| 0 <= i < numbers@.len() ==> registrable(#[trigger] numbers@[i] as int),
    ensures
        r matches Ok(source) ==> forall|n: int|
            watched(source).contains(n) <==> exists|i: int|
                0 <= i < numbers@.len() && #[trigger] numbers@[i] == n,
{
    match Signals::new(numbers) {
        Ok(inner) => Ok(SignalSource { inner }),
        Err(e) => Err(e),
    }
}

/// `Signals::forever` of signal-hook and one step of its iterator: waits for
/// a signal to arrive and gives its number, or `None` once the registration
/// is closed. Only signals that the registration was made for are given, and
/// the registration stays for the same signals.
#[verifier::external_body]
fn next_signal(source: &mut SignalSource) -> (number: Option<i32>)
    ensures
        watched(*final(source)) == watched(*old(source)),
        number matches Some(n) ==> watched(*old(source)).contains(n as int),
{
    source.inner.forever().next()
}

/// `Sender::send` of crossbeam: puts the message on the channel, waiting
/// while the channel is full. Tells whether the message was taken; it is not
/// once every receiver is gone.
#[verifier::external_body]
fn send_event(sender: &Sender<Signal>, signal: Signal) -> (sent: bool) {
    sender.send(signal).is_ok()
}

/// Why a catcher could not be made.
#[derive(Debug)]
pub enum CatcherError {
    /// No handler may be registered for this signal.
    Forbidden(Signal),
    /// The operating system refused the registration.
    Registration(std::io::Error),
}

/// What became of one wait for a signal.
#[derive(Clone, Copy, Debug, PartialEq, Eq, Structural)]
pub enum Relayed {
    /// The signal was caught and put on the channel.
    Sent(Signal),
    /// The signal was caught, but nobody receives from the channel any more.
    Undelivered(Signal),
    /// The registration is closed: no signal will be caught any more.
    Closed,
}

/// The first signal of `signals` for which no handler may be registered.
pub open spec fn first_forbidden(signals: Seq<Signal>) -> Option<Signal>
    decreases signals.len(),
{
    if signals.len() == 0 {
        None
    } else if signals[0].is_forbidden() {
        Some(signals[0])
    } else {
        first_forbidden(signals.skip(1))
    }
}

/// There is a first signal that may not be caught exactly where some signal
/// of the list may not be caught, and it is one of the list.
pub proof fn lemma_first_forbidden(signals: Seq<Signal>)
    ensures
        first_forbidden(signals) is None <==> forall|i: int|
            0 <= i < signals.len() ==> !(#[trigger] signals[i]).is_forbidden(),
        first_forbidden(signals) matches Some(s) ==> s.is_forbidden() && signals.contains(s),
    decreases signals.len(),
{
    if signals.len() > 0 && !signals[0].is_forbidden() {
        let rest = signals.skip(1);
        lemma_first_forbidden(rest);
        if first_forbidden(rest) is None {
            assert forall|i: int| 0 <= i < signals.len() implies !(
            #[trigger] signals[i]).is_forbidden() by {
                if i > 0 {
                    assert(signals[i] == rest[i - 1]);
                }
            }
        } else {
            let s = first_forbidden(rest)->Some_0;
            let i = choose|i: int| 0 <= i < rest.len() && rest[i] == s;
            assert(signals[i + 1] == s);
        }
    }
}

/// None of the signals that the supervisor handles is refused: a handler may
/// be registered for each.
pub proof fn lemma_handled_signals_are_not_refused()
    ensures
        first_forbidden(SIGNALS_TO_HANDLE@) is None,
{
    lemma_handled_signals_can_be_caught();
    lemma_first_forbidden(SIGNALS_TO_HANDLE@);
}

/// Receive signals on a thread of their own and hand them on to another
/// thread through a channel.
///
/// The thread that runs this is the only one that has the signals
/// unblocked, so it is the one to which the operating system delivers them.
pub struct SignalCatcher {
    signals: SignalSource,
    masker: ThreadMasker,
}

impl SignalCatcher {
    /// Whether the catcher is as `new` makes it: the registration is for
    /// the signals of the masker, and for no other.
    pub closed spec fn wf(&self) -> bool {
        forall|n: int|
            watched(self.signals).contains(n) <==> exists|s: Signal|
                self.masker@.contains(s) && #[trigger] s.number() == n
    }

    /// The signals that are caught.
    pub closed spec fn allowed(&self) -> Set<Signal> {
        self.masker@
    }

    /// Finds the first of the given signals for which no handler may be
    /// registered.
    pub fn find_forbidden(signals: &[Signal]) -> (found: Option<Signal>)
        ensures
            found == first_forbidden(signals@),
    {
        let mut i: usize = 0;
        assert(signals@.skip(0) =~= signals@);
        while i < signals.len()
            invariant
                i <= signals.len(),
                first_forbidden(signals@) == first_forbidden(signals@.skip(i as int)),
            decreases signals.len() - i,
        {
            if !signals[i].can_be_caught() {
                return Some(signals[i]);
            }
            assert(signals@.skip(i as int).skip(1) =~= signals@.skip(i + 1));
            i += 1;
        }
        None
    }

    /// Registers with the operating system for the delivery of exactly the
    /// signals in `allowed`.
    ///
    /// A list that holds a signal for which no handler may be registered is
    /// refused, with the first such signal. For any other list the
    /// operating system decides whether the registration succeeds.
    pub fn new(allowed: &[Signal]) -> (r: Result<SignalCatcher, CatcherError>)
        ensures
            r matches Err(CatcherError::Forbidden(s)) <==> first_forbidden(allowed@) is Some,
            r matches Err(CatcherError::Forbidden(s)) ==> first_forbidden(allowed@) == Some(s),
            r matches Ok(catcher) ==> catcher.wf() && catcher.allowed() == allowed@.to_set(),
    {
        if let Some(signal) = Self::find_forbidden(allowed) {
            return Err(CatcherError::Forbidden(signal));
        }
        let numbers = numbers_of(allowed);
        proof {
            lemma_first_forbidden(allowed@);
            assert forall|i: int| 0 <= i < numbers@.len() implies registrable(
                #[trigger] numbers@[i] as int,
            ) by {
                lemma_number_round_trip(allowed@[i]);
            }
        }
        match register(&numbers) {
            Ok(signals) => {
                let masker = ThreadMasker::new(allowed);
                proof {
                    assert forall|n: int|
                        watched(signals).contains(n) <==> exists|s: Signal|
                            masker@.contains(s) && #[trigger] s.number() == n by {
                        if watched(signals).contains(n) {
                            let i = choose|i: int|
                                0 <= i < numbers@.len() && #[trigger] numbers@[i] == n;
                            assert(masker@.contains(allowed@[i]) && allowed@[i].number() == n);
                        }
                        if exists|s: Signal| masker@.contains(s) && #[trigger] s.number() == n {
                            let s = choose|s: Signal|
                                masker@.contains(s) && #[trigger] s.number() == n;
                            let i = choose|i: int| 0 <= i < allowed@.len() && allowed@[i] == s;
                            assert(numbers@[i] == n);
                        }
                    }
                }
                Ok(SignalCatcher { signals, masker })
            },
            Err(e) => Err(CatcherError::Registration(e)),
        }
    }

    /// The masker of the catching thread, to be applied with
    /// `allow_for_thread` when the thread starts.
    pub fn masker(&self) -> (masker: &ThreadMasker)
        ensures
            masker@ == self.allowed(),
    {
        &self.masker
    }

    /// Makes the channel through which the caught signals reach the
    /// forwarding thread, and gives its two ends. The channel holds
    /// `CHANNEL_CAP` signals: with that many waiting, the catching thread
    /// waits for the forwarding thread rather than lose a signal.
    pub fn channel() -> (ends: (Sender<Signal>, Receiver<Signal>))
        ensures
            channel_limit(ends.0) == CHANNEL_CAP,
    {
        bounded_channel(CHANNEL_CAP)
    }

    /// Tells which signal arrived, from what the registration gave: the
    /// signal with the number that it gave, and `None` where it gave none,
    /// as it does once it is closed, or a number that names no signal.
    pub fn recognise(arrived: Option<i32>) -> (caught: Option<Signal>)
        ensures
            caught == (match arrived {
                Some(number) => Signal::with_number(number as int),
                None => None,
            }),
    {
        match arrived {
            Some(number) => Signal::from_number(number),
            None => None,
        }
    }

    /// Tells what became of a caught signal, from the answer of the channel:
    /// it was sent where the channel took it, and is undelivered where
    /// nobody receives from the channel any more.
    pub fn account(signal: Signal, taken: bool) -> (relayed: Relayed)
        ensures
            relayed == (if taken {
                Relayed::Sent(signal)
            } else {
                Relayed::Undelivered(signal)
            }),
    {
        if taken {
            Relayed::Sent(signal)
        } else {
            Relayed::Undelivered(signal)
        }
    }

    /// Waits for the next signal. Returns `None` once the registration is
    /// closed. A signal that is returned is one of those that are caught:
    /// what the registration gives is told apart as `recognise` says.
    pub fn catch_next(&mut self) -> (caught: Option<Signal>)
        requires
            old(self).wf(),
        ensures
            final(self).wf(),
            final(self).allowed() == old(self).allowed(),
            caught matches Some(signal) ==> old(self).allowed().contains(signal),
    {
        let arrived = next_signal(&mut self.signals);
        proof {
            if let Some(number) = arrived {
                let s = choose|s: Signal|
                    self.masker@.contains(s) && #[trigger] s.number() == number;
                lemma_number_round_trip(s);
            }
        }
        Self::recognise(arrived)
    }

    /// Waits for the next signal and puts it on the channel, waiting again
    /// while the channel is full. What became of the signal is told from
    /// the answer of the channel as `account` says.
    pub fn relay_next(&mut self, sender: &Sender<Signal>) -> (relayed: Relayed)
        requires
            old(self).wf(),
        ensures
            final(self).wf(),
            final(self).allowed() == old(self).allowed(),
            relayed matches Relayed::Sent(signal) ==> old(self).allowed().contains(signal),
            relayed matches Relayed::Undelivered(signal) ==> old(self).allowed().contains(signal),
    {
        match self.catch_next() {
            Some(signal) => Self::account(signal, send_event(sender, signal)),
            None => Relayed::Closed,
        }
    }

    /// The work of the catching thread: unblocks the caught signals for the
    /// calling thread, then puts every signal that arrives on the channel,
    /// until the registration is closed. A signal that nobody receives any
    /// more is let go, and the work goes on.
    ///
    /// Returns how many signals were caught, or the error of the operating
    /// system if the signals cannot be unblocked; no signal is caught then.
    /// The count is kept in 64 bits, and the work also ends once that count
    /// is used up.
    pub fn run(&mut self, sender: &Sender<Signal>) -> (r: Result<u64, MaskError>)
        requires
            old(self).wf(),
        ensures
            final(self).wf(),
            final(self).allowed() == old(self).allowed(),
            r matches Err(e) ==> e is Unblock,
    {
        match self.masker.allow_for_thread() {
            Ok(()) => {},
            Err(e) => {
                return Err(e);
            },
        }
        let mut caught: u64 = 0;
        while caught < u64::MAX
            invariant
                self.wf(),
                self.allowed() == old(self).allowed(),
            decreases u64::MAX - caught,
        {
            match self.relay_next(sender) {
                Relayed::Closed => {
                    return Ok(caught);
                },
                _ => {},
            }
            caught += 1;
        }
        Ok(caught)
    }
}

} // verus!
