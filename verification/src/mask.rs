//! Blocking and unblocking a set of signals for the calling thread.

use crate::signal::Signal;
use crate::signal::MAX_SIGNAL_NUMBER;
use crate::signal::MIN_SIGNAL_NUMBER;
use crate::signal::every_signal;
use crate::signal::lemma_number_injective;
use crate::signal::numbers_of;
use nix::errno::Errno;
use nix::sys::signal::SigSet;
use vstd::prelude::*;

verus! {

/// The signal set of nix, a `sigset_t` of the C library.
#[verifier::external_type_specification]
#[verifier::external_body]
pub struct ExSigSet(SigSet);

/// The error number of nix.
#[verifier::external_type_specification]
#[verifier::external_body]
pub struct ExErrno(Errno);

/// The numbers of the signals that a signal set holds.
pub uninterp spec fn sigset_members(set: SigSet) -> Set<int>;

/// `SigSet::empty` of nix, which initialises the set with `sigemptyset`: the
/// set holds no signal.
pub assume_specification[ SigSet::empty ]() -> (set: SigSet)
    ensures
        sigset_members(set) == Set::<int>::empty(),
;

/// `SigSet::thread_block` of nix, which calls `pthread_sigmask` with
/// `SIG_BLOCK`. Whether the call succeeds is up to the operating system.
pub assume_specification[ SigSet::thread_block ](set: &SigSet) -> (r: Result<(), Errno>);

/// `SigSet::thread_unblock` of nix, which calls `pthread_sigmask` with
/// `SIG_UNBLOCK`. Whether the call succeeds is up to the operating system.
pub assume_specification[ SigSet::thread_unblock ](set: &SigSet) -> (r: Result<(), Errno>);

/// `SigSet::add` of nix, which calls `sigaddset`, for the signal that nix
/// knows by `number`: afterwards the set holds that signal besides what it
/// held before. Every number from 1 to 31 is one that nix knows.
#[verifier::external_body]
fn sigset_add(set: &mut SigSet, number: i32)
    requires
        MIN_SIGNAL_NUMBER <= number <= MAX_SIGNAL_NUMBER,
    ensures
        sigset_members(*final(set)) == sigset_members(*old(set)).insert(number as int),
{
    if let Ok(signal) = nix::sys::signal::Signal::try_from(number) {
        set.add(signal);
    }
}

/// `SigSet::contains` of nix, which calls `sigismember`, for the signal that
/// nix knows by `number`: tells whether the set holds that signal.
#[verifier::external_body]
fn sigset_contains(set: &SigSet, number: i32) -> (held: bool)
    requires
        MIN_SIGNAL_NUMBER <= number <= MAX_SIGNAL_NUMBER,
    ensures
        held == sigset_members(*set).contains(number as int),
{
    match nix::sys::signal::Signal::try_from(number) {
        Ok(signal) => set.contains(signal),
        Err(_) => false,
    }
}

/// The text that `format!` makes of a list of numbers with the pattern
/// `ThreadMasker {{ mask: {:?} }}`.
pub uninterp spec fn mask_text(numbers: Seq<i32>) -> Seq<char>;

/// `format!` of the standard library, which writes the numbers as a list
/// after the name of the masker.
#[verifier::external_body]
fn format_mask(numbers: &Vec<i32>) -> (text: String)
    ensures
        text@ == mask_text(numbers@),
{
    format!("ThreadMasker {{ mask: {:?} }}", numbers)
}

/// Why a change of the thread's signal mask failed.
#[derive(Debug)]
pub enum MaskError {
    /// The operating system refused to block the signals.
    Block(Errno),
    /// The operating system refused to unblock the signals.
    Unblock(Errno),
}

impl MaskError {
    /// What an attempt to block signals comes to, given the answer of the
    /// operating system: success where it answered with success, and its
    /// error, marked as one of blocking, where it answered with an error.
    pub fn of_block(answer: Result<(), Errno>) -> (r: Result<(), MaskError>)
        ensures
            r == (match answer {
                Ok(_) => Ok::<(), MaskError>(()),
                Err(e) => Err(MaskError::Block(e)),
            }),
    {
        match answer {
            Ok(()) => Ok(()),
            Err(e) => Err(MaskError::Block(e)),
        }
    }

    /// What an attempt to unblock signals comes to, given the answer of the
    /// operating system: success where it answered with success, and its
    /// error, marked as one of unblocking, where it answered with an error.
    pub fn of_unblock(answer: Result<(), Errno>) -> (r: Result<(), MaskError>)
        ensures
            r == (match answer {
                Ok(_) => Ok::<(), MaskError>(()),
                Err(e) => Err(MaskError::Unblock(e)),
            }),
    {
        match answer {
            Ok(()) => Ok(()),
            Err(e) => Err(MaskError::Unblock(e)),
        }
    }
}

/// Selectively mask or unmask a set of signals for the current thread.
///
/// The signals given at construction are blocked or unblocked together.
/// Other signals that the thread has blocked stay as they are, and the way
/// the process disposes of any signal is not touched.
pub struct ThreadMasker {
    mask: SigSet,
}

impl View for ThreadMasker {
    type V = Set<Signal>;

    /// The signals that this masker blocks and unblocks.
    closed spec fn view(&self) -> Set<Signal> {
        Set::new(|s: Signal| sigset_members(self.mask).contains(s.number()))
    }
}

impl ThreadMasker {
    /// Makes a masker for exactly the signals in `allowed`.
    pub fn new(allowed: &[Signal]) -> (masker: ThreadMasker)
        ensures
            masker@ == allowed@.to_set(),
    {
        let mut mask = SigSet::empty();
        let mut i: usize = 0;
        while i < allowed.len()
            invariant
                i <= allowed.len(),
                forall|n: int|
                    sigset_members(mask).contains(n) <==> exists|j: int|
                        0 <= j < i && #[trigger] allowed@[j].number() == n,
            decreases allowed.len() - i,
        {
            let number = allowed[i].to_number();
            sigset_add(&mut mask, number);
            i += 1;
        }
        let masker = ThreadMasker { mask };
        proof {
            assert forall|s: Signal| masker@.contains(s) <==> allowed@.to_set().contains(s) by {
                if masker@.contains(s) {
                    let j = choose|j: int|
                        0 <= j < allowed@.len() && #[trigger] allowed@[j].number() == s.number();
                    lemma_number_injective(allowed@[j], s);
                }
            }
        }
        masker
    }

    /// Explicitly allow the signals of this masker for the thread that this
    /// method is run in.
    ///
    /// Returns an error if the thread's signal mask cannot be set; nothing
    /// but the answer of the operating system decides the result, as
    /// `MaskError::of_unblock` says.
    pub fn allow_for_thread(&self) -> (r: Result<(), MaskError>)
        ensures
            r matches Err(e) ==> e is Unblock,
    {
        MaskError::of_unblock(self.mask.thread_unblock())
    }

    /// Explicitly block the signals of this masker for the thread that this
    /// method is run in.
    ///
    /// Returns an error if the thread's signal mask cannot be set; nothing
    /// but the answer of the operating system decides the result, as
    /// `MaskError::of_block` says.
    pub fn block_for_thread(&self) -> (r: Result<(), MaskError>)
        ensures
            r matches Err(e) ==> e is Block,
    {
        MaskError::of_block(self.mask.thread_block())
    }

    /// Tells whether `signal` is one of the signals of this masker.
    pub fn contains(&self, signal: Signal) -> (held: bool)
        ensures
            held == self@.contains(signal),
    {
        sigset_contains(&self.mask, signal.to_number())
    }

    /// The test by which a signal is one of this masker.
    pub open spec fn holds(&self) -> spec_fn(Signal) -> bool {
        |s: Signal| self@.contains(s)
    }

    /// The signals of this masker, in the order of their numbers.
    pub open spec fn listing(&self) -> Seq<Signal> {
        every_signal().filter(self.holds())
    }

    /// Lists the signals of this masker, in the order of their numbers.
    pub fn signals(&self) -> (list: Vec<Signal>)
        ensures
            list@ == self.listing(),
    {
        let mut list: Vec<Signal> = Vec::new();
        let mut number: i32 = MIN_SIGNAL_NUMBER;
        assert(every_signal().take(0).filter(self.holds()) =~= Seq::<Signal>::empty()) by {
            reveal(Seq::filter);
        }
        while number <= MAX_SIGNAL_NUMBER
            invariant
                MIN_SIGNAL_NUMBER <= number <= MAX_SIGNAL_NUMBER + 1,
                list@ == every_signal().take(number - 1).filter(self.holds()),
            decreases MAX_SIGNAL_NUMBER + 1 - number,
        {
            let ghost seen = every_signal().take(number - 1);
            let ghost next = every_signal().take(number as int);
            assert(next.drop_last() =~= seen);
            assert(next.filter(self.holds()) == if (self.holds())(next.last()) {
                seen.filter(self.holds()).push(next.last())
            } else {
                seen.filter(self.holds())
            }) by {
                reveal(Seq::filter);
            }
            if let Some(signal) = Signal::from_number(number) {
                if sigset_contains(&self.mask, number) {
                    list.push(signal);
                }
            }
            number += 1;
        }
        assert(every_signal().take(MAX_SIGNAL_NUMBER as int) =~= every_signal());
        list
    }

    /// Describes this masker by the numbers of its signals, in rising order.
    pub fn describe(&self) -> (text: String)
        ensures
            text@ == mask_text(Seq::new(self.listing().len(), |i: int| self.listing()[i].number() as i32)),
    {
        let list = self.signals();
        let numbers = numbers_of(list.as_slice());
        assert(numbers@ =~= Seq::new(
            self.listing().len(),
            |i: int| self.listing()[i].number() as i32,
        ));
        format_mask(&numbers)
    }
}

/// The signals with the `count` smallest numbers that pass a test, listed by
/// `filter`: they are exactly those signals, in rising order of their
/// numbers.
proof fn lemma_filtered_prefix(test: spec_fn(Signal) -> bool, count: int)
    requires
        0 <= count <= MAX_SIGNAL_NUMBER,
    ensures
        ({
            let listed = every_signal().take(count).filter(test);
            &&& forall|s: Signal|
                listed.contains(s) <==> test(s) && #[trigger] s.number() <= count
            &&& forall|i: int, j: int|
                0 <= i < j < listed.len() ==> (#[trigger] listed[i]).number() < (
                #[trigger] listed[j]).number()
        }),
    decreases count,
{
    let listed = every_signal().take(count).filter(test);
    reveal(Seq::filter);
    if count > 0 {
        lemma_filtered_prefix(test, count - 1);
        let before = every_signal().take(count - 1).filter(test);
        let last = Signal::with_number(count)->Some_0;
        assert(every_signal().take(count).drop_last() =~= every_signal().take(count - 1));
        assert forall|s: Signal|
            listed.contains(s) <==> test(s) && #[trigger] s.number() <= count by {
            if test(s) && s.number() == count {
                lemma_number_injective(s, last);
            }
            if test(s) && s.number() < count {
                let i = choose|i: int| 0 <= i < before.len() && before[i] == s;
                assert(listed[i] == s);
            }
        }
    }
}

/// The listing of a masker holds exactly the signals of the masker, each
/// once, in rising order of their numbers.
pub proof fn lemma_listing(masker: ThreadMasker)
    ensures
        forall|s: Signal| #[trigger] masker.listing().contains(s) <==> masker@.contains(s),
        forall|i: int, j: int|
            0 <= i < j < masker.listing().len() ==> (#[trigger] masker.listing()[i]).number() < (
            #[trigger] masker.listing()[j]).number(),
{
    lemma_filtered_prefix(masker.holds(), MAX_SIGNAL_NUMBER as int);
    assert(every_signal().take(MAX_SIGNAL_NUMBER as int) =~= every_signal());
    assert forall|s: Signal| #[trigger] masker.listing().contains(s) <==> masker@.contains(s) by {
        crate::signal::lemma_number_in_range(s);
    }
}

} // verus!
