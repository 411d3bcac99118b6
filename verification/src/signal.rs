//! Signals by name and by number, and the set of signals that the supervisor
//! catches and forwards.

use vstd::prelude::*;

verus! {

/// An operating-system signal.
///
/// The numbers are those of Linux on the common architectures (x86, ARM,
/// RISC-V), where the standard signals are numbered 1 to 31.
#[derive(Clone, Copy, Debug, PartialEq, Eq, Structural)]
pub enum Signal {
    /// Hangup.
    SIGHUP,
    /// Interrupt.
    SIGINT,
    /// Quit.
    SIGQUIT,
    /// Illegal instruction.
    SIGILL,
    /// Trace trap.
    SIGTRAP,
    /// Abort.
    SIGABRT,
    /// Bus error.
    SIGBUS,
    /// Floating point exception.
    SIGFPE,
    /// Kill; cannot be caught or ignored.
    SIGKILL,
    /// User defined signal 1.
    SIGUSR1,
    /// Segmentation violation.
    SIGSEGV,
    /// User defined signal 2.
    SIGUSR2,
    /// Write on a pipe with no one to read it.
    SIGPIPE,
    /// Alarm clock.
    SIGALRM,
    /// Termination request.
    SIGTERM,
    /// Stack fault.
    SIGSTKFLT,
    /// A child stopped or ended.
    SIGCHLD,
    /// Continue a stopped process.
    SIGCONT,
    /// Stop; cannot be caught or ignored.
    SIGSTOP,
    /// Stop requested from the terminal.
    SIGTSTP,
    /// Background read from the terminal.
    SIGTTIN,
    /// Background write to the terminal.
    SIGTTOU,
    /// Urgent condition on a socket.
    SIGURG,
    /// CPU time limit exceeded.
    SIGXCPU,
    /// File size limit exceeded.
    SIGXFSZ,
    /// Virtual timer expired.
    SIGVTALRM,
    /// Profiling timer expired.
    SIGPROF,
    /// Window size changed.
    SIGWINCH,
    /// Input or output is possible.
    SIGIO,
    /// Power failure.
    SIGPWR,
    /// Bad system call.
    SIGSYS,
}

/// The smallest number of a signal.
pub const MIN_SIGNAL_NUMBER: i32 = 1;

/// The largest number of a signal.
pub const MAX_SIGNAL_NUMBER: i32 = 31;

impl Signal {
    /// The number by which the operating system knows this signal.
    pub open spec fn number(self) -> int {
        match self {
            Signal::SIGHUP => 1,
            Signal::SIGINT => 2,
            Signal::SIGQUIT => 3,
            Signal::SIGILL => 4,
            Signal::SIGTRAP => 5,
            Signal::SIGABRT => 6,
            Signal::SIGBUS => 7,
            Signal::SIGFPE => 8,
            Signal::SIGKILL => 9,
            Signal::SIGUSR1 => 10,
            Signal::SIGSEGV => 11,
            Signal::SIGUSR2 => 12,
            Signal::SIGPIPE => 13,
            Signal::SIGALRM => 14,
            Signal::SIGTERM => 15,
            Signal::SIGSTKFLT => 16,
            Signal::SIGCHLD => 17,
            Signal::SIGCONT => 18,
            Signal::SIGSTOP => 19,
            Signal::SIGTSTP => 20,
            Signal::SIGTTIN => 21,
            Signal::SIGTTOU => 22,
            Signal::SIGURG => 23,
            Signal::SIGXCPU => 24,
            Signal::SIGXFSZ => 25,
            Signal::SIGVTALRM => 26,
            Signal::SIGPROF => 27,
            Signal::SIGWINCH => 28,
            Signal::SIGIO => 29,
            Signal::SIGPWR => 30,
            Signal::SIGSYS => 31,
        }
    }

    /// The signal with the given number, if there is one.
    pub open spec fn with_number(n: int) -> Option<Signal> {
        if n == 1 {
            Some(Signal::SIGHUP)
        } else if n == 2 {
            Some(Signal::SIGINT)
        } else if n == 3 {
            Some(Signal::SIGQUIT)
        } else if n == 4 {
            Some(Signal::SIGILL)
        } else if n == 5 {
            Some(Signal::SIGTRAP)
        } else if n == 6 {
            Some(Signal::SIGABRT)
        } else if n == 7 {
            Some(Signal::SIGBUS)
        } else if n == 8 {
            Some(Signal::SIGFPE)
        } else if n == 9 {
            Some(Signal::SIGKILL)
        } else if n == 10 {
            Some(Signal::SIGUSR1)
        } else if n == 11 {
            Some(Signal::SIGSEGV)
        } else if n == 12 {
            Some(Signal::SIGUSR2)
        } else if n == 13 {
            Some(Signal::SIGPIPE)
        } else if n == 14 {
            Some(Signal::SIGALRM)
        } else if n == 15 {
            Some(Signal::SIGTERM)
        } else if n == 16 {
            Some(Signal::SIGSTKFLT)
        } else if n == 17 {
            Some(Signal::SIGCHLD)
        } else if n == 18 {
            Some(Signal::SIGCONT)
        } else if n == 19 {
            Some(Signal::SIGSTOP)
        } else if n == 20 {
            Some(Signal::SIGTSTP)
        } else if n == 21 {
            Some(Signal::SIGTTIN)
        } else if n == 22 {
            Some(Signal::SIGTTOU)
        } else if n == 23 {
            Some(Signal::SIGURG)
        } else if n == 24 {
            Some(Signal::SIGXCPU)
        } else if n == 25 {
            Some(Signal::SIGXFSZ)
        } else if n == 26 {
            Some(Signal::SIGVTALRM)
        } else if n == 27 {
            Some(Signal::SIGPROF)
        } else if n == 28 {
            Some(Signal::SIGWINCH)
        } else if n == 29 {
            Some(Signal::SIGIO)
        } else if n == 30 {
            Some(Signal::SIGPWR)
        } else if n == 31 {
            Some(Signal::SIGSYS)
        } else {
            None
        }
    }

    /// Whether the operating system or the signal registry refuses a handler
    /// for this signal: `SIGKILL` and `SIGSTOP` cannot be caught at all, and
    /// `SIGILL`, `SIGFPE` and `SIGSEGV` report faults of the running code
    /// itself.
    pub open spec fn is_forbidden(self) -> bool {
        self == Signal::SIGKILL || self == Signal::SIGSTOP || self == Signal::SIGILL
            || self == Signal::SIGFPE || self == Signal::SIGSEGV
    }

    /// Returns the number of this signal.
    pub fn to_number(self) -> (n: i32)
        ensures
            n == self.number(),
            MIN_SIGNAL_NUMBER <= n <= MAX_SIGNAL_NUMBER,
    {
        match self {
            Signal::SIGHUP => 1,
            Signal::SIGINT => 2,
            Signal::SIGQUIT => 3,
            Signal::SIGILL => 4,
            Signal::SIGTRAP => 5,
            Signal::SIGABRT => 6,
            Signal::SIGBUS => 7,
            Signal::SIGFPE => 8,
            Signal::SIGKILL => 9,
            Signal::SIGUSR1 => 10,
            Signal::SIGSEGV => 11,
            Signal::SIGUSR2 => 12,
            Signal::SIGPIPE => 13,
            Signal::SIGALRM => 14,
            Signal::SIGTERM => 15,
            Signal::SIGSTKFLT => 16,
            Signal::SIGCHLD => 17,
            Signal::SIGCONT => 18,
            Signal::SIGSTOP => 19,
            Signal::SIGTSTP => 20,
            Signal::SIGTTIN => 21,
            Signal::SIGTTOU => 22,
            Signal::SIGURG => 23,
            Signal::SIGXCPU => 24,
            Signal::SIGXFSZ => 25,
            Signal::SIGVTALRM => 26,
            Signal::SIGPROF => 27,
            Signal::SIGWINCH => 28,
            Signal::SIGIO => 29,
            Signal::SIGPWR => 30,
            Signal::SIGSYS => 31,
        }
    }

    /// Returns the signal with the given number, or `None` where no signal
    /// has that number.
    pub fn from_number(n: i32) -> (r: Option<Signal>)
        ensures
            r == Signal::with_number(n as int),
            r is Some <==> MIN_SIGNAL_NUMBER <= n <= MAX_SIGNAL_NUMBER,
            r matches Some(s) ==> s.number() == n,
    {
        match n {
            1 => Some(Signal::SIGHUP),
            2 => Some(Signal::SIGINT),
            3 => Some(Signal::SIGQUIT),
            4 => Some(Signal::SIGILL),
            5 => Some(Signal::SIGTRAP),
            6 => Some(Signal::SIGABRT),
            7 => Some(Signal::SIGBUS),
            8 => Some(Signal::SIGFPE),
            9 => Some(Signal::SIGKILL),
            10 => Some(Signal::SIGUSR1),
            11 => Some(Signal::SIGSEGV),
            12 => Some(Signal::SIGUSR2),
            13 => Some(Signal::SIGPIPE),
            14 => Some(Signal::SIGALRM),
            15 => Some(Signal::SIGTERM),
            16 => Some(Signal::SIGSTKFLT),
            17 => Some(Signal::SIGCHLD),
            18 => Some(Signal::SIGCONT),
            19 => Some(Signal::SIGSTOP),
            20 => Some(Signal::SIGTSTP),
            21 => Some(Signal::SIGTTIN),
            22 => Some(Signal::SIGTTOU),
            23 => Some(Signal::SIGURG),
            24 => Some(Signal::SIGXCPU),
            25 => Some(Signal::SIGXFSZ),
            26 => Some(Signal::SIGVTALRM),
            27 => Some(Signal::SIGPROF),
            28 => Some(Signal::SIGWINCH),
            29 => Some(Signal::SIGIO),
            30 => Some(Signal::SIGPWR),
            31 => Some(Signal::SIGSYS),
            _ => None,
        }
    }

    /// Tells whether a handler may be registered for this signal.
    pub fn can_be_caught(self) -> (b: bool)
        ensures
            b == !self.is_forbidden(),
    {
        match self {
            Signal::SIGKILL | Signal::SIGSTOP | Signal::SIGILL | Signal::SIGFPE
            | Signal::SIGSEGV => false,
            _ => true,
        }
    }
}

/// Every signal has a number between 1 and 31.
pub proof fn lemma_number_in_range(s: Signal)
    ensures
        MIN_SIGNAL_NUMBER <= s.number() <= MAX_SIGNAL_NUMBER,
{
}

/// Looking a signal up by its own number gives the signal back.
pub proof fn lemma_number_round_trip(s: Signal)
    ensures
        Signal::with_number(s.number()) == Some(s),
{
}

/// A number that names a signal is the number of the signal it names, and
/// exactly the numbers from 1 to 31 name one.
pub proof fn lemma_with_number_inverts(n: int)
    ensures
        Signal::with_number(n) is Some <==> MIN_SIGNAL_NUMBER <= n <= MAX_SIGNAL_NUMBER,
        Signal::with_number(n) matches Some(s) ==> s.number() == n,
{
}

/// Two signals with the same number are the same signal.
pub proof fn lemma_number_injective(a: Signal, b: Signal)
    requires
        a.number() == b.number(),
    ensures
        a == b,
{
    lemma_number_round_trip(a);
    lemma_number_round_trip(b);
}

/// Every signal, in the order of the numbers.
pub open spec fn every_signal() -> Seq<Signal> {
    Seq::new(MAX_SIGNAL_NUMBER as nat, |i: int| Signal::with_number(i + 1)->Some_0)
}

/// Returns the numbers of the given signals, in the same order.
pub fn numbers_of(signals: &[Signal]) -> (numbers: Vec<i32>)
    ensures
        numbers@.len() == signals@.len(),
        forall|i: int| 0 <= i < signals@.len() ==> numbers@[i] == (#[trigger] signals@[i]).number(),
{
    let mut numbers: Vec<i32> = Vec::new();
    let mut i: usize = 0;
    while i < signals.len()
        invariant
            i <= signals.len(),
            numbers@.len() == i,
            forall|j: int| 0 <= j < i ==> numbers@[j] == (#[trigger] signals@[j]).number(),
        decreases signals.len() - i,
    {
        numbers.push(signals[i].to_number());
        i += 1;
    }
    numbers
}

/// All signals that can and should be caught and forwarded to the child.
///
/// They are caught on one thread of the supervisor and masked in all the
/// others.
pub const SIGNALS_TO_HANDLE: [Signal; 17] = [
    Signal::SIGABRT,
    Signal::SIGALRM,
    Signal::SIGBUS,
    Signal::SIGCHLD,
    Signal::SIGCONT,
    Signal::SIGHUP,
    Signal::SIGINT,
    Signal::SIGIO,
    Signal::SIGPIPE,
    Signal::SIGPROF,
    Signal::SIGQUIT,
    Signal::SIGSYS,
    Signal::SIGTERM,
    Signal::SIGTRAP,
    Signal::SIGUSR1,
    Signal::SIGUSR2,
    Signal::SIGWINCH,
];

/// A handler may be registered for every signal that the supervisor catches.
pub proof fn lemma_handled_signals_can_be_caught()
    ensures
        forall|i: int| 0 <= i < 17 ==> !(#[trigger] SIGNALS_TO_HANDLE@[i]).is_forbidden(),
{
}

/// No signal is listed twice among those that the supervisor catches.
pub proof fn lemma_handled_signals_are_distinct()
    ensures
        forall|i: int, j: int|
            0 <= i < j < 17 ==> #[trigger] SIGNALS_TO_HANDLE@[i] != #[trigger] SIGNALS_TO_HANDLE@[j],
{
}

} // verus!
