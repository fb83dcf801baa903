use vstd::prelude::*;

verus! {

/// A POSIX signal, identified by its number.
///
/// Well-known signal numbers map to named variants; any other number maps to
/// [`Unrecognized`](Signal::Unrecognized), which carries the original number,
/// so that every number round-trips through
/// [`from_raw`](Signal::from_raw)/[`to_raw`](Signal::to_raw) exactly.
#[derive(Clone, Copy, Debug, PartialEq, Eq, Structural)]
pub enum Signal {
    /// `SIGHUP` (1): the controlling terminal was closed.
    Hangup,
    /// `SIGINT` (2): interactive interrupt.
    Interrupt,
    /// `SIGQUIT` (3): interactive quit.
    Quit,
    /// `SIGILL` (4): illegal instruction.
    Illegal,
    /// `SIGTRAP` (5): trace or breakpoint trap.
    Trap,
    /// `SIGABRT` (6): abnormal termination.
    Abort,
    /// `SIGBUS` (7): bus error.
    Bus,
    /// `SIGFPE` (8): erroneous arithmetic operation.
    FloatingPointException,
    /// `SIGKILL` (9): unblockable kill.
    Kill,
    /// `SIGUSR1` (10): user-defined signal one.
    User1,
    /// `SIGSEGV` (11): invalid memory reference.
    SegmentationFault,
    /// `SIGUSR2` (12): user-defined signal two.
    User2,
    /// `SIGPIPE` (13): write on a pipe with no reader.
    Pipe,
    /// `SIGALRM` (14): timer alarm.
    Alarm,
    /// `SIGTERM` (15): termination request.
    Terminate,
    /// `SIGSTKFLT` (16): stack fault on coprocessor.
    StackFault,
    /// `SIGCHLD` (17): child process status changed.
    Child,
    /// `SIGCONT` (18): continue if stopped.
    Continue,
    /// `SIGSTOP` (19): unblockable stop.
    Stop,
    /// `SIGTSTP` (20): interactive stop.
    TerminalStop,
    /// `SIGTTIN` (21): background read from the terminal.
    TtyIn,
    /// `SIGTTOU` (22): background write to the terminal.
    TtyOut,
    /// `SIGURG` (23): urgent data on a socket.
    Urgent,
    /// `SIGXCPU` (24): CPU time limit exceeded.
    CpuLimit,
    /// `SIGXFSZ` (25): file size limit exceeded.
    FileSizeLimit,
    /// `SIGVTALRM` (26): virtual timer alarm.
    VirtualAlarm,
    /// `SIGPROF` (27): profiling timer alarm.
    Profiling,
    /// `SIGWINCH` (28): window size change.
    WindowChange,
    /// `SIGIO` (29): I/O now possible.
    Io,
    /// `SIGPWR` (30): power failure.
    Power,
    /// `SIGSYS` (31): bad system call.
    Sys,
    /// A signal number with no name known to this catalog.
    Unrecognized(u8),
}

impl Signal {
    /// The signal a raw number names: a named variant for the well-known
    /// numbers, `Unrecognized` carrying the number itself otherwise.
    pub open spec fn spec_from_raw(number: u8) -> Signal {
        match number {
            1 => Signal::Hangup,
            2 => Signal::Interrupt,
            3 => Signal::Quit,
            4 => Signal::Illegal,
            5 => Signal::Trap,
            6 => Signal::Abort,
            7 => Signal::Bus,
            8 => Signal::FloatingPointException,
            9 => Signal::Kill,
            10 => Signal::User1,
            11 => Signal::SegmentationFault,
            12 => Signal::User2,
            13 => Signal::Pipe,
            14 => Signal::Alarm,
            15 => Signal::Terminate,
            16 => Signal::StackFault,
            17 => Signal::Child,
            18 => Signal::Continue,
            19 => Signal::Stop,
            20 => Signal::TerminalStop,
            21 => Signal::TtyIn,
            22 => Signal::TtyOut,
            23 => Signal::Urgent,
            24 => Signal::CpuLimit,
            25 => Signal::FileSizeLimit,
            26 => Signal::VirtualAlarm,
            27 => Signal::Profiling,
            28 => Signal::WindowChange,
            29 => Signal::Io,
            30 => Signal::Power,
            31 => Signal::Sys,
            _ => Signal::Unrecognized(number),
        }
    }

    /// The number this signal stands for.
    pub open spec fn spec_to_raw(self) -> u8 {
        match self {
            Signal::Hangup => 1,
            Signal::Interrupt => 2,
            Signal::Quit => 3,
            Signal::Illegal => 4,
            Signal::Trap => 5,
            Signal::Abort => 6,
            Signal::Bus => 7,
            Signal::FloatingPointException => 8,
            Signal::Kill => 9,
            Signal::User1 => 10,
            Signal::SegmentationFault => 11,
            Signal::User2 => 12,
            Signal::Pipe => 13,
            Signal::Alarm => 14,
            Signal::Terminate => 15,
            Signal::StackFault => 16,
            Signal::Child => 17,
            Signal::Continue => 18,
            Signal::Stop => 19,
            Signal::TerminalStop => 20,
            Signal::TtyIn => 21,
            Signal::TtyOut => 22,
            Signal::Urgent => 23,
            Signal::CpuLimit => 24,
            Signal::FileSizeLimit => 25,
            Signal::VirtualAlarm => 26,
            Signal::Profiling => 27,
            Signal::WindowChange => 28,
            Signal::Io => 29,
            Signal::Power => 30,
            Signal::Sys => 31,
            Signal::Unrecognized(number) => number,
        }
    }

    /// Creates a `Signal` from the underlying signal number.
    ///
    /// This is total: unknown numbers become `Unrecognized`, never an error.
    pub fn from_raw(number: u8) -> (r: Self)
        ensures
            r == Signal::spec_from_raw(number),
    {
        match number {
            1 => Signal::Hangup,
            2 => Signal::Interrupt,
            3 => Signal::Quit,
            4 => Signal::Illegal,
            5 => Signal::Trap,
            6 => Signal::Abort,
            7 => Signal::Bus,
            8 => Signal::FloatingPointException,
            9 => Signal::Kill,
            10 => Signal::User1,
            11 => Signal::SegmentationFault,
            12 => Signal::User2,
            13 => Signal::Pipe,
            14 => Signal::Alarm,
            15 => Signal::Terminate,
            16 => Signal::StackFault,
            17 => Signal::Child,
            18 => Signal::Continue,
            19 => Signal::Stop,
            20 => Signal::TerminalStop,
            21 => Signal::TtyIn,
            22 => Signal::TtyOut,
            23 => Signal::Urgent,
            24 => Signal::CpuLimit,
            25 => Signal::FileSizeLimit,
            26 => Signal::VirtualAlarm,
            27 => Signal::Profiling,
            28 => Signal::WindowChange,
            29 => Signal::Io,
            30 => Signal::Power,
            31 => Signal::Sys,
            _ => Signal::Unrecognized(number),
        }
    }

    /// Returns the underlying signal number.
    pub fn to_raw(&self) -> (r: u8)
        ensures
            r == self.spec_to_raw(),
    {
        match self {
            Signal::Hangup => 1,
            Signal::Interrupt => 2,
            Signal::Quit => 3,
            Signal::Illegal => 4,
            Signal::Trap => 5,
            Signal::Abort => 6,
            Signal::Bus => 7,
            Signal::FloatingPointException => 8,
            Signal::Kill => 9,
            Signal::User1 => 10,
            Signal::SegmentationFault => 11,
            Signal::User2 => 12,
            Signal::Pipe => 13,
            Signal::Alarm => 14,
            Signal::Terminate => 15,
            Signal::StackFault => 16,
            Signal::Child => 17,
            Signal::Continue => 18,
            Signal::Stop => 19,
            Signal::TerminalStop => 20,
            Signal::TtyIn => 21,
            Signal::TtyOut => 22,
            Signal::Urgent => 23,
            Signal::CpuLimit => 24,
            Signal::FileSizeLimit => 25,
            Signal::VirtualAlarm => 26,
            Signal::Profiling => 27,
            Signal::WindowChange => 28,
            Signal::Io => 29,
            Signal::Power => 30,
            Signal::Sys => 31,
            Signal::Unrecognized(number) => *number,
        }
    }
}

/// A signal number round-trips exactly: decoding a number and reading it back
/// gives the number, for named and unrecognized numbers alike.
pub proof fn lemma_signal_round_trip(number: u8)
    ensures
        Signal::spec_from_raw(number).spec_to_raw() == number,
{
}

} // verus!
