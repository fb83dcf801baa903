use vstd::prelude::*;

use crate::unix::exit_code::ExitCode;
use crate::unix::signal::Signal;
use crate::unix::signal::lemma_signal_round_trip;

verus! {

/// The decoded meaning of a Unix `int status` returned by `waitpid` or
/// similar functions.
///
/// Provides methods to check how a process ended — exited normally,
/// terminated by a signal (with or without a core dump), or some other,
/// unrecognized shape — and to retrieve the exit code or signal number, all
/// by plain bitwise arithmetic with no dependence on the host's C library.
#[derive(Clone, Copy, Debug, PartialEq, Eq, Structural)]
pub enum WaitState {
    /// Indicates that the process exited normally with a specific exit code.
    Exited {
        /// The exit code of the process.
        exit_code: ExitCode,
    },
    /// Indicates that the process was terminated by a signal, with an
    /// optional core dump.
    Signaled {
        /// The signal that caused the termination.
        signal: Signal,
        /// Whether a core dump occurred.
        core_dump: bool,
    },
    /// Indicates a wait status code that is not recognized or supported,
    /// preserved verbatim.
    Unsupported(i32),
}

/// The status indicates a normal exit: the low seven bits are all zero.
pub open spec fn spec_is_exited(status: i32) -> bool {
    status & 0x7F == 0
}

/// The status indicates termination by a signal: the low byte is neither
/// zero nor the stopped sentinel `0x7F`.
pub open spec fn spec_is_signaled(status: i32) -> bool {
    status & 0xFF != 0x7F && status & 0xFF != 0
}

/// The status carries a core dump flag in bit `0x80`.
pub open spec fn spec_is_coredump(status: i32) -> bool {
    status & 0x80 != 0
}

/// The exit byte a status carries: bits 8 through 15.
pub open spec fn spec_exit_byte(status: i32) -> i32 {
    (status >> 8) & 0xFF
}

/// The terminating signal number a status carries: its low seven bits.
pub open spec fn spec_term_signal(status: i32) -> i32 {
    status & 0x7F
}

impl WaitState {
    /// The state a raw status decodes to: `Exited` when the low seven bits
    /// are clear, otherwise `Signaled` unless the low byte is zero or the
    /// stopped sentinel `0x7F`, and `Unsupported` for the rest.
    pub open spec fn spec_from_raw(status: i32) -> WaitState {
        if spec_is_exited(status) {
            WaitState::Exited { exit_code: ExitCode(spec_exit_byte(status) as u8) }
        } else if spec_is_signaled(status) {
            WaitState::Signaled {
                signal: Signal::spec_from_raw(spec_term_signal(status) as u8),
                core_dump: spec_is_coredump(status),
            }
        } else {
            WaitState::Unsupported(status)
        }
    }

    /// The raw status a state re-encodes to: the exit byte shifted up for
    /// `Exited`, the signal number with the core dump bit for `Signaled`,
    /// and the stored status verbatim for `Unsupported`.
    pub open spec fn spec_to_raw(self) -> i32 {
        match self {
            WaitState::Exited { exit_code } => (exit_code.0 as i32) << 8,
            WaitState::Signaled { signal, core_dump } => (signal.spec_to_raw() as i32) | if core_dump {
                0x80
            } else {
                0
            },
            WaitState::Unsupported(code) => code,
        }
    }

    /// Creates a `WaitState` from the underlying `i32` status code.
    ///
    /// Decoding is total: every status, negative numbers included, yields
    /// exactly one state, and a status matching no known shape becomes
    /// `Unsupported` rather than an error.
    pub fn from_raw(status: i32) -> (r: Self)
        ensures
            r == WaitState::spec_from_raw(status),
    {
        if Self::is_w_exited(status) {
            let code: u8 = Self::w_exit_status(status);
            proof {
                assert(0 <= ((status >> 8) & 0xFF) < 256) by (bit_vector);
            }
            Self::Exited { exit_code: ExitCode::from_raw(code) }
        } else if Self::is_w_signaled(status) {
            let number: u8 = Self::w_term_sig(status);
            proof {
                assert(0 <= (status & 0x7F) < 128) by (bit_vector);
            }
            Self::Signaled {
                signal: Signal::from_raw(number),
                core_dump: Self::is_w_coredump(status),
            }
        } else {
            Self::Unsupported(status)
        }
    }

    /// Returns an `i32` status code that represents the current wait state.
    ///
    /// # Note
    ///
    /// It is not guaranteed that the result of this function will be
    /// reflexive, meaning that `WaitState::from_raw(status).to_raw() ==
    /// status` may not always hold; this function is provided as a
    /// convenience to be able to programmatically create a wait status code
    /// where certain conditions are met, i.e. for testing or simulation
    /// purposes. See [`lemma_wait_state_round_trip`] for the direction that
    /// does hold.
    pub fn to_raw(&self) -> (r: i32)
        ensures
            r == self.spec_to_raw(),
    {
        match self {
            Self::Exited { exit_code } => (exit_code.to_raw() as i32) << 8,
            Self::Signaled { signal, core_dump } => (signal.to_raw() as i32) | if *core_dump {
                0x80
            } else {
                0
            },
            Self::Unsupported(code) => *code,
        }
    }

    /// A copy of the Unix `WSTOPSIG(status)` macro.
    #[allow(non_snake_case)]
    #[inline]
    fn WSTOPSIG(status: i32) -> (r: i32)
        ensures
            r == (status >> 8) & 0xFF,
    {
        (status >> 8) & 0xFF
    }

    /// A copy of the Unix `_WSTATUS(status)` macro.
    #[allow(non_snake_case)]
    #[inline]
    fn _WSTATUS(status: i32) -> (r: i32)
        ensures
            r == status & 0xFF,
    {
        status & 0xFF
    }

    /// A copy of the Unix `WIFSIGNALED(status)` macro.
    #[allow(non_snake_case)]
    #[inline]
    fn WIFSIGNALED(status: i32) -> (r: bool)
        ensures
            r == spec_is_signaled(status),
    {
        Self::_WSTATUS(status) != 0x7F && Self::_WSTATUS(status) != 0
    }

    /// A copy of the Unix `WTERMSIG(status)` macro.
    #[allow(non_snake_case)]
    #[inline]
    fn WTERMSIG(status: i32) -> (r: i32)
        ensures
            r == spec_term_signal(status),
    {
        status & 0x7F
    }

    /// A copy of the Unix `WIFEXITED(status)` macro.
    #[allow(non_snake_case)]
    #[inline]
    fn WIFEXITED(status: i32) -> (r: bool)
        ensures
            r == spec_is_exited(status),
    {
        (status & 0o177) == 0
    }

    /// A copy of the Unix `WEXITSTATUS(status)` macro.
    #[allow(non_snake_case)]
    #[inline]
    fn WEXITSTATUS(status: i32) -> (r: i32)
        ensures
            r == spec_exit_byte(status),
    {
        (status >> 8) & 0xFF
    }

    /// A copy of the Unix `WCOREDUMP(status)` macro.
    #[allow(non_snake_case)]
    #[inline]
    fn WCOREDUMP(status: i32) -> (r: bool)
        ensures
            r == spec_is_coredump(status),
    {
        (status & 0o200) != 0
    }

    /// Returns `true` if the status indicates that the process exited
    /// normally.
    ///
    /// Equivalent to the Unix `WIFEXITED(status)` macro.
    pub fn is_w_exited(status: i32) -> (r: bool)
        ensures
            r == spec_is_exited(status),
    {
        Self::WIFEXITED(status)
    }

    /// Returns the exit byte of the status.
    ///
    /// Equivalent to the Unix `WEXITSTATUS(status)` macro. Meaningful only
    /// when [`is_w_exited`](Self::is_w_exited) returns `true`; it still
    /// computes the same bits of any other status.
    pub fn w_exit_status(status: i32) -> (r: u8)
        ensures
            r as i32 == spec_exit_byte(status),
    {
        let v: i32 = Self::WEXITSTATUS(status);
        proof {
            assert(0 <= ((status >> 8) & 0xFF) < 256) by (bit_vector);
        }
        v as u8
    }

    /// Returns `true` if the status indicates that the process was
    /// terminated by a signal.
    ///
    /// Equivalent to the Unix `WIFSIGNALED(status)` macro.
    pub fn is_w_signaled(status: i32) -> (r: bool)
        ensures
            r == spec_is_signaled(status),
    {
        Self::WIFSIGNALED(status)
    }

    /// Returns the signal number that caused the process to terminate.
    ///
    /// Equivalent to the Unix `WTERMSIG(status)` macro. Meaningful only when
    /// [`is_w_signaled`](Self::is_w_signaled) returns `true`; it still
    /// computes the same bits of any other status.
    pub fn w_term_sig(status: i32) -> (r: u8)
        ensures
            r as i32 == spec_term_signal(status),
    {
        let v: i32 = Self::WTERMSIG(status);
        proof {
            assert(0 <= (status & 0x7F) < 128) by (bit_vector);
        }
        v as u8
    }

    /// Returns the signal number that caused the process to stop.
    ///
    /// Equivalent to the Unix `WSTOPSIG(status)` macro.
    pub fn w_stop_sig(status: i32) -> (r: u8)
        ensures
            r as i32 == (status >> 8) & 0xFF,
    {
        let v: i32 = Self::WSTOPSIG(status);
        proof {
            assert(0 <= ((status >> 8) & 0xFF) < 256) by (bit_vector);
        }
        v as u8
    }

    /// Returns `true` if the status indicates a core dump occurred.
    ///
    /// Equivalent to the Unix `WCOREDUMP(status)` macro.
    ///
    /// # Note
    ///
    /// Not universally supported across all Unix-like systems; `WCOREDUMP`
    /// is a Linux/BSD extension, and is meaningful only if
    /// [`is_w_signaled`](Self::is_w_signaled) returns `true`.
    pub fn is_w_coredump(status: i32) -> (r: bool)
        ensures
            r == spec_is_coredump(status),
    {
        Self::WCOREDUMP(status)
    }

    /// A state whose re-encoding decodes back to itself: every exited state,
    /// every signaled state whose signal is the decoding of a number that
    /// fits in seven bits, is not zero, and is not the bare stopped sentinel
    /// `0x7F` without a core dump, and every unsupported state that decoding
    /// itself can produce.
    pub open spec fn spec_round_trippable(self) -> bool {
        match self {
            WaitState::Exited { .. } => true,
            WaitState::Signaled { signal, core_dump } => {
                let number = signal.spec_to_raw();
                &&& signal == Signal::spec_from_raw(number)
                &&& 0 < number < 0x80
                &&& (number == 0x7F ==> core_dump)
            },
            WaitState::Unsupported(code) => WaitState::spec_from_raw(code) is Unsupported,
        }
    }
}

impl From<i32> for WaitState {
    fn from(status: i32) -> (r: WaitState) {
        WaitState::from_raw(status)
    }
}

impl vstd::std_specs::convert::FromSpecImpl<i32> for WaitState {
    open spec fn obeys_from_spec() -> bool {
        true
    }

    open spec fn from_spec(status: i32) -> WaitState {
        WaitState::spec_from_raw(status)
    }
}

/// Decoding classifies every raw status into exactly one state: `Exited`
/// when the low seven bits are clear, `Signaled` when they are not and the
/// low byte is not the stopped sentinel `0x7F`, and `Unsupported` when the
/// low byte is exactly the sentinel. The three conditions are mutually
/// exclusive and cover all 32-bit values.
pub proof fn lemma_from_raw_total(status: i32)
    ensures
        WaitState::spec_from_raw(status) is Exited <==> status & 0x7F == 0,
        WaitState::spec_from_raw(status) is Signaled <==> (status & 0x7F != 0 && status & 0xFF
            != 0x7F),
        WaitState::spec_from_raw(status) is Unsupported <==> (status & 0x7F != 0 && status & 0xFF
            == 0x7F),
{
    assert(status & 0x7F != 0 ==> status & 0xFF != 0) by (bit_vector);
    assert(status & 0x7F == 0 ==> status & 0xFF != 0x7F) by (bit_vector);
}

/// A round-trippable state survives re-encoding: decoding the raw status it
/// encodes to gives the state back. This covers every exited state and every
/// signaled state a decode can produce; for unsupported states it holds
/// exactly when the stored status decodes to `Unsupported` in the first
/// place.
pub proof fn lemma_wait_state_round_trip(state: WaitState)
    requires
        state.spec_round_trippable(),
    ensures
        WaitState::spec_from_raw(state.spec_to_raw()) == state,
{
    match state {
        WaitState::Exited { exit_code } => {
            let code = exit_code.0;
            let raw = (code as i32) << 8;
            assert(((code as i32) << 8) & 0x7F == 0) by (bit_vector);
            assert(((((code as i32) << 8) >> 8) & 0xFF) == code as i32) by (bit_vector);
            assert(spec_exit_byte(raw) as u8 == code);
        },
        WaitState::Signaled { signal, core_dump } => {
            let number = signal.spec_to_raw();
            let raw = (number as i32) | if core_dump { 0x80 } else { 0 };
            let bit: i32 = if core_dump { 0x80 } else { 0 };
            assert(0 < number < 0x80 && (number == 0x7F ==> bit == 0x80) && (bit == 0 || bit
                == 0x80) ==> {
                &&& ((number as i32) | bit) & 0x7F == number as i32
                &&& ((number as i32) | bit) & 0xFF != 0x7F
                &&& ((number as i32) | bit) & 0xFF != 0
                &&& ((((number as i32) | bit) & 0x80) != 0 <==> bit == 0x80)
            }) by (bit_vector);
            assert(spec_term_signal(raw) as u8 == number);
        },
        WaitState::Unsupported(code) => {},
    }
}

/// Every state that decoding produces is itself round-trippable: the
/// decoder only builds exited states, signaled states whose signal number is
/// a nonzero seven-bit value in canonical form (with a core dump whenever
/// the number is the sentinel `0x7F`), and unsupported states that decode to
/// themselves.
pub proof fn lemma_decoded_state_round_trippable(status: i32)
    ensures
        WaitState::spec_from_raw(status).spec_round_trippable(),
{
    if !spec_is_exited(status) && spec_is_signaled(status) {
        assert(0 <= (status & 0x7F) < 0x80) by (bit_vector);
        assert(status & 0x7F != 0 && (status & 0x7F == 0x7F && status & 0xFF != 0x7F ==> status
            & 0x80 != 0)) by (bit_vector)
            requires
                !(status & 0x7F == 0) && status & 0xFF != 0x7F && status & 0xFF != 0,
        ;
        let number = (status & 0x7F) as u8;
        lemma_signal_round_trip(number);
    }
}

/// Re-encoding is faithful under composition: re-encoding whatever a raw
/// status decodes to, and decoding again, gives the same state as decoding
/// the original status — even though the re-encoded integer itself may
/// differ from the original.
pub proof fn lemma_reencode_preserves_decode(status: i32)
    ensures
        WaitState::spec_from_raw(WaitState::spec_from_raw(status).spec_to_raw())
            == WaitState::spec_from_raw(status),
{
    lemma_decoded_state_round_trippable(status);
    lemma_wait_state_round_trip(WaitState::spec_from_raw(status));
}

} // verus!
