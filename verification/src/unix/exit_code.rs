use vstd::prelude::*;

use crate::raw::RawExitCode;

verus! {

/// A Unix-like exit code: the 8-bit value a POSIX process reports on exit.
///
/// Zero means success; every other value is a failure. The named constants
/// are aliases for specific well-known byte values, in the style of
/// `sysexits.h`.
#[derive(Clone, Copy, Debug, PartialEq, Eq, Structural)]
pub struct ExitCode(pub u8);

impl ExitCode {
    /// The program terminated successfully.
    ///
    /// Corresponds to exit code `0`. This is the universal success code.
    #[allow(non_snake_case)]
    pub fn SUCCESS() -> (r: ExitCode)
        ensures
            r.0 == 0,
            r.spec_is_success(),
    {
        ExitCode(0)
    }

    /// The program terminated with a general, unspecified error.
    ///
    /// Corresponds to exit code `1`, a common "catch-all" for failures.
    #[allow(non_snake_case)]
    pub fn GENERAL_ERROR() -> (r: ExitCode)
        ensures
            r.0 == 1,
            !r.spec_is_success(),
    {
        ExitCode(1)
    }

    /// The command line arguments were invalid or used incorrectly.
    ///
    /// Corresponds to exit code `2`.
    #[allow(non_snake_case)]
    pub fn INVALID_ARGS() -> (r: ExitCode)
        ensures
            r.0 == 2,
            !r.spec_is_success(),
    {
        ExitCode(2)
    }

    /// The command was used incorrectly.
    ///
    /// Corresponds to exit code `64` (`EX_USAGE` from `sysexits.h`).
    #[allow(non_snake_case)]
    pub fn USAGE() -> (r: ExitCode)
        ensures
            r.0 == 64,
            !r.spec_is_success(),
    {
        ExitCode(64)
    }

    /// The program received a malformed or invalid input.
    ///
    /// Corresponds to exit code `65` (`EX_DATAERR` from `sysexits.h`).
    #[allow(non_snake_case)]
    pub fn DATA_ERROR() -> (r: ExitCode)
        ensures
            r.0 == 65,
            !r.spec_is_success(),
    {
        ExitCode(65)
    }

    /// An input file did not exist or was not readable.
    ///
    /// Corresponds to exit code `66` (`EX_NOINPUT` from `sysexits.h`).
    #[allow(non_snake_case)]
    pub fn NO_INPUT() -> (r: ExitCode)
        ensures
            r.0 == 66,
            !r.spec_is_success(),
    {
        ExitCode(66)
    }

    /// The user specified did not exist.
    ///
    /// Corresponds to exit code `67` (`EX_NOUSER` from `sysexits.h`).
    #[allow(non_snake_case)]
    pub fn NO_USER() -> (r: ExitCode)
        ensures
            r.0 == 67,
            !r.spec_is_success(),
    {
        ExitCode(67)
    }

    /// The host specified did not exist.
    ///
    /// Corresponds to exit code `68` (`EX_NOHOST` from `sysexits.h`).
    #[allow(non_snake_case)]
    pub fn NO_HOST() -> (r: ExitCode)
        ensures
            r.0 == 68,
            !r.spec_is_success(),
    {
        ExitCode(68)
    }

    /// A server is unavailable.
    ///
    /// Corresponds to exit code `69` (`EX_UNAVAILABLE` from `sysexits.h`).
    #[allow(non_snake_case)]
    pub fn UNAVAILABLE() -> (r: ExitCode)
        ensures
            r.0 == 69,
            !r.spec_is_success(),
    {
        ExitCode(69)
    }

    /// An internal software error occurred.
    ///
    /// Corresponds to exit code `70` (`EX_SOFTWARE` from `sysexits.h`).
    #[allow(non_snake_case)]
    pub fn SOFTWARE() -> (r: ExitCode)
        ensures
            r.0 == 70,
            !r.spec_is_success(),
    {
        ExitCode(70)
    }

    /// An operating system error occurred.
    ///
    /// Corresponds to exit code `71` (`EX_OSERR` from `sysexits.h`).
    #[allow(non_snake_case)]
    pub fn OS_ERROR() -> (r: ExitCode)
        ensures
            r.0 == 71,
            !r.spec_is_success(),
    {
        ExitCode(71)
    }

    /// A system file did not exist, cannot be opened, or is malformed.
    ///
    /// Corresponds to exit code `72` (`EX_OSFILE` from `sysexits.h`).
    #[allow(non_snake_case)]
    pub fn OS_FILE() -> (r: ExitCode)
        ensures
            r.0 == 72,
            !r.spec_is_success(),
    {
        ExitCode(72)
    }

    /// A user-specified output file cannot be created.
    ///
    /// Corresponds to exit code `73` (`EX_CANTCREAT` from `sysexits.h`).
    #[allow(non_snake_case)]
    pub fn CANT_CREATE() -> (r: ExitCode)
        ensures
            r.0 == 73,
            !r.spec_is_success(),
    {
        ExitCode(73)
    }

    /// An error occurred while reading or writing to a file.
    ///
    /// Corresponds to exit code `74` (`EX_IOERR` from `sysexits.h`).
    #[allow(non_snake_case)]
    pub fn IO_ERROR() -> (r: ExitCode)
        ensures
            r.0 == 74,
            !r.spec_is_success(),
    {
        ExitCode(74)
    }

    /// A temporary failure occurred; the request may be retried later.
    ///
    /// Corresponds to exit code `75` (`EX_TEMPFAIL` from `sysexits.h`).
    #[allow(non_snake_case)]
    pub fn TEMP_FAIL() -> (r: ExitCode)
        ensures
            r.0 == 75,
            !r.spec_is_success(),
    {
        ExitCode(75)
    }

    /// A remote system broke a protocol exchange.
    ///
    /// Corresponds to exit code `76` (`EX_PROTOCOL` from `sysexits.h`).
    #[allow(non_snake_case)]
    pub fn PROTOCOL() -> (r: ExitCode)
        ensures
            r.0 == 76,
            !r.spec_is_success(),
    {
        ExitCode(76)
    }

    /// The user did not have sufficient permissions for the operation.
    ///
    /// Corresponds to exit code `77` (`EX_NOPERM` from `sysexits.h`).
    #[allow(non_snake_case)]
    pub fn NO_PERM() -> (r: ExitCode)
        ensures
            r.0 == 77,
            !r.spec_is_success(),
    {
        ExitCode(77)
    }

    /// Something was found in an unconfigured or misconfigured state.
    ///
    /// Corresponds to exit code `78` (`EX_CONFIG` from `sysexits.h`).
    #[allow(non_snake_case)]
    pub fn CONFIG() -> (r: ExitCode)
        ensures
            r.0 == 78,
            !r.spec_is_success(),
    {
        ExitCode(78)
    }

    /// The command was found but could not be executed.
    ///
    /// Corresponds to exit code `126`, as returned by shells.
    #[allow(non_snake_case)]
    pub fn COMMAND_CANNOT_EXECUTE() -> (r: ExitCode)
        ensures
            r.0 == 126,
            !r.spec_is_success(),
    {
        ExitCode(126)
    }

    /// The command or program could not be found.
    ///
    /// Corresponds to exit code `127`, as returned by shells.
    #[allow(non_snake_case)]
    pub fn COMMAND_NOT_FOUND() -> (r: ExitCode)
        ensures
            r.0 == 127,
            !r.spec_is_success(),
    {
        ExitCode(127)
    }

    /// The exit code holding the given byte.
    pub open spec fn spec_from_raw(code: u8) -> ExitCode {
        ExitCode(code)
    }

    /// The byte this exit code stands for.
    pub open spec fn spec_to_raw(self) -> u8 {
        self.0
    }

    /// An exit code means success exactly when its byte is zero.
    pub open spec fn spec_is_success(self) -> bool {
        self.0 == 0
    }

    /// Creates an `ExitCode` from the underlying `u8` code.
    pub fn from_raw(code: u8) -> (r: Self)
        ensures
            r == ExitCode::spec_from_raw(code),
    {
        ExitCode(code)
    }

    /// Returns the underlying `u8` code.
    pub fn to_raw(&self) -> (r: u8)
        ensures
            r == self.spec_to_raw(),
    {
        self.0
    }

    /// Returns `true` if the exit code represents a successful termination.
    pub fn is_success(&self) -> (r: bool)
        ensures
            r == self.spec_is_success(),
    {
        self.0 == 0
    }

    /// Returns `true` if the exit code represents a failure termination.
    pub fn is_failure(&self) -> (r: bool)
        ensures
            r == !self.spec_is_success(),
    {
        !self.is_success()
    }
}

/// An exit code survives the raw round trip in both directions: rebuilding a
/// code from its byte gives the code back, and reading the byte of a code
/// built from a byte gives that byte back.
pub proof fn lemma_exit_code_round_trip(c: ExitCode, raw: u8)
    ensures
        ExitCode::spec_from_raw(c.spec_to_raw()) == c,
        ExitCode::spec_from_raw(raw).spec_to_raw() == raw,
{
}

impl RawExitCode for ExitCode {
    type Code = u8;

    open spec fn code_spec(&self) -> u8 {
        self.0
    }

    open spec fn zero_code() -> u8 {
        0
    }

    fn from_raw(code: u8) -> Self {
        ExitCode::from_raw(code)
    }

    fn to_raw(&self) -> u8 {
        ExitCode::to_raw(self)
    }

    fn is_success(&self) -> bool {
        ExitCode::is_success(self)
    }

    fn is_failure(&self) -> bool {
        ExitCode::is_failure(self)
    }
}

impl From<u8> for ExitCode {
    fn from(code: u8) -> (r: ExitCode) {
        ExitCode::from_raw(code)
    }
}

impl vstd::std_specs::convert::FromSpecImpl<u8> for ExitCode {
    open spec fn obeys_from_spec() -> bool {
        true
    }

    open spec fn from_spec(code: u8) -> ExitCode {
        ExitCode(code)
    }
}

} // verus!
