//! Windows-specific exit codes.
//!
//! This module is cross-platform: a Windows exit code is a plain 32-bit
//! value, so any host can build and interpret one.

use vstd::prelude::*;

use crate::raw::RawExitCode;

verus! {

/// A Windows-specific exit code: the 32-bit value a Win32 process reports.
///
/// Zero means success; every other value is a failure. The named constants
/// are aliases for well-known Win32 error codes and common shell codes.
#[derive(Clone, Copy, Debug, PartialEq, Eq, Structural)]
pub struct ExitCode(pub u32);

impl ExitCode {
    /// The program terminated successfully.
    ///
    /// Corresponds to exit code `0`. This is the universal success code.
    #[allow(non_snake_case)]
    pub fn SUCCESS() -> (r: ExitCode)
        ensures
            r.0 == 0,
            r.spec_is_success(),
    {
        ExitCode(0)
    }

    /// The program terminated with a general, unspecified error.
    ///
    /// Corresponds to exit code `1`, a common "catch-all" for failures.
    #[allow(non_snake_case)]
    pub fn GENERAL_ERROR() -> (r: ExitCode)
        ensures
            r.0 == 1,
            !r.spec_is_success(),
    {
        ExitCode(1)
    }

    /// The system cannot find the file specified.
    ///
    /// Corresponds to exit code `2` (`ERROR_FILE_NOT_FOUND`).
    #[allow(non_snake_case)]
    pub fn FILE_NOT_FOUND() -> (r: ExitCode)
        ensures
            r.0 == 2,
            !r.spec_is_success(),
    {
        ExitCode(2)
    }

    /// The system cannot find the path specified.
    ///
    /// Corresponds to exit code `3` (`ERROR_PATH_NOT_FOUND`).
    #[allow(non_snake_case)]
    pub fn PATH_NOT_FOUND() -> (r: ExitCode)
        ensures
            r.0 == 3,
            !r.spec_is_success(),
    {
        ExitCode(3)
    }

    /// Access is denied.
    ///
    /// Corresponds to exit code `5` (`ERROR_ACCESS_DENIED`).
    #[allow(non_snake_case)]
    pub fn ACCESS_DENIED() -> (r: ExitCode)
        ensures
            r.0 == 5,
            !r.spec_is_success(),
    {
        ExitCode(5)
    }

    /// Not enough storage is available to process this command.
    ///
    /// Corresponds to exit code `8` (`ERROR_NOT_ENOUGH_MEMORY`).
    #[allow(non_snake_case)]
    pub fn NOT_ENOUGH_MEMORY() -> (r: ExitCode)
        ensures
            r.0 == 8,
            !r.spec_is_success(),
    {
        ExitCode(8)
    }

    /// The parameter is incorrect.
    ///
    /// Corresponds to exit code `87` (`ERROR_INVALID_PARAMETER`).
    #[allow(non_snake_case)]
    pub fn INVALID_PARAMETER() -> (r: ExitCode)
        ensures
            r.0 == 87,
            !r.spec_is_success(),
    {
        ExitCode(87)
    }

    /// The pipe has been ended.
    ///
    /// Corresponds to exit code `109` (`ERROR_BROKEN_PIPE`).
    #[allow(non_snake_case)]
    pub fn BROKEN_PIPE() -> (r: ExitCode)
        ensures
            r.0 == 109,
            !r.spec_is_success(),
    {
        ExitCode(109)
    }

    /// The program is not recognized as a command or operable program.
    ///
    /// Corresponds to exit code `9009`, as returned by `cmd.exe` when a
    /// command cannot be found or executed.
    #[allow(non_snake_case)]
    pub fn COMMAND_NOT_RECOGNIZED() -> (r: ExitCode)
        ensures
            r.0 == 9009,
            !r.spec_is_success(),
    {
        ExitCode(9009)
    }

    /// The program terminated as a result of a CTRL+C or Ctrl+Break signal.
    ///
    /// Corresponds to exit code `0xC000_013A`.
    #[allow(non_snake_case)]
    pub fn TERMINATED_BY_CTRL_C() -> (r: ExitCode)
        ensures
            r.0 == 0xC000_013A,
            !r.spec_is_success(),
    {
        ExitCode(0xC000_013A)
    }

    /// The program was terminated due to an access violation.
    ///
    /// Corresponds to exit code `0xC000_0005`.
    #[allow(non_snake_case)]
    pub fn ACCESS_VIOLATION() -> (r: ExitCode)
        ensures
            r.0 == 0xC000_0005,
            !r.spec_is_success(),
    {
        ExitCode(0xC000_0005)
    }

    /// The program terminated due to a stack overflow.
    ///
    /// Corresponds to exit code `0xC000_00FD`.
    #[allow(non_snake_case)]
    pub fn STACK_OVERFLOW() -> (r: ExitCode)
        ensures
            r.0 == 0xC000_00FD,
            !r.spec_is_success(),
    {
        ExitCode(0xC000_00FD)
    }

    /// The exit code holding the given 32-bit value.
    pub open spec fn spec_from_raw(code: u32) -> ExitCode {
        ExitCode(code)
    }

    /// The 32-bit value this exit code stands for.
    pub open spec fn spec_to_raw(self) -> u32 {
        self.0
    }

    /// An exit code means success exactly when its value is zero.
    pub open spec fn spec_is_success(self) -> bool {
        self.0 == 0
    }
}

/// An exit code survives the raw round trip in both directions: rebuilding a
/// code from its value gives the code back, and reading the value of a code
/// built from a value gives that value back.
pub proof fn lemma_exit_code_round_trip(c: ExitCode, raw: u32)
    ensures
        ExitCode::spec_from_raw(c.spec_to_raw()) == c,
        ExitCode::spec_from_raw(raw).spec_to_raw() == raw,
{
}

impl RawExitCode for ExitCode {
    type Code = u32;

    open spec fn code_spec(&self) -> u32 {
        self.0
    }

    open spec fn zero_code() -> u32 {
        0
    }

    fn from_raw(code: u32) -> Self {
        ExitCode(code)
    }

    fn to_raw(&self) -> u32 {
        self.0
    }

    fn is_success(&self) -> bool {
        self.0 == 0
    }

    fn is_failure(&self) -> bool {
        self.0 != 0
    }
}

impl From<u32> for ExitCode {
    fn from(code: u32) -> (r: ExitCode) {
        ExitCode(code)
    }
}

impl vstd::std_specs::convert::FromSpecImpl<u32> for ExitCode {
    open spec fn obeys_from_spec() -> bool {
        true
    }

    open spec fn from_spec(code: u32) -> ExitCode {
        ExitCode(code)
    }
}

} // verus!
