//! Cross-platform process exit status and exit code types.
//!
//! Unlike `std::process`, this crate can create and interpret exit codes of
//! non-current platforms: on Windows it can read and interpret exit codes
//! recorded from a Linux process, or vice versa. The decoding of raw POSIX
//! wait statuses is carried out with plain bitwise arithmetic, with no
//! dependence on the host's C library.

use vstd::prelude::*;

pub mod raw;
pub mod unix;
pub mod windows;

use crate::raw::RawExitCode;
use crate::unix::WaitState;
use crate::unix::WaitStatus;

verus! {

/// An exit code or exit state returned by a program: the platform-erased
/// outcome type.
///
/// Exactly one branch is populated per outcome — a POSIX wait status or a
/// Windows exit code — and the success query delegates to the held value. A
/// failed `ProcResult` is itself the error value: it carries the full
/// classified status rather than a separate error code.
#[derive(Clone, Copy, Debug, PartialEq, Eq, Structural)]
#[non_exhaustive]
pub enum ProcResult {
    /// An unclassified exit status on a Unix platform.
    Unix(WaitStatus),
    /// An unclassified exit status on a Windows platform.
    Windows(windows::ExitCode),
}

impl ProcResult {
    /// The outcome means success: for the Unix branch, the status decodes to
    /// a normal exit with code zero; for the Windows branch, the exit code
    /// is zero.
    pub open spec fn spec_is_success(self) -> bool {
        match self {
            ProcResult::Unix(status) => match status.spec_state() {
                WaitState::Exited { exit_code } => exit_code.0 == 0,
                _ => false,
            },
            ProcResult::Windows(code) => code.0 == 0,
        }
    }

    /// Creates a new `ProcResult` that represents a successful termination,
    /// in the POSIX shape: a wait status of zero.
    pub fn default_success() -> (r: Self)
        ensures
            r == ProcResult::Unix(WaitStatus(0)),
            r.spec_is_success(),
    {
        proof {
            assert(0i32 & 0x7F == 0 && ((0i32 >> 8) & 0xFF) == 0) by (bit_vector);
        }
        Self::Unix(WaitStatus::default())
    }

    /// Creates a new `ProcResult` that represents a non-zero exit code, in
    /// the POSIX shape.
    pub fn default_failure() -> (r: Self)
        ensures
            r == ProcResult::Unix(WaitStatus(1)),
            !r.spec_is_success(),
    {
        proof {
            assert(1i32 & 0x7F != 0) by (bit_vector);
        }
        Self::Unix(WaitStatus::from_raw(1))  // Non-zero exit code
    }

    /// Returns a result that is `Ok` if the exit code or status indicates a
    /// success.
    ///
    /// # Errors
    ///
    /// Returns `Self` if not [`ProcResult::is_success`]: the outcome itself
    /// is the self-describing error value.
    pub fn ok(&self) -> (r: Result<(), Self>)
        ensures
            self.spec_is_success() ==> r == Result::<(), ProcResult>::Ok(()),
            !self.spec_is_success() ==> r == Result::<(), ProcResult>::Err(*self),
    {
        if self.is_success() {
            Ok(())
        } else {
            Err(*self)
        }
    }

    /// Returns whether the process terminated successfully.
    pub fn is_success(&self) -> (r: bool)
        ensures
            r == self.spec_is_success(),
    {
        match self {
            ProcResult::Unix(status) => match status.exit_code() {
                Some(code) => code.is_success(),
                None => false,
            },
            ProcResult::Windows(code) => code.is_success(),
        }
    }

    /// Returns whether the process did not terminate successfully.
    pub fn is_failure(&self) -> (r: bool)
        ensures
            r == !self.spec_is_success(),
    {
        !self.is_success()
    }
}

} // verus!
