use vstd::prelude::*;

use crate::unix::exit_code::ExitCode;
use crate::unix::signal::Signal;
use crate::unix::wait_state::WaitState;

verus! {

/// A Unix-like wait status: a transparent holder of the raw `i32` a POSIX
/// host reports when a child process ends.
///
/// Every accessor is a pure projection of [`state`](WaitStatus::state), the
/// decoded [`WaitState`] of the raw value; nothing here mutates.
#[derive(Clone, Copy, Debug, PartialEq, Eq, Structural)]
pub struct WaitStatus(pub i32);

impl WaitStatus {
    /// The decoded state of the held raw status.
    pub open spec fn spec_state(self) -> WaitState {
        WaitState::spec_from_raw(self.0)
    }

    /// The exit code of the held status, present exactly when it decodes to
    /// `Exited`.
    pub open spec fn spec_exit_code(self) -> Option<ExitCode> {
        match self.spec_state() {
            WaitState::Exited { exit_code } => Some(exit_code),
            _ => None,
        }
    }

    /// The terminating signal of the held status, present exactly when it
    /// decodes to `Signaled`.
    pub open spec fn spec_signal(self) -> Option<Signal> {
        match self.spec_state() {
            WaitState::Signaled { signal, .. } => Some(signal),
            _ => None,
        }
    }

    /// Creates a new `WaitStatus` from the underlying `i32` status code.
    pub fn from_raw(status: i32) -> (r: Self)
        ensures
            r.0 == status,
    {
        WaitStatus(status)
    }

    /// Returns the underlying `i32` status code.
    pub fn to_raw(&self) -> (r: i32)
        ensures
            r == self.0,
    {
        self.0
    }

    /// Returns the state represented by this wait status.
    ///
    /// This is a pure, repeatable function of the raw value.
    pub fn state(&self) -> (r: WaitState)
        ensures
            r == self.spec_state(),
    {
        WaitState::from_raw(self.0)
    }

    /// Returns `true` if the process terminated, regardless of exiting
    /// normally or by a signal.
    pub fn is_terminated(&self) -> (r: bool)
        ensures
            r == (self.spec_state() is Exited || self.spec_state() is Signaled),
    {
        match self.state() {
            WaitState::Exited { .. } => true,
            WaitState::Signaled { .. } => true,
            WaitState::Unsupported(_) => false,
        }
    }

    /// Returns `true` if the process terminated normally, i.e. exited
    /// without a signal.
    pub fn is_exited(&self) -> (r: bool)
        ensures
            r == (self.spec_state() is Exited),
    {
        match self.state() {
            WaitState::Exited { .. } => true,
            _ => false,
        }
    }

    /// Returns `true` if the process was terminated by a signal.
    pub fn is_signaled(&self) -> (r: bool)
        ensures
            r == (self.spec_state() is Signaled),
    {
        match self.state() {
            WaitState::Signaled { .. } => true,
            _ => false,
        }
    }

    /// Returns the exit code if the process terminated normally, or `None`
    /// otherwise.
    pub fn exit_code(&self) -> (r: Option<ExitCode>)
        ensures
            r == self.spec_exit_code(),
            r is Some <==> self.spec_state() is Exited,
    {
        match self.state() {
            WaitState::Exited { exit_code: code } => Some(code),
            _ => None,
        }
    }

    /// Returns the signal that resulted in this wait status, or `None` if
    /// the process exited.
    pub fn signal(&self) -> (r: Option<Signal>)
        ensures
            r == self.spec_signal(),
            r is Some <==> self.spec_state() is Signaled,
    {
        match self.state() {
            WaitState::Signaled { signal, .. } => Some(signal),
            _ => None,
        }
    }
}

impl Default for WaitStatus {
    /// The default wait status holds raw value zero, a successful exit.
    fn default() -> (r: Self)
        ensures
            r.0 == 0,
    {
        WaitStatus(0)
    }
}

} // verus!
