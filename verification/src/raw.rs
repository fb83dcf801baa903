//! Raw exit code and status representations.
//!
//! The `raw` module provides a platform-agnostic contract for exit codes,
//! [`RawExitCode`], implemented by the concrete Unix and Windows code types.

use vstd::prelude::*;

verus! {

/// A trait that represents a raw platform-specific exit code.
///
/// An implementor stands for a native-width integer code, recovered by
/// [`to_raw`](Self::to_raw) and stored verbatim by
/// [`from_raw`](Self::from_raw); the code that means success is
/// [`zero_code`](Self::zero_code), and the success and failure queries
/// classify by equality with it.
pub trait RawExitCode: Sized + Clone + Copy {
    /// Underlying code type.
    type Code;

    /// The underlying integer this exit code stands for.
    spec fn code_spec(&self) -> Self::Code;

    /// The underlying integer that means success.
    spec fn zero_code() -> Self::Code;

    /// Creates a `RawExitCode` from the underlying code.
    fn from_raw(code: Self::Code) -> (r: Self)
        ensures
            r.code_spec() == code,
    ;

    /// Returns the underlying code.
    fn to_raw(&self) -> (r: Self::Code)
        ensures
            r == self.code_spec(),
    ;

    /// Returns whether the exit status indicates success.
    fn is_success(&self) -> (r: bool)
        ensures
            r == (self.code_spec() == Self::zero_code()),
    ;

    /// Returns whether the exit status indicates failure.
    fn is_failure(&self) -> (r: bool)
        ensures
            r == (self.code_spec() != Self::zero_code()),
    ;
}

} // verus!
