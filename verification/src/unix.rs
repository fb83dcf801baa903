//! Unix-specific process signals, exit codes, and wait statuses.
//!
//! This module is cross-platform: every type here is a plain value decoded
//! with bitwise arithmetic, so a Windows host can interpret a POSIX wait
//! status just as well as a Unix one.

mod exit_code;
pub use exit_code::ExitCode;
pub use exit_code::lemma_exit_code_round_trip;

mod signal;
pub use signal::Signal;
pub use signal::lemma_signal_round_trip;

mod wait_state;
pub use wait_state::WaitState;
pub use wait_state::lemma_from_raw_total;
pub use wait_state::lemma_wait_state_round_trip;
pub use wait_state::lemma_decoded_state_round_trippable;
pub use wait_state::lemma_reencode_preserves_decode;
pub use wait_state::spec_is_exited;
pub use wait_state::spec_is_signaled;
pub use wait_state::spec_is_coredump;
pub use wait_state::spec_exit_byte;
pub use wait_state::spec_term_signal;

mod wait_status;
pub use wait_status::WaitStatus;
