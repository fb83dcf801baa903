use proc_result::unix::ExitCode;
use proc_result::unix::Signal;
use proc_result::unix::WaitState;

#[test]
fn test_from_raw_exited_0() {
    let status = WaitState::from_raw(0x0000_0000);
    assert_eq!(
        status,
        WaitState::Exited {
            exit_code: ExitCode::from_raw(0),
        }
    );
}

#[test]
fn test_to_raw_exited_0() {
    let status = WaitState::Exited {
        exit_code: ExitCode::from_raw(0),
    };
    assert_eq!(status.to_raw(), 0x0000_0000);
}

#[test]
fn test_from_raw_exited_1() {
    let status = WaitState::from_raw(0x0000_0100);
    assert_eq!(
        status,
        WaitState::Exited {
            exit_code: ExitCode::from_raw(1),
        }
    );
}

#[test]
fn test_to_raw_exited_1() {
    let status = WaitState::Exited {
        exit_code: ExitCode::from_raw(1),
    };
    assert_eq!(status.to_raw(), 0x0000_0100);
}

#[test]
fn test_from_raw_signaled() {
    let status = WaitState::from_raw(0x0000_0001);
    assert_eq!(
        status,
        WaitState::Signaled {
            signal: Signal::from_raw(1),
            core_dump: false,
        }
    );
}

#[test]
fn test_to_raw_signaled() {
    let status = WaitState::Signaled {
        signal: Signal::from_raw(1),
        core_dump: false,
    };
    assert_eq!(status.to_raw(), 0x0000_0001);
}

#[test]
fn test_from_raw_signaled_with_coredump() {
    let status = WaitState::from_raw(0x0000_0081);
    assert_eq!(
        status,
        WaitState::Signaled {
            signal: Signal::from_raw(1),
            core_dump: true,
        }
    );
}

#[test]
fn test_to_raw_signaled_with_coredump() {
    let status = WaitState::Signaled {
        signal: Signal::from_raw(1),
        core_dump: true,
    };
    assert_eq!(status.to_raw(), 0x0000_0081);
}

#[test]
fn test_from_i32_decodes() {
    let status: WaitState = 0x0000_0100.into();
    assert_eq!(
        status,
        WaitState::Exited {
            exit_code: ExitCode::from_raw(1),
        }
    );
}

#[test]
fn test_stopped_sentinel_is_unsupported() {
    // The low byte 0x7F is the stopped sentinel: not exited, not signaled.
    let status = WaitState::from_raw(0x0000_007F);
    assert_eq!(status, WaitState::Unsupported(0x0000_007F));
    assert!(!WaitState::is_w_exited(0x0000_007F));
    assert!(!WaitState::is_w_signaled(0x0000_007F));
}

#[test]
fn test_stopped_with_stop_signal_is_unsupported() {
    // A stopped status as the kernel reports it: stop signal in the high
    // byte, sentinel in the low byte.
    let status = WaitState::from_raw(0x0000_137F);
    assert_eq!(status, WaitState::Unsupported(0x0000_137F));
    assert_eq!(WaitState::w_stop_sig(0x0000_137F), 0x13);
}

#[test]
fn test_negative_status_decodes_totally() {
    // All bits set: low seven bits are 0x7F, low byte 0xFF, so this is a
    // signaled status with signal 127 and the core dump bit set.
    let status = WaitState::from_raw(-1);
    assert_eq!(
        status,
        WaitState::Signaled {
            signal: Signal::from_raw(127),
            core_dump: true,
        }
    );
}

#[test]
fn test_exited_ignores_coredump_bit() {
    // Low seven bits clear but bit 0x80 set: still classified as exited,
    // with exit byte taken from bits 8 through 15.
    let status = WaitState::from_raw(0x0000_0280);
    assert_eq!(
        status,
        WaitState::Exited {
            exit_code: ExitCode::from_raw(2),
        }
    );
}

#[test]
fn test_round_trip_decoded_states() {
    // Decoding the re-encoding of a recognized state gives the state back.
    for raw in [0x0000_0000, 0x0000_0100, 0x7F00, 0x0000_0001, 0x0000_0081, 0x0000_0009] {
        let state = WaitState::from_raw(raw);
        assert_eq!(WaitState::from_raw(state.to_raw()), state);
    }
}

#[test]
fn test_high_bits_do_not_reencode() {
    // Re-encoding is not reflexive for statuses with bits above the exit
    // byte: decoding keeps only the exit byte.
    let status = WaitState::from_raw(0x0001_0000);
    assert_eq!(
        status,
        WaitState::Exited {
            exit_code: ExitCode::from_raw(0),
        }
    );
    assert_eq!(status.to_raw(), 0);
}
