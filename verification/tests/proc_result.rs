use proc_result::ProcResult;
use proc_result::raw::RawExitCode;
use proc_result::unix::WaitStatus;
use proc_result::windows;

#[test]
fn test_default_success_proc_result() {
    let result = ProcResult::default_success();
    assert!(result.is_success());
}

#[test]
fn test_default_failure_proc_result() {
    let result = ProcResult::default_failure();
    assert!(result.is_failure());
}

#[test]
fn test_ok_on_success() {
    let result = ProcResult::default_success();
    assert_eq!(result.ok(), Ok(()));
}

#[test]
fn test_ok_on_failure_is_self_describing() {
    let result = ProcResult::default_failure();
    assert_eq!(result.ok(), Err(result));
}

#[test]
fn test_unix_signaled_is_failure() {
    // Low byte 0x09: terminated by signal 9, which is never a success.
    let result = ProcResult::Unix(WaitStatus::from_raw(0x0000_0009));
    assert!(result.is_failure());
    assert_eq!(result.ok(), Err(result));
}

#[test]
fn test_unix_nonzero_exit_is_failure() {
    // Raw 0x0100: exited with code 1.
    let result = ProcResult::Unix(WaitStatus::from_raw(0x0000_0100));
    assert!(result.is_failure());
}

#[test]
fn test_windows_success_branch() {
    let result = ProcResult::Windows(windows::ExitCode::from_raw(0));
    assert!(result.is_success());
    assert_eq!(result.ok(), Ok(()));
}

#[test]
fn test_windows_failure_branch() {
    let result = ProcResult::Windows(windows::ExitCode::from_raw(9009));
    assert!(result.is_failure());
    assert_eq!(result.ok(), Err(result));
}
