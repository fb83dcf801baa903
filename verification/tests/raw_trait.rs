use proc_result::raw::RawExitCode;
use proc_result::unix::ExitCode;
use proc_result::windows;

fn arg_raw_exit_code<T: RawExitCode>(code: impl Into<T>) -> T {
    code.into()
}

#[test]
fn test_into_raw_exit_code() {
    let code: ExitCode = arg_raw_exit_code(0);
    assert!(code.is_success());
    assert_eq!(code.to_raw(), 0);

    let code: ExitCode = arg_raw_exit_code(1);
    assert!(code.is_failure());
    assert_eq!(code.to_raw(), 1);
}

#[test]
fn test_raw_trait_unix_round_trip() {
    let code = <ExitCode as RawExitCode>::from_raw(65);
    assert_eq!(<ExitCode as RawExitCode>::to_raw(&code), 65);
    assert!(<ExitCode as RawExitCode>::is_failure(&code));
}

#[test]
fn test_raw_trait_windows_round_trip() {
    let code = <windows::ExitCode as RawExitCode>::from_raw(0xC000_013A);
    assert_eq!(<windows::ExitCode as RawExitCode>::to_raw(&code), 0xC000_013A);
    assert!(<windows::ExitCode as RawExitCode>::is_failure(&code));
    let zero = <windows::ExitCode as RawExitCode>::from_raw(0);
    assert!(<windows::ExitCode as RawExitCode>::is_success(&zero));
}
