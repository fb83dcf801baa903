use proc_result::unix::ExitCode;

#[test]
fn exit_code_test_from_raw() {
    assert_eq!(ExitCode::from_raw(0).to_raw(), 0);
}

#[test]
fn exit_code_test_is_success() {
    assert!(ExitCode::SUCCESS().is_success());
}

#[test]
fn exit_code_test_is_failure() {
    assert!(ExitCode::GENERAL_ERROR().is_failure());
}

#[test]
fn test_from_u8() {
    let code: ExitCode = 1.into();
    assert_eq!(code.to_raw(), 1);
}

#[test]
fn test_exit_code_round_trip_all_bytes() {
    for raw in 0..=255u8 {
        assert_eq!(ExitCode::from_raw(raw).to_raw(), raw);
    }
}

#[test]
fn test_named_catalog_values() {
    assert_eq!(ExitCode::SUCCESS().to_raw(), 0);
    assert_eq!(ExitCode::GENERAL_ERROR().to_raw(), 1);
    assert_eq!(ExitCode::INVALID_ARGS().to_raw(), 2);
    assert_eq!(ExitCode::USAGE().to_raw(), 64);
    assert_eq!(ExitCode::DATA_ERROR().to_raw(), 65);
    assert_eq!(ExitCode::NO_INPUT().to_raw(), 66);
    assert_eq!(ExitCode::NO_USER().to_raw(), 67);
    assert_eq!(ExitCode::NO_HOST().to_raw(), 68);
    assert_eq!(ExitCode::UNAVAILABLE().to_raw(), 69);
    assert_eq!(ExitCode::SOFTWARE().to_raw(), 70);
    assert_eq!(ExitCode::OS_ERROR().to_raw(), 71);
    assert_eq!(ExitCode::OS_FILE().to_raw(), 72);
    assert_eq!(ExitCode::CANT_CREATE().to_raw(), 73);
    assert_eq!(ExitCode::IO_ERROR().to_raw(), 74);
    assert_eq!(ExitCode::TEMP_FAIL().to_raw(), 75);
    assert_eq!(ExitCode::PROTOCOL().to_raw(), 76);
    assert_eq!(ExitCode::NO_PERM().to_raw(), 77);
    assert_eq!(ExitCode::CONFIG().to_raw(), 78);
    assert_eq!(ExitCode::COMMAND_CANNOT_EXECUTE().to_raw(), 126);
    assert_eq!(ExitCode::COMMAND_NOT_FOUND().to_raw(), 127);
}

#[test]
fn test_named_catalog_nonzero_is_failure() {
    let named = [
        ExitCode::GENERAL_ERROR(),
        ExitCode::INVALID_ARGS(),
        ExitCode::USAGE(),
        ExitCode::DATA_ERROR(),
        ExitCode::NO_INPUT(),
        ExitCode::NO_USER(),
        ExitCode::NO_HOST(),
        ExitCode::UNAVAILABLE(),
        ExitCode::SOFTWARE(),
        ExitCode::OS_ERROR(),
        ExitCode::OS_FILE(),
        ExitCode::CANT_CREATE(),
        ExitCode::IO_ERROR(),
        ExitCode::TEMP_FAIL(),
        ExitCode::PROTOCOL(),
        ExitCode::NO_PERM(),
        ExitCode::CONFIG(),
        ExitCode::COMMAND_CANNOT_EXECUTE(),
        ExitCode::COMMAND_NOT_FOUND(),
    ];
    for code in named {
        assert!(code.is_failure());
        assert!(!code.is_success());
    }
}
