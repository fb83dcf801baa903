use proc_result::unix::Signal;

#[test]
fn test_signal_named_mapping() {
    assert_eq!(Signal::from_raw(1), Signal::Hangup);
    assert_eq!(Signal::from_raw(2), Signal::Interrupt);
    assert_eq!(Signal::from_raw(9), Signal::Kill);
    assert_eq!(Signal::from_raw(11), Signal::SegmentationFault);
    assert_eq!(Signal::from_raw(15), Signal::Terminate);
    assert_eq!(Signal::from_raw(31), Signal::Sys);
}

#[test]
fn test_signal_unrecognized_mapping() {
    assert_eq!(Signal::from_raw(0), Signal::Unrecognized(0));
    assert_eq!(Signal::from_raw(32), Signal::Unrecognized(32));
    assert_eq!(Signal::from_raw(100), Signal::Unrecognized(100));
    assert_eq!(Signal::from_raw(255), Signal::Unrecognized(255));
}

#[test]
fn test_signal_round_trip_all_numbers() {
    for number in 0..=255u8 {
        assert_eq!(Signal::from_raw(number).to_raw(), number);
    }
}
