use progress_sync::clock::timestamp_from;

#[test]
fn reading_from_the_epoch_on_is_the_timestamp() {
    assert_eq!(timestamp_from(0), 0);
    assert_eq!(timestamp_from(1), 1);
    assert_eq!(timestamp_from(1_700_000_123), 1_700_000_123);
    assert_eq!(timestamp_from(i64::MAX), 9_223_372_036_854_775_807);
}

#[test]
fn reading_before_the_epoch_wraps_around() {
    assert_eq!(timestamp_from(-1), u64::MAX);
    assert_eq!(timestamp_from(-2), 18_446_744_073_709_551_614);
    assert_eq!(timestamp_from(i64::MIN), 9_223_372_036_854_775_808);
}
