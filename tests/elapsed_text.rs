use sensor_stopwatch::elapsed::format_elapsed;

#[test]
fn zero_renders_all_zeros() {
    assert_eq!(format_elapsed(0), "00:00:00.00");
}

#[test]
fn whole_seconds() {
    assert_eq!(format_elapsed(3_000_000_000), "00:00:03.00");
}

#[test]
fn hours_minutes_seconds_hundredths() {
    let nanos = (3600 + 60 + 1) * 1_000_000_000 + 239_000_000;
    assert_eq!(format_elapsed(nanos), "01:01:01.23");
}

#[test]
fn hundredths_are_truncated() {
    assert_eq!(format_elapsed(999_999_999), "00:00:00.99");
    assert_eq!(format_elapsed(9_999_999), "00:00:00.00");
}

#[test]
fn hours_are_unbounded() {
    assert_eq!(format_elapsed(100 * 3600 * 1_000_000_000), "100:00:00.00");
}

#[test]
fn minutes_roll_over_into_hours() {
    assert_eq!(format_elapsed(59 * 60 * 1_000_000_000 + 59_990_000_000), "00:59:59.99");
    assert_eq!(format_elapsed(3600 * 1_000_000_000), "01:00:00.00");
}

#[test]
fn largest_duration() {
    assert_eq!(format_elapsed(u64::MAX), "5124095:34:33.70");
}
