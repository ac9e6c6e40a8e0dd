use ci_preview::duration::format_duration;

#[test]
fn zero_seconds_is_empty() {
    assert_eq!(format_duration(0), "");
}

#[test]
fn negative_seconds_is_empty() {
    assert_eq!(format_duration(-5), "");
}

#[test]
fn one_minute_one_second() {
    assert_eq!(format_duration(61), "1 minute and 1 second");
}

#[test]
fn one_of_each_unit() {
    assert_eq!(format_duration(3661), "1 hour, 1 minute and 1 second");
}

#[test]
fn whole_hours() {
    assert_eq!(format_duration(7200), "2 hours");
}

#[test]
fn plural_units_and_hours_with_seconds() {
    assert_eq!(format_duration(7322), "2 hours, 2 minutes and 2 seconds");
    assert_eq!(format_duration(3605), "1 hour and 5 seconds");
    assert_eq!(format_duration(45), "45 seconds");
    assert_eq!(format_duration(600), "10 minutes");
}

#[test]
fn largest_input() {
    assert_eq!(
        format_duration(i64::MAX),
        "2562047788015215 hours, 30 minutes and 7 seconds"
    );
}
