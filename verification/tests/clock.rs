use blue_music::clock::millis_to_minutes;

#[test]
fn zero_is_zero_minutes_and_two_zeros() {
    assert_eq!(millis_to_minutes(0), "0:00");
}

#[test]
fn fractions_of_a_second_are_dropped() {
    assert_eq!(millis_to_minutes(999), "0:00");
    assert_eq!(millis_to_minutes(1_000), "0:01");
    assert_eq!(millis_to_minutes(1_999), "0:01");
}

#[test]
fn seconds_take_two_digits() {
    assert_eq!(millis_to_minutes(9_000), "0:09");
    assert_eq!(millis_to_minutes(10_000), "0:10");
    assert_eq!(millis_to_minutes(59_999), "0:59");
}

#[test]
fn sixty_seconds_are_a_minute() {
    assert_eq!(millis_to_minutes(60_000), "1:00");
    assert_eq!(millis_to_minutes(61_000), "1:01");
    assert_eq!(millis_to_minutes(599_999), "9:59");
    assert_eq!(millis_to_minutes(600_000), "10:00");
}

#[test]
fn minutes_are_not_folded_into_hours() {
    assert_eq!(millis_to_minutes(3_600_000), "60:00");
    assert_eq!(millis_to_minutes(3_723_000), "62:03");
    assert_eq!(millis_to_minutes(360_000_000), "6000:00");
}

#[test]
fn the_largest_time_is_formatted_too() {
    let text = millis_to_minutes(u128::MAX);
    assert_eq!(text, format!("{}:{:02}", u128::MAX / 60_000, (u128::MAX / 1_000) % 60));
    assert_eq!(text, "5671372782015641057722910123862803:31");
}

#[test]
fn agrees_with_the_formatting_machinery_of_the_standard_library() {
    let mut millis: u128 = 0;
    while millis < 4_000_000 {
        let seconds = millis / 1_000;
        assert_eq!(millis_to_minutes(millis), format!("{}:{:02}", seconds / 60, seconds % 60));
        millis += 7_919;
    }
}
