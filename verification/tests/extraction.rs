use battery_notify::extract::extract_battery_fields;

#[test]
fn test_regex_pattern() {
    // Test valid battery info format
    let sample_output = "Battery 0: Discharging, 75%, 02:30:45 remaining";
    let reading = extract_battery_fields(sample_output).unwrap();
    assert_eq!(reading.percentage, "75");
    assert_eq!(reading.remaining, "02:30:45");

    // Test different percentage and time
    let sample_output2 = "Battery 0: Charging, 25%, 01:15:30 remaining";
    let reading2 = extract_battery_fields(sample_output2).unwrap();
    assert_eq!(reading2.percentage, "25");
    assert_eq!(reading2.remaining, "01:15:30");
}

#[test]
fn test_regex_invalid_input() {
    // Test invalid format
    let invalid_output = "Invalid battery format";
    assert!(extract_battery_fields(invalid_output).is_none());

    // Test empty string
    let empty_output = "";
    assert!(extract_battery_fields(empty_output).is_none());
}

#[test]
fn first_percentage_and_first_time_win() {
    let text = "cell 12% low, 34% as of 01:02:03, full at 04:05:06";
    let reading = extract_battery_fields(text).unwrap();
    assert_eq!(reading.percentage, "12");
    assert_eq!(reading.remaining, "01:02:03");
}

#[test]
fn whole_digit_run_is_taken() {
    let text = "level123% for 00:11:22";
    let reading = extract_battery_fields(text).unwrap();
    assert_eq!(reading.percentage, "123");
    assert_eq!(reading.remaining, "00:11:22");
}

#[test]
fn fields_pass_through_verbatim() {
    // A leading zero and out-of-range components are kept as they stand.
    let text = "07%, 99:99:99 left";
    let reading = extract_battery_fields(text).unwrap();
    assert_eq!(reading.percentage, "07");
    assert_eq!(reading.remaining, "99:99:99");
}

#[test]
fn percent_needs_a_digit_before_it() {
    assert!(extract_battery_fields("% 01:02:03").is_none());
    assert!(extract_battery_fields("x % 01:02:03").is_none());
}

#[test]
fn time_before_the_percent_does_not_count() {
    assert!(extract_battery_fields("01:02:03 then 75%").is_none());
    assert!(extract_battery_fields("75% but no clock").is_none());
}

#[test]
fn time_group_is_exactly_two_digits_each() {
    // The first well-formed group starts inside the longer digit run.
    let text = "100% 123:45:67";
    let reading = extract_battery_fields(text).unwrap();
    assert_eq!(reading.percentage, "100");
    assert_eq!(reading.remaining, "23:45:67");

    // One-digit components never form a group.
    assert!(extract_battery_fields("50% 1:2:3").is_none());
}

#[test]
fn extraction_is_idempotent() {
    let text = "Battery 0: Discharging, 75%, 02:30:45 remaining";
    let first = extract_battery_fields(text);
    let second = extract_battery_fields(text);
    assert_eq!(first, second);

    let unmatched = "no reading here";
    assert_eq!(extract_battery_fields(unmatched), extract_battery_fields(unmatched));
}
