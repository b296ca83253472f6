use light_timer::{fmt_hhmmss, AppState};

/// The reading written with the standard formatter.
fn expected(total_secs: u64) -> String {
    let h = total_secs / 3600;
    let m = (total_secs % 3600) / 60;
    let s = total_secs % 60;
    if h > 0 {
        format!("{:02}:{:02}:{:02}", h, m, s)
    } else {
        format!("{:02}:{:02}", m, s)
    }
}

#[test]
fn zero_seconds_reads_double_zero() {
    assert_eq!(fmt_hhmmss(0), "00:00");
}

#[test]
fn seconds_are_padded_to_two_digits() {
    assert_eq!(fmt_hhmmss(5), "00:05");
    assert_eq!(fmt_hhmmss(9), "00:09");
    assert_eq!(fmt_hhmmss(10), "00:10");
    assert_eq!(fmt_hhmmss(59), "00:59");
}

#[test]
fn minutes_are_padded_to_two_digits() {
    assert_eq!(fmt_hhmmss(60), "01:00");
    assert_eq!(fmt_hhmmss(65), "01:05");
    assert_eq!(fmt_hhmmss(300), "05:00");
    assert_eq!(fmt_hhmmss(600), "10:00");
    assert_eq!(fmt_hhmmss(1500), "25:00");
}

#[test]
fn hours_are_left_out_below_one_hour() {
    assert_eq!(fmt_hhmmss(3599), "59:59");
}

#[test]
fn hours_appear_from_one_hour_on() {
    assert_eq!(fmt_hhmmss(3600), "01:00:00");
    assert_eq!(fmt_hhmmss(3661), "01:01:01");
    assert_eq!(fmt_hhmmss(3725), "01:02:05");
    assert_eq!(fmt_hhmmss(36000), "10:00:00");
    assert_eq!(fmt_hhmmss(86399), "23:59:59");
}

#[test]
fn longest_countdown_of_the_dials_reads_sixteen_hours() {
    assert_eq!(fmt_hhmmss(999 * 60 + 59), "16:39:59");
}

#[test]
fn hours_grow_beyond_two_digits() {
    assert_eq!(fmt_hhmmss(359_999), "99:59:59");
    assert_eq!(fmt_hhmmss(360_000), "100:00:00");
    assert_eq!(fmt_hhmmss(3_600_000 + 61), "1000:01:01");
}

#[test]
fn largest_input_is_formatted() {
    assert_eq!(fmt_hhmmss(u64::MAX), "5124095576030431:00:15");
    assert_eq!(fmt_hhmmss(u64::MAX), expected(u64::MAX));
}

#[test]
fn readings_agree_with_the_standard_formatter() {
    for total in 0..=7300u64 {
        assert_eq!(fmt_hhmmss(total), expected(total));
    }
    let mut total: u64 = 1;
    while total < u64::MAX / 7 {
        assert_eq!(fmt_hhmmss(total), expected(total));
        assert_eq!(fmt_hhmmss(total - 1), expected(total - 1));
        total = total * 7 + 3;
    }
}

#[test]
fn readings_have_the_expected_length() {
    assert_eq!(fmt_hhmmss(0).len(), 5);
    assert_eq!(fmt_hhmmss(3599).len(), 5);
    assert_eq!(fmt_hhmmss(3600).len(), 8);
    assert_eq!(fmt_hhmmss(359_999).len(), 8);
    assert_eq!(fmt_hhmmss(360_000).len(), 9);
}

#[test]
fn remaining_time_is_displayed_in_whole_seconds() {
    let mut timer = AppState::default();
    assert_eq!(fmt_hhmmss(timer.remaining_secs()), "05:00");
    timer.apply_set_duration(61, 1);
    assert_eq!(fmt_hhmmss(timer.remaining_secs()), "01:01:01");
    timer.apply_set_duration(60, 0);
    assert_eq!(fmt_hhmmss(timer.remaining_secs()), "01:00:00");
    timer.start();
    timer.tick(0);
    timer.tick(500_000_000);
    assert_eq!(fmt_hhmmss(timer.remaining_secs()), "59:59");
    timer.apply_set_duration(0, 0);
    assert_eq!(fmt_hhmmss(timer.remaining_secs()), "00:01");
}
