use vps_lastfm_bot::clock::{count_fields, to_cron_form, CronExpression, ParseError};

#[test]
fn parses_the_job_expressions() {
    for e in ["0 0/1 * * * *", "0/5 * * * * *", "0 0 * * * *"] {
        assert!(CronExpression::parse(e).is_ok(), "{e}");
    }
}

#[test]
fn wrong_field_count_is_rejected() {
    assert_eq!(
        CronExpression::parse("* * * * *").unwrap_err(),
        ParseError::WrongFieldCount { found: 5 }
    );
    assert_eq!(
        CronExpression::parse("0 0 0 1 1 * 2030").unwrap_err(),
        ParseError::WrongFieldCount { found: 7 }
    );
    assert_eq!(CronExpression::parse("").unwrap_err(), ParseError::WrongFieldCount { found: 0 });
}

#[test]
fn out_of_range_field_is_rejected() {
    assert_eq!(CronExpression::parse("61 * * * * *").unwrap_err(), ParseError::Invalid);
    assert_eq!(CronExpression::parse("0 0 25 * * *").unwrap_err(), ParseError::Invalid);
    assert_eq!(CronExpression::parse("0 0 0 * 13 *").unwrap_err(), ParseError::Invalid);
}

#[test]
fn counts_fields_across_runs_of_blanks() {
    assert_eq!(count_fields("  0 \t 0\n* "), 3);
    assert_eq!(count_fields(""), 0);
    assert_eq!(count_fields("   "), 0);
}

#[test]
fn reparsing_canonical_text_gives_equal_expression() {
    let e = CronExpression::parse("0/5 * * * * *").unwrap();
    let again = CronExpression::parse(&e.to_text()).unwrap();
    assert!(again == e);
    assert_eq!(again.to_text(), "0/5 * * * * *");
}

#[test]
fn next_after_every_five_seconds() {
    let e = CronExpression::parse("0/5 * * * * *").unwrap();
    assert_eq!(e.next_after(0), Some(5_000));
    assert_eq!(e.next_after(4_999), Some(5_000));
    assert_eq!(e.next_after(5_000), Some(10_000));
}

#[test]
fn next_after_every_minute_and_hour() {
    let minute = CronExpression::parse("0 0/1 * * * *").unwrap();
    assert_eq!(minute.next_after(30_500), Some(60_000));
    let hour = CronExpression::parse("0 0 * * * *").unwrap();
    assert_eq!(hour.next_after(0), Some(3_600_000));
    assert_eq!(hour.next_after(3_600_000), Some(7_200_000));
}

#[test]
fn next_after_is_strictly_later_and_minimal() {
    let e = CronExpression::parse("0/5 * * * * *").unwrap();
    let now = 1_700_000_001_234;
    let next = e.next_after(now).unwrap();
    assert!(next > now);
    assert_eq!(next % 5_000, 0);
    assert!(next - now <= 5_000);
}

#[test]
fn no_whole_second_before_next_matches() {
    let e = CronExpression::parse("0 0 * * * *").unwrap();
    let now = 1_700_000_123_456;
    let next = e.next_after(now).unwrap();
    assert!(e.includes(next));
    assert_eq!(next % 1_000, 0);
    let mut u = (now / 1_000 + 1) * 1_000;
    while u < next {
        assert!(!e.includes(u), "{u}");
        u += 1_000;
    }
}

#[test]
fn includes_checks_every_field() {
    let e = CronExpression::parse("0/5 * * * * *").unwrap();
    assert!(e.includes(10_000));
    assert!(e.includes(10_999));
    assert!(!e.includes(11_000));
}

#[test]
fn sunday_is_day_zero() {
    // 1970-01-01 was a Thursday; the first Sunday midnight is 1970-01-04.
    let sunday = CronExpression::parse("0 0 0 * * 0").unwrap();
    assert_eq!(sunday.next_after(0), Some(3 * 86_400_000));
    let saturday = CronExpression::parse("0 0 0 * * 6").unwrap();
    assert_eq!(saturday.next_after(0), Some(2 * 86_400_000));
    assert_eq!(sunday.to_text(), "0 0 0 * * 0");
}

#[test]
fn day_seven_is_out_of_range() {
    assert_eq!(CronExpression::parse("0 0 0 * * 7").unwrap_err(), ParseError::Invalid);
}

#[test]
fn weekday_ranges_and_steps_follow_sunday_zero() {
    let weekdays = CronExpression::parse("0 0 9 * * 1-5").unwrap();
    // Thursday 1970-01-01 09:00 and Friday 09:00 match; Saturday and Sunday do not.
    assert!(weekdays.includes(9 * 3_600_000));
    assert!(weekdays.includes(86_400_000 + 9 * 3_600_000));
    assert!(!weekdays.includes(2 * 86_400_000 + 9 * 3_600_000));
    assert!(!weekdays.includes(3 * 86_400_000 + 9 * 3_600_000));
    assert_eq!(to_cron_form("0 0 9 * * 1-5"), "0 0 9 * * 2-6");
    assert_eq!(to_cron_form("0/5 1 2 3 4 0/2"), "0/5 1 2 3 4 1/2");
    assert_eq!(to_cron_form("0 0 0 * * 0,6"), "0 0 0 * * 1,7");
    assert_eq!(to_cron_form("0 0 0 * * 12"), "0 0 0 * * 12");
}

#[test]
fn instants_before_the_epoch_are_accepted() {
    let e = CronExpression::parse("0 0 * * * *").unwrap();
    assert_eq!(e.next_after(-1), Some(0));
    assert_eq!(e.next_after(-3_600_000), Some(0));
}
