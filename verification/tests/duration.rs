use std::time::Duration;
use uptimed::duration::{decimal_string, duration_to_string, string_to_duration, InvalidDuration};

#[test]
fn parses_seconds_minutes_and_hours() {
    assert_eq!(string_to_duration("45s"), Ok(Duration::from_secs(45)));
    assert_eq!(string_to_duration("15m"), Ok(Duration::from_secs(900)));
    assert_eq!(string_to_duration("2h"), Ok(Duration::from_secs(7200)));
    assert_eq!(string_to_duration("0s"), Ok(Duration::from_secs(0)));
    assert_eq!(string_to_duration("0m"), Ok(Duration::from_secs(0)));
}

#[test]
fn parses_leading_zeros() {
    assert_eq!(string_to_duration("007s"), Ok(Duration::from_secs(7)));
    assert_eq!(string_to_duration("00h"), Ok(Duration::from_secs(0)));
}

#[test]
fn rejects_the_empty_string() {
    assert_eq!(string_to_duration(""), Err(InvalidDuration));
}

#[test]
fn rejects_a_number_without_unit() {
    assert_eq!(string_to_duration("10"), Err(InvalidDuration));
    assert_eq!(string_to_duration("1"), Err(InvalidDuration));
}

#[test]
fn rejects_a_unit_without_number() {
    assert_eq!(string_to_duration("m"), Err(InvalidDuration));
    assert_eq!(string_to_duration("s"), Err(InvalidDuration));
    assert_eq!(string_to_duration("h"), Err(InvalidDuration));
}

#[test]
fn rejects_a_negative_number() {
    assert_eq!(string_to_duration("-5s"), Err(InvalidDuration));
}

#[test]
fn rejects_an_unknown_unit() {
    assert_eq!(string_to_duration("5x"), Err(InvalidDuration));
    assert_eq!(string_to_duration("5d"), Err(InvalidDuration));
    assert_eq!(string_to_duration("5S"), Err(InvalidDuration));
    assert_eq!(string_to_duration("5ms"), Err(InvalidDuration));
}

#[test]
fn rejects_anything_but_digits_before_the_unit() {
    assert_eq!(string_to_duration("+5s"), Err(InvalidDuration));
    assert_eq!(string_to_duration(" 5s"), Err(InvalidDuration));
    assert_eq!(string_to_duration("5 s"), Err(InvalidDuration));
    assert_eq!(string_to_duration("1.5h"), Err(InvalidDuration));
    assert_eq!(string_to_duration("1_000s"), Err(InvalidDuration));
    assert_eq!(string_to_duration("0x10s"), Err(InvalidDuration));
    assert_eq!(string_to_duration("5ss"), Err(InvalidDuration));
}

#[test]
fn rejects_characters_outside_ascii() {
    assert_eq!(string_to_duration("\u{665}s"), Err(InvalidDuration));
    assert_eq!(string_to_duration("5\u{455}"), Err(InvalidDuration));
    assert_eq!(string_to_duration("\u{e9}5s"), Err(InvalidDuration));
}

#[test]
fn parses_up_to_the_largest_number_of_seconds() {
    assert_eq!(
        string_to_duration("18446744073709551615s"),
        Ok(Duration::from_secs(u64::MAX))
    );
    assert_eq!(
        string_to_duration("307445734561825860m"),
        Ok(Duration::from_secs(18446744073709551600))
    );
    assert_eq!(
        string_to_duration("5124095576030431h"),
        Ok(Duration::from_secs(18446744073709551600))
    );
}

#[test]
fn rejects_more_seconds_than_fit() {
    assert_eq!(string_to_duration("18446744073709551616s"), Err(InvalidDuration));
    assert_eq!(string_to_duration("99999999999999999999999s"), Err(InvalidDuration));
    assert_eq!(string_to_duration("307445734561825861m"), Err(InvalidDuration));
    assert_eq!(string_to_duration("5124095576030432h"), Err(InvalidDuration));
    assert_eq!(string_to_duration("18446744073709551615m"), Err(InvalidDuration));
}

#[test]
fn formats_in_the_largest_unit_that_divides() {
    assert_eq!(duration_to_string(&Duration::from_secs(3600)), "1h");
    assert_eq!(duration_to_string(&Duration::from_secs(7200)), "2h");
    assert_eq!(duration_to_string(&Duration::from_secs(86400)), "24h");
    assert_eq!(duration_to_string(&Duration::from_secs(60)), "1m");
    assert_eq!(duration_to_string(&Duration::from_secs(120)), "2m");
    assert_eq!(duration_to_string(&Duration::from_secs(5400)), "90m");
    assert_eq!(duration_to_string(&Duration::from_secs(90)), "90s");
    assert_eq!(duration_to_string(&Duration::from_secs(61)), "61s");
    assert_eq!(duration_to_string(&Duration::from_secs(1)), "1s");
    assert_eq!(duration_to_string(&Duration::from_secs(3601)), "3601s");
    assert_eq!(duration_to_string(&Duration::from_secs(3660)), "61m");
}

#[test]
fn formats_zero_in_hours() {
    assert_eq!(duration_to_string(&Duration::from_secs(0)), "0h");
}

#[test]
fn formats_the_largest_number_of_seconds() {
    assert_eq!(
        duration_to_string(&Duration::from_secs(u64::MAX)),
        "18446744073709551615s"
    );
}

#[test]
fn formatting_leaves_out_the_fraction_of_a_second() {
    assert_eq!(duration_to_string(&Duration::from_millis(1500)), "1s");
    assert_eq!(duration_to_string(&Duration::from_millis(999)), "0h");
    assert_eq!(duration_to_string(&Duration::new(59, 999_999_999)), "59s");
}

#[test]
fn parsing_inverts_formatting() {
    let mut samples: Vec<u64> = (0..5000).collect();
    samples.extend([
        86399,
        86400,
        86401,
        1_000_000,
        3600 * 1_000_000,
        u64::MAX,
        u64::MAX - 15,
        u64::MAX / 60 * 60,
        u64::MAX / 3600 * 3600,
    ]);
    for secs in samples {
        let duration = Duration::from_secs(secs);
        assert_eq!(
            string_to_duration(&duration_to_string(&duration)),
            Ok(duration)
        );
    }
}

#[test]
fn formatting_is_canonical_not_literal() {
    let parsed = string_to_duration("120s").unwrap();
    assert_eq!(duration_to_string(&parsed), "2m");
    let parsed = string_to_duration("60m").unwrap();
    assert_eq!(duration_to_string(&parsed), "1h");
}

#[test]
fn writes_numbers_in_decimal() {
    assert_eq!(decimal_string(0), "0");
    assert_eq!(decimal_string(9), "9");
    assert_eq!(decimal_string(10), "10");
    assert_eq!(decimal_string(1234567890), "1234567890");
    assert_eq!(decimal_string(u64::MAX), u64::MAX.to_string());
}

#[test]
fn invalid_duration_describes_itself() {
    assert_eq!(InvalidDuration.message(), "Invalid duration format");
}
