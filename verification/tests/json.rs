use std::collections::HashSet;

use bubo::config::{worker_id_from, ConfigError, WORKER_ID_SETTING};
use bubo::datetime::{format_time, now_utc, now_utc_primitive, parse_utc, unix_epoch, Error};
use bubo::json::{to_i64, to_i64_option, to_set_i64, to_vec_i64, IntError, JsonValue};
use bubo::text::{parse_digits, parse_i64, parse_u8};

fn text(s: &str) -> JsonValue {
    JsonValue::Text(s.to_string())
}

#[test]
fn parse_i64_reads_signed_decimals() {
    assert_eq!(parse_i64("0"), Some(0));
    assert_eq!(parse_i64("42"), Some(42));
    assert_eq!(parse_i64("+42"), Some(42));
    assert_eq!(parse_i64("-42"), Some(-42));
    assert_eq!(parse_i64("-0"), Some(0));
    assert_eq!(parse_i64("007"), Some(7));
    assert_eq!(parse_i64("9223372036854775807"), Some(i64::MAX));
    assert_eq!(parse_i64("-9223372036854775808"), Some(i64::MIN));
    assert_eq!(parse_i64("4194385920"), Some(4194385920));
}

#[test]
fn parse_i64_rejects_everything_else() {
    for bad in [
        "", "+", "-", "+-1", "--1", " 1", "1 ", "1.0", "1e3", "abc", "12a", "0x10", "١٢",
        "9223372036854775808", "-9223372036854775809", "99999999999999999999999999", "1_000",
    ] {
        assert_eq!(parse_i64(bad), None, "{bad:?}");
    }
}

#[test]
fn parse_i64_agrees_with_std() {
    for s in ["0", "-1", "+1", "", "-", "00", "18446744073709551615", "-9223372036854775808", "a1"]
    {
        assert_eq!(parse_i64(s), s.parse::<i64>().ok(), "{s:?}");
    }
}

#[test]
fn parse_u8_reads_a_worker_number() {
    assert_eq!(parse_u8("0"), Some(0));
    assert_eq!(parse_u8("5"), Some(5));
    assert_eq!(parse_u8("+5"), Some(5));
    assert_eq!(parse_u8("255"), Some(255));
    assert_eq!(parse_u8("0255"), Some(255));
    assert_eq!(parse_u8("256"), None);
    assert_eq!(parse_u8("-1"), None);
    assert_eq!(parse_u8("-0"), None);
    assert_eq!(parse_u8(""), None);
    assert_eq!(parse_u8("+"), None);
    assert_eq!(parse_u8("5 "), None);
    for s in ["0", "255", "256", "-0", "+7", "", "1000000000000000000000"] {
        assert_eq!(parse_u8(s), s.parse::<u8>().ok(), "{s:?}");
    }
}

#[test]
fn parse_digits_stops_at_the_limit() {
    assert_eq!(parse_digits(b"x123", 1, 123), Some(123));
    assert_eq!(parse_digits(b"x123", 1, 122), None);
    assert_eq!(parse_digits(b"x123", 4, 122), None);
    assert_eq!(parse_digits(b"12x", 0, 1000), None);
    assert_eq!(parse_digits(b"18446744073709551615", 0, u64::MAX), Some(u64::MAX));
    assert_eq!(parse_digits(b"18446744073709551616", 0, u64::MAX), None);
}

#[test]
fn the_worker_id_comes_from_its_setting() {
    assert_eq!(WORKER_ID_SETTING, "WORKER_ID");
    assert_eq!(worker_id_from(Some("5")), Ok(5));
    assert_eq!(worker_id_from(Some("255")), Ok(255));
    assert_eq!(worker_id_from(Some("0")), Ok(0));
    assert_eq!(worker_id_from(None), Err(ConfigError::MissingWorkerId));
    assert_eq!(worker_id_from(Some("256")), Err(ConfigError::InvalidWorkerId));
    assert_eq!(worker_id_from(Some("-1")), Err(ConfigError::InvalidWorkerId));
    assert_eq!(worker_id_from(Some("")), Err(ConfigError::InvalidWorkerId));
    assert_eq!(worker_id_from(Some("five")), Err(ConfigError::InvalidWorkerId));
}

#[test]
fn to_i64_takes_numbers_and_text() {
    assert_eq!(to_i64(&JsonValue::Integer(-3)), Ok(-3));
    assert_eq!(to_i64(&text("4194385920")), Ok(4194385920));
    assert_eq!(to_i64(&text("-8")), Ok(-8));
    assert_eq!(to_i64(&text("eight")), Err(IntError::Parse));
    assert_eq!(to_i64(&text("")), Err(IntError::Parse));
    assert_eq!(to_i64(&JsonValue::Other), Err(IntError::Type));
    assert_eq!(IntError::Parse.message(), "string parse int error");
    assert_eq!(IntError::Type.message(), "type error");
}

#[test]
fn to_i64_option_lets_an_absent_value_pass() {
    assert_eq!(to_i64_option(None), Ok(None));
    assert_eq!(to_i64_option(Some(&JsonValue::Integer(9))), Ok(Some(9)));
    assert_eq!(to_i64_option(Some(&text("9"))), Ok(Some(9)));
    assert_eq!(to_i64_option(Some(&text("x"))), Err(IntError::Parse));
    assert_eq!(to_i64_option(Some(&JsonValue::Other)), Err(IntError::Type));
}

#[test]
fn to_vec_i64_keeps_the_order() {
    assert_eq!(to_vec_i64(&vec![]), Ok(vec![]));
    assert_eq!(
        to_vec_i64(&vec![text("3"), JsonValue::Integer(1), text("2"), text("3")]),
        Ok(vec![3, 1, 2, 3])
    );
    assert_eq!(
        to_vec_i64(&vec![text("3"), JsonValue::Other, text("x")]),
        Err(IntError::Type)
    );
    assert_eq!(
        to_vec_i64(&vec![text("3"), text("x"), JsonValue::Other]),
        Err(IntError::Parse)
    );
}

#[test]
fn to_set_i64_drops_repeats() {
    assert_eq!(to_set_i64(&vec![]), Ok(HashSet::new()));
    let expected: HashSet<i64> = [1, 2, 3].into_iter().collect();
    assert_eq!(
        to_set_i64(&vec![text("3"), JsonValue::Integer(1), text("2"), text("3")]),
        Ok(expected)
    );
    assert_eq!(to_set_i64(&vec![text("3"), JsonValue::Other]), Err(IntError::Type));
    assert_eq!(to_set_i64(&vec![text("x"), JsonValue::Other]), Err(IntError::Parse));
}

#[test]
fn parse_utc_reads_rfc3339() {
    let instant = parse_utc("2019-11-27T00:00:00+08:00").unwrap();
    assert_eq!(instant.unix_timestamp(), 1574784000);
    assert_eq!(format_time(instant), Some("2019-11-27T00:00:00+08:00".to_string()));
    let instant = parse_utc("1970-01-01T00:00:00Z").unwrap();
    assert_eq!(instant, unix_epoch());
}

#[test]
fn parse_utc_keeps_the_rejected_text() {
    match parse_utc("yesterday") {
        Err(Error::DateFailParse(rejected)) => assert_eq!(rejected, "yesterday"),
        Ok(_) => panic!("accepted"),
    }
    let error = parse_utc("2019-11-27").unwrap_err();
    assert_eq!(error.message(), "日期解析失败:2019-11-27");
}

#[test]
fn unix_epoch_is_the_start_of_1970() {
    assert_eq!(unix_epoch().unix_timestamp(), 0);
    assert_eq!(format_time(unix_epoch()), Some("1970-01-01T00:00:00Z".to_string()));
}

#[test]
fn now_is_after_the_epoch_of_the_identifiers() {
    let now = now_utc();
    assert!(now.unix_timestamp() > 1574784000);
    assert!(now.offset().is_utc());
    let plain = now_utc_primitive();
    assert!(plain.assume_utc() >= now);
    assert!(plain.assume_utc().unix_timestamp() - now.unix_timestamp() < 60);
}

#[test]
fn the_notation_is_the_text_that_was_written() {
    assert_eq!(
        bubo::datetime::notation_of(Ok("1970-01-01T00:00:00Z".to_string())),
        Some("1970-01-01T00:00:00Z".to_string())
    );
    assert_eq!(bubo::datetime::notation_of(Ok(String::new())), Some(String::new()));
}

#[test]
fn an_instant_without_a_notation_is_not_written() {
    let offset = time::UtcOffset::from_hms(0, 0, 1).unwrap();
    let odd = unix_epoch().to_offset(offset);
    let outcome = odd.format(&time::format_description::well_known::Rfc3339);
    assert!(outcome.is_err());
    assert_eq!(bubo::datetime::notation_of(outcome), None);
    assert_eq!(format_time(odd), None);
}
