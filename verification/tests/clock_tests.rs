use iclass_cli::clock::parse_time_of_day;
use iclass_cli::clock::TimeOfDay;
use iclass_cli::errors::IClassError;

#[test]
fn parse_morning_time() {
    let t = parse_time_of_day("0800").unwrap();
    assert_eq!(t.hour, 8);
    assert_eq!(t.minute, 0);
}

#[test]
fn parse_last_minute_of_day() {
    let t = parse_time_of_day("2359").unwrap();
    assert_eq!(t.hour, 23);
    assert_eq!(t.minute, 59);
}

#[test]
fn parse_midnight() {
    let t = parse_time_of_day("0000").unwrap();
    assert_eq!(t.hour, 0);
    assert_eq!(t.minute, 0);
}

#[test]
fn parse_mixed_digits() {
    let t = parse_time_of_day("1234").unwrap();
    assert_eq!(t.hour, 12);
    assert_eq!(t.minute, 34);
}

#[test]
fn parse_hour_out_of_range() {
    assert_eq!(parse_time_of_day("2400"), Err(IClassError::InvalidTime));
}

#[test]
fn parse_minute_out_of_range() {
    assert_eq!(parse_time_of_day("0060"), Err(IClassError::InvalidTime));
}

#[test]
fn parse_non_digit() {
    assert_eq!(parse_time_of_day("ab00"), Err(IClassError::InvalidTime));
    assert_eq!(parse_time_of_day("08:0"), Err(IClassError::InvalidTime));
}

#[test]
fn parse_wrong_length() {
    assert_eq!(parse_time_of_day(""), Err(IClassError::InvalidTime));
    assert_eq!(parse_time_of_day("080"), Err(IClassError::InvalidTime));
    assert_eq!(parse_time_of_day("08000"), Err(IClassError::InvalidTime));
}

#[test]
fn parse_non_ascii() {
    assert_eq!(parse_time_of_day("08\u{0660}0"), Err(IClassError::InvalidTime));
}

#[test]
fn target_second_has_exact_hour_minute_and_zero_seconds() {
    let t = TimeOfDay { hour: 8, minute: 0 };
    let s = t.second_of_day();
    assert_eq!(s, 28800);
    assert_eq!(s / 3600, 8);
    assert_eq!(s % 3600 / 60, 0);
    assert_eq!(s % 60, 0);

    let u = TimeOfDay { hour: 23, minute: 59 };
    let su = u.second_of_day();
    assert_eq!(su / 3600, 23);
    assert_eq!(su % 3600 / 60, 59);
    assert_eq!(su % 60, 0);
}
