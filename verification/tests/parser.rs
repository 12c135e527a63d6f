use shutdown_timer::timer::{parse_timer, ParseError};

#[test]
fn parse_now_is_zero() {
    assert_eq!(parse_timer("now".to_string()), Ok(0));
}

#[test]
fn parse_zero_seconds() {
    assert_eq!(parse_timer("0s".to_string()), Ok(0));
}

#[test]
fn parse_five_seconds() {
    assert_eq!(parse_timer("5s".to_string()), Ok(5));
}

#[test]
fn parse_two_minutes() {
    assert_eq!(parse_timer("2m".to_string()), Ok(120));
}

#[test]
fn parse_one_hour() {
    assert_eq!(parse_timer("1h".to_string()), Ok(3600));
}

#[test]
fn parse_zero_minutes_and_hours() {
    assert_eq!(parse_timer("0m".to_string()), Ok(0));
    assert_eq!(parse_timer("0h".to_string()), Ok(0));
}

#[test]
fn leading_zero_rejected() {
    assert_eq!(parse_timer("01s".to_string()), Err(ParseError::InvalidFormat));
    assert_eq!(parse_timer("00s".to_string()), Err(ParseError::InvalidFormat));
    assert_eq!(parse_timer("0123m".to_string()), Err(ParseError::InvalidFormat));
}

#[test]
fn unknown_unit_rejected() {
    assert_eq!(parse_timer("5x".to_string()), Err(ParseError::InvalidFormat));
    assert_eq!(parse_timer("12d".to_string()), Err(ParseError::InvalidFormat));
    assert_eq!(parse_timer("7S".to_string()), Err(ParseError::InvalidFormat));
}

#[test]
fn missing_magnitude_rejected() {
    assert_eq!(parse_timer("s".to_string()), Err(ParseError::InvalidFormat));
    assert_eq!(parse_timer("m".to_string()), Err(ParseError::InvalidFormat));
    assert_eq!(parse_timer("h".to_string()), Err(ParseError::InvalidFormat));
    assert_eq!(parse_timer("".to_string()), Err(ParseError::InvalidFormat));
}

#[test]
fn non_numeric_magnitude_rejected() {
    assert_eq!(parse_timer("abc".to_string()), Err(ParseError::InvalidFormat));
    assert_eq!(parse_timer("1a2s".to_string()), Err(ParseError::InvalidFormat));
    assert_eq!(parse_timer("-5s".to_string()), Err(ParseError::InvalidFormat));
}

#[test]
fn seconds_accept_the_full_range() {
    let s = format!("{}s", u64::MAX);
    assert_eq!(parse_timer(s), Ok(u64::MAX));
}

#[test]
fn minutes_overflow_boundary_is_exact() {
    let largest = u64::MAX / 60;
    assert_eq!(parse_timer(format!("{largest}m")), Ok(largest * 60));
    assert_eq!(parse_timer(format!("{}m", largest + 1)), Err(ParseError::Overflow));
}

#[test]
fn hours_overflow_boundary_is_exact() {
    let largest = u64::MAX / 3600;
    assert_eq!(parse_timer(format!("{largest}h")), Ok(largest * 3600));
    assert_eq!(parse_timer(format!("{}h", largest + 1)), Err(ParseError::Overflow));
}

#[test]
fn magnitude_beyond_u64_rejected_as_invalid() {
    // One more than u64::MAX does not fit the magnitude itself, which is a
    // format error, distinct from the overflow of magnitude times unit.
    assert_eq!(
        parse_timer("18446744073709551616s".to_string()),
        Err(ParseError::InvalidFormat)
    );
    assert_eq!(
        parse_timer("99999999999999999999999h".to_string()),
        Err(ParseError::InvalidFormat)
    );
}

#[test]
fn surrounding_whitespace_is_trimmed() {
    assert_eq!(parse_timer(" 5s ".to_string()), Ok(5));
    assert_eq!(parse_timer("\t2m\n".to_string()), Ok(120));
}

#[test]
fn unicode_whitespace_is_trimmed_too() {
    assert_eq!(parse_timer("\u{00A0}5s\u{2003}".to_string()), Ok(5));
}

#[test]
fn only_the_exact_now_literal_is_special() {
    assert_eq!(parse_timer(" now".to_string()), Err(ParseError::InvalidFormat));
    assert_eq!(parse_timer("now ".to_string()), Err(ParseError::InvalidFormat));
    assert_eq!(parse_timer("NOW".to_string()), Err(ParseError::InvalidFormat));
}

#[test]
fn parsing_twice_gives_the_same_count() {
    let first = parse_timer("2m".to_string());
    let second = parse_timer("2m".to_string());
    assert_eq!(first, second);
    assert_eq!(first, Ok(120));

    let first = parse_timer("now".to_string());
    let second = parse_timer("now".to_string());
    assert_eq!(first, second);
    assert_eq!(first, Ok(0));
}

#[test]
fn error_messages() {
    assert_eq!(ParseError::InvalidFormat.message(), "Invalid parameter for <time>");
    assert_eq!(ParseError::Overflow.message(), "Maximum time exceeded");
}
