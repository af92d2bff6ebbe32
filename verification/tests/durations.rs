use koshelf::duration::{parse_time_to_seconds, TimeParseError};

#[test]
fn parse_time_off_alias_maps_to_none() {
    assert_eq!(parse_time_to_seconds("off").unwrap(), None);
}

#[test]
fn parse_time_auto_maps_to_none() {
    assert_eq!(parse_time_to_seconds("auto").unwrap(), None);
}

#[test]
fn aliases_ignore_case() {
    assert_eq!(parse_time_to_seconds("AUTO"), Ok(None));
    assert_eq!(parse_time_to_seconds("Off"), Ok(None));
}

#[test]
fn units_add_up() {
    assert_eq!(parse_time_to_seconds("1h30m"), Ok(Some(5400)));
    assert_eq!(parse_time_to_seconds("45min"), Ok(Some(2700)));
    assert_eq!(parse_time_to_seconds("30s"), Ok(Some(30)));
    assert_eq!(parse_time_to_seconds("2H"), Ok(Some(7200)));
    assert_eq!(parse_time_to_seconds("1h 1m 1s"), Ok(Some(3661)));
}

#[test]
fn text_without_a_duration_is_refused() {
    assert_eq!(parse_time_to_seconds("soon"), Err(TimeParseError::NoMatch));
    assert_eq!(parse_time_to_seconds(""), Err(TimeParseError::NoMatch));
}

#[test]
fn zero_duration_is_refused() {
    assert_eq!(parse_time_to_seconds("0s"), Err(TimeParseError::Zero));
    assert_eq!(parse_time_to_seconds("0h0m"), Err(TimeParseError::Zero));
}

#[test]
fn oversized_numbers_are_refused() {
    assert_eq!(parse_time_to_seconds("99999999999s"), Err(TimeParseError::InvalidNumber(0)));
    assert_eq!(parse_time_to_seconds("1200000h"), Err(TimeParseError::Overflow));
}
