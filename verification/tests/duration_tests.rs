use ytjobs::duration::{format_duration, parse_duration, reformat_duration, DurationParts};

#[test]
fn reformat_minutes_and_seconds() {
    assert_eq!(reformat_duration("PT3M21S").as_deref(), Some("3:21"));
}

#[test]
fn reformat_full_triple() {
    assert_eq!(reformat_duration("PT1H2M3S").as_deref(), Some("1:02:03"));
}

#[test]
fn reformat_seconds_only() {
    assert_eq!(reformat_duration("PT21S").as_deref(), Some("21"));
}

#[test]
fn reformat_all_absent_is_zero_seconds() {
    assert_eq!(reformat_duration("PT").as_deref(), Some("0"));
}

#[test]
fn reformat_hours_only_pads_inner_components() {
    assert_eq!(reformat_duration("PT2H").as_deref(), Some("2:00:00"));
}

#[test]
fn reformat_zero_seconds() {
    assert_eq!(reformat_duration("PT0S").as_deref(), Some("0"));
}

#[test]
fn reformat_hour_and_seconds_without_minutes() {
    assert_eq!(reformat_duration("PT1H5S").as_deref(), Some("1:00:05"));
}

#[test]
fn reformat_rejects_missing_prefix() {
    assert_eq!(reformat_duration("3:21"), None);
    assert_eq!(reformat_duration(""), None);
    assert_eq!(reformat_duration("P"), None);
}

#[test]
fn reformat_rejects_trailing_garbage() {
    assert_eq!(reformat_duration("PT1X"), None);
    assert_eq!(reformat_duration("PT1M2H"), None);
    assert_eq!(reformat_duration("PT12"), None);
    assert_eq!(reformat_duration("PTM"), None);
}

#[test]
fn reformat_rejects_component_overflow() {
    assert_eq!(reformat_duration("PT99999999999S"), None);
}

#[test]
fn reformat_is_deterministic_on_source_encodings() {
    let once = reformat_duration("PT4M7S");
    let twice = reformat_duration("PT4M7S");
    assert_eq!(once, twice);
    assert_eq!(once.as_deref(), Some("4:07"));
}

#[test]
fn parse_duration_yields_components() {
    let d = parse_duration("PT10H20M30S").unwrap();
    assert_eq!(d.hours, 10);
    assert_eq!(d.minutes, 20);
    assert_eq!(d.seconds, 30);
}

#[test]
fn format_duration_pads_two_wide() {
    let d = DurationParts { hours: 11, minutes: 0, seconds: 9 };
    assert_eq!(format_duration(&d), "11:00:09");
}
