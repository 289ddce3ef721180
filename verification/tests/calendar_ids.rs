use forge::calendar::{Date, Timestamp};
use forge::ids::{CycleId, TaskId};

#[test]
fn calendar_dates_have_their_julian_day() {
    assert_eq!(Date::from_calendar_date(2026, 1, 15).unwrap().julian_day(), 2_461_056);
    assert_eq!(Date::from_calendar_date(1970, 1, 1).unwrap().julian_day(), 2_440_588);
    assert!(Date::from_calendar_date(2026, 2, 30).is_none());
    assert!(Date::from_calendar_date(2026, 13, 1).is_none());
    assert_eq!(Date::from_julian_day(2_461_056), Date::from_calendar_date(2026, 1, 15));
    assert!(Date::from_julian_day(i32::MAX).is_none());
}

#[test]
fn instants_fall_on_their_utc_day() {
    let noon = Timestamp::from_unix_nanos(86_400 * 1_000_000_000 + 43_200 * 1_000_000_000).unwrap();
    assert_eq!(noon.utc_date(), Date::from_calendar_date(1970, 1, 2).unwrap());
    let before_epoch = Timestamp::from_unix_nanos(-1).unwrap();
    assert_eq!(before_epoch.utc_date(), Date::from_calendar_date(1969, 12, 31).unwrap());
    assert!(Timestamp::from_unix_nanos(i128::MAX).is_none());
    assert_eq!(noon.unix_nanos(), 129_600_000_000_000);
}

#[test]
fn identifiers_are_written_hyphenated_and_read_back() {
    let id = CycleId::from_uuid(0x0123_4567_89ab_cdef_0123_4567_89ab_cdef);
    assert_eq!(id.to_string(), "01234567-89ab-cdef-0123-456789abcdef");
    assert_eq!(CycleId::parse("01234567-89AB-CDEF-0123-456789ABCDEF").unwrap(), id);
    assert_eq!(CycleId::parse("0123456789abcdef0123456789abcdef").unwrap(), id);
    assert!(CycleId::parse("01234567-89ab-cdef-0123-456789abcde").is_err());
}

#[test]
fn fresh_identifiers_are_version_seven_and_distinct() {
    let a = TaskId::new();
    let b = TaskId::new();
    assert_eq!((a.as_uuid() >> 76) & 0xF, 7);
    assert_eq!((b.as_uuid() >> 76) & 0xF, 7);
    assert_ne!(a, b);
}

#[test]
fn stored_dates_are_read_and_written_as_year_month_day() {
    let day = forge::convert::date("2026-01-15").unwrap();
    assert_eq!(day, Date::from_calendar_date(2026, 1, 15).unwrap());
    assert_eq!(forge::convert::date_text(day).unwrap(), "2026-01-15");
    assert!(matches!(
        forge::convert::date("2026-02-30"),
        Err(forge::error::AppError::Persistence { .. })
    ));
    assert!(matches!(
        forge::convert::date("15/01/2026"),
        Err(forge::error::AppError::Persistence { .. })
    ));
    assert_eq!(forge::convert::optional_date(&None).unwrap(), None);
    assert_eq!(
        forge::convert::optional_date(&Some("1970-01-02".to_string())).unwrap(),
        Date::from_julian_day(2_440_589)
    );
}

#[test]
fn stored_instants_are_read_and_written_as_rfc3339() {
    let noon = forge::convert::rfc3339("1970-01-02T12:00:00Z").unwrap();
    assert_eq!(noon.unix_nanos(), 129_600_000_000_000);
    let shifted = forge::convert::rfc3339("1970-01-02T14:00:00+02:00").unwrap();
    assert_eq!(shifted, noon);
    assert_eq!(forge::convert::format_rfc3339(noon).unwrap(), "1970-01-02T12:00:00Z");
    assert!(matches!(
        forge::convert::rfc3339("yesterday"),
        Err(forge::error::AppError::Persistence { .. })
    ));
    assert_eq!(forge::convert::optional_rfc3339(&None).unwrap(), None);
}

#[test]
fn stored_values_a_rule_refuses_are_persistence_errors() {
    let refused: Result<u8, forge::error::DomainError> =
        Err(forge::error::DomainError::UnknownStatus("paused".to_string()));
    assert_eq!(
        forge::convert::stored(refused),
        Err(forge::error::AppError::Persistence { message: "unknown status `paused`".to_string() })
    );
    assert_eq!(forge::convert::stored::<u8>(Ok(7)), Ok(7));
}
