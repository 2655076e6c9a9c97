use filler::date::{gen_date, Date};
use filler::generator::{DateGen, Generator};

#[test]
fn date_date_within_range() {
    let start = Date::from_ymd(1900, 1, 1).unwrap();
    let end = Date::from_ymd(2100, 12, 12).unwrap();

    let date = gen_date();

    assert!(date >= start);
    assert!(date <= end);
}

#[test]
fn default_date_range() {
    let date_gen = DateGen::new();
    let start = Date::from_ymd(1900, 1, 1).unwrap();
    let end = Date::from_ymd(2100, 12, 31).unwrap();
    assert_eq!(date_gen.start_date(), start);
    assert_eq!(date_gen.end_date(), end);
}

#[test]
fn date_within_range() {
    let start = Date::from_ymd(2015, 10, 12).unwrap();
    let end = Date::from_ymd(2018, 5, 12).unwrap();

    let date_gen = DateGen::new().start(start).unwrap().end(end).unwrap();

    let date = date_gen.generate();

    assert!(date >= start);
    assert!(date <= end);
}

#[test]
fn rejects_invalid_dates() {
    assert!(Date::from_ymd(2015, 2, 29).is_none());
    assert!(Date::from_ymd(2016, 2, 29).is_some());
    assert!(Date::from_ymd(1900, 2, 29).is_none());
    assert!(Date::from_ymd(2000, 2, 29).is_some());
    assert!(Date::from_ymd(2015, 0, 14).is_none());
    assert!(Date::from_ymd(2015, 13, 1).is_none());
    assert!(Date::from_ymd(0, 1, 1).is_none());
    assert!(Date::from_ymd(10000, 1, 1).is_none());
}

#[test]
fn iso_string_form() {
    let d = Date::from_ymd(1999, 9, 3).unwrap();
    assert_eq!(d.iso_string(), "1999-09-03");
    let d = Date::from_ymd(567, 12, 31).unwrap();
    assert_eq!(d.iso_string(), "0567-12-31");
}

#[test]
fn day_numbers_match_calendar() {
    // 1970-01-01 is day 719_163 of the proleptic Gregorian day count.
    let epoch = Date::from_ymd(1970, 1, 1).unwrap();
    assert_eq!(epoch.days_from_ce(), 719_163);
    let first = Date::from_ymd(1, 1, 1).unwrap();
    assert_eq!(first.days_from_ce(), 1);
    let last = Date::from_ymd(9999, 12, 31).unwrap();
    assert_eq!(last.days_from_ce(), 3_652_059);
}

#[test]
fn invalid_range_rejected() {
    let start = Date::from_ymd(2020, 5, 1).unwrap();
    let end = Date::from_ymd(2020, 5, 1).unwrap();
    let err = DateGen::with_range(start, end).err().unwrap();
    assert!(matches!(err, filler::Error::InvalidRange));

    let later = Date::from_ymd(2020, 5, 2).unwrap();
    assert!(matches!(DateGen::with_range(later, start), Err(filler::Error::InvalidRange)));
    assert!(DateGen::with_range(start, later).is_ok());
}

#[test]
fn builders_reject_empty_range() {
    // Moving a bound past the other bound fails at construction, before any
    // generation can be asked of the degenerate range.
    let past_end = Date::from_ymd(2101, 1, 1).unwrap();
    let err = DateGen::new().start(past_end).err().unwrap();
    assert!(matches!(err, filler::Error::InvalidRange));

    let before_start = Date::from_ymd(1899, 12, 31).unwrap();
    let err = DateGen::new().end(before_start).err().unwrap();
    assert!(matches!(err, filler::Error::InvalidRange));

    let same = Date::from_ymd(1900, 1, 1).unwrap();
    assert!(matches!(DateGen::new().end(same), Err(filler::Error::InvalidRange)));
}

#[test]
fn round_trip_day_numbers() {
    let d = Date::from_ymd(2024, 2, 29).unwrap();
    let back = Date::from_day_number(d.days_from_ce()).unwrap();
    assert_eq!(back, d);
    assert_eq!(back.year(), 2024);
    assert_eq!(back.month(), 2);
    assert_eq!(back.day(), 29);
}
