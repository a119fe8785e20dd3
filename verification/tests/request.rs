use sun_moon::request::{DateRangeRequest, DateRequest, MIN_YEAR};

fn date(year: i32, month: u8, day: u8, hour: u8, minute: u8, second: u8) -> DateRequest {
    DateRequest { year, month, day, hour, minute, second }
}

#[test]
fn bounds_of_a_date() {
    assert_eq!(1900, MIN_YEAR);
    assert!(date(1900, 1, 1, 0, 0, 0).is_valid());
    assert!(date(2021, 12, 31, 23, 59, 59).is_valid());
    assert!(date(2021, 2, 31, 0, 0, 0).is_valid());
    assert!(!date(1899, 1, 1, 0, 0, 0).is_valid());
    assert!(!date(2021, 0, 1, 0, 0, 0).is_valid());
    assert!(!date(2021, 13, 1, 0, 0, 0).is_valid());
    assert!(!date(2021, 1, 0, 0, 0, 0).is_valid());
    assert!(!date(2021, 1, 32, 0, 0, 0).is_valid());
    assert!(!date(2021, 1, 1, 24, 0, 0).is_valid());
    assert!(!date(2021, 1, 1, 0, 60, 0).is_valid());
    assert!(!date(2021, 1, 1, 0, 0, 60).is_valid());
}

#[test]
fn bounds_of_a_range() {
    let good = date(2021, 4, 8, 20, 54, 27);
    let bad = date(1899, 4, 8, 20, 54, 27);
    assert!(DateRangeRequest { start: good, end: good }.is_valid());
    assert!(!DateRangeRequest { start: bad, end: good }.is_valid());
    assert!(!DateRangeRequest { start: good, end: bad }.is_valid());
}
