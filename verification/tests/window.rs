use sun_moon::error::DateTimeError;
use sun_moon::horo_date_time::HoroDateTime;
use sun_moon::window::sample_step;

fn at(jd_utc: i64) -> HoroDateTime {
    HoroDateTime {
        year: 2021,
        month: 4,
        day: 8,
        hour: 0,
        minute: 0,
        second: 0,
        ms: 0,
        tz: 28_800_000,
        jd_utc,
        jd_et: jd_utc,
        jd_ut1: jd_utc,
    }
}

#[test]
fn short_ranges_are_walked_by_the_hour() {
    let start = 212_484_600_000_000;
    assert_eq!(Ok(3_600_000), sample_step(&at(start), &at(start + 1)).map_err(|e| e.message()));
    assert_eq!(
        Ok(3_600_000),
        sample_step(&at(start), &at(start + 86_399_999)).map_err(|e| e.message())
    );
}

#[test]
fn long_ranges_are_walked_by_the_day() {
    let start = 212_484_600_000_000;
    assert_eq!(
        Ok(86_400_000),
        sample_step(&at(start), &at(start + 86_400_000)).map_err(|e| e.message())
    );
    assert_eq!(
        Ok(86_400_000),
        sample_step(&at(start), &at(start + 365 * 86_400_000)).map_err(|e| e.message())
    );
    assert_eq!(
        Ok(86_400_000),
        sample_step(&at(i64::MIN), &at(i64::MAX)).map_err(|e| e.message())
    );
}

#[test]
fn a_range_must_end_after_it_starts() {
    let start = 212_484_600_000_000;
    assert!(matches!(
        sample_step(&at(start), &at(start)),
        Err(DateTimeError::InvalidDateTime(_))
    ));
    assert!(matches!(
        sample_step(&at(start), &at(start - 1)),
        Err(DateTimeError::InvalidDateTime(_))
    ));
    assert!(matches!(
        sample_step(&at(i64::MAX), &at(i64::MIN)),
        Err(DateTimeError::InvalidDateTime(_))
    ));
}

#[test]
fn walking_by_the_step_covers_the_range() {
    let start = 212_484_600_000_000;
    for span in [1, 3_600_000, 3_600_001, 86_399_999, 86_400_000, 86_400_001, 10 * 86_400_000] {
        let end = start + span;
        let step = sample_step(&at(start), &at(end)).map_err(|e| e.message()).unwrap();
        let mut samples = 0;
        let mut jd = start;
        while jd < end {
            samples += 1;
            jd += step;
        }
        assert_eq!((span - 1) / step + 1, samples);
        if span < 86_400_000 {
            assert!(samples <= 24);
        }
    }
}
