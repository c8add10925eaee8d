use discord_timestamp::civil::{CivilDate, CivilDateTime, CivilTime};

fn civil(year: i32, month: u8, day: u8, hour: u8, minute: u8, second: u8) -> CivilDateTime {
    CivilDateTime {
        date: CivilDate { year, month, day },
        time: CivilTime {
            hour,
            minute,
            second,
        },
    }
}

/// The same naive value read as UTC by chrono, for cross-checking the
/// zero-offset epoch arithmetic.
fn chrono_utc_epoch(dt: CivilDateTime) -> i64 {
    chrono::NaiveDate::from_ymd_opt(dt.date.year, dt.date.month as u32, dt.date.day as u32)
        .unwrap()
        .and_hms_opt(
            dt.time.hour as u32,
            dt.time.minute as u32,
            dt.time.second as u32,
        )
        .unwrap()
        .and_utc()
        .timestamp()
}

#[test]
fn epoch_of_unix_origin() {
    assert_eq!(civil(1970, 1, 1, 0, 0, 0).epoch_seconds(), 0);
}

#[test]
fn epoch_just_before_origin() {
    assert_eq!(civil(1969, 12, 31, 23, 59, 59).epoch_seconds(), -1);
}

#[test]
fn epoch_zero_offset_reference_datetime() {
    // 2018-11-28 09:01:00 read at offset +00:00.
    let dt = civil(2018, 11, 28, 9, 1, 0);
    assert_eq!(dt.epoch_seconds(), 1543395660);
    assert_eq!(dt.epoch_seconds(), chrono_utc_epoch(dt));
}

#[test]
fn epoch_leap_day() {
    let dt = civil(2020, 2, 29, 0, 0, 0);
    assert_eq!(dt.epoch_seconds(), 1582934400);
    assert_eq!(dt.epoch_seconds(), chrono_utc_epoch(dt));
}

#[test]
fn epoch_before_origin_matches_chrono() {
    let dt = civil(1950, 6, 15, 12, 0, 0);
    assert_eq!(dt.epoch_seconds(), -616852800);
    assert_eq!(dt.epoch_seconds(), chrono_utc_epoch(dt));
}

#[test]
fn epoch_century_leap_rules() {
    // 1900 is not a leap year, 2000 is.
    let a = civil(1900, 3, 1, 0, 0, 0);
    let b = civil(2000, 3, 1, 0, 0, 0);
    assert_eq!(a.epoch_seconds(), chrono_utc_epoch(a));
    assert_eq!(b.epoch_seconds(), chrono_utc_epoch(b));
}

#[test]
fn epoch_far_years() {
    let lo = civil(-262143, 1, 1, 0, 0, 0);
    let hi = civil(262142, 12, 31, 23, 59, 59);
    assert_eq!(lo.epoch_seconds(), chrono_utc_epoch(lo));
    assert_eq!(hi.epoch_seconds(), chrono_utc_epoch(hi));
}

#[test]
fn from_date_is_midnight() {
    let dt = CivilDateTime::from_date(CivilDate {
        year: 2018,
        month: 11,
        day: 28,
    });
    assert_eq!(dt.time.hour, 0);
    assert_eq!(dt.time.minute, 0);
    assert_eq!(dt.time.second, 0);
    assert_eq!(dt.date.year, 2018);
}
