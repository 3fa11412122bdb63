use chrono::{DateTime, NaiveDate, Utc};
use chrono_gpst::{
    from_gpst, from_gpst_seconds, num_leaps, Gpst, GpstError, GpstLike, UtcTime, GPS_EPOCH,
    LEAP_COUNT, LEAP_SECONDS, SECONDS_PER_WEEK,
};

fn instant(date_time: DateTime<Utc>) -> UtcTime {
    UtcTime::from_unix_seconds(date_time.timestamp()).unwrap()
}

fn date_time_of(t: UtcTime) -> DateTime<Utc> {
    DateTime::from_timestamp(t.unix_seconds(), 0).unwrap()
}

#[test]
fn to() {
    let date_time = NaiveDate::from_ymd_opt(2005, 1, 28)
        .unwrap()
        .and_hms_nano_opt(13, 30, 0, 0)
        .unwrap()
        .and_utc();
    assert_eq!(
        instant(date_time).gpst(true).unwrap(),
        Gpst {
            seconds: 790954213,
            week: 1307,
            week_seconds: 480613
        }
    );
}

#[test]
fn from() {
    let date_time = NaiveDate::from_ymd_opt(2005, 1, 28)
        .unwrap()
        .and_hms_nano_opt(13, 30, 0, 0)
        .unwrap()
        .and_utc();
    assert_eq!(date_time_of(from_gpst(1307, 480613, true).unwrap()), date_time)
}

#[test]
fn print_leap_seconds() {
    for leap_second in LEAP_SECONDS {
        let date_time = DateTime::from_timestamp(leap_second + GPS_EPOCH, 0).unwrap();
        println!("{}", date_time.to_rfc3339());
    }
}

#[test]
fn epoch_converts_to_zero() {
    let epoch = NaiveDate::from_ymd_opt(1980, 1, 6)
        .unwrap()
        .and_hms_opt(0, 0, 0)
        .unwrap()
        .and_utc();
    assert_eq!(epoch.timestamp(), GPS_EPOCH);
    let zero = Gpst {
        seconds: 0,
        week: 0,
        week_seconds: 0,
    };
    assert_eq!(instant(epoch).gpst(false).unwrap(), zero);
    assert_eq!(instant(epoch).gpst(true).unwrap(), zero);
}

#[test]
fn before_epoch_is_rejected() {
    let t = UtcTime::from_unix_seconds(GPS_EPOCH - 1).unwrap();
    let expected = GpstError::BeforeGPSEpoch("1980-01-05T23:59:59+00:00".to_string());
    assert_eq!(t.gpst(false), Err(expected));
    let expected = GpstError::BeforeGPSEpoch("1980-01-05T23:59:59+00:00".to_string());
    assert_eq!(t.gpst(true), Err(expected));
    let unix_epoch = UtcTime::from_unix_seconds(0).unwrap();
    assert!(matches!(
        unix_epoch.gpst(true),
        Err(GpstError::BeforeGPSEpoch(_))
    ));
}

#[test]
fn leap_count_is_inclusive() {
    assert_eq!(num_leaps(46828799), 0);
    assert_eq!(num_leaps(46828800), 1);
    assert_eq!(num_leaps(78364800), 1);
    assert_eq!(num_leaps(78364801), 2);
    for (i, leap) in LEAP_SECONDS.iter().enumerate() {
        assert_eq!(num_leaps(*leap), i as i64 + 1);
        assert_eq!(num_leaps(*leap - 1), i as i64);
    }
}

#[test]
fn leap_count_is_monotonic_and_bounded() {
    assert_eq!(num_leaps(i64::MIN), 0);
    assert_eq!(num_leaps(-1), 0);
    assert_eq!(num_leaps(0), 0);
    assert_eq!(num_leaps(1167264017), LEAP_COUNT as i64);
    assert_eq!(num_leaps(i64::MAX), 18);
    let mut previous = num_leaps(-10);
    let mut x: i64 = -10;
    while x < 1_300_000_000 {
        let count = num_leaps(x);
        assert!(previous <= count);
        assert!(count <= 18);
        previous = count;
        x += 3_999_999;
    }
}

#[test]
fn week_parts_add_up() {
    for unix in [GPS_EPOCH, GPS_EPOCH + 604799, GPS_EPOCH + 604800, 1106919000, 1700000000] {
        for leap in [false, true] {
            let g = UtcTime::from_unix_seconds(unix).unwrap().gpst(leap).unwrap();
            assert_eq!(g.week * SECONDS_PER_WEEK + g.week_seconds, g.seconds);
            assert!(0 <= g.week_seconds && g.week_seconds < SECONDS_PER_WEEK);
        }
    }
    let g = UtcTime::from_unix_seconds(GPS_EPOCH + 604800).unwrap().gpst(false).unwrap();
    assert_eq!((g.week, g.week_seconds), (1, 0));
}

#[test]
fn round_trip_through_weeks() {
    for unix in [GPS_EPOCH, GPS_EPOCH + 1, 1106919000, 1483228900, 1700000000, 4102444800] {
        for leap in [false, true] {
            let t = UtcTime::from_unix_seconds(unix).unwrap();
            let g = t.gpst(leap).unwrap();
            assert_eq!(from_gpst(g.week, g.week_seconds, leap).unwrap(), t);
        }
    }
}

#[test]
fn round_trip_skips_where_adjustment_reaches_a_further_entry() {
    // 2017-01-01T00:00:00Z: the 17 leap seconds before it carry the GPST value
    // onto the table's last entry, which the way back then counts too.
    let t = UtcTime::from_unix_seconds(1483228800).unwrap();
    let g = t.gpst(true).unwrap();
    assert_eq!(g.seconds, 1167264017);
    let back = from_gpst(g.week, g.week_seconds, true).unwrap();
    assert_eq!(back.unix_seconds(), 1483228799);
    let g = t.gpst(false).unwrap();
    assert_eq!(from_gpst(g.week, g.week_seconds, false).unwrap(), t);
}

#[test]
fn leap_adjustment_is_applied_both_ways() {
    let t = UtcTime::from_unix_seconds(1700000000).unwrap();
    assert_eq!(t.gpst(false).unwrap().seconds, 1700000000 - GPS_EPOCH);
    assert_eq!(t.gpst(true).unwrap().seconds, 1700000000 - GPS_EPOCH + 18);
    let back = from_gpst_seconds(1700000000 - GPS_EPOCH + 18, true).unwrap();
    assert_eq!(back.unix_seconds(), 1700000000);
    let plain = from_gpst_seconds(1700000000 - GPS_EPOCH + 18, false).unwrap();
    assert_eq!(plain.unix_seconds(), 1700000018);
}

#[test]
fn week_seconds_outside_one_week_shift_the_total() {
    let t = from_gpst(1, -SECONDS_PER_WEEK, false).unwrap();
    assert_eq!(t.unix_seconds(), GPS_EPOCH);
    let t = from_gpst(0, 2 * SECONDS_PER_WEEK + 5, false).unwrap();
    assert_eq!(t.unix_seconds(), GPS_EPOCH + 2 * SECONDS_PER_WEEK + 5);
}

#[test]
fn unrepresentable_results_fail() {
    assert!(matches!(
        from_gpst_seconds(i64::MAX, false),
        Err(GpstError::TimestampNano(_))
    ));
    assert!(matches!(
        from_gpst_seconds(i64::MIN, true),
        Err(GpstError::TimestampNano(_))
    ));
    assert!(matches!(
        from_gpst_seconds(1_000_000_000_000_000, false),
        Err(GpstError::TimestampNano(_))
    ));
    assert!(matches!(
        from_gpst(i64::MAX, 0, true),
        Err(GpstError::TimestampNano(_))
    ));
    assert!(matches!(
        from_gpst(1_000_000_000, 0, false),
        Err(GpstError::TimestampNano(_))
    ));
}

#[test]
fn instants_follow_chrono_range() {
    assert!(UtcTime::from_unix_seconds(0).is_some());
    assert!(UtcTime::from_unix_seconds(i64::MAX).is_none());
    assert!(UtcTime::from_unix_seconds(i64::MIN).is_none());
    let max = DateTime::<Utc>::MAX_UTC.timestamp();
    assert!(UtcTime::from_unix_seconds(max).is_some());
    assert!(UtcTime::from_unix_seconds(max + 1).is_none());
}

#[test]
fn renders_rfc3339() {
    let t = UtcTime::from_unix_seconds(GPS_EPOCH).unwrap();
    assert_eq!(t.to_rfc3339(), "1980-01-06T00:00:00+00:00");
    let t = UtcTime::from_unix_seconds(1106919000).unwrap();
    assert_eq!(t.to_rfc3339(), "2005-01-28T13:30:00+00:00");
}
