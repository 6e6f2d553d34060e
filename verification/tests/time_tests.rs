use chrono::{DateTime, TimeZone, Utc};
use snitch::schedule::CronSchedule;
use snitch::time::{
    distance_nanos, format_rfc3339, read_rfc3339, utc_now, within_seconds, closer_than_seconds,
    Timestamp, MAX_SECS, MIN_SECS,
};

#[test]
fn range_constants_match_chrono() {
    assert_eq!(DateTime::<Utc>::MAX_UTC.timestamp(), MAX_SECS);
    assert_eq!(DateTime::<Utc>::MIN_UTC.timestamp(), MIN_SECS);
}

#[test]
fn ordering_and_distances() {
    let a = Timestamp { secs: 10, nanos: 999_999_999 };
    let b = Timestamp { secs: 11, nanos: 0 };
    assert!(a.before(&b));
    assert!(a.not_after(&b));
    assert!(!b.not_after(&a));
    assert!(a.not_after(&a));
    assert!(!a.before(&a));
    assert_eq!(distance_nanos(&a, &b), 1);
    assert_eq!(distance_nanos(&b, &a), 1);
    let c = Timestamp { secs: -5, nanos: 500_000_000 };
    assert_eq!(distance_nanos(&b, &c), 15_500_000_000);
    assert!(within_seconds(&Timestamp { secs: 0, nanos: 0 }, &Timestamp { secs: 10, nanos: 0 }, 10));
    assert!(!closer_than_seconds(&Timestamp { secs: 0, nanos: 0 }, &Timestamp { secs: 10, nanos: 0 }, 10));
    assert!(!within_seconds(&Timestamp { secs: 0, nanos: 0 }, &Timestamp { secs: 10, nanos: 1 }, 10));
    assert!(Timestamp { secs: MAX_SECS, nanos: 999_999_999 }.is_valid());
    assert!(!Timestamp { secs: 0, nanos: 1_000_000_000 }.is_valid());
    assert!(!Timestamp { secs: MIN_SECS - 1, nanos: 0 }.is_valid());
}

#[test]
fn rfc3339_text_round_trips() {
    let t = Timestamp { secs: 1_609_459_200, nanos: 5_000_000 };
    let text = format_rfc3339(&t);
    assert_eq!(text, "2021-01-01T00:00:00.005+00:00");
    assert_eq!(read_rfc3339(&text), Some(t));
    assert_eq!(read_rfc3339("2021-01-01 01:00:00+01:00"), Some(Timestamp { secs: 1_609_459_200, nanos: 0 }));
    // a leap second reads as the instant that far after the next whole second
    assert_eq!(read_rfc3339("2016-12-31T23:59:60.250Z"), Some(Timestamp { secs: 1_483_228_800, nanos: 250_000_000 }));
    assert_eq!(read_rfc3339("garbage"), None);
}

#[test]
fn rfc3339_text_round_trips_signed_years() {
    for t in [
        Timestamp { secs: MAX_SECS, nanos: 999_999_999 },
        Timestamp { secs: MIN_SECS, nanos: 0 },
        Timestamp { secs: 253_402_300_800, nanos: 1 },
        Timestamp { secs: -62_167_219_201, nanos: 500 },
    ] {
        let text = format_rfc3339(&t);
        assert!(text.starts_with('+') || text.starts_with('-'));
        assert_eq!(read_rfc3339(&text), Some(t));
    }
}

#[test]
fn clock_reads_present() {
    let now = utc_now();
    assert!(now.is_valid());
    assert!(now.secs > 1_600_000_000);
    assert!((Utc::now().timestamp() - now.secs).abs() < 60);
}

#[test]
fn cron_schedules_parse_and_fire() {
    assert!(CronSchedule::parse("bad").is_none());
    let schedule = CronSchedule::parse("0 30 9 * * Mon *").unwrap();
    assert_eq!(schedule.expression(), "0 30 9 * * Mon *");
    // 2021-01-01 was a Friday; the next Monday 09:30:00 is 2021-01-04.
    let start = Timestamp { secs: 1_609_459_200, nanos: 0 };
    let next = schedule.next_after(&start).unwrap();
    assert_eq!(next, Timestamp { secs: Utc.with_ymd_and_hms(2021, 1, 4, 9, 30, 0).unwrap().timestamp(), nanos: 0 });
    let copy = schedule.clone();
    assert_eq!(copy.expression(), schedule.expression());
    assert_eq!(copy.next_after(&start), Some(next));
}
