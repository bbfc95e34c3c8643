use actix_session::{Session, SessionExt};
use actix_web::test::TestRequest;
use chrono::{DateTime, Utc};
use session_guard::instant::{
    Timestamp, FIRST_SECOND, LAST_SECOND, LONGEST_SPAN_SECONDS, NANOS_PER_SECOND,
};
use session_guard::session::{expiry_from, SessionGuard};

fn container() -> Session {
    TestRequest::default().to_http_request().get_session()
}

/// Writes `at` as the expiry and tells whether it is read back as `at`.
fn survives(at: Timestamp) -> bool {
    let mut session = container();
    if session.expire_at(at).is_err() {
        return false;
    }
    let just_before = if at.nanos > 0 {
        Timestamp::new(at.secs, at.nanos - 1)
    } else {
        Timestamp::new(at.secs - 1, 1_999_999_999)
    };
    session.validate_at(at).unwrap() == false && session.validate_at(just_before).unwrap() == true
}

#[test]
fn calendar_bounds_are_those_of_the_date_library() {
    assert_eq!(FIRST_SECOND, DateTime::<Utc>::MIN_UTC.timestamp());
    assert_eq!(LAST_SECOND, DateTime::<Utc>::MAX_UTC.timestamp());
    assert_eq!(NANOS_PER_SECOND, 1_000_000_000);
    assert!(DateTime::from_timestamp(FIRST_SECOND, 0).is_some());
    assert!(DateTime::from_timestamp(FIRST_SECOND - 1, 0).is_none());
    assert!(DateTime::from_timestamp(LAST_SECOND, 999_999_999).is_some());
    assert!(DateTime::from_timestamp(LAST_SECOND + 1, 0).is_none());
}

#[test]
fn longest_span_is_that_of_the_date_library() {
    assert_eq!(LONGEST_SPAN_SECONDS, chrono::Duration::MAX.num_seconds());
    assert_eq!(LONGEST_SPAN_SECONDS, i64::MAX / 1000);
    assert!(chrono::Duration::try_minutes(LONGEST_SPAN_SECONDS / 60).is_some());
    assert!(chrono::Duration::try_minutes(LONGEST_SPAN_SECONDS / 60 + 1).is_none());
}

#[test]
fn in_calendar_agrees_with_the_date_library() {
    let seconds = [
        i64::MIN,
        FIRST_SECOND - 1,
        FIRST_SECOND,
        FIRST_SECOND + 59,
        -61,
        -60,
        -1,
        0,
        58,
        59,
        60,
        119,
        1_700_000_000,
        1_700_000_039,
        LAST_SECOND - 1,
        LAST_SECOND,
        LAST_SECOND + 1,
        i64::MAX,
    ];
    let nanos = [0, 1, 999_999_999, 1_000_000_000, 1_999_999_999, 2_000_000_000, u32::MAX];
    for secs in seconds {
        for n in nanos {
            assert_eq!(
                Timestamp::new(secs, n).in_calendar(),
                DateTime::from_timestamp(secs, n).is_some(),
                "{} {}",
                secs,
                n
            );
        }
    }
}

#[test]
fn in_calendar_on_chosen_values() {
    assert!(Timestamp::new(0, 0).in_calendar());
    assert!(Timestamp::new(59, 1_500_000_000).in_calendar());
    assert!(Timestamp::new(-1, 1_500_000_000).in_calendar());
    assert!(!Timestamp::new(60, 1_500_000_000).in_calendar());
    assert!(!Timestamp::new(59, 2_000_000_000).in_calendar());
    assert!(!Timestamp::new(FIRST_SECOND - 1, 0).in_calendar());
    assert!(!Timestamp::new(LAST_SECOND + 1, 0).in_calendar());
}

#[test]
fn later_instants_are_after_earlier_ones() {
    let a = Timestamp::new(10, 5);
    assert!(Timestamp::new(11, 0).is_after(&a));
    assert!(Timestamp::new(10, 6).is_after(&a));
    assert!(!Timestamp::new(10, 5).is_after(&a));
    assert!(!Timestamp::new(10, 4).is_after(&a));
    assert!(!Timestamp::new(9, 999_999_999).is_after(&a));
    assert!(Timestamp::new(-1, 0).is_after(&Timestamp::new(-2, 999_999_999)));
    assert!(!Timestamp::new(i64::MIN, 0).is_after(&Timestamp::new(i64::MAX, 0)));
}

#[test]
fn order_of_instants_is_that_of_the_date_library() {
    let points = [(-120, 7u32), (59, 999_999_999), (59, 1_000_000_000), (59, 1_999_999_999), (60, 0), (61, 3)];
    for (s1, n1) in points {
        for (s2, n2) in points {
            let ours = Timestamp::new(s1, n1).is_after(&Timestamp::new(s2, n2));
            let theirs =
                DateTime::from_timestamp(s1, n1).unwrap() > DateTime::from_timestamp(s2, n2).unwrap();
            assert_eq!(ours, theirs, "{} {} {} {}", s1, n1, s2, n2);
        }
    }
}

#[test]
fn timestamp_is_plain_data() {
    let at = Timestamp::new(7, 9);
    assert_eq!(at.secs, 7);
    assert_eq!(at.nanos, 9);
    let copy = at;
    assert_eq!(copy, at);
    assert_eq!(at.clone(), Timestamp { secs: 7, nanos: 9 });
    assert_ne!(at, Timestamp::new(7, 10));
}

#[test]
fn expiry_is_one_window_after_the_start() {
    assert_eq!(expiry_from(Timestamp::new(1_000_000, 5)), Some(Timestamp::new(1_086_400, 5)));
    assert_eq!(expiry_from(Timestamp::new(0, 0)), Some(Timestamp::new(86_400, 0)));
    assert_eq!(expiry_from(Timestamp::new(-86_400, 1)), Some(Timestamp::new(0, 1)));
    assert_eq!(
        expiry_from(Timestamp::new(1_700_000_000, 999_999_999)),
        Some(Timestamp::new(1_700_086_400, 999_999_999))
    );
}

#[test]
fn expiry_of_a_start_inside_a_leap_second_leaves_the_leap_second() {
    assert_eq!(
        expiry_from(Timestamp::new(59, 1_200_000_000)),
        Some(Timestamp::new(86_459, 200_000_000))
    );
    assert_eq!(expiry_from(Timestamp::new(59, 1_000_000_000)), Some(Timestamp::new(86_459, 0)));
    assert_eq!(
        expiry_from(Timestamp::new(-1, 1_999_999_999)),
        Some(Timestamp::new(86_399, 999_999_999))
    );
}

#[test]
fn expiry_is_the_sum_of_the_date_library() {
    for (secs, nanos) in [
        (0i64, 0u32),
        (59, 1_200_000_000),
        (1_700_000_000, 123_456_789),
        (-86_400, 1),
        (FIRST_SECOND, 0),
        (LAST_SECOND - 86_400, 999_999_999),
        (LAST_SECOND - 86_400, 1_999_999_999),
    ] {
        let sum = DateTime::from_timestamp(secs, nanos).unwrap() + chrono::Duration::minutes(1440);
        assert_eq!(
            expiry_from(Timestamp::new(secs, nanos)),
            Some(Timestamp::new(sum.timestamp(), sum.timestamp_subsec_nanos())),
            "{} {}",
            secs,
            nanos
        );
        assert_eq!(sum.timestamp(), secs + 86_400);
        assert_eq!(sum.timestamp_subsec_nanos(), nanos % 1_000_000_000);
    }
}

#[test]
fn expiry_off_the_calendar_is_none() {
    assert_eq!(
        expiry_from(Timestamp::new(LAST_SECOND - 86_400, 0)),
        Some(Timestamp::new(LAST_SECOND, 0))
    );
    assert_eq!(expiry_from(Timestamp::new(LAST_SECOND - 86_399, 0)), None);
    assert_eq!(expiry_from(Timestamp::new(LAST_SECOND, 0)), None);
    assert_eq!(expiry_from(Timestamp::new(i64::MAX, 0)), None);
    assert_eq!(expiry_from(Timestamp::new(i64::MIN, 0)), None);
    assert_eq!(expiry_from(Timestamp::new(FIRST_SECOND - 86_400, 0)), None);
    assert_eq!(expiry_from(Timestamp::new(FIRST_SECOND - 1, 0)), None);
    assert_eq!(
        expiry_from(Timestamp::new(FIRST_SECOND, 0)),
        Some(Timestamp::new(FIRST_SECOND + 86_400, 0))
    );
    assert_eq!(
        expiry_from(Timestamp::new(LAST_SECOND - 86_400, 1_999_999_999)),
        Some(Timestamp::new(LAST_SECOND, 999_999_999))
    );
    assert_eq!(expiry_from(Timestamp::new(LAST_SECOND - 86_340, 1_999_999_999)), None);
    assert_eq!(expiry_from(Timestamp::new(60, 1_000_000_000)), None);
    assert_eq!(expiry_from(Timestamp::new(59, 2_000_000_000)), None);
    assert_eq!(expiry_from(Timestamp::new(0, 1_000_000_000)), None);
    assert_eq!(expiry_from(Timestamp::new(0, u32::MAX)), None);
}

#[test]
fn instants_survive_the_container() {
    for at in [
        Timestamp::new(0, 0),
        Timestamp::new(0, 1),
        Timestamp::new(1_700_000_000, 0),
        Timestamp::new(1_700_000_000, 120_000_000),
        Timestamp::new(1_700_000_000, 120_300_000),
        Timestamp::new(1_700_000_000, 120_300_400),
        Timestamp::new(1_700_000_000, 999_999_999),
        Timestamp::new(-1, 999_999_999),
        Timestamp::new(-62_167_219_200, 0),
        Timestamp::new(-62_167_219_201, 5),
        Timestamp::new(253_402_300_799, 999_999_999),
        Timestamp::new(253_402_300_800, 0),
    ] {
        assert!(survives(at), "{:?}", at);
    }
}

#[test]
fn leap_seconds_survive_the_container() {
    assert!(survives(Timestamp::new(59, 1_000_000_000)));
    assert!(survives(Timestamp::new(59, 1_500_000_000)));
    assert!(survives(Timestamp::new(1_700_000_039, 1_999_999_999)));
    assert!(survives(Timestamp::new(-1, 1_250_000_000)));
}

#[test]
fn ends_of_the_calendar_survive_the_container() {
    assert!(survives(Timestamp::new(FIRST_SECOND, 1)));
    assert!(survives(Timestamp::new(FIRST_SECOND + 86_400, 0)));
    assert!(survives(Timestamp::new(LAST_SECOND, 999_999_999)));
    assert!(survives(Timestamp::new(LAST_SECOND, 1_999_999_999)));
    let mut session = container();
    assert!(session.expire_at(Timestamp::new(FIRST_SECOND, 0)).is_ok());
    assert_eq!(session.validate_at(Timestamp::new(FIRST_SECOND, 0)).unwrap(), false);
    assert_eq!(session.validate_at(Timestamp::new(i64::MIN, 0)).unwrap(), true);
}
