use edgedb_protocol::model::{Datetime, Duration, Uuid};
use time_tracker::error::Error;
use time_tracker::ident::UserId;
use time_tracker::time::{
    duration_display, floor_to_seconds, Timestamp, MAX_UNIX_MICROS, MIN_UNIX_MICROS,
};

#[test]
fn ninety_point_seven_seconds_floor_to_ninety() {
    assert_eq!(floor_to_seconds(90_700_000), 90_000_000);
    assert_eq!(duration_display(90_700_000), "0:01:30");
}

#[test]
fn flooring_never_rounds_up() {
    assert_eq!(floor_to_seconds(999_999), 0);
    assert_eq!(floor_to_seconds(1_000_000), 1_000_000);
    assert_eq!(floor_to_seconds(1_999_999), 1_000_000);
    assert_eq!(floor_to_seconds(0), 0);
}

#[test]
fn flooring_a_negative_span_discards_toward_zero() {
    assert_eq!(floor_to_seconds(-1), 0);
    assert_eq!(floor_to_seconds(-90_700_000), -90_000_000);
    assert_eq!(floor_to_seconds(-1_000_000), -1_000_000);
    assert_eq!(duration_display(-90_700_000), "-0:01:30");
}

#[test]
fn flooring_at_the_limits_of_the_span() {
    assert_eq!(floor_to_seconds(i64::MAX), 9_223_372_036_854_000_000);
    assert_eq!(floor_to_seconds(i64::MIN), -9_223_372_036_854_000_000);
    assert_eq!(floor_to_seconds(i64::MIN + 1), -9_223_372_036_854_000_000);
    assert_eq!(duration_display(i64::MIN), "-2562047788:00:54");
    assert_eq!(duration_display(i64::MAX), "2562047788:00:54");
}

#[test]
fn flooring_agrees_with_the_remainder() {
    let spans: [i64; 6] = [0, 1, 59_999_999, 60_000_000, 3_600_000_001, 86_399_999_999];
    for span in spans {
        assert_eq!(floor_to_seconds(span), span - span % 1_000_000);
    }
}

#[test]
fn a_span_is_shown_as_hours_minutes_seconds() {
    assert_eq!(duration_display(0), "0:00:00");
    assert_eq!(duration_display(1_000_000), "0:00:01");
    assert_eq!(duration_display(59_000_000), "0:00:59");
    assert_eq!(duration_display(60_000_000), "0:01:00");
    assert_eq!(duration_display(3_599_000_000), "0:59:59");
    assert_eq!(duration_display(3_600_000_000), "1:00:00");
    assert_eq!(duration_display(12_345_678_000_000), "3429:21:18");
    assert_eq!(duration_display(7_015_000), "0:00:07");
}

#[test]
fn a_span_is_shown_as_the_store_types_show_it() {
    let spans: [i64; 5] = [0, 90_000_000, -90_000_000, 360_000_000_000, 12_345_678_000_000];
    for span in spans {
        assert_eq!(duration_display(span), Duration::from_micros(span).to_string());
    }
}

#[test]
fn a_timestamp_keeps_its_microseconds() {
    let t = Timestamp::from_unix_micros(1_700_000_000_123_456).unwrap();
    assert_eq!(t.unix_micros(), 1_700_000_000_123_456);
    let epoch = Timestamp::from_unix_micros(0).unwrap();
    assert_eq!(epoch.unix_micros(), 0);
    assert_eq!(t.micros_since(epoch), 1_700_000_000_123_456);
    assert_eq!(epoch.micros_since(t), -1_700_000_000_123_456);
}

#[test]
fn a_timestamp_outside_the_range_is_refused() {
    assert!(Timestamp::from_unix_micros(MIN_UNIX_MICROS).is_some());
    assert!(Timestamp::from_unix_micros(MAX_UNIX_MICROS).is_some());
    assert!(Timestamp::from_unix_micros(MIN_UNIX_MICROS - 1).is_none());
    assert!(Timestamp::from_unix_micros(MAX_UNIX_MICROS + 1).is_none());
    assert!(Timestamp::from_unix_micros(i64::MIN).is_none());
    assert!(Timestamp::from_unix_micros(i64::MAX).is_none());
}

#[test]
fn the_range_is_the_range_of_the_store_type() {
    assert_eq!(Datetime::MIN.to_unix_micros(), MIN_UNIX_MICROS);
    assert_eq!(Datetime::MAX.to_unix_micros(), MAX_UNIX_MICROS);
    assert!(Datetime::try_from_unix_micros(MIN_UNIX_MICROS - 1).is_err());
    assert!(Datetime::try_from_unix_micros(MAX_UNIX_MICROS + 1).is_err());
}

#[test]
fn a_timestamp_is_shown_in_utc() {
    let epoch = Timestamp::from_unix_micros(0).unwrap();
    assert_eq!(epoch.to_text(), "1970-01-01 00:00:00 UTC");
    let first = Timestamp::from_unix_micros(MIN_UNIX_MICROS).unwrap();
    assert_eq!(first.to_text(), "0001-01-01 00:00:00 UTC");
    let last = Timestamp::from_unix_micros(MAX_UNIX_MICROS).unwrap();
    assert_eq!(last.to_text(), "9999-12-31 23:59:59.999999 UTC");
    let some = Timestamp::from_unix_micros(1_700_000_000_123_456).unwrap();
    assert_eq!(some.to_text(), "2023-11-14 22:13:20.123456 UTC");
}

#[test]
fn span_between_the_ends_of_the_range_fits() {
    let first = Timestamp::from_unix_micros(MIN_UNIX_MICROS).unwrap();
    let last = Timestamp::from_unix_micros(MAX_UNIX_MICROS).unwrap();
    assert_eq!(last.micros_since(first), 315_537_897_599_999_999);
    assert_eq!(first.micros_since(last), -315_537_897_599_999_999);
}

#[test]
fn a_user_id_is_written_hyphenated_in_lower_case() {
    let user = UserId(0xa1a2a3a4b1b2c1c2d1d2d3d4d5d6d7d8);
    assert_eq!(user.to_text(), "a1a2a3a4-b1b2-c1c2-d1d2-d3d4d5d6d7d8");
    assert_eq!(UserId(0).to_text(), "00000000-0000-0000-0000-000000000000");
    assert_eq!(UserId(1).to_text(), "00000000-0000-0000-0000-000000000001");
    assert_eq!(UserId(u128::MAX).to_text(), "ffffffff-ffff-ffff-ffff-ffffffffffff");
    assert_eq!(
        UserId(0x0123456789abcdef0123456789abcdef).to_text(),
        "01234567-89ab-cdef-0123-456789abcdef"
    );
}

#[test]
fn a_user_id_is_read_back_from_its_text() {
    let ids: [u128; 4] = [0, 1, 0xa1a2a3a4b1b2c1c2d1d2d3d4d5d6d7d8, u128::MAX];
    for id in ids {
        let user = UserId(id);
        assert_eq!(UserId::parse(&user.to_text()), Some(user));
    }
}

#[test]
fn a_user_id_is_read_as_the_store_type_reads_it() {
    let text = "550e8400-e29b-41d4-a716-446655440000";
    let expected = text.parse::<Uuid>().unwrap().as_u128();
    assert_eq!(UserId::parse(text), Some(UserId(expected)));
    assert_eq!(expected, 0x550e8400e29b41d4a716446655440000);
    assert_eq!(UserId::parse("550E8400-E29B-41D4-A716-446655440000"), Some(UserId(expected)));
    assert_eq!(UserId::parse("550e8400e29b41d4a716446655440000"), Some(UserId(expected)));
}

#[test]
fn a_malformed_user_id_is_not_read() {
    assert_eq!(UserId::parse(""), None);
    assert_eq!(UserId::parse("not an identifier"), None);
    assert_eq!(UserId::parse("550e8400-e29b-41d4-a716-44665544000"), None);
    assert_eq!(UserId::parse("550e8400-e29b-41d4-a716-44665544000g"), None);
    assert_eq!(UserId::from_parsed(None), None);
    assert_eq!(UserId::from_parsed(Some(7)), Some(UserId(7)));
}

#[test]
fn every_error_has_its_message() {
    assert_eq!(Error::NotLoggedIn.message(), "Not logged in. Run `tte login`.");
    assert_eq!(
        Error::AccountDeleted.message(),
        "Your account has been deleted. Create new account by running `tte login`."
    );
    assert_eq!(Error::ProjectNotFound.message(), "project not found");
    assert_eq!(Error::AmbiguousProject.message(), "multiple projects with that name");
    assert_eq!(Error::StoreUnavailable.message(), "The store could not be reached.");
    assert_eq!(
        Error::ConfigIOError.message(),
        "The session record could not be read or written."
    );
}
