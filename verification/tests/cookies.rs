use wrywebview::cookie::{
    join_millis, split_millis, CookieRecord, Expiry, SameSite, StoredCookie, MILLIS_PER_SEC,
    NANOS_PER_MILLI, NANOS_PER_SEC,
};

fn session_cookie() -> CookieRecord {
    CookieRecord {
        name: "sid".to_string(),
        value: "abc123".to_string(),
        domain: Some("example.com".to_string()),
        path: Some("/".to_string()),
        expires_at_ms: Some(1_700_000_000_123),
        session_only: true,
        max_age_secs: None,
        same_site: Some(SameSite::Strict),
        secure: Some(true),
        http_only: Some(true),
    }
}

fn dated_cookie(expires_at_ms: i64) -> CookieRecord {
    CookieRecord {
        name: "theme".to_string(),
        value: "dark".to_string(),
        domain: None,
        path: Some("/app".to_string()),
        expires_at_ms: Some(expires_at_ms),
        session_only: false,
        max_age_secs: Some(3600),
        same_site: Some(SameSite::Lax),
        secure: None,
        http_only: Some(false),
    }
}

#[test]
fn time_units_are_consistent() {
    assert_eq!(MILLIS_PER_SEC, 1000);
    assert_eq!(NANOS_PER_MILLI, 1_000_000);
    assert_eq!(NANOS_PER_SEC, 1_000_000_000);
}

#[test]
fn split_millis_rounds_seconds_down() {
    assert_eq!(split_millis(0), (0, 0));
    assert_eq!(split_millis(999), (0, 999_000_000));
    assert_eq!(split_millis(1000), (1, 0));
    assert_eq!(split_millis(1500), (1, 500_000_000));
    assert_eq!(split_millis(1_700_000_000_123), (1_700_000_000, 123_000_000));
    assert_eq!(split_millis(-1), (-1, 999_000_000));
    assert_eq!(split_millis(-1000), (-1, 0));
    assert_eq!(split_millis(-1001), (-2, 999_000_000));
    assert_eq!(split_millis(i64::MAX), (9_223_372_036_854_775, 807_000_000));
    assert_eq!(split_millis(i64::MIN), (-9_223_372_036_854_776, 192_000_000));
}

#[test]
fn join_millis_drops_what_is_finer_than_a_millisecond() {
    assert_eq!(join_millis(0, 0), Some(0));
    assert_eq!(join_millis(1, 500_000_000), Some(1500));
    assert_eq!(join_millis(1, 500_999_999), Some(1500));
    assert_eq!(join_millis(-1, 999_000_000), Some(-1));
    assert_eq!(join_millis(-2, 0), Some(-2000));
    assert_eq!(join_millis(2, u32::MAX), Some(2000 + 4294));
}

#[test]
fn join_millis_refuses_what_does_not_fit() {
    assert_eq!(join_millis(i64::MAX, 0), None);
    assert_eq!(join_millis(i64::MIN, 0), None);
    assert_eq!(join_millis(9_223_372_036_854_775, 807_000_000), Some(i64::MAX));
    assert_eq!(join_millis(9_223_372_036_854_775, 808_000_000), None);
    assert_eq!(join_millis(-9_223_372_036_854_776, 192_000_000), Some(i64::MIN));
    assert_eq!(join_millis(-9_223_372_036_854_776, 191_999_999), None);
}

#[test]
fn instants_survive_split_and_join() {
    for ms in [0, 1, -1, 999, 1000, -999, -1000, 1_700_000_000_123, i64::MAX, i64::MIN] {
        let (secs, nanos) = split_millis(ms);
        assert!(nanos < NANOS_PER_SEC);
        assert_eq!(join_millis(secs, nanos), Some(ms));
    }
}

#[test]
fn dated_cookie_is_stored_with_its_instant() {
    let stored = dated_cookie(-1).into_stored();
    assert_eq!(
        stored,
        StoredCookie {
            name: "theme".to_string(),
            value: "dark".to_string(),
            domain: None,
            path: Some("/app".to_string()),
            expiry: Expiry::At { secs: -1, nanos: 999_000_000 },
            max_age_secs: Some(3600),
            same_site: Some(SameSite::Lax),
            secure: None,
            http_only: Some(false),
        }
    );
}

#[test]
fn session_cookie_is_stored_without_a_date() {
    assert_eq!(session_cookie().into_stored().expiry, Expiry::Session);
    let undated = CookieRecord { expires_at_ms: None, ..dated_cookie(0) };
    assert_eq!(undated.into_stored().expiry, Expiry::Unset);
}

#[test]
fn cookie_round_trip_keeps_name_value_and_policy() {
    for original in [dated_cookie(1_700_000_000_123), dated_cookie(-5), dated_cookie(i64::MAX)] {
        let back = CookieRecord::from_stored(original.clone().into_stored());
        assert_eq!(back, original);
    }
    let session = session_cookie();
    let back = CookieRecord::from_stored(session.clone().into_stored());
    assert_eq!(back.name, session.name);
    assert_eq!(back.value, session.value);
    assert_eq!(back.same_site, session.same_site);
    assert!(back.session_only);
    assert_eq!(back.expires_at_ms, None);
    assert_eq!(back, CookieRecord { expires_at_ms: None, ..session });
}

#[test]
fn stored_cookie_is_shown_with_millisecond_precision() {
    let stored = StoredCookie {
        name: "n".to_string(),
        value: "v".to_string(),
        domain: None,
        path: None,
        expiry: Expiry::At { secs: 10, nanos: 1_999_999 },
        max_age_secs: None,
        same_site: Some(SameSite::Unrestricted),
        secure: None,
        http_only: None,
    };
    let shown = CookieRecord::from_stored(stored.clone());
    assert_eq!(shown.expires_at_ms, Some(10_001));
    assert!(!shown.session_only);
    assert_eq!(shown.same_site, Some(SameSite::Unrestricted));
    let far = StoredCookie { expiry: Expiry::At { secs: i64::MAX, nanos: 0 }, ..stored.clone() };
    assert_eq!(CookieRecord::from_stored(far).expires_at_ms, None);
    let session = StoredCookie { expiry: Expiry::Session, ..stored };
    let shown = CookieRecord::from_stored(session);
    assert!(shown.session_only);
    assert_eq!(shown.expires_at_ms, None);
}
