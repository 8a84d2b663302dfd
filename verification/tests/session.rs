use chrono::{Duration, Utc};
use makrust::domain::auth::{is_last_seen_stale, is_last_seen_stale_at, Session, SessionError};

fn micros(t: chrono::DateTime<Utc>) -> i64 {
    t.timestamp_micros()
}

#[test]
fn none_is_stale() {
    assert!(is_last_seen_stale(None));
}

#[test]
fn recent_is_not_stale() {
    assert!(!is_last_seen_stale(Some(micros(Utc::now() - Duration::minutes(5)))));
}

#[test]
fn older_than_threshold_is_stale() {
    assert!(is_last_seen_stale(Some(micros(Utc::now() - Duration::minutes(35)))));
}

fn sample(expires_at: chrono::DateTime<Utc>, revoked_at: Option<chrono::DateTime<Utc>>) -> Session {
    Session {
        id: 0,
        user_id: 0,
        created_at: micros(Utc::now()),
        expires_at: micros(expires_at),
        revoked_at: revoked_at.map(micros),
    }
}

#[test]
fn session_is_valid() {
    let now = Utc::now();
    // Expires a day from now, it's not revoked
    assert!(sample(now + Duration::days(1), None).validate(micros(now)).is_ok());
}

#[test]
fn expired_session_is_not_valid() {
    let now = Utc::now();
    assert_eq!(
        sample(now - Duration::seconds(1), None).validate(micros(now)),
        Err(SessionError::Expired)
    );
}

#[test]
fn revoked_session_is_not_valid() {
    let now = Utc::now();
    // not expired, but it's revoked
    assert_eq!(
        sample(now + Duration::days(1), Some(now)).validate(micros(now)),
        Err(SessionError::Revoked)
    );
}

#[test]
fn a_session_expiring_exactly_now_is_expired() {
    let s = Session { id: 1, user_id: 2, created_at: 0, expires_at: 100, revoked_at: None };
    assert_eq!(s.validate(100), Err(SessionError::Expired));
    assert_eq!(s.validate(99), Ok(()));
}

#[test]
fn revocation_wins_over_expiry() {
    let s = Session { id: 1, user_id: 2, created_at: 0, expires_at: 100, revoked_at: Some(50) };
    assert_eq!(s.validate(200), Err(SessionError::Revoked));
}

#[test]
fn staleness_threshold_is_fifteen_minutes() {
    let fifteen_minutes: i64 = 15 * 60 * 1_000_000;
    assert!(is_last_seen_stale_at(Some(0), fifteen_minutes + 1));
    assert!(!is_last_seen_stale_at(Some(0), fifteen_minutes));
    assert!(is_last_seen_stale_at(Some(0), 20 * 60 * 1_000_000));
    assert!(is_last_seen_stale_at(None, 0));
    assert!(is_last_seen_stale_at(Some(i64::MIN), i64::MAX));
    assert!(!is_last_seen_stale_at(Some(i64::MAX), i64::MIN));
}
