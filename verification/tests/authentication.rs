use makrust::auth::{
    session_id_from_cookie, AuthDecision, AuthenticatedUser, SessionLookup, SessionRow,
    SESSION_COOKIE_NAME,
};

fn row(expires_at: i64, revoked_at: Option<i64>, last_seen_at: Option<i64>) -> SessionRow {
    SessionRow {
        session_id: 7,
        user_id: 42,
        session_created_at: 0,
        expires_at,
        revoked_at,
        username: "thaiChessMaster".to_string(),
        last_seen_at,
    }
}

#[test]
fn cookie_name_is_session_id() {
    assert_eq!(SESSION_COOKIE_NAME, "session_id");
}

#[test]
fn a_uuid_cookie_names_its_session() {
    assert_eq!(
        session_id_from_cookie(Some("67e55044-10b1-426f-9247-bb680e5fe0c8")),
        Ok(0x67e5504410b1426f9247bb680e5fe0c8u128)
    );
}

#[test]
fn a_missing_or_garbage_cookie_is_unauthorized() {
    assert_eq!(session_id_from_cookie(None), Err(401));
    assert_eq!(session_id_from_cookie(Some("not-a-uuid")), Err(401));
    assert_eq!(session_id_from_cookie(Some("")), Err(401));
}

#[test]
fn a_valid_session_authenticates_its_user() {
    let now = 1_000_000_000;
    match AuthenticatedUser::from_session_lookup(SessionLookup::Found(row(now + 1, None, Some(now))), now) {
        AuthDecision::Accept { user, refresh_last_seen } => {
            assert_eq!(user.id, 42);
            assert_eq!(user.username, "thaiChessMaster");
            assert!(!refresh_last_seen);
        }
        AuthDecision::Reject(_) => panic!("a valid session is accepted"),
    }
}

#[test]
fn a_stale_last_seen_is_refreshed() {
    let now = 10_000_000_000;
    let stale = now - 15 * 60 * 1_000_000 - 1;
    match AuthenticatedUser::from_session_lookup(SessionLookup::Found(row(now + 1, None, Some(stale))), now) {
        AuthDecision::Accept { refresh_last_seen, .. } => assert!(refresh_last_seen),
        AuthDecision::Reject(_) => panic!("a valid session is accepted"),
    }
    match AuthenticatedUser::from_session_lookup(SessionLookup::Found(row(now + 1, None, None)), now) {
        AuthDecision::Accept { refresh_last_seen, .. } => assert!(refresh_last_seen),
        AuthDecision::Reject(_) => panic!("a valid session is accepted"),
    }
}

#[test]
fn expired_revoked_missing_and_failed_lookups_are_refused() {
    let now = 1_000;
    let expired = AuthenticatedUser::from_session_lookup(SessionLookup::Found(row(now - 60, None, None)), now);
    assert!(matches!(expired, AuthDecision::Reject(401)));
    let revoked = AuthenticatedUser::from_session_lookup(SessionLookup::Found(row(now + 60, Some(now), None)), now);
    assert!(matches!(revoked, AuthDecision::Reject(401)));
    assert!(matches!(AuthenticatedUser::from_session_lookup(SessionLookup::Missing, now), AuthDecision::Reject(401)));
    assert!(matches!(AuthenticatedUser::from_session_lookup(SessionLookup::Failed, now), AuthDecision::Reject(500)));
}

#[test]
fn a_cookie_of_the_wrong_length_is_unauthorized() {
    assert_eq!(session_id_from_cookie(Some("67e55044-10b1-426f-9247-bb680e5fe0c")), Err(401));
    assert_eq!(
        session_id_from_cookie(Some("{67e55044-10b1-426f-9247-bb680e5fe0c8}")),
        Ok(0x67e5504410b1426f9247bb680e5fe0c8u128)
    );
}
