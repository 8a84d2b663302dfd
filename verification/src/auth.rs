//! Authentication of a request by its session cookie.

use vstd::prelude::*;
use crate::domain::auth::{last_seen_stale_at, session_validity, Session, is_last_seen_stale_at};
use crate::status::{INTERNAL_SERVER_ERROR, UNAUTHORIZED};

verus! {

/// The cookie that carries the session id.
pub const SESSION_COOKIE_NAME: &'static str = "session_id";

/// The header that carries the client's address behind proxies.
pub const IP_ADDRESS_HEADER: &'static str = "x-forwarded-for";

/// The user a request was authenticated as.
#[derive(Debug, Clone)]
pub struct AuthenticatedUser {
    pub id: u128,
    pub username: String,
}

/// A session joined with its user, as looked up by session id.
#[derive(Debug, Clone)]
pub struct SessionRow {
    pub session_id: u128,
    pub user_id: u128,
    pub session_created_at: i64,
    pub expires_at: i64,
    pub revoked_at: Option<i64>,
    pub username: String,
    pub last_seen_at: Option<i64>,
}

/// What looking a session up gave.
#[derive(Debug, Clone)]
pub enum SessionLookup {
    /// The lookup itself failed.
    Failed,
    /// No session has that id.
    Missing,
    Found(SessionRow),
}

/// Whether a request is authenticated, and whether the user's
/// `last_seen_at` is to be refreshed.
#[derive(Debug, Clone)]
pub enum AuthDecision {
    /// Refused, with this status.
    Reject(u16),
    Accept { user: AuthenticatedUser, refresh_last_seen: bool },
}

/// The 128-bit value of the UUID that `text` spells, as
/// `uuid::Uuid::parse_str` reads it, or `None` where it spells none.
pub uninterp spec fn uuid_value(text: Seq<char>) -> Option<u128>;

/// Whether `text` has one of the lengths a UUID text can have: 32 (plain
/// hex), 36 (hyphenated), 38 (braced) or 45 (URN) characters.
pub open spec fn has_uuid_text_length(text: Seq<char>) -> bool {
    text.len() == 32 || text.len() == 36 || text.len() == 38 || text.len() == 45
}

/// Calls `Uuid::parse_str` (`sqlx::types::Uuid`). Trusted: the result is
/// `uuid_value(text@)`; and, as its source shows, a text is read only where
/// it is 32, 36, 38 or 45 bytes long, all of them ASCII (hex digits,
/// hyphens, braces, the `urn:uuid:` prefix), so as many characters.
#[verifier::external_body]
fn parse_uuid(text: &str) -> (r: Option<u128>)
    ensures
        r == uuid_value(text@),
        r is None || has_uuid_text_length(text@),
{
    match sqlx::types::Uuid::parse_str(text) {
        Ok(id) => Some(id.as_u128()),
        Err(_) => None,
    }
}

/// The session id a session cookie's value names, or `UNAUTHORIZED` where
/// the cookie is missing or is no UUID.
pub fn session_id_from_cookie(cookie: Option<&str>) -> (r: Result<u128, u16>)
    ensures
        cookie is None ==> r == Err::<u128, u16>(UNAUTHORIZED),
        cookie matches Some(c) ==> r == match uuid_value(c@) {
            Some(id) => Ok::<u128, u16>(id),
            None => Err::<u128, u16>(UNAUTHORIZED),
        },
        cookie matches Some(c) && !has_uuid_text_length(c@) ==> r == Err::<u128, u16>(
            UNAUTHORIZED,
        ),
{
    match cookie {
        None => Err(UNAUTHORIZED),
        Some(c) => match parse_uuid(c) {
            Some(id) => Ok(id),
            None => Err(UNAUTHORIZED),
        },
    }
}

/// The session part of a row.
pub open spec fn session_of_row(row: SessionRow) -> Session {
    Session {
        id: row.session_id,
        user_id: row.user_id,
        created_at: row.session_created_at,
        expires_at: row.expires_at,
        revoked_at: row.revoked_at,
    }
}

/// The decision on a session lookup at instant `now`: a failed lookup is a
/// server error; a missing, revoked or expired session is unauthorized; a
/// valid one authenticates its user, whose `last_seen_at` is refreshed when
/// stale.
pub open spec fn authentication_decision(lookup: SessionLookup, now: i64) -> AuthDecision {
    match lookup {
        SessionLookup::Failed => AuthDecision::Reject(INTERNAL_SERVER_ERROR),
        SessionLookup::Missing => AuthDecision::Reject(UNAUTHORIZED),
        SessionLookup::Found(row) => if session_validity(session_of_row(row), now) is Err {
            AuthDecision::Reject(UNAUTHORIZED)
        } else {
            AuthDecision::Accept {
                user: AuthenticatedUser { id: row.user_id, username: row.username },
                refresh_last_seen: last_seen_stale_at(row.last_seen_at, now),
            }
        },
    }
}

impl AuthenticatedUser {
    /// Decides on a request from the lookup of its session at instant `now`.
    pub fn from_session_lookup(lookup: SessionLookup, now: i64) -> (d: AuthDecision)
        ensures
            d == authentication_decision(lookup, now),
            lookup is Found && lookup->Found_0.revoked_at is None && lookup->Found_0.expires_at
                > now ==> (d is Accept && d->user.id == lookup->Found_0.user_id && d->user.username
                == lookup->Found_0.username),
            lookup is Found && (lookup->Found_0.revoked_at is Some || lookup->Found_0.expires_at
                <= now) ==> d == AuthDecision::Reject(UNAUTHORIZED),
    {
        match lookup {
            SessionLookup::Failed => AuthDecision::Reject(INTERNAL_SERVER_ERROR),
            SessionLookup::Missing => AuthDecision::Reject(UNAUTHORIZED),
            SessionLookup::Found(row) => {
                let session = Session {
                    id: row.session_id,
                    user_id: row.user_id,
                    created_at: row.session_created_at,
                    expires_at: row.expires_at,
                    revoked_at: row.revoked_at,
                };
                if session.validate(now).is_err() {
                    return AuthDecision::Reject(UNAUTHORIZED);
                }
                let refresh_last_seen = is_last_seen_stale_at(row.last_seen_at, now);
                AuthDecision::Accept {
                    user: AuthenticatedUser { id: row.user_id, username: row.username },
                    refresh_last_seen,
                }
            },
        }
    }
}

/// A request is authenticated only through a session that is unrevoked and
/// unexpired at that instant, and then as the session's own user.
pub proof fn lemma_accepted_sessions_are_live(lookup: SessionLookup, now: i64)
    requires
        authentication_decision(lookup, now) is Accept,
    ensures
        lookup matches SessionLookup::Found(row) && row.revoked_at is None && row.expires_at
            > now && authentication_decision(lookup, now)->user.id == row.user_id
            && authentication_decision(lookup, now)->user.username == row.username,
{
}

/// A request whose session is unrevoked and unexpired at that instant is
/// authenticated as the session's user, whatever the session's age or
/// lifetime; its `last_seen_at` is refreshed exactly when stale.
pub proof fn law_live_sessions_are_accepted(row: SessionRow, now: i64)
    requires
        row.revoked_at is None,
        row.expires_at > now,
    ensures
        authentication_decision(SessionLookup::Found(row), now) matches AuthDecision::Accept {
            user,
            refresh_last_seen,
        } && user.id == row.user_id && user.username == row.username && refresh_last_seen
            == last_seen_stale_at(row.last_seen_at, now),
{
}

/// A refused request is answered 401, or 500 where the lookup failed.
pub proof fn lemma_rejections_are_unauthorized_or_server_errors(lookup: SessionLookup, now: i64)
    requires
        authentication_decision(lookup, now) is Reject,
    ensures
        authentication_decision(lookup, now)->Reject_0 == UNAUTHORIZED || (lookup is Failed
            && authentication_decision(lookup, now)->Reject_0 == INTERNAL_SERVER_ERROR),
{
}

} // verus!
