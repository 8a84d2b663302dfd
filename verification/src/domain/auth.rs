//! Sessions: when one is still valid, and when a user's `last_seen_at`
//! is due for a refresh. Instants are microseconds since the Unix epoch.

use vstd::prelude::*;

verus! {

/// How old a `last_seen_at` may be before it is refreshed again: 15
/// minutes, in microseconds.
pub const LAST_SEEN_STALE_AFTER: i64 = 900_000_000;

/// A login session as stored.
#[derive(Debug, Clone)]
pub struct Session {
    pub id: u128,
    pub user_id: u128,
    pub created_at: i64,
    pub expires_at: i64,
    pub revoked_at: Option<i64>,
}

/// Why a session is not valid.
#[derive(Debug, PartialEq, Eq, Structural, Clone, Copy)]
pub enum SessionError {
    Expired,
    Revoked,
}

/// Whether `session` may be used at instant `now`: a revoked session never
/// is (whatever its expiry), an unrevoked one is until it expires.
pub open spec fn session_validity(session: Session, now: i64) -> Result<(), SessionError> {
    if session.revoked_at is Some {
        Err(SessionError::Revoked)
    } else if session.expires_at <= now {
        Err(SessionError::Expired)
    } else {
        Ok(())
    }
}

/// Whether a `last_seen_at` is stale at `now`: missing (a first sign-in),
/// or older than `LAST_SEEN_STALE_AFTER`.
pub open spec fn last_seen_stale_at(last_seen_at: Option<i64>, now: i64) -> bool {
    match last_seen_at {
        None => true,
        Some(t) => now - t > LAST_SEEN_STALE_AFTER,
    }
}

impl Session {
    /// Checks the session at instant `now`.
    pub fn validate(&self, now: i64) -> (r: Result<(), SessionError>)
        ensures
            r == session_validity(*self, now),
            self.revoked_at is Some ==> r == Err::<(), SessionError>(SessionError::Revoked),
            self.revoked_at is None ==> (r is Ok <==> self.expires_at > now),
            self.revoked_at is None && self.expires_at <= now ==> r == Err::<(), SessionError>(
                SessionError::Expired,
            ),
    {
        if self.revoked_at.is_some() {
            return Err(SessionError::Revoked);
        }
        if self.expires_at <= now {
            return Err(SessionError::Expired);
        }
        Ok(())
    }
}

/// Reads the system clock with `chrono::Utc::now()`, as microseconds since
/// the Unix epoch. Nothing is claimed of the result: it is the time.
#[verifier::external_body]
fn current_time_micros() -> (now: i64) {
    chrono::Utc::now().timestamp_micros()
}

/// Whether `last_seen_at` is stale at instant `now`.
pub fn is_last_seen_stale_at(last_seen_at: Option<i64>, now: i64) -> (b: bool)
    ensures
        b == last_seen_stale_at(last_seen_at, now),
{
    match last_seen_at {
        None => true,
        Some(t) => (now as i128) - (t as i128) > (LAST_SEEN_STALE_AFTER as i128),
    }
}

/// Whether `last_seen_at` is stale now, by the system clock: the answer is
/// `last_seen_stale_at` at the instant the clock reads (which instant that
/// is, only the clock knows). A missing `last_seen_at` always is stale.
pub fn is_last_seen_stale(last_seen_at: Option<i64>) -> (b: bool)
    ensures
        exists|now: i64| b == #[trigger] last_seen_stale_at(last_seen_at, now),
        last_seen_at is None ==> b,
{
    let now: i64 = current_time_micros();
    let b: bool = is_last_seen_stale_at(last_seen_at, now);
    assert(b == last_seen_stale_at(last_seen_at, now));
    b
}

/// A session that is invalid at some instant stays invalid at every later
/// instant, and for the same reason.
pub proof fn lemma_invalid_session_stays_invalid(session: Session, now: i64, later: i64)
    requires
        now <= later,
        session_validity(session, now) is Err,
    ensures
        session_validity(session, later) == session_validity(session, now),
{
}

/// An unrevoked session is accepted exactly until it expires, however old
/// it is: at every instant before `expires_at` it is valid, and from
/// `expires_at` on it is refused as expired.
pub proof fn law_unrevoked_session_valid_until_expiry(session: Session, now: i64)
    requires
        session.revoked_at is None,
    ensures
        session.expires_at > now ==> session_validity(session, now) == Ok::<(), SessionError>(()),
        session.expires_at <= now ==> session_validity(session, now) == Err::<(), SessionError>(
            SessionError::Expired,
        ),
{
}

/// A revoked session is refused at every instant, expired or not.
pub proof fn lemma_revoked_session_always_refused(session: Session, now: i64)
    requires
        session.revoked_at is Some,
    ensures
        session_validity(session, now) == Err::<(), SessionError>(SessionError::Revoked),
{
}

/// A stale `last_seen_at` stays stale as time goes on.
pub proof fn lemma_staleness_persists(last_seen_at: Option<i64>, now: i64, later: i64)
    requires
        now <= later,
        last_seen_stale_at(last_seen_at, now),
    ensures
        last_seen_stale_at(last_seen_at, later),
{
}

} // verus!
