//! The decisions of the HTTP handlers: how sign-up, sign-in, sign-out,
//! user lookups and e-mail sending answer each outcome of their steps.

use vstd::prelude::*;
use crate::domain::email::EmailError;
use crate::domain::new_user::{NewUserError, PasswordError};
use crate::status::{
    BAD_GATEWAY, BAD_REQUEST, CONFLICT, INTERNAL_SERVER_ERROR, NOT_FOUND, NO_CONTENT, OK,
    UNAUTHORIZED,
};
use crate::text::{chars_of, trim, trim_bounds};
use sqlx::types::ipnetwork::IpNetwork;

verus! {

/// The body of an error answer: which input or party is at fault, and what
/// to tell the user.
#[derive(Debug, Clone, Copy)]
pub struct ErrorResponse {
    pub error: &'static str,
    pub message: &'static str,
}

/// The answer to sign-up input that was refused.
pub open spec fn sign_up_rejection_spec(err: NewUserError) -> (u16, Seq<char>, Seq<char>) {
    match err {
        NewUserError::UsernameParsingError => (
            BAD_REQUEST,
            "username"@,
            "Please only use letters, numbers, and a max length of 50 characters."@,
        ),
        NewUserError::EmailParsingError => (BAD_REQUEST, "email"@, "Please use a valid email."@),
        NewUserError::PasswordError(PasswordError::InvalidPassword) => (
            BAD_REQUEST,
            "password"@,
            "Password must be at least 8 characters long, and no longer than 64. No space allowed."@,
        ),
        NewUserError::PasswordError(PasswordError::HashingError(_)) => (
            INTERNAL_SERVER_ERROR,
            "server"@,
            "Application error occurred. Please try again"@,
        ),
    }
}

/// The status and body answering refused sign-up input: 400 naming the
/// field at fault, or 500 where the password could not be hashed.
pub fn sign_up_rejection(err: &NewUserError) -> (r: (u16, ErrorResponse))
    ensures
        (r.0, r.1.error@, r.1.message@) == sign_up_rejection_spec(*err),
{
    match err {
        NewUserError::UsernameParsingError => (
            BAD_REQUEST,
            ErrorResponse {
                error: "username",
                message: "Please only use letters, numbers, and a max length of 50 characters.",
            },
        ),
        NewUserError::EmailParsingError => (
            BAD_REQUEST,
            ErrorResponse { error: "email", message: "Please use a valid email." },
        ),
        NewUserError::PasswordError(PasswordError::InvalidPassword) => (
            BAD_REQUEST,
            ErrorResponse {
                error: "password",
                message: "Password must be at least 8 characters long, and no longer than 64. No space allowed.",
            },
        ),
        NewUserError::PasswordError(PasswordError::HashingError(_)) => (
            INTERNAL_SERVER_ERROR,
            ErrorResponse {
                error: "server",
                message: "Application error occurred. Please try again",
            },
        ),
    }
}

/// The status and body answering a failed insertion of a new user: 409 where
/// the user name or address is taken, 500 otherwise.
pub fn registration_failure(unique_violation: bool) -> (r: (u16, ErrorResponse))
    ensures
        unique_violation ==> r.0 == CONFLICT && r.1.error@ == "conflict"@ && r.1.message@
            == "Username or email is already taken."@,
        !unique_violation ==> r.0 == INTERNAL_SERVER_ERROR && r.1.error@ == "server"@
            && r.1.message@ == "Application error occurred. Please try again"@,
{
    if unique_violation {
        (
            CONFLICT,
            ErrorResponse { error: "conflict", message: "Username or email is already taken." },
        )
    } else {
        (
            INTERNAL_SERVER_ERROR,
            ErrorResponse {
                error: "server",
                message: "Application error occurred. Please try again",
            },
        )
    }
}

/// The status answering a failed lookup of a user's record: 404 where no
/// such user exists, 500 where the lookup itself failed.
pub fn user_lookup_failure_status(not_found: bool) -> (s: u16)
    ensures
        not_found ==> s == NOT_FOUND,
        !not_found ==> s == INTERNAL_SERVER_ERROR,
{
    if not_found {
        NOT_FOUND
    } else {
        INTERNAL_SERVER_ERROR
    }
}

/// What looking up the user who signs in gave.
#[derive(Debug, Clone, Copy, PartialEq, Eq, Structural)]
pub enum UserLookup {
    Found,
    NotFound,
    Failed,
}

/// What checking the password given at sign-in gave.
#[derive(Debug, Clone, Copy, PartialEq, Eq, Structural)]
pub enum PasswordCheck {
    Matched,
    Mismatched,
    Failed,
}

impl PasswordCheck {
    /// Reads the result of `Password::verify`: any success is a match, an
    /// invalid password a mismatch, a hashing error a failure.
    pub fn from_verification(r: &Result<bool, PasswordError>) -> (c: PasswordCheck)
        ensures
            r is Ok ==> c == PasswordCheck::Matched,
            r matches Err(PasswordError::InvalidPassword) ==> c == PasswordCheck::Mismatched,
            r matches Err(PasswordError::HashingError(_)) ==> c == PasswordCheck::Failed,
    {
        match r {
            Ok(_) => PasswordCheck::Matched,
            Err(PasswordError::InvalidPassword) => PasswordCheck::Mismatched,
            Err(PasswordError::HashingError(_)) => PasswordCheck::Failed,
        }
    }
}

/// Where a sign-in stands.
#[derive(Debug, Clone, Copy, PartialEq, Eq, Structural)]
pub enum SignInState {
    AwaitingUser,
    AwaitingPasswordCheck,
    AwaitingSession,
    Finished,
}

/// What a step of a sign-in reports.
#[derive(Debug, Clone, Copy, PartialEq, Eq, Structural)]
pub enum SignInEvent {
    UserLookedUp(UserLookup),
    PasswordChecked(PasswordCheck),
    /// Whether the new session was stored.
    SessionStored(bool),
}

/// What to do next in a sign-in.
#[derive(Debug, Clone, Copy, PartialEq, Eq, Structural)]
pub enum SignInAction {
    CheckPassword,
    StoreSession,
    /// Answer with the stored session's cookie and the user's record.
    SetSessionCookie,
    /// Answer with this status.
    Respond(u16),
}

/// A sign-in's next state and action after an event: an unknown user or a
/// wrong password is unauthorized, a failed step a server error, and an
/// event out of order a server error too.
pub open spec fn sign_in_transition(state: SignInState, event: SignInEvent) -> (
    SignInState,
    SignInAction,
) {
    match (state, event) {
        (SignInState::AwaitingUser, SignInEvent::UserLookedUp(UserLookup::Found)) => (
            SignInState::AwaitingPasswordCheck,
            SignInAction::CheckPassword,
        ),
        (SignInState::AwaitingUser, SignInEvent::UserLookedUp(UserLookup::NotFound)) => (
            SignInState::Finished,
            SignInAction::Respond(UNAUTHORIZED),
        ),
        (
            SignInState::AwaitingPasswordCheck,
            SignInEvent::PasswordChecked(PasswordCheck::Matched),
        ) => (SignInState::AwaitingSession, SignInAction::StoreSession),
        (
            SignInState::AwaitingPasswordCheck,
            SignInEvent::PasswordChecked(PasswordCheck::Mismatched),
        ) => (SignInState::Finished, SignInAction::Respond(UNAUTHORIZED)),
        (SignInState::AwaitingSession, SignInEvent::SessionStored(true)) => (
            SignInState::Finished,
            SignInAction::SetSessionCookie,
        ),
        _ => (SignInState::Finished, SignInAction::Respond(INTERNAL_SERVER_ERROR)),
    }
}

/// Advances a sign-in by one event.
pub fn sign_in_step(state: SignInState, event: SignInEvent) -> (r: (SignInState, SignInAction))
    ensures
        r == sign_in_transition(state, event),
{
    match (state, event) {
        (SignInState::AwaitingUser, SignInEvent::UserLookedUp(UserLookup::Found)) => (
            SignInState::AwaitingPasswordCheck,
            SignInAction::CheckPassword,
        ),
        (SignInState::AwaitingUser, SignInEvent::UserLookedUp(UserLookup::NotFound)) => (
            SignInState::Finished,
            SignInAction::Respond(UNAUTHORIZED),
        ),
        (
            SignInState::AwaitingPasswordCheck,
            SignInEvent::PasswordChecked(PasswordCheck::Matched),
        ) => (SignInState::AwaitingSession, SignInAction::StoreSession),
        (
            SignInState::AwaitingPasswordCheck,
            SignInEvent::PasswordChecked(PasswordCheck::Mismatched),
        ) => (SignInState::Finished, SignInAction::Respond(UNAUTHORIZED)),
        (SignInState::AwaitingSession, SignInEvent::SessionStored(true)) => (
            SignInState::Finished,
            SignInAction::SetSessionCookie,
        ),
        _ => (SignInState::Finished, SignInAction::Respond(INTERNAL_SERVER_ERROR)),
    }
}

/// A session cookie is set only by the third step of a sign-in that found
/// the user, matched the password and stored the session.
pub proof fn lemma_cookie_only_after_full_success(
    e1: SignInEvent,
    e2: SignInEvent,
    e3: SignInEvent,
)
    ensures
        ({
            let (s1, _a1) = sign_in_transition(SignInState::AwaitingUser, e1);
            let (s2, _a2) = sign_in_transition(s1, e2);
            let (_s3, a3) = sign_in_transition(s2, e3);
            a3 == SignInAction::SetSessionCookie ==> e1 == SignInEvent::UserLookedUp(
                UserLookup::Found,
            ) && e2 == SignInEvent::PasswordChecked(PasswordCheck::Matched) && e3
                == SignInEvent::SessionStored(true)
        }),
        sign_in_transition(SignInState::AwaitingUser, e1).1 != SignInAction::SetSessionCookie,
{
}

/// Once a sign-in has finished, every further event is answered with a
/// server error: no later step stores a session or sets a cookie.
pub proof fn lemma_finished_sign_in_stays_finished(event: SignInEvent)
    ensures
        sign_in_transition(SignInState::Finished, event) == (
            SignInState::Finished,
            SignInAction::Respond(INTERNAL_SERVER_ERROR),
        ),
{
}

/// An unknown user and a wrong password get the same answer, so an answer
/// does not tell whether a user name exists.
pub proof fn lemma_unknown_user_and_wrong_password_answer_alike()
    ensures
        sign_in_transition(
            SignInState::AwaitingUser,
            SignInEvent::UserLookedUp(UserLookup::NotFound),
        ) == sign_in_transition(
            SignInState::AwaitingPasswordCheck,
            SignInEvent::PasswordChecked(PasswordCheck::Mismatched),
        ),
{
}

/// Microseconds in a day.
pub const MICROS_PER_DAY: i64 = 86_400_000_000;

/// When a session created at `now` expires, `ttl_days` days later, or
/// `None` where that instant is out of range.
pub fn session_expires_at(now: i64, ttl_days: i64) -> (r: Option<i64>)
    ensures
        ({
            let e = now + ttl_days * MICROS_PER_DAY;
            &&& i64::MIN <= e <= i64::MAX ==> r == Some(e as i64)
            &&& !(i64::MIN <= e <= i64::MAX) ==> r is None
        }),
{
    let e: i128 = (now as i128) + (ttl_days as i128) * (MICROS_PER_DAY as i128);
    if (i64::MIN as i128) <= e && e <= (i64::MAX as i128) {
        Some(e as i64)
    } else {
        None
    }
}

/// The status answering a sign-out: 204 once the session is revoked, 500
/// where revoking it failed.
pub fn sign_out_status(revoked: bool) -> (s: u16)
    ensures
        revoked ==> s == NO_CONTENT,
        !revoked ==> s == INTERNAL_SERVER_ERROR,
{
    if revoked {
        NO_CONTENT
    } else {
        INTERNAL_SERVER_ERROR
    }
}

/// The status answering an attempt to send an e-mail: 200 when sent, 502
/// where Postmark could not be reached or refused it, 500 where its answer
/// could not be read.
pub fn email_send_status(r: &Result<(), EmailError>) -> (s: u16)
    ensures
        r is Ok ==> s == OK,
        r matches Err(EmailError::Connection(_)) ==> s == BAD_GATEWAY,
        r matches Err(EmailError::Rejected { .. }) ==> s == BAD_GATEWAY,
        r matches Err(EmailError::MalformedResponse(_)) ==> s == INTERNAL_SERVER_ERROR,
{
    match r {
        Ok(()) => OK,
        Err(EmailError::Connection(_)) | Err(EmailError::Rejected { .. }) => BAD_GATEWAY,
        Err(EmailError::MalformedResponse(_)) => INTERNAL_SERVER_ERROR,
    }
}

/// The first entry of a comma-separated list: the text before the first
/// comma, or all of it where there is none.
pub open spec fn first_list_entry(s: Seq<char>) -> Seq<char>
    decreases s.len(),
{
    if s.len() == 0 || s[0] == ',' {
        Seq::empty()
    } else {
        seq![s[0]] + first_list_entry(s.drop_first())
    }
}

proof fn lemma_first_list_entry_is_prefix(s: Seq<char>, c: int)
    requires
        0 <= c <= s.len(),
        forall|k: int| 0 <= k < c ==> #[trigger] s[k] != ',',
        c == s.len() || s[c] == ',',
    ensures
        first_list_entry(s) == s.take(c),
    decreases c,
{
    if c > 0 {
        let t = s.drop_first();
        assert forall|k: int| 0 <= k < c - 1 implies #[trigger] t[k] != ',' by {
            assert(t[k] == s[k + 1]);
        }
        lemma_first_list_entry_is_prefix(t, c - 1);
        assert(seq![s[0]] + t.take(c - 1) =~= s.take(c));
    } else {
        assert(s.take(0) =~= Seq::<char>::empty());
    }
}

/// The client address in an `X-Forwarded-For` value: its first entry (the
/// original client, before the proxies), trimmed.
pub fn first_forwarded_address(value: &str) -> (r: &str)
    ensures
        r@ == trim(first_list_entry(value@)),
{
    let v = chars_of(value);
    let mut c: usize = 0;
    while c < v.len() && v[c] != ','
        invariant
            c <= v.len(),
            forall|k: int| 0 <= k < c ==> #[trigger] v@[k] != ',',
        decreases v.len() - c,
    {
        c = c + 1;
    }
    let mut entry: Vec<char> = Vec::new();
    let mut i: usize = 0;
    while i < c
        invariant
            i <= c <= v.len(),
            entry@ == v@.take(i as int),
        decreases c - i,
    {
        entry.push(v[i]);
        i = i + 1;
        assert(entry@ =~= v@.take(i as int));
    }
    proof {
        lemma_first_list_entry_is_prefix(v@, c as int);
    }
    let (lo, hi) = trim_bounds(&entry);
    value.substring_char(lo, hi)
}

/// The IP network that `text` reads as by `IpNetwork`'s `FromStr`
/// (`sqlx::types::ipnetwork`), as plain values: whether it is IPv6, the
/// address as an integer (an IPv4 address in the low 32 bits) and the
/// prefix length; `None` where `text` reads as no network.
pub uninterp spec fn ip_network_value(text: Seq<char>) -> Option<(bool, u128, u8)>;

/// Calls `str::parse::<IpNetwork>()` and takes the network apart into
/// `(is_ipv6, address, prefix)`. Trusted: the result is
/// `ip_network_value(text@)`.
#[verifier::external_body]
fn parse_ip_network(text: &str) -> (r: Option<(bool, u128, u8)>)
    ensures
        r == ip_network_value(text@),
{
    match text.parse::<IpNetwork>() {
        Ok(IpNetwork::V4(n)) => Some((false, u128::from(u32::from(n.ip())), n.prefix())),
        Ok(IpNetwork::V6(n)) => Some((true, u128::from(n.ip()), n.prefix())),
        Err(_) => None,
    }
}

/// The client's network as recorded with a session: the first entry of the
/// `X-Forwarded-For` value, trimmed, read as an IP network (as
/// `(is_ipv6, address, prefix)`); `None` where it is not one.
pub fn client_ip_network(forwarded_for: &str) -> (r: Option<(bool, u128, u8)>)
    ensures
        r == ip_network_value(trim(first_list_entry(forwarded_for@))),
{
    parse_ip_network(first_forwarded_address(forwarded_for))
}

/// The `SameSite` setting of a cookie.
#[derive(Debug, Clone, Copy, PartialEq, Eq, Structural)]
pub enum SameSitePolicy {
    Strict,
    Lax,
    Unrestricted,
}

/// The attributes of the session cookie.
#[derive(Debug, Clone, Copy)]
pub struct SessionCookiePolicy {
    /// Hidden from scripts.
    pub http_only: bool,
    /// Sent over HTTPS only.
    pub secure: bool,
    pub same_site: SameSitePolicy,
    /// The path the cookie is sent for.
    pub path: &'static str,
    /// How long the cookie lives, in days.
    pub max_age_days: i64,
}

/// The session cookie set at sign-in: hidden from scripts, `SameSite=Lax`
/// (sent on top-level navigations but not on requests other sites make),
/// sent for every path, secure as configured, and living as long as the
/// session.
pub fn session_cookie_policy(cookie_secure: bool, session_ttl_days: i64) -> (p: SessionCookiePolicy)
    ensures
        p.http_only,
        p.secure == cookie_secure,
        p.same_site == SameSitePolicy::Lax,
        p.path@ == "/"@,
        p.max_age_days == session_ttl_days,
{
    SessionCookiePolicy {
        http_only: true,
        secure: cookie_secure,
        same_site: SameSitePolicy::Lax,
        path: "/",
        max_age_days: session_ttl_days,
    }
}

} // verus!
