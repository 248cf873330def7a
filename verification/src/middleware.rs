//! The guard that every request passes before its handler runs.
//!
//! The guard turns the `Authorization` header of a request into an
//! [`AuthState`]. It never refuses a request: a request that fails any of its
//! checks goes on unauthenticated, and the handler decides what to answer.
//!
//! The header value is the token itself, as it was issued at login. It is
//! read to find the session that it names, and it counts only if that session
//! is stored with this very token and has not run out.

use vstd::prelude::*;
use crate::models::{Session, Timestamp};
use crate::utils::{decode_jwt, decoded_session_id};

verus! {

/// What the guard found out about a request.
#[derive(Debug, Clone, PartialEq, Eq)]
pub enum AuthState {
    /// No valid session stands behind the request.
    Unauthenticated,
    /// The request presented the token of this session, which is still
    /// valid.
    Authenticated(Session),
}

impl AuthState {
    /// Whether the request is authenticated.
    pub fn is_authenticated(&self) -> (yes: bool)
        ensures
            yes == (self is Authenticated),
    {
        match self {
            AuthState::Authenticated(_) => true,
            AuthState::Unauthenticated => false,
        }
    }

    /// The session of an authenticated request.
    pub fn session(&self) -> (session: Option<&Session>)
        ensures
            match session {
                Some(s) => *self == AuthState::Authenticated(*s),
                None => self is Unauthenticated,
            },
    {
        match self {
            AuthState::Authenticated(session) => Some(session),
            AuthState::Unauthenticated => None,
        }
    }
}

/// The characters of a header value, where the request carries one.
pub open spec fn presented(authorization: Option<&str>) -> Option<Seq<char>> {
    match authorization {
        Some(value) => Some(value@),
        None => None,
    }
}

/// The stored session counts for a request that presents `token` at `now`:
/// it was issued with exactly this token, and it expires after `now`.
pub open spec fn admits(stored: Session, token: Seq<char>, now: Timestamp) -> bool {
    stored.token@ == token && stored.expires_at.after(now)
}

/// The session that the guard has to look up for a header value: the one
/// that the token names, where there is a header and it can be read.
pub open spec fn named_session(authorization: Option<Seq<char>>, secret: Seq<u8>) -> Option<
    u128,
> {
    match authorization {
        Some(token) => decoded_session_id(token, secret),
        None => None,
    }
}

/// What the guard makes of a token once the session that it names was
/// looked up: `lookup` is the stored session, or `None` where there is none
/// or storage failed.
pub open spec fn admitted(token: Seq<char>, lookup: Option<Session>, now: Timestamp) -> AuthState {
    match lookup {
        Some(stored) => if admits(stored, token, now) {
            AuthState::Authenticated(stored)
        } else {
            AuthState::Unauthenticated
        },
        None => AuthState::Unauthenticated,
    }
}

/// The guard as a whole. A request is authenticated exactly if it has a
/// header, the header reads as a token that names a session, that session
/// is stored, its token is the header value, and it expires after `now`.
pub open spec fn guard(
    authorization: Option<Seq<char>>,
    secret: Seq<u8>,
    lookup: Option<Session>,
    now: Timestamp,
) -> AuthState {
    match authorization {
        Some(token) => if named_session(authorization, secret) is Some {
            admitted(token, lookup, now)
        } else {
            AuthState::Unauthenticated
        },
        None => AuthState::Unauthenticated,
    }
}

/// The state of a request that failed a check.
pub fn fail_auth() -> (state: AuthState)
    ensures
        state is Unauthenticated,
{
    AuthState::Unauthenticated
}

/// The session to look up for a request, or `None` where the request has no
/// header or the header does not read as a token.
pub fn session_to_load(authorization: Option<&str>, secret: &[u8]) -> (id: Option<u128>)
    ensures
        id == named_session(presented(authorization), secret@),
{
    match authorization {
        Some(token) => match decode_jwt(token, secret) {
            Ok(id) => Some(id),
            Err(_) => None,
        },
        None => None,
    }
}

/// Decides on a token whose session was looked up.
pub fn admit_session(token: &str, lookup: Option<Session>, now: Timestamp) -> (state: AuthState)
    ensures
        state == admitted(token@, lookup, now),
{
    match lookup {
        Some(stored) => {
            let same_token = stored.token == token.to_owned();
            if same_token && stored.expires_at.is_after(&now) {
                AuthState::Authenticated(stored)
            } else {
                fail_auth()
            }
        },
        None => fail_auth(),
    }
}

/// Runs the guard for one request. `lookup` is what storage holds for the
/// session that [`session_to_load`] named; it is not read where no session
/// was named.
pub fn auth_middleware(
    authorization: Option<&str>,
    secret: &[u8],
    lookup: Option<Session>,
    now: Timestamp,
) -> (state: AuthState)
    ensures
        state == guard(presented(authorization), secret@, lookup, now),
{
    match authorization {
        Some(token) => match decode_jwt(token, secret) {
            Ok(_) => admit_session(token, lookup, now),
            Err(_) => fail_auth(),
        },
        None => fail_auth(),
    }
}

/// A request without a header, or with a header that does not read as a
/// token, is unauthenticated, whatever storage holds.
pub proof fn lemma_unreadable_header_is_refused(
    authorization: Option<Seq<char>>,
    secret: Seq<u8>,
    lookup: Option<Session>,
    now: Timestamp,
)
    requires
        named_session(authorization, secret) is None,
    ensures
        guard(authorization, secret, lookup, now) is Unauthenticated,
{
}

/// A request that names a session which storage does not hold is
/// unauthenticated.
pub proof fn lemma_unknown_session_is_refused(
    authorization: Option<Seq<char>>,
    secret: Seq<u8>,
    now: Timestamp,
)
    ensures
        guard(authorization, secret, None, now) is Unauthenticated,
{
}

/// A session that has run out is refused: where the stored session does
/// not expire after `now`, the request is unauthenticated whatever it
/// presents.
pub proof fn lemma_expired_session_is_refused(
    authorization: Option<Seq<char>>,
    secret: Seq<u8>,
    stored: Session,
    now: Timestamp,
)
    requires
        !stored.expires_at.after(now),
    ensures
        guard(authorization, secret, Some(stored), now) is Unauthenticated,
{
}

/// A session is refused to anyone who presents another token than the one
/// it was issued with, even where the presented token names that session.
pub proof fn lemma_other_token_is_refused(
    token: Seq<char>,
    secret: Seq<u8>,
    stored: Session,
    now: Timestamp,
)
    requires
        stored.token@ != token,
    ensures
        guard(Some(token), secret, Some(stored), now) is Unauthenticated,
{
}

/// The guard admits whoever presents the token of a stored session that has
/// not run out, and hands that session to the handler.
pub proof fn lemma_valid_session_is_admitted(secret: Seq<u8>, stored: Session, now: Timestamp)
    requires
        decoded_session_id(stored.token@, secret) is Some,
        stored.expires_at.after(now),
    ensures
        guard(Some(stored.token@), secret, Some(stored), now) == AuthState::Authenticated(stored),
{
}

} // verus!
