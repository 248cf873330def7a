//! The records that the service keeps, and the values from which new records
//! are made.
//!
//! An identifier is the 128-bit value of a UUID. A point in time is a
//! [`Timestamp`]. A record that is read back carries the identifier and the
//! creation time that storage holds for it; a `New*` value is what is handed
//! to storage to insert.

use vstd::prelude::*;
use crate::utils::{generate_uuid, hash_password, now, seconds_later, PasswordError};

verus! {

/// Seconds for which a session stays valid after it was issued: one day.
pub const SESSION_LIFETIME_SECONDS: i64 = 86_400;

/// A point in time without a time zone: whole seconds since
/// 1970-01-01 00:00:00 and the nanoseconds into that second.
///
/// Two timestamps are ordered by their seconds, then by their nanoseconds.
#[derive(Debug, Clone, Copy, PartialEq, Eq, Structural)]
pub struct Timestamp {
    pub secs: i64,
    pub nanos: u32,
}

/// `expiry` is the expiry of a session that was issued at `issued`: the
/// instant one day later as the calendar gives it, which for an `issued`
/// outside a leap second is, where there is one, later by exactly 86 400
/// seconds.
pub open spec fn expires_one_day_after(expiry: Option<Timestamp>, issued: Timestamp) -> bool {
    &&& expiry == seconds_later(issued, SESSION_LIFETIME_SECONDS)
    &&& expiry matches Some(end) ==> issued.nanos < 1_000_000_000 ==> end.secs == issued.secs
        + SESSION_LIFETIME_SECONDS && end.nanos == issued.nanos
}

impl Timestamp {
    /// `self` lies strictly before `other`.
    pub open spec fn before(self, other: Timestamp) -> bool {
        self.secs < other.secs || (self.secs == other.secs && self.nanos < other.nanos)
    }

    /// `self` lies strictly after `other`.
    pub open spec fn after(self, other: Timestamp) -> bool {
        other.before(self)
    }

    /// Whether `self` lies strictly before `other`.
    pub fn is_before(&self, other: &Timestamp) -> (earlier: bool)
        ensures
            earlier == self.before(*other),
    {
        self.secs < other.secs || (self.secs == other.secs && self.nanos < other.nanos)
    }

    /// Whether `self` lies strictly after `other`.
    pub fn is_after(&self, other: &Timestamp) -> (later: bool)
        ensures
            later == self.after(*other),
    {
        other.is_before(self)
    }
}

/// A registered user.
#[derive(Debug, Clone, PartialEq, Eq)]
pub struct User {
    pub user_id: u128,
    pub username: String,
    pub email: String,
    pub password_hash: String,
    pub created_at: Option<Timestamp>,
}

/// A login session: the bearer token that was issued to a user, and the
/// instant at which it stops being valid.
#[derive(Debug, Clone, PartialEq, Eq)]
pub struct Session {
    pub session_id: u128,
    pub user_id: u128,
    pub token: String,
    pub created_at: Option<Timestamp>,
    pub expires_at: Timestamp,
}

impl Session {
    /// This session as storage holds it once its expiry was set to `at`.
    pub open spec fn expiring_at(self, at: Timestamp) -> Session {
        Session { expires_at: at, ..self }
    }
}

/// One message of a chat; `role` is `"user"` or `"assistant"`.
#[derive(Debug, Clone, PartialEq, Eq)]
pub struct Message {
    pub message_id: u128,
    pub chat_id: u128,
    pub role: String,
    pub content: String,
    pub timestamp: Option<Timestamp>,
}

/// A chat, owned by one user.
#[derive(Debug, Clone, PartialEq, Eq)]
pub struct Chat {
    pub chat_id: u128,
    pub user_id: u128,
    pub title: String,
    pub created_at: Option<Timestamp>,
}

/// A user to insert.
#[derive(Debug, Clone, PartialEq, Eq)]
pub struct NewUser {
    pub user_id: u128,
    pub username: String,
    pub email: String,
    pub password_hash: String,
    pub created_at: Option<Timestamp>,
}

/// A session to insert.
#[derive(Debug, Clone, PartialEq, Eq)]
pub struct NewSession {
    pub session_id: u128,
    pub user_id: u128,
    pub token: String,
    pub created_at: Option<Timestamp>,
    pub expires_at: Option<Timestamp>,
}

/// A message to insert.
#[derive(Debug, Clone, PartialEq, Eq)]
pub struct NewMessage {
    pub message_id: u128,
    pub chat_id: u128,
    pub role: String,
    pub content: String,
    pub timestamp: Option<Timestamp>,
}

/// A chat to insert.
#[derive(Debug, Clone, PartialEq, Eq)]
pub struct NewChat {
    pub chat_id: u128,
    pub user_id: u128,
    pub title: String,
    pub created_at: Option<Timestamp>,
}

impl NewUser {
    /// A user with a fresh identifier, created now, whose password is kept
    /// as a salted hash. Fails only where the password cannot be hashed.
    pub fn new(username: &String, email: &String, password: &String) -> (user: Result<
        Self,
        PasswordError,
    >)
        ensures
            match user {
                Ok(u) => u.username@ == username@ && u.email@ == email@ && u.created_at is Some
                    && crate::utils::is_v4(u.user_id) && crate::utils::bcrypt_matches(
                    password@,
                    u.password_hash@,
                ) == Some(true),
                Err(e) => e == PasswordError::HashingFailed,
            },
    {
        match hash_password(password.as_str()) {
            Ok(password_hash) => Ok(
                NewUser::with_hash(generate_uuid(), username, email, password_hash, now()),
            ),
            Err(e) => Err(e),
        }
    }

    /// The user `user_id`, created at `created_at`, with a password hash
    /// that was computed before.
    pub fn with_hash(
        user_id: u128,
        username: &String,
        email: &String,
        password_hash: String,
        created_at: Timestamp,
    ) -> (user: Self)
        ensures
            user.user_id == user_id,
            user.username@ == username@,
            user.email@ == email@,
            user.password_hash == password_hash,
            user.created_at == Some(created_at),
    {
        NewUser {
            user_id,
            username: username.clone(),
            email: email.clone(),
            password_hash,
            created_at: Some(created_at),
        }
    }
}

impl NewSession {
    /// A session issued now: see [`NewSession::issued_at`].
    pub fn new(sessionid: u128, userid: u128, token: &String) -> (session: Self)
        ensures
            session.session_id == sessionid,
            session.user_id == userid,
            session.token@ == token@,
            session.created_at matches Some(issued) && issued.nanos < 1_000_000_000
                && expires_one_day_after(session.expires_at, issued),
    {
        NewSession::issued_at(sessionid, userid, token, now())
    }

    /// A session issued at `issued`, which expires one day later. The expiry
    /// is `None` where that instant cannot be represented.
    pub fn issued_at(sessionid: u128, userid: u128, token: &String, issued: Timestamp) -> (session:
        Self)
        ensures
            session.session_id == sessionid,
            session.user_id == userid,
            session.token@ == token@,
            session.created_at == Some(issued),
            expires_one_day_after(session.expires_at, issued),
    {
        NewSession {
            session_id: sessionid,
            user_id: userid,
            token: token.clone(),
            created_at: Some(issued),
            expires_at: issued.plus_seconds(SESSION_LIFETIME_SECONDS),
        }
    }
}

impl NewMessage {
    /// A message written now: see [`NewMessage::written_at`].
    pub fn new(messageid: u128, chatid: u128, role: &String, content_: &String) -> (message: Self)
        ensures
            message.message_id == messageid,
            message.chat_id == chatid,
            message.role@ == role@,
            message.content@ == content_@,
            message.timestamp is Some,
    {
        NewMessage::written_at(messageid, chatid, role, content_, now())
    }

    /// The message `messageid` of chat `chatid`, written at `written`.
    pub fn written_at(
        messageid: u128,
        chatid: u128,
        role: &String,
        content_: &String,
        written: Timestamp,
    ) -> (message: Self)
        ensures
            message.message_id == messageid,
            message.chat_id == chatid,
            message.role@ == role@,
            message.content@ == content_@,
            message.timestamp == Some(written),
    {
        NewMessage {
            message_id: messageid,
            chat_id: chatid,
            role: role.clone(),
            content: content_.clone(),
            timestamp: Some(written),
        }
    }
}

impl NewChat {
    /// A chat of user `userid` with a fresh identifier, created now.
    pub fn new(userid: u128, title: &String) -> (chat: Self)
        ensures
            chat.user_id == userid,
            chat.title@ == title@,
            chat.created_at is Some,
            crate::utils::is_v4(chat.chat_id),
    {
        NewChat::created_at(generate_uuid(), userid, title, now())
    }

    /// The chat `chatid` of user `userid`, created at `created`.
    pub fn created_at(chatid: u128, userid: u128, title: &String, created: Timestamp) -> (chat:
        Self)
        ensures
            chat.chat_id == chatid,
            chat.user_id == userid,
            chat.title@ == title@,
            chat.created_at == Some(created),
    {
        NewChat { chat_id: chatid, user_id: userid, title: title.clone(), created_at: Some(created) }
    }
}

/// The body of a login request.
#[derive(Debug, Clone, PartialEq, Eq)]
pub struct LoginPayload {
    pub username: String,
    pub password: String,
}

/// The body of a registration request.
#[derive(Debug, Clone, PartialEq, Eq)]
pub struct RegisterPayload {
    pub username: String,
    pub password: String,
    pub email: String,
}

/// The body of a request for a new chat.
#[derive(Debug, Clone, PartialEq, Eq)]
pub struct NewChatPayload {
    pub title: String,
}

} // verus!
