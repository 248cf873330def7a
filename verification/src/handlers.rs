//! What each endpoint answers.
//!
//! An endpoint that needs storage or the network is cut at each such call.
//! The function that carries the endpoint's name decides what is to be
//! done first: it either answers at once or names the record to read or to
//! write. The caller does that, and the endpoint's `*_reply` function turns
//! what came of it into the answer.

use vstd::prelude::*;
use vstd::string::StrSliceExecFns;
use crate::middleware::{guard, named_session, presented, session_to_load, AuthState};
use crate::models::{
    expires_one_day_after,
    Chat,
    LoginPayload,
    Message,
    NewChat,
    NewChatPayload,
    NewMessage,
    NewSession,
    NewUser,
    RegisterPayload,
    Session,
    Timestamp,
    User,
};
use crate::utils::{
    bcrypt_matches,
    generate_jwt,
    generate_uuid,
    is_v4,
    parse_uuid,
    parsed_uuid,
    timestamp_string,
    timestamp_text,
    decoded_session_id,
    token_for,
    uuid_string,
    uuid_text,
    verify_password,
};

verus! {

/// Fewest characters that the title of a chat may have.
pub const MIN_TITLE_LEN: usize = 3;

/// What stands in front of the token in the `Authorization` header of a
/// login response.
pub const BEARER_PREFIX: &'static str = "Bearer ";

/// The role of a message that the user wrote.
pub const ROLE_USER: &'static str = "user";

/// The role of a message that the generator wrote.
pub const ROLE_ASSISTANT: &'static str = "assistant";

// The words of the answers.

pub const LOGIN_SUCCESSFUL: &'static str = "Login successful";

pub const USER_NOT_FOUND: &'static str = "用户不存在";

pub const WRONG_PASSWORD: &'static str = "密码不正确";

pub const PASSWORD_CHECK_FAILED: &'static str = "Failed to check password";

pub const PASSWORD_HASH_FAILED: &'static str = "Failed to hash password";

pub const NOT_LOGGED_IN: &'static str = "用户未登录";

pub const LOGGED_OUT: &'static str = "已成功退出登录";

pub const LOGOUT_FAILED: &'static str = "登出失败";

pub const USERNAME_TAKEN: &'static str = "用户名已被注册";

pub const REGISTERED: &'static str = "注册成功";

pub const TITLE_TOO_SHORT: &'static str = "标题过短";

pub const CHAT_CREATED: &'static str = "创建对话成功";

pub const HISTORY_FOUND: &'static str = "查询历史对话成功";

pub const CONTENT_FOUND: &'static str = "查询对话内容成功";

pub const INVALID_UUID: &'static str = "uuid 不合法";

pub const CHAT_DELETED: &'static str = "对话删除成功";

pub const DELETE_FAILED: &'static str = "删除失败";

pub const CONNECT_FAILED: &'static str = "Failed to connect to backend";

pub const SCAN_SUCCEEDED: &'static str = "扫描成功";

/// The value of the `status` member in the body of a listing.
pub const LISTING_STATUS: &'static str = "200";

// ---------------------------------------------------------------------------
// Answers
// ---------------------------------------------------------------------------

/// The HTTP status of an answer.
#[derive(Debug, Clone, Copy, PartialEq, Eq, Structural)]
pub enum Status {
    Success,
    BadRequest,
    Unauthorized,
    NotFound,
    Conflict,
    InternalServerError,
}

impl Status {
    /// The number of the status.
    pub open spec fn number(self) -> u16 {
        match self {
            Status::Success => 200,
            Status::BadRequest => 400,
            Status::Unauthorized => 401,
            Status::NotFound => 404,
            Status::Conflict => 409,
            Status::InternalServerError => 500,
        }
    }

    /// The status blames the request, not the server.
    pub open spec fn is_client_error(self) -> bool {
        400 <= self.number() < 500
    }

    /// The number of the status.
    pub fn code(self) -> (code: u16)
        ensures
            code == self.number(),
    {
        match self {
            Status::Success => 200,
            Status::BadRequest => 400,
            Status::Unauthorized => 401,
            Status::NotFound => 404,
            Status::Conflict => 409,
            Status::InternalServerError => 500,
        }
    }
}

/// One chat in the listing of a user's chats.
#[derive(Debug, Clone, PartialEq, Eq)]
pub struct ChatEntry {
    pub chat_id: String,
    pub title: String,
    /// The creation time as text; `None` where the record has none.
    pub created_at: Option<String>,
}

/// One message in the listing of a chat.
#[derive(Debug, Clone, PartialEq, Eq)]
pub struct MessageEntry {
    pub role: String,
    pub content: String,
    /// The time of writing as text; `None` where the record has none.
    pub timestamp: Option<String>,
}

/// The body of an answer.
#[derive(Debug, Clone, PartialEq, Eq)]
pub enum Body {
    /// The JSON object `{"message": ..}`.
    Message(String),
    /// A JSON string.
    Text(String),
    /// Text that is no JSON.
    Plain(String),
    /// The JSON object `{"chats": [..], "status": "200", "message": ..}`,
    /// each chat with its `chat_id`, `title` and `created_at`.
    Chats { chats: Vec<ChatEntry>, message: String },
    /// The JSON object `{"chats": [..], "status": "200", "message": ..}`,
    /// each message with its `role`, `content` and `timestamp`.
    Messages { messages: Vec<MessageEntry>, message: String },
    /// The JSON object `{"message": .., "content": ..}`.
    Scan { message: String, content: String },
}

/// An answer to a request.
#[derive(Debug, Clone, PartialEq, Eq)]
pub struct Reply {
    pub status: Status,
    pub body: Body,
}

/// The mathematical value of a [`ChatEntry`].
#[verifier::ext_equal]
pub struct ChatEntryView {
    pub chat_id: Seq<char>,
    pub title: Seq<char>,
    pub created_at: Option<Seq<char>>,
}

/// The mathematical value of a [`MessageEntry`].
#[verifier::ext_equal]
pub struct MessageEntryView {
    pub role: Seq<char>,
    pub content: Seq<char>,
    pub timestamp: Option<Seq<char>>,
}

/// The mathematical value of a [`Body`].
#[verifier::ext_equal]
pub enum BodyView {
    Message(Seq<char>),
    Text(Seq<char>),
    Plain(Seq<char>),
    Chats { chats: Seq<ChatEntryView>, message: Seq<char> },
    Messages { messages: Seq<MessageEntryView>, message: Seq<char> },
    Scan { message: Seq<char>, content: Seq<char> },
}

/// The mathematical value of a [`Reply`].
#[verifier::ext_equal]
pub struct ReplyView {
    pub status: Status,
    pub body: BodyView,
}

/// The characters of a text that may be missing.
pub open spec fn text_of(text: Option<String>) -> Option<Seq<char>> {
    match text {
        Some(t) => Some(t@),
        None => None,
    }
}

impl View for ChatEntry {
    type V = ChatEntryView;

    open spec fn view(&self) -> ChatEntryView {
        ChatEntryView {
            chat_id: self.chat_id@,
            title: self.title@,
            created_at: text_of(self.created_at),
        }
    }
}

impl View for MessageEntry {
    type V = MessageEntryView;

    open spec fn view(&self) -> MessageEntryView {
        MessageEntryView {
            role: self.role@,
            content: self.content@,
            timestamp: text_of(self.timestamp),
        }
    }
}

impl View for Body {
    type V = BodyView;

    open spec fn view(&self) -> BodyView {
        match self {
            Body::Message(m) => BodyView::Message(m@),
            Body::Text(t) => BodyView::Text(t@),
            Body::Plain(t) => BodyView::Plain(t@),
            Body::Chats { chats, message } => BodyView::Chats {
                chats: chats@.map_values(|e: ChatEntry| e@),
                message: message@,
            },
            Body::Messages { messages, message } => BodyView::Messages {
                messages: messages@.map_values(|e: MessageEntry| e@),
                message: message@,
            },
            Body::Scan { message, content } => BodyView::Scan {
                message: message@,
                content: content@,
            },
        }
    }
}

impl View for Reply {
    type V = ReplyView;

    open spec fn view(&self) -> ReplyView {
        ReplyView { status: self.status, body: self.body@ }
    }
}

/// The answer `{"message": text}` with the given status.
pub open spec fn message_reply(status: Status, text: Seq<char>) -> ReplyView {
    ReplyView { status, body: BodyView::Message(text) }
}

/// The answer that is the JSON string `text`, with the given status.
pub open spec fn text_reply(status: Status, text: Seq<char>) -> ReplyView {
    ReplyView { status, body: BodyView::Text(text) }
}

impl Reply {
    /// The answer `{"message": text}` with the given status.
    pub fn message(status: Status, text: &str) -> (reply: Reply)
        ensures
            reply@ == message_reply(status, text@),
    {
        Reply { status, body: Body::Message(text.to_owned()) }
    }

    /// The answer that is the JSON string `text`, with the given status.
    pub fn text(status: Status, text: String) -> (reply: Reply)
        ensures
            reply@ == text_reply(status, text@),
    {
        Reply { status, body: Body::Text(text) }
    }
}

/// The answer after a write: `done` where storage took it, and a server
/// error with storage's words where it did not.
pub open spec fn write_reply(outcome: Result<(), String>, done: Seq<char>) -> ReplyView {
    match outcome {
        Ok(_) => message_reply(Status::Success, done),
        Err(error) => message_reply(Status::InternalServerError, error@),
    }
}

/// The answer after a write.
fn reply_after_write(outcome: Result<(), String>, done: &str) -> (reply: Reply)
    ensures
        reply@ == write_reply(outcome, done@),
{
    match outcome {
        Ok(_) => Reply::message(Status::Success, done),
        Err(error) => Reply::message(Status::InternalServerError, error.as_str()),
    }
}

// ---------------------------------------------------------------------------
// Login
// ---------------------------------------------------------------------------

/// What storage holds for a user name.
#[derive(Debug, Clone, PartialEq, Eq)]
pub enum UserLookup {
    Found(User),
    NotFound,
    /// Storage failed; the text is its error.
    Failed(String),
}

/// What a login comes to: the answer, and with a successful login the
/// value of the `Authorization` header of the response and the session to
/// store.
#[derive(Debug, Clone, PartialEq, Eq)]
pub struct LoginResult {
    pub reply: Reply,
    pub authorization: Option<String>,
    pub session: Option<NewSession>,
}

impl LoginResult {
    /// The login was turned down with `reply`.
    pub open spec fn refused_with(self, reply: ReplyView) -> bool {
        self.reply@ == reply && self.authorization is None && self.session is None
    }

    /// The login went through: a session `session_id` of `user_id` was
    /// issued at `now` for one day, its token stands for its identifier
    /// under `secret` and reads back as that identifier, and the response
    /// hands the token out behind `Bearer `.
    pub open spec fn issued(
        self,
        user_id: u128,
        session_id: u128,
        secret: Seq<u8>,
        now: Timestamp,
    ) -> bool {
        &&& self.reply@ == message_reply(Status::Success, LOGIN_SUCCESSFUL@)
        &&& self.session matches Some(session)
        &&& session.session_id == session_id
        &&& session.user_id == user_id
        &&& token_for(session_id, secret) == Some(session.token@)
        &&& decoded_session_id(session.token@, secret) == Some(session_id)
        &&& session.created_at == Some(now)
        &&& expires_one_day_after(session.expires_at, now)
        &&& self.authorization matches Some(header)
        &&& header@ == BEARER_PREFIX@ + session.token@
    }

    fn refuse(reply: Reply) -> (result: LoginResult)
        ensures
            result.refused_with(reply@),
    {
        LoginResult { reply, authorization: None, session: None }
    }
}

/// Issues the session `session_id` to a user whose password was found
/// right.
pub fn issue_session(user_id: u128, session_id: u128, secret: &[u8], now: Timestamp) -> (result:
    LoginResult)
    ensures
        result.issued(user_id, session_id, secret@, now),
{
    match generate_jwt(&session_id, secret) {
        Ok(token) => {
            let session = NewSession::issued_at(session_id, user_id, &token, now);
            let header = BEARER_PREFIX.to_owned().concat(token.as_str());
            LoginResult {
                reply: Reply::message(Status::Success, LOGIN_SUCCESSFUL),
                authorization: Some(header),
                session: Some(session),
            }
        },
        Err(error) => LoginResult::refuse(
            Reply::text(Status::InternalServerError, error.message()),
        ),
    }
}

/// Answers a login, given what storage holds for the user name.
///
/// An unknown user is answered with `NotFound`, a failure of storage with a
/// server error, a wrong password with `Unauthorized`. A right password
/// gets a session under a fresh random identifier. The session is yet to be
/// stored: [`login_reply`] gives the answer once storage was asked to.
pub fn handle_login(lookup: UserLookup, payload: &LoginPayload, secret: &[u8], now: Timestamp) -> (result:
    LoginResult)
    ensures
        match lookup {
            UserLookup::NotFound => result.refused_with(
                message_reply(Status::NotFound, USER_NOT_FOUND@),
            ),
            UserLookup::Failed(error) => result.refused_with(
                text_reply(Status::InternalServerError, error@),
            ),
            UserLookup::Found(user) => match bcrypt_matches(
                payload.password@,
                user.password_hash@,
            ) {
                None => result.refused_with(
                    message_reply(Status::InternalServerError, PASSWORD_CHECK_FAILED@),
                ),
                Some(false) => result.refused_with(
                    message_reply(Status::Unauthorized, WRONG_PASSWORD@),
                ),
                Some(true) => exists|session_id: u128|
                    is_v4(session_id) && #[trigger] result.issued(
                        user.user_id,
                        session_id,
                        secret@,
                        now,
                    ),
            },
        },
{
    match lookup {
        UserLookup::NotFound => LoginResult::refuse(
            Reply::message(Status::NotFound, USER_NOT_FOUND),
        ),
        UserLookup::Failed(error) => LoginResult::refuse(
            Reply::text(Status::InternalServerError, error),
        ),
        UserLookup::Found(user) => match verify_password(
            payload.password.as_str(),
            user.password_hash.as_str(),
        ) {
            Ok(true) => {
                let session_id = generate_uuid();
                issue_session(user.user_id, session_id, secret, now)
            },
            Ok(false) => LoginResult::refuse(Reply::message(Status::Unauthorized, WRONG_PASSWORD)),
            Err(_) => LoginResult::refuse(
                Reply::message(Status::InternalServerError, PASSWORD_CHECK_FAILED),
            ),
        },
    }
}

/// The answer to a login once storage was asked to insert the session.
/// Where storage took it, the login stands as it was decided. Where it did
/// not, the login is a server error with storage's words: no token is
/// handed out for a session that no record holds.
pub fn login_reply(result: LoginResult, stored: Result<(), String>) -> (answer: LoginResult)
    ensures
        match stored {
            Ok(_) => answer == result,
            Err(error) => answer.refused_with(
                message_reply(Status::InternalServerError, error@),
            ),
        },
{
    match stored {
        Ok(_) => result,
        Err(error) => LoginResult::refuse(
            Reply::message(Status::InternalServerError, error.as_str()),
        ),
    }
}

/// A login opens the session that it issues. Once storage holds the issued
/// session with the issued token and expiry, the guard admits whoever
/// presents that token at any instant before the expiry.
pub proof fn lemma_login_opens_the_session(
    result: LoginResult,
    user_id: u128,
    session_id: u128,
    secret: Seq<u8>,
    issued: Timestamp,
    stored: Session,
    later: Timestamp,
)
    requires
        result.issued(user_id, session_id, secret, issued),
        stored.session_id == session_id,
        stored.user_id == user_id,
        stored.token@ == result.session->0.token@,
        result.session->0.expires_at == Some(stored.expires_at),
        stored.expires_at.after(later),
    ensures
        named_session(Some(stored.token@), secret) == Some(session_id),
        guard(Some(stored.token@), secret, Some(stored), later) == AuthState::Authenticated(
            stored,
        ),
{
}

// ---------------------------------------------------------------------------
// Logout
// ---------------------------------------------------------------------------

/// What a logout asks for.
#[derive(Debug, Clone, PartialEq, Eq)]
pub enum LogoutPlan {
    /// Answer at once.
    Refuse(Reply),
    /// Set the expiry of the session to `at`, then answer with
    /// [`logout_reply`].
    Expire { session_id: u128, at: Timestamp },
}

/// The mathematical value of a [`LogoutPlan`].
#[verifier::ext_equal]
pub enum LogoutPlanView {
    Refuse(ReplyView),
    Expire { session_id: u128, at: Timestamp },
}

impl View for LogoutPlan {
    type V = LogoutPlanView;

    open spec fn view(&self) -> LogoutPlanView {
        match self {
            LogoutPlan::Refuse(reply) => LogoutPlanView::Refuse(reply@),
            LogoutPlan::Expire { session_id, at } => LogoutPlanView::Expire {
                session_id: *session_id,
                at: *at,
            },
        }
    }
}

/// A logout at `now`: the session that the header names is made to expire
/// at `now` if storage holds it (`found`); a request without a readable
/// header, or for a session that storage does not hold, is turned down.
pub open spec fn logout_plan(
    authorization: Option<Seq<char>>,
    secret: Seq<u8>,
    found: bool,
    now: Timestamp,
) -> LogoutPlanView {
    match named_session(authorization, secret) {
        Some(session_id) => if found {
            LogoutPlanView::Expire { session_id, at: now }
        } else {
            LogoutPlanView::Refuse(message_reply(Status::Unauthorized, NOT_LOGGED_IN@))
        },
        None => LogoutPlanView::Refuse(message_reply(Status::Unauthorized, NOT_LOGGED_IN@)),
    }
}

/// Decides a logout. `found` says whether storage holds the session that
/// [`session_to_load`] named.
pub fn handle_logout(authorization: Option<&str>, secret: &[u8], found: bool, now: Timestamp) -> (plan:
    LogoutPlan)
    ensures
        plan@ == logout_plan(presented(authorization), secret@, found, now),
{
    match session_to_load(authorization, secret) {
        Some(session_id) => if found {
            LogoutPlan::Expire { session_id, at: now }
        } else {
            LogoutPlan::Refuse(Reply::message(Status::Unauthorized, NOT_LOGGED_IN))
        },
        None => LogoutPlan::Refuse(Reply::message(Status::Unauthorized, NOT_LOGGED_IN)),
    }
}

/// The answer to a logout once storage was asked to set the expiry: a
/// server error where storage did not set it.
pub fn logout_reply(updated: bool) -> (reply: Reply)
    ensures
        reply@ == (if updated {
            message_reply(Status::Success, LOGGED_OUT@)
        } else {
            message_reply(Status::InternalServerError, LOGOUT_FAILED@)
        }),
{
    if updated {
        Reply::message(Status::Success, LOGGED_OUT)
    } else {
        Reply::message(Status::InternalServerError, LOGOUT_FAILED)
    }
}

/// A logout ends the session. Where a logout at `now` found the session,
/// it asks for the expiry of the very session that its header named to be
/// set to `now`; and once storage holds that expiry, a request at `now` or
/// later is unauthenticated, whatever it presents.
pub proof fn lemma_logout_ends_the_session(
    authorization: Option<Seq<char>>,
    secret: Seq<u8>,
    stored: Session,
    now: Timestamp,
    presented_later: Option<Seq<char>>,
    later: Timestamp,
)
    requires
        logout_plan(authorization, secret, true, now) is Expire,
        !later.before(now),
    ensures
        logout_plan(authorization, secret, true, now) == (LogoutPlanView::Expire {
            session_id: named_session(authorization, secret)->0,
            at: now,
        }),
        guard(presented_later, secret, Some(stored.expiring_at(now)), later) is Unauthenticated,
{
}

// ---------------------------------------------------------------------------
// Registration
// ---------------------------------------------------------------------------

/// What a registration asks for.
#[derive(Debug, Clone, PartialEq, Eq)]
pub enum RegisterPlan {
    /// Answer at once.
    Refuse(Reply),
    /// Insert the user, then answer with [`register_reply`].
    Insert(NewUser),
}

/// Decides a registration, given what storage holds for the user name.
///
/// A name that storage holds is taken. Where storage failed to look the
/// name up, the registration is a server error with storage's words. A new
/// user gets a fresh random identifier and a salted hash of the password.
pub fn handle_register(lookup: &UserLookup, payload: &RegisterPayload) -> (plan: RegisterPlan)
    ensures
        match *lookup {
            UserLookup::Found(_) => plan matches RegisterPlan::Refuse(reply) && reply@
                == message_reply(Status::Conflict, USERNAME_TAKEN@),
            UserLookup::Failed(error) => plan matches RegisterPlan::Refuse(reply) && reply@
                == message_reply(Status::InternalServerError, error@),
            UserLookup::NotFound => match plan {
                RegisterPlan::Refuse(reply) => reply@ == message_reply(
                    Status::InternalServerError,
                    PASSWORD_HASH_FAILED@,
                ),
                RegisterPlan::Insert(user) => {
                    &&& user.username@ == payload.username@
                    &&& user.email@ == payload.email@
                    &&& user.created_at is Some
                    &&& is_v4(user.user_id)
                    &&& bcrypt_matches(payload.password@, user.password_hash@) == Some(true)
                },
            },
        },
{
    match lookup {
        UserLookup::NotFound => match NewUser::new(
            &payload.username,
            &payload.email,
            &payload.password,
        ) {
            Ok(user) => RegisterPlan::Insert(user),
            Err(_) => RegisterPlan::Refuse(
                Reply::message(Status::InternalServerError, PASSWORD_HASH_FAILED),
            ),
        },
        UserLookup::Found(_) => RegisterPlan::Refuse(
            Reply::message(Status::Conflict, USERNAME_TAKEN),
        ),
        UserLookup::Failed(error) => RegisterPlan::Refuse(
            Reply::message(Status::InternalServerError, error.as_str()),
        ),
    }
}

/// The answer to a registration once storage was asked to insert the user.
pub fn register_reply(inserted: Result<(), String>) -> (reply: Reply)
    ensures
        reply@ == write_reply(inserted, REGISTERED@),
{
    reply_after_write(inserted, REGISTERED)
}

// ---------------------------------------------------------------------------
// Chats
// ---------------------------------------------------------------------------

/// What a request for a new chat asks for.
#[derive(Debug, Clone, PartialEq, Eq)]
pub enum ChatNewPlan {
    /// Answer at once.
    Refuse(Reply),
    /// Insert the chat, then answer with [`chat_new_reply`].
    Insert(NewChat),
}

/// The title is too short to be taken: it has fewer than three
/// characters, each Unicode scalar value counted as one.
pub open spec fn title_too_short(title: Seq<char>) -> bool {
    title.len() < MIN_TITLE_LEN
}

/// Decides a request for a new chat.
///
/// An unauthenticated request is answered with `Unauthorized`, a title of
/// fewer than three characters with `BadRequest`. Otherwise the user of the
/// session gets a chat with that title under a fresh random identifier.
pub fn chat_new(auth: &AuthState, payload: &NewChatPayload) -> (plan: ChatNewPlan)
    ensures
        match *auth {
            AuthState::Unauthenticated => plan matches ChatNewPlan::Refuse(reply) && reply@
                == message_reply(Status::Unauthorized, NOT_LOGGED_IN@),
            AuthState::Authenticated(session) => if title_too_short(payload.title@) {
                plan matches ChatNewPlan::Refuse(reply) && reply@ == message_reply(
                    Status::BadRequest,
                    TITLE_TOO_SHORT@,
                )
            } else {
                &&& plan matches ChatNewPlan::Insert(chat)
                &&& chat.user_id == session.user_id
                &&& chat.title@ == payload.title@
                &&& chat.created_at is Some
                &&& is_v4(chat.chat_id)
            },
        },
{
    match auth {
        AuthState::Unauthenticated => ChatNewPlan::Refuse(
            Reply::message(Status::Unauthorized, NOT_LOGGED_IN),
        ),
        AuthState::Authenticated(session) => {
            if payload.title.as_str().unicode_len() < MIN_TITLE_LEN {
                ChatNewPlan::Refuse(Reply::message(Status::BadRequest, TITLE_TOO_SHORT))
            } else {
                ChatNewPlan::Insert(NewChat::new(session.user_id, &payload.title))
            }
        },
    }
}

/// The answer to a request for a new chat once storage was asked to insert
/// it.
pub fn chat_new_reply(inserted: Result<(), String>) -> (reply: Reply)
    ensures
        reply@ == write_reply(inserted, CHAT_CREATED@),
{
    reply_after_write(inserted, CHAT_CREATED)
}

/// The text of a time that may be missing.
pub open spec fn time_text(at: Option<Timestamp>) -> Option<Seq<char>> {
    match at {
        Some(t) => timestamp_text(t),
        None => None,
    }
}

/// How a chat is listed.
pub open spec fn chat_entry(chat: Chat) -> ChatEntryView {
    ChatEntryView {
        chat_id: uuid_text(chat.chat_id),
        title: chat.title@,
        created_at: time_text(chat.created_at),
    }
}

/// How a message is listed.
pub open spec fn message_entry(message: Message) -> MessageEntryView {
    MessageEntryView {
        role: message.role@,
        content: message.content@,
        timestamp: time_text(message.timestamp),
    }
}

/// The answer to a request for the chats of a user, given what storage
/// listed: the chats in the order of the listing, or a server error with
/// storage's words.
pub open spec fn history_reply(listing: Result<Vec<Chat>, String>) -> ReplyView {
    match listing {
        Ok(chats) => ReplyView {
            status: Status::Success,
            body: BodyView::Chats {
                chats: chats@.map_values(|c: Chat| chat_entry(c)),
                message: HISTORY_FOUND@,
            },
        },
        Err(error) => message_reply(Status::InternalServerError, error@),
    }
}

/// The answer to a request for the messages of a chat, given what storage
/// listed: the messages in the order of the listing, or a server error
/// with storage's words.
pub open spec fn content_reply(listing: Result<Vec<Message>, String>) -> ReplyView {
    match listing {
        Ok(messages) => ReplyView {
            status: Status::Success,
            body: BodyView::Messages {
                messages: messages@.map_values(|m: Message| message_entry(m)),
                message: CONTENT_FOUND@,
            },
        },
        Err(error) => message_reply(Status::InternalServerError, error@),
    }
}

/// The text of a time that may be missing.
fn time_string(at: Option<Timestamp>) -> (text: Option<String>)
    ensures
        text_of(text) == time_text(at),
{
    match at {
        Some(t) => timestamp_string(t),
        None => None,
    }
}

/// Decides a request for the chats of the user: the user whose chats are
/// to be listed, or the answer to an unauthenticated request.
pub fn chat_history(auth: &AuthState) -> (plan: Result<u128, Reply>)
    ensures
        match *auth {
            AuthState::Authenticated(session) => plan == Ok::<u128, Reply>(session.user_id),
            AuthState::Unauthenticated => plan matches Err(reply) && reply@ == message_reply(
                Status::Unauthorized,
                NOT_LOGGED_IN@,
            ),
        },
{
    match auth {
        AuthState::Authenticated(session) => Ok(session.user_id),
        AuthState::Unauthenticated => Err(Reply::message(Status::Unauthorized, NOT_LOGGED_IN)),
    }
}

/// The answer to a request for the chats of the user, given what storage
/// listed.
pub fn chat_history_reply(listing: Result<Vec<Chat>, String>) -> (reply: Reply)
    ensures
        reply@ == history_reply(listing),
{
    match listing {
        Ok(chats) => {
            let mut entries: Vec<ChatEntry> = Vec::new();
            let mut i: usize = 0;
            while i < chats.len()
                invariant
                    i <= chats.len(),
                    entries@.len() == i,
                    entries@.map_values(|e: ChatEntry| e@) =~= chats@.take(i as int).map_values(
                        |c: Chat| chat_entry(c),
                    ),
                decreases chats.len() - i,
            {
                let chat = &chats[i];
                let entry = ChatEntry {
                    chat_id: uuid_string(chat.chat_id),
                    title: chat.title.clone(),
                    created_at: time_string(chat.created_at),
                };
                let ghost listed = entries@;
                entries.push(entry);
                proof {
                    assert(entries@[i as int]@ == chat_entry(chats@[i as int]));
                    assert(chats@.take(i as int + 1) =~= chats@.take(i as int).push(
                        chats@[i as int],
                    ));
                    assert(entries@.map_values(|e: ChatEntry| e@) =~= listed.map_values(
                        |e: ChatEntry| e@,
                    ).push(chat_entry(chats@[i as int])));
                }
                i = i + 1;
            }
            assert(chats@.take(chats.len() as int) =~= chats@);
            Reply {
                status: Status::Success,
                body: Body::Chats { chats: entries, message: HISTORY_FOUND.to_owned() },
            }
        },
        Err(error) => Reply::message(Status::InternalServerError, error.as_str()),
    }
}

/// The chat that a path names, or the answer to a path that names none.
pub open spec fn chat_of_path(chat_id: Seq<char>) -> Result<u128, ReplyView> {
    match parsed_uuid(chat_id) {
        Some(id) => Ok(id),
        None => Err(message_reply(Status::BadRequest, INVALID_UUID@)),
    }
}

/// The chat that a request is about. An unauthenticated request is
/// answered with `Unauthorized`, whatever it names; an authenticated one is
/// about the chat that its path names, and is answered with `BadRequest`
/// where the path names none.
pub open spec fn chat_of_request(auth: AuthState, chat_id: Seq<char>) -> Result<u128, ReplyView> {
    match auth {
        AuthState::Unauthenticated => Err(message_reply(Status::Unauthorized, NOT_LOGGED_IN@)),
        AuthState::Authenticated(_) => chat_of_path(chat_id),
    }
}

/// Reads the chat identifier of a request.
fn read_chat_id(auth: &AuthState, chat_id: &str) -> (plan: Result<u128, Reply>)
    ensures
        match plan {
            Ok(id) => chat_of_request(*auth, chat_id@) == Ok::<u128, ReplyView>(id),
            Err(reply) => chat_of_request(*auth, chat_id@) == Err::<u128, ReplyView>(reply@),
        },
{
    match auth {
        AuthState::Unauthenticated => Err(Reply::message(Status::Unauthorized, NOT_LOGGED_IN)),
        AuthState::Authenticated(_) => match parse_uuid(chat_id) {
            Some(id) => Ok(id),
            None => Err(Reply::message(Status::BadRequest, INVALID_UUID)),
        },
    }
}

/// A path that names no chat is the client's fault: it is answered with a
/// client error, by the listing of messages, by the deletion and by the
/// streaming endpoint alike: `Unauthorized` for an unauthenticated request
/// and `BadRequest` otherwise. A request is let through only if it is
/// authenticated and its path names a chat.
pub proof fn lemma_malformed_chat_id_is_a_client_error(auth: AuthState, chat_id: Seq<char>)
    ensures
        match chat_of_request(auth, chat_id) {
            Ok(id) => auth is Authenticated && parsed_uuid(chat_id) == Some(id),
            Err(reply) => reply.status.is_client_error() && (auth is Unauthenticated
                || parsed_uuid(chat_id) is None) && (auth is Authenticated ==> reply.status
                == Status::BadRequest),
        },
{
}

/// Decides a request for the messages of a chat: the chat whose messages
/// are to be listed, `Unauthorized` for an unauthenticated request, or
/// `BadRequest` where the path names no chat.
pub fn chat_content(auth: &AuthState, chat_id: &str) -> (plan: Result<u128, Reply>)
    ensures
        match plan {
            Ok(id) => chat_of_request(*auth, chat_id@) == Ok::<u128, ReplyView>(id),
            Err(reply) => chat_of_request(*auth, chat_id@) == Err::<u128, ReplyView>(reply@),
        },
{
    read_chat_id(auth, chat_id)
}

/// The answer to a request for the messages of a chat, given what storage
/// listed.
pub fn chat_content_reply(listing: Result<Vec<Message>, String>) -> (reply: Reply)
    ensures
        reply@ == content_reply(listing),
{
    match listing {
        Ok(messages) => {
            let mut entries: Vec<MessageEntry> = Vec::new();
            let mut i: usize = 0;
            while i < messages.len()
                invariant
                    i <= messages.len(),
                    entries@.len() == i,
                    entries@.map_values(|e: MessageEntry| e@) =~= messages@.take(
                        i as int,
                    ).map_values(|m: Message| message_entry(m)),
                decreases messages.len() - i,
            {
                let message = &messages[i];
                let entry = MessageEntry {
                    role: message.role.clone(),
                    content: message.content.clone(),
                    timestamp: time_string(message.timestamp),
                };
                let ghost listed = entries@;
                entries.push(entry);
                proof {
                    assert(entries@[i as int]@ == message_entry(messages@[i as int]));
                    assert(messages@.take(i as int + 1) =~= messages@.take(i as int).push(
                        messages@[i as int],
                    ));
                    assert(entries@.map_values(|e: MessageEntry| e@) =~= listed.map_values(
                        |e: MessageEntry| e@,
                    ).push(message_entry(messages@[i as int])));
                }
                i = i + 1;
            }
            assert(messages@.take(messages.len() as int) =~= messages@);
            Reply {
                status: Status::Success,
                body: Body::Messages { messages: entries, message: CONTENT_FOUND.to_owned() },
            }
        },
        Err(error) => Reply::message(Status::InternalServerError, error.as_str()),
    }
}

/// Decides a request to delete a chat: the chat to delete, `Unauthorized`
/// for an unauthenticated request, or `BadRequest` where the path names no
/// chat.
pub fn chat_delete(auth: &AuthState, chat_id: &str) -> (plan: Result<u128, Reply>)
    ensures
        match plan {
            Ok(id) => chat_of_request(*auth, chat_id@) == Ok::<u128, ReplyView>(id),
            Err(reply) => chat_of_request(*auth, chat_id@) == Err::<u128, ReplyView>(reply@),
        },
{
    read_chat_id(auth, chat_id)
}

/// The answer to a request to delete a chat once storage was asked to.
pub fn chat_delete_reply(deleted: bool) -> (reply: Reply)
    ensures
        reply@ == (if deleted {
            message_reply(Status::Success, CHAT_DELETED@)
        } else {
            message_reply(Status::InternalServerError, DELETE_FAILED@)
        }),
{
    if deleted {
        Reply::message(Status::Success, CHAT_DELETED)
    } else {
        Reply::message(Status::InternalServerError, DELETE_FAILED)
    }
}

// ---------------------------------------------------------------------------
// The streaming endpoint
// ---------------------------------------------------------------------------

/// Decides a request to the streaming endpoint: the user's message to
/// store before the prompt goes upstream, `Unauthorized` for an
/// unauthenticated request, or `BadRequest` where `chat_id` names no chat.
/// Nothing goes upstream for a request that is turned down.
pub fn proxy_stream(auth: &AuthState, chat_id: &str, prompt: &str) -> (plan: Result<
    NewMessage,
    Reply,
>)
    ensures
        match plan {
            Ok(message) => {
                &&& chat_of_request(*auth, chat_id@) == Ok::<u128, ReplyView>(message.chat_id)
                &&& message.role@ == ROLE_USER@
                &&& message.content@ == prompt@
                &&& message.timestamp is Some
                &&& is_v4(message.message_id)
            },
            Err(reply) => chat_of_request(*auth, chat_id@) == Err::<u128, ReplyView>(reply@),
        },
{
    match read_chat_id(auth, chat_id) {
        Ok(chat) => Ok(
            NewMessage::new(generate_uuid(), chat, &ROLE_USER.to_owned(), &prompt.to_owned()),
        ),
        Err(reply) => Err(reply),
    }
}

/// The answer where the generator could not be reached.
pub fn proxy_connect_failed() -> (reply: Reply)
    ensures
        reply@ == (ReplyView {
            status: Status::InternalServerError,
            body: BodyView::Plain(CONNECT_FAILED@),
        }),
{
    Reply { status: Status::InternalServerError, body: Body::Plain(CONNECT_FAILED.to_owned()) }
}

/// The assistant's message for a chat, to store after the upstream reply
/// was relayed to its end.
pub fn assistant_message(chat_id: u128, content: &String) -> (message: NewMessage)
    ensures
        message.chat_id == chat_id,
        message.role@ == ROLE_ASSISTANT@,
        message.content@ == content@,
        message.timestamp is Some,
        is_v4(message.message_id),
{
    NewMessage::new(generate_uuid(), chat_id, &ROLE_ASSISTANT.to_owned(), content)
}

// ---------------------------------------------------------------------------
// The scan endpoint
// ---------------------------------------------------------------------------

/// Decides a request to scan an image: the answer to an unauthenticated
/// request, or `None` where the scan is to be made.
pub fn ocr_handle(auth: &AuthState) -> (refusal: Option<Reply>)
    ensures
        match refusal {
            Some(reply) => auth is Unauthenticated && reply@ == message_reply(
                Status::Unauthorized,
                NOT_LOGGED_IN@,
            ),
            None => auth is Authenticated,
        },
{
    match auth {
        AuthState::Authenticated(_) => None,
        AuthState::Unauthenticated => Some(Reply::message(Status::Unauthorized, NOT_LOGGED_IN)),
    }
}

/// The answer to a request to scan an image: the text that was found, or
/// `BadRequest` with the words of the failure.
pub fn ocr_reply(scan: Result<String, String>) -> (reply: Reply)
    ensures
        reply@ == (match scan {
            Ok(content) => ReplyView {
                status: Status::Success,
                body: BodyView::Scan { message: SCAN_SUCCEEDED@, content: content@ },
            },
            Err(error) => message_reply(Status::BadRequest, error@),
        }),
{
    match scan {
        Ok(content) => Reply {
            status: Status::Success,
            body: Body::Scan { message: SCAN_SUCCEEDED.to_owned(), content },
        },
        Err(error) => Reply::message(Status::BadRequest, error.as_str()),
    }
}

} // verus!
