use chat_backend::handlers::{
    assistant_message, chat_history, chat_history_reply, chat_new, chat_new_reply, handle_login,
    handle_logout, handle_register, login_reply, logout_reply, proxy_stream, register_reply, Body,
    ChatNewPlan,
    LogoutPlan, RegisterPlan, Status, UserLookup,
};
use chat_backend::middleware::{auth_middleware, session_to_load, AuthState};
use chat_backend::models::{
    Chat, LoginPayload, Message, NewChat, NewChatPayload, NewMessage, NewSession, NewUser,
    RegisterPayload, Session, Timestamp, User,
};
use chat_backend::relay::{Relay, RelayAction, UpstreamEvent};
use chat_backend::utils::uuid_string;

const SECRET: &[u8] = b"a secret of the server";

/// What a database would hold, kept in memory.
struct Store {
    users: Vec<User>,
    sessions: Vec<Session>,
    chats: Vec<Chat>,
    messages: Vec<Message>,
}

impl Store {
    fn new() -> Self {
        Store { users: vec![], sessions: vec![], chats: vec![], messages: vec![] }
    }

    fn find_user(&self, name: &str) -> UserLookup {
        match self.users.iter().find(|u| u.username == name) {
            Some(user) => UserLookup::Found(user.clone()),
            None => UserLookup::NotFound,
        }
    }

    fn insert_user(&mut self, user: NewUser) {
        self.users.push(User {
            user_id: user.user_id,
            username: user.username,
            email: user.email,
            password_hash: user.password_hash,
            created_at: user.created_at,
        });
    }

    fn insert_session(&mut self, session: NewSession) {
        self.sessions.push(Session {
            session_id: session.session_id,
            user_id: session.user_id,
            token: session.token,
            created_at: session.created_at,
            expires_at: session.expires_at.unwrap(),
        });
    }

    fn find_session(&self, id: u128) -> Option<Session> {
        self.sessions.iter().find(|s| s.session_id == id).cloned()
    }

    fn expire_session(&mut self, id: u128, at: Timestamp) -> bool {
        match self.sessions.iter_mut().find(|s| s.session_id == id) {
            Some(session) => {
                session.expires_at = at;
                true
            }
            None => false,
        }
    }

    fn insert_chat(&mut self, chat: NewChat) {
        self.chats.push(Chat { chat_id: chat.chat_id, user_id: chat.user_id, title: chat.title, created_at: chat.created_at });
    }

    fn insert_message(&mut self, message: NewMessage) {
        self.messages.push(Message {
            message_id: message.message_id,
            chat_id: message.chat_id,
            role: message.role,
            content: message.content,
            timestamp: message.timestamp,
        });
    }

    fn chats_of(&self, user: u128) -> Vec<Chat> {
        self.chats.iter().filter(|c| c.user_id == user).cloned().collect()
    }

    fn authenticate(&self, header: Option<&str>, now: Timestamp) -> AuthState {
        let lookup = session_to_load(header, SECRET).and_then(|id| self.find_session(id));
        auth_middleware(header, SECRET, lookup, now)
    }
}

fn at(secs: i64) -> Timestamp {
    Timestamp { secs, nanos: 0 }
}

fn someone() -> AuthState {
    AuthState::Authenticated(Session {
        session_id: 1,
        user_id: 2,
        token: "token".to_string(),
        created_at: None,
        expires_at: at(100),
    })
}

fn registered_store() -> Store {
    let mut store = Store::new();
    let payload = RegisterPayload { username: "ann".to_string(), password: "hunter2".to_string(), email: "ann@example.org".to_string() };
    match handle_register(&store.find_user("ann"), &payload) {
        RegisterPlan::Insert(user) => store.insert_user(user),
        RegisterPlan::Refuse(reply) => panic!("refused: {reply:?}"),
    }
    assert_eq!(register_reply(Ok(())).status, Status::Success);
    store
}

/// Logs `ann` in at `now` and hands back the issued token.
fn log_in(store: &mut Store, now: Timestamp) -> String {
    let payload = LoginPayload { username: "ann".to_string(), password: "hunter2".to_string() };
    let result = handle_login(store.find_user("ann"), &payload, SECRET, now);
    let session = result.session.clone().unwrap();
    let token = session.token.clone();
    store.insert_session(session);
    let answer = login_reply(result, Ok(()));
    assert_eq!(answer.reply.status, Status::Success);
    assert_eq!(answer.authorization, Some(format!("Bearer {token}")));
    token
}

#[test]
fn login_then_new_chat_then_history() {
    let mut store = registered_store();
    let token = log_in(&mut store, at(1_000));

    let auth = store.authenticate(Some(&token), at(1_010));
    assert!(auth.is_authenticated());

    let short = NewChatPayload { title: "ab".to_string() };
    match chat_new(&auth, &short) {
        ChatNewPlan::Refuse(reply) => {
            assert_eq!(reply.status, Status::BadRequest);
            assert_eq!(reply.body, Body::Message("标题过短".to_string()));
        }
        ChatNewPlan::Insert(chat) => panic!("took a short title: {chat:?}"),
    }
    assert!(store.chats.is_empty());

    let two_wide = NewChatPayload { title: "你好".to_string() };
    match chat_new(&auth, &two_wide) {
        ChatNewPlan::Refuse(reply) => assert_eq!(reply.status, Status::BadRequest),
        ChatNewPlan::Insert(chat) => panic!("took a short title: {chat:?}"),
    }

    let long = NewChatPayload { title: "hello".to_string() };
    let chat_id = match chat_new(&auth, &long) {
        ChatNewPlan::Insert(chat) => {
            let id = chat.chat_id;
            store.insert_chat(chat);
            id
        }
        ChatNewPlan::Refuse(reply) => panic!("refused: {reply:?}"),
    };
    assert_eq!(chat_new_reply(Ok(())).status, Status::Success);

    let owner = chat_history(&auth).unwrap();
    let reply = chat_history_reply(Ok(store.chats_of(owner)));
    assert_eq!(reply.status, Status::Success);
    match reply.body {
        Body::Chats { chats, .. } => {
            assert_eq!(chats.len(), 1);
            assert_eq!(chats[0].title, "hello");
            assert_eq!(chats[0].chat_id, uuid_string(chat_id));
            assert!(chats[0].created_at.is_some());
        }
        other => panic!("not a listing: {other:?}"),
    }
}

#[test]
fn login_that_cannot_be_stored_hands_out_no_token() {
    let store = registered_store();
    let payload = LoginPayload { username: "ann".to_string(), password: "hunter2".to_string() };
    let result = handle_login(store.find_user("ann"), &payload, SECRET, at(1_000));
    let token = result.session.clone().unwrap().token;
    let answer = login_reply(result, Err("no connection".to_string()));
    assert_eq!(answer.reply.status, Status::InternalServerError);
    assert_eq!(answer.authorization, None);
    assert_eq!(answer.session, None);
    assert!(!store.authenticate(Some(&token), at(1_001)).is_authenticated());
}

#[test]
fn unauthenticated_request_starts_no_exchange() {
    let store = Store::new();
    let auth = store.authenticate(None, at(1));
    let plan = proxy_stream(&auth, "a1a2a3a4-b1b2-c1c2-d1d2-d3d4d5d6d7d8", "say abc");
    assert_eq!(plan.unwrap_err().status, Status::Unauthorized);
}

#[test]
fn repeated_registration_is_a_conflict() {
    let store = registered_store();
    let payload = RegisterPayload { username: "ann".to_string(), password: "other".to_string(), email: "x@y.z".to_string() };
    match handle_register(&store.find_user("ann"), &payload) {
        RegisterPlan::Refuse(reply) => assert_eq!(reply.status, Status::Conflict),
        RegisterPlan::Insert(user) => panic!("registered twice: {user:?}"),
    }
}

#[test]
fn session_lasts_one_day() {
    let mut store = registered_store();
    let token = log_in(&mut store, at(1_000));
    assert!(store.authenticate(Some(&token), at(1_000)).is_authenticated());
    assert!(store.authenticate(Some(&token), at(87_399)).is_authenticated());
    assert!(!store.authenticate(Some(&token), at(87_400)).is_authenticated());
    assert!(!store.authenticate(Some(&token), at(87_401)).is_authenticated());
}

#[test]
fn logout_ends_the_session() {
    let mut store = registered_store();
    let token = log_in(&mut store, at(1_000));
    assert!(store.authenticate(Some(&token), at(2_000)).is_authenticated());

    let found = session_to_load(Some(&token), SECRET).and_then(|id| store.find_session(id)).is_some();
    match handle_logout(Some(&token), SECRET, found, at(2_000)) {
        LogoutPlan::Expire { session_id, at } => {
            assert_eq!(at, Timestamp { secs: 2_000, nanos: 0 });
            let updated = store.expire_session(session_id, at);
            assert_eq!(logout_reply(updated).status, Status::Success);
        }
        LogoutPlan::Refuse(reply) => panic!("refused: {reply:?}"),
    }
    assert_eq!(store.sessions.len(), 1);
    assert_eq!(store.authenticate(Some(&token), at(2_000)), AuthState::Unauthenticated);
    assert_eq!(store.authenticate(Some(&token), at(2_001)), AuthState::Unauthenticated);
    assert_eq!(store.authenticate(Some(&token), at(90_000)), AuthState::Unauthenticated);
}

#[test]
fn token_of_an_earlier_login_does_not_open_a_later_session() {
    let mut store = registered_store();
    let first = log_in(&mut store, at(1_000));
    let second = log_in(&mut store, at(1_001));
    assert_ne!(first, second);
    assert!(store.authenticate(Some(&first), at(1_500)).is_authenticated());
    assert!(store.authenticate(Some(&second), at(1_500)).is_authenticated());
    // Swap the stored tokens: each header now names a session that holds
    // another token.
    let kept = store.sessions[0].token.clone();
    store.sessions[0].token = store.sessions[1].token.clone();
    store.sessions[1].token = kept;
    assert!(!store.authenticate(Some(&first), at(1_500)).is_authenticated());
    assert!(!store.authenticate(Some(&second), at(1_500)).is_authenticated());
}

#[test]
fn exchange_stores_both_messages() {
    let mut store = Store::new();
    let chat = "a1a2a3a4-b1b2-c1c2-d1d2-d3d4d5d6d7d8";
    let user_message = proxy_stream(&someone(), chat, "say abc").unwrap();
    let chat_id = user_message.chat_id;
    store.insert_message(user_message);

    let upstream: Vec<&[u8]> = vec![b"{\"response\":[{\"chu", b"nk\":\"a\"},{\"chunk\":\"b\"},", b"{\"chunk\":\"c\"}]}"];
    let mut relay = Relay::new();
    let mut client: Vec<u8> = Vec::new();
    for chunk in &upstream {
        match relay.step(UpstreamEvent::Chunk(chunk.to_vec())) {
            RelayAction::Forward(bytes) => client.extend_from_slice(&bytes),
            other => panic!("unexpected {other:?}"),
        }
        assert_eq!(relay.step(UpstreamEvent::Delivered), RelayAction::ReadNext);
    }
    match relay.step(UpstreamEvent::End) {
        RelayAction::Persist(text) => store.insert_message(assistant_message(chat_id, &text)),
        other => panic!("unexpected {other:?}"),
    }
    assert_eq!(client, upstream.concat());
    assert_eq!(store.messages.len(), 2);
    assert_eq!(store.messages[0].role, "user");
    assert_eq!(store.messages[0].content, "say abc");
    assert_eq!(store.messages[1].role, "assistant");
    assert_eq!(store.messages[1].content, "abc");
    assert_eq!(store.messages[1].chat_id, store.messages[0].chat_id);
}

#[test]
fn abandoned_exchange_stores_only_the_prompt() {
    let mut store = Store::new();
    let user_message =
        proxy_stream(&someone(), "a1a2a3a4-b1b2-c1c2-d1d2-d3d4d5d6d7d8", "say abc").unwrap();
    let chat_id = user_message.chat_id;
    store.insert_message(user_message);

    let mut relay = Relay::new();
    let mut actions = vec![
        relay.step(UpstreamEvent::Chunk(b"{\"response\":[{\"chunk\":\"a\"}".to_vec())),
        relay.step(UpstreamEvent::Delivered),
        relay.step(UpstreamEvent::Chunk(b",{\"chunk\":\"b\"}]}".to_vec())),
        relay.step(UpstreamEvent::ReceiverGone),
    ];
    actions.push(relay.step(UpstreamEvent::End));
    for action in actions {
        if let RelayAction::Persist(text) = action {
            store.insert_message(assistant_message(chat_id, &text));
        }
    }
    assert_eq!(store.messages.len(), 1);
    assert_eq!(store.messages[0].role, "user");
}
