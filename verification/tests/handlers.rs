use chat_backend::handlers::{
    assistant_message, chat_content, chat_content_reply, chat_delete, chat_delete_reply,
    chat_history, chat_history_reply, chat_new, chat_new_reply, handle_login, handle_logout,
    handle_register, issue_session, login_reply, logout_reply, ocr_handle, ocr_reply, proxy_connect_failed,
    proxy_stream, register_reply, Body, ChatEntry, ChatNewPlan, LoginResult, LogoutPlan,
    MessageEntry, RegisterPlan, Reply, Status, UserLookup, LISTING_STATUS, MIN_TITLE_LEN,
};
use chat_backend::middleware::AuthState;
use chat_backend::models::{
    Chat, LoginPayload, Message, NewChatPayload, RegisterPayload, Session, Timestamp, User,
};
use chat_backend::utils::{decode_jwt, generate_jwt, verify_password};

const SECRET: &[u8] = b"secret";
const ID: u128 = 0xa1a2a3a4b1b2c1c2d1d2d3d4d5d6d7d8;
const ID_TEXT: &str = "a1a2a3a4-b1b2-c1c2-d1d2-d3d4d5d6d7d8";
const OWNER: u128 = 0x11111111222233334444555555555555;

fn at(secs: i64) -> Timestamp {
    Timestamp { secs, nanos: 0 }
}

fn message(status: Status, text: &str) -> Reply {
    Reply { status, body: Body::Message(text.to_string()) }
}

fn user(password: &str) -> User {
    User {
        user_id: OWNER,
        username: "ann".to_string(),
        email: "ann@example.org".to_string(),
        password_hash: bcrypt::hash(password, 4).unwrap(),
        created_at: Some(at(1)),
    }
}

fn login(password: &str) -> LoginPayload {
    LoginPayload { username: "ann".to_string(), password: password.to_string() }
}

fn authenticated() -> AuthState {
    AuthState::Authenticated(Session {
        session_id: ID,
        user_id: OWNER,
        token: "token".to_string(),
        created_at: Some(at(1)),
        expires_at: at(100),
    })
}

fn refused(reply: Reply) -> LoginResult {
    LoginResult { reply, authorization: None, session: None }
}

#[test]
fn status_numbers() {
    assert_eq!(Status::Success.code(), 200);
    assert_eq!(Status::BadRequest.code(), 400);
    assert_eq!(Status::Unauthorized.code(), 401);
    assert_eq!(Status::NotFound.code(), 404);
    assert_eq!(Status::Conflict.code(), 409);
    assert_eq!(Status::InternalServerError.code(), 500);
}

#[test]
fn reply_builders() {
    assert_eq!(Reply::message(Status::Conflict, "x"), message(Status::Conflict, "x"));
    assert_eq!(
        Reply::text(Status::NotFound, "y".to_string()),
        Reply { status: Status::NotFound, body: Body::Text("y".to_string()) }
    );
}

#[test]
fn login_of_an_unknown_user_is_not_found() {
    let result = handle_login(UserLookup::NotFound, &login("pw"), SECRET, at(10));
    assert_eq!(result, refused(message(Status::NotFound, "用户不存在")));
}

#[test]
fn login_with_failed_storage_is_a_server_error() {
    let result = handle_login(UserLookup::Failed("pool timed out".to_string()), &login("pw"), SECRET, at(10));
    assert_eq!(
        result,
        refused(Reply { status: Status::InternalServerError, body: Body::Text("pool timed out".to_string()) })
    );
}

#[test]
fn login_with_a_wrong_password_is_unauthorized() {
    let result = handle_login(UserLookup::Found(user("right")), &login("wrong"), SECRET, at(10));
    assert_eq!(result, refused(message(Status::Unauthorized, "密码不正确")));
}

#[test]
fn login_against_a_malformed_hash_is_a_server_error() {
    let mut stored = user("right");
    stored.password_hash = "plain".to_string();
    let result = handle_login(UserLookup::Found(stored), &login("plain"), SECRET, at(10));
    assert_eq!(result, refused(message(Status::InternalServerError, "Failed to check password")));
}

#[test]
fn login_with_the_right_password_issues_a_session() {
    let result = handle_login(UserLookup::Found(user("right")), &login("right"), SECRET, at(1_000));
    assert_eq!(result.reply, message(Status::Success, "Login successful"));
    let session = result.session.unwrap();
    assert_eq!(session.user_id, OWNER);
    assert_eq!((session.session_id >> 76) & 0xf, 4);
    assert_eq!(session.created_at, Some(at(1_000)));
    assert_eq!(session.expires_at, Some(at(87_400)));
    assert_eq!(Ok(session.token.clone()), generate_jwt(&session.session_id, SECRET));
    assert_eq!(decode_jwt(&session.token, SECRET), Ok(session.session_id));
    assert_eq!(result.authorization, Some(format!("Bearer {}", session.token)));
}

#[test]
fn two_logins_get_two_sessions() {
    let stored = user("right");
    let first = handle_login(UserLookup::Found(stored.clone()), &login("right"), SECRET, at(1_000));
    let second = handle_login(UserLookup::Found(stored), &login("right"), SECRET, at(1_000));
    let (first, second) = (first.session.unwrap(), second.session.unwrap());
    assert_ne!(first.session_id, second.session_id);
    assert_ne!(first.token, second.token);
}

#[test]
fn issued_session_is_pinned_by_its_identifier() {
    let result = issue_session(OWNER, ID, SECRET, at(5));
    let token = generate_jwt(&ID, SECRET).unwrap();
    assert_eq!(result.reply, message(Status::Success, "Login successful"));
    assert_eq!(result.authorization, Some(format!("Bearer {token}")));
    let session = result.session.unwrap();
    assert_eq!(session.session_id, ID);
    assert_eq!(session.user_id, OWNER);
    assert_eq!(session.token, token);
    assert_eq!(session.created_at, Some(at(5)));
    assert_eq!(session.expires_at, Some(at(86_405)));
}

#[test]
fn logout_without_a_readable_header_is_unauthorized() {
    let refusal = LogoutPlan::Refuse(message(Status::Unauthorized, "用户未登录"));
    assert_eq!(handle_logout(None, SECRET, true, at(10)), refusal);
    assert_eq!(handle_logout(Some("abc"), SECRET, true, at(10)), refusal);
    assert_eq!(handle_logout(Some(""), SECRET, false, at(10)), refusal);
}

#[test]
fn logout_of_an_unknown_session_is_unauthorized() {
    let token = generate_jwt(&ID, SECRET).unwrap();
    assert_eq!(
        handle_logout(Some(&token), SECRET, false, at(10)),
        LogoutPlan::Refuse(message(Status::Unauthorized, "用户未登录"))
    );
}

#[test]
fn logout_sets_the_expiry_to_now() {
    let token = generate_jwt(&ID, SECRET).unwrap();
    assert_eq!(
        handle_logout(Some(&token), SECRET, true, Timestamp { secs: 10, nanos: 3 }),
        LogoutPlan::Expire { session_id: ID, at: Timestamp { secs: 10, nanos: 3 } }
    );
}

#[test]
fn logout_answers_after_the_update() {
    assert_eq!(logout_reply(true), message(Status::Success, "已成功退出登录"));
    assert_eq!(logout_reply(false), message(Status::InternalServerError, "登出失败"));
}

#[test]
fn registration_of_a_taken_name_is_a_conflict() {
    let payload = RegisterPayload { username: "ann".to_string(), password: "pw".to_string(), email: "a@b.c".to_string() };
    let conflict = RegisterPlan::Refuse(message(Status::Conflict, "用户名已被注册"));
    assert_eq!(handle_register(&UserLookup::Found(user("x")), &payload), conflict);
}

#[test]
fn registration_with_failed_storage_is_a_server_error() {
    let payload = RegisterPayload { username: "ann".to_string(), password: "pw".to_string(), email: "a@b.c".to_string() };
    assert_eq!(
        handle_register(&UserLookup::Failed("no connection".to_string()), &payload),
        RegisterPlan::Refuse(message(Status::InternalServerError, "no connection"))
    );
}

#[test]
fn registration_of_a_free_name_inserts_the_user() {
    let payload = RegisterPayload { username: "ann".to_string(), password: "pw".to_string(), email: "a@b.c".to_string() };
    match handle_register(&UserLookup::NotFound, &payload) {
        RegisterPlan::Insert(new_user) => {
            assert_eq!(new_user.username, "ann");
            assert_eq!(new_user.email, "a@b.c");
            assert!(new_user.created_at.is_some());
            assert_eq!((new_user.user_id >> 76) & 0xf, 4);
            assert_eq!(verify_password("pw", &new_user.password_hash), Ok(true));
        }
        RegisterPlan::Refuse(reply) => panic!("refused: {reply:?}"),
    }
}

#[test]
fn registration_answers_after_the_insert() {
    assert_eq!(register_reply(Ok(())), message(Status::Success, "注册成功"));
    assert_eq!(register_reply(Err("duplicate key".to_string())), message(Status::InternalServerError, "duplicate key"));
}

#[test]
fn new_chat_needs_a_session() {
    let payload = NewChatPayload { title: "a long title".to_string() };
    assert_eq!(
        chat_new(&AuthState::Unauthenticated, &payload),
        ChatNewPlan::Refuse(message(Status::Unauthorized, "用户未登录"))
    );
}

#[test]
fn new_chat_needs_a_title_of_three_characters() {
    assert_eq!(MIN_TITLE_LEN, 3);
    for title in ["", "a", "ab", "é", "你", "你好", "éa"] {
        let payload = NewChatPayload { title: title.to_string() };
        assert_eq!(
            chat_new(&authenticated(), &payload),
            ChatNewPlan::Refuse(message(Status::BadRequest, "标题过短")),
            "{title}"
        );
    }
    // A character is one Unicode scalar value: a letter and a combining
    // accent are two.
    for title in ["abc", "hello", "你好吗", "éab", "   ", "a\u{301}b"] {
        let payload = NewChatPayload { title: title.to_string() };
        match chat_new(&authenticated(), &payload) {
            ChatNewPlan::Insert(chat) => {
                assert_eq!(chat.user_id, OWNER);
                assert_eq!(chat.title, title);
                assert!(chat.created_at.is_some());
                assert_eq!((chat.chat_id >> 76) & 0xf, 4);
            }
            ChatNewPlan::Refuse(reply) => panic!("refused {title}: {reply:?}"),
        }
    }
}

#[test]
fn unauthenticated_request_is_refused_before_the_title_is_read() {
    let payload = NewChatPayload { title: "a".to_string() };
    assert_eq!(
        chat_new(&AuthState::Unauthenticated, &payload),
        ChatNewPlan::Refuse(message(Status::Unauthorized, "用户未登录"))
    );
}

#[test]
fn new_chat_answers_after_the_insert() {
    assert_eq!(chat_new_reply(Ok(())), message(Status::Success, "创建对话成功"));
    assert_eq!(chat_new_reply(Err("down".to_string())), message(Status::InternalServerError, "down"));
}

#[test]
fn history_needs_a_session() {
    assert_eq!(chat_history(&AuthState::Unauthenticated), Err(message(Status::Unauthorized, "用户未登录")));
    assert_eq!(chat_history(&authenticated()), Ok(OWNER));
}

#[test]
fn history_lists_the_chats_in_order() {
    let chats = vec![
        Chat { chat_id: ID, user_id: OWNER, title: "first".to_string(), created_at: Some(at(1_431_648_000)) },
        Chat { chat_id: 1, user_id: OWNER, title: "second".to_string(), created_at: None },
    ];
    assert_eq!(LISTING_STATUS, "200");
    assert_eq!(
        chat_history_reply(Ok(chats)),
        Reply {
            status: Status::Success,
            body: Body::Chats {
                chats: vec![
                    ChatEntry {
                        chat_id: ID_TEXT.to_string(),
                        title: "first".to_string(),
                        created_at: Some("2015-05-15 00:00:00".to_string()),
                    },
                    ChatEntry {
                        chat_id: "00000000-0000-0000-0000-000000000001".to_string(),
                        title: "second".to_string(),
                        created_at: None,
                    },
                ],
                message: "查询历史对话成功".to_string(),
            },
        }
    );
    assert_eq!(
        chat_history_reply(Ok(vec![])),
        Reply { status: Status::Success, body: Body::Chats { chats: vec![], message: "查询历史对话成功".to_string() } }
    );
    assert_eq!(chat_history_reply(Err("down".to_string())), message(Status::InternalServerError, "down"));
}

#[test]
fn malformed_chat_identifier_is_a_client_error() {
    let auth = authenticated();
    for path in ["", "abc", "a1a2a3a4-b1b2-c1c2-d1d2", "a1a2a3a4-b1b2-c1c2-d1d2-d3d4d5d6d7d8x", "../etc"] {
        let expected = message(Status::BadRequest, "uuid 不合法");
        assert_eq!(chat_content(&auth, path), Err(expected.clone()), "{path}");
        assert_eq!(chat_delete(&auth, path), Err(expected.clone()), "{path}");
        assert_eq!(proxy_stream(&auth, path, "hello"), Err(expected), "{path}");
    }
    assert_eq!(Status::BadRequest.code() / 100, 4);
}

#[test]
fn well_formed_chat_identifier_is_read() {
    assert_eq!(chat_content(&authenticated(), ID_TEXT), Ok(ID));
    assert_eq!(chat_delete(&authenticated(), ID_TEXT), Ok(ID));
}

#[test]
fn chat_endpoints_need_a_session() {
    let refusal = message(Status::Unauthorized, "用户未登录");
    for path in [ID_TEXT, "abc", ""] {
        assert_eq!(chat_content(&AuthState::Unauthenticated, path), Err(refusal.clone()), "{path}");
        assert_eq!(chat_delete(&AuthState::Unauthenticated, path), Err(refusal.clone()), "{path}");
        assert_eq!(proxy_stream(&AuthState::Unauthenticated, path, "hello"), Err(refusal.clone()), "{path}");
    }
    assert_eq!(Status::Unauthorized.code() / 100, 4);
}

#[test]
fn login_stands_once_the_session_is_stored() {
    let result = issue_session(OWNER, ID, SECRET, at(5));
    assert_eq!(login_reply(result.clone(), Ok(())), result);
}

#[test]
fn login_without_a_stored_session_is_a_server_error() {
    let result = issue_session(OWNER, ID, SECRET, at(5));
    assert!(result.authorization.is_some());
    assert_eq!(
        login_reply(result, Err("no connection".to_string())),
        refused(message(Status::InternalServerError, "no connection"))
    );
}

#[test]
fn content_lists_the_messages_in_order() {
    let messages = vec![
        Message { message_id: 1, chat_id: ID, role: "user".to_string(), content: "hi".to_string(), timestamp: Some(at(0)) },
        Message { message_id: 2, chat_id: ID, role: "assistant".to_string(), content: "hello".to_string(), timestamp: None },
    ];
    assert_eq!(
        chat_content_reply(Ok(messages)),
        Reply {
            status: Status::Success,
            body: Body::Messages {
                messages: vec![
                    MessageEntry {
                        role: "user".to_string(),
                        content: "hi".to_string(),
                        timestamp: Some("1970-01-01 00:00:00".to_string()),
                    },
                    MessageEntry { role: "assistant".to_string(), content: "hello".to_string(), timestamp: None },
                ],
                message: "查询对话内容成功".to_string(),
            },
        }
    );
    assert_eq!(chat_content_reply(Err("down".to_string())), message(Status::InternalServerError, "down"));
}

#[test]
fn deletion_answers_after_storage() {
    assert_eq!(chat_delete_reply(true), message(Status::Success, "对话删除成功"));
    assert_eq!(chat_delete_reply(false), message(Status::InternalServerError, "删除失败"));
}

#[test]
fn prompt_becomes_the_users_message() {
    let stored = proxy_stream(&authenticated(), ID_TEXT, "what is 2+2?").unwrap();
    assert_eq!(stored.chat_id, ID);
    assert_eq!(stored.role, "user");
    assert_eq!(stored.content, "what is 2+2?");
    assert!(stored.timestamp.is_some());
    assert_eq!((stored.message_id >> 76) & 0xf, 4);
}

#[test]
fn unreachable_generator_is_a_server_error() {
    assert_eq!(
        proxy_connect_failed(),
        Reply { status: Status::InternalServerError, body: Body::Plain("Failed to connect to backend".to_string()) }
    );
}

#[test]
fn reply_becomes_the_assistants_message() {
    let stored = assistant_message(ID, &"abc".to_string());
    assert_eq!(stored.chat_id, ID);
    assert_eq!(stored.role, "assistant");
    assert_eq!(stored.content, "abc");
    assert!(stored.timestamp.is_some());
    assert_eq!((stored.message_id >> 76) & 0xf, 4);
}

#[test]
fn scan_needs_a_session() {
    assert_eq!(ocr_handle(&AuthState::Unauthenticated), Some(message(Status::Unauthorized, "用户未登录")));
    assert_eq!(ocr_handle(&authenticated()), None);
}

#[test]
fn scan_answers_with_the_text_or_the_failure() {
    assert_eq!(
        ocr_reply(Ok("$x$".to_string())),
        Reply {
            status: Status::Success,
            body: Body::Scan { message: "扫描成功".to_string(), content: "$x$".to_string() },
        }
    );
    assert_eq!(ocr_reply(Err("timed out".to_string())), message(Status::BadRequest, "timed out"));
}
