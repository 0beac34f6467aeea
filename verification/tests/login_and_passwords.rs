use exam_server::login::{check_login, LoginAbort, LoginAction, LoginEvent, LoginReply, LoginState};
use exam_server::model::{Role, User};
use exam_server::permission::{encode_password, sha256, session_token, token_text, verify_password, PasswordError};
use exam_server::session::{hmset_pairs, redis_save_session};
use exam_server::sql::{rows_or, SqlArg};

fn user(password_hash: &str) -> User {
    User {
        id: 11,
        username: "alice".to_string(),
        password: password_hash.to_string(),
        status: 1,
        user_type: 0,
        union_id: 4,
        expire_time: Default::default(),
        create_time: Default::default(),
    }
}

fn role(name: &str, url: &str) -> Role {
    Role { id: 1, name: name.to_string(), url: url.to_string(), status: 1 }
}

#[test]
fn sha256_known_vectors() {
    assert_eq!(sha256("abc".to_string()), "ba7816bf8f01cfea414140de5dae2223b00361a396177a9cb410ff61f20015ad");
    assert_eq!(sha256(String::new()), "e3b0c44298fc1c149afbf4c8996fb92427ae41e4649b934ca495991b7852b855");
}

#[test]
fn token_text_and_token() {
    let urls = vec!["/a".to_string(), "all".to_string()];
    assert_eq!(token_text("bob", &urls), "bob[\"/a\", \"all\"]");
    assert_eq!(session_token("bob", &urls), sha256("bob[\"/a\", \"all\"]".to_string()));
    assert_eq!(token_text("bob", &vec![]), "bob[]");
}

#[test]
fn password_hash_and_verify() {
    let h = encode_password("secret").expect("hash");
    assert!(h.starts_with("$2b$12$"));
    assert_eq!(verify_password("secret", &h), Ok(true));
    assert_eq!(verify_password("Secret", &h), Ok(false));
    assert_eq!(verify_password("1", "1"), Err(PasswordError::InvalidHash));
}

#[test]
fn login_unknown_user() {
    let (s, a) = check_login("alice", "pw", LoginState::Start, LoginEvent::Begin);
    assert!(matches!(s, LoginState::AwaitUser));
    match &a {
        LoginAction::SelectUser(st) => {
            assert_eq!(st.sql, "select * from sys_user where username = ? and status = 1");
            assert!(matches!(&st.args[..], [SqlArg::Text(n)] if n == "alice"));
        }
        _ => panic!("expected a user lookup"),
    }
    let (s, a) = check_login("alice", "pw", s, LoginEvent::UserFound(None));
    assert!(matches!(s, LoginState::Finished(LoginReply::Error)));
    assert!(matches!(a, LoginAction::Respond(LoginReply::Error)));
}

#[test]
fn login_wrong_password_and_bad_hash() {
    let h = encode_password("right").unwrap();
    let (_, a) = check_login("alice", "wrong", LoginState::AwaitUser, LoginEvent::UserFound(Some(user(&h))));
    assert!(matches!(a, LoginAction::Respond(LoginReply::Failed)));
    let (_, a) = check_login("alice", "wrong", LoginState::AwaitUser, LoginEvent::UserFound(Some(user("plain"))));
    assert!(matches!(a, LoginAction::Abort(LoginAbort::InvalidStoredHash)));
}

#[test]
fn login_success_flow() {
    let h = encode_password("right").unwrap();
    let (s, a) = check_login("alice", "right", LoginState::AwaitUser, LoginEvent::UserFound(Some(user(&h))));
    assert!(matches!(s, LoginState::AwaitRoles(_)));
    assert!(matches!(a, LoginAction::SelectRoles(ref n) if n == "alice"));
    let roles = vec![role("lists", "/list")];
    let (s, a) = check_login("alice", "right", s, LoginEvent::RolesFound(roles));
    let info = match a {
        LoginAction::SaveSession(info) => info,
        _ => panic!("expected a session to store"),
    };
    let expected_token = sha256("alice[\"/list\"]".to_string());
    assert_eq!(info.token, expected_token);
    assert_eq!(info.userid, 11);
    assert_eq!(info.union_id, 4);
    assert_eq!(info.role_urls, vec!["/list".to_string()]);
    // the stored hash gives the issued token back
    let w = redis_save_session(&info, 60);
    let t = hmset_pairs(&w.args).unwrap();
    assert_eq!(t.get("token"), Some(&expected_token));
    let (s, a) = check_login("alice", "right", s, LoginEvent::Saved(true));
    match (s, a) {
        (LoginState::Finished(LoginReply::Success { token, userid, username, roles, union_id }), LoginAction::Respond(_)) => {
            assert_eq!(token, expected_token);
            assert_eq!(userid, 11);
            assert_eq!(username, "alice");
            assert_eq!(roles, vec!["/list".to_string()]);
            assert_eq!(union_id, 4);
        }
        _ => panic!("expected a successful answer"),
    }
}

#[test]
fn login_save_failure_and_ignored_events() {
    let (s, a) = check_login("a", "b", LoginState::AwaitSaved(LoginReply::Failed), LoginEvent::Saved(false));
    assert!(matches!(s, LoginState::Finished(LoginReply::Failed)));
    assert!(matches!(a, LoginAction::Abort(LoginAbort::SaveFailed)));
    let (s, a) = check_login("a", "b", LoginState::Start, LoginEvent::Saved(true));
    assert!(matches!(s, LoginState::Start));
    assert!(matches!(a, LoginAction::Ignore));
}

#[test]
fn login_inactive_user_is_refused() {
    let h = encode_password("right").unwrap();
    let mut u = user(&h);
    u.status = 0;
    let (s, a) = check_login("alice", "right", LoginState::AwaitUser, LoginEvent::UserFound(Some(u)));
    assert!(matches!(s, LoginState::Finished(LoginReply::Error)));
    assert!(matches!(a, LoginAction::Respond(LoginReply::Error)));
}

#[test]
fn listing_fallbacks() {
    assert_eq!(rows_or(Some(vec![1, 2]), vec![0]), vec![1, 2]);
    assert_eq!(rows_or(Some(Vec::<i64>::new()), vec![0]), Vec::<i64>::new());
    assert_eq!(rows_or(None, vec![0]), vec![0]);
    assert_eq!(rows_or::<i64>(None, vec![]), Vec::<i64>::new());
}
