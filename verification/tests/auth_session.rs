use exam_server::auth::{AuthDecision, LoginAuth, TokenAuth, count_granting_roles, request_credentials};
use exam_server::model::Role;
use exam_server::session::{hmset_pairs, redis_save_session, redis_url, session_key, RedisUserInfo};

fn role(url: &str) -> Role {
    Role { id: 1, name: "r".to_string(), url: url.to_string(), status: 1 }
}

fn session(token: &str, urls: &[&str]) -> RedisUserInfo {
    RedisUserInfo {
        userid: 7,
        username: "alice".to_string(),
        role_urls: urls.iter().map(|s| s.to_string()).collect(),
        union_id: 3,
        token: token.to_string(),
    }
}

#[test]
fn credentials_from_query() {
    let c = request_credentials("user=alice&token=t");
    assert_eq!(c.user, "alice");
    assert_eq!(c.token, "t");
    let d = request_credentials("token=t");
    assert_eq!(d.user, "");
    assert!(TokenAuth::credentials(None).is_none());
    assert!(LoginAuth::credentials(Some("user=a")).is_some());
    assert_eq!(TokenAuth::reject_anonymous(), AuthDecision::RedirectLogin);
}

#[test]
fn role_counting() {
    let roles = vec![role("/list"), role("all"), role("/paper"), role("")];
    assert_eq!(count_granting_roles("/list_user", &roles), 3);
    assert_eq!(count_granting_roles("/x", &vec![role("/paper")]), 0);
}

#[test]
fn token_auth_decisions() {
    let s = session("t", &["/list"]);
    assert_eq!(TokenAuth::decide("/list_user", &vec![role("/list")], &s, "t"), AuthDecision::Allow);
    assert_eq!(TokenAuth::decide("/list_user", &vec![role("/list")], &s, "u"), AuthDecision::RedirectLogin);
    assert_eq!(TokenAuth::decide("/paper/1", &vec![role("/list")], &s, "t"), AuthDecision::RedirectHome);
    assert_eq!(TokenAuth::decide("/anything", &vec![role("all")], &s, "t"), AuthDecision::Allow);
    // a wrong token is refused before the roles are looked at
    assert_eq!(TokenAuth::decide("/paper/1", &vec![], &s, "u"), AuthDecision::RedirectLogin);
}

#[test]
fn login_auth_decisions() {
    let s = session("t", &[]);
    assert_eq!(LoginAuth::decide(&s, "t"), AuthDecision::RedirectHome);
    assert_eq!(LoginAuth::decide(&s, "x"), AuthDecision::Allow);
    let empty = RedisUserInfo::redis_get_session(None, None, None, None, None);
    // an absent session has the empty token, which an empty query token matches
    assert_eq!(LoginAuth::decide(&empty, ""), AuthDecision::RedirectHome);
}

#[test]
fn session_defaults_and_token_eq() {
    let s = RedisUserInfo::redis_get_session(Some(5), None, Some(vec!["/a".to_string()]), None, Some("tk".to_string()));
    assert_eq!(s.userid, 5);
    assert_eq!(s.username, "");
    assert_eq!(s.role_urls, vec!["/a".to_string()]);
    assert_eq!(s.union_id, 0);
    assert!(s.token_eq("tk"));
    assert!(!s.token_eq("tk2"));
}

#[test]
fn session_key_and_write() {
    assert_eq!(session_key("bob"), "org_user_bob");
    let s = session("tok", &["/a", "/b", "/c"]);
    let w = redis_save_session(&s, 600);
    assert_eq!(w.key, "org_user_alice");
    assert_eq!(w.expire, 600);
    let want: Vec<String> = ["id", "7", "role_urls", "/a", "/b", "/c", "union_id", "3", "token", "tok"]
        .iter().map(|s| s.to_string()).collect();
    assert_eq!(w.args, want);
}

#[test]
fn session_roundtrip_law_example() {
    let odd = redis_save_session(&session("tok", &["/a"]), 10);
    let t = hmset_pairs(&odd.args).expect("accepted");
    assert_eq!(t.get("token").map(|s| s.as_str()), Some("tok"));
    assert_eq!(t.get("union_id").map(|s| s.as_str()), Some("3"));
    assert_eq!(t.get("role_urls").map(|s| s.as_str()), Some("/a"));
    assert_eq!(t.get("userid"), None);
    let three = redis_save_session(&session("tok", &["/a", "token", "x"]), 10);
    let t3 = hmset_pairs(&three.args).expect("accepted");
    assert_eq!(t3.get("token").map(|s| s.as_str()), Some("tok"));
    let even = redis_save_session(&session("tok", &["/a", "/b"]), 10);
    assert!(hmset_pairs(&even.args).is_none());
    let none = redis_save_session(&session("tok", &[]), 10);
    assert!(hmset_pairs(&none.args).is_none());
}

#[test]
fn redis_address() {
    assert_eq!(redis_url("u", "p#1!", "h:6379"), "redis://u:p%231%21@h:6379");
    assert_eq!(redis_url("", "a-b_c.d~", "x"), "redis://:a-b_c.d~@x");
    assert_eq!(redis_url("u", "é", "x"), "redis://u:%C3%A9@x");
}

#[test]
fn token_verify_accepts_own_text() {
    let s = session("ignored", &["/a"]);
    let text = format!("{}{:?}", s.username, s.role_urls);
    assert_eq!(s.token_verify(&text), Ok(true));
    assert_eq!(s.token_verify("other"), Ok(false));
}

#[test]
fn login_page_guard_law_example() {
    let s = session("t", &["all"]);
    let roles = vec![role("all")];
    assert_eq!(TokenAuth::decide("/paper/2", &roles, &s, "t"), AuthDecision::Allow);
    assert_eq!(LoginAuth::decide(&s, "t"), AuthDecision::RedirectHome);
}

#[test]
fn anonymous_requests() {
    assert_eq!(LoginAuth::admit_anonymous(), AuthDecision::Allow);
    assert_eq!(TokenAuth::reject_anonymous(), AuthDecision::RedirectLogin);
    // with a query: the page guard refuses to /login exactly when the login guard admits
    let s = session("t", &[]);
    assert_eq!(TokenAuth::decide("/x", &vec![role("all")], &s, "bad"), AuthDecision::RedirectLogin);
    assert_eq!(LoginAuth::decide(&s, "bad"), AuthDecision::Allow);
}

#[test]
fn more_roles_keep_access_example() {
    let s = session("t", &[]);
    let few = vec![role("/paper")];
    let mut more = few.clone();
    more.push(role("/list"));
    assert_eq!(TokenAuth::decide("/paper/3", &few, &s, "t"), AuthDecision::Allow);
    assert_eq!(TokenAuth::decide("/paper/3", &more, &s, "t"), AuthDecision::Allow);
}

#[test]
fn session_union_reads_back_as_number() {
    let w = redis_save_session(&session("tok", &["/a"]), 10);
    let t = hmset_pairs(&w.args).unwrap();
    assert_eq!(t.get("union_id").and_then(|v| exam_server::text::parse_i64(v)), Some(3));
    let neg = RedisUserInfo { union_id: -5, ..session("tok", &["/a"]) };
    let t = hmset_pairs(&redis_save_session(&neg, 10).args).unwrap();
    assert_eq!(t.get("union_id").and_then(|v| exam_server::text::parse_i64(v)), Some(-5));
}
