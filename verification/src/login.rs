//! The login exchange: look the user up, check the password, look the
//! roles up, issue the token, store the session, answer.

use vstd::prelude::*;
use crate::model::{Role, User};
use crate::permission::{
    bcrypt_verify_outcome, list_user_roles, session_token, sha256_hex, token_material,
    verify_password,
};
use crate::session::{RedisUserInfo, session_args, hmset_pairs_spec, law_session_token_roundtrip};
use crate::query::table_of;
use crate::auth::{token_auth_spec, AuthDecision};
use crate::sql::{select_active_user, select_active_user_spec, Statement};

verus! {

/// The answer to a login attempt.
#[derive(Clone, Debug)]
pub enum LoginReply {
    /// The user is unknown or disabled ("Login Error").
    Error,
    /// The password does not match ("Login Failed").
    Failed,
    /// Logged in ("Login Successful").
    Success {
        userid: i64,
        username: String,
        roles: Vec<String>,
        union_id: i64,
        token: String,
    },
}

/// The content of a login reply.
pub enum LoginReplyView {
    Error,
    Failed,
    Success {
        userid: i64,
        username: Seq<char>,
        roles: Seq<Seq<char>>,
        union_id: i64,
        token: Seq<char>,
    },
}

impl View for LoginReply {
    type V = LoginReplyView;

    open spec fn view(&self) -> LoginReplyView {
        match self {
            LoginReply::Error => LoginReplyView::Error,
            LoginReply::Failed => LoginReplyView::Failed,
            LoginReply::Success { userid, username, roles, union_id, token } => LoginReplyView::Success {
                userid: *userid,
                username: username@,
                roles: roles@.map_values(|s: String| s@),
                union_id: *union_id,
                token: token@,
            },
        }
    }
}

impl LoginReply {
    /// A copy of the reply.
    pub fn duplicate(&self) -> (res: LoginReply)
        ensures
            res@ == self@,
    {
        match self {
            LoginReply::Error => LoginReply::Error,
            LoginReply::Failed => LoginReply::Failed,
            LoginReply::Success { userid, username, roles, union_id, token } => {
                let r = roles.clone();
                assert(r@ =~= roles@);
                LoginReply::Success {
                    userid: *userid,
                    username: username.clone(),
                    roles: r,
                    union_id: *union_id,
                    token: token.clone(),
                }
            },
        }
    }
}

/// Where a login exchange stands.
#[derive(Clone, Debug)]
pub enum LoginState {
    Start,
    AwaitUser,
    AwaitRoles(User),
    AwaitSaved(LoginReply),
    Finished(LoginReply),
}

/// What the outside world reports back.
#[derive(Clone, Debug)]
pub enum LoginEvent {
    Begin,
    /// The account the user lookup found, if any.
    UserFound(Option<User>),
    /// The roles of the user.
    RolesFound(Vec<Role>),
    /// Whether storing the session succeeded.
    Saved(bool),
}

/// Why a login exchange cannot go on.
#[derive(Clone, Copy, Debug, PartialEq, Eq, Structural)]
pub enum LoginAbort {
    /// The stored password is not a bcrypt hash.
    InvalidStoredHash,
    /// The session could not be stored.
    SaveFailed,
}

/// What the outside world is to do next.
#[derive(Clone, Debug)]
pub enum LoginAction {
    /// Look up the active account with this name, by this statement.
    SelectUser(Statement),
    /// Look up the roles of this user.
    SelectRoles(String),
    /// Store this session.
    SaveSession(RedisUserInfo),
    /// Answer the client.
    Respond(LoginReply),
    /// Stop with an error.
    Abort(LoginAbort),
    /// The event does not fit the state; nothing to do.
    Ignore,
}

/// One step of the login exchange for `username` and `password`.
pub fn check_login(username: &str, password: &str, state: LoginState, event: LoginEvent) -> (res: (
    LoginState,
    LoginAction,
))
    ensures
        match (state, event) {
            (LoginState::Start, LoginEvent::Begin) => {
                &&& res.0 is AwaitUser
                &&& res.1 matches LoginAction::SelectUser(st) && st@ == select_active_user_spec(
                    username@,
                )
            },
            (LoginState::AwaitUser, LoginEvent::UserFound(None)) => {
                &&& res.0 matches LoginState::Finished(LoginReply::Error)
                &&& res.1 matches LoginAction::Respond(LoginReply::Error)
            },
            (LoginState::AwaitUser, LoginEvent::UserFound(Some(u))) => if u.status != 1 {
                &&& res.0 matches LoginState::Finished(LoginReply::Error)
                &&& res.1 matches LoginAction::Respond(LoginReply::Error)
            } else {
                match bcrypt_verify_outcome(password@, u.password@) {
                None => {
                    &&& res.0 matches LoginState::Finished(LoginReply::Error)
                    &&& res.1 == LoginAction::Abort(LoginAbort::InvalidStoredHash)
                },
                Some(false) => {
                    &&& res.0 matches LoginState::Finished(LoginReply::Failed)
                    &&& res.1 matches LoginAction::Respond(LoginReply::Failed)
                },
                Some(true) => {
                    &&& res.0 == LoginState::AwaitRoles(u)
                    &&& res.1 matches LoginAction::SelectRoles(n) && n@ == username@
                },
                }
            },
            (LoginState::AwaitRoles(u), LoginEvent::RolesFound(roles)) => {
                &&& res.1 matches LoginAction::SaveSession(info)
                &&& res.0 matches LoginState::AwaitSaved(LoginReply::Success {
                    userid,
                    username: name,
                    roles: urls,
                    union_id,
                    token,
                })
                &&& userid == u.id && name@ == u.username@ && union_id == u.union_id
                &&& urls@.len() == roles@.len()
                &&& forall|i: int| 0 <= i < roles@.len() ==> #[trigger] urls@[i]@ == roles@[i].url@
                &&& token@ == sha256_hex(token_material(username@, urls@))
                &&& info.userid == u.id && info.username@ == u.username@
                &&& info.union_id == u.union_id
                &&& info.role_urls@ == urls@
                &&& info.token@ == token@
            },
            (LoginState::AwaitSaved(r), LoginEvent::Saved(true)) => {
                &&& res.0 == LoginState::Finished(r)
                &&& res.1 matches LoginAction::Respond(r2) && r2@ == r@
            },
            (LoginState::AwaitSaved(r), LoginEvent::Saved(false)) => {
                &&& res.0 == LoginState::Finished(r)
                &&& res.1 == LoginAction::Abort(LoginAbort::SaveFailed)
            },
            (s, _) => {
                &&& res.0 == s
                &&& res.1 is Ignore
            },
        },
{
    match (state, event) {
        (LoginState::Start, LoginEvent::Begin) => (
            LoginState::AwaitUser,
            LoginAction::SelectUser(select_active_user(username)),
        ),
        (LoginState::AwaitUser, LoginEvent::UserFound(None)) => (
            LoginState::Finished(LoginReply::Error),
            LoginAction::Respond(LoginReply::Error),
        ),
        (LoginState::AwaitUser, LoginEvent::UserFound(Some(u))) => {
            if u.status != 1 {
                return (LoginState::Finished(LoginReply::Error), LoginAction::Respond(LoginReply::Error));
            }
            match verify_password(password, u.password.as_str()) {
                Err(_) => (
                    LoginState::Finished(LoginReply::Error),
                    LoginAction::Abort(LoginAbort::InvalidStoredHash),
                ),
                Ok(false) => (
                    LoginState::Finished(LoginReply::Failed),
                    LoginAction::Respond(LoginReply::Failed),
                ),
                Ok(true) => (LoginState::AwaitRoles(u), LoginAction::SelectRoles(username.to_owned())),
            }
        },
        (LoginState::AwaitRoles(u), LoginEvent::RolesFound(roles)) => {
            let (_role_names, role_urls) = list_user_roles(&roles);
            let token = session_token(username, &role_urls);
            let urls_copy = role_urls.clone();
            assert(urls_copy@ =~= role_urls@);
            let info = RedisUserInfo {
                userid: u.id,
                username: u.username.clone(),
                role_urls: urls_copy,
                union_id: u.union_id,
                token: token.clone(),
            };
            let reply = LoginReply::Success {
                userid: u.id,
                username: u.username,
                roles: role_urls,
                union_id: u.union_id,
                token,
            };
            (LoginState::AwaitSaved(reply), LoginAction::SaveSession(info))
        },
        (LoginState::AwaitSaved(r), LoginEvent::Saved(ok)) => {
            if ok {
                let r2 = r.duplicate();
                (LoginState::Finished(r), LoginAction::Respond(r2))
            } else {
                (LoginState::Finished(r), LoginAction::Abort(LoginAbort::SaveFailed))
            }
        },
        (s, _) => (s, LoginAction::Ignore),
    }
}

// ---------------------------------------------------------------------
// Laws
// ---------------------------------------------------------------------

/// A client that presents the token issued at login is not sent back to
/// the login page when the session was stored (an odd number of role URLs,
/// see `law_session_token_roundtrip`): the token read back from the
/// session hash is the issued one.
pub proof fn law_login_token_authorizes(info: RedisUserInfo, path: Seq<char>, roles: Seq<Role>)
    requires
        info.role_urls@.len() % 2 == 1,
    ensures
        token_auth_spec(
            path,
            roles,
            table_of(hmset_pairs_spec(session_args(info))->0)["token"@],
            info.token@,
        ) != AuthDecision::RedirectLogin,
{
    law_session_token_roundtrip(info);
}

} // verus!
