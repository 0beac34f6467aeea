//! Request authorization: who a request claims to be, which roles grant
//! its path, and the redirect a refused request gets.

use vstd::prelude::*;
use crate::model::Role;
use crate::query::{parse_query_string, query_table};
use crate::session::RedisUserInfo;
use crate::text::{str_contains, str_eq, contains_seq, occurs_at};

verus! {

/// Guard of the pages that need a logged-in user with a matching role.
#[derive(Clone, Copy, Debug)]
pub struct TokenAuth;

/// Guard of the login page: a logged-in user is sent home.
#[derive(Clone, Copy, Debug)]
pub struct LoginAuth;

/// What a guard does with a request.
#[derive(Clone, Copy, Debug, PartialEq, Eq, Structural)]
pub enum AuthDecision {
    /// Pass the request on.
    Allow,
    /// Answer `302 Found` to `/login`.
    RedirectLogin,
    /// Answer `302 Found` to `/`.
    RedirectHome,
}

/// The user and token a request names in its query string.
#[derive(Clone, Debug)]
pub struct Credentials {
    pub user: String,
    pub token: String,
}

/// The value of `key` in a table, or the empty text.
pub open spec fn lookup_or_empty(t: Map<Seq<char>, Seq<char>>, key: Seq<char>) -> Seq<char> {
    if t.contains_key(key) { t[key] } else { Seq::empty() }
}

/// The credentials a query string names: its `user` and `token` values,
/// empty when absent.
pub open spec fn credentials_spec(query: Seq<char>) -> (Seq<char>, Seq<char>) {
    (lookup_or_empty(query_table(query), "user"@), lookup_or_empty(query_table(query), "token"@))
}

/// Reads the credentials of a request from its query string.
pub fn request_credentials(query: &str) -> (res: Credentials)
    ensures
        (res.user@, res.token@) == credentials_spec(query@),
{
    let params = parse_query_string(query);
    let user = params.get_or_empty("user");
    let token = params.get_or_empty("token");
    Credentials { user, token }
}

/// A role grants a path when its URL occurs in the path or is `all`.
pub open spec fn role_grants(path: Seq<char>, url: Seq<char>) -> bool {
    contains_seq(path, url) || url == "all"@
}

/// How many of the roles grant the path.
pub open spec fn granting_count(path: Seq<char>, roles: Seq<Role>) -> nat
    decreases roles.len(),
{
    if roles.len() == 0 {
        0
    } else {
        granting_count(path, roles.drop_last()) + if role_grants(path, roles.last().url@) {
            1nat
        } else {
            0nat
        }
    }
}

proof fn lemma_granting_count_positive(path: Seq<char>, roles: Seq<Role>)
    ensures
        granting_count(path, roles) > 0 <==> exists|i: int|
            0 <= i < roles.len() && role_grants(path, #[trigger] roles[i].url@),
        granting_count(path, roles) <= roles.len(),
    decreases roles.len(),
{
    if roles.len() > 0 {
        let r = roles.drop_last();
        lemma_granting_count_positive(path, r);
        if granting_count(path, r) > 0 {
            let i = choose|i: int| 0 <= i < r.len() && role_grants(path, #[trigger] r[i].url@);
            assert(roles[i] == r[i]);
        }
        if exists|i: int| 0 <= i < roles.len() && role_grants(path, #[trigger] roles[i].url@) {
            let i = choose|i: int| 0 <= i < roles.len() && role_grants(path, #[trigger] roles[i].url@);
            if i < roles.len() - 1 {
                assert(r[i] == roles[i]);
            }
        }
    }
}

/// Counts the roles that grant `path`.
pub fn count_granting_roles(path: &str, roles: &Vec<Role>) -> (res: usize)
    ensures
        res == granting_count(path@, roles@),
{
    let mut count: usize = 0;
    let n = roles.len();
    let mut i: usize = 0;
    while i < n
        invariant
            n == roles@.len(),
            i <= n,
            count == granting_count(path@, roles@.take(i as int)),
            count <= i,
        decreases n - i,
    {
        proof {
            assert(roles@.take(i + 1).drop_last() =~= roles@.take(i as int));
            assert(roles@.take(i + 1).last() == roles@[i as int]);
        }
        let url = roles[i].url.as_str();
        if str_contains(path, url) || str_eq("all", url) {
            count = count + 1;
        }
        i = i + 1;
    }
    assert(roles@.take(n as int) =~= roles@);
    count
}

/// The decision of `TokenAuth` once the roles and the session are known.
pub open spec fn token_auth_spec(
    path: Seq<char>,
    roles: Seq<Role>,
    session_token: Seq<char>,
    token: Seq<char>,
) -> AuthDecision {
    if session_token != token {
        AuthDecision::RedirectLogin
    } else if granting_count(path, roles) < 1 {
        AuthDecision::RedirectHome
    } else {
        AuthDecision::Allow
    }
}

/// The decision of `LoginAuth` once the session is known.
pub open spec fn login_auth_spec(session_token: Seq<char>, token: Seq<char>) -> AuthDecision {
    if session_token == token {
        AuthDecision::RedirectHome
    } else {
        AuthDecision::Allow
    }
}

/// What `TokenAuth` answers a request with query string `query` (if any),
/// for path `path`, given the roles and stored session token of the user
/// the query names.
pub open spec fn token_guard_spec(
    query: Option<Seq<char>>,
    path: Seq<char>,
    roles: Seq<Role>,
    session_token: Seq<char>,
) -> AuthDecision {
    match query {
        None => AuthDecision::RedirectLogin,
        Some(q) => token_auth_spec(path, roles, session_token, credentials_spec(q).1),
    }
}

/// What `LoginAuth` answers a request with query string `query` (if any),
/// given the stored session token of the user the query names.
pub open spec fn login_guard_spec(query: Option<Seq<char>>, session_token: Seq<char>) -> AuthDecision {
    match query {
        None => AuthDecision::Allow,
        Some(q) => login_auth_spec(session_token, credentials_spec(q).1),
    }
}

impl TokenAuth {
    /// First step: a request without a query string is sent to the login
    /// page; otherwise its credentials are to be looked up.
    pub fn credentials(query: Option<&str>) -> (res: Option<Credentials>)
        ensures
            query is None ==> res is None,
            query matches Some(q) ==> res matches Some(c) && (c.user@, c.token@)
                == credentials_spec(q@),
    {
        match query {
            Some(q) => Some(request_credentials(q)),
            None => None,
        }
    }

    /// The decision for a request without credentials.
    pub fn reject_anonymous() -> (res: AuthDecision)
        ensures
            res == AuthDecision::RedirectLogin,
    {
        AuthDecision::RedirectLogin
    }

    /// Second step, with the user's roles and stored session: a token other
    /// than the session's goes to the login page; a path no role grants goes
    /// home; anything else passes.
    pub fn decide(path: &str, roles: &Vec<Role>, session: &RedisUserInfo, token: &str) -> (res:
        AuthDecision)
        ensures
            res == token_auth_spec(path@, roles@, session.token@, token@),
    {
        let check_uri_role = count_granting_roles(path, roles);
        if !session.token_eq(token) {
            return AuthDecision::RedirectLogin;
        }
        if check_uri_role < 1 {
            return AuthDecision::RedirectHome;
        }
        AuthDecision::Allow
    }
}

impl LoginAuth {
    /// A request without a query string goes to the login page; otherwise
    /// its credentials are to be looked up.
    pub fn credentials(query: Option<&str>) -> (res: Option<Credentials>)
        ensures
            query is None ==> res is None,
            query matches Some(q) ==> res matches Some(c) && (c.user@, c.token@)
                == credentials_spec(q@),
    {
        match query {
            Some(q) => Some(request_credentials(q)),
            None => None,
        }
    }

    /// The decision for a request without a query string: it may see the
    /// login page (no session is read).
    pub fn admit_anonymous() -> (res: AuthDecision)
        ensures
            res == AuthDecision::Allow,
    {
        AuthDecision::Allow
    }

    /// With the stored session: a user whose token matches is already
    /// logged in and is sent home; anyone else may see the login page.
    pub fn decide(session: &RedisUserInfo, token: &str) -> (res: AuthDecision)
        ensures
            res == login_auth_spec(session.token@, token@),
    {
        if session.token_eq(token) {
            AuthDecision::RedirectHome
        } else {
            AuthDecision::Allow
        }
    }
}

// ---------------------------------------------------------------------
// Laws
// ---------------------------------------------------------------------

/// `TokenAuth` lets a request through exactly when its token is the
/// session's and one of the user's roles grants the path; a holder of the
/// `all` role with the session's token passes on every path.
pub proof fn law_token_auth_allows(
    path: Seq<char>,
    roles: Seq<Role>,
    session_token: Seq<char>,
    token: Seq<char>,
)
    ensures
        token_auth_spec(path, roles, session_token, token) == AuthDecision::Allow <==> (
        session_token == token && exists|i: int|
            0 <= i < roles.len() && role_grants(path, #[trigger] roles[i].url@)),
        (session_token == token && exists|i: int|
            0 <= i < roles.len() && #[trigger] roles[i].url@ == "all"@) ==> token_auth_spec(
            path,
            roles,
            session_token,
            token,
        ) == AuthDecision::Allow,
{
    lemma_granting_count_positive(path, roles);
    if session_token == token && exists|i: int|
        0 <= i < roles.len() && #[trigger] roles[i].url@ == "all"@ {
        let i = choose|i: int| 0 <= i < roles.len() && #[trigger] roles[i].url@ == "all"@;
        assert(role_grants(path, roles[i].url@));
    }
}

/// A role grants a path whenever its URL occurs anywhere in the path (at
/// any position, the empty URL included) or is `all`, and only then; so a
/// user holding such a role and presenting the session's token passes.
pub proof fn law_role_grants_substring(
    path: Seq<char>,
    url: Seq<char>,
    at: int,
    roles: Seq<Role>,
    k: int,
    session_token: Seq<char>,
)
    ensures
        (0 <= at && at + url.len() <= path.len() && path.subrange(at, at + url.len()) == url)
            ==> role_grants(path, url),
        url == "all"@ ==> role_grants(path, url),
        role_grants(path, url) ==> (url == "all"@ || exists|i: int|
            0 <= i && i + url.len() <= path.len() && #[trigger] path.subrange(i, i + url.len()) == url),
        (0 <= k < roles.len() && 0 <= at && at + roles[k].url@.len() <= path.len()
            && path.subrange(at, at + roles[k].url@.len()) == roles[k].url@) ==> token_auth_spec(
            path,
            roles,
            session_token,
            session_token,
        ) == AuthDecision::Allow,
{
    if 0 <= at && at + url.len() <= path.len() && path.subrange(at, at + url.len()) == url {
        assert(occurs_at(path, url, at));
    }
    if role_grants(path, url) && url != "all"@ {
        let i = choose|i: int| occurs_at(path, url, i);
        assert(path.subrange(i, i + url.len()) == url);
    }
    if 0 <= k < roles.len() && 0 <= at && at + roles[k].url@.len() <= path.len()
        && path.subrange(at, at + roles[k].url@.len()) == roles[k].url@ {
        assert(occurs_at(path, roles[k].url@, at));
        assert(role_grants(path, roles[k].url@));
        lemma_granting_count_positive(path, roles);
    }
}

/// For one request and one stored session, exactly one of the two guards
/// accepts the credentials: `TokenAuth` sends the request to `/login`
/// exactly when `LoginAuth` lets it through (a request without a query
/// string included), so a request `TokenAuth` lets through is sent home by
/// `LoginAuth`.
pub proof fn law_login_page_guard(
    query: Option<Seq<char>>,
    path: Seq<char>,
    roles: Seq<Role>,
    session_token: Seq<char>,
)
    ensures
        (token_guard_spec(query, path, roles, session_token) == AuthDecision::RedirectLogin)
            <==> (login_guard_spec(query, session_token) == AuthDecision::Allow),
        token_guard_spec(query, path, roles, session_token) == AuthDecision::Allow
            ==> login_guard_spec(query, session_token) == AuthDecision::RedirectHome,
{
}

/// Granting a user more roles never takes access away: a request that
/// `TokenAuth` lets through with some roles is let through with those
/// roles and any others.
pub proof fn law_more_roles_keep_access(
    path: Seq<char>,
    roles: Seq<Role>,
    more: Seq<Role>,
    session_token: Seq<char>,
    token: Seq<char>,
)
    ensures
        token_auth_spec(path, roles, session_token, token) == AuthDecision::Allow
            ==> token_auth_spec(path, roles + more, session_token, token) == AuthDecision::Allow,
{
    lemma_granting_count_positive(path, roles);
    lemma_granting_count_positive(path, roles + more);
    if token_auth_spec(path, roles, session_token, token) == AuthDecision::Allow {
        let i = choose|i: int| 0 <= i < roles.len() && role_grants(path, #[trigger] roles[i].url@);
        assert((roles + more)[i] == roles[i]);
    }
}

} // verus!
