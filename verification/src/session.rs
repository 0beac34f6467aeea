//! The login session kept in Redis: its key, the `HMSET` command that
//! stores it, the record read back, and the token checks.

use vstd::prelude::*;
use crate::text::{int_decimal, str_eq, concat, i64_to_string, parse_i64_spec, law_decimal_roundtrip};
use crate::query::{QueryParams, table_of};
use crate::permission::{
    encode_password, verify_password, token_text, token_material, bcrypt_verify_outcome,
    PasswordError,
};

verus! {

/// The bytes `urlencoding` leaves as they are: ASCII letters, digits and
/// `-`, `.`, `_`, `~`.
pub open spec fn is_unreserved_byte(b: u8) -> bool {
    (48 <= b <= 57) || (65 <= b <= 90) || (97 <= b <= 122) || b == 45 || b == 46 || b == 95
        || b == 126
}

/// An uppercase hexadecimal digit.
pub open spec fn hex_upper(d: int) -> char {
    if d < 10 { (48 + d) as char } else { (55 + d) as char }
}

/// Percent-encoding of a byte string: unreserved bytes stay (as their
/// ASCII characters), every other byte becomes `%` and two uppercase hex
/// digits.
pub open spec fn url_encode_bytes(b: Seq<u8>) -> Seq<char>
    decreases b.len(),
{
    if b.len() == 0 {
        Seq::empty()
    } else {
        let x = b.last();
        url_encode_bytes(b.drop_last()) + if is_unreserved_byte(x) {
            seq![(x as int) as char]
        } else {
            seq!['%', hex_upper((x as int) / 16), hex_upper((x as int) % 16)]
        }
    }
}

/// What `urlencoding::encode` gives for a text: the percent-encoding of
/// its UTF-8 bytes.
pub open spec fn url_encoded(text: Seq<char>) -> Seq<char> {
    url_encode_bytes(vstd::utf8::encode_utf8(text))
}

/// `urlencoding::encode`: percent-encodes every byte of the UTF-8 text
/// except ASCII letters, digits and `-`, `.`, `_`, `~`, with uppercase hex
/// digits.
#[verifier::external_body]
fn url_encode(text: &str) -> (res: String)
    ensures
        res@ == url_encoded(text@),
{
    urlencoding::encode(text).into_owned()
}

/// The address of the Redis server:
/// `redis://{username}:{encoded password}@{host}`.
pub fn redis_url(username: &str, password: &str, host: &str) -> (res: String)
    ensures
        res@ == "redis://"@ + username@ + ":"@ + url_encoded(password@) + "@"@ + host@,
{
    let mut s = String::from_str("redis://");
    s.append(username);
    s.append(":");
    let encoded = url_encode(password);
    s.append(encoded.as_str());
    s.append("@");
    s.append(host);
    s
}

/// The session of a logged-in user.
#[derive(Clone, Debug)]
pub struct RedisUserInfo {
    pub userid: i64,
    pub username: String,
    pub role_urls: Vec<String>,
    pub union_id: i64,
    pub token: String,
}

/// The Redis key of a user's session hash.
pub open spec fn session_key_spec(user: Seq<char>) -> Seq<char> {
    "org_user_"@ + user
}

/// The key of the session hash of `user`.
pub fn session_key(user: &str) -> (res: String)
    ensures
        res@ == session_key_spec(user@),
{
    concat("org_user_", user)
}

/// The arguments after the key of the `HMSET` that stores a session, as
/// the Redis client writes them: each role URL is an argument of its own.
pub open spec fn session_args(info: RedisUserInfo) -> Seq<Seq<char>> {
    seq!["id"@, int_decimal(info.userid as int), "role_urls"@]
        + info.role_urls@.map_values(|s: String| s@)
        + seq!["union_id"@, int_decimal(info.union_id as int), "token"@, info.token@]
}

/// The field/value pairs an `HMSET` with these arguments sets, in order;
/// `None` when the server refuses it (no pair, or an unpaired argument).
pub open spec fn hmset_pairs_spec(args: Seq<Seq<char>>) -> Option<Seq<(Seq<char>, Seq<char>)>> {
    if args.len() == 0 || args.len() % 2 == 1 {
        None
    } else {
        Some(Seq::new((args.len() / 2) as nat, |i: int| (args[2 * i], args[2 * i + 1])))
    }
}

/// A command that stores a session: `HMSET key args..` then
/// `EXPIRE key expire`.
#[derive(Clone, Debug)]
pub struct SessionWrite {
    pub key: String,
    pub args: Vec<String>,
    pub expire: i64,
}

/// The commands that store `redis_user_info` for `expire` seconds.
pub fn redis_save_session(redis_user_info: &RedisUserInfo, expire: i64) -> (res: SessionWrite)
    ensures
        res.key@ == session_key_spec(redis_user_info.username@),
        res.args@.map_values(|s: String| s@) == session_args(*redis_user_info),
        res.expire == expire,
{
    let mut args: Vec<String> = Vec::new();
    args.push(String::from_str("id"));
    args.push(i64_to_string(redis_user_info.userid));
    args.push(String::from_str("role_urls"));
    let n = redis_user_info.role_urls.len();
    for i in 0..n
        invariant
            n == redis_user_info.role_urls@.len(),
            args@.len() == 3 + i,
            args@[0]@ == "id"@,
            args@[1]@ == int_decimal(redis_user_info.userid as int),
            args@[2]@ == "role_urls"@,
            forall|j: int| 0 <= j < i ==> #[trigger] args@[3 + j]@ == redis_user_info.role_urls@[j]@,
    {
        let u = redis_user_info.role_urls[i].clone();
        args.push(u);
    }
    let f_union = String::from_str("union_id");
    let v_union = i64_to_string(redis_user_info.union_id);
    let f_token = String::from_str("token");
    let v_token = redis_user_info.token.clone();
    assert(f_union@ == "union_id"@);
    assert(f_token@ == "token"@);
    assert(v_token@ == redis_user_info.token@);
    let ghost before = args@;
    args.push(f_union);
    args.push(v_union);
    args.push(f_token);
    args.push(v_token);
    assert(args@ == before.push(f_union).push(v_union).push(f_token).push(v_token));
    let ghost want = session_args(*redis_user_info);
    let ghost urls = redis_user_info.role_urls@.map_values(|s: String| s@);
    assert(args@.len() == want.len());
    let ghost head = seq!["id"@, int_decimal(redis_user_info.userid as int), "role_urls"@];
    let ghost tail = seq!["union_id"@, int_decimal(redis_user_info.union_id as int), "token"@,
        redis_user_info.token@];
    assert(want == head + urls + tail);
    assert forall|j: int| 0 <= j < args@.len() implies #[trigger] args@[j]@ == want[j] by {
        if j < 3 {
            assert(args@[j] == before[j]);
            assert(want[j] == head[j]);
        } else if j < 3 + n {
            assert(args@[j] == before[j]);
            assert(before[3 + (j - 3)]@ == redis_user_info.role_urls@[j - 3]@);
            assert(want[j] == (head + urls)[j]);
            assert((head + urls)[j] == urls[j - 3]);
            assert(urls[j - 3] == redis_user_info.role_urls@[j - 3]@);
        } else {
            assert(want[j] == tail[j - 3 - n]);
            if j == 3 + n {
                assert(args@[j] == f_union);
            } else if j == 4 + n {
                assert(args@[j] == v_union);
            } else if j == 5 + n {
                assert(args@[j] == f_token);
            } else {
                assert(args@[j] == v_token);
            }
        }
    }
    let res = SessionWrite { key: session_key(redis_user_info.username.as_str()), args, expire };
    assert(res.args@.map_values(|s: String| s@) =~= want);
    res
}

/// Pairs the arguments of an `HMSET` into the table it sets: a later field
/// replaces an earlier one; `None` when the server refuses the command.
pub fn hmset_pairs(args: &Vec<String>) -> (res: Option<QueryParams>)
    ensures
        match hmset_pairs_spec(args@.map_values(|s: String| s@)) {
            Some(p) => res matches Some(t) && t.wf() && t.pairs() == p,
            None => res is None,
        },
{
    let ghost a = args@.map_values(|s: String| s@);
    let n = args.len();
    if n == 0 || n % 2 == 1 {
        return None;
    }
    let mut t = QueryParams::new();
    let mut i: usize = 0;
    while i < n / 2
        invariant
            n == args@.len(),
            n % 2 == 0,
            a == args@.map_values(|s: String| s@),
            i <= n / 2,
            t.wf(),
            t.pairs() == Seq::new(i as nat, |k: int| (a[2 * k], a[2 * k + 1])),
        decreases n / 2 - i,
    {
        let k = args[2 * i].clone();
        let v = args[2 * i + 1].clone();
        t.insert(k, v);
        assert(t.pairs() =~= Seq::new((i + 1) as nat, |k: int| (a[2 * k], a[2 * k + 1])));
        i = i + 1;
    }
    Some(t)
}

impl RedisUserInfo {
    /// The session read back field by field; a field that is missing or
    /// does not convert reads as 0, the empty string or the empty list.
    pub fn redis_get_session(
        userid: Option<i64>,
        username: Option<String>,
        role_urls: Option<Vec<String>>,
        union_id: Option<i64>,
        token: Option<String>,
    ) -> (res: RedisUserInfo)
        ensures
            res.userid == match userid { Some(v) => v, None => 0 },
            res.username@ == match username { Some(v) => v@, None => Seq::<char>::empty() },
            res.role_urls@ == match role_urls { Some(v) => v@, None => Seq::<String>::empty() },
            res.union_id == match union_id { Some(v) => v, None => 0 },
            res.token@ == match token { Some(v) => v@, None => Seq::<char>::empty() },
    {
        RedisUserInfo {
            userid: match userid { Some(v) => v, None => 0 },
            username: match username { Some(v) => v, None => String::new() },
            role_urls: match role_urls { Some(v) => v, None => Vec::new() },
            union_id: match union_id { Some(v) => v, None => 0 },
            token: match token { Some(v) => v, None => String::new() },
        }
    }

    /// The session's token is `token`.
    pub fn token_eq(&self, token: &str) -> (res: bool)
        ensures
            res == (self.token@ == token@),
    {
        str_eq(self.token.as_str(), token)
    }

    /// `token` passes bcrypt against `hash`; a hash bcrypt refuses fails.
    pub fn token_verify_with_hash(&self, token: &str, hash: &str) -> (res: bool)
        ensures
            res == (bcrypt_verify_outcome(token@, hash@) == Some(true)),
    {
        match verify_password(token, hash) {
            Ok(b) => b,
            Err(_) => false,
        }
    }

    /// Hashes the session's token text (user name and role list) with a
    /// fresh salt and checks `token` against that hash. `Err` when hashing
    /// fails. Whatever the salt, the token text itself passes.
    pub fn token_verify(&self, token: &str) -> (res: Result<bool, PasswordError>)
        ensures
            res matches Ok(b) ==> exists|h: Seq<char>|
                bcrypt_verify_outcome(token_material(self.username@, self.role_urls@), h)
                    == Some(true) && b == (bcrypt_verify_outcome(token@, h) == Some(true)),
            res matches Ok(b) ==> (token@ == token_material(self.username@, self.role_urls@)
                ==> b),
            res matches Err(e) ==> e == PasswordError::HashFailed,
    {
        let new = token_text(self.username.as_str(), &self.role_urls);
        match encode_password(new.as_str()) {
            Ok(h) => Ok(self.token_verify_with_hash(token, h.as_str())),
            Err(e) => Err(e),
        }
    }
}

// ---------------------------------------------------------------------
// Laws
// ---------------------------------------------------------------------

/// Storing a session and reading the hash back: the `HMSET` is accepted
/// exactly when the user has an odd number of role URLs (each URL is an
/// argument of its own), and then the `token` field holds the session's
/// token and the `union_id` field its union, whatever the URLs are; read
/// as a number, the `union_id` field gives the union back.
pub proof fn law_session_token_roundtrip(info: RedisUserInfo)
    ensures
        hmset_pairs_spec(session_args(info)) is Some <==> info.role_urls@.len() % 2 == 1,
        info.role_urls@.len() % 2 == 1 ==> ({
            let t = table_of(hmset_pairs_spec(session_args(info))->0);
            &&& t.contains_key("token"@)
            &&& t["token"@] == info.token@
            &&& t.contains_key("union_id"@)
            &&& t["union_id"@] == int_decimal(info.union_id as int)
            &&& parse_i64_spec(t["union_id"@]) == Some(info.union_id)
        }),
{
    law_decimal_roundtrip(info.union_id);
    let a = session_args(info);
    let n = info.role_urls@.len();
    assert(a.len() == 7 + n);
    if n % 2 == 1 {
        let p = hmset_pairs_spec(a)->0;
        let m = p.len();
        assert(m == (7 + n) / 2);
        assert(2 * (m - 1) == a.len() - 2);
        assert(a[a.len() - 2] == "token"@);
        assert(a[a.len() - 1] == info.token@);
        assert(a[a.len() - 4] == "union_id"@);
        assert(a[a.len() - 3] == int_decimal(info.union_id as int));
        assert(p[m - 1] == (a[2 * (m - 1)], a[2 * (m - 1) + 1]));
        assert(p[m - 2] == (a[2 * (m - 2)], a[2 * (m - 2) + 1]));
        assert(p.drop_last().last() == p[m - 2]);
        reveal_strlit("token");
        reveal_strlit("union_id");
        assert("token"@ != "union_id"@);
        assert(table_of(p) == table_of(p.drop_last()).insert("token"@, info.token@));
        assert(table_of(p.drop_last()) == table_of(p.drop_last().drop_last()).insert(
            "union_id"@,
            int_decimal(info.union_id as int),
        ));
    }
}

} // verus!
