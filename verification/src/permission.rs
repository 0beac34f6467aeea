//! Passwords, digests and the per-user lists shown by the account pages.

use vstd::prelude::*;
use bcrypt::BcryptError;
use crypto::digest::Digest;
use rand::seq::SliceRandom;
use crate::model::{Group, Paper, Role};
use crate::text::concat;

verus! {

#[verifier::external_type_specification]
#[verifier::external_body]
pub struct ExBcryptError(BcryptError);

/// What `bcrypt::verify(password, hash)` answers: `Some(matches)` when
/// `hash` is a well-formed bcrypt hash, `None` when bcrypt refuses it.
pub uninterp spec fn bcrypt_verify_outcome(password: Seq<char>, hash: Seq<char>) -> Option<bool>;

/// The lowercase hexadecimal SHA-256 digest of the UTF-8 bytes of a text,
/// as rust-crypto's `Sha256::input_str` followed by `result_str` gives it.
pub uninterp spec fn sha256_hex(text: Seq<char>) -> Seq<char>;

/// The text that `format!("{:?}", list)` gives for a list of strings.
pub uninterp spec fn debug_list_text(list: Seq<Seq<char>>) -> Seq<char>;

/// `bcrypt::hash(password, DEFAULT_COST)`. The salt is random, so the hash
/// is not a function of the password; what holds of every outcome is that
/// `bcrypt::verify` accepts the password against a hash it returns (the
/// source re-derives the hash from the stored cost and salt). It fails only
/// when the system random source fails.
#[verifier::external_body]
fn bcrypt_hash(password: &str) -> (res: Result<String, BcryptError>)
    ensures
        res matches Ok(h) ==> bcrypt_verify_outcome(password@, h@) == Some(true),
{
    bcrypt::hash(password, bcrypt::DEFAULT_COST)
}

/// `bcrypt::verify(password, hash)`: `Ok(b)` exactly when the outcome is
/// `Some(b)`, an error when it is `None`.
#[verifier::external_body]
fn bcrypt_verify(password: &str, hash: &str) -> (res: Result<bool, BcryptError>)
    ensures
        match res {
            Ok(b) => bcrypt_verify_outcome(password@, hash@) == Some(b),
            Err(_) => bcrypt_verify_outcome(password@, hash@) is None,
        },
{
    bcrypt::verify(password, hash)
}

/// rust-crypto `Sha256`: digest of the text's UTF-8 bytes as lowercase hex;
/// the source gives 32 bytes, hence 64 characters.
#[verifier::external_body]
fn sha256_hex_of(text: &str) -> (res: String)
    ensures
        res@ == sha256_hex(text@),
        res@.len() == 64,
{
    let mut hasher = crypto::sha2::Sha256::new();
    hasher.input_str(text);
    hasher.result_str()
}

/// `format!("{:?}", list)` on a list of strings.
#[verifier::external_body]
fn debug_list(list: &Vec<String>) -> (res: String)
    ensures
        res@ == debug_list_text(list@.map_values(|s: String| s@)),
{
    format!("{:?}", list)
}

/// `SliceRandom::choose` with the thread-local generator: `None` exactly
/// for an empty slice, otherwise one of its elements.
#[verifier::external_body]
fn choose_random(ids: &Vec<i64>) -> (res: Option<i64>)
    ensures
        res is None <==> ids@.len() == 0,
        res matches Some(x) ==> ids@.contains(x),
{
    ids.choose(&mut rand::thread_rng()).copied()
}

/// Why a password operation could not be carried out.
#[derive(Clone, Copy, Debug, PartialEq, Eq, Structural)]
pub enum PasswordError {
    /// Hashing failed (the system random source failed).
    HashFailed,
    /// The stored text is not a bcrypt hash that bcrypt accepts.
    InvalidHash,
}

/// Hashes a password with bcrypt at the default cost. Whatever the random
/// salt, a returned hash verifies against the same password.
pub fn encode_password(password: &str) -> (res: Result<String, PasswordError>)
    ensures
        res matches Ok(h) ==> bcrypt_verify_outcome(password@, h@) == Some(true),
        res matches Err(e) ==> e == PasswordError::HashFailed,
{
    match bcrypt_hash(password) {
        Ok(h) => Ok(h),
        Err(_) => Err(PasswordError::HashFailed),
    }
}

/// Checks a password against a stored bcrypt hash.
pub fn verify_password(password: &str, data_password: &str) -> (res: Result<bool, PasswordError>)
    ensures
        match bcrypt_verify_outcome(password@, data_password@) {
            Some(b) => res == Ok::<bool, PasswordError>(b),
            None => res == Err::<bool, PasswordError>(PasswordError::InvalidHash),
        },
{
    match bcrypt_verify(password, data_password) {
        Ok(b) => Ok(b),
        Err(_) => Err(PasswordError::InvalidHash),
    }
}

/// The lowercase hexadecimal SHA-256 digest of `text`.
pub fn sha256(text: String) -> (res: String)
    ensures
        res@ == sha256_hex(text@),
        res@.len() == 64,
{
    sha256_hex_of(text.as_str())
}

/// The text a session token is made from: the user name followed by the
/// debug listing of the role URLs.
pub open spec fn token_material(username: Seq<char>, role_urls: Seq<String>) -> Seq<char> {
    username + debug_list_text(role_urls.map_values(|s: String| s@))
}

/// `format!("{}{:?}", username, role_urls)`.
pub fn token_text(username: &str, role_urls: &Vec<String>) -> (res: String)
    ensures
        res@ == token_material(username@, role_urls@),
{
    let listed = debug_list(role_urls);
    concat(username, listed.as_str())
}

/// The session token of a user: the SHA-256 digest of `token_text`.
pub fn session_token(username: &str, role_urls: &Vec<String>) -> (res: String)
    ensures
        res@ == sha256_hex(token_material(username@, role_urls@)),
{
    sha256(token_text(username, role_urls))
}

/// The titles and the names of a user's groups, in the order given.
pub fn list_user_groups(groups: &Vec<Group>) -> (res: (Vec<String>, Vec<String>))
    ensures
        res.0@.len() == groups@.len(),
        res.1@.len() == groups@.len(),
        forall|i: int| 0 <= i < groups@.len() ==> #[trigger] res.0@[i]@ == groups@[i].title@,
        forall|i: int| 0 <= i < groups@.len() ==> #[trigger] res.1@[i]@ == groups@[i].name@,
{
    let mut titles: Vec<String> = Vec::new();
    let mut names: Vec<String> = Vec::new();
    for i in 0..groups.len()
        invariant
            titles@.len() == i,
            names@.len() == i,
            forall|j: int| 0 <= j < i ==> #[trigger] titles@[j]@ == groups@[j].title@,
            forall|j: int| 0 <= j < i ==> #[trigger] names@[j]@ == groups@[j].name@,
    {
        let t = groups[i].title.clone();
        let n = groups[i].name.clone();
        titles.push(t);
        names.push(n);
        assert(titles@[i as int]@ == groups@[i as int].title@);
        assert(names@[i as int]@ == groups@[i as int].name@);
    }
    (titles, names)
}

/// The names and the URLs of a user's roles, in the order given.
pub fn list_user_roles(roles: &Vec<Role>) -> (res: (Vec<String>, Vec<String>))
    ensures
        res.0@.len() == roles@.len(),
        res.1@.len() == roles@.len(),
        forall|i: int| 0 <= i < roles@.len() ==> #[trigger] res.0@[i]@ == roles@[i].name@,
        forall|i: int| 0 <= i < roles@.len() ==> #[trigger] res.1@[i]@ == roles@[i].url@,
{
    let mut names: Vec<String> = Vec::new();
    let mut urls: Vec<String> = Vec::new();
    for i in 0..roles.len()
        invariant
            names@.len() == i,
            urls@.len() == i,
            forall|j: int| 0 <= j < i ==> #[trigger] names@[j]@ == roles@[j].name@,
            forall|j: int| 0 <= j < i ==> #[trigger] urls@[j]@ == roles@[j].url@,
    {
        let n = roles[i].name.clone();
        let u = roles[i].url.clone();
        names.push(n);
        urls.push(u);
        assert(names@[i as int]@ == roles@[i as int].name@);
        assert(urls@[i as int]@ == roles@[i as int].url@);
    }
    (names, urls)
}

/// A user with the labels of their groups and roles.
#[derive(Clone, Debug)]
pub struct UserPermissions {
    pub username: String,
    pub user_groups: Vec<String>,
    pub user_roles: Vec<String>,
}

/// The account summary by group names and role URLs.
pub fn list_user(username: &str, groups: &Vec<Group>, roles: &Vec<Role>) -> (res: UserPermissions)
    ensures
        res.username@ == username@,
        res.user_groups@.len() == groups@.len(),
        res.user_roles@.len() == roles@.len(),
        forall|i: int| 0 <= i < groups@.len() ==> #[trigger] res.user_groups@[i]@ == groups@[i].name@,
        forall|i: int| 0 <= i < roles@.len() ==> #[trigger] res.user_roles@[i]@ == roles@[i].url@,
{
    let (_, user_groups) = list_user_groups(groups);
    let (_, user_roles) = list_user_roles(roles);
    UserPermissions { username: username.to_owned(), user_groups, user_roles }
}

/// The account summary by group titles and role names.
pub fn show_user(username: &str, groups: &Vec<Group>, roles: &Vec<Role>) -> (res: UserPermissions)
    ensures
        res.username@ == username@,
        res.user_groups@.len() == groups@.len(),
        res.user_roles@.len() == roles@.len(),
        forall|i: int| 0 <= i < groups@.len() ==> #[trigger] res.user_groups@[i]@ == groups@[i].title@,
        forall|i: int| 0 <= i < roles@.len() ==> #[trigger] res.user_roles@[i]@ == roles@[i].name@,
{
    let (user_groups, _) = list_user_groups(groups);
    let (user_roles, _) = list_user_roles(roles);
    UserPermissions { username: username.to_owned(), user_groups, user_roles }
}

/// A paper picked at random among the open papers of a union, by id;
/// 0 when the union has none.
pub fn random_paper_id_by_union(union_papers: &Vec<Paper>) -> (res: i64)
    ensures
        union_papers@.len() == 0 ==> res == 0,
        union_papers@.len() > 0 ==> exists|i: int|
            0 <= i < union_papers@.len() && #[trigger] union_papers@[i].id == res,
{
    let mut papers_id: Vec<i64> = Vec::new();
    for i in 0..union_papers.len()
        invariant
            papers_id@.len() == i,
            forall|j: int| 0 <= j < i ==> #[trigger] papers_id@[j] == union_papers@[j].id,
    {
        papers_id.push(union_papers[i].id);
    }
    match choose_random(&papers_id) {
        Some(x) => {
            let ghost k = choose|k: int| 0 <= k < papers_id@.len() && papers_id@[k] == x;
            assert(union_papers@[k].id == x);
            x
        },
        None => 0,
    }
}

} // verus!
