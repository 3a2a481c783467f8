//! Accounts: registration with a hashed password, login against the stored
//! hash, and reading one's own account.

use vstd::prelude::*;
use crate::auth::{try_issue_jwt, try_issue_spec, AuthConfig, AuthUser};
use crate::clock::Instant;
use crate::errors::Rejection;
use crate::routing::{table_view, Method, Operation, Route};
use crate::store::StoreFailure;

verus! {

/// An account as the store returns it.
#[derive(Debug)]
pub struct User {
    pub id: Option<i64>,
    pub username: String,
    pub email: String,
}

/// What registration accepts.
#[derive(Debug)]
pub struct NewUser {
    pub username: String,
    pub email: String,
    pub password: String,
}

/// What registration hands to the store: the password is replaced by its
/// hash.
#[derive(Debug)]
pub struct NewUserRecord {
    pub username: String,
    pub email: String,
    pub password_hash: String,
}

/// What login accepts.
#[derive(Debug)]
pub struct LoginRequest {
    pub email: String,
    pub password: String,
}

/// What login returns.
#[derive(Debug)]
pub struct LoginResponse {
    pub token: String,
}

/// What the store keeps for checking a login.
#[derive(Debug)]
pub struct UserAuthRow {
    pub id: i64,
    pub password_hash: String,
}

/// The Argon2 hash string of `password` under `salt`, or `None` where the
/// hasher refuses the salt or fails.
pub uninterp spec fn salted_hash(password: Seq<char>, salt: Seq<char>) -> Option<Seq<char>>;

/// Whether `password` matches the hash string `hash`: `None` where `hash`
/// is not a well-formed hash string.
pub uninterp spec fn password_check(password: Seq<char>, hash: Seq<char>) -> Option<bool>;

/// Calls `RngCore::try_fill_bytes` on `rand_core::OsRng` for a salt of the
/// recommended length, and `SaltString::encode_b64` of the `password-hash`
/// crate on the bytes; hands the salt out as text, or `None` where the
/// operating system's generator fails.
///
/// The salt is random: nothing is claimed of it.
#[verifier::external_body]
fn fresh_salt() -> Option<String> {
    let mut bytes = [0u8; argon2::password_hash::Salt::RECOMMENDED_LENGTH];
    rand_core::RngCore::try_fill_bytes(&mut rand_core::OsRng, &mut bytes).ok()?;
    let salt = argon2::password_hash::SaltString::encode_b64(&bytes).ok()?;
    Some(salt.as_str().to_string())
}

/// Calls `PasswordHasher::hash_password` on `argon2::Argon2::default()`,
/// with the salt read back by `SaltString::from_b64`, and renders the hash as
/// a PHC string.
///
/// Assumed, not proved: the hash depends on the password and the salt
/// alone; and `verify_password` accepts the password against the hash
/// string, as it recomputes the hash from the parameters and salt in the
/// string and compares.
#[verifier::external_body]
fn hash_with_salt(password: &str, salt: &str) -> (r: Option<String>)
    ensures
        r matches Some(h) ==> salted_hash(password@, salt@) == Some(h@) && password_check(
            password@,
            h@,
        ) == Some(true),
        r is None ==> salted_hash(password@, salt@) is None,
{
    let salt = argon2::password_hash::SaltString::from_b64(salt).ok()?;
    let hasher = argon2::Argon2::default();
    let hash = argon2::password_hash::PasswordHasher::hash_password(
        &hasher,
        password.as_bytes(),
        &salt,
    );
    hash.ok().map(|h| h.to_string())
}

/// Calls `PasswordHash::new` on the hash string and
/// `PasswordVerifier::verify_password` on `argon2::Argon2::default()`.
///
/// Assumed, not proved: the outcome depends on the password and the hash
/// string alone. `None` stands for a hash string that does not parse; any
/// failure of the verifier counts as a mismatch.
#[verifier::external_body]
fn check_password(password: &str, hash: &str) -> (r: Option<bool>)
    ensures
        r == password_check(password@, hash@),
{
    let parsed = argon2::password_hash::PasswordHash::new(hash).ok()?;
    let hasher = argon2::Argon2::default();
    Some(
        argon2::password_hash::PasswordVerifier::verify_password(
            &hasher,
            password.as_bytes(),
            &parsed,
        ).is_ok(),
    )
}

/// The route table of the account operations.
pub open spec fn user_routes() -> Seq<(Method, Seq<char>, Operation)> {
    seq![
        (Method::Get, "/users/<id>"@, Operation::GetUser),
        (Method::Post, "/users"@, Operation::CreateUser),
        (Method::Post, "/auth/login"@, Operation::Login),
    ]
}

/// The routes of the account operations.
pub fn routes() -> (r: Vec<Route>)
    ensures
        table_view(r@) == user_routes(),
{
    let mut table: Vec<Route> = Vec::new();
    table.push(Route { method: Method::Get, path: "/users/<id>", operation: Operation::GetUser });
    table.push(Route { method: Method::Post, path: "/users", operation: Operation::CreateUser });
    table.push(Route { method: Method::Post, path: "/auth/login", operation: Operation::Login });
    assert(table_view(table@) =~= user_routes());
    table
}

/// Hashes a password under the given salt: the hash is the hasher's for
/// that password and salt, and one that the password matches; a salt that
/// the hasher refuses is a failure.
pub fn hash_password_with_salt(password: &str, salt: &str) -> (r: Result<String, Rejection>)
    ensures
        match salted_hash(password@, salt@) {
            Some(h) => r matches Ok(hash) && hash@ == h,
            None => r == Err::<String, Rejection>(Rejection::HashingFailed),
        },
        r matches Ok(hash) ==> password_check(password@, hash@) == Some(true),
{
    match hash_with_salt(password, salt) {
        Some(hash) => Ok(hash),
        None => Err(Rejection::HashingFailed),
    }
}

/// Hashes a password under a fresh random salt. The hash that comes back
/// is one that the password matches.
pub fn hash_password(password: &str) -> (r: Result<String, Rejection>)
    ensures
        match r {
            Ok(hash) => password_check(password@, hash@) == Some(true),
            Err(e) => e == Rejection::HashingFailed,
        },
{
    match fresh_salt() {
        Some(salt) => hash_password_with_salt(password, salt.as_str()),
        None => Err(Rejection::HashingFailed),
    }
}

/// What the outcome of checking a password means for a login.
pub open spec fn password_verdict_of(check: Option<bool>) -> Result<(), Rejection> {
    match check {
        None => Err(Rejection::PasswordCheckFailed),
        Some(false) => Err(Rejection::InvalidCredentials),
        Some(true) => Ok(()),
    }
}

/// Decides on the outcome of checking a password: a stored hash that cannot
/// be read is an internal error, a mismatch is a refusal.
pub fn password_verdict(check: Option<bool>) -> (r: Result<(), Rejection>)
    ensures
        r == password_verdict_of(check),
{
    match check {
        None => Err(Rejection::PasswordCheckFailed),
        Some(false) => Err(Rejection::InvalidCredentials),
        Some(true) => Ok(()),
    }
}

/// Prepares a registration for the store: the password is hashed, name
/// and e-mail are taken over.
pub fn create_user(new_user: &NewUser) -> (r: Result<NewUserRecord, Rejection>)
    ensures
        match r {
            Ok(record) => record.username@ == new_user.username@ && record.email@
                == new_user.email@ && password_check(new_user.password@, record.password_hash@)
                == Some(true),
            Err(e) => e == Rejection::HashingFailed,
        },
{
    match hash_password(new_user.password.as_str()) {
        Ok(password_hash) => Ok(
            NewUserRecord {
                username: new_user.username.clone(),
                email: new_user.email.clone(),
                password_hash,
            },
        ),
        Err(e) => Err(e),
    }
}

/// Decides a registration on the store's answer.
pub fn user_created(reply: Result<User, StoreFailure>) -> (r: Result<User, Rejection>)
    ensures
        match reply {
            Ok(user) => r matches Ok(u) && u == user,
            Err(_) => r matches Err(e) && e == Rejection::UserCreateFailed,
        },
{
    match reply {
        Ok(user) => Ok(user),
        Err(_) => Err(Rejection::UserCreateFailed),
    }
}

/// Whether `principal` may read the account `id`: only their own.
pub fn may_read_user(principal: &AuthUser, id: i64) -> (r: Result<(), Rejection>)
    ensures
        r == if id == principal.user_id {
            Ok::<(), Rejection>(())
        } else {
            Err::<(), Rejection>(Rejection::Forbidden)
        },
{
    if id != principal.user_id {
        Err(Rejection::Forbidden)
    } else {
        Ok(())
    }
}

/// Reads the principal's own account: forbidden for any other account, and
/// else decided on the store's answer to the lookup of `id`. An account
/// with another identifier is reported as not found, whatever the store
/// handed over.
pub fn get_user_by_id(principal: &AuthUser, id: i64, reply: Result<Option<User>, StoreFailure>)
    -> (r: Result<User, Rejection>)
    ensures
        if id != principal.user_id {
            r matches Err(e) && e == Rejection::Forbidden
        } else {
            match reply {
                Err(_) => r matches Err(e) && e == Rejection::UserFetchFailed,
                Ok(None) => r matches Err(e) && e == Rejection::UserNotFound,
                Ok(Some(user)) => if user.id == Some(id) {
                    r matches Ok(u) && u == user
                } else {
                    r matches Err(e) && e == Rejection::UserNotFound
                },
            }
        },
{
    match may_read_user(principal, id) {
        Err(e) => Err(e),
        Ok(()) => match reply {
            Err(_) => Err(Rejection::UserFetchFailed),
            Ok(None) => Err(Rejection::UserNotFound),
            Ok(Some(user)) => {
                let same = match user.id {
                    Some(found) => found == id,
                    None => false,
                };
                if same {
                    Ok(user)
                } else {
                    Err(Rejection::UserNotFound)
                }
            },
        },
    }
}

/// What a login returns, given the store's answer to the lookup of the
/// e-mail: the credentials are checked first, then the token is issued.
pub open spec fn login_outcome_of(
    secret: Option<Seq<char>>,
    ttl_secs: u64,
    password: Seq<char>,
    row: Result<Option<(i64, Seq<char>)>, StoreFailure>,
    now: Instant,
) -> Result<Seq<char>, Rejection> {
    match row {
        Err(_) => Err(Rejection::LoginFailed),
        Ok(None) => Err(Rejection::InvalidCredentials),
        Ok(Some((id, hash))) => match password_verdict_of(password_check(password, hash)) {
            Err(e) => Err(e),
            Ok(_) => try_issue_spec(secret, ttl_secs, id, now),
        },
    }
}

/// The store's answer to a login lookup as contracts see it.
pub open spec fn auth_row_view(row: Result<Option<UserAuthRow>, StoreFailure>) -> Result<
    Option<(i64, Seq<char>)>,
    StoreFailure,
> {
    match row {
        Err(e) => Err(e),
        Ok(None) => Ok(None),
        Ok(Some(r)) => Ok(Some((r.id, r.password_hash@))),
    }
}

/// Logs in: given the store's answer to the lookup of the e-mail, checks
/// the password against the stored hash and issues a token for the account.
/// An unknown e-mail and a wrong password are refused alike.
pub fn login(
    config: &AuthConfig,
    credentials: &LoginRequest,
    row: Result<Option<UserAuthRow>, StoreFailure>,
    now: Instant,
) -> (r: Result<LoginResponse, Rejection>)
    ensures
        match login_outcome_of(
            config.secret_view(),
            config.ttl_secs,
            credentials.password@,
            auth_row_view(row),
            now,
        ) {
            Ok(t) => r matches Ok(response) && response.token@ == t,
            Err(e) => r matches Err(x) && x == e,
        },
{
    let account = match row {
        Err(_) => {
            return Err(Rejection::LoginFailed);
        },
        Ok(None) => {
            return Err(Rejection::InvalidCredentials);
        },
        Ok(Some(account)) => account,
    };
    let check = check_password(credentials.password.as_str(), account.password_hash.as_str());
    match password_verdict(check) {
        Err(e) => Err(e),
        Ok(()) => match try_issue_jwt(config, account.id, now) {
            Ok(token) => Ok(LoginResponse { token }),
            Err(e) => Err(e),
        },
    }
}

} // verus!
