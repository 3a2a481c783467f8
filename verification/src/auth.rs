//! The authorization guard: bearer tokens signed with a shared secret, with
//! expiry as their only lifecycle bound.
//!
//! The secret, the time-to-live and the current instant are passed in by the
//! caller; nothing here reads the process environment or the clock.

use vstd::prelude::*;
use vstd::string::*;
use crate::clock::Instant;
use crate::decimal::{parse_u64, parsed_u64};
use crate::errors::{ErrorKind, Rejection};

verus! {

/// Time-to-live of a token where none is configured: 24 hours.
pub const DEFAULT_TTL_SECS: u64 = 86400;

/// The authenticated principal of one request.
#[derive(Clone, Copy, Debug, PartialEq, Eq, Structural)]
pub struct AuthUser {
    pub user_id: i64,
}

/// The claims a token carries: the subject and the expiry in Unix seconds.
#[derive(Clone, Copy, Debug, PartialEq, Eq, Structural)]
pub struct Claims {
    pub sub: i64,
    pub exp: u64,
}

/// The signing secret, if one is configured, and the time-to-live of the
/// tokens that are issued.
pub struct AuthConfig {
    pub secret: Option<String>,
    pub ttl_secs: u64,
}

/// The token that signing the claims `{sub, exp}` with `secret` yields.
pub uninterp spec fn signed_token(sub: i64, exp: u64, secret: Seq<char>) -> Seq<char>;

/// The subject and expiry of `token` if its structure and its signature under
/// `secret` are sound, else `None`. Expiry is not looked at.
pub uninterp spec fn verified_claims(token: Seq<char>, secret: Seq<char>) -> Option<(i64, u64)>;

/// The claims of a token whose structure and signature are sound.
pub open spec fn claims_of(token: Seq<char>, secret: Seq<char>) -> Option<Claims> {
    match verified_claims(token, secret) {
        Some((sub, exp)) => Some(Claims { sub, exp }),
        None => None,
    }
}

/// A token is expired when its expiry instant is at or before the current
/// instant. The expiry instant is the start of second `exp`.
pub open spec fn expired(exp: u64, now: Instant) -> bool {
    exp as int <= now.secs as int
}

/// What the guard decides once the token has been verified: `claims` is
/// `None` where verification failed.
pub open spec fn authorize_spec(claims: Option<Claims>, now: Instant) -> Result<
    AuthUser,
    Rejection,
> {
    match claims {
        None => Err(Rejection::InvalidToken),
        Some(c) => if expired(c.exp, now) {
            Err(Rejection::InvalidToken)
        } else {
            Ok(AuthUser { user_id: c.sub })
        },
    }
}

/// What the guard decides for a token.
pub open spec fn authenticate_spec(secret: Option<Seq<char>>, token: Seq<char>, now: Instant)
    -> Result<AuthUser, Rejection> {
    if token.len() == 0 {
        Err(Rejection::MissingToken)
    } else {
        match secret {
            None => Err(Rejection::SecretNotConfigured),
            Some(s) => authorize_spec(claims_of(token, s), now),
        }
    }
}

/// The token carried by an `Authorization` header value: what follows the
/// prefix `Bearer `, or nothing where the value does not start with it.
pub open spec fn bearer_token_of(header: Seq<char>) -> Seq<char> {
    if header.len() >= 7 && header.subrange(0, 7) == "Bearer "@ {
        header.subrange(7, header.len() as int)
    } else {
        Seq::empty()
    }
}

/// The time-to-live that a configured text gives: its value where it
/// denotes a `u64`, else the default.
pub open spec fn ttl_of(setting: Option<Seq<char>>) -> u64 {
    match setting {
        Some(text) => match parsed_u64(text) {
            Some(v) => v,
            None => DEFAULT_TTL_SECS,
        },
        None => DEFAULT_TTL_SECS,
    }
}

/// Calls `jsonwebtoken::encode` with the default header (HS256), the claims
/// object `{"sub": sub, "exp": exp}` and `EncodingKey::from_secret`.
///
/// Assumed, not proved: the call succeeds, as the key is of the header's
/// family, a header and a map of two numbers always serialise, and HMAC
/// signing has no failure; the token depends on the claims and the secret
/// alone and is never empty (it has three parts joined by dots); and
/// `jsonwebtoken::decode` with the same secret accepts it and gives the same
/// claims back, as it recomputes the signature over the first two parts and
/// compares.
#[verifier::external_body]
fn sign_claims(sub: i64, exp: u64, secret: &str) -> (r: Option<String>)
    ensures
        r is Some,
        r matches Some(t) ==> t@ == signed_token(sub, exp, secret@) && t@.len() > 0
            && verified_claims(t@, secret@) == Some((sub, exp)),
{
    let mut claims = serde_json::Map::new();
    claims.insert("sub".to_string(), serde_json::Value::from(sub));
    claims.insert("exp".to_string(), serde_json::Value::from(exp));
    let key = jsonwebtoken::EncodingKey::from_secret(secret.as_bytes());
    jsonwebtoken::encode(&jsonwebtoken::Header::default(), &claims, &key).ok()
}

/// Calls `jsonwebtoken::decode` with `DecodingKey::from_secret` and the
/// default validation (HS256, `exp` required) with `validate_exp` switched
/// off, and reads `sub` and `exp` out of the claims.
///
/// Assumed, not proved: the outcome depends on the token and the secret
/// alone. With expiry validation off the decoder does not read the clock;
/// expiry is decided by `authorize`, against the instant it is given.
#[verifier::external_body]
fn verify_token(token: &str, secret: &str) -> (r: Option<(i64, u64)>)
    ensures
        r == verified_claims(token@, secret@),
{
    let mut validation = jsonwebtoken::Validation::default();
    validation.validate_exp = false;
    let key = jsonwebtoken::DecodingKey::from_secret(secret.as_bytes());
    let data = jsonwebtoken::decode::<serde_json::Value>(token, &key, &validation).ok()?;
    let sub = data.claims.get("sub")?.as_i64()?;
    let exp = data.claims.get("exp")?.as_u64()?;
    Some((sub, exp))
}

impl AuthConfig {
    /// The secret as contracts see it.
    pub open spec fn secret_view(&self) -> Option<Seq<char>> {
        match self.secret {
            Some(s) => Some(s@),
            None => None,
        }
    }

    /// A configuration from the raw settings: the secret, if set, and the
    /// time-to-live as text, if set. A time-to-live that does not denote a
    /// `u64` counts as not set.
    pub fn new(secret: Option<String>, ttl_setting: Option<&str>) -> (r: AuthConfig)
        ensures
            r.secret == secret,
            r.ttl_secs == ttl_of(
                match ttl_setting {
                    Some(t) => Some(t@),
                    None => None,
                },
            ),
    {
        let ttl_secs = match ttl_setting {
            Some(text) => match parse_u64(text) {
                Some(v) => v,
                None => DEFAULT_TTL_SECS,
            },
            None => DEFAULT_TTL_SECS,
        };
        AuthConfig { secret, ttl_secs }
    }

    /// The start-up check: a configuration without a secret is a
    /// configuration error, and no authenticated route is to be served
    /// under it.
    pub fn ensure_configured(&self) -> (r: Result<(), Rejection>)
        ensures
            r == match self.secret_view() {
                Some(_) => Ok::<(), Rejection>(()),
                None => Err::<(), Rejection>(Rejection::SecretNotSet),
            },
    {
        match &self.secret {
            Some(_) => Ok(()),
            None => Err(Rejection::SecretNotSet),
        }
    }
}

/// The token carried by an `Authorization` header value.
pub fn bearer_token<'a>(header: &'a str) -> (r: &'a str)
    ensures
        r@ == bearer_token_of(header@),
{
    let prefix = "Bearer ";
    proof {
        reveal_strlit("Bearer ");
        reveal_strlit("");
    }
    let n = header.unicode_len();
    if n < 7 {
        return "";
    }
    let mut i: usize = 0;
    while i < 7
        invariant
            i <= 7,
            n == header@.len(),
            n >= 7,
            prefix@ == "Bearer "@,
            prefix@.len() == 7,
            forall|k: int| 0 <= k < i ==> header@[k] == prefix@[k],
        decreases 7 - i,
    {
        if header.get_char(i) != prefix.get_char(i) {
            proof {
                reveal_strlit("");
                assert(header@.subrange(0, 7)[i as int] == header@[i as int]);
                assert(header@.subrange(0, 7)[i as int] != prefix@[i as int]);
            }
            return "";
        }
        i += 1;
    }
    proof {
        assert(header@.subrange(0, 7) =~= prefix@);
    }
    header.substring_char(7, n)
}

/// Decides on verified claims: `claims` is `None` where the token's
/// structure or signature was unsound. A token whose expiry is at or before
/// `now` is refused.
pub fn authorize(claims: Option<Claims>, now: Instant) -> (r: Result<AuthUser, Rejection>)
    ensures
        r == authorize_spec(claims, now),
{
    match claims {
        None => Err(Rejection::InvalidToken),
        Some(c) => {
            if now.secs >= 0 && c.exp <= now.secs as u64 {
                Err(Rejection::InvalidToken)
            } else {
                Ok(AuthUser { user_id: c.sub })
            }
        },
    }
}

/// Authenticates a bearer token: verifies it against the configured secret
/// and checks its expiry against `now`.
pub fn authenticate(config: &AuthConfig, token: &str, now: Instant) -> (r: Result<
    AuthUser,
    Rejection,
>)
    ensures
        r == authenticate_spec(config.secret_view(), token@, now),
{
    if token.is_empty() {
        return Err(Rejection::MissingToken);
    }
    match &config.secret {
        None => Err(Rejection::SecretNotConfigured),
        Some(secret) => {
            let claims = match verify_token(token, secret.as_str()) {
                Some((sub, exp)) => Some(Claims { sub, exp }),
                None => None,
            };
            authorize(claims, now)
        },
    }
}

impl AuthUser {
    /// The principal of a request, from the value of its `Authorization`
    /// header; `None` where the request has no such header.
    pub fn from_request(config: &AuthConfig, authorization: Option<&str>, now: Instant) -> (r:
        Result<AuthUser, Rejection>)
        ensures
            r == authenticate_spec(
                config.secret_view(),
                match authorization {
                    Some(h) => bearer_token_of(h@),
                    None => Seq::empty(),
                },
                now,
            ),
    {
        match authorization {
            Some(header) => authenticate(config, bearer_token(header), now),
            None => {
                proof {
                    reveal_strlit("");
                }
                authenticate(config, "", now)
            },
        }
    }
}

/// Whether a token can be issued at `now`: its expiry, `now + ttl`, has to
/// be a Unix time that fits a `u64`.
pub open spec fn issuable(ttl_secs: u64, now: Instant) -> bool {
    0 <= now.secs && now.secs + ttl_secs <= u64::MAX
}

/// What issuing a token for `user_id` at `now` gives, where the expiry is in
/// range.
pub open spec fn issue_spec(secret: Option<Seq<char>>, ttl_secs: u64, user_id: i64, now: Instant)
    -> Result<Seq<char>, Rejection> {
    match secret {
        None => Err(Rejection::SecretNotSet),
        Some(s) => Ok(signed_token(user_id, (now.secs + ttl_secs) as u64, s)),
    }
}

/// Whether a token can be issued at `now`.
pub fn can_issue(config: &AuthConfig, now: Instant) -> (r: bool)
    ensures
        r == issuable(config.ttl_secs, now),
{
    now.secs >= 0 && config.ttl_secs <= u64::MAX - (now.secs as u64)
}

/// The expiry of a token issued at `now`: `now + ttl`, in Unix seconds.
pub fn jwt_expiration(config: &AuthConfig, now: Instant) -> (r: u64)
    requires
        issuable(config.ttl_secs, now),
    ensures
        r == now.secs + config.ttl_secs,
{
    now.secs as u64 + config.ttl_secs
}

/// Issues a signed token for `user_id` that expires `ttl` after `now`.
///
/// Fails, with a configuration error, exactly where no secret is
/// configured. The token that is issued verifies under the secret to the
/// subject `user_id` and the expiry `now + ttl`, so `authenticate` accepts it
/// for that user at every instant before its expiry, and refuses it from
/// then on.
pub fn issue_jwt(config: &AuthConfig, user_id: i64, now: Instant) -> (r: Result<String, Rejection>)
    requires
        issuable(config.ttl_secs, now),
    ensures
        match issue_spec(config.secret_view(), config.ttl_secs, user_id, now) {
            Ok(t) => r matches Ok(token) && token@ == t,
            Err(e) => r == Err::<String, Rejection>(e),
        },
        r matches Ok(token) ==> token@.len() > 0 && (config.secret_view() matches Some(s)
            && claims_of(token@, s) == Some(
            Claims { sub: user_id, exp: (now.secs + config.ttl_secs) as u64 },
        )),
        r matches Ok(token) ==> forall|at: Instant| #[trigger]
            authenticate_spec(config.secret_view(), token@, at) == if at.secs < now.secs
                + config.ttl_secs {
                Ok::<AuthUser, Rejection>(AuthUser { user_id })
            } else {
                Err::<AuthUser, Rejection>(Rejection::InvalidToken)
            },
{
    let exp = jwt_expiration(config, now);
    match &config.secret {
        None => Err(Rejection::SecretNotSet),
        Some(secret) => match sign_claims(user_id, exp, secret.as_str()) {
            Some(token) => Ok(token),
            None => Err(Rejection::SigningFailed),
        },
    }
}

/// Issues a token as `issue_jwt` does, at any instant: where the expiry
/// would be out of range, no token is issued and the failure is reported.
pub fn try_issue_jwt(config: &AuthConfig, user_id: i64, now: Instant) -> (r: Result<
    String,
    Rejection,
>)
    ensures
        match try_issue_spec(config.secret_view(), config.ttl_secs, user_id, now) {
            Ok(t) => r matches Ok(token) && token@ == t,
            Err(e) => r == Err::<String, Rejection>(e),
        },
{
    if can_issue(config, now) {
        issue_jwt(config, user_id, now)
    } else {
        Err(Rejection::SigningFailed)
    }
}

/// What `try_issue_jwt` gives.
pub open spec fn try_issue_spec(
    secret: Option<Seq<char>>,
    ttl_secs: u64,
    user_id: i64,
    now: Instant,
) -> Result<Seq<char>, Rejection> {
    if issuable(ttl_secs, now) {
        issue_spec(secret, ttl_secs, user_id, now)
    } else {
        Err(Rejection::SigningFailed)
    }
}

/// An expired token is refused as unauthorized whether or not its signature
/// is sound: a presented token is accepted only if it verifies and its
/// expiry lies after the current instant.
pub proof fn lemma_expired_token_is_unauthorized(secret: Seq<char>, token: Seq<char>, now: Instant)
    requires
        token.len() > 0,
        claims_of(token, secret) matches Some(c) ==> expired(c.exp, now),
    ensures
        authenticate_spec(Some(secret), token, now) == Err::<AuthUser, Rejection>(
            Rejection::InvalidToken,
        ),
        Rejection::InvalidToken.kind_of() == ErrorKind::Unauthorized,
{
}

/// Once a token has expired it stays expired.
pub proof fn lemma_expiry_is_final(exp: u64, now: Instant, later: Instant)
    requires
        expired(exp, now),
        now.at_or_before(later),
    ensures
        expired(exp, later),
{
}

} // verus!
