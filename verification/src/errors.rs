//! The outcomes that are not successes: every rejection has a stable kind and
//! a human-readable reason.

use vstd::prelude::*;

verus! {

/// The stable classes of rejection.
#[derive(Clone, Copy, Debug, PartialEq, Eq, Structural)]
pub enum ErrorKind {
    /// No bearer token was presented.
    MissingToken,
    /// The token is malformed, wrongly signed or expired, or the credentials
    /// do not match.
    Unauthorized,
    /// The token is valid but the request names another owner.
    Forbidden,
    /// The reservation does not start strictly before it ends.
    InvalidRange,
    /// The reservation overlaps an active reservation of the same owner.
    Conflict,
    /// No row exists for the identifier and the authenticated owner.
    NotFound,
    /// The store or another collaborator failed.
    InternalError,
    /// The signing secret is absent.
    ConfigurationError,
}

/// Why an operation was refused. Each reason belongs to one `ErrorKind` and
/// has one fixed message.
#[derive(Clone, Copy, Debug, PartialEq, Eq, Structural)]
pub enum Rejection {
    MissingToken,
    InvalidToken,
    SecretNotConfigured,
    SecretNotSet,
    SigningFailed,
    Forbidden,
    InvalidRange,
    Conflict,
    UpdateConflict,
    ReservationNotFound,
    OverlapCheckFailed,
    CreateFailed,
    UpdateFailed,
    FetchFailed,
    ListFailed,
    UserNotFound,
    UserFetchFailed,
    UserCreateFailed,
    HashingFailed,
    LoginFailed,
    InvalidCredentials,
    PasswordCheckFailed,
}

/// The body of an error response.
#[derive(Debug)]
pub struct ErrorBody {
    pub message: String,
}

impl View for ErrorBody {
    type V = Seq<char>;

    open spec fn view(&self) -> Seq<char> {
        self.message@
    }
}

impl Rejection {
    /// The class a reason belongs to.
    pub open spec fn kind_of(self) -> ErrorKind {
        match self {
            Rejection::MissingToken => ErrorKind::MissingToken,
            Rejection::InvalidToken => ErrorKind::Unauthorized,
            Rejection::InvalidCredentials => ErrorKind::Unauthorized,
            Rejection::Forbidden => ErrorKind::Forbidden,
            Rejection::InvalidRange => ErrorKind::InvalidRange,
            Rejection::Conflict => ErrorKind::Conflict,
            Rejection::UpdateConflict => ErrorKind::Conflict,
            Rejection::ReservationNotFound => ErrorKind::NotFound,
            Rejection::UserNotFound => ErrorKind::NotFound,
            Rejection::SecretNotSet => ErrorKind::ConfigurationError,
            Rejection::SecretNotConfigured => ErrorKind::InternalError,
            Rejection::SigningFailed => ErrorKind::InternalError,
            Rejection::OverlapCheckFailed => ErrorKind::InternalError,
            Rejection::CreateFailed => ErrorKind::InternalError,
            Rejection::UpdateFailed => ErrorKind::InternalError,
            Rejection::FetchFailed => ErrorKind::InternalError,
            Rejection::ListFailed => ErrorKind::InternalError,
            Rejection::UserFetchFailed => ErrorKind::InternalError,
            Rejection::UserCreateFailed => ErrorKind::InternalError,
            Rejection::HashingFailed => ErrorKind::InternalError,
            Rejection::LoginFailed => ErrorKind::InternalError,
            Rejection::PasswordCheckFailed => ErrorKind::InternalError,
        }
    }

    /// The message of a reason.
    pub open spec fn message_of(self) -> Seq<char> {
        match self {
            Rejection::MissingToken => "missing bearer token"@,
            Rejection::InvalidToken => "invalid token"@,
            Rejection::InvalidCredentials => "invalid credentials"@,
            Rejection::Forbidden => "forbidden"@,
            Rejection::InvalidRange => "invalid reservation time range"@,
            Rejection::Conflict => "reservation time overlaps with an existing reservation"@,
            Rejection::UpdateConflict =>
                "updated reservation time overlaps with an existing reservation"@,
            Rejection::ReservationNotFound => "reservation not found"@,
            Rejection::UserNotFound => "user not found"@,
            Rejection::SecretNotSet => "JWT_SECRET is not set"@,
            Rejection::SecretNotConfigured => "JWT secret not configured"@,
            Rejection::SigningFailed => "failed to sign token"@,
            Rejection::OverlapCheckFailed => "failed to check reservation overlap"@,
            Rejection::CreateFailed => "failed to create reservation"@,
            Rejection::UpdateFailed => "failed to update reservation"@,
            Rejection::FetchFailed => "failed to fetch reservation"@,
            Rejection::ListFailed => "failed to fetch reservations"@,
            Rejection::UserFetchFailed => "failed to fetch user"@,
            Rejection::UserCreateFailed => "failed to create user"@,
            Rejection::HashingFailed => "failed to hash password"@,
            Rejection::LoginFailed => "failed to login"@,
            Rejection::PasswordCheckFailed => "failed to verify password"@,
        }
    }

    pub fn kind(&self) -> (r: ErrorKind)
        ensures
            r == self.kind_of(),
    {
        match self {
            Rejection::MissingToken => ErrorKind::MissingToken,
            Rejection::InvalidToken | Rejection::InvalidCredentials => ErrorKind::Unauthorized,
            Rejection::Forbidden => ErrorKind::Forbidden,
            Rejection::InvalidRange => ErrorKind::InvalidRange,
            Rejection::Conflict | Rejection::UpdateConflict => ErrorKind::Conflict,
            Rejection::ReservationNotFound | Rejection::UserNotFound => ErrorKind::NotFound,
            Rejection::SecretNotSet => ErrorKind::ConfigurationError,
            _ => ErrorKind::InternalError,
        }
    }

    pub fn message(&self) -> (r: &'static str)
        ensures
            r@ == self.message_of(),
    {
        match self {
            Rejection::MissingToken => "missing bearer token",
            Rejection::InvalidToken => "invalid token",
            Rejection::InvalidCredentials => "invalid credentials",
            Rejection::Forbidden => "forbidden",
            Rejection::InvalidRange => "invalid reservation time range",
            Rejection::Conflict => "reservation time overlaps with an existing reservation",
            Rejection::UpdateConflict =>
                "updated reservation time overlaps with an existing reservation",
            Rejection::ReservationNotFound => "reservation not found",
            Rejection::UserNotFound => "user not found",
            Rejection::SecretNotSet => "JWT_SECRET is not set",
            Rejection::SecretNotConfigured => "JWT secret not configured",
            Rejection::SigningFailed => "failed to sign token",
            Rejection::OverlapCheckFailed => "failed to check reservation overlap",
            Rejection::CreateFailed => "failed to create reservation",
            Rejection::UpdateFailed => "failed to update reservation",
            Rejection::FetchFailed => "failed to fetch reservation",
            Rejection::ListFailed => "failed to fetch reservations",
            Rejection::UserFetchFailed => "failed to fetch user",
            Rejection::UserCreateFailed => "failed to create user",
            Rejection::HashingFailed => "failed to hash password",
            Rejection::LoginFailed => "failed to login",
            Rejection::PasswordCheckFailed => "failed to verify password",
        }
    }

    /// Only an internal error may be retried without changing the request.
    pub open spec fn retryable(self) -> bool {
        self.kind_of() == ErrorKind::InternalError
    }

    pub fn is_retryable(&self) -> (r: bool)
        ensures
            r == self.retryable(),
    {
        match self.kind() {
            ErrorKind::InternalError => true,
            _ => false,
        }
    }

    /// The response body that reports this rejection.
    pub fn body(&self) -> (r: ErrorBody)
        ensures
            r@ == self.message_of(),
    {
        error_response(self.message())
    }
}

/// An error body with the given message.
pub fn error_response(msg: &str) -> (r: ErrorBody)
    ensures
        r@ == msg@,
{
    ErrorBody { message: msg.to_owned() }
}

} // verus!
