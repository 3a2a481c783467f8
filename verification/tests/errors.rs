use reservation_core::errors::{error_response, ErrorKind, Rejection};

#[test]
fn every_reason_has_its_kind() {
    assert_eq!(Rejection::MissingToken.kind(), ErrorKind::MissingToken);
    assert_eq!(Rejection::InvalidToken.kind(), ErrorKind::Unauthorized);
    assert_eq!(Rejection::InvalidCredentials.kind(), ErrorKind::Unauthorized);
    assert_eq!(Rejection::Forbidden.kind(), ErrorKind::Forbidden);
    assert_eq!(Rejection::InvalidRange.kind(), ErrorKind::InvalidRange);
    assert_eq!(Rejection::Conflict.kind(), ErrorKind::Conflict);
    assert_eq!(Rejection::UpdateConflict.kind(), ErrorKind::Conflict);
    assert_eq!(Rejection::ReservationNotFound.kind(), ErrorKind::NotFound);
    assert_eq!(Rejection::UserNotFound.kind(), ErrorKind::NotFound);
    assert_eq!(Rejection::SecretNotSet.kind(), ErrorKind::ConfigurationError);
    for internal in [
        Rejection::SecretNotConfigured,
        Rejection::SigningFailed,
        Rejection::OverlapCheckFailed,
        Rejection::CreateFailed,
        Rejection::UpdateFailed,
        Rejection::FetchFailed,
        Rejection::ListFailed,
        Rejection::UserFetchFailed,
        Rejection::UserCreateFailed,
        Rejection::HashingFailed,
        Rejection::LoginFailed,
        Rejection::PasswordCheckFailed,
    ] {
        assert_eq!(internal.kind(), ErrorKind::InternalError);
    }
}

#[test]
fn every_reason_has_its_message() {
    assert_eq!(Rejection::MissingToken.message(), "missing bearer token");
    assert_eq!(Rejection::InvalidToken.message(), "invalid token");
    assert_eq!(Rejection::InvalidCredentials.message(), "invalid credentials");
    assert_eq!(Rejection::Forbidden.message(), "forbidden");
    assert_eq!(Rejection::InvalidRange.message(), "invalid reservation time range");
    assert_eq!(
        Rejection::Conflict.message(),
        "reservation time overlaps with an existing reservation"
    );
    assert_eq!(
        Rejection::UpdateConflict.message(),
        "updated reservation time overlaps with an existing reservation"
    );
    assert_eq!(Rejection::ReservationNotFound.message(), "reservation not found");
    assert_eq!(Rejection::UserNotFound.message(), "user not found");
    assert_eq!(Rejection::SecretNotSet.message(), "JWT_SECRET is not set");
    assert_eq!(Rejection::SecretNotConfigured.message(), "JWT secret not configured");
    assert_eq!(Rejection::SigningFailed.message(), "failed to sign token");
    assert_eq!(Rejection::OverlapCheckFailed.message(), "failed to check reservation overlap");
    assert_eq!(Rejection::CreateFailed.message(), "failed to create reservation");
    assert_eq!(Rejection::UpdateFailed.message(), "failed to update reservation");
    assert_eq!(Rejection::FetchFailed.message(), "failed to fetch reservation");
    assert_eq!(Rejection::ListFailed.message(), "failed to fetch reservations");
    assert_eq!(Rejection::UserFetchFailed.message(), "failed to fetch user");
    assert_eq!(Rejection::UserCreateFailed.message(), "failed to create user");
    assert_eq!(Rejection::HashingFailed.message(), "failed to hash password");
    assert_eq!(Rejection::LoginFailed.message(), "failed to login");
    assert_eq!(Rejection::PasswordCheckFailed.message(), "failed to verify password");
}

#[test]
fn only_internal_errors_may_be_retried() {
    assert!(Rejection::FetchFailed.is_retryable());
    assert!(Rejection::OverlapCheckFailed.is_retryable());
    assert!(!Rejection::Conflict.is_retryable());
    assert!(!Rejection::InvalidRange.is_retryable());
    assert!(!Rejection::Forbidden.is_retryable());
    assert!(!Rejection::InvalidToken.is_retryable());
    assert!(!Rejection::MissingToken.is_retryable());
    assert!(!Rejection::ReservationNotFound.is_retryable());
    assert!(!Rejection::SecretNotSet.is_retryable());
}

#[test]
fn the_body_carries_the_message() {
    assert_eq!(Rejection::Forbidden.body().message, "forbidden");
    assert_eq!(error_response("user not found").message, "user not found");
    assert_eq!(error_response("").message, "");
}
