use restaurant::error::{AppError, ConfigReadingError, DatabaseError, HttpError};

fn http(e: HttpError) -> AppError {
    AppError::Http(e)
}

#[test]
fn status_codes() {
    assert_eq!(http(HttpError::NoAuthHeaderError).status_code(), 401);
    assert_eq!(http(HttpError::NoSuchUserError("x".to_string())).status_code(), 404);
    assert_eq!(http(HttpError::NoPermissionError("x".to_string())).status_code(), 403);
    assert_eq!(http(HttpError::WrongAuthMethodError("x".to_string())).status_code(), 400);
    assert_eq!(http(HttpError::UserDecodeError).status_code(), 500);
    assert_eq!(AppError::Database(DatabaseError::ValueNotFoundError("x".to_string())).status_code(), 404);
    assert_eq!(AppError::Database(DatabaseError::BadQueryError("x".to_string())).status_code(), 500);
    assert_eq!(AppError::Database(DatabaseError::PoolCreationError("x".to_string())).status_code(), 500);
    assert_eq!(AppError::Config(ConfigReadingError::ParsingError("x".to_string())).status_code(), 500);
}

#[test]
fn http_error_messages() {
    assert_eq!(HttpError::NoSuchUserError("bob".to_string()).message(), "Can not find user specified user: $bob");
    assert_eq!(
        HttpError::NoPermissionError("no".to_string()).message(),
        "Can not give access to requested resource for user: $no"
    );
    assert_eq!(HttpError::NoAuthHeaderError.message(), "Can not find auth header");
    assert_eq!(
        HttpError::WrongAuthMethodError("Bearer".to_string()).message(),
        "Expected auth method is Basic, auth method found :"
    );
    assert_eq!(HttpError::UserDecodeError.message(), "Can not decode user from Auth header");
}

#[test]
fn other_error_messages() {
    assert_eq!(
        ConfigReadingError::WrongPathError("p".to_string()).message(),
        "Can not find config in directory: $p"
    );
    assert_eq!(ConfigReadingError::ParsingError("bad".to_string()).message(), "Can not parse config due to: $bad");
    assert_eq!(
        DatabaseError::PoolCreationError("e".to_string()).message(),
        "Can not create postgres connection pool due to: $e"
    );
    assert_eq!(
        DatabaseError::TransactionCreationError("e".to_string()).message(),
        "Can not create postgres transaction due to: $e"
    );
    assert_eq!(
        DatabaseError::BadQueryError("e".to_string()).message(),
        "Can not create postgres connection pool due to: $e"
    );
    assert_eq!(DatabaseError::ValueNotFoundError("v".to_string()).message(), "Can not find value: $v");
}

#[test]
fn app_error_messages() {
    assert_eq!(http(HttpError::NoAuthHeaderError).message(), "HTTP error occurred: Can not find auth header");
    assert_eq!(
        AppError::Config(ConfigReadingError::ParsingError("bad".to_string())).message(),
        "Configuration error occurred: Can not parse config due to: $bad"
    );
    assert_eq!(
        AppError::Database(DatabaseError::ValueNotFoundError("Order not found: 3".to_string())).message(),
        "Database error occurred: Can not find value: $Order not found: 3"
    );
}

#[test]
fn error_bodies_carry_reason_phrases() {
    let forbidden = http(HttpError::NoPermissionError("Only admins can cancel or mark orders as paid".to_string()))
        .error_response();
    assert_eq!(forbidden.error, "Forbidden");
    assert_eq!(
        forbidden.message,
        "HTTP error occurred: Can not give access to requested resource for user: $Only admins can cancel or mark orders as paid"
    );
    assert_eq!(http(HttpError::NoAuthHeaderError).error_response().error, "Unauthorized");
    assert_eq!(http(HttpError::WrongAuthMethodError("x".to_string())).error_response().error, "Bad Request");
    assert_eq!(
        AppError::Database(DatabaseError::ValueNotFoundError("x".to_string())).error_response().error,
        "Not Found"
    );
    assert_eq!(http(HttpError::UserDecodeError).error_response().error, "Internal Server Error");
}

#[test]
fn error_body_from_a_given_reason() {
    let e = AppError::from(HttpError::NoAuthHeaderError);
    let body = e.error_response_with_reason(Some("Unauthorized"));
    assert_eq!(body.error, "Unauthorized");
    assert_eq!(body.message, "HTTP error occurred: Can not find auth header");
    assert_eq!(e.error_response_with_reason(None).error, "Unknown Error");
}

#[test]
fn errors_convert_into_app_errors() {
    assert!(matches!(AppError::from(HttpError::UserDecodeError), AppError::Http(HttpError::UserDecodeError)));
    assert!(matches!(
        AppError::from(ConfigReadingError::ParsingError("x".to_string())),
        AppError::Config(ConfigReadingError::ParsingError(_))
    ));
    assert!(matches!(
        AppError::from(DatabaseError::BadQueryError("x".to_string())),
        AppError::Database(DatabaseError::BadQueryError(_))
    ));
}
