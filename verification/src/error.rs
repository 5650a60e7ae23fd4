//! The service's domain errors, the text each one renders to and the HTTP
//! status code each one is answered with.

use vstd::prelude::*;
use vstd::string::*;

use crate::model::HttpErrorResponse;

verus! {

/// Failures while authenticating and authorizing a request.
pub enum HttpError {
    NoSuchUserError(String),
    NoPermissionError(String),
    NoAuthHeaderError,
    WrongAuthMethodError(String),
    UserDecodeError,
}

/// Failures while locating or parsing the configuration.
pub enum ConfigReadingError {
    WrongPathError(String),
    ParsingError(String),
}

/// Failures reported by the database layer.
pub enum DatabaseError {
    PoolCreationError(String),
    TransactionCreationError(String),
    BadQueryError(String),
    ValueNotFoundError(String),
}

/// Any failure a request can end with.
pub enum AppError {
    Http(HttpError),
    Config(ConfigReadingError),
    Database(DatabaseError),
}

impl From<HttpError> for AppError {
    fn from(e: HttpError) -> (res: AppError) {
        AppError::Http(e)
    }
}

impl vstd::std_specs::convert::FromSpecImpl<HttpError> for AppError {
    open spec fn obeys_from_spec() -> bool {
        true
    }

    open spec fn from_spec(e: HttpError) -> AppError {
        AppError::Http(e)
    }
}

impl From<ConfigReadingError> for AppError {
    fn from(e: ConfigReadingError) -> (res: AppError) {
        AppError::Config(e)
    }
}

impl vstd::std_specs::convert::FromSpecImpl<ConfigReadingError> for AppError {
    open spec fn obeys_from_spec() -> bool {
        true
    }

    open spec fn from_spec(e: ConfigReadingError) -> AppError {
        AppError::Config(e)
    }
}

impl From<DatabaseError> for AppError {
    fn from(e: DatabaseError) -> (res: AppError) {
        AppError::Database(e)
    }
}

impl vstd::std_specs::convert::FromSpecImpl<DatabaseError> for AppError {
    open spec fn obeys_from_spec() -> bool {
        true
    }

    open spec fn from_spec(e: DatabaseError) -> AppError {
        AppError::Database(e)
    }
}

/// Abstract value of an [`HttpError`].
pub enum HttpErrorView {
    NoSuchUserError(Seq<char>),
    NoPermissionError(Seq<char>),
    NoAuthHeaderError,
    WrongAuthMethodError(Seq<char>),
    UserDecodeError,
}

/// Abstract value of a [`ConfigReadingError`].
pub enum ConfigReadingErrorView {
    WrongPathError(Seq<char>),
    ParsingError(Seq<char>),
}

/// Abstract value of a [`DatabaseError`].
pub enum DatabaseErrorView {
    PoolCreationError(Seq<char>),
    TransactionCreationError(Seq<char>),
    BadQueryError(Seq<char>),
    ValueNotFoundError(Seq<char>),
}

/// Abstract value of an [`AppError`].
pub enum AppErrorView {
    Http(HttpErrorView),
    Config(ConfigReadingErrorView),
    Database(DatabaseErrorView),
}

impl View for HttpError {
    type V = HttpErrorView;

    open spec fn view(&self) -> HttpErrorView {
        match self {
            HttpError::NoSuchUserError(s) => HttpErrorView::NoSuchUserError(s@),
            HttpError::NoPermissionError(s) => HttpErrorView::NoPermissionError(s@),
            HttpError::NoAuthHeaderError => HttpErrorView::NoAuthHeaderError,
            HttpError::WrongAuthMethodError(s) => HttpErrorView::WrongAuthMethodError(s@),
            HttpError::UserDecodeError => HttpErrorView::UserDecodeError,
        }
    }
}

impl View for ConfigReadingError {
    type V = ConfigReadingErrorView;

    open spec fn view(&self) -> ConfigReadingErrorView {
        match self {
            ConfigReadingError::WrongPathError(s) => ConfigReadingErrorView::WrongPathError(s@),
            ConfigReadingError::ParsingError(s) => ConfigReadingErrorView::ParsingError(s@),
        }
    }
}

impl View for DatabaseError {
    type V = DatabaseErrorView;

    open spec fn view(&self) -> DatabaseErrorView {
        match self {
            DatabaseError::PoolCreationError(s) => DatabaseErrorView::PoolCreationError(s@),
            DatabaseError::TransactionCreationError(s) => DatabaseErrorView::TransactionCreationError(
                s@,
            ),
            DatabaseError::BadQueryError(s) => DatabaseErrorView::BadQueryError(s@),
            DatabaseError::ValueNotFoundError(s) => DatabaseErrorView::ValueNotFoundError(s@),
        }
    }
}

impl View for AppError {
    type V = AppErrorView;

    open spec fn view(&self) -> AppErrorView {
        match self {
            AppError::Http(e) => AppErrorView::Http(e@),
            AppError::Config(e) => AppErrorView::Config(e@),
            AppError::Database(e) => AppErrorView::Database(e@),
        }
    }
}

impl HttpErrorView {
    /// The text the error renders to.
    pub open spec fn message(self) -> Seq<char> {
        match self {
            HttpErrorView::NoSuchUserError(s) => "Can not find user specified user: $"@ + s,
            HttpErrorView::NoPermissionError(s) => "Can not give access to requested resource for user: $"@
                + s,
            HttpErrorView::NoAuthHeaderError => "Can not find auth header"@,
            HttpErrorView::WrongAuthMethodError(_) => "Expected auth method is Basic, auth method found :"@,
            HttpErrorView::UserDecodeError => "Can not decode user from Auth header"@,
        }
    }
}

impl ConfigReadingErrorView {
    /// The text the error renders to.
    pub open spec fn message(self) -> Seq<char> {
        match self {
            ConfigReadingErrorView::WrongPathError(s) => "Can not find config in directory: $"@ + s,
            ConfigReadingErrorView::ParsingError(s) => "Can not parse config due to: $"@ + s,
        }
    }
}

impl DatabaseErrorView {
    /// The text the error renders to; a failed query and a failed pool
    /// creation render to the same text.
    pub open spec fn message(self) -> Seq<char> {
        match self {
            DatabaseErrorView::PoolCreationError(s) => "Can not create postgres connection pool due to: $"@
                + s,
            DatabaseErrorView::TransactionCreationError(s) => "Can not create postgres transaction due to: $"@
                + s,
            DatabaseErrorView::BadQueryError(s) => "Can not create postgres connection pool due to: $"@
                + s,
            DatabaseErrorView::ValueNotFoundError(s) => "Can not find value: $"@ + s,
        }
    }
}

impl AppErrorView {
    /// The text the error renders to.
    pub open spec fn message(self) -> Seq<char> {
        match self {
            AppErrorView::Http(e) => "HTTP error occurred: "@ + e.message(),
            AppErrorView::Config(e) => "Configuration error occurred: "@ + e.message(),
            AppErrorView::Database(e) => "Database error occurred: "@ + e.message(),
        }
    }

    /// The HTTP status code the error is answered with.
    pub open spec fn status_code(self) -> u16 {
        match self {
            AppErrorView::Http(HttpErrorView::NoAuthHeaderError) => 401,
            AppErrorView::Http(HttpErrorView::NoSuchUserError(_)) => 404,
            AppErrorView::Http(HttpErrorView::NoPermissionError(_)) => 403,
            AppErrorView::Http(HttpErrorView::WrongAuthMethodError(_)) => 400,
            AppErrorView::Database(DatabaseErrorView::ValueNotFoundError(_)) => 404,
            _ => 500,
        }
    }
}

fn prefixed(prefix: &str, rest: &str) -> (res: String)
    ensures
        res@ == prefix@ + rest@,
{
    let mut res = String::from_str(prefix);
    res.append(rest);
    res
}

impl HttpError {
    /// The text the error renders to.
    pub fn message(&self) -> (res: String)
        ensures
            res@ == self@.message(),
    {
        match self {
            HttpError::NoSuchUserError(s) => prefixed(
                "Can not find user specified user: $",
                s.as_str(),
            ),
            HttpError::NoPermissionError(s) => prefixed(
                "Can not give access to requested resource for user: $",
                s.as_str(),
            ),
            HttpError::NoAuthHeaderError => String::from_str("Can not find auth header"),
            HttpError::WrongAuthMethodError(_) => String::from_str(
                "Expected auth method is Basic, auth method found :",
            ),
            HttpError::UserDecodeError => String::from_str("Can not decode user from Auth header"),
        }
    }
}

impl ConfigReadingError {
    /// The text the error renders to.
    pub fn message(&self) -> (res: String)
        ensures
            res@ == self@.message(),
    {
        match self {
            ConfigReadingError::WrongPathError(s) => prefixed(
                "Can not find config in directory: $",
                s.as_str(),
            ),
            ConfigReadingError::ParsingError(s) => prefixed(
                "Can not parse config due to: $",
                s.as_str(),
            ),
        }
    }
}

impl DatabaseError {
    /// The text the error renders to.
    pub fn message(&self) -> (res: String)
        ensures
            res@ == self@.message(),
    {
        match self {
            DatabaseError::PoolCreationError(s) => prefixed(
                "Can not create postgres connection pool due to: $",
                s.as_str(),
            ),
            DatabaseError::TransactionCreationError(s) => prefixed(
                "Can not create postgres transaction due to: $",
                s.as_str(),
            ),
            DatabaseError::BadQueryError(s) => prefixed(
                "Can not create postgres connection pool due to: $",
                s.as_str(),
            ),
            DatabaseError::ValueNotFoundError(s) => prefixed("Can not find value: $", s.as_str()),
        }
    }
}

impl AppError {
    /// The text the error renders to.
    pub fn message(&self) -> (res: String)
        ensures
            res@ == self@.message(),
    {
        match self {
            AppError::Http(e) => prefixed("HTTP error occurred: ", e.message().as_str()),
            AppError::Config(e) => prefixed("Configuration error occurred: ", e.message().as_str()),
            AppError::Database(e) => prefixed("Database error occurred: ", e.message().as_str()),
        }
    }

    /// The HTTP status code the error is answered with: 401 without an auth
    /// header, 404 for an unknown user or a missing value, 403 without
    /// permission, 400 for another auth method, 500 otherwise.
    pub fn status_code(&self) -> (code: u16)
        ensures
            code == self@.status_code(),
    {
        match self {
            AppError::Http(HttpError::NoAuthHeaderError) => 401,
            AppError::Http(HttpError::NoSuchUserError(_)) => 404,
            AppError::Http(HttpError::NoPermissionError(_)) => 403,
            AppError::Http(HttpError::WrongAuthMethodError(_)) => 400,
            AppError::Database(DatabaseError::ValueNotFoundError(_)) => 404,
            _ => 500,
        }
    }
}


/// The reason phrase of each status code the service answers errors with.
pub open spec fn reason_phrase(code: u16) -> Seq<char> {
    if code == 400 {
        "Bad Request"@
    } else if code == 401 {
        "Unauthorized"@
    } else if code == 403 {
        "Forbidden"@
    } else if code == 404 {
        "Not Found"@
    } else {
        "Internal Server Error"@
    }
}

/// Calls actix-web's `StatusCode::from_u16` (the `http` crate's status
/// code type) and then `canonical_reason`. Claimed, as the `http` crate's
/// table of standard codes gives it: for 400, 401, 403, 404 and 500 the
/// phrase is `Bad Request`, `Unauthorized`, `Forbidden`, `Not Found` and
/// `Internal Server Error`. Other codes are not passed.
#[verifier::external_body]
fn status_reason(code: u16) -> (res: Option<&'static str>)
    requires
        code == 400 || code == 401 || code == 403 || code == 404 || code == 500,
    ensures
        res is Some,
        res->0@ == reason_phrase(code),
{
    match actix_web::http::StatusCode::from_u16(code) {
        Ok(status) => status.canonical_reason(),
        Err(_) => None,
    }
}

/// The `error` field of an error answer whose status has the reason phrase
/// `reason`: the phrase, or `Unknown Error` where there is none.
pub open spec fn reason_text(reason: Option<Seq<char>>) -> Seq<char> {
    match reason {
        Some(r) => r,
        None => "Unknown Error"@,
    }
}

/// The characters of an optional text.
pub open spec fn optional_text(text: Option<&str>) -> Option<Seq<char>> {
    match text {
        Some(t) => Some(t@),
        None => None,
    }
}

impl AppError {
    /// The body the error is answered with: the reason phrase of its status
    /// code and its text.
    pub fn error_response(&self) -> (res: HttpErrorResponse)
        ensures
            res.error@ == reason_phrase(self@.status_code()),
            res.message@ == self@.message(),
    {
        self.error_response_with_reason(status_reason(self.status_code()))
    }

    /// The body the error is answered with, given the reason phrase of its
    /// status code (if that code has one).
    pub fn error_response_with_reason(&self, reason: Option<&str>) -> (res: HttpErrorResponse)
        ensures
            res.error@ == reason_text(optional_text(reason)),
            res.message@ == self@.message(),
    {
        let error = match reason {
            Some(r) => String::from_str(r),
            None => String::from_str("Unknown Error"),
        };
        HttpErrorResponse { error, message: self.message() }
    }
}


/// The status each error is answered with, whatever text it carries: 401
/// without an auth header, 404 for an unknown user and for a missing value,
/// 403 without permission, 400 for another auth method, 500 for a decoding
/// failure, every configuration error and every other database error.
pub proof fn lemma_error_statuses(text: Seq<char>)
    ensures
        AppErrorView::Http(HttpErrorView::NoAuthHeaderError).status_code() == 401,
        AppErrorView::Http(HttpErrorView::NoSuchUserError(text)).status_code() == 404,
        AppErrorView::Http(HttpErrorView::NoPermissionError(text)).status_code() == 403,
        AppErrorView::Http(HttpErrorView::WrongAuthMethodError(text)).status_code() == 400,
        AppErrorView::Http(HttpErrorView::UserDecodeError).status_code() == 500,
        AppErrorView::Database(DatabaseErrorView::ValueNotFoundError(text)).status_code() == 404,
        AppErrorView::Database(DatabaseErrorView::BadQueryError(text)).status_code() == 500,
        AppErrorView::Database(DatabaseErrorView::PoolCreationError(text)).status_code() == 500,
        AppErrorView::Database(DatabaseErrorView::TransactionCreationError(text)).status_code()
            == 500,
        AppErrorView::Config(ConfigReadingErrorView::WrongPathError(text)).status_code() == 500,
        AppErrorView::Config(ConfigReadingErrorView::ParsingError(text)).status_code() == 500,
{
}

/// An error's text is its kind's prefix followed by the inner error's
/// text, and each inner error's text ends with the text it carries.
pub proof fn lemma_error_texts(e: AppErrorView, text: Seq<char>)
    ensures
        e is Http ==> e.message() == "HTTP error occurred: "@ + e->Http_0.message(),
        e is Config ==> e.message() == "Configuration error occurred: "@ + e->Config_0.message(),
        e is Database ==> e.message() == "Database error occurred: "@ + e->Database_0.message(),
        HttpErrorView::NoSuchUserError(text).message() == "Can not find user specified user: $"@
            + text,
        HttpErrorView::NoPermissionError(text).message()
            == "Can not give access to requested resource for user: $"@ + text,
        HttpErrorView::NoAuthHeaderError.message() == "Can not find auth header"@,
        HttpErrorView::WrongAuthMethodError(text).message()
            == "Expected auth method is Basic, auth method found :"@,
        HttpErrorView::UserDecodeError.message() == "Can not decode user from Auth header"@,
        ConfigReadingErrorView::WrongPathError(text).message()
            == "Can not find config in directory: $"@ + text,
        ConfigReadingErrorView::ParsingError(text).message() == "Can not parse config due to: $"@
            + text,
        DatabaseErrorView::PoolCreationError(text).message()
            == "Can not create postgres connection pool due to: $"@ + text,
        DatabaseErrorView::TransactionCreationError(text).message()
            == "Can not create postgres transaction due to: $"@ + text,
        DatabaseErrorView::BadQueryError(text).message()
            == "Can not create postgres connection pool due to: $"@ + text,
        DatabaseErrorView::ValueNotFoundError(text).message() == "Can not find value: $"@ + text,
{
}

/// The `error` field of each status the service answers errors with.
pub proof fn lemma_reason_phrases()
    ensures
        reason_phrase(400) == "Bad Request"@,
        reason_phrase(401) == "Unauthorized"@,
        reason_phrase(403) == "Forbidden"@,
        reason_phrase(404) == "Not Found"@,
        reason_phrase(500) == "Internal Server Error"@,
        reason_text(None) == "Unknown Error"@,
        forall|r: Seq<char>| reason_text(Some(r)) == r,
{
}

} // verus!
