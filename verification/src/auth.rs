//! Authentication: reading Basic credentials out of the `Authorization`
//! header, turning the user lookup into a user or an error, and the
//! role-based grants that the endpoints rely on.

use vstd::prelude::*;
use vstd::string::*;
use vstd::utf8::*;

use crate::error::{AppError, AppErrorView, DatabaseError, DatabaseErrorView, HttpError, HttpErrorView};
use crate::model::{AuthenticatedUser, Role};
use crate::text::{lemma_split_once_rejoins, split_once, split_once_char};

verus! {

/// A user name and password as sent by the client.
pub struct Credentials {
    pub username: String,
    pub password: String,
}

/// Name for what the `base64` crate's padded standard engine
/// (`BASE64_STANDARD`) decodes the bytes of `input` to, `None` where it
/// refuses them.
pub uninterp spec fn base64_standard_decoded(input: Seq<char>) -> Option<Seq<u8>>;

/// Calls `Engine::decode` of the `base64` crate on `BASE64_STANDARD`.
/// Claimed: the outcome is the one named by `base64_standard_decoded` for
/// the input; nothing is claimed about which inputs decode or to what.
#[verifier::external_body]
fn decode_base64(input: &str) -> (res: Option<Vec<u8>>)
    ensures
        match res {
            Some(bytes) => base64_standard_decoded(input@) == Some(bytes@),
            None => base64_standard_decoded(input@) is None,
        },
{
    match base64::Engine::decode(&base64::prelude::BASE64_STANDARD, input) {
        Ok(bytes) => Some(bytes),
        Err(_) => None,
    }
}

/// Calls std's `String::from_utf8`. Claimed, as std documents it: it
/// succeeds exactly on valid UTF-8, and then holds the characters that the
/// bytes encode.
#[verifier::external_body]
fn utf8_text(bytes: Vec<u8>) -> (res: Option<String>)
    ensures
        match res {
            Some(s) => valid_utf8(bytes@) && s@ == decode_utf8(bytes@),
            None => !valid_utf8(bytes@),
        },
{
    match String::from_utf8(bytes) {
        Ok(s) => Some(s),
        Err(_) => None,
    }
}

/// The `user:password` pair held by the decoded bytes: they must be UTF-8
/// and hold a `:`; the user name ends at the first `:`.
pub open spec fn credentials_in(bytes: Seq<u8>) -> Option<(Seq<char>, Seq<char>)> {
    if valid_utf8(bytes) {
        split_once(decode_utf8(bytes), ':')
    } else {
        None
    }
}

/// The `user:password` pair carried by the base64 text `encoded`: it must
/// decode, and the decoded bytes must hold a pair.
pub open spec fn basic_credentials(encoded: Seq<char>) -> Option<(Seq<char>, Seq<char>)> {
    match base64_standard_decoded(encoded) {
        Some(bytes) => credentials_in(bytes),
        None => None,
    }
}

/// What the `Authorization` header (if any) yields: the header is the auth
/// method, a space, and the credentials; only `Basic` is accepted.
pub open spec fn authorization(header: Option<Seq<char>>) -> Result<
    (Seq<char>, Seq<char>),
    HttpErrorView,
> {
    match header {
        None => Err(HttpErrorView::NoAuthHeaderError),
        Some(h) => match split_once(h, ' ') {
            None => Err(HttpErrorView::NoAuthHeaderError),
            Some((method, value)) => if method != "Basic"@ {
                Err(HttpErrorView::WrongAuthMethodError(method))
            } else {
                match basic_credentials(value) {
                    Some(pair) => Ok(pair),
                    None => Err(HttpErrorView::UserDecodeError),
                }
            },
        },
    }
}

/// The characters of an optional header value.
pub open spec fn header_text(header: Option<&str>) -> Option<Seq<char>> {
    match header {
        Some(h) => Some(h@),
        None => None,
    }
}

/// Reads the `user:password` pair out of decoded credential bytes.
pub fn credentials_from_bytes(bytes: Vec<u8>) -> (res: Option<Credentials>)
    ensures
        match credentials_in(bytes@) {
            Some((u, p)) => res matches Some(c) && c.username@ == u && c.password@ == p,
            None => res is None,
        },
{
    let text = match utf8_text(bytes) {
        Some(text) => text,
        None => return None,
    };
    match split_once_char(text.as_str(), ':') {
        Some((username, password)) => Some(Credentials { username, password }),
        None => None,
    }
}

fn decode_credentials(encoded: &str) -> (res: Option<Credentials>)
    ensures
        match basic_credentials(encoded@) {
            Some((u, p)) => res matches Some(c) && c.username@ == u && c.password@ == p,
            None => res is None,
        },
{
    match decode_base64(encoded) {
        Some(bytes) => credentials_from_bytes(bytes),
        None => None,
    }
}

/// Reads the credentials out of the value of the `Authorization` header
/// (`None` when the request has none, or none that is visible text).
pub fn parse_authorization(header: Option<&str>) -> (res: Result<Credentials, HttpError>)
    ensures
        match authorization(header_text(header)) {
            Ok((u, p)) => res matches Ok(c) && c.username@ == u && c.password@ == p,
            Err(e) => res matches Err(err) && err@ == e,
        },
{
    let h = match header {
        Some(h) => h,
        None => return Err(HttpError::NoAuthHeaderError),
    };
    let (method, value) = match split_once_char(h, ' ') {
        Some(parts) => parts,
        None => return Err(HttpError::NoAuthHeaderError),
    };
    if method != String::from_str("Basic") {
        return Err(HttpError::WrongAuthMethodError(method));
    }
    match decode_credentials(value.as_str()) {
        Some(c) => Ok(c),
        None => Err(HttpError::UserDecodeError),
    }
}

/// Accepted Basic credentials lose nothing: the decoded text is exactly the
/// user name, `:`, and the password, and the user name holds no `:`.
pub proof fn lemma_credentials_rejoin(encoded: Seq<char>)
    requires
        basic_credentials(encoded) is Some,
    ensures
        ({
            let (user, password) = basic_credentials(encoded)->0;
            let text = decode_utf8(base64_standard_decoded(encoded)->0);
            &&& user + seq![':'] + password == text
            &&& !user.contains(':')
        }),
{
    lemma_split_once_rejoins(decode_utf8(base64_standard_decoded(encoded)->0), ':');
}

/// What the user lookup yields for `user_login`: the stored user, or why
/// there is none.
pub open spec fn lookup_outcome(
    user_login: Seq<char>,
    fetched: Result<Option<AuthenticatedUser>, String>,
) -> Result<AuthenticatedUser, DatabaseErrorView> {
    match fetched {
        Err(e) => Err(DatabaseErrorView::BadQueryError(e@)),
        Ok(None) => Err(
            DatabaseErrorView::ValueNotFoundError("User "@ + user_login + " not found"@),
        ),
        Ok(Some(user)) => Ok(user),
    }
}

/// Turns the row the credential query fetched (or its failure text) into the
/// authenticated user: no row means the user or password is unknown.
pub fn check_user(user_login: &str, fetched: Result<Option<AuthenticatedUser>, String>) -> (res:
    Result<AuthenticatedUser, DatabaseError>)
    ensures
        match lookup_outcome(user_login@, fetched) {
            Ok(user) => res == Ok::<AuthenticatedUser, DatabaseError>(user),
            Err(e) => res matches Err(err) && err@ == e,
        },
{
    match fetched {
        Err(e) => Err(DatabaseError::BadQueryError(e)),
        Ok(None) => {
            let mut msg = String::from_str("User ");
            msg.append(user_login);
            msg.append(" not found");
            Err(DatabaseError::ValueNotFoundError(msg))
        },
        Ok(Some(user)) => Ok(user),
    }
}

/// The user acts as an administrator.
pub fn is_admin(user: &AuthenticatedUser) -> (res: bool)
    ensures
        res == (user.role == Role::Admin),
{
    match user.role {
        Role::Admin => true,
        _ => false,
    }
}

/// The user acts as a cook.
pub fn is_cook(user: &AuthenticatedUser) -> (res: bool)
    ensures
        res == (user.role == Role::Cook),
{
    match user.role {
        Role::Cook => true,
        _ => false,
    }
}

/// The user acts as a waiter.
pub fn is_waiter(user: &AuthenticatedUser) -> (res: bool)
    ensures
        res == (user.role == Role::Waiter),
{
    match user.role {
        Role::Waiter => true,
        _ => false,
    }
}

/// Who may call an endpoint.
#[derive(Clone, Copy, Debug, PartialEq, Eq, Structural)]
pub enum Access {
    /// Every authenticated user.
    AnyUser,
    /// Waiters and administrators.
    Waiter,
    /// Cooks and administrators.
    Cook,
    /// Administrators only.
    Admin,
}

/// A user in `role` is granted `access`: administrators are granted every
/// access, the others what names their role, and every role the access of
/// any user.
pub open spec fn grants(role: Role, access: Access) -> bool {
    match access {
        Access::AnyUser => true,
        Access::Waiter => role == Role::Admin || role == Role::Waiter,
        Access::Cook => role == Role::Admin || role == Role::Cook,
        Access::Admin => role == Role::Admin,
    }
}

/// The user's id, and whether the user is granted `access`.
pub fn access_of(user: &AuthenticatedUser, access: Access) -> (res: (i32, bool))
    ensures
        res == (user.id, grants(user.role, access)),
{
    let granted = match access {
        Access::AnyUser => true,
        Access::Waiter => is_admin(user) || is_waiter(user),
        Access::Cook => is_admin(user) || is_cook(user),
        Access::Admin => is_admin(user),
    };
    (user.id, granted)
}

/// The id of the authenticated user, or the lookup's failure.
pub fn auth_any(user: Result<AuthenticatedUser, DatabaseError>) -> (res: Result<i32, AppError>)
    ensures
        match user {
            Ok(u) => res == Ok::<i32, AppError>(u.id),
            Err(e) => res matches Err(err) && err@ == AppErrorView::Database(e@),
        },
{
    match user {
        Ok(u) => Ok(u.id),
        Err(e) => Err(AppError::Database(e)),
    }
}

/// The id of the authenticated user and whether it may act as a waiter, or
/// the lookup's failure.
pub fn auth_waiter(user: Result<AuthenticatedUser, DatabaseError>) -> (res: Result<(i32, bool), AppError>)
    ensures
        match user {
            Ok(u) => res == Ok::<(i32, bool), AppError>((u.id, grants(u.role, Access::Waiter))),
            Err(e) => res matches Err(err) && err@ == AppErrorView::Database(e@),
        },
{
    match user {
        Ok(u) => Ok(access_of(&u, Access::Waiter)),
        Err(e) => Err(AppError::Database(e)),
    }
}

/// The id of the authenticated user and whether it may act as a cook, or
/// the lookup's failure.
pub fn auth_cook(user: Result<AuthenticatedUser, DatabaseError>) -> (res: Result<(i32, bool), AppError>)
    ensures
        match user {
            Ok(u) => res == Ok::<(i32, bool), AppError>((u.id, grants(u.role, Access::Cook))),
            Err(e) => res matches Err(err) && err@ == AppErrorView::Database(e@),
        },
{
    match user {
        Ok(u) => Ok(access_of(&u, Access::Cook)),
        Err(e) => Err(AppError::Database(e)),
    }
}

/// The id of the authenticated user and whether it is an administrator, or
/// the lookup's failure.
pub fn auth_admin(user: Result<AuthenticatedUser, DatabaseError>) -> (res: Result<(i32, bool), AppError>)
    ensures
        match user {
            Ok(u) => res == Ok::<(i32, bool), AppError>((u.id, grants(u.role, Access::Admin))),
            Err(e) => res matches Err(err) && err@ == AppErrorView::Database(e@),
        },
{
    match user {
        Ok(u) => Ok(access_of(&u, Access::Admin)),
        Err(e) => Err(AppError::Database(e)),
    }
}


/// The user lookup: a row found is the user, no row means the login is not
/// found (`User <login> not found`), a failed query is a bad query carrying
/// its text.
pub proof fn lemma_lookup_outcomes(login: Seq<char>, fetched: Result<Option<AuthenticatedUser>, String>)
    ensures
        fetched matches Ok(Some(u)) ==> lookup_outcome(login, fetched) == Ok::<
            AuthenticatedUser,
            DatabaseErrorView,
        >(u),
        fetched matches Ok(None) ==> lookup_outcome(login, fetched) == Err::<
            AuthenticatedUser,
            DatabaseErrorView,
        >(DatabaseErrorView::ValueNotFoundError("User "@ + login + " not found"@)),
        fetched matches Err(e) ==> lookup_outcome(login, fetched) == Err::<
            AuthenticatedUser,
            DatabaseErrorView,
        >(DatabaseErrorView::BadQueryError(e@)),
{
}

/// Only `Basic` credentials are read: a header without a space carries no
/// credentials, another method is refused naming it, and `Basic` with a
/// value gives the pair that value carries, or a decoding failure.
pub proof fn lemma_authorization_outcomes(header: Seq<char>)
    ensures
        authorization(None) == Err::<(Seq<char>, Seq<char>), HttpErrorView>(
            HttpErrorView::NoAuthHeaderError,
        ),
        !header.contains(' ') ==> authorization(Some(header)) == Err::<
            (Seq<char>, Seq<char>),
            HttpErrorView,
        >(HttpErrorView::NoAuthHeaderError),
        split_once(header, ' ') matches Some((method, value)) ==> (if method == "Basic"@ {
            match basic_credentials(value) {
                Some(pair) => authorization(Some(header)) == Ok::<
                    (Seq<char>, Seq<char>),
                    HttpErrorView,
                >(pair),
                None => authorization(Some(header)) == Err::<(Seq<char>, Seq<char>), HttpErrorView>(
                    HttpErrorView::UserDecodeError,
                ),
            }
        } else {
            authorization(Some(header)) == Err::<(Seq<char>, Seq<char>), HttpErrorView>(
                HttpErrorView::WrongAuthMethodError(method),
            )
        }),
{
    lemma_split_once_rejoins(header, ' ');
}

} // verus!
