//! Login: look the account up, check the password, issue a token.

use vstd::prelude::*;
use crate::cookie::SessionCookie;
use crate::error::ApiError;
use crate::error::StoreFailure;
use crate::hasher::accepts;
use crate::hasher::verify_password;
use crate::model::User;
use crate::store::Query;
use crate::token::account_of;
use crate::token::issued;
use crate::token::TokenCodec;

verus! {

/// Credentials as a client sends them, and whether the session should
/// outlive the browser session.
#[derive(Clone, Debug, PartialEq, Eq)]
pub struct UserLoginRequest {
    pub username: String,
    pub password: String,
    pub remember_me: bool,
}

/// A successful login: the token for the body, and the cookie that carries
/// the same token.
#[derive(Clone, Debug, PartialEq, Eq)]
pub struct LoginResponse {
    pub token: String,
    pub cookie: SessionCookie,
}

/// The account that a password proves, given what the store found under the
/// username. An unknown username and a wrong password give the same error.
pub open spec fn verified_account(
    password: Seq<char>,
    found: Result<Option<User>, StoreFailure>,
) -> Result<User, ApiError> {
    match found {
        Err(_) => Err(ApiError::Internal),
        Ok(None) => Err(ApiError::InvalidCredentials),
        Ok(Some(user)) => if accepts(password, user.password@) {
            Ok(user)
        } else {
            Err(ApiError::InvalidCredentials)
        },
    }
}

/// What a login comes to, given what the store found under the username:
/// the token to hand out, or the error.
pub open spec fn login_outcome(
    request: UserLoginRequest,
    secret: Seq<u8>,
    found: Result<Option<User>, StoreFailure>,
) -> Result<Seq<char>, ApiError> {
    match verified_account(request.password@, found) {
        Err(error) => Err(error),
        Ok(user) => match issued(user.id as int, secret) {
            Some(token) => Ok(token),
            None => Err(ApiError::Internal),
        },
    }
}

/// Whether a reply is the one owed for an outcome.
pub open spec fn login_reply_is(
    reply: Result<LoginResponse, ApiError>,
    outcome: Result<Seq<char>, ApiError>,
    remember: bool,
) -> bool {
    match outcome {
        Ok(token) => reply matches Ok(response) && response.token@ == token
            && response.cookie.carries(token, remember),
        Err(error) => reply == Err::<LoginResponse, ApiError>(error),
    }
}

/// Starts a login: ask the store for the account under the username.
pub fn login(request: &UserLoginRequest) -> (query: Query)
    ensures
        query == (Query::AccountByUsername { username: request.username }),
{
    Query::AccountByUsername { username: request.username.clone() }
}

/// Checks a password against what the store found under a username. The
/// stored hash is parsed and checked by the hasher in one go, so a stored
/// text that is no hash is a mismatch like any other.
pub fn verify(password: &str, found: Result<Option<User>, StoreFailure>) -> (account: Result<
    User,
    ApiError,
>)
    ensures
        account == verified_account(password@, found),
{
    match found {
        Err(_) => Err(ApiError::Internal),
        Ok(None) => Err(ApiError::InvalidCredentials),
        Ok(Some(user)) => {
            if verify_password(password, user.password.as_str()) {
                Ok(user)
            } else {
                Err(ApiError::InvalidCredentials)
            }
        },
    }
}

/// Ends a login with what the store found. The token that goes out resolves
/// to the account that was found and to no other.
pub fn login_found(
    request: &UserLoginRequest,
    codec: &TokenCodec,
    found: Result<Option<User>, StoreFailure>,
) -> (reply: Result<LoginResponse, ApiError>)
    ensures
        login_reply_is(
            reply,
            login_outcome(*request, codec.secret(), found),
            request.remember_me,
        ),
        reply matches Ok(response) ==> found matches Ok(Some(user)) && account_of(
            response.token@,
            codec.secret(),
        ) == Some(user.id),
{
    let user = match verify(request.password.as_str(), found) {
        Err(error) => {
            return Err(error);
        },
        Ok(user) => user,
    };
    match codec.issue(user.id) {
        Some(token) => {
            let cookie = SessionCookie::for_token(token.clone(), request.remember_me);
            Ok(LoginResponse { token, cookie })
        },
        None => Err(ApiError::Internal),
    }
}

} // verus!
