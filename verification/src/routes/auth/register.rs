//! Registration: validate, refuse a taken username, hash, insert.

use vstd::prelude::*;
use crate::error::ApiError;
use crate::error::StoreFailure;
use crate::hasher::accepts;
use crate::hasher::hash_password;
use crate::model::User;
use crate::store::Query;
use crate::validation::length_between;

verus! {

/// Username and password as a client sends them.
#[derive(Clone, Debug, PartialEq, Eq)]
pub struct UserRegisterRequest {
    pub username: String,
    pub password: String,
}

/// What a client learns of its new account. The hash is never part of it.
#[derive(Clone, Debug, PartialEq, Eq)]
pub struct UserRegisterResponse {
    pub id: i32,
    pub username: String,
}

/// Either the next query to run, or the answer to the client.
#[derive(Debug, PartialEq, Eq)]
pub enum RegisterStep {
    Ask(Query),
    Reply(Result<UserRegisterResponse, ApiError>),
}

impl UserRegisterRequest {
    /// Both fields have between 1 and 64 characters.
    pub open spec fn valid(&self) -> bool {
        1 <= self.username@.len() <= 64 && 1 <= self.password@.len() <= 64
    }

    pub fn validate(&self) -> (ok: bool)
        ensures
            ok == self.valid(),
    {
        length_between(self.username.as_str(), 1, 64) && length_between(
            self.password.as_str(),
            1,
            64,
        )
    }
}

/// The first step of a registration.
pub open spec fn register_spec(request: UserRegisterRequest) -> RegisterStep {
    if request.valid() {
        RegisterStep::Ask(Query::AccountExists { username: request.username })
    } else {
        RegisterStep::Reply(Err(ApiError::Validation))
    }
}

/// The step after the hasher has run.
pub open spec fn register_hashed_spec(
    request: UserRegisterRequest,
    hash: Option<String>,
) -> RegisterStep {
    match hash {
        Some(password_hash) => RegisterStep::Ask(
            Query::InsertAccount { username: request.username, password_hash },
        ),
        None => RegisterStep::Reply(Err(ApiError::Internal)),
    }
}

/// The answer once the store has inserted the account, or failed to.
pub open spec fn register_inserted_spec(inserted: Result<Option<User>, StoreFailure>) -> Result<
    UserRegisterResponse,
    ApiError,
> {
    match inserted {
        Ok(Some(user)) => Ok(UserRegisterResponse { id: user.id, username: user.username }),
        _ => Err(ApiError::Internal),
    }
}

/// Starts a registration: an invalid request is refused at once, a valid one
/// asks whether the username is taken.
pub fn register(request: &UserRegisterRequest) -> (step: RegisterStep)
    ensures
        step == register_spec(*request),
{
    if !request.validate() {
        return RegisterStep::Reply(Err(ApiError::Validation));
    }
    RegisterStep::Ask(Query::AccountExists { username: request.username.clone() })
}

/// Continues with a hashing outcome: a hash asks for the insert and is the
/// only form in which the password goes on.
pub fn register_hashed(request: &UserRegisterRequest, hash: Option<String>) -> (step: RegisterStep)
    ensures
        step == register_hashed_spec(*request, hash),
{
    match hash {
        Some(password_hash) => RegisterStep::Ask(
            Query::InsertAccount { username: request.username.clone(), password_hash },
        ),
        None => RegisterStep::Reply(Err(ApiError::Internal)),
    }
}

/// Whether a hashing outcome is one that may follow the request: a hash is
/// one that the request's password matches.
pub open spec fn hashed_for(request: UserRegisterRequest, hash: Option<String>) -> bool {
    hash matches Some(h) ==> accepts(request.password@, h@)
}

/// Whether a step may follow a free username: it is the step that
/// `register_hashed` gives for some outcome of hashing the request's password.
pub open spec fn follows_hashing(request: UserRegisterRequest, step: RegisterStep) -> bool {
    exists|hash: Option<String>|
        step == #[trigger] register_hashed_spec(request, hash) && hashed_for(request, hash)
}

/// The refusal owed for the store's word on whether the username is taken,
/// or `None` where the registration goes on.
pub open spec fn register_refusal(taken: Result<bool, StoreFailure>) -> Option<ApiError> {
    match taken {
        Err(_) => Some(ApiError::Internal),
        Ok(true) => Some(ApiError::Conflict),
        Ok(false) => None,
    }
}

/// Continues once the store has said whether the username is taken. A taken
/// name is a conflict and nothing is inserted. A free name has the password
/// hashed under a fresh salt, so the hash differs from call to call.
pub fn register_checked(
    request: &UserRegisterRequest,
    taken: Result<bool, StoreFailure>,
) -> (step: RegisterStep)
    ensures
        match register_refusal(taken) {
            Some(error) => step == RegisterStep::Reply(Err(error)),
            None => follows_hashing(*request, step),
        },
{
    match taken {
        Err(_) => RegisterStep::Reply(Err(ApiError::Internal)),
        Ok(true) => RegisterStep::Reply(Err(ApiError::Conflict)),
        Ok(false) => {
            let hash = hash_password(request.password.as_str());
            let step = register_hashed(request, hash);
            assert(step == register_hashed_spec(*request, hash) && hashed_for(*request, hash));
            step
        },
    }
}

/// Ends a registration with the store's reply to the insert. An insert that
/// gives no row back has failed.
pub fn register_inserted(inserted: Result<Option<User>, StoreFailure>) -> (reply: Result<
    UserRegisterResponse,
    ApiError,
>)
    ensures
        reply == register_inserted_spec(inserted),
{
    match inserted {
        Ok(Some(user)) => Ok(UserRegisterResponse { id: user.id, username: user.username }),
        _ => Err(ApiError::Internal),
    }
}

} // verus!
