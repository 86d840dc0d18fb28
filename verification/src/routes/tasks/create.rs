//! Creation of a task for the authenticated account.

use vstd::prelude::*;
use crate::error::ApiError;
use crate::error::StoreFailure;
use crate::model::Task;
use crate::model::User;
use crate::store::Query;
use crate::validation::length_at_least;

verus! {

/// The fields a client gives for a new task.
#[derive(Clone, Debug, PartialEq, Eq)]
pub struct CreateTaskRequest {
    pub title: String,
    pub description: Option<String>,
}

impl CreateTaskRequest {
    /// The title is not empty.
    pub open spec fn valid(&self) -> bool {
        self.title@.len() >= 1
    }

    pub fn validate(&self) -> (ok: bool)
        ensures
            ok == self.valid(),
    {
        length_at_least(self.title.as_str(), 1)
    }
}

/// The query for a request, or the refusal of an invalid one.
pub open spec fn create_spec(user: User, request: CreateTaskRequest) -> Result<Query, ApiError> {
    if request.valid() {
        Ok(
            Query::InsertTask {
                owner: user.id,
                title: request.title,
                description: request.description,
            },
        )
    } else {
        Err(ApiError::Validation)
    }
}

/// Starts a creation: a task without a title is refused, any other is
/// inserted under the authenticated account, whatever the client says of
/// ownership.
pub fn create(user: &User, request: CreateTaskRequest) -> (step: Result<Query, ApiError>)
    ensures
        step == create_spec(*user, request),
{
    if !request.validate() {
        return Err(ApiError::Validation);
    }
    Ok(Query::InsertTask { owner: user.id, title: request.title, description: request.description })
}

/// Ends a creation with the store's reply. An insert that gives no row back
/// has failed.
pub fn create_inserted(inserted: Result<Option<Task>, StoreFailure>) -> (reply: Result<
    Task,
    ApiError,
>)
    ensures
        reply == match inserted {
            Ok(Some(task)) => Ok::<Task, ApiError>(task),
            _ => Err(ApiError::Internal),
        },
{
    match inserted {
        Ok(Some(task)) => Ok(task),
        _ => Err(ApiError::Internal),
    }
}

} // verus!
