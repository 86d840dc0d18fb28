//! Listing the tasks of the authenticated account.

use vstd::prelude::*;
use crate::error::ApiError;
use crate::error::StoreFailure;
use crate::model::Task;
use crate::model::User;
use crate::store::Query;

verus! {

/// Starts a listing: all tasks of the authenticated account.
pub fn list(user: &User) -> (query: Query)
    ensures
        query == (Query::TasksOf { owner: user.id }),
{
    Query::TasksOf { owner: user.id }
}

/// Ends a listing: the rows as the store gave them, in its order.
pub fn list_found(found: Result<Vec<Task>, StoreFailure>) -> (reply: Result<Vec<Task>, ApiError>)
    ensures
        reply == match found {
            Ok(tasks) => Ok::<Vec<Task>, ApiError>(tasks),
            Err(_) => Err(ApiError::Internal),
        },
{
    match found {
        Ok(tasks) => Ok(tasks),
        Err(_) => Err(ApiError::Internal),
    }
}

} // verus!
