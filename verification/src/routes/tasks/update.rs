//! Partial update of a task inside one store transaction.

use vstd::prelude::*;
use crate::error::ApiError;
use crate::error::StoreFailure;
use crate::model::Task;
use crate::model::User;
use crate::store::Query;

verus! {

/// One field of an update document. "Not mentioned" and "explicitly null"
/// are different things and stay different.
#[derive(Clone, Debug, PartialEq, Eq)]
pub enum Patch<T> {
    /// The document does not mention the field: leave it as it is.
    Absent,
    /// The document sets the field to null: clear it, where it can be cleared.
    SetNull,
    /// The document gives a value: replace the field.
    SetValue(T),
}

impl<T> Patch<T> {
    /// The patch as an option of an option: the outer one says whether the
    /// field was mentioned, the inner one whether it was given a value.
    pub open spec fn nested(self) -> Option<Option<T>> {
        match self {
            Patch::Absent => None,
            Patch::SetNull => Some(None),
            Patch::SetValue(v) => Some(Some(v)),
        }
    }

    /// Reads a patch from an option of an option, keeping all three states
    /// apart.
    pub fn from_nested(field: Option<Option<T>>) -> (patch: Patch<T>)
        ensures
            patch.nested() == field,
    {
        match field {
            None => Patch::Absent,
            Some(None) => Patch::SetNull,
            Some(Some(v)) => Patch::SetValue(v),
        }
    }

    /// Reads a patch for a field that cannot be cleared, where a missing
    /// field and a null one have already become one: both leave the field.
    pub fn from_optional(field: Option<T>) -> (patch: Patch<T>)
        ensures
            patch == match field {
                Some(v) => Patch::SetValue(v),
                None => Patch::Absent,
            },
    {
        match field {
            Some(v) => Patch::SetValue(v),
            None => Patch::Absent,
        }
    }

    /// Writes the patch back as an option of an option.
    pub fn into_nested(self) -> (field: Option<Option<T>>)
        ensures
            field == self.nested(),
    {
        match self {
            Patch::Absent => None,
            Patch::SetNull => Some(None),
            Patch::SetValue(v) => Some(Some(v)),
        }
    }
}

/// The update document of a task.
#[derive(Clone, Debug, PartialEq, Eq)]
pub struct UpdateTaskRequest {
    pub title: Patch<String>,
    pub description: Patch<String>,
    pub completed: Patch<bool>,
}

/// A field that cannot be cleared keeps its value unless a new one is given.
pub open spec fn patched_required<T>(current: T, patch: Patch<T>) -> T {
    match patch {
        Patch::SetValue(v) => v,
        _ => current,
    }
}

/// A field that can be cleared follows all three states of its patch.
pub open spec fn patched_nullable<T>(current: Option<T>, patch: Patch<T>) -> Option<T> {
    match patch {
        Patch::Absent => current,
        Patch::SetNull => None,
        Patch::SetValue(v) => Some(v),
    }
}

/// The task that results from laying an update document over a task.
/// Identifier, owner and timestamps are never touched by a document.
pub open spec fn merged(task: Task, patch: UpdateTaskRequest) -> Task {
    Task {
        id: task.id,
        user_id: task.user_id,
        title: patched_required(task.title, patch.title),
        description: patched_nullable(task.description, patch.description),
        completed: patched_required(task.completed, patch.completed),
        created_at: task.created_at,
        updated_at: task.updated_at,
    }
}

impl UpdateTaskRequest {
    /// The document that mentions no field.
    pub fn empty() -> (p: UpdateTaskRequest)
        ensures
            p.title is Absent,
            p.description is Absent,
            p.completed is Absent,
    {
        UpdateTaskRequest {
            title: Patch::Absent,
            description: Patch::Absent,
            completed: Patch::Absent,
        }
    }

    /// Lays this document over `task`.
    pub fn apply(self, task: Task) -> (r: Task)
        ensures
            r == merged(task, self),
    {
        let mut task = task;
        match self.title {
            Patch::SetValue(title) => {
                task.title = title;
            },
            _ => {},
        }
        match self.description {
            Patch::Absent => {},
            Patch::SetNull => {
                task.description = None;
            },
            Patch::SetValue(description) => {
                task.description = Some(description);
            },
        }
        match self.completed {
            Patch::SetValue(completed) => {
                task.completed = completed;
            },
            _ => {},
        }
        task
    }
}

/// Where an update stands inside its transaction.
#[derive(Debug, PartialEq, Eq)]
pub enum UpdateState {
    /// The store was asked to open a transaction.
    Beginning { id: i32, owner: i32, patch: UpdateTaskRequest },
    /// The task was asked for, scoped to its owner.
    Loading { id: i32, owner: i32, patch: UpdateTaskRequest },
    /// The merged record was sent to be written.
    Writing,
    /// The commit was asked for; this is the row as the store wrote it.
    Committing { task: Task },
    /// The client has its answer.
    Finished,
}

/// What the store reports back to an update.
#[derive(Debug, PartialEq, Eq)]
pub enum UpdateEvent {
    Began(Result<(), StoreFailure>),
    Loaded(Result<Option<Task>, StoreFailure>),
    Written(Result<Option<Task>, StoreFailure>),
    Committed(Result<(), StoreFailure>),
}

/// What the caller is to do next.
#[derive(Debug, PartialEq, Eq)]
pub enum UpdateAction {
    /// Open a transaction.
    Begin,
    /// Run the query inside the transaction.
    Ask(Query),
    /// Commit the transaction.
    Commit,
    /// Roll the transaction back, then answer with the error.
    Abort(ApiError),
    /// Answer the client; no transaction is open any more.
    Reply(Result<Task, ApiError>),
}

/// The query that writes a merged record back. Identifier and owner are the
/// request's own, so ownership is checked again at the write.
pub open spec fn write_back(id: i32, owner: i32, record: Task) -> Query {
    Query::UpdateTask {
        id,
        owner,
        title: record.title,
        description: record.description,
        completed: record.completed,
    }
}

/// The transition of an update on an event. An event that the state does not
/// wait for aborts the update.
pub open spec fn update_next(state: UpdateState, event: UpdateEvent) -> (
    UpdateState,
    UpdateAction,
) {
    match (state, event) {
        (UpdateState::Beginning { id, owner, patch }, UpdateEvent::Began(Ok(_))) => (
            UpdateState::Loading { id, owner, patch },
            UpdateAction::Ask(Query::TaskOf { id, owner }),
        ),
        (UpdateState::Beginning { .. }, UpdateEvent::Began(Err(_))) => (
            UpdateState::Finished,
            UpdateAction::Reply(Err(ApiError::Internal)),
        ),
        (UpdateState::Loading { id, owner, patch }, UpdateEvent::Loaded(Ok(Some(task)))) => (
            UpdateState::Writing,
            UpdateAction::Ask(write_back(id, owner, merged(task, patch))),
        ),
        (UpdateState::Loading { .. }, UpdateEvent::Loaded(Ok(None))) => (
            UpdateState::Finished,
            UpdateAction::Abort(ApiError::NotFound),
        ),
        (UpdateState::Writing, UpdateEvent::Written(Ok(Some(task)))) => (
            UpdateState::Committing { task },
            UpdateAction::Commit,
        ),
        (UpdateState::Committing { task }, UpdateEvent::Committed(Ok(_))) => (
            UpdateState::Finished,
            UpdateAction::Reply(Ok(task)),
        ),
        (UpdateState::Committing { .. }, UpdateEvent::Committed(Err(_))) => (
            UpdateState::Finished,
            UpdateAction::Reply(Err(ApiError::Internal)),
        ),
        _ => (UpdateState::Finished, UpdateAction::Abort(ApiError::Internal)),
    }
}

/// Starts an update of the task `id` for the authenticated account: the
/// first thing to do is to open a transaction.
pub fn update(id: i32, user: &User, patch: UpdateTaskRequest) -> (start: (
    UpdateState,
    UpdateAction,
))
    ensures
        start.0 == (UpdateState::Beginning { id, owner: user.id, patch }),
        start.1 == UpdateAction::Begin,
{
    (UpdateState::Beginning { id, owner: user.id, patch }, UpdateAction::Begin)
}

impl UpdateState {
    /// The event that a row answered by the store is in this state: the
    /// loaded task while loading, the written one otherwise.
    pub fn answered(&self, row: Result<Option<Task>, StoreFailure>) -> (event: UpdateEvent)
        ensures
            event == if *self is Loading {
                UpdateEvent::Loaded(row)
            } else {
                UpdateEvent::Written(row)
            },
    {
        match self {
            UpdateState::Loading { .. } => UpdateEvent::Loaded(row),
            _ => UpdateEvent::Written(row),
        }
    }

    /// Takes the transition on what the store reported. Nothing is written
    /// but the merge of the row that this transaction itself has read, and
    /// nothing is answered with a task before the commit went through.
    pub fn advance(self, event: UpdateEvent) -> (next: (UpdateState, UpdateAction))
        ensures
            next == update_next(self, event),
    {
        match (self, event) {
            (UpdateState::Beginning { id, owner, patch }, UpdateEvent::Began(Ok(_))) => (
                UpdateState::Loading { id, owner, patch },
                UpdateAction::Ask(Query::TaskOf { id, owner }),
            ),
            (UpdateState::Beginning { .. }, UpdateEvent::Began(Err(_))) => (
                UpdateState::Finished,
                UpdateAction::Reply(Err(ApiError::Internal)),
            ),
            (UpdateState::Loading { id, owner, patch }, UpdateEvent::Loaded(Ok(Some(task)))) => {
                let record = patch.apply(task);
                (
                    UpdateState::Writing,
                    UpdateAction::Ask(
                        Query::UpdateTask {
                            id,
                            owner,
                            title: record.title,
                            description: record.description,
                            completed: record.completed,
                        },
                    ),
                )
            },
            (UpdateState::Loading { .. }, UpdateEvent::Loaded(Ok(None))) => (
                UpdateState::Finished,
                UpdateAction::Abort(ApiError::NotFound),
            ),
            (UpdateState::Writing, UpdateEvent::Written(Ok(Some(task)))) => (
                UpdateState::Committing { task },
                UpdateAction::Commit,
            ),
            (UpdateState::Committing { task }, UpdateEvent::Committed(Ok(_))) => (
                UpdateState::Finished,
                UpdateAction::Reply(Ok(task)),
            ),
            (UpdateState::Committing { .. }, UpdateEvent::Committed(Err(_))) => (
                UpdateState::Finished,
                UpdateAction::Reply(Err(ApiError::Internal)),
            ),
            _ => (UpdateState::Finished, UpdateAction::Abort(ApiError::Internal)),
        }
    }
}

} // verus!
