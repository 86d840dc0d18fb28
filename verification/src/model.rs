//! The persisted records and the claims carried by a session token.

use vstd::prelude::*;

verus! {

/// An account. `id` is immutable and is the only thing a token vouches for.
/// `password` holds the salted hash, never the password itself.
#[derive(Clone, Debug, PartialEq, Eq)]
pub struct User {
    pub id: i32,
    pub username: String,
    pub password: String,
    pub token: Option<String>,
}

/// A task owned by the account `user_id`. Timestamps are microseconds since
/// the Unix epoch and are assigned by the store.
#[derive(Clone, Debug, PartialEq, Eq)]
pub struct Task {
    pub id: i32,
    pub user_id: i32,
    pub title: String,
    pub description: Option<String>,
    pub completed: bool,
    pub created_at: i64,
    pub updated_at: i64,
}

/// The claims of a session token: the subject is the account identifier in
/// decimal. No expiry is carried.
#[derive(Clone, Debug, PartialEq, Eq)]
pub struct Claims {
    pub sub: String,
}

/// Mathematical value of an optional string.
pub open spec fn text_of(o: Option<String>) -> Option<Seq<char>> {
    match o {
        Some(s) => Some(s@),
        None => None,
    }
}

/// Mathematical value of an account.
pub struct UserView {
    pub id: int,
    pub username: Seq<char>,
    pub password: Seq<char>,
    pub token: Option<Seq<char>>,
}

/// Mathematical value of a task.
pub struct TaskView {
    pub id: int,
    pub user_id: int,
    pub title: Seq<char>,
    pub description: Option<Seq<char>>,
    pub completed: bool,
    pub created_at: int,
    pub updated_at: int,
}

impl View for User {
    type V = UserView;

    open spec fn view(&self) -> UserView {
        UserView {
            id: self.id as int,
            username: self.username@,
            password: self.password@,
            token: text_of(self.token),
        }
    }
}

impl View for Task {
    type V = TaskView;

    open spec fn view(&self) -> TaskView {
        TaskView {
            id: self.id as int,
            user_id: self.user_id as int,
            title: self.title@,
            description: text_of(self.description),
            completed: self.completed,
            created_at: self.created_at as int,
            updated_at: self.updated_at as int,
        }
    }
}

} // verus!
