//! The relational store as the handlers see it: the queries they may ask for,
//! and a mathematical model of what the store holds and answers.

use vstd::prelude::*;
use crate::model::Task;
use crate::model::User;

verus! {

/// A parameterised query for the caller to run. Every query on tasks names
/// the owner, so that no statement can reach another account's rows.
#[derive(Clone, Debug, PartialEq, Eq)]
pub enum Query {
    /// Is there an account with this username?
    AccountExists { username: String },
    /// Create an account and return it.
    InsertAccount { username: String, password_hash: String },
    /// The account with this username, if any.
    AccountByUsername { username: String },
    /// The account with this identifier, if any.
    AccountById { id: i32 },
    /// Create a task for `owner` and return it.
    InsertTask { owner: i32, title: String, description: Option<String> },
    /// The task `id`, if `owner` owns it.
    TaskOf { id: i32, owner: i32 },
    /// All tasks of `owner`, newest first.
    TasksOf { owner: i32 },
    /// Delete the task `id`, if `owner` owns it, and return it.
    DeleteTask { id: i32, owner: i32 },
    /// Overwrite the three mutable fields of the task `id`, if `owner` owns
    /// it, and return the stored row.
    UpdateTask { id: i32, owner: i32, title: String, description: Option<String>, completed: bool },
}

/// A value bound to a placeholder of a statement.
#[derive(Clone, Debug, PartialEq, Eq)]
pub enum Param {
    Int(i32),
    Text(String),
    OptionalText(Option<String>),
    Flag(bool),
}

/// What kind of answer a query has.
#[derive(Clone, Copy, Debug, PartialEq, Eq, Structural)]
pub enum AnswerShape {
    /// One row with one boolean.
    Flag,
    /// At most one account.
    Account,
    /// At most one task.
    Task,
    /// Any number of tasks.
    Tasks,
}

impl Query {
    /// The kind of answer a query has.
    pub open spec fn shape_spec(&self) -> AnswerShape {
        match *self {
            Query::AccountExists { .. } => AnswerShape::Flag,
            Query::InsertAccount { .. } => AnswerShape::Account,
            Query::AccountByUsername { .. } => AnswerShape::Account,
            Query::AccountById { .. } => AnswerShape::Account,
            Query::TasksOf { .. } => AnswerShape::Tasks,
            _ => AnswerShape::Task,
        }
    }

    pub fn shape(&self) -> (shape: AnswerShape)
        ensures
            shape == self.shape_spec(),
    {
        match self {
            Query::AccountExists { .. } => AnswerShape::Flag,
            Query::InsertAccount { .. } => AnswerShape::Account,
            Query::AccountByUsername { .. } => AnswerShape::Account,
            Query::AccountById { .. } => AnswerShape::Account,
            Query::TasksOf { .. } => AnswerShape::Tasks,
            _ => AnswerShape::Task,
        }
    }

    /// The statement of a query, with `$1`, `$2`, ... where its parameters
    /// go. Every statement on tasks but the insert filters by `user_id`; the
    /// insert sets it.
    pub open spec fn statement_spec(&self) -> Seq<char> {
        match *self {
            Query::AccountExists { .. } =>
                "SELECT EXISTS(SELECT * FROM users WHERE username = $1)"@,
            Query::InsertAccount { .. } =>
                "INSERT INTO users (username, password) VALUES ($1, $2) RETURNING *"@,
            Query::AccountByUsername { .. } => "SELECT * FROM users WHERE username = $1"@,
            Query::AccountById { .. } => "SELECT * FROM users WHERE id = $1"@,
            Query::InsertTask { .. } =>
                "INSERT INTO tasks (user_id, title, description) VALUES ($1, $2, $3) RETURNING *"@,
            Query::TaskOf { .. } => "SELECT * FROM tasks WHERE id = $1 AND user_id = $2"@,
            Query::TasksOf { .. } =>
                "SELECT * FROM tasks WHERE user_id = $1 ORDER BY created_at DESC"@,
            Query::DeleteTask { .. } =>
                "DELETE FROM tasks WHERE id = $1 AND user_id = $2 RETURNING *"@,
            Query::UpdateTask { .. } =>
                "UPDATE tasks SET title = $1, description = $2, completed = $3 WHERE id = $4 AND user_id = $5 RETURNING *"@,
        }
    }

    pub fn statement(&self) -> (sql: &'static str)
        ensures
            sql@ == self.statement_spec(),
    {
        match self {
            Query::AccountExists { .. } => "SELECT EXISTS(SELECT * FROM users WHERE username = $1)",
            Query::InsertAccount { .. } =>
                "INSERT INTO users (username, password) VALUES ($1, $2) RETURNING *",
            Query::AccountByUsername { .. } => "SELECT * FROM users WHERE username = $1",
            Query::AccountById { .. } => "SELECT * FROM users WHERE id = $1",
            Query::InsertTask { .. } =>
                "INSERT INTO tasks (user_id, title, description) VALUES ($1, $2, $3) RETURNING *",
            Query::TaskOf { .. } => "SELECT * FROM tasks WHERE id = $1 AND user_id = $2",
            Query::TasksOf { .. } =>
                "SELECT * FROM tasks WHERE user_id = $1 ORDER BY created_at DESC",
            Query::DeleteTask { .. } =>
                "DELETE FROM tasks WHERE id = $1 AND user_id = $2 RETURNING *",
            Query::UpdateTask { .. } =>
                "UPDATE tasks SET title = $1, description = $2, completed = $3 WHERE id = $4 AND user_id = $5 RETURNING *",
        }
    }

    /// The parameters of a query, in the order of its placeholders.
    pub open spec fn parameters_spec(self) -> Seq<Param> {
        match self {
            Query::AccountExists { username } => seq![Param::Text(username)],
            Query::InsertAccount { username, password_hash } => seq![
                Param::Text(username),
                Param::Text(password_hash),
            ],
            Query::AccountByUsername { username } => seq![Param::Text(username)],
            Query::AccountById { id } => seq![Param::Int(id)],
            Query::InsertTask { owner, title, description } => seq![
                Param::Int(owner),
                Param::Text(title),
                Param::OptionalText(description),
            ],
            Query::TaskOf { id, owner } => seq![Param::Int(id), Param::Int(owner)],
            Query::TasksOf { owner } => seq![Param::Int(owner)],
            Query::DeleteTask { id, owner } => seq![Param::Int(id), Param::Int(owner)],
            Query::UpdateTask { id, owner, title, description, completed } => seq![
                Param::Text(title),
                Param::OptionalText(description),
                Param::Flag(completed),
                Param::Int(id),
                Param::Int(owner),
            ],
        }
    }

    pub fn parameters(self) -> (params: Vec<Param>)
        ensures
            params@ == self.parameters_spec(),
    {
        let mut params: Vec<Param> = Vec::new();
        match self {
            Query::AccountExists { username } => {
                params.push(Param::Text(username));
            },
            Query::InsertAccount { username, password_hash } => {
                params.push(Param::Text(username));
                params.push(Param::Text(password_hash));
            },
            Query::AccountByUsername { username } => {
                params.push(Param::Text(username));
            },
            Query::AccountById { id } => {
                params.push(Param::Int(id));
            },
            Query::InsertTask { owner, title, description } => {
                params.push(Param::Int(owner));
                params.push(Param::Text(title));
                params.push(Param::OptionalText(description));
            },
            Query::TaskOf { id, owner } => {
                params.push(Param::Int(id));
                params.push(Param::Int(owner));
            },
            Query::TasksOf { owner } => {
                params.push(Param::Int(owner));
            },
            Query::DeleteTask { id, owner } => {
                params.push(Param::Int(id));
                params.push(Param::Int(owner));
            },
            Query::UpdateTask { id, owner, title, description, completed } => {
                params.push(Param::Text(title));
                params.push(Param::OptionalText(description));
                params.push(Param::Flag(completed));
                params.push(Param::Int(id));
                params.push(Param::Int(owner));
            },
        }
        assert(params@ =~= self.parameters_spec());
        params
    }
}

/// What the store holds: one row per account, one row per task.
pub struct Database {
    pub accounts: Seq<User>,
    pub tasks: Seq<Task>,
}

impl Database {
    /// Identifiers and usernames of accounts are unique, identifiers of
    /// tasks are unique, and every task belongs to an account that exists.
    pub open spec fn well_formed(self) -> bool {
        &&& forall|i: int, j: int|
            0 <= i < j < self.accounts.len() ==> self.accounts[i].id != self.accounts[j].id
                && self.accounts[i].username@ != self.accounts[j].username@
        &&& forall|i: int, j: int|
            0 <= i < j < self.tasks.len() ==> self.tasks[i].id != self.tasks[j].id
        &&& forall|i: int|
            0 <= i < self.tasks.len() ==> self.has_account(#[trigger] self.tasks[i].user_id)
    }

    pub open spec fn has_account(self, id: i32) -> bool {
        exists|i: int| 0 <= i < self.accounts.len() && self.accounts[i].id == id
    }

    /// The answer to `AccountExists`.
    pub open spec fn has_username(self, username: Seq<char>) -> bool {
        exists|i: int| 0 <= i < self.accounts.len() && self.accounts[i].username@ == username
    }

    /// How many accounts carry a username.
    pub open spec fn count_username(self, username: Seq<char>) -> nat {
        self.accounts.filter(|u: User| u.username@ == username).len()
    }

    /// The answer to `AccountByUsername`.
    pub open spec fn account_named(self, username: Seq<char>) -> Option<User> {
        if self.has_username(username) {
            let i = choose|i: int|
                0 <= i < self.accounts.len() && self.accounts[i].username@ == username;
            Some(self.accounts[i])
        } else {
            None
        }
    }

    /// The answer to `AccountById`.
    pub open spec fn account_by_id(self, id: i32) -> Option<User> {
        if self.has_account(id) {
            let i = choose|i: int| 0 <= i < self.accounts.len() && self.accounts[i].id == id;
            Some(self.accounts[i])
        } else {
            None
        }
    }

    pub open spec fn owns(self, id: i32, owner: i32) -> bool {
        exists|i: int|
            0 <= i < self.tasks.len() && self.tasks[i].id == id && self.tasks[i].user_id == owner
    }

    /// The answer to `TaskOf`: the row must match the identifier and the
    /// owner both.
    pub open spec fn task_of(self, id: i32, owner: i32) -> Option<Task> {
        if self.owns(id, owner) {
            let i = choose|i: int|
                0 <= i < self.tasks.len() && self.tasks[i].id == id && self.tasks[i].user_id
                    == owner;
            Some(self.tasks[i])
        } else {
            None
        }
    }

    /// The answer to `TasksOf`, as a set of rows: the order is the store's.
    pub open spec fn tasks_of(self, owner: i32) -> Seq<Task> {
        self.tasks.filter(|t: Task| t.user_id == owner)
    }

    /// The store after `InsertAccount` has added a row.
    pub open spec fn with_account(self, account: User) -> Database {
        Database { accounts: self.accounts.push(account), tasks: self.tasks }
    }

    /// The store after an account was deleted; its tasks go with it.
    pub open spec fn without_account(self, id: i32) -> Database {
        Database {
            accounts: self.accounts.filter(|u: User| u.id != id),
            tasks: self.tasks.filter(|t: Task| t.user_id != id),
        }
    }

    /// The store after `UpdateTask` has run at the time `now`: the row that
    /// matches identifier and owner carries the new fields and the new time
    /// of its last update, every other row is untouched.
    pub open spec fn with_task_fields(
        self,
        id: i32,
        owner: i32,
        title: String,
        description: Option<String>,
        completed: bool,
        now: i64,
    ) -> Database {
        Database {
            accounts: self.accounts,
            tasks: self.tasks.map_values(
                |t: Task|
                    if t.id == id && t.user_id == owner {
                        Task {
                            id: t.id,
                            user_id: t.user_id,
                            title,
                            description,
                            completed,
                            created_at: t.created_at,
                            updated_at: now,
                        }
                    } else {
                        t
                    },
            ),
        }
    }

    /// The store after `DeleteTask` has run.
    pub open spec fn without_task(self, id: i32, owner: i32) -> Database {
        Database {
            accounts: self.accounts,
            tasks: self.tasks.filter(|t: Task| !(t.id == id && t.user_id == owner)),
        }
    }
}

} // verus!
