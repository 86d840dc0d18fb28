//! The request handlers, grouped as the service's routes are, and the table
//! of the routes themselves.

use vstd::prelude::*;

pub mod auth;
pub mod tasks;

verus! {

/// The HTTP methods the service answers.
#[derive(Clone, Copy, Debug, PartialEq, Eq, Structural)]
pub enum Method {
    Get,
    Post,
    Patch,
    Delete,
}

/// The endpoints of the service.
#[derive(Clone, Copy, Debug, PartialEq, Eq, Structural)]
pub enum Endpoint {
    Register,
    Login,
    Logout,
    ListTasks,
    CreateTask,
    ReadTask,
    UpdateTask,
    DeleteTask,
}

impl Endpoint {
    /// Only registration and login are open; every other endpoint stands
    /// behind the authentication gate.
    pub open spec fn protected_spec(self) -> bool {
        !(self is Register || self is Login)
    }

    pub fn protected(self) -> (p: bool)
        ensures
            p == self.protected_spec(),
    {
        match self {
            Endpoint::Register => false,
            Endpoint::Login => false,
            _ => true,
        }
    }

    /// The method an endpoint answers to.
    pub open spec fn method_spec(self) -> Method {
        match self {
            Endpoint::Register => Method::Post,
            Endpoint::Login => Method::Post,
            Endpoint::Logout => Method::Get,
            Endpoint::ListTasks => Method::Get,
            Endpoint::CreateTask => Method::Post,
            Endpoint::ReadTask => Method::Get,
            Endpoint::UpdateTask => Method::Patch,
            Endpoint::DeleteTask => Method::Delete,
        }
    }

    pub fn method(self) -> (m: Method)
        ensures
            m == self.method_spec(),
    {
        match self {
            Endpoint::Register => Method::Post,
            Endpoint::Login => Method::Post,
            Endpoint::Logout => Method::Get,
            Endpoint::ListTasks => Method::Get,
            Endpoint::CreateTask => Method::Post,
            Endpoint::ReadTask => Method::Get,
            Endpoint::UpdateTask => Method::Patch,
            Endpoint::DeleteTask => Method::Delete,
        }
    }

    /// Whether the endpoint's path ends in a task identifier.
    pub open spec fn takes_id_spec(self) -> bool {
        self is ReadTask || self is UpdateTask || self is DeleteTask
    }

    pub fn takes_id(self) -> (t: bool)
        ensures
            t == self.takes_id_spec(),
    {
        match self {
            Endpoint::ReadTask => true,
            Endpoint::UpdateTask => true,
            Endpoint::DeleteTask => true,
            _ => false,
        }
    }

    /// The path of an endpoint, with `:id` where a task identifier goes.
    pub fn path(self) -> (p: &'static str)
        ensures
            p@ == match self {
                Endpoint::Register => "/auth/register"@,
                Endpoint::Login => "/auth/login"@,
                Endpoint::Logout => "/auth/logout"@,
                Endpoint::ListTasks => "/tasks"@,
                Endpoint::CreateTask => "/tasks"@,
                _ => "/tasks/:id"@,
            },
    {
        match self {
            Endpoint::Register => "/auth/register",
            Endpoint::Login => "/auth/login",
            Endpoint::Logout => "/auth/logout",
            Endpoint::ListTasks => "/tasks",
            Endpoint::CreateTask => "/tasks",
            _ => "/tasks/:id",
        }
    }
}

} // verus!
