//! Registration, login, logout and the authentication gate.

pub mod login;
pub mod logout;
pub mod middleware;
pub mod register;
