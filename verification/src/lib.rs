//! Authentication core of a bug-tracking service: password hashing, signed
//! expiring tokens, login and registration, and the guard before protected routes.

pub mod access;
pub mod auth;
pub mod errors;
pub mod handlers;
pub mod models;
pub mod password;
pub mod projects;
pub mod roles;
pub mod secret;
pub mod store;
pub mod text;
pub mod token;
