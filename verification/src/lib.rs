//! A small username/password account service: registration, credential
//! verification, account activation, and profile updates over an in-memory
//! user table, with password hashing delegated to `password_auth`.

pub mod hashing;
pub mod laws;
pub mod store;
pub mod user;
pub mod validation;
