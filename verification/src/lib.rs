//! Credential and session management for a social-posting backend: password
//! hashing, signed session tokens, a user directory and a post store over a
//! document-store model, and a request authentication guard.

pub mod api;
pub mod app;
pub mod credentials;
pub mod database;
pub mod errors;
pub mod models;

pub use credentials::CredentialManager;
pub use errors::AppError;
