//! The record types the stores persist.

pub mod post;
pub mod user;
