//! The error taxonomy of the library.

use vstd::prelude::*;

verus! {

/// Every failure a core operation can report.
///
/// `StoreError` stands for a failed round-trip to the external document
/// store; the in-memory store model in this crate never produces it, it is
/// reported only by the unverified layer that talks to a real store.
#[derive(Clone, Copy, Debug, PartialEq, Eq, Structural)]
pub enum AppError {
    /// A duplicate user name at registration.
    ValidationError,
    /// A wrong password, or an invalid, expired or missing session token.
    AuthError,
    /// A missing user or post, or an empty collection when sampling.
    NotFoundError,
    /// A deletion attempted by someone other than the post's author.
    ForbiddenError,
    /// The document-store collaborator was unreachable or its call failed.
    StoreError,
    /// A malformed stored password hash.
    HashError,
}

impl AppError {
    /// A short human-readable description of the error.
    pub fn describe(&self) -> (r: &'static str)
        ensures
            r@.len() > 0,
    {
        proof {
            reveal_strlit("user already exists with that name");
            reveal_strlit("authentication failed");
            reveal_strlit("not found");
            reveal_strlit("only the author may delete a post");
            reveal_strlit("the document store call failed");
            reveal_strlit("malformed password hash");
        }
        match self {
            AppError::ValidationError => "user already exists with that name",
            AppError::AuthError => "authentication failed",
            AppError::NotFoundError => "not found",
            AppError::ForbiddenError => "only the author may delete a post",
            AppError::StoreError => "the document store call failed",
            AppError::HashError => "malformed password hash",
        }
    }
}

} // verus!
