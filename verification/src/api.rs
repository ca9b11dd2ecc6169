//! The account operations a transport layer calls, and their routes.

use vstd::prelude::*;
use vstd::string::StringExecFns;

pub mod debug;
pub mod token;

use crate::api::token::jwt_claims_of;
use crate::api::token::SessionTokenService;
use crate::api::token::ISSUED_EXPIRY;
use crate::credentials::byte_len;
use crate::credentials::hash_valid_for;
use crate::credentials::verify_outcome;
use crate::credentials::CredentialManager;
use crate::database::spec_find_user_by_name;
use crate::database::user_idx_by_name;
use crate::database::DatabaseHandler;
use crate::errors::AppError;
use crate::models::user::User;

verus! {

/// Log a user in: look the name up, verify the password against the
/// stored hash, and issue a session token for the user's name.  A missing
/// user and a wrong password collapse to the same `AuthError`; a
/// malformed stored hash is a `HashError`.  A correct password is owed
/// success: the found user comes back together with a token carrying the
/// user's name and the fixed, already-elapsed expiry.
pub fn auth_login(
    db: &DatabaseHandler,
    tokens: &SessionTokenService,
    username: &str,
    password: &str,
    credentials: &CredentialManager,
) -> (r: Result<(User, String), AppError>)
    ensures
        match spec_find_user_by_name(db.users@, username@) {
            None => r matches Err(e) && e == AppError::AuthError,
            Some(u) => match verify_outcome(u.password, password@) {
                None => r matches Err(e) && e == AppError::HashError,
                Some(false) => r matches Err(e) && e == AppError::AuthError,
                Some(true) => r matches Ok(p) && p.0@ == u && jwt_claims_of(p.1@, tokens@) == Some(
                    (u.name, ISSUED_EXPIRY),
                ),
            },
        },
{
    let user = match db.login_user(username, password, credentials) {
        Ok(u) => u,
        Err(e) => {
            return Err(e);
        },
    };
    let session_token = match tokens.issue(user.name.as_str()) {
        Ok(t) => t,
        Err(e) => {
            return Err(e);
        },
    };
    Ok((user, session_token))
}

/// Change a user's password: re-verify the old password first, then hash
/// the new one and store it.  Any failure to re-authenticate collapses to
/// one `AuthError`; only a failure to hash the new password surfaces as
/// `HashError`, and then nothing is mutated.  With a verified old
/// password, and within the hash function's accepted parameter ranges
/// and input size, the change is owed to succeed.
pub fn auth_change_pass(
    db: &mut DatabaseHandler,
    username: &str,
    old_password: &str,
    new_password: &str,
    credentials: &CredentialManager,
) -> (r: Result<(), AppError>)
    requires
        old(db).wf(),
    ensures
        final(db).wf(),
        final(db).posts@ == old(db).posts@,
        final(db).next_user_id == old(db).next_user_id,
        final(db).next_post_id == old(db).next_post_id,
        match spec_find_user_by_name(old(db).users@, username@) {
            None => r matches Err(e) && e == AppError::AuthError && *final(db) == *old(db),
            Some(u) => match verify_outcome(u.password, old_password@) {
                None => r matches Err(e) && e == AppError::AuthError && *final(db) == *old(db),
                Some(false) => r matches Err(e) && e == AppError::AuthError && *final(db) == *old(
                    db,
                ),
                Some(true) => ({
                    &&& (r matches Ok(x) ==> ({
                        let i = user_idx_by_name(old(db).users@, username@);
                        &&& i != -1
                        &&& final(db).users@ == old(db).users@.update(i, final(db).users@[i])
                        &&& final(db).users@[i]@.id == old(db).users@[i]@.id
                        &&& final(db).users@[i]@.name == old(db).users@[i]@.name
                        &&& hash_valid_for(final(db).users@[i]@.password, new_password@)
                        &&& final(db).users@[i]@.preferences == old(db).users@[i]@.preferences
                    }))
                    &&& (r matches Err(e) ==> e == AppError::HashError && *final(db) == *old(db))
                    &&& ((credentials.wf_params() && byte_len(new_password@) <= 0xFFFF_FFFF) ==> r
                        is Ok)
                }),
            },
        },
{
    let is_old_password_correct = db.login_user(username, old_password, credentials).is_ok();
    if !is_old_password_correct {
        return Err(AppError::AuthError);
    }
    let hashed_password = match User::hash_password(new_password, credentials) {
        Ok(h) => h,
        Err(e) => {
            return Err(e);
        },
    };
    match db.change_password(username, hashed_password) {
        Ok(x) => Ok(x),
        Err(e) => Err(e),
    }
}

/// The paths mounted under the account interface, in mount order.
pub fn get_api_routes() -> (r: Vec<String>)
    ensures
        r@.len() == 7,
        r@[0]@ == "/auth/register"@,
        r@[1]@ == "/auth/login"@,
        r@[2]@ == "/auth/change-password"@,
        r@[3]@ == "/create-post"@,
        r@[4]@ == "/settings"@,
        r@[5]@ == "/follow/<user_id>"@,
        r@[6]@ == "/unfollow/<user_id>"@,
{
    let mut r: Vec<String> = Vec::new();
    r.push(String::from_str("/auth/register"));
    r.push(String::from_str("/auth/login"));
    r.push(String::from_str("/auth/change-password"));
    r.push(String::from_str("/create-post"));
    r.push(String::from_str("/settings"));
    r.push(String::from_str("/follow/<user_id>"));
    r.push(String::from_str("/unfollow/<user_id>"));
    r
}

} // verus!
