//! Users and their preferences.

use vstd::prelude::*;

use crate::credentials::byte_len;
use crate::credentials::hash_valid_for;
use crate::credentials::CredentialManager;
use crate::errors::AppError;

verus! {

/// There are no profile pictures in Bread.  Instead, each profile has a
/// color.
#[derive(Clone, Copy, Debug, PartialEq, Eq, Structural)]
pub enum ProfileColor {
    Orange,
    Red,
    Green,
    Blue,
    Grey,
}

/// What a user has chosen for their own profile.
#[derive(Clone, Copy, Debug, PartialEq, Eq, Structural)]
pub struct UserPreferences {
    pub prefers_darkmode: bool,
    pub profile_color: ProfileColor,
}

/// The preferences every fresh user starts with.
pub open spec fn spec_default_preferences() -> UserPreferences {
    UserPreferences { prefers_darkmode: true, profile_color: ProfileColor::Orange }
}

/// A user in Bread.
///
/// The identifier is present exactly when the record has been persisted:
/// the store assigns it on insert, and a freshly created user carries none.
/// The password field holds an opaque encoded hash, never a plaintext.
#[derive(Debug)]
pub struct User {
    pub id: Option<u64>,
    pub name: String,
    pub password: String,
    pub preferences: UserPreferences,
}

/// The mathematical value of a [`User`].
pub struct UserV {
    pub id: Option<u64>,
    pub name: Seq<char>,
    pub password: Seq<char>,
    pub preferences: UserPreferences,
}

impl View for User {
    type V = UserV;

    open spec fn view(&self) -> UserV {
        UserV {
            id: self.id,
            name: self.name@,
            password: self.password@,
            preferences: self.preferences,
        }
    }
}

impl Clone for User {
    fn clone(&self) -> (r: Self)
        ensures
            r == *self,
    {
        User {
            id: self.id,
            name: self.name.clone(),
            password: self.password.clone(),
            preferences: self.preferences,
        }
    }
}

impl User {
    /// Create a new user from a name and a plaintext password, which is
    /// hashed on the spot.  This does not save the user to any store, so
    /// the new record carries no identifier.  Within the hash function's
    /// accepted parameter ranges and input size, creation is owed to
    /// succeed.
    pub fn create(name: String, password: String, credentials: &CredentialManager) -> (r: Result<
        User,
        AppError,
    >)
        ensures
            r matches Ok(u) ==> u.id is None && u.name@ == name@ && hash_valid_for(
                u.password@,
                password@,
            ) && u.preferences == spec_default_preferences(),
            r matches Err(e) ==> e == AppError::HashError,
            (credentials.wf_params() && byte_len(password@) <= 0xFFFF_FFFF) ==> r is Ok,
    {
        match Self::hash_password(password.as_str(), credentials) {
            Ok(hashed_password) => Ok(
                User {
                    id: None,
                    name,
                    password: hashed_password,
                    preferences: UserPreferences {
                        prefers_darkmode: true,
                        profile_color: ProfileColor::Orange,
                    },
                },
            ),
            Err(e) => Err(e),
        }
    }

    /// Hash a plaintext password with the given cost configuration.  A
    /// returned hash always verifies against `password`, and within the
    /// hash function's accepted parameter ranges and input size the call
    /// is owed to succeed.
    pub fn hash_password(password: &str, credentials: &CredentialManager) -> (r: Result<
        String,
        AppError,
    >)
        ensures
            r matches Ok(h) ==> hash_valid_for(h@, password@),
            r matches Err(e) ==> e == AppError::HashError,
            (credentials.wf_params() && byte_len(password@) <= 0xFFFF_FFFF) ==> r is Ok,
    {
        credentials.hash(password)
    }
}

} // verus!
