//! The user directory and the post store over an in-memory document-store
//! model.
//!
//! The handler plays the part of the document-store collaborator: it holds
//! one collection of users and one of posts, assigns every identifier on
//! insert, and offers insert, find-by-filter, delete-by-filter and random
//! sampling.  The exposed operations build the account flows on top:
//! registration with a uniqueness check, login, password change, owner-only
//! deletion.  Every contract is stated over the sequences of stored
//! records.

use vstd::prelude::*;
use vstd::string::StringExecFns;

use crate::credentials::byte_len;
use crate::credentials::hash_valid_for;
use crate::credentials::verify_outcome;
use crate::credentials::CredentialManager;
use crate::errors::AppError;
use crate::models::post::Post;
use crate::models::post::PostV;
use crate::models::user::spec_default_preferences;
use crate::models::user::User;
use crate::models::user::UserV;

verus! {

/// First index of the user persisted under `id`, or -1 when there is none.
pub open spec fn user_idx_by_id(users: Seq<User>, id: u64) -> int
    decreases users.len(),
{
    if users.len() == 0 {
        -1
    } else if users[0].id == Some(id) {
        0
    } else {
        let rest = user_idx_by_id(users.drop_first(), id);
        if rest == -1 {
            -1
        } else {
            rest + 1
        }
    }
}

/// First index of the user named `name`, or -1 when there is none.
pub open spec fn user_idx_by_name(users: Seq<User>, name: Seq<char>) -> int
    decreases users.len(),
{
    if users.len() == 0 {
        -1
    } else if users[0].name@ == name {
        0
    } else {
        let rest = user_idx_by_name(users.drop_first(), name);
        if rest == -1 {
            -1
        } else {
            rest + 1
        }
    }
}

/// First index of the post persisted under `id`, or -1 when there is none.
pub open spec fn post_idx_by_id(posts: Seq<Post>, id: u64) -> int
    decreases posts.len(),
{
    if posts.len() == 0 {
        -1
    } else if posts[0].id == Some(id) {
        0
    } else {
        let rest = post_idx_by_id(posts.drop_first(), id);
        if rest == -1 {
            -1
        } else {
            rest + 1
        }
    }
}

/// What looking a user up by identifier returns.
pub open spec fn spec_find_user_by_id(users: Seq<User>, id: u64) -> Option<UserV> {
    let i = user_idx_by_id(users, id);
    if i == -1 {
        None
    } else {
        Some(users[i]@)
    }
}

/// What looking a user up by name returns.
pub open spec fn spec_find_user_by_name(users: Seq<User>, name: Seq<char>) -> Option<UserV> {
    let i = user_idx_by_name(users, name);
    if i == -1 {
        None
    } else {
        Some(users[i]@)
    }
}

/// What looking a post up by identifier returns.
pub open spec fn spec_find_post_by_id(posts: Seq<Post>, id: u64) -> Option<PostV> {
    let i = post_idx_by_id(posts, id);
    if i == -1 {
        None
    } else {
        Some(posts[i]@)
    }
}

/// No two stored users share an identifier.
pub open spec fn user_ids_unique(users: Seq<User>) -> bool {
    forall|i: int, j: int|
        0 <= i < users.len() && 0 <= j < users.len() && i != j ==> (#[trigger] users[i]).id != (
        #[trigger] users[j]).id
}

/// No two stored posts share an identifier.
pub open spec fn post_ids_unique(posts: Seq<Post>) -> bool {
    forall|i: int, j: int|
        0 <= i < posts.len() && 0 <= j < posts.len() && i != j ==> (#[trigger] posts[i]).id != (
        #[trigger] posts[j]).id
}

/// Every stored user is persisted: it carries an identifier below the next
/// one the store will assign.
pub open spec fn users_persisted(users: Seq<User>, next: u64) -> bool {
    forall|i: int|
        0 <= i < users.len() ==> (#[trigger] users[i]).id is Some && users[i].id->0 < next
}

/// Every stored post is persisted: it carries an identifier below the next
/// one the store will assign.
pub open spec fn posts_persisted(posts: Seq<Post>, next: u64) -> bool {
    forall|i: int|
        0 <= i < posts.len() ==> (#[trigger] posts[i]).id is Some && posts[i].id->0 < next
}

/// What deleting a user by identifier does to the collection.
pub open spec fn spec_delete_user(users: Seq<User>, id: u64) -> Result<Seq<User>, AppError> {
    let i = user_idx_by_id(users, id);
    if i == -1 {
        Err(AppError::NotFoundError)
    } else {
        Ok(users.remove(i))
    }
}

/// What deleting a post does to the collection: a missing post is
/// `NotFoundError`; a requester other than the author is `ForbiddenError`
/// and no mutation; only the author's request removes the post.
pub open spec fn spec_delete_post(posts: Seq<Post>, requester: u64, post_id: u64) -> Result<
    Seq<Post>,
    AppError,
> {
    let i = post_idx_by_id(posts, post_id);
    if i == -1 {
        Err(AppError::NotFoundError)
    } else if posts[i].author != requester {
        Err(AppError::ForbiddenError)
    } else {
        Ok(posts.remove(i))
    }
}

/// What a uniform random draw over the collection returns: the draw is
/// reduced to an index, so every draw on a non-empty collection yields a
/// member; an empty collection is `NotFoundError`.
pub open spec fn spec_sample(posts: Seq<Post>, draw: u64) -> Result<PostV, AppError> {
    if posts.len() == 0 {
        Err(AppError::NotFoundError)
    } else {
        Ok(posts[draw as int % posts.len() as int]@)
    }
}

/// The owner-only deletion decision on one fetched record: what a store
/// should do with a deletion request, given what its lookup returned.  A
/// store that cannot hold the whole collection in reach (a remote one)
/// fetches the record, asks this, and only then deletes.
pub fn delete_post_decision(found: Option<&Post>, requester: u64) -> (r: Result<(), AppError>)
    ensures
        match found {
            None => r == Err::<(), AppError>(AppError::NotFoundError),
            Some(p) => if p.author == requester {
                r is Ok
            } else {
                r == Err::<(), AppError>(AppError::ForbiddenError)
            },
        },
{
    match found {
        None => Err(AppError::NotFoundError),
        Some(p) => {
            if p.author != requester {
                Err(AppError::ForbiddenError)
            } else {
                Ok(())
            }
        },
    }
}

/// The uniqueness decision at registration: what a store flow should do
/// with a new name, given what the name lookup returned.  A store that
/// cannot hold the whole collection in reach (a remote one) looks the
/// name up, asks this, and only then inserts.
pub fn register_decision(existing: Option<&User>) -> (r: Result<(), AppError>)
    ensures
        match existing {
            Some(u) => r == Err::<(), AppError>(AppError::ValidationError),
            None => r is Ok,
        },
{
    match existing {
        Some(_) => Err(AppError::ValidationError),
        None => Ok(()),
    }
}

/// Relies on `rand_core::OsRng`, reached through `password_hash`: one
/// draw from the operating system's randomness.  Nothing is claimed of
/// which number comes back.
#[verifier::external_body]
fn random_u64() -> u64 {
    password_hash::rand_core::RngCore::next_u64(&mut password_hash::rand_core::OsRng)
}

/// This holds both collections of the document store and assigns every
/// identifier on insert; the core never generates identifiers itself.
pub struct DatabaseHandler {
    pub users: Vec<User>,
    pub posts: Vec<Post>,
    pub next_user_id: u64,
    pub next_post_id: u64,
}

impl DatabaseHandler {
    /// Well-formedness: every record is persisted under a unique
    /// identifier below the next one to be assigned.
    pub open spec fn wf(self) -> bool {
        &&& users_persisted(self.users@, self.next_user_id)
        &&& user_ids_unique(self.users@)
        &&& posts_persisted(self.posts@, self.next_post_id)
        &&& post_ids_unique(self.posts@)
    }

    /// An empty store.
    pub fn new() -> (r: Self)
        ensures
            r.wf(),
            r.users@ =~= Seq::<User>::empty(),
            r.posts@ =~= Seq::<Post>::empty(),
            r.next_user_id == 0,
            r.next_post_id == 0,
    {
        DatabaseHandler { users: Vec::new(), posts: Vec::new(), next_user_id: 0, next_post_id: 0 }
    }

    /// Saves a user to the store, which assigns the identifier.  The
    /// record's own identifier, if any, is replaced by the assigned one.
    pub fn save_user(&mut self, user: &User) -> (r: u64)
        requires
            old(self).wf(),
            old(self).next_user_id < u64::MAX,
        ensures
            final(self).wf(),
            r == old(self).next_user_id,
            final(self).next_user_id == r + 1,
            final(self).users@ == old(self).users@.push(
                User {
                    id: Some(r),
                    name: user.name,
                    password: user.password,
                    preferences: user.preferences,
                },
            ),
            final(self).posts@ == old(self).posts@,
            final(self).next_post_id == old(self).next_post_id,
    {
        let id = self.next_user_id;
        let stored = User {
            id: Some(id),
            name: user.name.clone(),
            password: user.password.clone(),
            preferences: user.preferences,
        };
        self.users.push(stored);
        self.next_user_id = id + 1;
        proof {
            assert forall|i: int|
                0 <= i < self.users@.len() implies (#[trigger] self.users@[i]).id is Some
                && self.users@[i].id->0 < self.next_user_id by {
                if i < old(self).users@.len() {
                    assert(old(self).users@[i].id is Some);
                }
            }
        }
        id
    }

    /// Saves a post to the store, which assigns the identifier.
    pub fn save_post(&mut self, post: &Post) -> (r: u64)
        requires
            old(self).wf(),
            old(self).next_post_id < u64::MAX,
        ensures
            final(self).wf(),
            r == old(self).next_post_id,
            final(self).next_post_id == r + 1,
            final(self).posts@ == old(self).posts@.push(
                Post { id: Some(r), author: post.author, content: post.content, image: post.image },
            ),
            final(self).users@ == old(self).users@,
            final(self).next_user_id == old(self).next_user_id,
    {
        let id = self.next_post_id;
        let stored = Post {
            id: Some(id),
            author: post.author,
            content: match &post.content {
                Some(s) => Some(s.clone()),
                None => None,
            },
            image: post.image,
        };
        self.posts.push(stored);
        self.next_post_id = id + 1;
        proof {
            assert forall|i: int|
                0 <= i < self.posts@.len() implies (#[trigger] self.posts@[i]).id is Some
                && self.posts@[i].id->0 < self.next_post_id by {
                if i < old(self).posts@.len() {
                    assert(old(self).posts@[i].id is Some);
                }
            }
        }
        id
    }

    /// Get a user from the store via its identifier.
    pub fn find_user_by_id(&self, id: u64) -> (r: Option<User>)
        ensures
            match r {
                Some(u) => spec_find_user_by_id(self.users@, id) == Some(u@),
                None => spec_find_user_by_id(self.users@, id) is None,
            },
    {
        let mut i: usize = 0;
        while i < self.users.len()
            invariant
                i <= self.users.len(),
                forall|j: int| 0 <= j < i ==> (#[trigger] self.users@[j]).id != Some(id),
            decreases self.users.len() - i,
        {
            let u = &self.users[i];
            let matches_id = match u.id {
                Some(uid) => uid == id,
                None => false,
            };
            if matches_id {
                proof {
                    lemma_user_idx_by_id_props(self.users@, id);
                    assert(self.users@[i as int].id == Some(id));
                    assert(user_idx_by_id(self.users@, id) == i as int);
                }
                return Some(u.clone());
            }
            assert(self.users@[i as int].id != Some(id));
            i = i + 1;
        }
        proof {
            lemma_user_idx_by_id_props(self.users@, id);
        }
        None
    }

    /// Get a user from the store via its name.
    pub fn find_user_by_name(&self, name: &str) -> (r: Option<User>)
        ensures
            match r {
                Some(u) => spec_find_user_by_name(self.users@, name@) == Some(u@),
                None => spec_find_user_by_name(self.users@, name@) is None,
            },
    {
        let name_owned = String::from_str(name);
        let mut i: usize = 0;
        while i < self.users.len()
            invariant
                name_owned@ == name@,
                i <= self.users.len(),
                forall|j: int| 0 <= j < i ==> (#[trigger] self.users@[j]).name@ != name@,
            decreases self.users.len() - i,
        {
            let u = &self.users[i];
            if u.name == name_owned {
                proof {
                    lemma_user_idx_by_name_props(self.users@, name@);
                    assert(self.users@[i as int].name@ == name@);
                    assert(user_idx_by_name(self.users@, name@) == i as int);
                }
                return Some(u.clone());
            }
            assert(self.users@[i as int].name@ != name@);
            i = i + 1;
        }
        proof {
            lemma_user_idx_by_name_props(self.users@, name@);
        }
        None
    }

    /// Get a post from the store via its identifier.
    pub fn find_post_by_id(&self, id: u64) -> (r: Option<Post>)
        ensures
            match r {
                Some(p) => spec_find_post_by_id(self.posts@, id) == Some(p@),
                None => spec_find_post_by_id(self.posts@, id) is None,
            },
    {
        let mut i: usize = 0;
        while i < self.posts.len()
            invariant
                i <= self.posts.len(),
                forall|j: int| 0 <= j < i ==> (#[trigger] self.posts@[j]).id != Some(id),
            decreases self.posts.len() - i,
        {
            let p = &self.posts[i];
            let matches_id = match p.id {
                Some(pid) => pid == id,
                None => false,
            };
            if matches_id {
                proof {
                    lemma_post_idx_by_id_props(self.posts@, id);
                    assert(self.posts@[i as int].id == Some(id));
                    assert(post_idx_by_id(self.posts@, id) == i as int);
                }
                return Some(p.clone());
            }
            assert(self.posts@[i as int].id != Some(id));
            i = i + 1;
        }
        proof {
            lemma_post_idx_by_id_props(self.posts@, id);
        }
        None
    }

    /// Delete a user from the store via its identifier.
    pub fn delete_user(&mut self, id: u64) -> (r: Result<(), AppError>)
        requires
            old(self).wf(),
        ensures
            final(self).wf(),
            final(self).posts@ == old(self).posts@,
            final(self).next_user_id == old(self).next_user_id,
            final(self).next_post_id == old(self).next_post_id,
            match r {
                Ok(u) => spec_delete_user(old(self).users@, id) == Ok::<Seq<User>, AppError>(
                    final(self).users@,
                ),
                Err(e) => spec_delete_user(old(self).users@, id) == Err::<Seq<User>, AppError>(e)
                    && final(self).users@ == old(self).users@,
            },
    {
        let mut i: usize = 0;
        while i < self.users.len()
            invariant
                *self == *old(self),
                old(self).wf(),
                i <= self.users.len(),
                forall|j: int| 0 <= j < i ==> (#[trigger] self.users@[j]).id != Some(id),
            decreases self.users.len() - i,
        {
            let matches_id = match self.users[i].id {
                Some(uid) => uid == id,
                None => false,
            };
            if matches_id {
                proof {
                    lemma_user_idx_by_id_props(self.users@, id);
                    assert(self.users@[i as int].id == Some(id));
                    assert(user_idx_by_id(self.users@, id) == i as int);
                    lemma_users_remove_keeps_wf(self.users@, self.next_user_id, i as int);
                }
                self.users.remove(i);
                return Ok(());
            }
            assert(self.users@[i as int].id != Some(id));
            i = i + 1;
        }
        proof {
            lemma_user_idx_by_id_props(self.users@, id);
        }
        Err(AppError::NotFoundError)
    }

    /// Delete a post from the store.  Only the author of the post is
    /// allowed to delete it: any other requester is rejected with
    /// `ForbiddenError` and no mutation occurs.
    pub fn delete_post(&mut self, user_deleting_post: u64, post_id: u64) -> (r: Result<
        (),
        AppError,
    >)
        requires
            old(self).wf(),
        ensures
            final(self).wf(),
            final(self).users@ == old(self).users@,
            final(self).next_user_id == old(self).next_user_id,
            final(self).next_post_id == old(self).next_post_id,
            match r {
                Ok(u) => spec_delete_post(old(self).posts@, user_deleting_post, post_id) == Ok::<
                    Seq<Post>,
                    AppError,
                >(final(self).posts@),
                Err(e) => spec_delete_post(old(self).posts@, user_deleting_post, post_id) == Err::<
                    Seq<Post>,
                    AppError,
                >(e) && final(self).posts@ == old(self).posts@,
            },
    {
        let mut i: usize = 0;
        while i < self.posts.len()
            invariant
                *self == *old(self),
                old(self).wf(),
                i <= self.posts.len(),
                forall|j: int| 0 <= j < i ==> (#[trigger] self.posts@[j]).id != Some(post_id),
            decreases self.posts.len() - i,
        {
            let matches_id = match self.posts[i].id {
                Some(pid) => pid == post_id,
                None => false,
            };
            if matches_id {
                proof {
                    lemma_post_idx_by_id_props(self.posts@, post_id);
                    assert(self.posts@[i as int].id == Some(post_id));
                    assert(post_idx_by_id(self.posts@, post_id) == i as int);
                }
                if self.posts[i].author != user_deleting_post {
                    return Err(AppError::ForbiddenError);
                }
                proof {
                    lemma_posts_remove_keeps_wf(self.posts@, self.next_post_id, i as int);
                }
                self.posts.remove(i);
                return Ok(());
            }
            assert(self.posts@[i as int].id != Some(post_id));
            i = i + 1;
        }
        proof {
            lemma_post_idx_by_id_props(self.posts@, post_id);
        }
        Err(AppError::NotFoundError)
    }

    /// Fetch the post a given draw lands on: the deterministic core of
    /// random sampling, verified for every draw.
    pub fn sample_post(&self, draw: u64) -> (r: Result<Post, AppError>)
        ensures
            match r {
                Ok(p) => spec_sample(self.posts@, draw) == Ok::<PostV, AppError>(p@),
                Err(e) => spec_sample(self.posts@, draw) == Err::<PostV, AppError>(e),
            },
    {
        if self.posts.len() == 0 {
            return Err(AppError::NotFoundError);
        }
        let len = self.posts.len() as u64;
        let idx = (draw % len) as usize;
        Ok(self.posts[idx].clone())
    }

    /// Fetch a random post from the store: one uniform draw over the
    /// whole collection, independent of every earlier call.  Whatever
    /// number the draw yields, the result is a member of the store; an
    /// empty store is a `NotFoundError`.
    pub fn find_random_post(&self) -> (r: Result<Post, AppError>)
        ensures
            match r {
                Ok(p) => self.posts@.len() > 0 && (exists|i: int|
                    0 <= i < self.posts@.len() && (#[trigger] self.posts@[i])@ == p@),
                Err(e) => e == AppError::NotFoundError && self.posts@.len() == 0,
            },
    {
        let draw = random_u64();
        let r = self.sample_post(draw);
        proof {
            if self.posts@.len() > 0 {
                let i = draw as int % self.posts@.len() as int;
                assert(0 <= i < self.posts@.len());
                assert(spec_sample(self.posts@, draw) == Ok::<PostV, AppError>(self.posts@[i]@));
            }
        }
        r
    }

    /// Create a user from a name and plaintext password and save it; the
    /// assigned identifier comes back.  No uniqueness check happens
    /// here.  Within the hash function's accepted parameter ranges and
    /// input size, the call is owed to succeed.
    pub fn create_user(&mut self, name: String, password: String, credentials: &CredentialManager)
        -> (r: Result<u64, AppError>)
        requires
            old(self).wf(),
            old(self).next_user_id < u64::MAX,
        ensures
            final(self).wf(),
            final(self).posts@ == old(self).posts@,
            final(self).next_post_id == old(self).next_post_id,
            r matches Err(e) ==> e == AppError::HashError && *final(self) == *old(self),
            (credentials.wf_params() && byte_len(password@) <= 0xFFFF_FFFF) ==> r is Ok,
            r matches Ok(id) ==> ({
                &&& id == old(self).next_user_id
                &&& final(self).next_user_id == id + 1
                &&& final(self).users@ == old(self).users@.push(final(self).users@.last())
                &&& final(self).users@.last()@.id == Some(id)
                &&& final(self).users@.last()@.name == name@
                &&& hash_valid_for(final(self).users@.last()@.password, password@)
                &&& final(self).users@.last()@.preferences == spec_default_preferences()
            }),
    {
        let user = match User::create(name, password, credentials) {
            Ok(u) => u,
            Err(e) => {
                return Err(e);
            },
        };
        let id = self.save_user(&user);
        Ok(id)
    }

    /// Register a new user: hash the password, check that the name is
    /// free, then insert.  A taken name is a `ValidationError`.  Within
    /// the hash function's accepted parameter ranges and input size,
    /// hashing cannot fail, so a free name is owed an insertion and a
    /// taken name exactly the `ValidationError`.  The check and the
    /// insert are two separate steps: two concurrent registrations of
    /// one name can both pass the check before either inserts, so
    /// uniqueness here is best effort, not an atomic guarantee.
    pub fn register(&mut self, name: String, password: String, credentials: &CredentialManager)
        -> (r: Result<u64, AppError>)
        requires
            old(self).wf(),
            old(self).next_user_id < u64::MAX,
        ensures
            final(self).wf(),
            final(self).posts@ == old(self).posts@,
            final(self).next_post_id == old(self).next_post_id,
            r matches Err(e) ==> *final(self) == *old(self) && (e == AppError::ValidationError || e
                == AppError::HashError),
            r == Err::<u64, AppError>(AppError::ValidationError) ==> user_idx_by_name(
                old(self).users@,
                name@,
            ) != -1,
            user_idx_by_name(old(self).users@, name@) != -1 ==> r is Err,
            (credentials.wf_params() && byte_len(password@) <= 0xFFFF_FFFF) ==> ({
                &&& user_idx_by_name(old(self).users@, name@) != -1 ==> r == Err::<u64, AppError>(
                    AppError::ValidationError,
                )
                &&& user_idx_by_name(old(self).users@, name@) == -1 ==> r is Ok
            }),
            r matches Ok(id) ==> ({
                &&& user_idx_by_name(old(self).users@, name@) == -1
                &&& id == old(self).next_user_id
                &&& final(self).next_user_id == id + 1
                &&& final(self).users@ == old(self).users@.push(final(self).users@.last())
                &&& final(self).users@.last()@.id == Some(id)
                &&& final(self).users@.last()@.name == name@
                &&& hash_valid_for(final(self).users@.last()@.password, password@)
                &&& final(self).users@.last()@.preferences == spec_default_preferences()
            }),
    {
        let created_user = match User::create(name, password, credentials) {
            Ok(u) => u,
            Err(e) => {
                return Err(e);
            },
        };
        let user_in_db = self.find_user_by_name(created_user.name.as_str());
        if user_in_db.is_some() {
            return Err(AppError::ValidationError);
        }
        let id = self.save_user(&created_user);
        Ok(id)
    }

    /// Look the user up by name and verify the password against the
    /// stored hash: the login decision.  A missing user and a wrong
    /// password collapse to the same `AuthError`; a malformed stored
    /// hash is a `HashError`.
    pub fn login_user(&self, name: &str, password: &str, credentials: &CredentialManager) -> (r:
        Result<User, AppError>)
        ensures
            match spec_find_user_by_name(self.users@, name@) {
                None => r matches Err(e) && e == AppError::AuthError,
                Some(u) => match verify_outcome(u.password, password@) {
                    None => r matches Err(e) && e == AppError::HashError,
                    Some(false) => r matches Err(e) && e == AppError::AuthError,
                    Some(true) => r matches Ok(ru) && ru@ == u,
                },
            },
    {
        let user = match self.find_user_by_name(name) {
            Some(u) => u,
            None => {
                return Err(AppError::AuthError);
            },
        };
        match credentials.verify(user.password.as_str(), password) {
            Ok(true) => Ok(user),
            Ok(false) => Err(AppError::AuthError),
            Err(e) => Err(e),
        }
    }

    /// Replace the stored password hash of the named user.  The caller
    /// must already have re-verified the old password; this operation
    /// does not re-authenticate.
    pub fn change_password(&mut self, name: &str, new_hash: String) -> (r: Result<(), AppError>)
        requires
            old(self).wf(),
        ensures
            final(self).wf(),
            final(self).posts@ == old(self).posts@,
            final(self).next_user_id == old(self).next_user_id,
            final(self).next_post_id == old(self).next_post_id,
            match r {
                Ok(u) => ({
                    let i = user_idx_by_name(old(self).users@, name@);
                    &&& i != -1
                    &&& final(self).users@ == old(self).users@.update(i, final(self).users@[i])
                    &&& final(self).users@[i]@.id == old(self).users@[i]@.id
                    &&& final(self).users@[i]@.name == old(self).users@[i]@.name
                    &&& final(self).users@[i]@.password == new_hash@
                    &&& final(self).users@[i]@.preferences == old(self).users@[i]@.preferences
                }),
                Err(e) => e == AppError::NotFoundError && *final(self) == *old(self)
                    && user_idx_by_name(old(self).users@, name@) == -1,
            },
    {
        let name_owned = String::from_str(name);
        let mut i: usize = 0;
        while i < self.users.len()
            invariant
                name_owned@ == name@,
                *self == *old(self),
                old(self).wf(),
                i <= self.users.len(),
                forall|j: int| 0 <= j < i ==> (#[trigger] self.users@[j]).name@ != name@,
            decreases self.users.len() - i,
        {
            if self.users[i].name == name_owned {
                proof {
                    lemma_user_idx_by_name_props(self.users@, name@);
                    assert(self.users@[i as int].name@ == name@);
                    assert(user_idx_by_name(self.users@, name@) == i as int);
                }
                let found = self.users[i].clone();
                let updated = User {
                    id: found.id,
                    name: found.name,
                    password: new_hash,
                    preferences: found.preferences,
                };
                self.users.set(i, updated);
                proof {
                    let pre = old(self).users@;
                    let after = self.users@;
                    assert(after == pre.update(i as int, after[i as int]));
                    assert forall|j: int|
                        0 <= j < after.len() implies (#[trigger] after[j]).id is Some
                        && after[j].id->0 < self.next_user_id by {
                        if j != i {
                            assert(after[j] == pre[j]);
                        }
                        assert(pre[j].id is Some);
                    }
                    assert forall|j: int, k: int|
                        0 <= j < after.len() && 0 <= k < after.len() && j != k implies (
                    #[trigger] after[j]).id != (#[trigger] after[k]).id by {
                        assert(after[j].id == pre[j].id);
                        assert(after[k].id == pre[k].id);
                    }
                }
                return Ok(());
            }
            assert(self.users@[i as int].name@ != name@);
            i = i + 1;
        }
        proof {
            lemma_user_idx_by_name_props(self.users@, name@);
        }
        Err(AppError::NotFoundError)
    }
}

/// The first-index function for users by identifier is what it claims: a
/// -1 means no match anywhere, anything else is the first matching index.
pub proof fn lemma_user_idx_by_id_props(users: Seq<User>, id: u64)
    ensures
        user_idx_by_id(users, id) == -1 ==> forall|j: int|
            0 <= j < users.len() ==> (#[trigger] users[j]).id != Some(id),
        user_idx_by_id(users, id) != -1 ==> ({
            let i = user_idx_by_id(users, id);
            &&& 0 <= i < users.len()
            &&& users[i].id == Some(id)
            &&& forall|j: int| 0 <= j < i ==> (#[trigger] users[j]).id != Some(id)
        }),
    decreases users.len(),
{
    if users.len() > 0 && users[0].id != Some(id) {
        let rest = users.drop_first();
        lemma_user_idx_by_id_props(rest, id);
        let r = user_idx_by_id(rest, id);
        if r == -1 {
            assert forall|j: int| 0 <= j < users.len() implies (#[trigger] users[j]).id != Some(
                id,
            ) by {
                if j > 0 {
                    assert(rest[j - 1] == users[j]);
                    assert(rest[j - 1].id != Some(id));
                }
            }
        } else {
            let i = user_idx_by_id(users, id);
            assert(users[i] == rest[r]);
            assert forall|j: int| 0 <= j < i implies (#[trigger] users[j]).id != Some(id) by {
                if j > 0 {
                    assert(rest[j - 1] == users[j]);
                    assert(rest[j - 1].id != Some(id));
                }
            }
        }
    }
}

/// The first-index function for users by name is what it claims.
pub proof fn lemma_user_idx_by_name_props(users: Seq<User>, name: Seq<char>)
    ensures
        user_idx_by_name(users, name) == -1 ==> forall|j: int|
            0 <= j < users.len() ==> (#[trigger] users[j]).name@ != name,
        user_idx_by_name(users, name) != -1 ==> ({
            let i = user_idx_by_name(users, name);
            &&& 0 <= i < users.len()
            &&& users[i].name@ == name
            &&& forall|j: int| 0 <= j < i ==> (#[trigger] users[j]).name@ != name
        }),
    decreases users.len(),
{
    if users.len() > 0 && users[0].name@ != name {
        let rest = users.drop_first();
        lemma_user_idx_by_name_props(rest, name);
        let r = user_idx_by_name(rest, name);
        if r == -1 {
            assert forall|j: int| 0 <= j < users.len() implies (#[trigger] users[j]).name@
                != name by {
                if j > 0 {
                    assert(rest[j - 1] == users[j]);
                    assert(rest[j - 1].name@ != name);
                }
            }
        } else {
            let i = user_idx_by_name(users, name);
            assert(users[i] == rest[r]);
            assert forall|j: int| 0 <= j < i implies (#[trigger] users[j]).name@ != name by {
                if j > 0 {
                    assert(rest[j - 1] == users[j]);
                    assert(rest[j - 1].name@ != name);
                }
            }
        }
    }
}

/// The first-index function for posts by identifier is what it claims.
pub proof fn lemma_post_idx_by_id_props(posts: Seq<Post>, id: u64)
    ensures
        post_idx_by_id(posts, id) == -1 ==> forall|j: int|
            0 <= j < posts.len() ==> (#[trigger] posts[j]).id != Some(id),
        post_idx_by_id(posts, id) != -1 ==> ({
            let i = post_idx_by_id(posts, id);
            &&& 0 <= i < posts.len()
            &&& posts[i].id == Some(id)
            &&& forall|j: int| 0 <= j < i ==> (#[trigger] posts[j]).id != Some(id)
        }),
    decreases posts.len(),
{
    if posts.len() > 0 && posts[0].id != Some(id) {
        let rest = posts.drop_first();
        lemma_post_idx_by_id_props(rest, id);
        let r = post_idx_by_id(rest, id);
        if r == -1 {
            assert forall|j: int| 0 <= j < posts.len() implies (#[trigger] posts[j]).id != Some(
                id,
            ) by {
                if j > 0 {
                    assert(rest[j - 1] == posts[j]);
                    assert(rest[j - 1].id != Some(id));
                }
            }
        } else {
            let i = post_idx_by_id(posts, id);
            assert(posts[i] == rest[r]);
            assert forall|j: int| 0 <= j < i implies (#[trigger] posts[j]).id != Some(id) by {
                if j > 0 {
                    assert(rest[j - 1] == posts[j]);
                    assert(rest[j - 1].id != Some(id));
                }
            }
        }
    }
}

/// Removing one user keeps every remaining one persisted and unique.
proof fn lemma_users_remove_keeps_wf(users: Seq<User>, next: u64, i: int)
    requires
        users_persisted(users, next),
        user_ids_unique(users),
        0 <= i < users.len(),
    ensures
        users_persisted(users.remove(i), next),
        user_ids_unique(users.remove(i)),
{
    let after = users.remove(i);
    assert forall|j: int|
        0 <= j < after.len() implies (#[trigger] after[j]).id is Some && after[j].id->0 < next by {
        if j < i {
            assert(after[j] == users[j]);
        } else {
            assert(after[j] == users[j + 1]);
        }
        assert(users[if j < i { j } else { j + 1 }].id is Some);
    }
    assert forall|j: int, k: int|
        0 <= j < after.len() && 0 <= k < after.len() && j != k implies (#[trigger] after[j]).id != (
    #[trigger] after[k]).id by {
        let j0 = if j < i { j } else { j + 1 };
        let k0 = if k < i { k } else { k + 1 };
        assert(after[j] == users[j0]);
        assert(after[k] == users[k0]);
    }
}

/// Removing one post keeps every remaining one persisted and unique.
proof fn lemma_posts_remove_keeps_wf(posts: Seq<Post>, next: u64, i: int)
    requires
        posts_persisted(posts, next),
        post_ids_unique(posts),
        0 <= i < posts.len(),
    ensures
        posts_persisted(posts.remove(i), next),
        post_ids_unique(posts.remove(i)),
{
    let after = posts.remove(i);
    assert forall|j: int|
        0 <= j < after.len() implies (#[trigger] after[j]).id is Some && after[j].id->0 < next by {
        if j < i {
            assert(after[j] == posts[j]);
        } else {
            assert(after[j] == posts[j + 1]);
        }
        assert(posts[if j < i { j } else { j + 1 }].id is Some);
    }
    assert forall|j: int, k: int|
        0 <= j < after.len() && 0 <= k < after.len() && j != k implies (#[trigger] after[j]).id != (
    #[trigger] after[k]).id by {
        let j0 = if j < i { j } else { j + 1 };
        let k0 = if k < i { k } else { k + 1 };
        assert(after[j] == posts[j0]);
        assert(after[k] == posts[k0]);
    }
}

/// Finding by name in a collection extended with a new user: when no
/// stored user carries the name, the lookup finds exactly the new record.
proof fn lemma_find_name_after_push(users: Seq<User>, u: User, name: Seq<char>)
    requires
        user_idx_by_name(users, name) == -1,
        u.name@ == name,
    ensures
        user_idx_by_name(users.push(u), name) == users.len(),
    decreases users.len(),
{
    lemma_user_idx_by_name_props(users, name);
    let s = users.push(u);
    if users.len() == 0 {
        assert(s[0] == u);
    } else {
        assert(s[0] == users[0]);
        assert(s[0].name@ != name);
        let rest = users.drop_first();
        lemma_user_idx_by_name_props(rest, name);
        assert forall|j: int| 0 <= j < rest.len() implies (#[trigger] rest[j]).name@ != name by {
            assert(rest[j] == users[j + 1]);
        }
        assert(user_idx_by_name(rest, name) == -1);
        lemma_find_name_after_push(rest, u, name);
        assert(s.drop_first() =~= rest.push(u));
    }
}

/// Law: a committed registration is visible at once.  When the name was
/// free and the new record's hash verifies against the registered
/// password, looking the name up finds exactly the new record and the
/// stored hash accepts that password: an immediate login succeeds, and an
/// immediate second registration of the same name fails its uniqueness
/// check.
pub proof fn lemma_registered_user_logs_in(
    users: Seq<User>,
    u: User,
    name: Seq<char>,
    password: Seq<char>,
)
    ensures
        (user_idx_by_name(users, name) == -1 && u.name@ == name && hash_valid_for(
            u.password@,
            password,
        )) ==> ({
            &&& spec_find_user_by_name(users.push(u), name) == Some(u@)
            &&& verify_outcome(u.password@, password) == Some(true)
            &&& user_idx_by_name(users.push(u), name) != -1
        }),
{
    if user_idx_by_name(users, name) == -1 && u.name@ == name {
        lemma_find_name_after_push(users, u, name);
    }
}

/// Law: a deletion requested by anyone but the author is rejected as
/// `ForbiddenError`; the store is left unchanged, so a subsequent lookup
/// still finds the post.
pub proof fn lemma_delete_by_non_author(posts: Seq<Post>, requester: u64, post_id: u64)
    ensures
        (spec_find_post_by_id(posts, post_id) matches Some(p) && p.author != requester)
            ==> spec_delete_post(posts, requester, post_id) == Err::<Seq<Post>, AppError>(
            AppError::ForbiddenError,
        ),
{
}

/// Law: a deletion requested by the author succeeds, and a subsequent
/// lookup of the deleted identifier finds nothing.
pub proof fn lemma_delete_by_author(posts: Seq<Post>, requester: u64, post_id: u64)
    ensures
        (post_ids_unique(posts) && (spec_find_post_by_id(posts, post_id) matches Some(p)
            && p.author == requester)) ==> (spec_delete_post(posts, requester, post_id) matches Ok(
        after,
        ) && spec_find_post_by_id(after, post_id) is None),
{
    if post_ids_unique(posts) && (spec_find_post_by_id(posts, post_id) matches Some(p) && p.author
        == requester) {
        lemma_post_idx_by_id_props(posts, post_id);
        let i = post_idx_by_id(posts, post_id);
        let after = posts.remove(i);
        assert forall|j: int| 0 <= j < after.len() implies (#[trigger] after[j]).id != Some(post_id)
        by {
            if j < i {
                assert(after[j] == posts[j]);
            } else {
                assert(after[j] == posts[j + 1]);
            }
        }
        lemma_post_idx_by_id_props(after, post_id);
    }
}

/// Law: sampling an empty store is `NotFoundError`; sampling a non-empty
/// store yields a member of the store, whatever number the draw came to.
pub proof fn lemma_sample_is_member(posts: Seq<Post>, draw: u64)
    ensures
        posts.len() == 0 ==> spec_sample(posts, draw) == Err::<PostV, AppError>(
            AppError::NotFoundError,
        ),
        posts.len() > 0 ==> (spec_sample(posts, draw) matches Ok(p) && (exists|i: int|
            0 <= i < posts.len() && (#[trigger] posts[i])@ == p)),
{
    if posts.len() > 0 {
        let i = draw as int % posts.len() as int;
        assert(0 <= i < posts.len());
        assert(spec_sample(posts, draw) == Ok::<PostV, AppError>(posts[i]@));
    }
}

} // verus!
