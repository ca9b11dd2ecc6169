//! Password hashing and verification with a memory-hard function.
//!
//! Hashing embeds a freshly generated random salt and the cost parameters in
//! the returned string, so verification needs no side-channel storage.  What
//! the outside hash function computes is named by the uninterpreted
//! [`verify_outcome`]; the contracts of every function here speak of that
//! name, and the laws at the bottom relate hashing and verification.

use vstd::prelude::*;
use vstd::string::StringSliceAdditionalSpecFns;

use crate::errors::AppError;

verus! {

/// What `argon2::verify_encoded` yields for an encoded hash and a password:
/// `None` when the encoded hash is malformed, otherwise `Some` of whether the
/// recomputed hash matches.
pub uninterp spec fn verify_outcome(hash: Seq<char>, password: Seq<char>) -> Option<bool>;

/// The UTF-8 byte length of a string value.  The hash function reads
/// bytes, so its input limits are byte limits, not character counts.
pub open spec fn byte_len(s: Seq<char>) -> nat {
    vstd::utf8::encode_utf8(s).len()
}

/// An encoded hash that verification accepts for `password`.
pub open spec fn hash_valid_for(hash: Seq<char>, password: Seq<char>) -> bool {
    verify_outcome(hash, password) == Some(true)
}

/// What [`CredentialManager::verify`] returns: a malformed hash is a
/// `HashError`, anything else is the comparison outcome.
pub open spec fn spec_verify(hash: Seq<char>, password: Seq<char>) -> Result<bool, AppError> {
    match verify_outcome(hash, password) {
        Some(b) => Ok(b),
        None => Err(AppError::HashError),
    }
}

/// Relies on `password_hash::SaltString::generate` over the operating
/// system's randomness: sixteen fresh random bytes in B64 form, a
/// twenty-two character string of ASCII B64 characters.  Nothing can be
/// said of which salt comes back, only its length and shape.
#[verifier::external_body]
fn generate_salt() -> (r: String)
    ensures
        r@.len() == 22,
        vstd::utf8::is_ascii_chars(r@),
{
    password_hash::SaltString::generate(password_hash::rand_core::OsRng).as_str().to_owned()
}

/// Relies on `argon2::hash_encoded` (crate `rust-argon2`): the encoded hash
/// embeds the salt and the cost parameters, and `argon2::verify_encoded`
/// decodes them and recomputes, so a hash this call produces verifies
/// against the password it was made from.  `None` is a rejected
/// configuration: the call validates only the bounds below (the memory
/// cap is the stricter, 32-bit one) before hashing, and the secret and
/// associated data are fixed empty here, so within the bounds it returns
/// the encoded hash.
#[verifier::external_body]
fn argon2_hash(
    password: &str,
    salt: &str,
    mem_cost: u32,
    time_cost: u32,
    lanes: u32,
    hash_length: u32,
) -> (r: Option<String>)
    ensures
        r matches Some(h) ==> verify_outcome(h@, password@) == Some(true),
        ({
            &&& 8 <= salt.spec_bytes().len() <= 0xFFFF_FFFF
            &&& byte_len(password@) <= 0xFFFF_FFFF
            &&& 1 <= lanes <= 0x00FF_FFFF
            &&& mem_cost >= 8
            &&& mem_cost >= 8 * lanes
            &&& mem_cost <= 0x0020_0000
            &&& time_cost >= 1
            &&& hash_length >= 4
        }) ==> r is Some,
{
    let config = argon2::Config {
        ad: &[],
        hash_length,
        lanes,
        mem_cost,
        secret: &[],
        time_cost,
        variant: argon2::Variant::Argon2id,
        version: argon2::Version::Version13,
    };
    argon2::hash_encoded(password.as_bytes(), salt.as_bytes(), &config).ok()
}

/// Relies on `argon2::verify_encoded` (crate `rust-argon2`): decodes the
/// salt and parameters embedded in the encoded hash and recomputes; its
/// result depends on the two strings alone, which is what the name
/// [`verify_outcome`] stands for.
#[verifier::external_body]
fn argon2_verify(hash: &str, password: &str) -> (r: Option<bool>)
    ensures
        r == verify_outcome(hash@, password@),
{
    argon2::verify_encoded(hash, password.as_bytes()).ok()
}

/// The reference memory cost, in KiB units.
pub const REFERENCE_MEM_COST: u32 = 65536;

/// The reference number of iterations.
pub const REFERENCE_TIME_COST: u32 = 10;

/// The reference number of parallel lanes.
pub const REFERENCE_LANES: u32 = 4;

/// The reference output length in bytes.
pub const REFERENCE_HASH_LENGTH: u32 = 32;

/// Hashes and verifies passwords with a memory-hard, time-costly function.
///
/// The cost parameters are explicit configuration: they are fixed when the
/// manager is built and passed along with every hash.  The reference values
/// deliberately cost tens to hundreds of milliseconds per call.
#[derive(Clone, Copy, Debug, PartialEq, Eq, Structural)]
pub struct CredentialManager {
    /// Memory cost in KiB units.
    pub mem_cost: u32,
    /// Number of iterations.
    pub time_cost: u32,
    /// Number of parallel lanes.
    pub lanes: u32,
    /// Output length in bytes.
    pub hash_length: u32,
}

impl CredentialManager {
    /// The parameter ranges within which the hash function accepts its
    /// configuration and hashing is owed to succeed.  The memory cap is
    /// the stricter, 32-bit one; the reference parameters sit well
    /// inside every bound.
    pub open spec fn wf_params(self) -> bool {
        &&& 1 <= self.lanes <= 0x00FF_FFFF
        &&& self.mem_cost >= 8
        &&& self.mem_cost >= 8 * self.lanes
        &&& self.mem_cost <= 0x0020_0000
        &&& self.time_cost >= 1
        &&& self.hash_length >= 4
    }

    /// A manager with the reference cost parameters.
    pub fn new() -> (r: Self)
        ensures
            r.mem_cost == REFERENCE_MEM_COST,
            r.time_cost == REFERENCE_TIME_COST,
            r.lanes == REFERENCE_LANES,
            r.hash_length == REFERENCE_HASH_LENGTH,
    {
        CredentialManager {
            mem_cost: REFERENCE_MEM_COST,
            time_cost: REFERENCE_TIME_COST,
            lanes: REFERENCE_LANES,
            hash_length: REFERENCE_HASH_LENGTH,
        }
    }

    /// A manager with chosen cost parameters, for callers that trade
    /// hardness for speed.
    pub fn with_params(mem_cost: u32, time_cost: u32, lanes: u32, hash_length: u32) -> (r: Self)
        ensures
            r == (CredentialManager { mem_cost, time_cost, lanes, hash_length }),
    {
        CredentialManager { mem_cost, time_cost, lanes, hash_length }
    }

    /// Computes the encoded hash of `password` with a freshly generated
    /// random salt.  A returned hash always verifies against `password`,
    /// and within the accepted parameter ranges and input size the call
    /// is owed to succeed; it fails only when the hash function rejects
    /// the configuration.
    pub fn hash(&self, password: &str) -> (r: Result<String, AppError>)
        ensures
            r matches Ok(h) ==> hash_valid_for(h@, password@),
            r matches Err(e) ==> e == AppError::HashError,
            (self.wf_params() && byte_len(password@) <= 0xFFFF_FFFF) ==> r is Ok,
    {
        let salt = generate_salt();
        let salt_str = salt.as_str();
        proof {
            vstd::string::is_ascii_spec_bytes(salt_str);
            assert(salt_str.spec_bytes().len() == 22);
        }
        match argon2_hash(
            password,
            salt_str,
            self.mem_cost,
            self.time_cost,
            self.lanes,
            self.hash_length,
        ) {
            Some(h) => Ok(h),
            None => Err(AppError::HashError),
        }
    }

    /// Recomputes with the salt and parameters embedded in `hash` and
    /// compares: `Ok(true)` exactly when `password` is the hashed password,
    /// `HashError` exactly when `hash` is malformed.
    pub fn verify(&self, hash: &str, password: &str) -> (r: Result<bool, AppError>)
        ensures
            r == spec_verify(hash@, password@),
    {
        match argon2_verify(hash, password) {
            Some(b) => Ok(b),
            None => Err(AppError::HashError),
        }
    }
}

/// Law: a hash produced for a password verifies against that password.
pub proof fn lemma_hash_verifies(hash: Seq<char>, password: Seq<char>)
    ensures
        hash_valid_for(hash, password) ==> spec_verify(hash, password) == Ok::<bool, AppError>(true),
{
}

/// Law: two hashes produced for the same password, though the fresh salts
/// make them distinct strings, both verify against that password.
pub proof fn lemma_two_hashes_both_verify(h1: Seq<char>, h2: Seq<char>, password: Seq<char>)
    ensures
        hash_valid_for(h1, password) && hash_valid_for(h2, password) ==> spec_verify(
            h1,
            password,
        ) == Ok::<bool, AppError>(true) && spec_verify(h2, password) == Ok::<bool, AppError>(true),
{
}

} // verus!
