//! Signed, self-contained session tokens, and the request guard that
//! checks them.
//!
//! A token asserts a subject and an expiry, signed with a symmetric key
//! that is explicit configuration: it is fixed when the service is built
//! and never rotated.  What signing and checking compute is named by the
//! uninterpreted [`jwt_claims_of`], and every contract here speaks of that
//! name.

use vstd::prelude::*;

use crate::errors::AppError;

verus! {

/// What decoding a token against a key yields: `None` when the structure
/// is malformed or the signature does not match the key, otherwise the
/// subject and expiry carried in the payload.  The outcome is a function
/// of the token and the key alone; the clock plays no part in it.
pub uninterp spec fn jwt_claims_of(token: Seq<char>, key: Seq<u8>) -> Option<(Seq<char>, usize)>;

/// The payload of a session token: a subject and an absolute expiry in
/// seconds.  It is never persisted; it exists only for the lifetime of
/// one signed token string.
#[derive(Debug)]
pub struct Claims {
    pub exp: usize,
    pub sub: String,
}

/// The mathematical value of a [`Claims`].
pub struct ClaimsV {
    pub exp: usize,
    pub sub: Seq<char>,
}

impl View for Claims {
    type V = ClaimsV;

    open spec fn view(&self) -> ClaimsV {
        ClaimsV { exp: self.exp, sub: self.sub@ }
    }
}

impl Clone for Claims {
    fn clone(&self) -> (r: Self)
        ensures
            r == *self,
    {
        Claims { exp: self.exp, sub: self.sub.clone() }
    }
}

/// The expiry stamped into every issued token.  The observed policy fixes
/// it at an already-elapsed instant, so a freshly issued token fails
/// validation at every clock reading; a real session lifetime is still an
/// open decision, so nothing here silently corrects it.
pub const ISSUED_EXPIRY: usize = 0;

/// Relies on `jsonwebtoken::encode` with the default HS256 header: the
/// returned token is the signed encoding of exactly the subject and
/// expiry handed in, so decoding it with the same key yields them back.
/// The call has no failing path: the key built from a raw secret matches
/// the HS256 family, the string-keyed JSON payload always serializes,
/// and HMAC signing returns its digest unconditionally.
#[verifier::external_body]
fn sign_token(sub: &str, exp: usize, key: &[u8]) -> (r: Option<String>)
    ensures
        r is Some,
        r matches Some(t) ==> jwt_claims_of(t@, key@) == Some((sub@, exp)),
{
    let mut claims = serde_json::Map::new();
    claims.insert("sub".to_string(), serde_json::Value::from(sub));
    claims.insert("exp".to_string(), serde_json::Value::from(exp as u64));
    let encoding_key = jsonwebtoken::EncodingKey::from_secret(key);
    jsonwebtoken::encode(
        &jsonwebtoken::Header::default(),
        &serde_json::Value::Object(claims),
        &encoding_key,
    ).ok()
}

/// Relies on `jsonwebtoken::decode`: checks the HS256 signature against
/// the key and the shape of the payload, and hands the subject and expiry
/// back; the expiry is not judged here, so the outcome depends on the
/// token and the key alone, which is what [`jwt_claims_of`] stands for.
#[verifier::external_body]
fn decode_token(token: &str, key: &[u8]) -> (r: Option<Claims>)
    ensures
        match r {
            Some(c) => jwt_claims_of(token@, key@) == Some((c.sub@, c.exp)),
            None => jwt_claims_of(token@, key@) is None,
        },
{
    let mut validation = jsonwebtoken::Validation::default();
    validation.validate_exp = false;
    let decoding_key = jsonwebtoken::DecodingKey::from_secret(key);
    let data = jsonwebtoken::decode::<serde_json::Value>(token, &decoding_key, &validation).ok()?;
    let sub = data.claims.get("sub")?.as_str()?.to_string();
    let exp = data.claims.get("exp")?.as_u64()?;
    Some(Claims { exp: exp as usize, sub })
}

/// What validation returns for a token, a key and a clock reading.  It
/// fails closed: a bad signature, a malformed structure and an elapsed
/// expiry all collapse to the same `AuthError`.
pub open spec fn spec_validate(token: Seq<char>, key: Seq<u8>, now: usize) -> Result<
    (Seq<char>, usize),
    AppError,
> {
    match jwt_claims_of(token, key) {
        Some(p) => if p.1 > now {
            Ok(p)
        } else {
            Err(AppError::AuthError)
        },
        None => Err(AppError::AuthError),
    }
}

/// Issues and validates signed session tokens with one symmetric key.
pub struct SessionTokenService {
    key: Vec<u8>,
}

impl View for SessionTokenService {
    type V = Seq<u8>;

    closed spec fn view(&self) -> Seq<u8> {
        self.key@
    }
}

impl SessionTokenService {
    /// A service around the given signing key, configuration fixed for
    /// the life of the value.
    pub fn new(key: Vec<u8>) -> (r: Self)
        ensures
            r@ == key@,
    {
        SessionTokenService { key }
    }

    /// Build claims for `subject` and produce a signed, URL-safe token
    /// string.  Issuing always succeeds, and the token decodes, under
    /// this service's key, to exactly `subject` and the fixed
    /// [`ISSUED_EXPIRY`].
    pub fn issue(&self, subject: &str) -> (r: Result<String, AppError>)
        ensures
            r is Ok,
            r matches Ok(t) ==> jwt_claims_of(t@, self@) == Some((subject@, ISSUED_EXPIRY)),
    {
        match sign_token(subject, ISSUED_EXPIRY, self.key.as_slice()) {
            Some(t) => Ok(t),
            None => Err(AppError::AuthError),
        }
    }

    /// Validate a token, judging its expiry against `now`, the caller's
    /// reading of the current time in seconds.  Exactly the outcomes of
    /// [`spec_validate`] come back.
    pub fn validate(&self, token: &str, now: usize) -> (r: Result<Claims, AppError>)
        ensures
            match r {
                Ok(c) => spec_validate(token@, self@, now) == Ok::<(Seq<char>, usize), AppError>(
                    (c.sub@, c.exp),
                ),
                Err(e) => spec_validate(token@, self@, now) == Err::<(Seq<char>, usize), AppError>(
                    e,
                ),
            },
    {
        match decode_token(token, self.key.as_slice()) {
            Some(c) => if c.exp > now {
                Ok(c)
            } else {
                Err(AppError::AuthError)
            },
            None => Err(AppError::AuthError),
        }
    }
}

/// The request authentication guard: the transport hands over the value
/// of the inbound session cookie, if any, and the guard either exposes
/// the claims or rejects.  The rejection never reveals which of a
/// missing credential, a forged or malformed token, or an elapsed expiry
/// caused it.
pub fn authenticate_request(service: &SessionTokenService, cookie: Option<&str>, now: usize) -> (r:
    Result<Claims, AppError>)
    ensures
        match r {
            Ok(c) => cookie matches Some(t) && spec_validate(t@, service@, now) == Ok::<
                (Seq<char>, usize),
                AppError,
            >((c.sub@, c.exp)),
            Err(e) => e == AppError::AuthError && (match cookie {
                Some(t) => spec_validate(t@, service@, now) is Err,
                None => true,
            }),
        },
{
    match cookie {
        Some(token) => match service.validate(token, now) {
            Ok(c) => Ok(c),
            Err(_) => Err(AppError::AuthError),
        },
        None => Err(AppError::AuthError),
    }
}

/// Law: a freshly issued token never validates.  The expiry policy stamps
/// an already-elapsed instant into every token, so validation fails at
/// every clock reading.  This states observed behavior pending an
/// explicit session-lifetime decision; it is not the desired design.
pub proof fn lemma_issued_token_always_expired(
    token: Seq<char>,
    key: Seq<u8>,
    subject: Seq<char>,
    now: usize,
)
    ensures
        jwt_claims_of(token, key) == Some((subject, ISSUED_EXPIRY)) ==> spec_validate(
            token,
            key,
            now,
        ) == Err::<(Seq<char>, usize), AppError>(AppError::AuthError),
{
}

} // verus!
