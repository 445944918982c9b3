use vstd::prelude::*;

use crate::claims::{Claims, TokenError};
use crate::codec::{decode_claims, jwt_encode_hs256, token_of};

verus! {

/// A user record as the credential store holds it. Timestamps are seconds
/// since the Unix epoch; `last_login` is absent until the first login.
#[derive(Clone)]
pub struct User {
    pub id: i32,
    pub username: String,
    pub email: String,
    pub password_hash: String,
    pub first_name: Option<String>,
    pub last_name: Option<String>,
    pub role_id: i32,
    pub is_active: bool,
    pub last_login: Option<i64>,
    pub created_at: i64,
    pub updated_at: i64,
}

/// The fields needed to insert a fresh user record. `password_hash` holds the
/// salted digest, never the plaintext.
pub struct NewUser {
    pub username: String,
    pub email: String,
    pub password_hash: String,
    pub first_name: Option<String>,
    pub last_name: Option<String>,
    pub role_id: i32,
}

/// A persisted token record. Timestamps are seconds since the Unix epoch.
pub struct UserToken {
    pub id: i32,
    pub user_id: i32,
    pub token: String,
    pub expires_at: i64,
    pub created_at: i64,
}

/// The hashing primitive rejected its configuration; no property of the
/// plaintext causes this.
#[derive(Clone, Copy, Debug, PartialEq, Eq, Structural)]
pub struct HashingError;

/// Whether bcrypt verification of `password` against the stored digest
/// `hash` succeeds. Verification recomputes the digest from the salt embedded
/// in `hash`, so the outcome is a function of the two strings alone; it is
/// false for every malformed `hash`.
pub uninterp spec fn hash_matches(hash: Seq<char>, password: Seq<char>) -> bool;

/// Relies on bcrypt::hash with the default cost: a fresh salted digest
/// verifies against the password it was derived from.
#[verifier::external_body]
fn bcrypt_digest(password: &str) -> (r: Option<String>)
    ensures
        r matches Some(h) ==> hash_matches(h@, password@),
{
    bcrypt::hash(password.as_bytes(), bcrypt::DEFAULT_COST).ok()
}

/// Relies on bcrypt::verify: deterministic in the password and the hash, and
/// an error on a malformed hash is reported as a mismatch, never a failure.
#[verifier::external_body]
fn bcrypt_check(password: &str, hash: &str) -> (r: bool)
    ensures
        r == hash_matches(hash@, password@),
{
    bcrypt::verify(password.as_bytes(), hash).unwrap_or(false)
}

impl User {
    /// Derive a salted, irreversible digest of `password`. Succeeds or fails
    /// on the primitive's own account only — no plaintext content, the empty
    /// string included, is rejected here.
    pub fn hash_password(password: &str) -> (r: Result<String, HashingError>)
        ensures
            r matches Ok(h) ==> hash_matches(h@, password@),
    {
        match bcrypt_digest(password) {
            Some(h) => Ok(h),
            None => Err(HashingError),
        }
    }

    /// Check `password` against this record's stored digest in constant time.
    /// A malformed stored digest yields `false`, never an error.
    pub fn verify_password(&self, password: &str) -> (r: bool)
        ensures
            r == hash_matches(self.password_hash@, password@),
    {
        bcrypt_check(password, self.password_hash.as_str())
    }

    /// Issue a signed token for this user carrying the given role name and
    /// expiry (seconds since the Unix epoch). The caller computes the expiry:
    /// the codec never reads a clock. Issuance always succeeds — the HS256
    /// encoder cannot fail on a secret key — and the result type only keeps
    /// the shape callers expect of a signing operation.
    pub fn generate_token(&self, secret: &str, role_name: &str, expiration: u64) -> (r: Result<
        String,
        TokenError,
    >)
        ensures
            r is Ok,
            r matches Ok(t) ==> t@ == token_of(self.token_claims(role_name@, expiration), secret@),
            r matches Ok(t) ==> decode_claims(t@, secret@) == Some(
                self.token_claims(role_name@, expiration),
            ),
            r matches Ok(t) ==> t@.len() > 0,
            r matches Ok(t) ==> forall|i: int|
                0 <= i < t@.len() ==> !crate::text::is_space(t@[i]),
    {
        let claims = Claims {
            sub: self.id as i64,
            exp: expiration,
            role: role_name.to_owned(),
            aud: None,
        };
        match jwt_encode_hs256(&claims, secret) {
            Some(t) => Ok(t),
            None => Err(TokenError::IssueFailed),
        }
    }

    /// The claims a token issued for this user carries.
    pub open spec fn token_claims(&self, role: Seq<char>, expiration: u64) -> crate::claims::ClaimsView {
        crate::claims::ClaimsView { sub: self.id as int, exp: expiration as int, role, aud: None }
    }

    /// Decode and check a token against `secret` at time `now`.
    pub fn verify_token(token: &str, secret: &str, now: u64) -> (r: Result<Claims, TokenError>)
        ensures
            r matches Ok(c) ==> crate::codec::verify_outcome(token@, secret@, now) == Ok::<
                crate::claims::ClaimsView,
                TokenError,
            >(c@),
            r matches Err(e) ==> crate::codec::verify_outcome(token@, secret@, now) == Err::<
                crate::claims::ClaimsView,
                TokenError,
            >(e),
    {
        crate::codec::verify_token_at(token, secret, now)
    }
}

} // verus!
