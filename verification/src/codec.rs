use vstd::prelude::*;

use crate::claims::{Claims, ClaimsView, TokenError};

verus! {

/// Seconds in 24 hours: the fixed lifetime policy for freshly issued tokens.
pub const TOKEN_TTL_SECS: u64 = 86400;

/// The compact signed token that the HS256 encoder produces from the given
/// claims and secret. The encoding is deterministic: the claims and the secret
/// are its only inputs.
pub uninterp spec fn token_of(claims: ClaimsView, secret: Seq<char>) -> Seq<char>;

/// What signature verification (restricted to HS256, with the clock-dependent
/// expiry check switched off) recovers from a token under a secret: the claims
/// when the structure is well formed, the header names HS256 and the signature
/// matches the secret; nothing otherwise.
pub uninterp spec fn decode_claims(token: Seq<char>, secret: Seq<char>) -> Option<ClaimsView>;

/// Relies on jsonwebtoken::encode with the default (HS256) header: the token
/// is a function of the claims and the secret alone, and jsonwebtoken's decode
/// accepts that token under the same secret and recovers the same claims.
/// With an HMAC secret key the call cannot fail — the key family matches the
/// header's algorithm, HMAC-SHA256 signing is infallible, and a ready JSON
/// value serializes without error — so the result is always present. The
/// token is three dot-separated base64url segments: never empty, and free of
/// whitespace.
#[verifier::external_body]
pub(crate) fn jwt_encode_hs256(claims: &Claims, secret: &str) -> (r: Option<String>)
    ensures
        r is Some,
        r matches Some(t) ==> t@ == token_of(claims@, secret@),
        r matches Some(t) ==> decode_claims(t@, secret@) == Some(claims@),
        r matches Some(t) ==> t@.len() > 0,
        r matches Some(t) ==> forall|i: int|
            0 <= i < t@.len() ==> !crate::text::is_space(t@[i]),
{
    let mut payload = serde_json::Map::new();
    payload.insert("sub".to_string(), serde_json::Value::from(claims.sub));
    payload.insert("exp".to_string(), serde_json::Value::from(claims.exp));
    payload.insert("role".to_string(), serde_json::Value::from(claims.role.as_str()));
    if let Some(aud) = &claims.aud {
        payload.insert("aud".to_string(), serde_json::Value::from(aud.as_str()));
    }
    jsonwebtoken::encode(
        &jsonwebtoken::Header::default(),
        &serde_json::Value::Object(payload),
        &jsonwebtoken::EncodingKey::from_secret(secret.as_bytes()),
    )
    .ok()
}

/// Relies on jsonwebtoken::decode restricted to HS256, with the
/// clock-dependent expiry check and the audience policy switched off: the
/// outcome is then a deterministic function of the token and the secret alone.
/// Expiry is enforced separately, by verified code.
#[verifier::external_body]
pub(crate) fn jwt_decode_hs256(token: &str, secret: &str) -> (r: Option<Claims>)
    ensures
        r matches Some(c) ==> decode_claims(token@, secret@) == Some(c@),
        r is None ==> decode_claims(token@, secret@) is None,
{
    let mut validation = jsonwebtoken::Validation::new(jsonwebtoken::Algorithm::HS256);
    validation.validate_exp = false;
    validation.validate_aud = false;
    validation.required_spec_claims.clear();
    let key = jsonwebtoken::DecodingKey::from_secret(secret.as_bytes());
    let c = jsonwebtoken::decode::<serde_json::Value>(token, &key, &validation).ok()?.claims;
    let aud = match c.get("aud") {
        None => None,
        Some(a) => Some(a.as_str()?.to_string()),
    };
    let (sub, exp) = (c.get("sub")?.as_i64()?, c.get("exp")?.as_u64()?);
    Some(Claims { sub, exp, role: c.get("role")?.as_str()?.to_string(), aud })
}

/// The complete verification outcome for a token checked against a secret at
/// time `now`: the decoded claims when the signature matches and the expiry
/// lies strictly in the future, and the reason for rejection otherwise.
pub open spec fn verify_outcome(token: Seq<char>, secret: Seq<char>, now: u64) -> Result<
    ClaimsView,
    TokenError,
> {
    match decode_claims(token, secret) {
        Some(c) => if now < c.exp {
            Ok(c)
        } else {
            Err(TokenError::Expired)
        },
        None => Err(TokenError::Invalid),
    }
}

/// Decode `token` against `secret` and accept it only while its expiry lies
/// strictly in the future of `now` (seconds since the Unix epoch).
pub fn verify_token_at(token: &str, secret: &str, now: u64) -> (r: Result<Claims, TokenError>)
    ensures
        r matches Ok(c) ==> verify_outcome(token@, secret@, now) == Ok::<ClaimsView, TokenError>(
            c@,
        ),
        r matches Err(e) ==> verify_outcome(token@, secret@, now) == Err::<ClaimsView, TokenError>(
            e,
        ),
{
    match jwt_decode_hs256(token, secret) {
        Some(c) => {
            if now < c.exp {
                Ok(c)
            } else {
                Err(TokenError::Expired)
            }
        },
        None => Err(TokenError::Invalid),
    }
}

/// Round trip: a token that decodes to claims `c` under secret `s` — which the
/// issuing functions ensure of every token they return — verifies back to
/// exactly `c` at any time strictly before `c.exp`.
pub proof fn lemma_token_round_trip(c: ClaimsView, s: Seq<char>, t: Seq<char>, now: u64)
    requires
        decode_claims(t, s) == Some(c),
        now < c.exp,
    ensures
        verify_outcome(t, s, now) == Ok::<ClaimsView, TokenError>(c),
{
}

/// A token whose expiry has passed is rejected even though its signature is
/// valid: it still decodes under the right secret, yet verification fails.
pub proof fn lemma_expired_token_rejected(c: ClaimsView, s: Seq<char>, t: Seq<char>, now: u64)
    requires
        decode_claims(t, s) == Some(c),
        c.exp <= now,
    ensures
        verify_outcome(t, s, now) == Err::<ClaimsView, TokenError>(TokenError::Expired),
{
}

} // verus!
