use vstd::prelude::*;

use crate::claims::{Claims, ClaimsView, TokenError};
use crate::codec::{decode_claims, verify_outcome};
use crate::text::{is_space, lemma_trimmed_identity, str_eq, trim_str, trimmed};

verus! {

/// The request-authorization guard for protected routes, holding the signing
/// secret it was constructed with. An absent secret is a valid — failing —
/// state: every request is then rejected as a configuration fault.
pub struct JwtAuth {
    pub secret: Option<String>,
}

/// The `Authorization` header as the HTTP layer found it: absent, present but
/// not decodable as text, or its text.
pub enum AuthHeader {
    Missing,
    NotText,
    Text(String),
}

/// Why a request was turned away. Header-shape reasons are safe to disclose;
/// every token-verification failure collapses into `InvalidToken`.
#[derive(Clone, Copy, Debug, PartialEq, Eq, Structural)]
pub enum RejectReason {
    NoHeader,
    BadEncoding,
    BadScheme,
    EmptyToken,
    InvalidToken,
    MissingSecret,
}

/// The per-request decision: either the verified claims, to be attached to
/// the request's context, or a rejection.
pub enum AuthDecision {
    Authorized(Claims),
    Rejected(RejectReason),
}

/// The header text begins with the literal scheme prefix, case-sensitively.
pub open spec fn scheme_ok(h: Seq<char>) -> bool {
    h.len() >= 7 && h.subrange(0, 7) == "Bearer "@
}

/// The token carried by a header text with a valid scheme: what follows the
/// prefix, with surrounding whitespace stripped.
pub open spec fn bearer_token(h: Seq<char>) -> Seq<char> {
    trimmed(h.subrange(7, h.len() as int))
}

/// The rejection a request is owed, or `None` when its claims must be
/// attached: a missing secret dominates everything, then the header's shape
/// is checked, then the token is verified.
pub open spec fn authorize_reject(auth: JwtAuth, header: AuthHeader, now: u64) -> Option<
    RejectReason,
> {
    if auth.secret is None {
        Some(RejectReason::MissingSecret)
    } else {
        match header {
            AuthHeader::Missing => Some(RejectReason::NoHeader),
            AuthHeader::NotText => Some(RejectReason::BadEncoding),
            AuthHeader::Text(h) => if !scheme_ok(h@) {
                Some(RejectReason::BadScheme)
            } else if bearer_token(h@).len() == 0 {
                Some(RejectReason::EmptyToken)
            } else {
                match verify_outcome(bearer_token(h@), auth.secret->0@, now) {
                    Ok(_) => None,
                    Err(_) => Some(RejectReason::InvalidToken),
                }
            },
        }
    }
}

impl JwtAuth {
    /// Build the guard around the signing secret the process was configured
    /// with, or around its absence.
    pub fn new(secret: Option<String>) -> (r: JwtAuth)
        ensures
            r.secret == secret,
    {
        JwtAuth { secret }
    }

    /// Decide one request from its `Authorization` header at time `now`
    /// (seconds since the Unix epoch). The claims of an authorized request
    /// are exactly what token verification recovered.
    pub fn authorize(&self, header: &AuthHeader, now: u64) -> (r: AuthDecision)
        ensures
            r matches AuthDecision::Rejected(why) ==> authorize_reject(*self, *header, now)
                == Some(why),
            r matches AuthDecision::Authorized(c) ==> authorize_reject(*self, *header, now)
                is None,
            r matches AuthDecision::Authorized(c) ==> (self.secret matches Some(s) && *header
                matches AuthHeader::Text(h) && verify_outcome(bearer_token(h@), s@, now) == Ok::<
                ClaimsView,
                TokenError,
            >(c@)),
    {
        let secret = match &self.secret {
            Some(s) => s,
            None => { return AuthDecision::Rejected(RejectReason::MissingSecret) },
        };
        let h = match header {
            AuthHeader::Missing => {
                return AuthDecision::Rejected(RejectReason::NoHeader);
            },
            AuthHeader::NotText => {
                return AuthDecision::Rejected(RejectReason::BadEncoding);
            },
            AuthHeader::Text(h) => h,
        };
        let n = h.as_str().unicode_len();
        if n < 7 {
            return AuthDecision::Rejected(RejectReason::BadScheme);
        }
        let prefix = h.as_str().substring_char(0, 7);
        if !str_eq(prefix, "Bearer ") {
            return AuthDecision::Rejected(RejectReason::BadScheme);
        }
        let rest = h.as_str().substring_char(7, n);
        let token = trim_str(rest);
        proof {
            assert(token@ == bearer_token(h@));
        }
        if token.as_str().is_empty() {
            return AuthDecision::Rejected(RejectReason::EmptyToken);
        }
        match crate::codec::verify_token_at(token.as_str(), secret.as_str(), now) {
            Ok(c) => AuthDecision::Authorized(c),
            Err(_) => AuthDecision::Rejected(RejectReason::InvalidToken),
        }
    }
}

/// The guard composed with issuance: for a header that carries exactly the
/// scheme prefix and a token that decodes to claims `c` under the configured
/// secret — what issuance ensures of every token it returns, together with
/// the token's shape (non-empty, free of whitespace) — the request is
/// authorized precisely while `c.exp` lies strictly in the future, and once
/// the expiry has passed it is turned away as the one generic token failure.
pub proof fn lemma_bearer_of_issued_token(
    auth: JwtAuth,
    h: String,
    t: Seq<char>,
    c: ClaimsView,
    now: u64,
)
    requires
        auth.secret matches Some(s) && decode_claims(t, s@) == Some(c),
        h@ == "Bearer "@ + t,
        t.len() > 0,
        forall|i: int| 0 <= i < t.len() ==> !is_space(t[i]),
    ensures
        now < c.exp ==> authorize_reject(auth, AuthHeader::Text(h), now) is None,
        c.exp <= now ==> authorize_reject(auth, AuthHeader::Text(h), now) == Some(
            RejectReason::InvalidToken,
        ),
{
    reveal_strlit("Bearer ");
    assert(h@.len() == 7 + t.len());
    assert(h@.subrange(0, 7) =~= "Bearer "@);
    assert(h@.subrange(7, h@.len() as int) =~= t);
    lemma_trimmed_identity(t);
    assert(bearer_token(h@) == t);
}

/// With no configured secret every request is rejected as a configuration
/// fault, whatever its header holds — a valid token included.
pub proof fn lemma_missing_secret_rejects_all(auth: JwtAuth, header: AuthHeader, now: u64)
    requires
        auth.secret is None,
    ensures
        authorize_reject(auth, header, now) == Some(RejectReason::MissingSecret),
{
}

impl RejectReason {
    /// The response body text for this rejection.
    pub open spec fn message_spec(&self) -> Seq<char> {
        match self {
            RejectReason::NoHeader => "No authorization header found"@,
            RejectReason::BadEncoding => "Invalid authorization header"@,
            RejectReason::BadScheme => "Invalid authorization scheme"@,
            RejectReason::EmptyToken => "Empty token"@,
            RejectReason::InvalidToken => "Invalid token"@,
            RejectReason::MissingSecret => "Server configuration error"@,
        }
    }

    /// The response body text for this rejection.
    pub fn message(&self) -> (r: String)
        ensures
            r@ == self.message_spec(),
    {
        match self {
            RejectReason::NoHeader => "No authorization header found".to_owned(),
            RejectReason::BadEncoding => "Invalid authorization header".to_owned(),
            RejectReason::BadScheme => "Invalid authorization scheme".to_owned(),
            RejectReason::EmptyToken => "Empty token".to_owned(),
            RejectReason::InvalidToken => "Invalid token".to_owned(),
            RejectReason::MissingSecret => "Server configuration error".to_owned(),
        }
    }
}

} // verus!
