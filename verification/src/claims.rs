use vstd::prelude::*;

verus! {

/// The payload carried inside a signed token: the authenticated subject (the
/// user identifier from the credential store, canonically an integer), the
/// moment the token stops being valid (seconds since the Unix epoch), the name
/// of the subject's role, and an optional audience.
pub struct Claims {
    pub sub: i64,
    pub exp: u64,
    pub role: String,
    pub aud: Option<String>,
}

/// The mathematical content of a `Claims` value.
pub ghost struct ClaimsView {
    pub sub: int,
    pub exp: int,
    pub role: Seq<char>,
    pub aud: Option<Seq<char>>,
}

impl View for Claims {
    type V = ClaimsView;

    open spec fn view(&self) -> ClaimsView {
        ClaimsView {
            sub: self.sub as int,
            exp: self.exp as int,
            role: self.role@,
            aud: match self.aud {
                Some(a) => Some(a@),
                None => None,
            },
        }
    }
}

/// Why a token could not be issued or accepted. Verification failures other
/// than expiry (bad signature, malformed structure, wrong algorithm, missing
/// claims) are deliberately collapsed into `Invalid`: the distinction is never
/// disclosed to a client.
#[derive(Clone, Copy, Debug, PartialEq, Eq, Structural)]
pub enum TokenError {
    Invalid,
    Expired,
    IssueFailed,
}

} // verus!
