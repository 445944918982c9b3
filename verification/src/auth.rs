use vstd::prelude::*;

use crate::codec::{decode_claims, token_of, TOKEN_TTL_SECS};
use crate::email::{is_valid_email, valid_email};
use crate::role::Role;
use crate::user::{hash_matches, NewUser, User};

verus! {

/// A login attempt as the HTTP layer hands it over.
pub struct LoginRequest {
    pub email: String,
    pub password: String,
}

/// A registration request as the HTTP layer hands it over.
pub struct RegisterRequest {
    pub username: String,
    pub email: String,
    pub password: String,
    pub first_name: Option<String>,
    pub last_name: Option<String>,
    pub role_id: i32,
}

/// The user summary returned to a client. It deliberately has no field for
/// the password hash: the hash cannot appear in a response.
pub struct UserResponse {
    pub id: i32,
    pub username: String,
    pub email: String,
    pub first_name: Option<String>,
    pub last_name: Option<String>,
    pub role_id: i32,
    pub is_active: bool,
}

/// An authenticated session: the user summary, the signed access token, and
/// the user's role name.
pub struct AuthResponse {
    pub user: UserResponse,
    pub access_token: String,
    pub role: String,
}

/// Which input check a request failed. Safe to disclose to the caller.
#[derive(Clone, Copy, Debug, PartialEq, Eq, Structural)]
pub enum ValidationIssue {
    InvalidEmail,
    EmptyPassword,
    UsernameLength,
    PasswordLength,
}

/// How a login attempt failed. All credential failures collapse into the one
/// `Unauthorized` value: nothing in the outcome says which check failed.
#[derive(Clone, Copy, Debug, PartialEq, Eq, Structural)]
pub enum LoginFailure {
    BadRequest(ValidationIssue),
    Unauthorized,
    ServerError,
}

/// The result of a login attempt.
pub enum LoginOutcome {
    Success(AuthResponse),
    Failure(LoginFailure),
}

/// How a registration attempt failed.
#[derive(Clone, Copy, Debug, PartialEq, Eq, Structural)]
pub enum RegisterFailure {
    BadRequest(ValidationIssue),
    Conflict,
    ServerError,
}

/// The summary of `u` that responses carry.
pub open spec fn user_response_of(u: User) -> UserResponse {
    UserResponse {
        id: u.id,
        username: u.username,
        email: u.email,
        first_name: u.first_name,
        last_name: u.last_name,
        role_id: u.role_id,
        is_active: u.is_active,
    }
}

impl From<User> for UserResponse {
    fn from(user: User) -> Self {
        UserResponse {
            id: user.id,
            username: user.username,
            email: user.email,
            first_name: user.first_name,
            last_name: user.last_name,
            role_id: user.role_id,
            is_active: user.is_active,
        }
    }
}

impl vstd::std_specs::convert::FromSpecImpl<User> for UserResponse {
    open spec fn obeys_from_spec() -> bool {
        true
    }

    open spec fn from_spec(u: User) -> UserResponse {
        user_response_of(u)
    }
}

/// A login request is well formed when the email is syntactically valid and
/// the password is non-empty. Deeper password policy belongs to registration.
pub open spec fn valid_login_request(req: LoginRequest) -> bool {
    valid_email(req.email@) && req.password@.len() > 0
}

/// Whether the presented password authenticates against the looked-up record:
/// the account must exist, be active, and hold a matching digest. An absent
/// record never authenticates.
pub open spec fn credentials_accepted(user: Option<User>, password: Seq<char>) -> bool {
    match user {
        Some(u) => u.is_active && hash_matches(u.password_hash@, password),
        None => false,
    }
}

/// Which input check a login request fails first, if any: the email's
/// syntax, then the password's presence.
pub open spec fn login_request_issue(req: LoginRequest) -> Option<ValidationIssue> {
    if !valid_email(req.email@) {
        Some(ValidationIssue::InvalidEmail)
    } else if req.password@.len() == 0 {
        Some(ValidationIssue::EmptyPassword)
    } else {
        None
    }
}

/// The failure a login attempt is owed, or `None` when a session is owed:
/// input checks first, then the uniform credential check, then the role
/// lookup, whose absence is a collaborator fault, never a credential failure.
pub open spec fn login_denial(req: LoginRequest, user: Option<User>, role: Option<Role>) -> Option<
    LoginFailure,
> {
    match login_request_issue(req) {
        Some(v) => Some(LoginFailure::BadRequest(v)),
        None => if !credentials_accepted(user, req.password@) {
            Some(LoginFailure::Unauthorized)
        } else if role is None {
            Some(LoginFailure::ServerError)
        } else {
            None
        },
    }
}

/// Check a login request's inputs alone: the check the flow performs first,
/// for callers that must turn a malformed request away before consulting the
/// credential store.
pub fn check_login_request(req: &LoginRequest) -> (r: Option<ValidationIssue>)
    ensures
        r == login_request_issue(*req),
{
    if !is_valid_email(req.email.as_str()) {
        Some(ValidationIssue::InvalidEmail)
    } else if req.password.as_str().is_empty() {
        Some(ValidationIssue::EmptyPassword)
    } else {
        None
    }
}

/// Check a registration request's inputs alone, in the same order the flow
/// checks them.
pub fn check_register_request(req: &RegisterRequest) -> (r: Option<ValidationIssue>)
    ensures
        r == register_issue(*req),
{
    let username_len = req.username.as_str().unicode_len();
    if username_len < 3 || username_len > 100 {
        Some(ValidationIssue::UsernameLength)
    } else if !is_valid_email(req.email.as_str()) {
        Some(ValidationIssue::InvalidEmail)
    } else if req.password.as_str().unicode_len() < 8 {
        Some(ValidationIssue::PasswordLength)
    } else {
        None
    }
}

/// Decide a login attempt. `user` is the credential store's answer for the
/// request's email (active accounts only), `role` the store's answer for that
/// user's role identifier, `secret` the signing secret, and `now` the current
/// time in seconds since the Unix epoch. On success the caller owes the store
/// one best-effort last-login write; nothing here performs it.
pub fn login(
    req: &LoginRequest,
    user: Option<User>,
    role: Option<Role>,
    secret: &str,
    now: u64,
) -> (r: LoginOutcome)
    requires
        now <= u64::MAX - TOKEN_TTL_SECS,
    ensures
        login_denial(*req, user, role) matches Some(f) ==> r matches LoginOutcome::Failure(g)
            && g == f,
        login_denial(*req, user, role) is None ==> (user matches Some(u) && role matches Some(ro)
            && r matches LoginOutcome::Success(a) && ({
            &&& a.access_token@ == token_of(
                u.token_claims(ro.name@, (now + TOKEN_TTL_SECS) as u64),
                secret@,
            )
            &&& decode_claims(a.access_token@, secret@) == Some(
                u.token_claims(ro.name@, (now + TOKEN_TTL_SECS) as u64),
            )
            &&& a.user == user_response_of(u)
            &&& a.role@ == ro.name@
        })),
{
    if !is_valid_email(req.email.as_str()) {
        return LoginOutcome::Failure(LoginFailure::BadRequest(ValidationIssue::InvalidEmail));
    }
    if req.password.as_str().is_empty() {
        return LoginOutcome::Failure(LoginFailure::BadRequest(ValidationIssue::EmptyPassword));
    }
    let user = match user {
        Some(u) => u,
        None => { return LoginOutcome::Failure(LoginFailure::Unauthorized) },
    };
    if !user.is_active {
        return LoginOutcome::Failure(LoginFailure::Unauthorized);
    }
    if !user.verify_password(req.password.as_str()) {
        return LoginOutcome::Failure(LoginFailure::Unauthorized);
    }
    let role = match role {
        Some(ro) => ro,
        None => { return LoginOutcome::Failure(LoginFailure::ServerError) },
    };
    let expiration = now + TOKEN_TTL_SECS;
    match user.generate_token(secret, role.name.as_str(), expiration) {
        Ok(token) => LoginOutcome::Success(
            AuthResponse { user: UserResponse::from(user), access_token: token, role: role.name },
        ),
        Err(_) => LoginOutcome::Failure(LoginFailure::ServerError),
    }
}

/// Credential failures are uniform: a login against an unknown email and one
/// against a known account whose credentials do not hold (wrong password or
/// inactive account) are owed the very same failure value — nothing in the
/// outcome distinguishes the cases.
pub proof fn lemma_uniform_login_failure(
    req: LoginRequest,
    u: User,
    role: Option<Role>,
    other_role: Option<Role>,
)
    requires
        valid_login_request(req),
        !credentials_accepted(Some(u), req.password@),
    ensures
        login_denial(req, Some(u), role) == login_denial(req, None, other_role),
        login_denial(req, Some(u), role) == Some(LoginFailure::Unauthorized),
{
}

/// Which input check a registration request fails first, if any: the
/// username's length, then the email's syntax, then the password's length.
pub open spec fn register_issue(req: RegisterRequest) -> Option<ValidationIssue> {
    if !(3 <= req.username@.len() && req.username@.len() <= 100) {
        Some(ValidationIssue::UsernameLength)
    } else if !valid_email(req.email@) {
        Some(ValidationIssue::InvalidEmail)
    } else if req.password@.len() < 8 {
        Some(ValidationIssue::PasswordLength)
    } else {
        None
    }
}

/// The failure a registration attempt is owed, or `None` when a fresh record
/// is owed.
pub open spec fn register_denial(req: RegisterRequest, user_exists: bool) -> Option<
    RegisterFailure,
> {
    match register_issue(req) {
        Some(v) => Some(RegisterFailure::BadRequest(v)),
        None => if user_exists {
            Some(RegisterFailure::Conflict)
        } else {
            None
        },
    }
}

/// Decide a registration attempt. `user_exists` is the credential store's
/// answer to whether the email or username is already taken. On success the
/// returned record carries a salted digest of the password, never the
/// plaintext.
pub fn register(req: RegisterRequest, user_exists: bool) -> (r: Result<NewUser, RegisterFailure>)
    ensures
        register_denial(req, user_exists) matches Some(f) ==> r matches Err(g) && g == f,
        register_denial(req, user_exists) is None ==> (match r {
            Ok(nu) => {
                &&& nu.username == req.username
                &&& nu.email == req.email
                &&& hash_matches(nu.password_hash@, req.password@)
                &&& nu.first_name == req.first_name
                &&& nu.last_name == req.last_name
                &&& nu.role_id == req.role_id
            },
            Err(f) => f == RegisterFailure::ServerError,
        }),
{
    let username_len = req.username.as_str().unicode_len();
    if username_len < 3 || username_len > 100 {
        return Err(RegisterFailure::BadRequest(ValidationIssue::UsernameLength));
    }
    if !is_valid_email(req.email.as_str()) {
        return Err(RegisterFailure::BadRequest(ValidationIssue::InvalidEmail));
    }
    if req.password.as_str().unicode_len() < 8 {
        return Err(RegisterFailure::BadRequest(ValidationIssue::PasswordLength));
    }
    if user_exists {
        return Err(RegisterFailure::Conflict);
    }
    match User::hash_password(req.password.as_str()) {
        Ok(h) => Ok(
            NewUser {
                username: req.username,
                email: req.email,
                password_hash: h,
                first_name: req.first_name,
                last_name: req.last_name,
                role_id: req.role_id,
            },
        ),
        Err(_) => Err(RegisterFailure::ServerError),
    }
}

impl LoginFailure {
    /// The response body text for this failure. Every credential failure
    /// shares the one `Unauthorized` text.
    pub open spec fn message_spec(&self) -> Seq<char> {
        match self {
            LoginFailure::BadRequest(_) => "Validation failed"@,
            LoginFailure::Unauthorized => "Invalid email or password"@,
            LoginFailure::ServerError => "Authentication failed"@,
        }
    }

    /// The response body text for this failure.
    pub fn message(&self) -> (r: String)
        ensures
            r@ == self.message_spec(),
    {
        match self {
            LoginFailure::BadRequest(_) => "Validation failed".to_owned(),
            LoginFailure::Unauthorized => "Invalid email or password".to_owned(),
            LoginFailure::ServerError => "Authentication failed".to_owned(),
        }
    }
}

} // verus!
