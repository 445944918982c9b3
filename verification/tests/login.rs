use student_records::auth::{login, LoginFailure, LoginOutcome, LoginRequest, ValidationIssue};
use student_records::codec::{verify_token_at, TOKEN_TTL_SECS};
use student_records::role::Role;
use student_records::user::User;

fn stored_user(password: &str) -> User {
    User {
        id: 42,
        username: "alice".to_string(),
        email: "a@x.com".to_string(),
        password_hash: User::hash_password(password).expect("hashing failed"),
        first_name: Some("Alice".to_string()),
        last_name: Some("Smith".to_string()),
        role_id: 2,
        is_active: true,
        last_login: None,
        created_at: 1_700_000_000,
        updated_at: 1_700_000_000,
    }
}

fn admin_role() -> Role {
    Role {
        id: 2,
        name: "admin".to_string(),
        description: None,
        created_at: 1_700_000_000,
        updated_at: 1_700_000_000,
    }
}

fn request(email: &str, password: &str) -> LoginRequest {
    LoginRequest { email: email.to_string(), password: password.to_string() }
}

#[test]
fn successful_login_issues_a_day_long_token_with_the_role_name() {
    let now: u64 = 1_700_000_000;
    let req = request("a@x.com", "correct");
    let outcome = login(&req, Some(stored_user("correct")), Some(admin_role()), "s3cret", now);
    match outcome {
        LoginOutcome::Success(session) => {
            assert_eq!(session.role, "admin");
            assert_eq!(session.user.id, 42);
            assert_eq!(session.user.username, "alice");
            assert_eq!(session.user.email, "a@x.com");
            assert_eq!(session.user.role_id, 2);
            assert!(session.user.is_active);
            let claims = verify_token_at(&session.access_token, "s3cret", now)
                .expect("token must verify");
            assert_eq!(claims.sub, 42);
            assert_eq!(claims.exp, now + TOKEN_TTL_SECS);
            assert_eq!(claims.role, "admin");
        }
        LoginOutcome::Failure(f) => panic!("expected success, got {:?}", f),
    }
}

#[test]
fn wrong_password_and_unknown_email_fail_byte_identically() {
    let now: u64 = 1_700_000_000;
    let req = request("a@x.com", "wrong");
    let with_user = login(&req, Some(stored_user("correct")), Some(admin_role()), "s3cret", now);
    let without_user = login(&req, None, None, "s3cret", now);
    let f1 = match with_user {
        LoginOutcome::Failure(f) => f,
        LoginOutcome::Success(_) => panic!("wrong password must not log in"),
    };
    let f2 = match without_user {
        LoginOutcome::Failure(f) => f,
        LoginOutcome::Success(_) => panic!("unknown email must not log in"),
    };
    assert_eq!(f1, LoginFailure::Unauthorized);
    assert_eq!(f1, f2);
    assert_eq!(f1.message(), f2.message());
    assert_eq!(f1.message(), "Invalid email or password");
}

#[test]
fn inactive_account_gets_the_same_uniform_failure() {
    let now: u64 = 1_700_000_000;
    let mut user = stored_user("correct");
    user.is_active = false;
    let req = request("a@x.com", "correct");
    match login(&req, Some(user), Some(admin_role()), "s3cret", now) {
        LoginOutcome::Failure(f) => assert_eq!(f, LoginFailure::Unauthorized),
        LoginOutcome::Success(_) => panic!("inactive account must not log in"),
    }
}

#[test]
fn malformed_email_is_a_validation_failure() {
    let now: u64 = 1_700_000_000;
    let req = request("not-an-email", "whatever");
    match login(&req, None, None, "s3cret", now) {
        LoginOutcome::Failure(f) => {
            assert_eq!(f, LoginFailure::BadRequest(ValidationIssue::InvalidEmail));
            assert_eq!(f.message(), "Validation failed");
        }
        LoginOutcome::Success(_) => panic!("malformed email must not log in"),
    }
}

#[test]
fn empty_password_is_a_validation_failure() {
    let now: u64 = 1_700_000_000;
    let req = request("a@x.com", "");
    match login(&req, Some(stored_user("correct")), Some(admin_role()), "s3cret", now) {
        LoginOutcome::Failure(f) => {
            assert_eq!(f, LoginFailure::BadRequest(ValidationIssue::EmptyPassword))
        }
        LoginOutcome::Success(_) => panic!("empty password must not log in"),
    }
}

#[test]
fn missing_role_record_is_a_server_fault_not_a_credential_failure() {
    let now: u64 = 1_700_000_000;
    let req = request("a@x.com", "correct");
    match login(&req, Some(stored_user("correct")), None, "s3cret", now) {
        LoginOutcome::Failure(f) => {
            assert_eq!(f, LoginFailure::ServerError);
            assert_ne!(f.message(), LoginFailure::Unauthorized.message());
        }
        LoginOutcome::Success(_) => panic!("login cannot succeed without a role record"),
    }
}
