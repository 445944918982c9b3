use student_records::auth::{
    check_login_request, check_register_request, register, LoginRequest, RegisterFailure,
    RegisterRequest, ValidationIssue,
};
use student_records::email::is_valid_email;
use student_records::student::{NewStudent, StudentIssue, StudentQuery};
use student_records::user::User;

#[test]
fn well_formed_addresses_are_accepted() {
    assert!(is_valid_email("a@x.com"));
    assert!(is_valid_email("john.doe+tag@sub.domain.org"));
    assert!(is_valid_email("a_b%c-d@host"));
    assert!(is_valid_email("1@2.3"));
    assert!(is_valid_email("it's.me!#$&*/=?^`{|}~@x.com"));
    assert!(is_valid_email("a@x-y.com"));
}

#[test]
fn malformed_addresses_are_rejected() {
    assert!(!is_valid_email(""));
    assert!(!is_valid_email("ax.com"));
    assert!(!is_valid_email("@x.com"));
    assert!(!is_valid_email("a@"));
    assert!(!is_valid_email("a@@x.com"));
    assert!(!is_valid_email("a b@x.com"));
    assert!(!is_valid_email("a@x..com"));
    assert!(!is_valid_email("a@.x.com"));
    assert!(!is_valid_email("a@x.com."));
    assert!(!is_valid_email("a@x_com"));
    assert!(!is_valid_email("a@-x.com"));
    assert!(!is_valid_email("a@x-.com"));
    assert!(!is_valid_email("a@sub.-x.com"));
    assert!(!is_valid_email("a@x.com-"));
}

#[test]
fn domain_labels_are_capped_at_sixty_three_characters() {
    let longest_legal = format!("a@{}.com", "b".repeat(63));
    assert!(is_valid_email(&longest_legal));
    let too_long = format!("a@{}.com", "b".repeat(64));
    assert!(!is_valid_email(&too_long));
    let too_long_last = format!("a@x.{}", "b".repeat(64));
    assert!(!is_valid_email(&too_long_last));
}

#[test]
fn request_checks_match_the_flow_order() {
    let ok = LoginRequest { email: "a@x.com".to_string(), password: "pw".to_string() };
    assert!(check_login_request(&ok).is_none());
    let bad_email = LoginRequest { email: "nope".to_string(), password: "pw".to_string() };
    assert!(matches!(check_login_request(&bad_email), Some(ValidationIssue::InvalidEmail)));
    let no_password = LoginRequest { email: "a@x.com".to_string(), password: String::new() };
    assert!(matches!(check_login_request(&no_password), Some(ValidationIssue::EmptyPassword)));

    assert!(check_register_request(&sample_register()).is_none());
    let mut short = sample_register();
    short.username = "ab".to_string();
    assert!(matches!(check_register_request(&short), Some(ValidationIssue::UsernameLength)));
}

fn sample_register() -> RegisterRequest {
    RegisterRequest {
        username: "alice".to_string(),
        email: "a@x.com".to_string(),
        password: "longenough".to_string(),
        first_name: Some("Alice".to_string()),
        last_name: None,
        role_id: 2,
    }
}

#[test]
fn registration_hashes_the_password_and_copies_the_fields() {
    let record = register(sample_register(), false).expect("registration failed");
    assert_eq!(record.username, "alice");
    assert_eq!(record.email, "a@x.com");
    assert_eq!(record.first_name.as_deref(), Some("Alice"));
    assert_eq!(record.role_id, 2);
    assert_ne!(record.password_hash, "longenough");
    let user = User {
        id: 1,
        username: record.username,
        email: record.email,
        password_hash: record.password_hash,
        first_name: record.first_name,
        last_name: record.last_name,
        role_id: record.role_id,
        is_active: true,
        last_login: None,
        created_at: 0,
        updated_at: 0,
    };
    assert!(user.verify_password("longenough"));
}

#[test]
fn short_username_is_rejected() {
    let mut req = sample_register();
    req.username = "ab".to_string();
    assert!(matches!(
        register(req, false),
        Err(RegisterFailure::BadRequest(ValidationIssue::UsernameLength))
    ));
}

#[test]
fn bad_email_is_rejected_at_registration() {
    let mut req = sample_register();
    req.email = "nope".to_string();
    assert!(matches!(
        register(req, false),
        Err(RegisterFailure::BadRequest(ValidationIssue::InvalidEmail))
    ));
}

#[test]
fn short_password_is_rejected_at_registration() {
    let mut req = sample_register();
    req.password = "seven77".to_string();
    assert!(matches!(
        register(req, false),
        Err(RegisterFailure::BadRequest(ValidationIssue::PasswordLength))
    ));
}

#[test]
fn existing_account_is_a_conflict() {
    assert!(matches!(register(sample_register(), true), Err(RegisterFailure::Conflict)));
}

fn sample_student() -> NewStudent {
    NewStudent {
        name: "Jo".to_string(),
        phone: "0123456789".to_string(),
        email: "jo@school.edu".to_string(),
        course: "maths".to_string(),
    }
}

#[test]
fn well_formed_student_record_validates() {
    assert_eq!(sample_student().validate(), Ok(()));
}

#[test]
fn student_checks_fail_in_field_order() {
    let mut s = sample_student();
    s.name = "J".to_string();
    assert_eq!(s.validate(), Err(StudentIssue::NameLength));
    let mut s = sample_student();
    s.phone = "123".to_string();
    assert_eq!(s.validate(), Err(StudentIssue::PhoneLength));
    let mut s = sample_student();
    s.email = "jo@".to_string();
    assert_eq!(s.validate(), Err(StudentIssue::InvalidEmail));
}

#[test]
fn page_window_defaults_to_the_first_ten_rows() {
    let q = StudentQuery { page: None, limit: None };
    assert_eq!(q.page_window(), (10, 0));
}

#[test]
fn page_window_computes_the_offset() {
    let q = StudentQuery { page: Some(3), limit: Some(20) };
    assert_eq!(q.page_window(), (20, 40));
}

#[test]
fn page_window_saturates_instead_of_overflowing() {
    let q = StudentQuery { page: Some(i64::MAX), limit: Some(i64::MAX) };
    assert_eq!(q.page_window(), (i64::MAX, i64::MAX));
    let q = StudentQuery { page: Some(i64::MIN), limit: Some(2) };
    assert_eq!(q.page_window(), (2, i64::MAX));
}
