use student_records::user::User;

fn sample_user(password_hash: String) -> User {
    User {
        id: 7,
        username: "jdoe".to_string(),
        email: "jdoe@example.com".to_string(),
        password_hash,
        first_name: Some("John".to_string()),
        last_name: None,
        role_id: 2,
        is_active: true,
        last_login: None,
        created_at: 1_700_000_000,
        updated_at: 1_700_000_000,
    }
}

#[test]
fn fresh_hash_verifies_its_password() {
    let hash = User::hash_password("correct horse").expect("hashing failed");
    let user = sample_user(hash);
    assert!(user.verify_password("correct horse"));
}

#[test]
fn wrong_password_does_not_verify() {
    let hash = User::hash_password("correct horse").expect("hashing failed");
    let user = sample_user(hash);
    assert!(!user.verify_password("battery staple"));
}

#[test]
fn empty_password_is_hashable_and_verifies() {
    let hash = User::hash_password("").expect("hashing failed");
    let user = sample_user(hash);
    assert!(user.verify_password(""));
    assert!(!user.verify_password("x"));
}

#[test]
fn malformed_stored_hash_yields_false_not_an_error() {
    let user = sample_user("not-a-bcrypt-hash".to_string());
    assert!(!user.verify_password("anything"));
}

#[test]
fn two_hashes_of_one_password_are_salted_differently_yet_both_verify() {
    let h1 = User::hash_password("pw").expect("hashing failed");
    let h2 = User::hash_password("pw").expect("hashing failed");
    assert_ne!(h1, h2);
    assert!(sample_user(h1).verify_password("pw"));
    assert!(sample_user(h2).verify_password("pw"));
}
