use sshbridge::user_model::{
    authenticate, check_login, check_old_password, hash_new_password, register_check, User,
    UserError, UserResponse,
};

fn user_with_hash(hash: String) -> User {
    User {
        id: 7,
        username: "alice".to_string(),
        password_hash: hash,
        email: Some("a@example.org".to_string()),
        display_name: None,
        created_at: "2026-01-01".to_string(),
        updated_at: "2026-01-01".to_string(),
        last_login_at: None,
        is_active: 1,
    }
}

#[test]
fn login_round_trip_against_a_real_hash() {
    let hash = hash_new_password("open sesame").expect("hashing succeeds");
    let user = user_with_hash(hash.clone());
    let ok = check_login(Some(user), "open sesame").expect("the right password passes");
    assert_eq!(ok.id, 7);

    let user2 = user_with_hash(hash);
    let bad = check_login(Some(user2), "wrong");
    assert_eq!(bad.unwrap_err(), UserError::BadCredentials);
}

#[test]
fn login_fails_alike_for_missing_accounts() {
    let r = check_login(None, "anything");
    assert_eq!(r.unwrap_err(), UserError::BadCredentials);
}

#[test]
fn unreadable_hashes_are_reported() {
    let user = user_with_hash("not a bcrypt hash".to_string());
    let r = check_login(Some(user), "pw");
    assert_eq!(r.unwrap_err(), UserError::HashUnreadable);
}

#[test]
fn password_change_needs_the_old_password() {
    let hash = hash_new_password("old pw").unwrap();
    let user = Some(user_with_hash(hash));
    assert!(check_old_password(&user, "old pw").is_ok());
    assert_eq!(
        check_old_password(&user, "guess").unwrap_err(),
        UserError::WrongOldPassword
    );
    assert_eq!(check_old_password(&None, "old pw").unwrap_err(), UserError::UserMissing);
}

#[test]
fn registration_refuses_taken_names() {
    assert!(register_check(false).is_ok());
    assert_eq!(register_check(true).unwrap_err(), UserError::UsernameTaken);
}

#[test]
fn the_middleware_needs_both_identity_parts() {
    let c = authenticate(Some(3), Some("bob".to_string())).expect("both parts present");
    assert_eq!(c.user_id, 3);
    assert_eq!(c.username, "bob");
    assert!(authenticate(Some(3), None).is_none());
    assert!(authenticate(None, Some("bob".to_string())).is_none());
    assert!(authenticate(None, None).is_none());
}

#[test]
fn responses_drop_the_secrets() {
    let hash = "$2b$04$abcdefghijklmnopqrstuv".to_string();
    let r = UserResponse::from(user_with_hash(hash));
    assert_eq!(r.id, 7);
    assert_eq!(r.username, "alice");
    assert_eq!(r.email.as_deref(), Some("a@example.org"));
}

#[test]
fn error_texts_name_the_failure() {
    assert_eq!(UserError::BadCredentials.message(), "wrong user name or password");
    assert_eq!(UserError::UsernameTaken.message(), "the user name is already taken");
    assert_eq!(UserError::WrongOldPassword.message(), "the old password is wrong");
}
