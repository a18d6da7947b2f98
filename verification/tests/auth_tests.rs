use vcard_qr::{
    authenticate, authorize_user_delete, change_password, hash_password, require_admin,
    session_user, verify_password, AdminGateError, AuthError, DeleteGateError,
    PasswordChangeError, User, UserInfo,
};

#[test]
fn hash_then_verify_round_trip() {
    let hash = hash_password("hunter2").unwrap();
    assert!(verify_password("hunter2", &hash));
    assert!(!verify_password("hunter3", &hash));
}

#[test]
fn hash_has_bcrypt_shape() {
    let hash = hash_password("secret").unwrap();
    assert_eq!(hash.len(), 60);
    assert!(hash.starts_with("$2"));
}

#[test]
fn verify_rejects_malformed_hash() {
    assert!(!verify_password("secret", "not a bcrypt hash"));
}

#[test]
fn change_password_with_correct_current() {
    let stored = hash_password("old-pass").unwrap();
    let new_hash = change_password("old-pass", "new-pass", &stored).unwrap();
    assert!(verify_password("new-pass", &new_hash));
    assert!(!verify_password("old-pass", &new_hash));
}

#[test]
fn change_password_rejects_wrong_current() {
    let stored = hash_password("old-pass").unwrap();
    assert_eq!(
        change_password("wrong", "new-pass", &stored),
        Err(PasswordChangeError::IncorrectPassword)
    );
}

fn account(password: &str) -> User {
    User {
        id: 5,
        username: "ann".to_string(),
        password_hash: hash_password(password).unwrap(),
        is_admin: false,
    }
}

#[test]
fn authenticate_accepts_matching_password() {
    let row = account("hunter2");
    let user = authenticate(Some(row.clone()), "hunter2").unwrap();
    assert_eq!(user.id, row.id);
    assert_eq!(user.username, row.username);
    assert_eq!(user.password_hash, row.password_hash);
    assert_eq!(user.is_admin, row.is_admin);
}

#[test]
fn authenticate_rejects_wrong_password() {
    let row = account("hunter2");
    assert_eq!(authenticate(Some(row), "hunter3").err(), Some(AuthError));
}

#[test]
fn authenticate_rejects_unknown_account() {
    assert_eq!(authenticate(None, "hunter2").err(), Some(AuthError));
}

#[test]
fn session_user_needs_all_three_values() {
    let full = session_user(Some(7), Some("ann".to_string()), Some(true)).unwrap();
    assert_eq!(full.id, 7);
    assert_eq!(full.username, "ann");
    assert!(full.is_admin);
    assert!(session_user(None, Some("ann".to_string()), Some(true)).is_none());
    assert!(session_user(Some(7), None, Some(true)).is_none());
    assert!(session_user(Some(7), Some("ann".to_string()), None).is_none());
    assert!(session_user(None, None, None).is_none());
}

fn info(id: i64, is_admin: bool) -> UserInfo {
    UserInfo { id, username: "ann".to_string(), is_admin }
}

#[test]
fn require_admin_gate() {
    assert_eq!(require_admin(&None), Err(AdminGateError::NotAuthenticated));
    assert_eq!(require_admin(&Some(info(1, false))), Err(AdminGateError::NotAdmin));
    assert_eq!(require_admin(&Some(info(1, true))), Ok(()));
}

#[test]
fn delete_gate_refuses_own_account() {
    assert_eq!(authorize_user_delete(&None, 2), Err(DeleteGateError::NotAuthenticated));
    assert_eq!(
        authorize_user_delete(&Some(info(1, false)), 2),
        Err(DeleteGateError::NotAdmin)
    );
    assert_eq!(
        authorize_user_delete(&Some(info(1, true)), 1),
        Err(DeleteGateError::OwnAccount)
    );
    assert_eq!(authorize_user_delete(&Some(info(1, true)), 2), Ok(()));
}

#[test]
fn user_info_from_user_drops_only_the_hash() {
    let user = User {
        id: 3,
        username: "bob".to_string(),
        password_hash: "$2b$12$abcdefghijklmnopqrstuv".to_string(),
        is_admin: true,
    };
    let info = UserInfo::from(user);
    assert_eq!(info.id, 3);
    assert_eq!(info.username, "bob");
    assert!(info.is_admin);
}
