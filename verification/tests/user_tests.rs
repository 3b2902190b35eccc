use redleaf::user::{CreateUser, CredentialError, LoginUser, User, UserTable};

fn new_user(username: &str, email: &str, password: &str) -> CreateUser {
    CreateUser {
        username: username.to_string(),
        email: email.to_string(),
        password: password.to_string(),
    }
}

#[test]
fn password_round_trip() {
    let hash = User::hash_password("correct horse").unwrap();
    assert_eq!(User::verify_password("correct horse", &hash).unwrap(), true);
    assert_eq!(User::verify_password("wrong horse", &hash).unwrap(), false);
}

#[test]
fn hash_is_salted_and_not_plaintext() {
    let h1 = User::hash_password("pw").unwrap();
    let h2 = User::hash_password("pw").unwrap();
    // a PHC encoding always begins with the separator, so it is never the
    // plaintext
    assert!(h1.starts_with('$'));
    assert!(h2.starts_with('$'));
    assert!(!h1.contains("pw\u{0}") && h1 != "pw");
    // a fresh random salt per call: two hashes of one password differ
    assert_ne!(h1, h2);
    // yet both verify
    assert!(User::verify_password("pw", &h1).unwrap());
    assert!(User::verify_password("pw", &h2).unwrap());
}

#[test]
fn malformed_stored_hash_is_an_error_not_false() {
    let r = User::verify_password("anything", "not a phc string");
    assert_eq!(r.unwrap_err(), CredentialError::MalformedHash);
}

#[test]
fn create_stores_hash_not_plaintext() {
    let mut db = UserTable::new();
    let u = User::create(&mut db, new_user("alice", "a@example.com", "s3cret")).unwrap();
    assert_eq!(u.id, 1);
    assert_eq!(u.username, "alice");
    assert_eq!(u.email, "a@example.com");
    assert_ne!(u.password_hash, "s3cret");
    assert!(u.password_hash.starts_with('$'));
    assert!(!u.password_hash.contains("s3cret"));
    assert_eq!(u.created_at, u.updated_at);
}

#[test]
fn authenticate_full_match_returns_user() {
    let mut db = UserTable::new();
    User::create(&mut db, new_user("alice", "a@example.com", "s3cret")).unwrap();
    let login = LoginUser { email: "a@example.com".to_string(), password: "s3cret".to_string() };
    let got = User::authenticate(&db, login).unwrap();
    assert_eq!(got.unwrap().username, "alice");
}

#[test]
fn authenticate_hides_whether_account_exists() {
    let mut db = UserTable::new();
    User::create(&mut db, new_user("alice", "a@example.com", "s3cret")).unwrap();
    let unregistered = User::authenticate(
        &db,
        LoginUser { email: "b@example.com".to_string(), password: "s3cret".to_string() },
    )
    .unwrap();
    let wrong_password = User::authenticate(
        &db,
        LoginUser { email: "a@example.com".to_string(), password: "nope".to_string() },
    )
    .unwrap();
    // both come back as the very same absent value, not as errors
    assert!(unregistered.is_none());
    assert!(wrong_password.is_none());
    assert_eq!(unregistered.is_none(), wrong_password.is_none());
}

#[test]
fn find_users_by_each_key() {
    let mut db = UserTable::new();
    let u = User::create(&mut db, new_user("alice", "a@example.com", "pw")).unwrap();
    assert_eq!(User::find_by_id(&db, u.id).unwrap().username, "alice");
    assert_eq!(User::find_by_email(&db, "a@example.com").unwrap().id, u.id);
    assert_eq!(User::find_by_username(&db, "alice").unwrap().id, u.id);
    assert!(User::find_by_id(&db, 99).is_none());
    assert!(User::find_by_email(&db, "x@example.com").is_none());
    assert!(User::find_by_username(&db, "bob").is_none());
}

#[test]
fn user_json_never_contains_password_hash() {
    let mut db = UserTable::new();
    let u = User::create(&mut db, new_user("alice", "a@example.com", "s3cret")).unwrap();
    let json = u.to_json();
    assert!(!json.contains(&u.password_hash));
    assert!(!json.contains("password_hash"));
    assert!(!json.contains("s3cret"));
    assert!(json.contains("\"username\":\"alice\""));
    assert!(json.contains("\"email\":\"a@example.com\""));
}

#[test]
fn fetched_user_json_also_omits_hash() {
    let mut db = UserTable::new();
    User::create(&mut db, new_user("bob", "b@example.com", "hunter2")).unwrap();
    let fetched = User::find_by_email(&db, "b@example.com").unwrap();
    let json = fetched.to_json();
    assert!(!json.contains(&fetched.password_hash));
    assert!(!json.contains("hunter2"));
}
