use auth_core::{
    error_reply, hash_password, id_photo_filename, id_photo_rel_path, login, login_reply,
    profile_photo_filename, profile_photo_rel_path, register, register_insert_reply,
    username_is_valid, validate_registration, verify_password, AuthError, CredentialStore,
    LookupEvent,
};

fn fresh_store() -> CredentialStore {
    CredentialStore::new()
}

#[test]
fn register_then_login_scenario() {
    let mut store = fresh_store();

    let reply = register(
        &mut store,
        Some("alice".to_string()),
        Some("secret123".to_string()),
        Some(vec![0xFFu8, 0xD8u8]),
        Some(vec![0x89u8, 0x50u8]),
    );
    assert_eq!(reply.status, 200);
    assert!(reply.body.success);
    assert_eq!(reply.body.message, "User registered successfully");
    assert_eq!(store.user_count(), 1);

    let ok = login(&store, &"alice".to_string(), "secret123");
    assert_eq!(ok.status, 200);
    assert!(ok.body.success);
    assert_eq!(ok.body.message, "Login successful");

    let bad = login(&store, &"alice".to_string(), "wrong");
    assert_eq!(bad.status, 401);
    assert!(!bad.body.success);
    assert_eq!(bad.body.message, "Invalid credentials");

    let again = register(
        &mut store,
        Some("alice".to_string()),
        Some("anything".to_string()),
        None,
        None,
    );
    assert_eq!(again.status, 500);
    assert!(!again.body.success);
    assert_eq!(again.body.message, "Failed to create user/ user duplicate");
    assert_eq!(store.user_count(), 1);
}

#[test]
fn registration_records_photo_paths() {
    let mut store = fresh_store();
    let reply = register(
        &mut store,
        Some("bob-2".to_string()),
        Some("pw".to_string()),
        Some(vec![1u8, 2u8, 3u8]),
        None,
    );
    assert!(reply.body.success);

    let account = store.get_account(&"bob-2".to_string()).unwrap();
    assert_eq!(
        account.profile_photo_path.as_deref(),
        Some("uploads/profile/profile_bob-2.jpg")
    );
    assert_eq!(account.id_photo_path, None);
    assert!(verify_password("pw", &account.password_hash));
    assert_ne!(account.password_hash, "pw");
}

#[test]
fn duplicate_registration_keeps_the_first_account() {
    let mut store = fresh_store();
    let first = register(
        &mut store,
        Some("carol".to_string()),
        Some("first-pw".to_string()),
        None,
        None,
    );
    assert!(first.body.success);

    let second = register(
        &mut store,
        Some("carol".to_string()),
        Some("second-pw".to_string()),
        None,
        None,
    );
    assert!(!second.body.success);
    assert_eq!(second.status, 500);
    assert_eq!(store.user_count(), 1);

    let ok = login(&store, &"carol".to_string(), "first-pw");
    assert!(ok.body.success);
    let bad = login(&store, &"carol".to_string(), "second-pw");
    assert!(!bad.body.success);
}

#[test]
fn login_against_unknown_user_is_not_found() {
    let store = fresh_store();
    let reply = login(&store, &"nobody".to_string(), "whatever");
    assert_eq!(reply.status, 401);
    assert!(!reply.body.success);
    assert_eq!(reply.body.message, "User not found");
}

#[test]
fn hash_then_verify_round_trip() {
    let hashed = hash_password("secret123").unwrap();
    assert!(verify_password("secret123", &hashed));
    assert!(!verify_password("secret124", &hashed));
    assert!(!verify_password("", &hashed));
}

#[test]
fn verify_against_malformed_hash_fails_safe() {
    assert!(!verify_password("secret123", "not-a-bcrypt-hash"));
    assert!(!verify_password("secret123", ""));
}

#[test]
fn missing_fields_are_malformed_requests() {
    let mut store = fresh_store();

    let no_username = register(&mut store, None, Some("pw".to_string()), None, None);
    assert_eq!(no_username.status, 400);
    assert!(!no_username.body.success);
    assert_eq!(no_username.body.message, "Malformed request");

    let no_password = register(&mut store, Some("dave".to_string()), None, None, None);
    assert_eq!(no_password.status, 400);
    assert!(!no_password.body.success);

    assert_eq!(store.user_count(), 0);
}

#[test]
fn unsafe_usernames_are_rejected() {
    let mut store = fresh_store();
    let traversal = register(
        &mut store,
        Some("../../etc/passwd".to_string()),
        Some("pw".to_string()),
        None,
        None,
    );
    assert_eq!(traversal.status, 400);
    assert_eq!(store.user_count(), 0);

    assert!(!username_is_valid(""));
    assert!(!username_is_valid("a/b"));
    assert!(!username_is_valid("a b"));
    assert!(!username_is_valid("a.b"));
    assert!(!username_is_valid("\u{e9}ve"));
    assert!(username_is_valid("alice"));
    assert!(username_is_valid("Alice_01-x"));
}

#[test]
fn validate_registration_requires_both_fields() {
    assert!(validate_registration(
        &Some("alice".to_string()),
        &Some("pw".to_string())
    ));
    assert!(!validate_registration(&None, &Some("pw".to_string())));
    assert!(!validate_registration(&Some("alice".to_string()), &None));
    assert!(!validate_registration(
        &Some("al/ice".to_string()),
        &Some("pw".to_string())
    ));
}

#[test]
fn photo_names_are_derived_from_the_username() {
    assert_eq!(profile_photo_filename("alice"), "profile_alice.jpg");
    assert_eq!(id_photo_filename("alice"), "id_alice.jpg");
    assert_eq!(
        profile_photo_rel_path("alice"),
        "uploads/profile/profile_alice.jpg"
    );
    assert_eq!(id_photo_rel_path("alice"), "uploads/id/id_alice.jpg");
}

#[test]
fn store_insert_and_lookup() {
    let mut store = fresh_store();
    assert_eq!(store.find_password_hash(&"erin".to_string()), None);

    let inserted = store.insert_account(
        "erin".to_string(),
        "stored-hash".to_string(),
        None,
        Some("uploads/id/id_erin.jpg".to_string()),
    );
    assert!(inserted.is_ok());
    assert_eq!(store.user_count(), 1);
    assert_eq!(
        store.find_password_hash(&"erin".to_string()).as_deref(),
        Some("stored-hash")
    );

    let duplicate = store.insert_account(
        "erin".to_string(),
        "other-hash".to_string(),
        None,
        None,
    );
    assert_eq!(duplicate, Err(AuthError::DuplicateUsername));
    assert_eq!(store.user_count(), 1);
    assert_eq!(
        store.find_password_hash(&"erin".to_string()).as_deref(),
        Some("stored-hash")
    );
}

#[test]
fn login_reply_maps_each_event() {
    let fault = login_reply(LookupEvent::Fault, "pw");
    assert_eq!(fault.status, 500);
    assert!(!fault.body.success);
    assert_eq!(fault.body.message, "Database error");

    let absent = login_reply(LookupEvent::Absent, "pw");
    assert_eq!(absent.status, 401);
    assert!(!absent.body.success);
    assert_eq!(absent.body.message, "User not found");

    let hashed = hash_password("pw").unwrap();
    let found_ok = login_reply(LookupEvent::Found(hashed.clone()), "pw");
    assert_eq!(found_ok.status, 200);
    assert!(found_ok.body.success);

    let found_bad = login_reply(LookupEvent::Found(hashed), "other");
    assert_eq!(found_bad.status, 401);
    assert!(!found_bad.body.success);
    assert_eq!(found_bad.body.message, "Invalid credentials");
}

#[test]
fn register_insert_reply_envelopes() {
    let ok = register_insert_reply(true);
    assert_eq!(ok.status, 200);
    assert!(ok.body.success);
    assert_eq!(ok.body.message, "User registered successfully");

    let rejected = register_insert_reply(false);
    assert_eq!(rejected.status, 500);
    assert!(!rejected.body.success);
    assert_eq!(rejected.body.message, "Failed to create user/ user duplicate");
}

#[test]
fn error_taxonomy_has_fixed_statuses_and_messages() {
    let cases = [
        (AuthError::StoreUnavailable, 500, "Database error"),
        (
            AuthError::DuplicateUsername,
            500,
            "Failed to create user/ user duplicate",
        ),
        (AuthError::MalformedRequest, 400, "Malformed request"),
        (AuthError::HashingFailure, 500, "Failed to hash password"),
        (
            AuthError::FileWriteFailure,
            500,
            "Failed to save uploaded file",
        ),
        (AuthError::InvalidCredentials, 401, "Invalid credentials"),
        (AuthError::UserNotFound, 401, "User not found"),
    ];
    for (error, status, message) in cases {
        let reply = error_reply(error);
        assert_eq!(reply.status, status);
        assert!(!reply.body.success);
        assert_eq!(reply.body.message, message);
    }
}
