use user_auth::users::UserStore;

fn store_with_alice() -> UserStore {
    let mut store = UserStore::new();
    store
        .create_user(
            "f47ac10b-58cc-4372-a567-0e02b2c3d479",
            "alice@example.com",
            Some("$2b$fake-hash"),
            "alice",
            None,
            Some("Alice"),
            None,
            None,
            None,
            1_000,
        )
        .unwrap();
    store
}

#[test]
fn lookups_find_a_created_user() {
    let store = store_with_alice();
    let by_email = store.get_user_by_email("alice@example.com").unwrap();
    assert_eq!(by_email.display_name, "alice");
    assert_eq!(by_email.first_name.as_deref(), Some("Alice"));
    assert_eq!(by_email.email_verified_at, None);
    assert_eq!(by_email.created_at, 1_000);
    let by_name = store.get_user_by_display_name("alice").unwrap();
    assert_eq!(by_name.email, "alice@example.com");
    let by_id = store.get_user_by_id("f47ac10b-58cc-4372-a567-0e02b2c3d479").unwrap();
    assert_eq!(by_id.email, "alice@example.com");
    assert!(store.get_user_by_email("bob@example.com").is_none());
}

#[test]
fn duplicate_email_or_display_name_is_refused() {
    let mut store = store_with_alice();
    let same_email = store.create_user(
        "11111111-2222-3333-4444-555555555555",
        "alice@example.com",
        None,
        "someone-else",
        None,
        None,
        None,
        None,
        None,
        2_000,
    );
    assert_eq!(same_email.unwrap_err().error_code(), "DUPLICATE_ENTRY");
    let same_name = store.create_user(
        "11111111-2222-3333-4444-555555555555",
        "other@example.com",
        None,
        "alice",
        None,
        None,
        None,
        None,
        None,
        2_000,
    );
    assert_eq!(same_name.unwrap_err().error_code(), "DUPLICATE_ENTRY");
}

#[test]
fn update_keeps_absent_fields_and_replaces_given_ones() {
    let mut store = store_with_alice();
    let updated = store
        .update_user(
            "f47ac10b-58cc-4372-a567-0e02b2c3d479",
            None,
            Some("$2b$new-hash"),
            None,
            Some("likes proofs"),
            None,
            None,
            None,
            Some(5_000),
            5_000,
        )
        .unwrap();
    assert_eq!(updated.email, "alice@example.com");
    assert_eq!(updated.display_name, "alice");
    assert_eq!(updated.password_hash.as_deref(), Some("$2b$new-hash"));
    assert_eq!(updated.bio.as_deref(), Some("likes proofs"));
    assert_eq!(updated.first_name.as_deref(), Some("Alice"));
    assert_eq!(updated.email_verified_at, Some(5_000));
    assert_eq!(updated.created_at, 1_000);
    assert_eq!(updated.updated_at, 5_000);
}

#[test]
fn updating_an_unknown_user_is_not_found() {
    let mut store = store_with_alice();
    let missing = store.update_user(
        "00000000-0000-0000-0000-000000000000",
        None,
        None,
        None,
        None,
        None,
        None,
        None,
        None,
        5_000,
    );
    assert_eq!(missing.unwrap_err().error_code(), "NOT_FOUND");
}
