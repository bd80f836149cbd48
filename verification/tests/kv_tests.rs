use user_auth::kv::TtlStore;

#[test]
fn a_written_entry_reads_back_until_its_expiry() {
    let mut store = TtlStore::new();
    store.set_ex("email_otp:a@x.com", "12345678", 600, 1_000);
    assert_eq!(store.get("email_otp:a@x.com", 1_000).as_deref(), Some("12345678"));
    assert_eq!(store.get("email_otp:a@x.com", 1_599).as_deref(), Some("12345678"));
    // at the expiry instant the entry behaves as absent
    assert_eq!(store.get("email_otp:a@x.com", 1_600), None);
    assert_eq!(store.get("someone-else", 1_000), None);
}

#[test]
fn overwrite_is_last_writer_wins() {
    let mut store = TtlStore::new();
    store.set_ex("user_refresh_token:u1", "old-token", 600, 1_000);
    store.set_ex("user_refresh_token:u1", "new-token", 600, 1_010);
    assert_eq!(store.get("user_refresh_token:u1", 1_020).as_deref(), Some("new-token"));
}

#[test]
fn consume_returns_a_value_once_and_not_found_after() {
    let mut store = TtlStore::new();
    store.set_ex("password_reset_token:a@x.com", "tok", 600, 1_000);
    let first = store.get_del("password_reset_token:a@x.com", 1_100);
    assert_eq!(first.as_deref(), Some("tok"));
    let second = store.get_del("password_reset_token:a@x.com", 1_100);
    assert_eq!(second, None);
    // even much later, nothing comes back
    assert_eq!(store.get("password_reset_token:a@x.com", 1_101), None);
}

#[test]
fn consuming_an_expired_entry_finds_nothing() {
    let mut store = TtlStore::new();
    store.set_ex("email_otp:late@x.com", "87654321", 60, 1_000);
    assert_eq!(store.get_del("email_otp:late@x.com", 2_000), None);
}

#[test]
fn delete_removes_an_entry() {
    let mut store = TtlStore::new();
    store.set_ex("user_refresh_token:u2", "tok", 600, 1_000);
    store.delete("user_refresh_token:u2");
    assert_eq!(store.get("user_refresh_token:u2", 1_001), None);
}
