use auth_core::directory::CredentialDirectory;
use auth_core::directory::get_valid_users;
use auth_core::service::AuthService;
use auth_core::session::SessionStore;

#[test]
fn fixed_table_holds_the_four_pairs() {
    let directory = get_valid_users();
    assert_eq!(
        directory.lookup("manetas & stevens associates"),
        Some("123".to_string())
    );
    assert_eq!(directory.lookup("admin"), Some("admin123".to_string()));
    assert_eq!(directory.lookup("user1"), Some("password1".to_string()));
    assert_eq!(directory.lookup("user2"), Some("password2".to_string()));
    assert_eq!(directory.lookup("nobody"), None);
    assert_eq!(directory.lookup(""), None);
    assert_eq!(directory.lookup("ADMIN"), None);
}

#[test]
fn empty_directory_knows_nothing() {
    let directory = CredentialDirectory::new();
    assert_eq!(directory.lookup("admin"), None);
    assert_eq!(directory.lookup(""), None);
}

#[test]
fn duplicate_identity_resolves_to_last_write() {
    let mut directory = CredentialDirectory::new();
    directory.insert("a".to_string(), "first".to_string());
    directory.insert("b".to_string(), "kept".to_string());
    directory.insert("a".to_string(), "second".to_string());
    assert_eq!(directory.lookup("a"), Some("second".to_string()));
    assert_eq!(directory.lookup("b"), Some("kept".to_string()));
}

#[test]
fn session_store_set_clear_snapshot() {
    let mut store = SessionStore::new();
    assert_eq!(store.snapshot(), None);
    store.set("admin".to_string());
    assert_eq!(store.snapshot(), Some("admin".to_string()));
    store.set("user1".to_string());
    assert_eq!(store.snapshot(), Some("user1".to_string()));
    store.clear();
    assert_eq!(store.snapshot(), None);
    store.clear();
    assert_eq!(store.snapshot(), None);
}

#[test]
fn auth_service_records_the_default_endpoint() {
    let service = AuthService::new();
    assert_eq!(service.endpoint(), "http://127.0.0.1:8080/api");
    let copy = service.clone();
    assert_eq!(copy.endpoint(), "http://127.0.0.1:8080/api");
}
