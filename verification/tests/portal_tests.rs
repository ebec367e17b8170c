use auth_core::directory::get_valid_users;
use auth_core::portal::AuthPortal;
use auth_core::types::LoginRequest;

fn request(username: &str, password: &str) -> LoginRequest {
    LoginRequest { username: username.to_string(), password: password.to_string() }
}

#[test]
fn portal_authenticates_known_pair() {
    let portal = AuthPortal::new(get_valid_users());
    let r = portal.authenticate(&request("admin", "admin123"));
    assert!(r.success);
    assert_eq!(r.message, "Login successful");
    let q = portal.query_session();
    assert!(q.logged_in);
    assert_eq!(q.username, "admin");
}

#[test]
fn portal_rejects_bad_requests_with_one_message() {
    let portal = AuthPortal::new(get_valid_users());
    let unknown = portal.authenticate(&request("nobody", "123"));
    let wrong = portal.authenticate(&request("admin", "123"));
    assert!(!unknown.success);
    assert!(!wrong.success);
    assert_eq!(unknown.message, wrong.message);
    assert_eq!(unknown.message, "Invalid username or password");
    let q = portal.query_session();
    assert!(!q.logged_in);
    assert_eq!(q.username, "");
}

#[test]
fn portal_relogin_overwrites() {
    let portal = AuthPortal::new(get_valid_users());
    assert!(portal.authenticate(&request("user1", "password1")).success);
    assert!(portal.authenticate(&request("user2", "password2")).success);
    let q = portal.query_session();
    assert!(q.logged_in);
    assert_eq!(q.username, "user2");
}

#[test]
fn portal_end_session_is_idempotent() {
    let portal = AuthPortal::new(get_valid_users());
    assert!(portal.authenticate(&request("admin", "admin123")).success);
    let first = portal.end_session();
    let second = portal.end_session();
    assert!(first.success);
    assert_eq!(first, second);
    assert_eq!(first.message, "Logged out successfully");
    let q = portal.query_session();
    assert!(!q.logged_in);
    assert_eq!(q.username, "");
}

#[test]
fn portal_operations_interleave_through_shared_reference() {
    let portal = AuthPortal::new(get_valid_users());
    let p = &portal;
    for round in 0..50 {
        let login = p.authenticate(&request("user1", "password1"));
        assert!(login.success);
        let q = p.query_session();
        assert!(q.logged_in);
        assert_eq!(q.username, "user1");
        if round % 2 == 0 {
            assert!(p.end_session().success);
            let after = p.query_session();
            assert!(!after.logged_in);
            assert_eq!(after.username, "");
        }
    }
}
