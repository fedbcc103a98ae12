use ncopds::server::{keyring_key, password_from_lookup, KeyringErrorKind, Server};
use ncopds::urls::parse_abs_url;

#[test]
fn the_keyring_key_is_username_at_base_url() {
    let base = parse_abs_url("https://example.com/opds").unwrap();
    assert_eq!(keyring_key("alice", &base), "alice@https://example.com/opds");
}

#[test]
fn the_domain_is_scheme_and_host_only() {
    let s = Server {
        username: None,
        base_url: parse_abs_url("https://example.com/path/further/down").unwrap(),
    };
    assert_eq!(s.get_domain().unwrap().as_str(), "https://example.com/");
}

#[test]
fn a_host_that_is_no_domain_has_no_domain() {
    let s = Server { username: None, base_url: parse_abs_url("https://127.0.0.1/opds").unwrap() };
    assert!(s.get_domain().is_none());
}

#[test]
fn a_server_without_a_username_has_no_password() {
    let s = Server { username: None, base_url: parse_abs_url("https://example.com/opds").unwrap() };
    assert_eq!(s.get_password().unwrap(), None);
}

#[test]
fn an_empty_stored_password_counts_as_absent() {
    assert_eq!(password_from_lookup(Ok("".to_string())).unwrap(), None);
    assert_eq!(
        password_from_lookup(Ok("pw".to_string())).unwrap(),
        Some("pw".to_string())
    );
    assert!(matches!(
        password_from_lookup(Err(KeyringErrorKind::NoEntry)),
        Err(KeyringErrorKind::NoEntry)
    ));
}
