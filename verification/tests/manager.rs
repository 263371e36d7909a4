use deadpool_ldap::{anonymous_rebind_credentials, Manager};
use ldap3::LdapConnSettings;
use std::time::Duration;

#[test]
fn new_from_str_stores_address() {
    let m = Manager::new("ldap://127.0.0.1:2389");
    assert_eq!(m.address(), "ldap://127.0.0.1:2389");
}

#[test]
fn new_from_string_stores_address() {
    let url = String::from("ldaps://directory.example.org:636");
    let m = Manager::new(url);
    assert_eq!(m.address(), "ldaps://directory.example.org:636");
}

#[test]
fn with_connection_settings_keeps_address() {
    let settings = LdapConnSettings::new().set_conn_timeout(Duration::from_secs(5));
    let m = Manager::new("ldap://127.0.0.1:389").with_connection_settings(settings);
    assert_eq!(m.address(), "ldap://127.0.0.1:389");
}

#[test]
fn with_connection_settings_replaces_options() {
    let settings = LdapConnSettings::new().set_conn_timeout(Duration::from_millis(250));
    let m = Manager::new("ldap://localhost").with_connection_settings(settings);
    // The options are opaque; what can be observed is that a value is stored
    // and handed back by reference without panicking.
    let _stored = m.settings();
    assert_eq!(m.address(), "ldap://localhost");
}

#[test]
fn empty_address_is_stored_as_given() {
    let m = Manager::new("");
    assert_eq!(m.address(), "");
}

#[test]
fn rebind_credentials_are_empty() {
    let (dn, pw) = anonymous_rebind_credentials();
    assert_eq!(dn, "");
    assert_eq!(pw, "");
}
