use sloppy::auth::{bearer_credentials, service_headers};

#[test]
fn bearer_value() {
    assert_eq!(bearer_credentials("k3y"), "Bearer k3y");
    assert_eq!(bearer_credentials(""), "Bearer ");
}

#[test]
fn headers_for_a_key() {
    let (accept, auth) = service_headers("abc-123").unwrap();
    assert_eq!(accept.to_str().unwrap(), "application/json");
    assert_eq!(auth.to_str().unwrap(), "Bearer abc-123");
    assert!(auth.is_sensitive());
    assert!(!accept.is_sensitive());
    assert_eq!(auth.as_bytes(), b"Bearer abc-123");
    assert_eq!(accept.as_bytes(), b"application/json");
    assert!(service_headers("tab\tok").is_ok());
    assert!(service_headers("ключ").is_ok());
}

#[test]
fn control_characters_are_refused() {
    assert!(service_headers("line\nbreak").is_err());
    assert!(service_headers("nul\0").is_err());
    assert!(service_headers("del\u{7f}").is_err());
}
