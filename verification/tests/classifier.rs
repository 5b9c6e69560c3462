//! Classification of raw input strings.

use matrix_auth::identifier::classify_identifier;

const SERVER_NAME_PARSE_ERROR: &str = "server name is not a valid IP address or domain name";

#[test]
fn classify_bare_server_name() {
    let c = classify_identifier("matrix.org");
    assert_eq!(c.server_name, Ok("matrix.org".to_string()));
    assert!(!c.insecure);
    assert_eq!(c.url, None);
}

#[test]
fn classify_server_name_with_port() {
    let c = classify_identifier("matrix.org:8448");
    assert_eq!(c.server_name, Ok("matrix.org:8448".to_string()));
    assert!(!c.insecure);
    // The same string also reads as a URL: `matrix.org` is a syntactically
    // valid scheme. Both readings are kept; discovery prefers the server
    // name.
    assert_eq!(c.url, Some("matrix.org:8448".to_string()));
}

#[test]
fn classify_strips_secure_scheme() {
    let c = classify_identifier("https://matrix.org");
    assert_eq!(c.server_name, Ok("matrix.org".to_string()));
    assert!(!c.insecure);
    assert_eq!(c.url, Some("https://matrix.org/".to_string()));
}

#[test]
fn classify_insecure_scheme_sets_flag() {
    let c = classify_identifier("http://localhost:8008");
    assert_eq!(c.server_name, Ok("localhost:8008".to_string()));
    assert!(c.insecure);
    assert_eq!(c.url, Some("http://localhost:8008/".to_string()));
}

#[test]
fn classify_url_is_canonicalized() {
    // The URL parser does real work: an upper-case scheme and host come
    // back in canonical lower-case form with a trailing slash.
    let c = classify_identifier("HTTPS://MATRIX.ORG");
    assert_eq!(c.server_name, Err(SERVER_NAME_PARSE_ERROR.to_string()));
    assert!(!c.insecure);
    assert_eq!(c.url, Some("https://matrix.org/".to_string()));
}

#[test]
fn classify_rejects_garbage() {
    let c = classify_identifier("not a server name");
    assert_eq!(c.server_name, Err(SERVER_NAME_PARSE_ERROR.to_string()));
    assert!(!c.insecure);
    assert_eq!(c.url, None);
}

#[test]
fn classify_rejects_empty_input() {
    let c = classify_identifier("");
    assert!(c.server_name.is_err());
    assert!(!c.insecure);
    assert_eq!(c.url, None);
}
