//! The remote policy client: per-field encryption policy, decrypt-for-
//! display, and response interpretation.

use heilo::{interpret_response, ApiClient, Error, ErrorResponse};

fn keyed_client() -> ApiClient {
    ApiClient::new("http://localhost:8080".to_string(), Some("passphrase".to_string()))
}

#[test]
fn test_encrypt_field_plaintext_passthrough() {
    let client = keyed_client();
    let wire = client.encrypt_field("as is", false).unwrap();
    assert_eq!(wire, "as is");
}

#[test]
fn test_encrypt_field_round_trips_under_key() {
    let client = keyed_client();
    let wire = client.encrypt_field("payload", true).unwrap();
    assert_ne!(wire, "payload");
    assert_eq!(client.decrypt_item_field(&wire).unwrap(), "payload");
    assert_eq!(client.decrypt_group_name(&wire).unwrap(), "payload");
}

#[test]
fn test_has_key_reports_configuration() {
    assert!(keyed_client().has_key());
    assert!(!ApiClient::new("http://localhost:8080".to_string(), None).has_key());
}

#[test]
fn test_encrypt_field_missing_key() {
    let client = ApiClient::new("http://localhost:8080".to_string(), None);
    assert!(matches!(client.encrypt_field("x", true), Err(Error::MissingKey)));
    assert!(matches!(
        client.prepare_item_fields("a", "b", "c", true),
        Err(Error::MissingKey)
    ));
}

#[test]
fn test_decrypt_field_without_key_returns_unchanged() {
    let client = ApiClient::new("http://localhost:8080".to_string(), None);
    assert_eq!(client.decrypt_item_field("already plain").unwrap(), "already plain");
    assert_eq!(client.decrypt_group_name("already plain").unwrap(), "already plain");
}

#[test]
fn test_decrypt_field_classifies_failures() {
    let client = keyed_client();
    assert!(matches!(client.decrypt_item_field("not base64 !!"), Err(Error::Format)));
    let other = ApiClient::new("http://localhost:8080".to_string(), Some("other".to_string()));
    let wire = other.encrypt_field("secret", true).unwrap();
    assert!(matches!(client.decrypt_item_field(&wire), Err(Error::Authentication)));
}

#[test]
fn test_display_field_substitutes_placeholder() {
    let client = keyed_client();
    let wire = client.encrypt_field("visible", true).unwrap();
    assert_eq!(client.display_field(&wire), "visible");
    assert_eq!(client.display_field("broken envelope"), "decryption failed");
}

#[test]
fn test_prepare_item_fields_policy() {
    let client = keyed_client();
    let (t, d, x) = client.prepare_item_fields("t", "d", "x", false).unwrap();
    assert_eq!((t.as_str(), d.as_str(), x.as_str()), ("t", "d", "x"));
    let (t, d, x) = client.prepare_item_fields("t", "d", "x", true).unwrap();
    assert_eq!(client.decrypt_item_field(&t).unwrap(), "t");
    assert_eq!(client.decrypt_item_field(&d).unwrap(), "d");
    assert_eq!(client.decrypt_item_field(&x).unwrap(), "x");
}

#[test]
fn test_interpret_response_statuses() {
    assert!(interpret_response(200, None, "HTTP 200".to_string()).is_ok());
    assert!(interpret_response(299, None, "HTTP 299".to_string()).is_ok());
    let err = interpret_response(
        404,
        Some(ErrorResponse { error: "no such group".to_string() }),
        "HTTP 404".to_string(),
    );
    match err {
        Err(Error::Request { message }) => assert_eq!(message, "no such group"),
        other => panic!("expected Request error, got {:?}", other),
    }
    let err = interpret_response(500, None, "HTTP 500".to_string());
    match err {
        Err(Error::Request { message }) => assert_eq!(message, "HTTP 500"),
        other => panic!("expected Request error, got {:?}", other),
    }
}

#[test]
fn test_error_describe() {
    assert_eq!(
        Error::Request { message: "boom".to_string() }.describe(),
        "boom"
    );
    assert!(!Error::Authentication.describe().is_empty());
}
