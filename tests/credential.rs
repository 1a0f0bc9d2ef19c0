use dex_connector::{derive_credential, derive_hashed, to_lower_hex, AuthMode, DexClient, DexError};
use dex_connector::error::{decimal, DecodeIssue};

#[test]
fn hashed_credential_of_abc() {
    assert_eq!(
        derive_hashed("abc"),
        "ba7816bf8f01cfea414140de5dae2223b00361a396177a9cb410ff61f20015ad"
    );
}

#[test]
fn hashed_credential_of_empty_key() {
    assert_eq!(
        derive_hashed(""),
        "e3b0c44298fc1c149afbf4c8996fb92427ae41e4649b934ca495991b7852b855"
    );
}

#[test]
fn hashed_credential_is_stable() {
    let first = derive_hashed("my-secret-key");
    let second = derive_hashed("my-secret-key");
    assert_eq!(first, second);
    assert_eq!(first.len(), 64);
    assert!(first.chars().all(|c| c.is_ascii_digit() || ('a'..='f').contains(&c)));
    assert_ne!(first, derive_hashed("my-secret-kez"));
}

#[test]
fn hashed_mode_never_fails() {
    let key = "line\nbreak";
    match derive_credential(AuthMode::Hashed, key) {
        Ok(c) => assert_eq!(c, derive_hashed(key)),
        Err(e) => panic!("unexpected {:?}", e),
    }
}

#[test]
fn plain_mode_keeps_key() {
    match derive_credential(AuthMode::Plain, "key with\ttab and \u{e9}") {
        Ok(c) => assert_eq!(c, "key with\ttab and \u{e9}"),
        Err(e) => panic!("unexpected {:?}", e),
    }
}

#[test]
fn plain_mode_rejects_control_characters() {
    assert!(matches!(derive_credential(AuthMode::Plain, "bad\nkey"), Err(DexError::Construction(_))));
    assert!(matches!(derive_credential(AuthMode::Plain, "bad\u{7f}key"), Err(DexError::Construction(_))));
}

#[test]
fn lower_hex_of_bytes() {
    assert_eq!(to_lower_hex(&vec![0x00, 0x0f, 0xa5, 0xff]), "000fa5ff");
    assert_eq!(to_lower_hex(&vec![]), "");
}

#[test]
fn client_uses_hashed_credential() {
    let client = DexClient::new("abc".to_string(), "http://localhost:8080".to_string()).unwrap();
    assert_eq!(client.credential(), derive_hashed("abc"));
    assert_eq!(client.base_url(), "http://localhost:8080");
}

#[test]
fn client_in_plain_mode() {
    let client =
        DexClient::with_mode(AuthMode::Plain, "raw-key".to_string(), "http://h".to_string()).unwrap();
    assert_eq!(client.credential(), "raw-key");
    let refused = DexClient::with_mode(AuthMode::Plain, "raw\rkey".to_string(), "http://h".to_string());
    assert!(matches!(refused, Err(DexError::Construction(_))));
}

#[test]
fn decimal_text_of_numbers() {
    assert_eq!(decimal(0), "0");
    assert_eq!(decimal(7), "7");
    assert_eq!(decimal(400), "400");
    assert_eq!(decimal(65535), "65535");
}

#[test]
fn error_descriptions() {
    let server = DexError::ServerResponse {
        status: 400,
        url: "http://h/create-order?dex=apex".to_string(),
        message: Some("insufficient margin".to_string()),
    };
    assert_eq!(
        server.describe(),
        "Server returned error: 400. Requested url: http://h/create-order?dex=apex, message: insufficient margin"
    );
    let silent = DexError::ServerResponse { status: 503, url: "u".to_string(), message: None };
    assert_eq!(silent.describe(), "Server returned error: 503. Requested url: u, message: none");
    assert_eq!(DexError::Transport("timed out".to_string()).describe(), "Transport error: timed out");
    assert_eq!(
        DexError::Construction("bad key".to_string()).describe(),
        "Client construction error: bad key"
    );
    let missing = DexError::Decode {
        issue: DecodeIssue::MissingField("orders".to_string()),
        headers: vec![],
        body: "{}".to_string(),
    };
    assert_eq!(missing.describe(), "Decode error: missing field `orders`");
    assert_eq!(DecodeIssue::WrongType("price".to_string()).describe(), "invalid type for field `price`");
    assert_eq!(DecodeIssue::NotObject.describe(), "expected a JSON object");
    let syntax = serde_json::from_str::<serde_json::Value>("{").unwrap_err();
    assert!(!DecodeIssue::Syntax(syntax).describe().is_empty());
}
