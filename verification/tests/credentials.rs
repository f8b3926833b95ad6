use jmap_gateway::auth::{check_authorization, decode_basic_auth, encode_basic_auth};
use jmap_gateway::error::AuthError;

#[test]
fn round_trip_basic_auth() {
    let header = encode_basic_auth("alice", "p:w");
    let creds = check_authorization(&vec![header]).unwrap();
    assert_eq!(creds.username, "alice");
    assert_eq!(creds.password, "p:w");
}

#[test]
fn round_trip_empty_password() {
    let header = encode_basic_auth("bob", "");
    let creds = check_authorization(&vec![header]).unwrap();
    assert_eq!(creds.username, "bob");
    assert_eq!(creds.password, "");
}

#[test]
fn missing_scheme_is_rejected() {
    let value = String::from("Bogus YWxpY2U6cHc=");
    let r = check_authorization(&vec![value]);
    assert_eq!(r, Err(AuthError::MalformedCredentials));
}

#[test]
fn missing_header_is_rejected() {
    let r = check_authorization(&vec![]);
    assert_eq!(r, Err(AuthError::MalformedCredentials));
}

#[test]
fn multiple_headers_are_rejected() {
    let a = encode_basic_auth("alice", "pw");
    let b = encode_basic_auth("bob", "pw");
    let r = check_authorization(&vec![a, b]);
    assert_eq!(r, Err(AuthError::MalformedCredentials));
}

#[test]
fn empty_value_is_rejected() {
    let r = check_authorization(&vec![String::new()]);
    assert_eq!(r, Err(AuthError::MalformedCredentials));
}

#[test]
fn invalid_base64_is_rejected() {
    let r = decode_basic_auth("!!!not-base64!!!");
    assert_eq!(r, Err(AuthError::MalformedCredentials));
}

#[test]
fn invalid_text_is_rejected() {
    let param = base64::encode([0xffu8, 0xfe, 0x80]);
    let r = decode_basic_auth(&param);
    assert_eq!(r, Err(AuthError::MalformedCredentials));
}

#[test]
fn missing_colon_is_rejected() {
    let param = base64::encode("nocolonhere");
    let r = decode_basic_auth(&param);
    assert_eq!(r, Err(AuthError::MalformedCredentials));
}

#[test]
fn splits_at_first_colon_only() {
    let param = base64::encode("user:pass:word");
    let creds = decode_basic_auth(&param).unwrap();
    assert_eq!(creds.username, "user");
    assert_eq!(creds.password, "pass:word");
}
