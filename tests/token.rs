use cell_api_auth::keys::{derive_key, token_key, TOKEN_KEY_INFO};
use cell_api_auth::token::{issue, verify, CodecError, TokenClaims};

fn claims() -> TokenClaims {
    TokenClaims {
        sub: "6f9619ff-8b86-d011-b42d-00c04fc964ff".to_string(),
        username: Some("alice".to_string()),
        token_type: "access".to_string(),
        exp: "2030-01-01T00:00:00+00:00".to_string(),
    }
}

fn same(a: &TokenClaims, b: &TokenClaims) -> bool {
    a.sub == b.sub && a.username == b.username && a.token_type == b.token_type && a.exp == b.exp
}

#[test]
fn issued_claims_come_back_unchanged() {
    let key = token_key("SECRET-REDACTED");
    let c = claims();
    let token = issue(&c, &key).unwrap();
    assert!(token.starts_with("v4.local."));
    assert!(same(&verify(&token, &key).unwrap(), &c));

    let refresh = TokenClaims { username: None, token_type: "refresh".to_string(), ..claims() };
    let token = issue(&refresh, &key).unwrap();
    assert!(same(&verify(&token, &key).unwrap(), &refresh));
}

#[test]
fn each_issue_uses_fresh_nonce() {
    let key = token_key("SECRET-REDACTED");
    let a = issue(&claims(), &key).unwrap();
    let b = issue(&claims(), &key).unwrap();
    assert_ne!(a, b);
}

#[test]
fn any_flipped_byte_is_rejected() {
    let key = token_key("SECRET-REDACTED");
    let token = issue(&claims(), &key).unwrap();
    let bytes = token.as_bytes();
    for i in 0..bytes.len() {
        let mut t = bytes.to_vec();
        t[i] ^= 0x01;
        let t = String::from_utf8(t).unwrap();
        assert_eq!(verify(&t, &key).unwrap_err(), CodecError::Invalid, "position {}", i);
    }
}

#[test]
fn wrong_key_and_garbage_are_rejected() {
    let token = issue(&claims(), &token_key("one")).unwrap();
    assert_eq!(verify(&token, &token_key("two")).unwrap_err(), CodecError::Invalid);
    assert_eq!(verify("v4.local.", &token_key("one")).unwrap_err(), CodecError::Invalid);
    assert_eq!(verify("", &token_key("one")).unwrap_err(), CodecError::Invalid);
}

#[test]
fn unparsable_expiry_cannot_be_sealed() {
    let bad = TokenClaims { exp: "tomorrow".to_string(), ..claims() };
    assert_eq!(issue(&bad, &token_key("k")).unwrap_err(), CodecError::Unsealable);
}

#[test]
fn key_derivation_is_deterministic_and_separated() {
    assert_eq!(TOKEN_KEY_INFO, "paseto-v4-local-key");
    assert_eq!(token_key("s"), token_key("s"));
    assert_ne!(token_key("s"), token_key("t"));
    assert_eq!(token_key("s"), derive_key(b"s", TOKEN_KEY_INFO.as_bytes()));
    assert_ne!(derive_key(b"s", b"other-label"), token_key("s"));
    let empty = token_key("");
    assert_eq!(empty.len(), 32);
}

#[test]
fn hkdf_matches_rfc5869_vector() {
    // RFC 5869, appendix A.3: SHA-256, 22 bytes of 0x0b, no salt, no info.
    let ikm = [0x0bu8; 22];
    let okm = derive_key(&ikm, &[]);
    let expected_prefix = [0x8d, 0xa4, 0xe7, 0x75, 0xa5, 0x63, 0xc1, 0x8f];
    assert_eq!(&okm[..8], &expected_prefix);
}
