use request_pipeline::{AuthorizationToken, Error, Method};

const STAMP: &str = "Tue, 01 Jan 2030 00:00:00 GMT";

#[test]
fn well_formed_key_decodes_and_signs_deterministically() {
    let token = AuthorizationToken::primary_from_base64("aGVsbG8=").unwrap();
    assert!(token == AuthorizationToken::Primary(b"hello".to_vec()));
    let first = token.sign(Method::Get, "/cont", STAMP).unwrap();
    let second = token.sign(Method::Get, "/cont", STAMP).unwrap();
    assert_eq!(first, second);
}

#[test]
fn account_key_signature_is_hmac_sha256_of_canonical_string() {
    let token = AuthorizationToken::primary_from_base64("aGVsbG8=").unwrap();
    let sig = token.sign(Method::Get, "/cont", STAMP).unwrap();
    assert_eq!(sig, "OkOuNC3oJmAFDGMSOk1znV/KzNespxtXWXd/BKf9SdY=");
}

const MALFORMED: &str = "failed to base64 decode the primary credential - ensure that the credential is properly base64 encoded: ";

#[test]
fn malformed_key_is_refused() {
    for text in ["not base64!!", "a", "aGVs bG8="] {
        match AuthorizationToken::primary_from_base64(text) {
            Err(Error::CredentialMalformed(m)) => assert!(m.starts_with(MALFORMED)),
            _ => panic!("expected CredentialMalformed for {:?}", text),
        }
    }
}

#[test]
fn malformed_key_error_carries_decode_error() {
    match AuthorizationToken::primary_from_base64("a") {
        Err(Error::CredentialMalformed(m)) => assert_eq!(
            m,
            format!("{}Encoded text cannot have a 6-bit remainder.", MALFORMED)
        ),
        _ => panic!("expected CredentialMalformed"),
    }
    match AuthorizationToken::primary_from_base64("aGVs#G8=") {
        Err(Error::CredentialMalformed(m)) => {
            assert_eq!(m, format!("{}Invalid byte 35, offset 4.", MALFORMED))
        }
        _ => panic!("expected CredentialMalformed"),
    }
}

#[test]
fn any_key_bytes_round_trip_through_base64() {
    let keys: Vec<Vec<u8>> = vec![
        Vec::new(),
        vec![0],
        vec![255, 254, 253],
        (0..=255).collect(),
        b"secret-key-bytes".to_vec(),
    ];
    for key in keys {
        let text = base64::encode(&key);
        let token = AuthorizationToken::primary_from_base64(&text).unwrap();
        assert!(token == AuthorizationToken::Primary(key));
    }
}

#[test]
fn empty_key_text_gives_empty_key() {
    let token = AuthorizationToken::primary_from_base64("").unwrap();
    assert!(token == AuthorizationToken::Primary(Vec::new()));
}

#[test]
fn resource_token_signs_as_itself() {
    let token = AuthorizationToken::new_resource("type=resource&sig=abc".to_string());
    assert_eq!(token.sign(Method::Put, "/x", STAMP).unwrap(), "type=resource&sig=abc");
}

#[test]
fn distinct_requests_sign_distinctly() {
    let key = AuthorizationToken::primary_from_base64("c2VjcmV0LWtleS1ieXRlcw==").unwrap();
    let other = AuthorizationToken::primary_from_base64("b3RoZXIta2V5").unwrap();
    let mut seen: Vec<String> = Vec::new();
    for token in [&key, &other] {
        for method in [Method::Get, Method::Put, Method::Post, Method::Delete] {
            for path in ["/a", "/b", "/a/b"] {
                for stamp in [STAMP, "Wed, 02 Jan 2030 00:00:00 GMT"] {
                    let sig = token.sign(method, path, stamp).unwrap();
                    assert!(!seen.contains(&sig));
                    seen.push(sig);
                }
            }
        }
    }
    let r1 = AuthorizationToken::new_resource("t1".to_string());
    let r2 = AuthorizationToken::new_resource("t2".to_string());
    assert_ne!(r1.sign(Method::Get, "/a", STAMP).unwrap(), r2.sign(Method::Get, "/a", STAMP).unwrap());
}

#[test]
fn debug_text_hides_secret() {
    let key = AuthorizationToken::primary_from_base64("c2VjcmV0LWtleS1ieXRlcw==").unwrap();
    let scoped = AuthorizationToken::new_resource("very-secret-token".to_string());
    assert_eq!(key.debug_string(), "AuthorizationToken::Master(***hidden***)");
    assert_eq!(scoped.debug_string(), "AuthorizationToken::Resource(***hidden***)");
    assert!(!key.debug_string().contains("secret-key-bytes"));
    assert!(!scoped.debug_string().contains("very-secret-token"));
}

#[test]
fn method_names() {
    assert_eq!(Method::Get.as_str(), "GET");
    assert_eq!(Method::Put.as_str(), "PUT");
    assert_eq!(Method::Post.as_str(), "POST");
    assert_eq!(Method::Delete.as_str(), "DELETE");
}
