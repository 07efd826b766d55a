use ascendia_server::credentials::admit_session;
use ascendia_server::credentials::{
    authenticate, check_jwt_keys, hash_password, issue_access_token, verify_access_token,
    verify_password,
};
use ascendia_server::error::AppError;

/// A public key made for these tests only.
const TEST_PUBLIC_KEY: &str = "-----BEGIN PUBLIC KEY-----\nMIIBIjANBgkqhkiG9w0BAQEFAAOCAQ8AMIIBCgKCAQEAmqU5AKn7NIj/8o1Pq55e\nUzShiVDilVIgVjrOEgARAKZUP7d2UsTQ7OjtKQnvd852s9jq8hRUV5TV2P8Jwdg8\nD0rzcXQadKrXdGzNFYB3aK9havzszd+w9WFh1lKHN2nKxM/wo8oWfwEYHoWoHXlp\njNjcUTg8/CL9zq8ceTcReqOWWNKi2z72nj8/1n/OFFLI9l3kYQ+7MErLYi18Ivr7\nNIgSU77Od3e0KLtUeqqDQLQ2ON+hVgwO91fZb+a9/T/Q99a1E/I18EbOki3EfdRY\nWCE1akin71yBCQMuVOkhTqiFdHqbxS1zO4ZFRtPb0aUXkiJR2PsjiehyfHKRJ4su\nYQIDAQAB\n-----END PUBLIC KEY-----\n";

#[test]
fn passwords_hash_and_verify() {
    let hash = hash_password("uma-senha-segura").unwrap();
    assert!(hash.starts_with("$argon2id$v=19$m=19456,t=2,p=1$"));
    assert!(verify_password(&hash, "uma-senha-segura").is_ok());
    assert!(matches!(verify_password(&hash, "outra-senha"), Err(AppError::InvalidCredentials)));
    assert!(matches!(verify_password("not a hash", "x"), Err(AppError::InvalidCredentials)));
    let other = hash_password("uma-senha-segura").unwrap();
    assert_ne!(hash, other);
}

#[test]
fn signing_keys_are_checked() {
    match check_jwt_keys(b"not a key", TEST_PUBLIC_KEY.as_bytes()) {
        Err(AppError::Config(m)) => assert_eq!(m, "chave JWT privada inválida"),
        other => panic!("unexpected {:?}", other),
    }
    match check_jwt_keys(b"", b"") {
        Err(AppError::Config(m)) => assert_eq!(m, "chave JWT privada inválida"),
        other => panic!("unexpected {:?}", other),
    }
}

#[test]
fn forged_tokens_are_unauthorized() {
    let public = TEST_PUBLIC_KEY.as_bytes();
    assert!(matches!(verify_access_token("", public), Err(AppError::Unauthorized)));
    assert!(matches!(verify_access_token("a.b.c", public), Err(AppError::Unauthorized)));
    let unsigned = "header.payload.";
    assert!(matches!(verify_access_token(unsigned, public), Err(AppError::Unauthorized)));
    assert!(matches!(verify_access_token("a.b.c", b"not a key"), Err(AppError::Unauthorized)));
    assert!(matches!(
        authenticate(Some("Bearer a.b.c"), public),
        Err(AppError::Unauthorized)
    ));
}

#[test]
fn requests_without_a_bearer_token_are_unauthorized() {
    assert!(matches!(authenticate(None, TEST_PUBLIC_KEY.as_bytes()), Err(AppError::Unauthorized)));
    assert!(matches!(
        authenticate(Some("Basic abc"), TEST_PUBLIC_KEY.as_bytes()),
        Err(AppError::Unauthorized)
    ));
    match issue_access_token(b"not a key", 1, 2, 1_000, 15) {
        Err(AppError::Internal(m)) => assert_eq!(m, "jwt encode"),
        other => panic!("unexpected {:?}", other),
    }
    match issue_access_token(b"not a key", 1, 2, i64::MAX, 15) {
        Err(AppError::Internal(m)) => assert_eq!(m, "jwt exp overflow"),
        other => panic!("unexpected {:?}", other),
    }
}

#[test]
fn revoked_sessions_are_refused_at_once() {
    assert!(matches!(admit_session((1, 2), true), Err(AppError::Unauthorized)));
    assert_eq!(admit_session((1, 2), false).unwrap(), (1, 2));
}
