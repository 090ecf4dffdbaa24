use pdp::server::oauth::models::{StoredAuthorizationCode, StoredToken};
use pdp::server::oauth::token_manager::{
    code_cache_key, code_record, token_cache_key, token_record, TokenError, TokenManager,
};
use std::collections::HashMap;

/// Token and code records kept by key, as the server's cache keeps them.
#[derive(Default)]
struct Store {
    tokens: HashMap<String, StoredToken>,
    codes: HashMap<String, StoredAuthorizationCode>,
}

fn create_test_token_manager() -> TokenManager<()> {
    TokenManager::new((), 3600)
}

fn generate_token(
    manager: &TokenManager<()>,
    store: &mut Store,
    user_id: &str,
    client_id: &str,
    scopes: Vec<String>,
) -> (String, StoredToken) {
    let (token, stored) = manager.generate_token(user_id, client_id, scopes).ok().unwrap();
    store.tokens.insert(token_cache_key(&token), stored.clone());
    (token, stored)
}

fn validate_token(manager: &TokenManager<()>, store: &mut Store, token: &str) -> Result<StoredToken, TokenError> {
    let key = token_cache_key(token);
    let check = manager.validate_token(store.tokens.get(&key).cloned());
    if check.delete {
        store.tokens.remove(&key);
    }
    check.result
}

fn generate_code(
    manager: &TokenManager<()>,
    store: &mut Store,
    user_id: &str,
    client_id: &str,
    redirect_uri: &str,
    scopes: Vec<String>,
    challenge: Option<String>,
    method: Option<String>,
) -> (String, StoredAuthorizationCode) {
    let (code, stored) = manager
        .generate_authorization_code(user_id, client_id, redirect_uri, scopes, challenge, method)
        .ok()
        .unwrap();
    store.codes.insert(code_cache_key(&code), stored.clone());
    (code, stored)
}

fn validate_code(
    manager: &TokenManager<()>,
    store: &mut Store,
    code: &str,
    client_id: &str,
    redirect_uri: &str,
    verifier: Option<&str>,
) -> Result<StoredAuthorizationCode, TokenError> {
    let key = code_cache_key(code);
    let check = manager.validate_authorization_code(store.codes.get(&key).cloned(), client_id, redirect_uri, verifier);
    if check.delete {
        store.codes.remove(&key);
    }
    check.result
}

#[test]
fn test_generate_and_validate_token() {
    let manager = create_test_token_manager();
    let mut store = Store::default();
    let scopes = vec!["read".to_string(), "write".to_string()];
    let (token, stored_token) = generate_token(&manager, &mut store, "test_user", "test_client", scopes.clone());
    assert!(!token.is_empty());
    assert_eq!(stored_token.user_id, "test_user");
    assert_eq!(stored_token.client_id, "test_client");
    assert_eq!(stored_token.requested_scopes, scopes);
    let validated = validate_token(&manager, &mut store, &token).ok().unwrap();
    assert_eq!(validated.user_id, stored_token.user_id);
    assert_eq!(validated.client_id, stored_token.client_id);
    assert_eq!(validated.requested_scopes, stored_token.requested_scopes);
    assert_eq!(validated.expires_at, stored_token.expires_at);
}

#[test]
fn test_token_expiration() {
    let manager = TokenManager::new((), 1);
    let mut store = Store::default();
    let (token, _) = generate_token(&manager, &mut store, "test_user", "test_client", vec!["read".to_string()]);
    assert!(validate_token(&manager, &mut store, &token).is_ok());
    let start = std::time::Instant::now();
    while start.elapsed() < std::time::Duration::from_secs(2) {
        std::hint::spin_loop();
    }
    assert!(matches!(validate_token(&manager, &mut store, &token), Err(TokenError::TokenNotFound)));
    assert!(store.tokens.is_empty());
}

#[test]
fn test_revoke_token() {
    let manager = create_test_token_manager();
    let mut store = Store::default();
    let (token, _) = generate_token(&manager, &mut store, "test_user", "test_client", vec!["read".to_string()]);
    assert!(validate_token(&manager, &mut store, &token).is_ok());
    store.tokens.remove(&manager.revoke_token(&token));
    assert!(matches!(validate_token(&manager, &mut store, &token), Err(TokenError::TokenNotFound)));
}

#[test]
fn test_invalid_token() {
    let manager = create_test_token_manager();
    let mut store = Store::default();
    assert!(matches!(validate_token(&manager, &mut store, "invalid_token"), Err(TokenError::TokenNotFound)));
}

#[test]
fn test_token_uniqueness() {
    let manager = create_test_token_manager();
    let mut store = Store::default();
    let scopes = vec!["read".to_string()];
    let (token1, _) = generate_token(&manager, &mut store, "test_user", "test_client", scopes.clone());
    let (token2, _) = generate_token(&manager, &mut store, "test_user", "test_client", scopes);
    assert_ne!(token1, token2);
    assert!(validate_token(&manager, &mut store, &token1).is_ok());
    assert!(validate_token(&manager, &mut store, &token2).is_ok());
}

#[test]
fn test_generate_and_validate_authorization_code() {
    let manager = create_test_token_manager();
    let mut store = Store::default();
    let redirect_uri = "https://example.com/callback";
    let scopes = vec!["read".to_string(), "write".to_string()];
    let (code, stored) = generate_code(&manager, &mut store, "test_user", "test_client", redirect_uri, scopes.clone(), None, None);
    assert!(!code.is_empty());
    assert_eq!(stored.user_id, "test_user");
    assert_eq!(stored.client_id, "test_client");
    assert_eq!(stored.redirect_uri, redirect_uri);
    assert_eq!(stored.requested_scopes, scopes);
    let validated = validate_code(&manager, &mut store, &code, "test_client", redirect_uri, None).ok().unwrap();
    assert_eq!(validated.user_id, stored.user_id);
    assert_eq!(validated.client_id, stored.client_id);
    assert_eq!(validated.redirect_uri, stored.redirect_uri);
    assert_eq!(validated.requested_scopes, stored.requested_scopes);
    assert!(matches!(
        validate_code(&manager, &mut store, &code, "test_client", redirect_uri, None),
        Err(TokenError::CodeNotFound)
    ));
}

#[test]
fn test_authorization_code_redirect_uri_mismatch() {
    let manager = create_test_token_manager();
    let mut store = Store::default();
    let (code, _) = generate_code(&manager, &mut store, "test_user", "test_client", "https://example.com/callback", vec!["read".to_string()], None, None);
    assert!(matches!(
        validate_code(&manager, &mut store, &code, "test_client", "https://evil.com/callback", None),
        Err(TokenError::RedirectUriMismatch)
    ));
}

#[test]
fn test_pkce_validation() {
    let manager = create_test_token_manager();
    let mut store = Store::default();
    let redirect_uri = "https://example.com/callback";
    let verifier = "dBjftJeZ4CVP-mB92K27uhbUJU1p1r_wW1gFWFOEjXk";
    let challenge = "E9Melhoa2OwvFrEMTJguCHaoeK1t8URWbuGJSstw-cM";
    let (code, _) = generate_code(
        &manager,
        &mut store,
        "test_user",
        "test_client",
        redirect_uri,
        vec!["read".to_string()],
        Some(challenge.to_string()),
        Some("S256".to_string()),
    );
    assert!(validate_code(&manager, &mut store, &code, "test_client", redirect_uri, Some(verifier)).is_ok());
}

#[test]
fn test_pkce_validation_failure() {
    let manager = create_test_token_manager();
    let mut store = Store::default();
    let redirect_uri = "https://example.com/callback";
    let challenge = "E9Melhoa2OwvFrEMTJguCHaoeK1t8URWbuGJSstw-cM";
    let (code, _) = generate_code(
        &manager,
        &mut store,
        "test_user",
        "test_client",
        redirect_uri,
        vec!["read".to_string()],
        Some(challenge.to_string()),
        Some("S256".to_string()),
    );
    assert!(matches!(
        validate_code(&manager, &mut store, &code, "test_client", redirect_uri, Some("wrong_verifier")),
        Err(TokenError::PkceValidation(_))
    ));
}

#[test]
fn records_are_issued_at_the_clock_reading() {
    let scopes = vec!["read".to_string()];
    match token_record("alice", "app", scopes.clone(), 3600, Ok(100)) {
        Ok(t) => {
            assert_eq!(t.user_id, "alice");
            assert_eq!(t.client_id, "app");
            assert_eq!(t.requested_scopes, scopes);
            assert_eq!(t.issued_at, 100);
            assert_eq!(t.expires_at, 3700);
        }
        Err(e) => panic!("unexpected error {:?}", e),
    }
    match code_record(
        "alice",
        "app",
        "https://app/cb",
        scopes.clone(),
        Some("abc".to_string()),
        Some("S256".to_string()),
        600,
        Ok(100),
    ) {
        Ok(c) => {
            assert_eq!(c.redirect_uri, "https://app/cb");
            assert_eq!(c.code_challenge.as_deref(), Some("abc"));
            assert_eq!(c.code_challenge_method.as_deref(), Some("S256"));
            assert_eq!(c.issued_at, 100);
            assert_eq!(c.expires_at, 700);
        }
        Err(e) => panic!("unexpected error {:?}", e),
    }
}

#[test]
fn clock_errors_become_generation_errors() {
    match token_record("alice", "app", vec![], 3600, Err("clock".to_string())) {
        Err(TokenError::TokenGeneration(m)) => assert_eq!(m, "System time error: clock"),
        other => panic!("unexpected result {:?}", other.is_ok()),
    }
    match code_record("alice", "app", "https://app/cb", vec![], None, None, 600, Err("clock".to_string())) {
        Err(TokenError::CodeGeneration(m)) => assert_eq!(m, "System time error: clock"),
        other => panic!("unexpected result {:?}", other.is_ok()),
    }
}
