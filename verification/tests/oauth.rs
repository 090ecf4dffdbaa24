use pdp::server::models::JsonValue;
use pdp::server::oauth::handlers::{
    authorize_after_client_check, authorize_precheck, authenticate_precheck,
    client_credentials_after_validation, code_flow_after_validation, code_flow_params,
    final_scopes, introspect_allowed, introspect_precheck, introspect_response,
    introspect_scope_check, redirect_with_error, requested_scopes, token_issued, token_precheck,
    GrantFlow, LoginForm, OAuthResponse, ScopeCheck, authenticate_redirect,
};
use pdp::server::oauth::models::{
    AuthorizationError, AuthorizationRequest, IntrospectionRequest, OAuthError, PermitUser,
    StoredAuthorizationCode, StoredToken, TokenRequest,
};
use pdp::server::oauth::permit_client::{PermitClient, PermitError};
use pdp::server::oauth::token_manager::{
    check_code_entry, check_pkce, check_token_entry, code_cache_key, token_cache_key,
    TokenError, TokenManager,
};
use pdp::strmap::StrMap;

fn create_test_client() -> PermitClient {
    let client = reqwest::Client::new();
    PermitClient::new(client, Some("https://api.test.permit.io".to_string()))
}

#[test]
fn test_permissions_to_scopes() {
    let client = create_test_client();

    let mut permissions = StrMap::new();
    let mut documents_actions = StrMap::new();
    documents_actions.insert("read".to_string(), true);
    documents_actions.insert("write".to_string(), true);
    documents_actions.insert("delete".to_string(), false);
    permissions.insert("documents".to_string(), documents_actions);

    let mut cars_actions = StrMap::new();
    cars_actions.insert("read".to_string(), true);
    cars_actions.insert("update".to_string(), false);
    permissions.insert("cars".to_string(), cars_actions);

    let scopes = client.permissions_to_scopes(&permissions);

    assert_eq!(scopes.len(), 3);
    assert!(scopes.contains(&"documents:read".to_string()));
    assert!(scopes.contains(&"documents:write".to_string()));
    assert!(scopes.contains(&"cars:read".to_string()));
    assert!(!scopes.contains(&"documents:delete".to_string()));
    assert!(!scopes.contains(&"cars:update".to_string()));
}

#[test]
fn scopes_come_out_sorted() {
    let client = create_test_client();
    let mut permissions = StrMap::new();
    let mut b = StrMap::new();
    b.insert("zeta".to_string(), true);
    b.insert("alpha".to_string(), true);
    permissions.insert("b".to_string(), b);
    let mut a = StrMap::new();
    a.insert("x".to_string(), true);
    permissions.insert("a".to_string(), a);
    assert_eq!(client.permissions_to_scopes(&permissions), vec!["a:x", "b:alpha", "b:zeta"]);
}

#[test]
fn test_parse_scope() {
    let client = create_test_client();

    let (resource, action) = client
        .parse_scope("documents:read")
        .expect("Should parse valid scope");
    assert_eq!(resource, "documents");
    assert_eq!(action, "read");

    assert!(client.parse_scope("invalid_scope").is_none());
    assert!(client.parse_scope("").is_none());
}

#[test]
fn granted_scopes_read_back_as_their_type_and_action() {
    let client = create_test_client();
    let mut permissions = StrMap::new();
    let mut actions = StrMap::new();
    actions.insert("read:all".to_string(), true);
    permissions.insert("documents".to_string(), actions);
    for scope in client.permissions_to_scopes(&permissions) {
        assert_eq!(
            client.parse_scope(&scope),
            Some(("documents".to_string(), "read:all".to_string()))
        );
    }
}

#[test]
fn parse_scope_splits_at_the_first_colon() {
    let client = create_test_client();
    assert_eq!(
        client.parse_scope("a:b:c"),
        Some(("a".to_string(), "b:c".to_string()))
    );
    assert_eq!(client.parse_scope(":x"), Some(("".to_string(), "x".to_string())));
}

#[test]
fn test_has_scope() {
    let client = create_test_client();
    let scopes = vec![
        "documents:read".to_string(),
        "documents:write".to_string(),
        "cars:read".to_string(),
    ];

    assert!(client.has_scope(&scopes, "documents:read"));
    assert!(client.has_scope(&scopes, "cars:read"));
    assert!(!client.has_scope(&scopes, "documents:delete"));
    assert!(!client.has_scope(&scopes, "cars:write"));
}

fn user(id: &str, attrs: Option<Vec<(&str, JsonValue)>>) -> PermitUser {
    PermitUser {
        id: id.to_string(),
        email: None,
        first_name: None,
        last_name: None,
        attributes: attrs.map(|a| {
            let mut m = StrMap::new();
            for (k, v) in a {
                m.insert(k.to_string(), v);
            }
            m
        }),
    }
}

#[test]
fn logins_check_the_password_attribute_or_the_default() {
    let client = create_test_client();
    let u = user("alice", Some(vec![("password", JsonValue::Str("s3cret".to_string()))]));
    assert!(client.authenticate_user(Ok(u), "s3cret").is_ok());
    let u = user("alice", Some(vec![("password", JsonValue::Str("s3cret".to_string()))]));
    assert!(matches!(client.authenticate_user(Ok(u), "password123"), Err(PermitError::InvalidCredentials)));
    let u = user("bob", None);
    assert!(client.authenticate_user(Ok(u), "password123").is_ok());
    let r = client.authenticate_user(Err(PermitError::UserNotFound("x".to_string())), "p");
    assert!(matches!(r, Err(PermitError::UserNotFound(_))));
}

#[test]
fn client_credentials_need_a_service_account() {
    let client = create_test_client();
    let u = user("svc", Some(vec![("client_type", JsonValue::Str("service_account".to_string()))]));
    assert!(client.validate_client_credentials(Ok(u), "secret").is_ok());
    let u = user("svc", Some(vec![("client_type", JsonValue::Str("human".to_string()))]));
    assert!(matches!(
        client.validate_client_credentials(Ok(u), "secret"),
        Err(PermitError::InvalidCredentials)
    ));
    assert!(matches!(
        client.validate_client(Err(PermitError::UserNotFound("x".to_string()))),
        Ok(false)
    ));
    assert!(matches!(client.validate_client(Ok(user("x", None))), Ok(true)));
    assert!(matches!(
        client.validate_client(Err(PermitError::ApiError("boom".to_string()))),
        Err(PermitError::ApiError(_))
    ));
}

#[test]
fn permit_urls_and_lookup_errors() {
    let client = create_test_client();
    assert_eq!(client.user_url("alice"), "https://api.test.permit.io/v2/facts/users/alice");
    assert_eq!(client.allowed_url(), "https://api.test.permit.io/v2/allowed");
    assert_eq!(client.bulk_allowed_url(), "https://api.test.permit.io/v2/allowed/bulk");
    let default = PermitClient::new(reqwest::Client::new(), None);
    assert_eq!(default.base_url, "https://api.permit.io");
    assert!(matches!(
        PermitClient::user_lookup_error("bob", 404, "404 Not Found", ""),
        Some(PermitError::UserNotFound(u)) if u == "bob"
    ));
    match PermitClient::user_lookup_error("bob", 500, "500 Internal Server Error", "oops") {
        Some(PermitError::ApiError(m)) => assert_eq!(m, "HTTP 500 Internal Server Error: oops"),
        _ => panic!("a failed lookup is an API error"),
    }
    assert!(PermitClient::user_lookup_error("bob", 200, "200 OK", "").is_none());
    assert!(PermitClient::permission_request("u", "a", "r", None).is_ok());
    assert!(PermitClient::permission_request("u", "a", "r", Some("{}".to_string())).is_err());
}

#[test]
fn token_manager_issues_43_character_tokens() {
    let manager = TokenManager::new((), 3600);
    assert_eq!(manager.code_ttl, 600);
    let (token, stored) = manager
        .generate_token("test_user", "test_client", vec!["read".to_string(), "write".to_string()])
        .ok()
        .unwrap();
    assert_eq!(token.len(), 43);
    assert!(token.chars().all(|c| c.is_ascii_alphanumeric() || c == '-' || c == '_'));
    assert_eq!(stored.user_id, "test_user");
    assert_eq!(stored.client_id, "test_client");
    assert_eq!(stored.requested_scopes, vec!["read".to_string(), "write".to_string()]);
    assert_eq!(stored.expires_at, stored.issued_at + 3600);

    let check = manager.validate_token(Some(stored.clone()));
    assert!(!check.delete);
    assert_eq!(check.result.ok().unwrap().user_id, "test_user");

    let other = manager.generate_secure_token().ok().unwrap();
    assert_ne!(other, token);
}

#[test]
fn revoking_a_token_removes_its_cache_key() {
    let manager = TokenManager::new((), 3600);
    assert_eq!(manager.revoke_token("abc"), "oauth_token:abc");
}

fn stored_token(expires_at: u64) -> StoredToken {
    StoredToken {
        user_id: "u".to_string(),
        client_id: "c".to_string(),
        requested_scopes: vec![],
        expires_at,
        issued_at: 0,
    }
}

#[test]
fn expired_tokens_are_not_found_and_deleted() {
    let c = check_token_entry(Some(stored_token(100)), Ok(100));
    assert!(matches!(c.result, Err(TokenError::TokenNotFound)));
    assert!(c.delete);
    let c = check_token_entry(Some(stored_token(100)), Ok(99));
    assert!(c.result.is_ok());
    let c = check_token_entry(None, Ok(0));
    assert!(matches!(c.result, Err(TokenError::TokenNotFound)));
    assert!(!c.delete);
    let c = check_token_entry(Some(stored_token(100)), Err("clock".to_string()));
    assert!(matches!(c.result, Err(TokenError::TokenGeneration(m)) if m == "System time error: clock"));
    assert_eq!(token_cache_key("abc"), "oauth_token:abc");
    assert_eq!(code_cache_key("abc"), "oauth_code:abc");
}

fn stored_code(challenge: Option<&str>, method: Option<&str>) -> StoredAuthorizationCode {
    StoredAuthorizationCode {
        user_id: "alice".to_string(),
        client_id: "client".to_string(),
        redirect_uri: "https://app.example.com/cb".to_string(),
        requested_scopes: vec!["documents:read".to_string()],
        code_challenge: challenge.map(|s| s.to_string()),
        code_challenge_method: method.map(|s| s.to_string()),
        expires_at: 1000,
        issued_at: 400,
    }
}

#[test]
fn authorization_codes_are_checked_and_consumed() {
    let uri = "https://app.example.com/cb";
    let c = check_code_entry(Some(stored_code(None, None)), Ok(500), "client", uri, None);
    assert!(c.result.is_ok());
    assert!(c.delete);
    let c = check_code_entry(Some(stored_code(None, None)), Ok(1000), "client", uri, None);
    assert!(matches!(c.result, Err(TokenError::CodeNotFound)));
    assert!(c.delete);
    let c = check_code_entry(Some(stored_code(None, None)), Ok(500), "other", uri, None);
    assert!(matches!(c.result, Err(TokenError::InvalidCodeFormat)));
    assert!(c.delete);
    let c = check_code_entry(Some(stored_code(None, None)), Ok(500), "client", "https://evil", None);
    assert!(matches!(c.result, Err(TokenError::RedirectUriMismatch)));
    assert!(c.delete);
    let c = check_code_entry(Some(stored_code(Some("abc"), Some("plain"))), Ok(500), "client", uri, None);
    assert!(matches!(c.result, Err(TokenError::PkceValidation(m)) if m == "code_verifier required for PKCE"));
    assert!(!c.delete);
    let c = check_code_entry(Some(stored_code(Some("abc"), Some("plain"))), Ok(500), "client", uri, Some("abc"));
    assert!(c.result.is_ok());
    let c = check_code_entry(None, Ok(500), "client", uri, None);
    assert!(matches!(c.result, Err(TokenError::CodeNotFound)));
    assert!(!c.delete);
}

#[test]
fn pkce_s256_matches_the_rfc_example() {
    // RFC 7636, appendix B.
    let verifier = "dBjftJeZ4CVP-mB92K27uhbUJU1p1r_wW1gFWFOEjXk";
    let challenge = "E9Melhoa2OwvFrEMTJguCHaoeK1t8URWbuGJSstw-cM";
    assert!(check_pkce(challenge, &Some("S256".to_string()), verifier).is_ok());
    assert!(check_pkce(challenge, &None, verifier).is_ok());
    match check_pkce(challenge, &Some("S256".to_string()), "wrong") {
        Err(TokenError::PkceValidation(m)) => assert_eq!(m, "code_verifier does not match code_challenge"),
        _ => panic!("a wrong verifier fails"),
    }
    match check_pkce(challenge, &Some("S512".to_string()), verifier) {
        Err(TokenError::PkceValidation(m)) => assert_eq!(m, "Unsupported code_challenge_method: S512"),
        _ => panic!("an unknown method fails"),
    }
    assert!(check_pkce("plain-text", &Some("plain".to_string()), "plain-text").is_ok());
}

fn auth_request(response_type: &str, client_id: &str, redirect_uri: &str) -> AuthorizationRequest {
    AuthorizationRequest {
        response_type: response_type.to_string(),
        client_id: client_id.to_string(),
        redirect_uri: redirect_uri.to_string(),
        scope: Some("documents:read".to_string()),
        state: Some("xyz".to_string()),
        code_challenge: None,
        code_challenge_method: None,
    }
}

#[test]
fn authorization_errors_are_redirected_with_state() {
    let r = redirect_with_error(
        "https://app.example.com/cb",
        AuthorizationError::access_denied("User denied authorization", Some("xyz".to_string())),
    );
    match r {
        OAuthResponse::Redirect(url) => assert_eq!(
            url,
            "https://app.example.com/cb?error=access_denied&error_description=User+denied+authorization&state=xyz"
        ),
        _ => panic!("redirected"),
    }
    match redirect_with_error("not a url", AuthorizationError::server_error("x", None)) {
        OAuthResponse::Error(400, e) => {
            assert_eq!(e.error, "invalid_request");
            assert_eq!(e.error_description, Some("Invalid redirect_uri".to_string()));
        }
        _ => panic!("invalid redirect"),
    }
}

#[test]
fn authorization_requests_are_checked_in_order() {
    let disabled = authorize_precheck(false, &auth_request("code", "c", "https://a.example/cb"));
    assert!(matches!(disabled, Some(OAuthResponse::Redirect(u)) if u.contains("error=server_error")));
    let token = authorize_precheck(true, &auth_request("token", "c", "https://a.example/cb"));
    assert!(matches!(token, Some(OAuthResponse::Redirect(u)) if u.contains("error=unsupported_response_type")));
    let missing = authorize_precheck(true, &auth_request("code", "", "https://a.example/cb"));
    assert!(matches!(missing, Some(OAuthResponse::Redirect(u)) if u.contains("error=invalid_request")));
    let bad = authorize_precheck(true, &auth_request("code", "c", "no url"));
    assert!(matches!(bad, Some(OAuthResponse::AuthorizationFailure(400, e)) if e.error_description == Some("Invalid redirect_uri format".to_string())));
    assert!(authorize_precheck(true, &auth_request("code", "c", "https://a.example/cb")).is_none());

    let req = auth_request("code", "c", "https://a.example/cb");
    match authorize_after_client_check(&req, Ok(true)) {
        OAuthResponse::Html(page) => {
            assert!(page.contains("Application <strong>c</strong> is requesting access"));
            assert!(page.contains("name=\"state\" value=\"xyz\""));
            assert!(page.contains("documents:read"));
        }
        _ => panic!("login form"),
    }
    assert!(matches!(authorize_after_client_check(&req, Ok(false)), OAuthResponse::Redirect(u) if u.contains("Invalid+client_id")));
}

fn form(action: &str, username: &str, password: &str) -> LoginForm {
    let mut params = StrMap::new();
    params.insert("action".to_string(), action.to_string());
    params.insert("client_id".to_string(), "c".to_string());
    params.insert("redirect_uri".to_string(), "https://a.example/cb".to_string());
    params.insert("state".to_string(), "s1".to_string());
    params.insert("scope".to_string(), " documents:read  cars:read ".to_string());
    params.insert("username".to_string(), username.to_string());
    params.insert("password".to_string(), password.to_string());
    LoginForm::from_params(&params)
}

#[test]
fn logins_are_denied_or_redirected_with_a_code() {
    let f = form("deny", "alice", "pw");
    assert!(matches!(authenticate_precheck(&f), Some(OAuthResponse::Redirect(u)) if u.contains("error=access_denied")));
    let f = form("authorize", "", "pw");
    assert!(matches!(authenticate_precheck(&f), Some(OAuthResponse::Redirect(u)) if u.contains("Username+and+password+are+required")));
    let f = form("authorize", "alice", "pw");
    assert!(authenticate_precheck(&f).is_none());
    assert_eq!(requested_scopes(&f.scope), vec!["documents:read", "cars:read"]);
    match authenticate_redirect(&f, Ok("CODE123".to_string())) {
        Some(OAuthResponse::Redirect(u)) => assert_eq!(u, "https://a.example/cb?code=CODE123&state=s1"),
        _ => panic!("redirect with code"),
    }
}

fn token_request(grant: &str, id: &str, secret: &str) -> TokenRequest {
    TokenRequest {
        grant_type: grant.to_string(),
        client_id: id.to_string(),
        client_secret: secret.to_string(),
        code: None,
        redirect_uri: None,
        code_verifier: None,
        scope: None,
    }
}

#[test]
fn token_requests_choose_a_flow() {
    assert!(matches!(token_precheck(false, &token_request("client_credentials", "a", "b")), Err(OAuthResponse::Error(503, _))));
    assert!(matches!(token_precheck(true, &token_request("client_credentials", "", "b")), Err(OAuthResponse::Error(400, e)) if e.error == "invalid_request"));
    assert!(matches!(token_precheck(true, &token_request("password", "a", "b")), Err(OAuthResponse::Error(400, e)) if e.error == "unsupported_grant_type"));
    assert_eq!(token_precheck(true, &token_request("authorization_code", "a", "b")).ok(), Some(GrantFlow::AuthorizationCode));
    assert_eq!(token_precheck(true, &token_request("client_credentials", "a", "b")).ok(), Some(GrantFlow::ClientCredentials));

    let r = token_request("authorization_code", "a", "b");
    assert!(matches!(code_flow_params(&r), Err(OAuthResponse::Error(400, e)) if e.error_description == Some("code parameter is required for authorization_code grant".to_string())));
}

#[test]
fn code_flow_failures_become_oauth_errors() {
    assert!(matches!(code_flow_after_validation(Err(TokenError::CodeNotFound)), Err(OAuthResponse::Error(400, e)) if e.error == "invalid_grant"));
    assert!(matches!(code_flow_after_validation(Err(TokenError::PkceValidation("x".to_string()))), Err(OAuthResponse::Error(400, e)) if e.error_description == Some("PKCE validation failed: x".to_string())));
    assert!(matches!(code_flow_after_validation(Err(TokenError::InvalidCodeFormat)), Err(OAuthResponse::Error(500, _))));
    assert!(matches!(client_credentials_after_validation(Err(PermitError::UserNotFound("x".to_string()))), Err(OAuthResponse::Error(401, e)) if e.error == "invalid_client"));
    let scopes = vec!["documents:read".to_string(), "cars:read".to_string()];
    match token_issued(Ok(("TOKEN".to_string(), stored_token(5))), 3600, &scopes) {
        OAuthResponse::Token(t) => {
            assert_eq!(t.access_token, "TOKEN");
            assert_eq!(t.token_type, "Bearer");
            assert_eq!(t.expires_in, 3600);
            assert_eq!(t.scope, "documents:read cars:read");
        }
        _ => panic!("token"),
    }
    let granted = vec!["a:x".to_string(), "b:y".to_string(), "c:z".to_string()];
    assert_eq!(final_scopes(granted.clone(), &Some("c:z a:x".to_string())), vec!["a:x", "c:z"]);
    assert_eq!(final_scopes(granted.clone(), &None), granted);
    let _ = OAuthError::unsupported_response_type();
}

#[test]
fn introspection_reports_active_tokens_and_scope_checks() {
    let req = IntrospectionRequest { token: "".to_string(), resource: None, action: None, context: None };
    assert!(matches!(introspect_precheck(true, &req), Some(OAuthResponse::Error(400, _))));
    let req = IntrospectionRequest {
        token: "t".to_string(),
        resource: Some("documents".to_string()),
        action: Some("read".to_string()),
        context: None,
    };
    assert!(matches!(introspect_precheck(false, &req), Some(OAuthResponse::Introspection(r)) if !r.active));
    let client = create_test_client();
    let mut token = stored_token(10);
    token.requested_scopes = vec!["documents:read".to_string()];
    let check = introspect_scope_check(&client, &token, &req);
    assert!(matches!(check, ScopeCheck::Ask { .. }));
    assert_eq!(introspect_allowed(&check, Some(Ok(true))), Some(true));
    assert_eq!(introspect_allowed(&check, Some(Err(PermitError::PermissionDenied))), None);
    assert_eq!(introspect_allowed(&ScopeCheck::MissingScope, None), Some(false));
    match introspect_response(token, &"permit-pdp".to_string(), Some(true)) {
        OAuthResponse::Introspection(r) => {
            assert!(r.active);
            assert_eq!(r.scope, Some("documents:read".to_string()));
            assert_eq!(r.iss, Some("permit-pdp".to_string()));
            assert_eq!(r.exp, Some(10));
        }
        _ => panic!("introspection"),
    }
    let _ = PermitUser { id: "x".to_string(), email: None, first_name: None, last_name: None, attributes: None };
}
