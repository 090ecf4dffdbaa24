//! The requests, responses and stored records of the OAuth 2.0 endpoints.

use crate::server::models::JsonMap;
use crate::strmap::StrMap;
use vstd::prelude::*;

verus! {

/// An authorization request of the authorization-code flow.
#[derive(Debug, Clone)]
pub struct AuthorizationRequest {
    /// Must be `code`.
    pub response_type: String,
    pub client_id: String,
    pub redirect_uri: String,
    /// Space-separated scopes.
    pub scope: Option<String>,
    pub state: Option<String>,
    pub code_challenge: Option<String>,
    /// `S256` or `plain`.
    pub code_challenge_method: Option<String>,
}

/// The answer to an authorization request.
#[derive(Debug, Clone)]
pub struct AuthorizationResponse {
    pub code: String,
    pub state: Option<String>,
}

/// An error of the authorization endpoint, sent back to the client's
/// redirect URI.
#[derive(Debug, Clone)]
pub struct AuthorizationError {
    pub error: String,
    pub error_description: Option<String>,
    pub state: Option<String>,
}

/// A token request of either flow.
#[derive(Debug, Clone)]
pub struct TokenRequest {
    /// `authorization_code` or `client_credentials`.
    pub grant_type: String,
    pub client_id: String,
    pub client_secret: String,
    pub code: Option<String>,
    pub redirect_uri: Option<String>,
    pub code_verifier: Option<String>,
    /// Space-separated scopes.
    pub scope: Option<String>,
}

/// An issued access token.
#[derive(Debug, Clone)]
pub struct TokenResponse {
    pub access_token: String,
    /// Always `Bearer`.
    pub token_type: String,
    /// Seconds until the token expires.
    pub expires_in: u64,
    /// Space-separated granted scopes.
    pub scope: String,
}

/// A token introspection request, with an optional real-time check.
#[derive(Debug, Clone)]
pub struct IntrospectionRequest {
    pub token: String,
    pub resource: Option<String>,
    pub action: Option<String>,
    /// The JSON text of an optional context.
    pub context: Option<String>,
}

/// A permission check on Permit.io with a context.
#[derive(Debug, Clone)]
pub struct PermitCheckWithContextRequest {
    pub user: String,
    pub action: String,
    pub resource: String,
    /// The JSON text of the context.
    pub context: Option<String>,
}

/// The answer to an introspection.
#[derive(Debug, Clone)]
pub struct IntrospectionResponse {
    pub active: bool,
    pub client_id: Option<String>,
    pub scope: Option<String>,
    pub exp: Option<u64>,
    pub iat: Option<u64>,
    pub iss: Option<String>,
    pub allowed: Option<bool>,
}

/// An error of the token and introspection endpoints.
#[derive(Debug, Clone)]
pub struct OAuthError {
    pub error: String,
    pub error_description: Option<String>,
}

/// An access token as the cache keeps it.
#[derive(Debug, Clone)]
pub struct StoredToken {
    /// The user (subject) that owns the token.
    pub user_id: String,
    pub client_id: String,
    pub requested_scopes: Vec<String>,
    /// Unix time of expiry.
    pub expires_at: u64,
    /// Unix time of issue.
    pub issued_at: u64,
}

/// An authorization code as the cache keeps it.
#[derive(Debug, Clone)]
pub struct StoredAuthorizationCode {
    pub user_id: String,
    pub client_id: String,
    /// Must match the token request.
    pub redirect_uri: String,
    pub requested_scopes: Vec<String>,
    pub code_challenge: Option<String>,
    pub code_challenge_method: Option<String>,
    pub expires_at: u64,
    pub issued_at: u64,
}

/// A login of a user.
#[derive(Debug, Clone)]
pub struct UserAuthenticationRequest {
    pub username: String,
    pub password: String,
}

/// The outcome of a login.
#[derive(Debug, Clone)]
pub struct UserAuthenticationResponse {
    pub authenticated: bool,
    pub user_id: Option<String>,
    pub error: Option<String>,
}

/// A user or client as Permit.io describes it.
#[derive(Debug, Clone)]
pub struct PermitUser {
    pub id: String,
    pub email: Option<String>,
    pub first_name: Option<String>,
    pub last_name: Option<String>,
    pub attributes: Option<JsonMap>,
}

/// A permission check on Permit.io.
#[derive(Debug, Clone)]
pub struct PermitCheckRequest {
    pub user: String,
    pub action: String,
    pub resource: String,
}

/// The answer to a permission check on Permit.io.
#[derive(Debug, Clone)]
pub struct PermitCheckResponse {
    pub allow: bool,
}

/// A bulk permission check on Permit.io.
#[derive(Debug, Clone)]
pub struct PermitBulkCheckRequest {
    pub user: String,
    pub resource_types: Vec<String>,
}

/// The answer to a bulk check: per resource type, per action, allowed.
#[derive(Debug, Clone)]
pub struct PermitBulkCheckResponse {
    pub checks: StrMap<StrMap<bool>>,
}

/// `e` has the code and the description given.
pub open spec fn oauth_error_is(e: OAuthError, code: Seq<char>, description: Seq<char>) -> bool {
    e.error@ == code && (e.error_description matches Some(d) && d@ == description)
}

impl OAuthError {
    /// `invalid_request` with a description.
    pub fn invalid_request(description: &str) -> (e: OAuthError)
        ensures
            oauth_error_is(e, "invalid_request"@, description@),
    {
        OAuthError {
            error: "invalid_request".to_owned(),
            error_description: Some(description.to_owned()),
        }
    }

    /// `invalid_client` with a description.
    pub fn invalid_client(description: &str) -> (e: OAuthError)
        ensures
            oauth_error_is(e, "invalid_client"@, description@),
    {
        OAuthError {
            error: "invalid_client".to_owned(),
            error_description: Some(description.to_owned()),
        }
    }

    /// `invalid_grant` with a description.
    pub fn invalid_grant(description: &str) -> (e: OAuthError)
        ensures
            oauth_error_is(e, "invalid_grant"@, description@),
    {
        OAuthError {
            error: "invalid_grant".to_owned(),
            error_description: Some(description.to_owned()),
        }
    }

    /// `unsupported_grant_type`, naming the supported grants.
    pub fn unsupported_grant_type() -> (e: OAuthError)
        ensures
            oauth_error_is(
                e,
                "unsupported_grant_type"@,
                "Supported grant types: authorization_code, client_credentials"@,
            ),
    {
        OAuthError {
            error: "unsupported_grant_type".to_owned(),
            error_description: Some(
                "Supported grant types: authorization_code, client_credentials".to_owned(),
            ),
        }
    }

    /// `unsupported_response_type`: only `code` is supported.
    pub fn unsupported_response_type() -> (e: OAuthError)
        ensures
            oauth_error_is(
                e,
                "unsupported_response_type"@,
                "Only 'code' response type is supported"@,
            ),
    {
        OAuthError {
            error: "unsupported_response_type".to_owned(),
            error_description: Some("Only 'code' response type is supported".to_owned()),
        }
    }

    /// `access_denied` with a description.
    pub fn access_denied(description: &str) -> (e: OAuthError)
        ensures
            oauth_error_is(e, "access_denied"@, description@),
    {
        OAuthError {
            error: "access_denied".to_owned(),
            error_description: Some(description.to_owned()),
        }
    }

    /// `server_error` with a description.
    pub fn server_error(description: &str) -> (e: OAuthError)
        ensures
            oauth_error_is(e, "server_error"@, description@),
    {
        OAuthError {
            error: "server_error".to_owned(),
            error_description: Some(description.to_owned()),
        }
    }
}

/// `e` has the code, the description and the state given.
pub open spec fn authorization_error_is(
    e: AuthorizationError,
    code: Seq<char>,
    description: Seq<char>,
    state: Option<String>,
) -> bool {
    &&& e.error@ == code
    &&& (e.error_description matches Some(d) && d@ == description)
    &&& e.state == state
}

impl AuthorizationError {
    /// `invalid_request` with a description, echoing the state.
    pub fn invalid_request(description: &str, state: Option<String>) -> (e: AuthorizationError)
        ensures
            authorization_error_is(e, "invalid_request"@, description@, state),
    {
        AuthorizationError {
            error: "invalid_request".to_owned(),
            error_description: Some(description.to_owned()),
            state,
        }
    }

    /// `unsupported_response_type`, echoing the state.
    pub fn unsupported_response_type(state: Option<String>) -> (e: AuthorizationError)
        ensures
            authorization_error_is(
                e,
                "unsupported_response_type"@,
                "Only 'code' response type is supported"@,
                state,
            ),
    {
        AuthorizationError {
            error: "unsupported_response_type".to_owned(),
            error_description: Some("Only 'code' response type is supported".to_owned()),
            state,
        }
    }

    /// `access_denied` with a description, echoing the state.
    pub fn access_denied(description: &str, state: Option<String>) -> (e: AuthorizationError)
        ensures
            authorization_error_is(e, "access_denied"@, description@, state),
    {
        AuthorizationError {
            error: "access_denied".to_owned(),
            error_description: Some(description.to_owned()),
            state,
        }
    }

    /// `server_error` with a description, echoing the state.
    pub fn server_error(description: &str, state: Option<String>) -> (e: AuthorizationError)
        ensures
            authorization_error_is(e, "server_error"@, description@, state),
    {
        AuthorizationError {
            error: "server_error".to_owned(),
            error_description: Some(description.to_owned()),
            state,
        }
    }
}

} // verus!
