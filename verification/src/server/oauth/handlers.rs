//! The decisions of the OAuth 2.0 endpoints: which answer a request gets
//! at each step. The caller performs the steps between them (looking users
//! up on Permit.io, reading and writing the token cache) and hands their
//! outcomes back.

use crate::server::oauth::models::{
    authorization_error_is, oauth_error_is, AuthorizationError, AuthorizationRequest,
    IntrospectionRequest, IntrospectionResponse, OAuthError, PermitUser, StoredAuthorizationCode,
    StoredToken, TokenRequest, TokenResponse,
};
use crate::server::oauth::permit_client::{PermitClient, PermitError};
use crate::server::oauth::token_manager::TokenError;
use crate::strmap::StrMap;
use crate::text::{
    concat2, join, join_spec, split_whitespace, str_eq, string_views, words_spec,
};
use vstd::prelude::*;
use vstd::string::*;

verus! {

/// Whether a text parses as an absolute URL.
pub uninterp spec fn url_is_valid(s: Seq<char>) -> bool;

/// The URL that a valid URL becomes with the pairs appended to its query.
pub uninterp spec fn url_with_query_text(url: Seq<char>, pairs: Seq<(Seq<char>, Seq<char>)>) -> Seq<char>;

/// Whether `url::Url::parse` accepts the text. The contract claims only
/// that the answer is a function of the text, named `url_is_valid`.
#[verifier::external_body]
fn url_parses(s: &str) -> (r: bool)
    ensures
        r == url_is_valid(s@),
{
    url::Url::parse(s).is_ok()
}

/// The pairs as texts.
pub open spec fn pair_views(pairs: Seq<(String, String)>) -> Seq<(Seq<char>, Seq<char>)> {
    pairs.map_values(|p: (String, String)| (p.0@, p.1@))
}

/// Parses `url` with `url::Url::parse` and appends the pairs to its query
/// with `query_pairs_mut().extend_pairs`, giving the serialised URL. The
/// contract claims that the result exists exactly when the URL parses, and
/// is a function of the URL and the pairs, named `url_with_query_text`.
#[verifier::external_body]
fn url_with_query(url: &str, pairs: &Vec<(String, String)>) -> (r: Option<String>)
    ensures
        r is Some <==> url_is_valid(url@),
        r matches Some(t) ==> t@ == url_with_query_text(url@, pair_views(pairs@)),
{
    let mut u = url::Url::parse(url).ok()?;
    u.query_pairs_mut().extend_pairs(pairs.iter().map(|p| (p.0.as_str(), p.1.as_str())));
    Some(u.as_str().to_owned())
}

/// The answer of an OAuth endpoint.
#[derive(Debug)]
pub enum OAuthResponse {
    /// A redirect to the URL.
    Redirect(String),
    /// A JSON error with the status.
    Error(u16, OAuthError),
    /// A JSON authorization error with the status.
    AuthorizationFailure(u16, AuthorizationError),
    /// An HTML page (status 200).
    Html(String),
    /// An issued token (status 200).
    Token(TokenResponse),
    /// An introspection result (status 200).
    Introspection(IntrospectionResponse),
}

/// The query pairs of an authorization error: the code, the description
/// (empty if none) and the state if there is one.
pub open spec fn error_pairs(e: AuthorizationError) -> Seq<(Seq<char>, Seq<char>)> {
    seq![
        ("error"@, e.error@),
        ("error_description"@, match e.error_description {
            Some(d) => d@,
            None => Seq::empty(),
        }),
    ] + match e.state {
        Some(s) => seq![("state"@, s@)],
        None => Seq::empty(),
    }
}

/// `r` is the answer that redirects an authorization error to `uri`: a
/// redirect to the URI with the error in its query, or, when the URI is
/// not a URL, a 400 `invalid_request` error.
pub open spec fn redirects_error(r: OAuthResponse, uri: Seq<char>, e: AuthorizationError) -> bool {
    if url_is_valid(uri) {
        r matches OAuthResponse::Redirect(t) && t@ == url_with_query_text(uri, error_pairs(e))
    } else {
        r matches OAuthResponse::Error(400, err) && oauth_error_is(
            err,
            "invalid_request"@,
            "Invalid redirect_uri"@,
        )
    }
}

/// Redirects an authorization error to the client's redirect URI.
pub fn redirect_with_error(redirect_uri: &str, error: AuthorizationError) -> (r: OAuthResponse)
    ensures
        redirects_error(r, redirect_uri@, error),
{
    let mut pairs: Vec<(String, String)> = Vec::new();
    pairs.push(("error".to_owned(), error.error.clone()));
    let description = match &error.error_description {
        Some(d) => d.clone(),
        None => String::new(),
    };
    pairs.push(("error_description".to_owned(), description));
    if let Some(s) = &error.state {
        pairs.push(("state".to_owned(), s.clone()));
    }
    assert(pair_views(pairs@) =~= error_pairs(error));
    match url_with_query(redirect_uri, &pairs) {
        Some(t) => OAuthResponse::Redirect(t),
        None => OAuthResponse::Error(400, OAuthError::invalid_request("Invalid redirect_uri")),
    }
}

/// The text of an optional value, or a default.
pub open spec fn or_text(o: Option<String>, d: Seq<char>) -> Seq<char> {
    match o {
        Some(s) => s@,
        None => d,
    }
}

fn or_str<'a>(o: &'a Option<String>, d: &'a str) -> (r: &'a str)
    ensures
        r@ == or_text(*o, d@),
{
    match o {
        Some(s) => s.as_str(),
        None => d,
    }
}

/// The step of an authorization request that needs no lookup: disabled
/// OAuth, a response type other than `code`, a missing client or redirect
/// URI are redirected errors; a redirect URI that is not a URL is a 400
/// error. `None` means the client must be looked up next.
pub fn authorize_precheck(enabled: bool, request: &AuthorizationRequest) -> (r: Option<OAuthResponse>)
    ensures
        !enabled ==> (r matches Some(resp) && exists|e: AuthorizationError|
            authorization_error_is(e, "server_error"@, "OAuth 2.0 service is disabled"@, request.state)
                && redirects_error(resp, request.redirect_uri@, e)),
        enabled && request.response_type@ != "code"@ ==> (r matches Some(resp) && exists|
            e: AuthorizationError,
        |
            authorization_error_is(
                e,
                "unsupported_response_type"@,
                "Only 'code' response type is supported"@,
                request.state,
            ) && redirects_error(resp, request.redirect_uri@, e)),
        enabled && request.response_type@ == "code"@ && (request.client_id@.len() == 0
            || request.redirect_uri@.len() == 0) ==> (r matches Some(resp) && exists|
            e: AuthorizationError,
        |
            authorization_error_is(
                e,
                "invalid_request"@,
                "client_id and redirect_uri are required"@,
                request.state,
            ) && redirects_error(resp, request.redirect_uri@, e)),
        enabled && request.response_type@ == "code"@ && request.client_id@.len() > 0
            && request.redirect_uri@.len() > 0 && !url_is_valid(request.redirect_uri@) ==> (r
            matches Some(OAuthResponse::AuthorizationFailure(400, e)) && authorization_error_is(
            e,
            "invalid_request"@,
            "Invalid redirect_uri format"@,
            request.state,
        )),
        r is None <==> (enabled && request.response_type@ == "code"@ && request.client_id@.len()
            > 0 && request.redirect_uri@.len() > 0 && url_is_valid(request.redirect_uri@)),
{
    if !enabled {
        let e = AuthorizationError::server_error("OAuth 2.0 service is disabled", request.state.clone());
        return Some(redirect_with_error(request.redirect_uri.as_str(), e));
    }
    if !str_eq(request.response_type.as_str(), "code") {
        let e = AuthorizationError::unsupported_response_type(request.state.clone());
        return Some(redirect_with_error(request.redirect_uri.as_str(), e));
    }
    if request.client_id.as_str().unicode_len() == 0 || request.redirect_uri.as_str().unicode_len()
        == 0 {
        let e = AuthorizationError::invalid_request(
            "client_id and redirect_uri are required",
            request.state.clone(),
        );
        return Some(redirect_with_error(request.redirect_uri.as_str(), e));
    }
    if !url_parses(request.redirect_uri.as_str()) {
        return Some(
            OAuthResponse::AuthorizationFailure(
                400,
                AuthorizationError::invalid_request(
                    "Invalid redirect_uri format",
                    request.state.clone(),
                ),
            ),
        );
    }
    None
}

/// The login form that an authorization request receives.
pub open spec fn login_form_text(
    client_id: Seq<char>,
    scope_text: Seq<char>,
    client_id2: Seq<char>,
    redirect_uri: Seq<char>,
    scope: Seq<char>,
    state: Seq<char>,
    code_challenge: Seq<char>,
    code_challenge_method: Seq<char>,
) -> Seq<char> {
    "\n        <!DOCTYPE html>\n        <html>\n        <head>\n            <title>OAuth 2.0 Authorization</title>\n            <style>\n                body { font-family: Arial, sans-serif; max-width: 400px; margin: 50px auto; padding: 20px; }\n                .form-group { margin-bottom: 15px; }\n                label { display: block; margin-bottom: 5px; }\n                input { width: 100%; padding: 8px; border: 1px solid #ddd; border-radius: 4px; }\n                button { background: #007bff; color: white; padding: 10px 20px; border: none; border-radius: 4px; cursor: pointer; }\n                button:hover { background: #0056b3; }\n                .scope-list { background: #f8f9fa; padding: 10px; border-radius: 4px; margin: 10px 0; }\n            </style>\n        </head>\n        <body>\n            <h2>Authorization Required</h2>\n            <p>Application <strong>"@
        + client_id
        + "</strong> is requesting access to your account.</p>\n            \n            <div class=\"scope-list\">\n                <strong>Requested permissions:</strong><br>\n                "@
        + scope_text
        + "\n            </div>\n\n            <form method=\"post\" action=\"/oauth/authenticate\">\n                <input type=\"hidden\" name=\"client_id\" value=\""@
        + client_id2
        + "\">\n                <input type=\"hidden\" name=\"redirect_uri\" value=\""@
        + redirect_uri
        + "\">\n                <input type=\"hidden\" name=\"scope\" value=\""@
        + scope
        + "\">\n                <input type=\"hidden\" name=\"state\" value=\""@
        + state
        + "\">\n                <input type=\"hidden\" name=\"code_challenge\" value=\""@
        + code_challenge
        + "\">\n                <input type=\"hidden\" name=\"code_challenge_method\" value=\""@
        + code_challenge_method
        + "\">\n                \n                <div class=\"form-group\">\n                    <label for=\"username\">Username:</label>\n                    <input type=\"text\" id=\"username\" name=\"username\" required>\n                </div>\n                \n                <div class=\"form-group\">\n                    <label for=\"password\">Password:</label>\n                    <input type=\"password\" id=\"password\" name=\"password\" required>\n                </div>\n                \n                <button type=\"submit\" name=\"action\" value=\"authorize\">Authorize</button>\n                <button type=\"submit\" name=\"action\" value=\"deny\">Deny</button>\n            </form>\n        </body>\n        </html>\n        "@
}

/// The login form that an authorization request receives.
fn login_form(
    client_id: &str,
    scope_text: &str,
    client_id2: &str,
    redirect_uri: &str,
    scope: &str,
    state: &str,
    code_challenge: &str,
    code_challenge_method: &str,
) -> (s: String)
    ensures
        s@ == login_form_text(client_id@, scope_text@, client_id2@, redirect_uri@, scope@, state@, code_challenge@, code_challenge_method@),
{
    let mut s = "\n        <!DOCTYPE html>\n        <html>\n        <head>\n            <title>OAuth 2.0 Authorization</title>\n            <style>\n                body { font-family: Arial, sans-serif; max-width: 400px; margin: 50px auto; padding: 20px; }\n                .form-group { margin-bottom: 15px; }\n                label { display: block; margin-bottom: 5px; }\n                input { width: 100%; padding: 8px; border: 1px solid #ddd; border-radius: 4px; }\n                button { background: #007bff; color: white; padding: 10px 20px; border: none; border-radius: 4px; cursor: pointer; }\n                button:hover { background: #0056b3; }\n                .scope-list { background: #f8f9fa; padding: 10px; border-radius: 4px; margin: 10px 0; }\n            </style>\n        </head>\n        <body>\n            <h2>Authorization Required</h2>\n            <p>Application <strong>".to_owned();
    s.append(client_id);
    s.append("</strong> is requesting access to your account.</p>\n            \n            <div class=\"scope-list\">\n                <strong>Requested permissions:</strong><br>\n                ");
    s.append(scope_text);
    s.append("\n            </div>\n\n            <form method=\"post\" action=\"/oauth/authenticate\">\n                <input type=\"hidden\" name=\"client_id\" value=\"");
    s.append(client_id2);
    s.append("\">\n                <input type=\"hidden\" name=\"redirect_uri\" value=\"");
    s.append(redirect_uri);
    s.append("\">\n                <input type=\"hidden\" name=\"scope\" value=\"");
    s.append(scope);
    s.append("\">\n                <input type=\"hidden\" name=\"state\" value=\"");
    s.append(state);
    s.append("\">\n                <input type=\"hidden\" name=\"code_challenge\" value=\"");
    s.append(code_challenge);
    s.append("\">\n                <input type=\"hidden\" name=\"code_challenge_method\" value=\"");
    s.append(code_challenge_method);
    s.append("\">\n                \n                <div class=\"form-group\">\n                    <label for=\"username\">Username:</label>\n                    <input type=\"text\" id=\"username\" name=\"username\" required>\n                </div>\n                \n                <div class=\"form-group\">\n                    <label for=\"password\">Password:</label>\n                    <input type=\"password\" id=\"password\" name=\"password\" required>\n                </div>\n                \n                <button type=\"submit\" name=\"action\" value=\"authorize\">Authorize</button>\n                <button type=\"submit\" name=\"action\" value=\"deny\">Deny</button>\n            </form>\n        </body>\n        </html>\n        ");
    s
}


/// The answer to an authorization request once the client was looked up:
/// a failed lookup and an unknown client are redirected errors; a known
/// client gets the login form.
pub fn authorize_after_client_check(
    request: &AuthorizationRequest,
    client_valid: Result<bool, PermitError>,
) -> (r: OAuthResponse)
    ensures
        client_valid is Err ==> exists|e: AuthorizationError|
            authorization_error_is(e, "server_error"@, "Failed to validate client"@, request.state)
                && redirects_error(r, request.redirect_uri@, e),
        client_valid == Ok::<bool, PermitError>(false) ==> exists|e: AuthorizationError|
            authorization_error_is(e, "invalid_request"@, "Invalid client_id"@, request.state)
                && redirects_error(r, request.redirect_uri@, e),
        client_valid == Ok::<bool, PermitError>(true) ==> (r matches OAuthResponse::Html(page)
            && page@ == login_form_text(
            request.client_id@,
            or_text(request.scope, "No specific scopes requested"@),
            request.client_id@,
            request.redirect_uri@,
            or_text(request.scope, Seq::empty()),
            or_text(request.state, Seq::empty()),
            or_text(request.code_challenge, Seq::empty()),
            or_text(request.code_challenge_method, Seq::empty()),
        )),
{
    match client_valid {
        Err(_) => {
            let e = AuthorizationError::server_error("Failed to validate client", request.state.clone());
            redirect_with_error(request.redirect_uri.as_str(), e)
        },
        Ok(false) => {
            let e = AuthorizationError::invalid_request("Invalid client_id", request.state.clone());
            redirect_with_error(request.redirect_uri.as_str(), e)
        },
        Ok(true) => {
            proof {
                reveal_strlit("");
            }
            OAuthResponse::Html(
                login_form(
                    request.client_id.as_str(),
                    or_str(&request.scope, "No specific scopes requested"),
                    request.client_id.as_str(),
                    request.redirect_uri.as_str(),
                    or_str(&request.scope, ""),
                    or_str(&request.state, ""),
                    or_str(&request.code_challenge, ""),
                    or_str(&request.code_challenge_method, ""),
                ),
            )
        },
    }
}

/// The fields of a submitted login form; missing fields are empty, missing
/// optional fields absent.
#[derive(Debug, Clone)]
pub struct LoginForm {
    pub action: String,
    pub client_id: String,
    pub redirect_uri: String,
    pub scope: Option<String>,
    pub state: Option<String>,
    pub code_challenge: Option<String>,
    pub code_challenge_method: Option<String>,
    pub username: String,
    pub password: String,
}

/// The value of a form field, if present.
pub open spec fn field(params: Map<Seq<char>, String>, name: Seq<char>) -> Option<String> {
    if params.contains_key(name) {
        Some(params[name])
    } else {
        None
    }
}

fn get_field(params: &StrMap<String>, name: &str) -> (r: Option<String>)
    requires
        params.wf(),
    ensures
        r == field(params@, name@),
{
    match params.get(name) {
        Some(v) => Some(v.clone()),
        None => None,
    }
}

fn get_text_field(params: &StrMap<String>, name: &str) -> (r: String)
    requires
        params.wf(),
    ensures
        r@ == or_text(field(params@, name@), Seq::empty()),
{
    match params.get(name) {
        Some(v) => v.clone(),
        None => String::new(),
    }
}

impl LoginForm {
    /// The fields of the submitted parameters.
    pub fn from_params(params: &StrMap<String>) -> (f: LoginForm)
        requires
            params.wf(),
        ensures
            f.action@ == or_text(field(params@, "action"@), Seq::empty()),
            f.client_id@ == or_text(field(params@, "client_id"@), Seq::empty()),
            f.redirect_uri@ == or_text(field(params@, "redirect_uri"@), Seq::empty()),
            f.scope == field(params@, "scope"@),
            f.state == field(params@, "state"@),
            f.code_challenge == field(params@, "code_challenge"@),
            f.code_challenge_method == field(params@, "code_challenge_method"@),
            f.username@ == or_text(field(params@, "username"@), Seq::empty()),
            f.password@ == or_text(field(params@, "password"@), Seq::empty()),
    {
        LoginForm {
            action: get_text_field(params, "action"),
            client_id: get_text_field(params, "client_id"),
            redirect_uri: get_text_field(params, "redirect_uri"),
            scope: get_field(params, "scope"),
            state: get_field(params, "state"),
            code_challenge: get_field(params, "code_challenge"),
            code_challenge_method: get_field(params, "code_challenge_method"),
            username: get_text_field(params, "username"),
            password: get_text_field(params, "password"),
        }
    }
}

/// The step of a login that needs no lookup: a denial, or missing
/// credentials, is a redirected error. `None` means the user must be
/// authenticated next.
pub fn authenticate_precheck(form: &LoginForm) -> (r: Option<OAuthResponse>)
    ensures
        form.action@ == "deny"@ ==> (r matches Some(resp) && exists|e: AuthorizationError|
            authorization_error_is(e, "access_denied"@, "User denied authorization"@, form.state)
                && redirects_error(resp, form.redirect_uri@, e)),
        form.action@ != "deny"@ && (form.username@.len() == 0 || form.password@.len() == 0) ==> (r
            matches Some(resp) && exists|e: AuthorizationError|
            authorization_error_is(
                e,
                "invalid_request"@,
                "Username and password are required"@,
                form.state,
            ) && redirects_error(resp, form.redirect_uri@, e)),
        r is None <==> (form.action@ != "deny"@ && form.username@.len() > 0 && form.password@.len()
            > 0),
{
    if str_eq(form.action.as_str(), "deny") {
        let e = AuthorizationError::access_denied("User denied authorization", form.state.clone());
        return Some(redirect_with_error(form.redirect_uri.as_str(), e));
    }
    if form.username.as_str().unicode_len() == 0 || form.password.as_str().unicode_len() == 0 {
        let e = AuthorizationError::invalid_request(
            "Username and password are required",
            form.state.clone(),
        );
        return Some(redirect_with_error(form.redirect_uri.as_str(), e));
    }
    None
}

/// The step of a login after authenticating the user: bad credentials or
/// an unknown user are a redirected `access_denied`, other failures a
/// redirected `server_error`.
pub fn authenticate_after_login(form: &LoginForm, user: Result<PermitUser, PermitError>) -> (r:
    Result<PermitUser, OAuthResponse>)
    ensures
        user matches Ok(u) ==> r == Ok::<PermitUser, OAuthResponse>(u),
        (user matches Err(PermitError::InvalidCredentials)) || (user matches Err(
            PermitError::UserNotFound(_),
        )) ==> (r matches Err(resp) && exists|e: AuthorizationError|
            authorization_error_is(e, "access_denied"@, "Invalid username or password"@, form.state)
                && redirects_error(resp, form.redirect_uri@, e)),
        user is Err && !(user matches Err(PermitError::InvalidCredentials)) && !(user matches Err(
            PermitError::UserNotFound(_),
        )) ==> (r matches Err(resp) && exists|e: AuthorizationError|
            authorization_error_is(e, "server_error"@, "Authentication failed"@, form.state)
                && redirects_error(resp, form.redirect_uri@, e)),
{
    match user {
        Ok(u) => Ok(u),
        Err(PermitError::InvalidCredentials) | Err(PermitError::UserNotFound(_)) => {
            let e = AuthorizationError::access_denied(
                "Invalid username or password",
                form.state.clone(),
            );
            Err(redirect_with_error(form.redirect_uri.as_str(), e))
        },
        Err(_) => {
            let e = AuthorizationError::server_error("Authentication failed", form.state.clone());
            Err(redirect_with_error(form.redirect_uri.as_str(), e))
        },
    }
}

/// The scopes a login asks for: the words of its scope field.
pub fn requested_scopes(scope: &Option<String>) -> (r: Vec<String>)
    ensures
        string_views(r@) == match scope {
            Some(s) => words_spec(s@),
            None => Seq::<Seq<char>>::empty(),
        },
{
    match scope {
        Some(s) => split_whitespace(s.as_str()),
        None => {
            let r: Vec<String> = Vec::new();
            assert(string_views(r@) =~= Seq::<Seq<char>>::empty());
            r
        },
    }
}

/// The query pairs that carry an authorization code back: the code, and
/// the state if there is one.
pub open spec fn code_pairs(code: Seq<char>, state: Option<String>) -> Seq<(Seq<char>, Seq<char>)> {
    seq![("code"@, code)] + match state {
        Some(s) => seq![("state"@, s@)],
        None => Seq::empty(),
    }
}

/// The answer to a login once its code was issued: a redirect carrying the
/// code and the state, or a redirected `server_error`. The redirect URI of
/// a login that reaches this step must be a URL.
pub fn authenticate_after_code(form: &LoginForm, code: Result<String, TokenError>) -> (r:
    OAuthResponse)
    requires
        code is Ok ==> url_is_valid(form.redirect_uri@),
    ensures
        match code {
            Ok(c) => r matches OAuthResponse::Redirect(t) && t@ == url_with_query_text(
                form.redirect_uri@,
                code_pairs(c@, form.state),
            ),
            Err(_) => exists|e: AuthorizationError|
                authorization_error_is(
                    e,
                    "server_error"@,
                    "Failed to generate authorization code"@,
                    form.state,
                ) && redirects_error(r, form.redirect_uri@, e),
        },
{
    match code {
        Err(_) => {
            let e = AuthorizationError::server_error(
                "Failed to generate authorization code",
                form.state.clone(),
            );
            redirect_with_error(form.redirect_uri.as_str(), e)
        },
        Ok(c) => {
            let ghost cv = c@;
            let mut pairs: Vec<(String, String)> = Vec::new();
            pairs.push(("code".to_owned(), c));
            if let Some(s) = &form.state {
                pairs.push(("state".to_owned(), s.clone()));
            }
            assert(pair_views(pairs@) =~= code_pairs(cv, form.state));
            match url_with_query(form.redirect_uri.as_str(), &pairs) {
                Some(t) => OAuthResponse::Redirect(t),
                None => OAuthResponse::Error(400, OAuthError::invalid_request("Invalid redirect_uri")),
            }
        },
    }
}

/// The answer to a login once its code was issued, where the redirect URI
/// is a URL; `None` where it is not and a code was issued, a request the
/// server does not answer.
pub fn authenticate_redirect(form: &LoginForm, code: Result<String, TokenError>) -> (r: Option<
    OAuthResponse,
>)
    ensures
        r is None <==> (code is Ok && !url_is_valid(form.redirect_uri@)),
        match (r, code) {
            (Some(resp), Ok(c)) => resp matches OAuthResponse::Redirect(t) && t@
                == url_with_query_text(form.redirect_uri@, code_pairs(c@, form.state)),
            (Some(resp), Err(_)) => exists|e: AuthorizationError|
                authorization_error_is(
                    e,
                    "server_error"@,
                    "Failed to generate authorization code"@,
                    form.state,
                ) && redirects_error(resp, form.redirect_uri@, e),
            (None, _) => true,
        },
{
    if code.is_ok() && !url_parses(form.redirect_uri.as_str()) {
        return None;
    }
    Some(authenticate_after_code(form, code))
}

/// The flow a token request asks for.
#[derive(Debug, Clone, Copy, PartialEq, Eq, Structural)]
pub enum GrantFlow {
    AuthorizationCode,
    ClientCredentials,
}

/// The step of a token request that needs no lookup: disabled OAuth is a
/// 503 `server_error`, missing client credentials a 400 `invalid_request`,
/// an unknown grant type a 400 `unsupported_grant_type`; otherwise the flow.
pub fn token_precheck(enabled: bool, request: &TokenRequest) -> (r: Result<GrantFlow, OAuthResponse>)
    ensures
        !enabled ==> (r matches Err(OAuthResponse::Error(503, e)) && oauth_error_is(
            e,
            "server_error"@,
            "OAuth 2.0 service is disabled"@,
        )),
        enabled && (request.client_id@.len() == 0 || request.client_secret@.len() == 0) ==> (r
            matches Err(OAuthResponse::Error(400, e)) && oauth_error_is(
            e,
            "invalid_request"@,
            "client_id and client_secret are required"@,
        )),
        enabled && request.client_id@.len() > 0 && request.client_secret@.len() > 0 ==> (if request.grant_type@
            == "authorization_code"@ {
            r == Ok::<GrantFlow, OAuthResponse>(GrantFlow::AuthorizationCode)
        } else if request.grant_type@ == "client_credentials"@ {
            r == Ok::<GrantFlow, OAuthResponse>(GrantFlow::ClientCredentials)
        } else {
            r matches Err(OAuthResponse::Error(400, e)) && oauth_error_is(
                e,
                "unsupported_grant_type"@,
                "Supported grant types: authorization_code, client_credentials"@,
            )
        }),
{
    if !enabled {
        return Err(OAuthResponse::Error(503, OAuthError::server_error("OAuth 2.0 service is disabled")));
    }
    if request.client_id.as_str().unicode_len() == 0 || request.client_secret.as_str().unicode_len()
        == 0 {
        return Err(
            OAuthResponse::Error(
                400,
                OAuthError::invalid_request("client_id and client_secret are required"),
            ),
        );
    }
    if str_eq(request.grant_type.as_str(), "authorization_code") {
        Ok(GrantFlow::AuthorizationCode)
    } else if str_eq(request.grant_type.as_str(), "client_credentials") {
        Ok(GrantFlow::ClientCredentials)
    } else {
        Err(OAuthResponse::Error(400, OAuthError::unsupported_grant_type()))
    }
}

/// The code and redirect URI of an authorization-code token request; a
/// missing one is a 400 `invalid_request`.
pub fn code_flow_params(request: &TokenRequest) -> (r: Result<(String, String), OAuthResponse>)
    ensures
        request.code is None ==> (r matches Err(OAuthResponse::Error(400, e)) && oauth_error_is(
            e,
            "invalid_request"@,
            "code parameter is required for authorization_code grant"@,
        )),
        request.code is Some && request.redirect_uri is None ==> (r matches Err(
            OAuthResponse::Error(400, e),
        ) && oauth_error_is(
            e,
            "invalid_request"@,
            "redirect_uri parameter is required for authorization_code grant"@,
        )),
        request.code is Some && request.redirect_uri is Some ==> r == Ok::<
            (String, String),
            OAuthResponse,
        >((request.code->0, request.redirect_uri->0)),
{
    let code = match &request.code {
        Some(c) => c.clone(),
        None => {
            return Err(
                OAuthResponse::Error(
                    400,
                    OAuthError::invalid_request(
                        "code parameter is required for authorization_code grant",
                    ),
                ),
            );
        },
    };
    let uri = match &request.redirect_uri {
        Some(u) => u.clone(),
        None => {
            return Err(
                OAuthResponse::Error(
                    400,
                    OAuthError::invalid_request(
                        "redirect_uri parameter is required for authorization_code grant",
                    ),
                ),
            );
        },
    };
    Ok((code, uri))
}

/// The step of an authorization-code token request after its code was
/// checked: an unknown or expired code, a redirect mismatch and a PKCE
/// failure are 400 `invalid_grant`; other failures a 500 `server_error`.
pub fn code_flow_after_validation(result: Result<StoredAuthorizationCode, TokenError>) -> (r: Result<
    StoredAuthorizationCode,
    OAuthResponse,
>)
    ensures
        match result {
            Ok(c) => r == Ok::<StoredAuthorizationCode, OAuthResponse>(c),
            Err(TokenError::CodeNotFound) => r matches Err(OAuthResponse::Error(400, e))
                && oauth_error_is(e, "invalid_grant"@, "Invalid or expired authorization code"@),
            Err(TokenError::RedirectUriMismatch) => r matches Err(OAuthResponse::Error(400, e))
                && oauth_error_is(
                e,
                "invalid_grant"@,
                "redirect_uri does not match authorization request"@,
            ),
            Err(TokenError::PkceValidation(m)) => r matches Err(OAuthResponse::Error(400, e))
                && oauth_error_is(e, "invalid_grant"@, "PKCE validation failed: "@ + m@),
            Err(_) => r matches Err(OAuthResponse::Error(500, e)) && oauth_error_is(
                e,
                "server_error"@,
                "Failed to validate authorization code"@,
            ),
        },
{
    match result {
        Ok(c) => Ok(c),
        Err(TokenError::CodeNotFound) => Err(
            OAuthResponse::Error(
                400,
                OAuthError::invalid_grant("Invalid or expired authorization code"),
            ),
        ),
        Err(TokenError::RedirectUriMismatch) => Err(
            OAuthResponse::Error(
                400,
                OAuthError::invalid_grant("redirect_uri does not match authorization request"),
            ),
        ),
        Err(TokenError::PkceValidation(m)) => {
            let d = concat2("PKCE validation failed: ", m.as_str());
            Err(OAuthResponse::Error(400, OAuthError::invalid_grant(d.as_str())))
        },
        Err(_) => Err(
            OAuthResponse::Error(
                500,
                OAuthError::server_error("Failed to validate authorization code"),
            ),
        ),
    }
}

/// The answer once an access token was issued for some scopes: the token,
/// of type `Bearer`, with the token lifetime and the scopes joined by
/// spaces; a failure is a 500 `server_error`.
pub fn token_issued(
    issued: Result<(String, StoredToken), TokenError>,
    token_ttl: u64,
    scopes: &Vec<String>,
) -> (r: OAuthResponse)
    ensures
        match issued {
            Ok((t, _)) => r matches OAuthResponse::Token(resp) && resp.access_token == t
                && resp.token_type@ == "Bearer"@ && resp.expires_in == token_ttl && resp.scope@
                == join_spec(string_views(scopes@), " "@),
            Err(_) => r matches OAuthResponse::Error(500, e) && oauth_error_is(
                e,
                "server_error"@,
                "Failed to generate access token"@,
            ),
        },
{
    match issued {
        Ok((t, _)) => OAuthResponse::Token(
            TokenResponse {
                access_token: t,
                token_type: "Bearer".to_owned(),
                expires_in: token_ttl,
                scope: join(scopes, " "),
            },
        ),
        Err(_) => OAuthResponse::Error(500, OAuthError::server_error("Failed to generate access token")),
    }
}

/// The step of a client-credentials token request after the credentials
/// were checked: bad credentials or an unknown client are a 401
/// `invalid_client`, other failures a 500 `server_error`.
pub fn client_credentials_after_validation(user: Result<PermitUser, PermitError>) -> (r: Result<
    PermitUser,
    OAuthResponse,
>)
    ensures
        match user {
            Ok(u) => r == Ok::<PermitUser, OAuthResponse>(u),
            Err(PermitError::InvalidCredentials) => r matches Err(OAuthResponse::Error(401, e))
                && oauth_error_is(e, "invalid_client"@, "Invalid client credentials"@),
            Err(PermitError::UserNotFound(_)) => r matches Err(OAuthResponse::Error(401, e))
                && oauth_error_is(e, "invalid_client"@, "Invalid client credentials"@),
            Err(_) => r matches Err(OAuthResponse::Error(500, e)) && oauth_error_is(
                e,
                "server_error"@,
                "Failed to validate client credentials"@,
            ),
        },
{
    match user {
        Ok(u) => Ok(u),
        Err(PermitError::InvalidCredentials) | Err(PermitError::UserNotFound(_)) => Err(
            OAuthResponse::Error(401, OAuthError::invalid_client("Invalid client credentials")),
        ),
        Err(_) => Err(
            OAuthResponse::Error(500, OAuthError::server_error("Failed to validate client credentials")),
        ),
    }
}

/// The answer when the permissions of a client could not be fetched.
pub fn permissions_fetch_failed() -> (r: OAuthResponse)
    ensures
        r matches OAuthResponse::Error(500, e) && oauth_error_is(
            e,
            "server_error"@,
            "Failed to fetch user permissions"@,
        ),
{
    OAuthResponse::Error(500, OAuthError::server_error("Failed to fetch user permissions"))
}

/// The granted scopes that the request asks for, in order.
pub open spec fn filter_requested(granted: Seq<Seq<char>>, requested: Seq<Seq<char>>) -> Seq<
    Seq<char>,
>
    decreases granted.len(),
{
    if granted.len() == 0 {
        Seq::empty()
    } else {
        let prev = filter_requested(granted.drop_last(), requested);
        if requested.contains(granted.last()) {
            prev.push(granted.last())
        } else {
            prev
        }
    }
}

/// The scopes a client-credentials token gets: the granted ones, narrowed
/// to the words of the requested scope when the request gives one.
pub fn final_scopes(granted: Vec<String>, requested: &Option<String>) -> (r: Vec<String>)
    ensures
        string_views(r@) == match requested {
            Some(s) => filter_requested(string_views(granted@), words_spec(s@)),
            None => string_views(granted@),
        },
{
    let wanted = match requested {
        Some(s) => split_whitespace(s.as_str()),
        None => {
            return granted;
        },
    };
    let mut r: Vec<String> = Vec::new();
    let mut i: usize = 0;
    while i < granted.len()
        invariant
            i <= granted@.len(),
            string_views(r@) == filter_requested(
                string_views(granted@).subrange(0, i as int),
                string_views(wanted@),
            ),
        decreases granted@.len() - i,
    {
        let ghost gs = string_views(granted@).subrange(0, i + 1);
        assert(gs.drop_last() =~= string_views(granted@).subrange(0, i as int));
        assert(gs.last() == granted@[i as int]@);
        let ghost before = string_views(r@);
        if crate::text::contains_str(&wanted, granted[i].as_str()) {
            r.push(granted[i].clone());
            assert(string_views(r@) =~= before.push(granted@[i as int]@));
        }
        i = i + 1;
    }
    assert(string_views(granted@).subrange(0, granted@.len() as int) == string_views(granted@));
    r
}

/// The answer to an inactive token.
pub open spec fn inactive(resp: IntrospectionResponse) -> bool {
    &&& !resp.active
    &&& resp.client_id is None
    &&& resp.scope is None
    &&& resp.exp is None
    &&& resp.iat is None
    &&& resp.iss is None
    &&& resp.allowed is None
}

fn inactive_response() -> (r: IntrospectionResponse)
    ensures
        inactive(r),
{
    IntrospectionResponse {
        active: false,
        client_id: None,
        scope: None,
        exp: None,
        iat: None,
        iss: None,
        allowed: None,
    }
}

/// The step of an introspection that needs no lookup: an empty token is a
/// 400 `invalid_request`, and with OAuth disabled every token is inactive.
pub fn introspect_precheck(enabled: bool, request: &IntrospectionRequest) -> (r: Option<OAuthResponse>)
    ensures
        request.token@.len() == 0 ==> (r matches Some(OAuthResponse::Error(400, e))
            && oauth_error_is(e, "invalid_request"@, "token parameter is required"@)),
        request.token@.len() > 0 && !enabled ==> (r matches Some(OAuthResponse::Introspection(resp))
            && inactive(resp)),
        r is None <==> (request.token@.len() > 0 && enabled),
{
    if request.token.as_str().unicode_len() == 0 {
        return Some(OAuthResponse::Error(400, OAuthError::invalid_request("token parameter is required")));
    }
    if !enabled {
        return Some(OAuthResponse::Introspection(inactive_response()));
    }
    None
}

/// The step of an introspection after the token was checked: a token that
/// is not found is inactive, other failures a 500 `server_error`.
pub fn introspect_after_validation(result: Result<StoredToken, TokenError>) -> (r: Result<
    StoredToken,
    OAuthResponse,
>)
    ensures
        match result {
            Ok(t) => r == Ok::<StoredToken, OAuthResponse>(t),
            Err(TokenError::TokenNotFound) => r matches Err(OAuthResponse::Introspection(resp))
                && inactive(resp),
            Err(_) => r matches Err(OAuthResponse::Error(500, e)) && oauth_error_is(
                e,
                "server_error"@,
                "Failed to validate token"@,
            ),
        },
{
    match result {
        Ok(t) => Ok(t),
        Err(TokenError::TokenNotFound) => Err(OAuthResponse::Introspection(inactive_response())),
        Err(_) => Err(OAuthResponse::Error(500, OAuthError::server_error("Failed to validate token"))),
    }
}

/// The real-time check of an introspection.
#[derive(Debug, Clone)]
pub enum ScopeCheck {
    /// The request names no resource and action: no check.
    NotRequested,
    /// The token lacks the scope `resource:action`: not allowed.
    MissingScope,
    /// Ask Permit.io whether the token's user may perform the action.
    Ask { user_id: String, action: String, resource: String },
}

/// The real-time check that an introspection asks for.
pub fn introspect_scope_check(client: &PermitClient, token: &StoredToken, request: &IntrospectionRequest) -> (r:
    ScopeCheck)
    ensures
        match (request.resource, request.action) {
            (Some(res), Some(act)) => if string_views(token.requested_scopes@).contains(
                res@ + ":"@ + act@,
            ) {
                r matches ScopeCheck::Ask { user_id, action, resource } && user_id == token.user_id
                    && action == act && resource == res
            } else {
                r is MissingScope
            },
            _ => r is NotRequested,
        },
{
    match (&request.resource, &request.action) {
        (Some(res), Some(act)) => {
            let required = concat2(res.as_str(), ":").concat(act.as_str());
            if client.has_scope(&token.requested_scopes, required.as_str()) {
                ScopeCheck::Ask {
                    user_id: token.user_id.clone(),
                    action: act.clone(),
                    resource: res.clone(),
                }
            } else {
                ScopeCheck::MissingScope
            }
        },
        _ => ScopeCheck::NotRequested,
    }
}

/// The outcome of the real-time check: a missing scope denies, an answer
/// of Permit.io is the decision, and a failed call leaves it out.
pub fn introspect_allowed(check: &ScopeCheck, answer: Option<Result<bool, PermitError>>) -> (r:
    Option<bool>)
    ensures
        match check {
            ScopeCheck::NotRequested => r is None,
            ScopeCheck::MissingScope => r == Some(false),
            ScopeCheck::Ask { .. } => match answer {
                Some(Ok(b)) => r == Some(b),
                _ => r is None,
            },
        },
{
    match check {
        ScopeCheck::NotRequested => None,
        ScopeCheck::MissingScope => Some(false),
        ScopeCheck::Ask { .. } => match answer {
            Some(Ok(b)) => Some(b),
            _ => None,
        },
    }
}

/// The introspection of an active token: its client, its scopes joined by
/// spaces, its expiry and issue times, the issuer and the real-time
/// decision.
pub fn introspect_response(token: StoredToken, issuer: &String, allowed: Option<bool>) -> (r:
    OAuthResponse)
    ensures
        r matches OAuthResponse::Introspection(resp) && resp.active && resp.client_id == Some(
            token.client_id,
        ) && (resp.scope matches Some(s) && s@ == join_spec(
            string_views(token.requested_scopes@),
            " "@,
        )) && resp.exp == Some(token.expires_at) && resp.iat == Some(token.issued_at) && (resp.iss
            matches Some(i) && i@ == issuer@) && resp.allowed == allowed,
{
    let scope = join(&token.requested_scopes, " ");
    OAuthResponse::Introspection(
        IntrospectionResponse {
            active: true,
            client_id: Some(token.client_id),
            scope: Some(scope),
            exp: Some(token.expires_at),
            iat: Some(token.issued_at),
            iss: Some(issuer.clone()),
            allowed,
        },
    )
}

} // verus!
