//! The Permit.io side of OAuth: who a user or client is, which
//! permissions become scopes, and how scopes are read back. The HTTP calls
//! themselves are made by the caller, which hands their outcome to these
//! functions.

use crate::server::models::JsonValue;
use crate::server::oauth::models::{PermitCheckRequest, PermitCheckWithContextRequest, PermitUser};
use crate::strmap::StrMap;
use crate::text::{ascending, concat2, sort_strings, str_eq, string_views, text_lt};
use vstd::prelude::*;
use vstd::string::*;

verus! {

#[verifier::external_type_specification]
#[verifier::external_body]
pub struct ExReqwestClient(reqwest::Client);

#[verifier::external_type_specification]
#[verifier::external_body]
pub struct ExReqwestError(reqwest::Error);

/// A failure of a Permit.io call.
#[derive(Debug)]
pub enum PermitError {
    Http(reqwest::Error),
    InvalidCredentials,
    UserNotFound(String),
    PermissionDenied,
    ApiError(String),
    Config(String),
}

/// A client of the Permit.io API.
#[derive(Debug)]
pub struct PermitClient {
    pub client: reqwest::Client,
    pub base_url: String,
}

/// The string that an attribute holds, if it holds a JSON string.
pub open spec fn string_attribute(user: PermitUser, key: Seq<char>) -> Option<Seq<char>> {
    match user.attributes {
        Some(a) => if a@.contains_key(key) {
            match a@[key] {
                JsonValue::Str(s) => Some(s@),
                _ => None,
            }
        } else {
            None
        },
        None => None,
    }
}

/// The attributes of a user, where present, are well formed.
pub open spec fn permit_user_wf(user: PermitUser) -> bool {
    user.attributes matches Some(a) ==> a.wf()
}

/// The password a user logs in with: its `password` attribute, else the
/// demonstration password `password123`.
pub open spec fn expected_password(user: PermitUser) -> Seq<char> {
    match string_attribute(user, "password"@) {
        Some(p) => p,
        None => "password123"@,
    }
}

/// Whether a user is a service account: its `client_type` attribute is
/// `service_account`.
pub open spec fn is_service_account(user: PermitUser) -> bool {
    string_attribute(user, "client_type"@) == Some("service_account"@)
}

/// The scope of an action on a resource type: `resource:action`.
pub open spec fn scope_of(resource_type: Seq<char>, action: Seq<char>) -> Seq<char> {
    resource_type + ":"@ + action
}

/// The scopes of the allowed actions of one resource type, in order.
pub open spec fn allowed_actions(rt: Seq<char>, actions: Seq<(String, bool)>) -> Seq<Seq<char>>
    decreases actions.len(),
{
    if actions.len() == 0 {
        Seq::empty()
    } else {
        let prev = allowed_actions(rt, actions.drop_last());
        if actions.last().1 {
            prev.push(scope_of(rt, actions.last().0@))
        } else {
            prev
        }
    }
}

/// The scopes of all allowed actions, resource type after resource type.
pub open spec fn allowed_scopes(perms: Seq<(String, StrMap<bool>)>) -> Seq<Seq<char>>
    decreases perms.len(),
{
    if perms.len() == 0 {
        Seq::empty()
    } else {
        allowed_scopes(perms.drop_last()) + allowed_actions(
            perms.last().0@,
            perms.last().1.entries@,
        )
    }
}

/// Where the first `:` of a text stands, if it has one.
pub open spec fn first_colon(s: Seq<char>) -> Option<int> {
    if exists|i: int| 0 <= i < s.len() && s[i] == ':' {
        Some(
            choose|i: int|
                0 <= i < s.len() && s[i] == ':' && forall|k: int| 0 <= k < i ==> s[k] != ':',
        )
    } else {
        None
    }
}

/// A scope read back: the text before its first `:` and the text after.
pub open spec fn parse_scope_spec(s: Seq<char>) -> Option<(Seq<char>, Seq<char>)> {
    match first_colon(s) {
        Some(i) => Some((s.subrange(0, i), s.subrange(i + 1, s.len() as int))),
        None => None,
    }
}

/// A scope read back gives the resource type and the action it was made
/// of, when the resource type holds no `:`.
pub proof fn lemma_scope_roundtrip(resource_type: Seq<char>, action: Seq<char>)
    requires
        !resource_type.contains(':'),
    ensures
        parse_scope_spec(scope_of(resource_type, action)) == Some((resource_type, action)),
{
    reveal_strlit(":");
    let s = scope_of(resource_type, action);
    let n = resource_type.len() as int;
    assert(s[n] == ':');
    assert forall|k: int| 0 <= k < n implies s[k] != ':' by {
        assert(s[k] == resource_type[k]);
    }
    let c = choose|i: int| 0 <= i < s.len() && s[i] == ':' && forall|k: int| 0 <= k < i ==> s[k] != ':';
    if c < n {
        assert(resource_type[c] == ':');
    }
    assert(s.subrange(0, n) =~= resource_type);
    assert(s.subrange(n + 1, s.len() as int) =~= action);
}

fn string_attribute_of<'a>(user: &'a PermitUser, key: &str) -> (r: Option<&'a String>)
    requires
        permit_user_wf(*user),
    ensures
        match r {
            Some(s) => string_attribute(*user, key@) == Some(s@),
            None => string_attribute(*user, key@) is None,
        },
{
    match &user.attributes {
        Some(a) => match a.get(key) {
            Some(JsonValue::Str(s)) => Some(s),
            _ => None,
        },
        None => None,
    }
}

impl PermitClient {
    /// A client of the API at `base_url`, by default `https://api.permit.io`.
    pub fn new(client: reqwest::Client, base_url: Option<String>) -> (c: PermitClient)
        ensures
            c.client == client,
            match base_url {
                Some(u) => c.base_url == u,
                None => c.base_url@ == "https://api.permit.io"@,
            },
    {
        let base_url = match base_url {
            Some(u) => u,
            None => "https://api.permit.io".to_owned(),
        };
        PermitClient { client, base_url }
    }

    /// The URL of a user's facts.
    pub fn user_url(&self, user_id: &str) -> (u: String)
        ensures
            u@ == self.base_url@ + "/v2/facts/users/"@ + user_id@,
    {
        concat2(self.base_url.as_str(), "/v2/facts/users/").concat(user_id)
    }

    /// The URL of a permission check.
    pub fn allowed_url(&self) -> (u: String)
        ensures
            u@ == self.base_url@ + "/v2/allowed"@,
    {
        concat2(self.base_url.as_str(), "/v2/allowed")
    }

    /// The URL of a bulk permission check.
    pub fn bulk_allowed_url(&self) -> (u: String)
        ensures
            u@ == self.base_url@ + "/v2/allowed/bulk"@,
    {
        concat2(self.base_url.as_str(), "/v2/allowed/bulk")
    }

    /// The error of a user lookup that answered with `status`: not found
    /// for 404, an API error for any other status outside 200-299 (with the
    /// status as text and the body), none otherwise.
    pub fn user_lookup_error(user_id: &str, status: u16, status_text: &str, body: &str) -> (r:
        Option<PermitError>)
        ensures
            status == 404 ==> (r matches Some(PermitError::UserNotFound(u)) && u@ == user_id@),
            status != 404 && !(200 <= status < 300) ==> (r matches Some(PermitError::ApiError(m))
                && m@ == "HTTP "@ + status_text@ + ": "@ + body@),
            200 <= status < 300 ==> r is None,
    {
        if status == 404 {
            return Some(PermitError::UserNotFound(user_id.to_owned()));
        }
        if !(200 <= status && status < 300) {
            return Some(
                PermitError::ApiError(concat2("HTTP ", status_text).concat(": ").concat(body)),
            );
        }
        None
    }

    /// Logs a user in, given the outcome of looking the user up: the
    /// password must equal the user's `password` attribute, or
    /// `password123` when there is none. A failed lookup fails the login.
    pub fn authenticate_user(&self, user: Result<PermitUser, PermitError>, password: &str) -> (r:
        Result<PermitUser, PermitError>)
        requires
            user matches Ok(u) ==> permit_user_wf(u),
        ensures
            match user {
                Ok(u) => if password@ == expected_password(u) {
                    r == Ok::<PermitUser, PermitError>(u)
                } else {
                    r matches Err(PermitError::InvalidCredentials)
                },
                Err(_) => r is Err && r == user,
            },
    {
        let user = match user {
            Ok(u) => u,
            Err(e) => {
                return Err(e);
            },
        };
        let matches = match string_attribute_of(&user, "password") {
            Some(p) => str_eq(password, p.as_str()),
            None => str_eq(password, "password123"),
        };
        if !matches {
            return Err(PermitError::InvalidCredentials);
        }
        Ok(user)
    }

    /// Checks client credentials, given the outcome of looking the client
    /// up: the client must be a service account. The secret itself is not
    /// checked here. A failed lookup fails the check.
    pub fn validate_client_credentials(
        &self,
        user: Result<PermitUser, PermitError>,
        _client_secret: &str,
    ) -> (r: Result<PermitUser, PermitError>)
        requires
            user matches Ok(u) ==> permit_user_wf(u),
        ensures
            match user {
                Ok(u) => if is_service_account(u) {
                    r == Ok::<PermitUser, PermitError>(u)
                } else {
                    r matches Err(PermitError::InvalidCredentials)
                },
                Err(_) => r is Err && r == user,
            },
    {
        let user = match user {
            Ok(u) => u,
            Err(e) => {
                return Err(e);
            },
        };
        let service = match string_attribute_of(&user, "client_type") {
            Some(t) => str_eq(t.as_str(), "service_account"),
            None => false,
        };
        if !service {
            return Err(PermitError::InvalidCredentials);
        }
        Ok(user)
    }

    /// Whether a client exists, given the outcome of looking it up: a
    /// client that is not found does not exist; other failures stay errors.
    pub fn validate_client(&self, user: Result<PermitUser, PermitError>) -> (r: Result<
        bool,
        PermitError,
    >)
        ensures
            match user {
                Ok(_) => r == Ok::<bool, PermitError>(true),
                Err(PermitError::UserNotFound(_)) => r == Ok::<bool, PermitError>(false),
                Err(e) => r == Err::<bool, PermitError>(e),
            },
    {
        match user {
            Ok(_) => Ok(true),
            Err(PermitError::UserNotFound(_)) => Ok(false),
            Err(e) => Err(e),
        }
    }

    /// The body of a permission check: with the context when one is given.
    pub fn permission_request(
        user_id: &str,
        action: &str,
        resource: &str,
        context: Option<String>,
    ) -> (r: Result<PermitCheckRequest, PermitCheckWithContextRequest>)
        ensures
            match r {
                Ok(q) => context is None && q.user@ == user_id@ && q.action@ == action@
                    && q.resource@ == resource@,
                Err(q) => context is Some && q.user@ == user_id@ && q.action@ == action@
                    && q.resource@ == resource@ && q.context == context,
            },
    {
        match context {
            Some(c) => Err(
                PermitCheckWithContextRequest {
                    user: user_id.to_owned(),
                    action: action.to_owned(),
                    resource: resource.to_owned(),
                    context: Some(c),
                },
            ),
            None => Ok(
                PermitCheckRequest {
                    user: user_id.to_owned(),
                    action: action.to_owned(),
                    resource: resource.to_owned(),
                },
            ),
        }
    }

    /// The scopes of the allowed permissions, `resource:action`, in
    /// ascending order.
    pub fn permissions_to_scopes(&self, permissions: &StrMap<StrMap<bool>>) -> (r: Vec<String>)
        ensures
            ascending(string_views(r@)),
            string_views(r@).to_multiset() == allowed_scopes(permissions.entries@).to_multiset(),
    {
        let mut scopes: Vec<String> = Vec::new();
        let mut i: usize = 0;
        while i < permissions.entries.len()
            invariant
                i <= permissions.entries@.len(),
                string_views(scopes@) == allowed_scopes(
                    permissions.entries@.subrange(0, i as int),
                ),
            decreases permissions.entries@.len() - i,
        {
            let ghost pe = permissions.entries@.subrange(0, i + 1);
            assert(pe.drop_last() =~= permissions.entries@.subrange(0, i as int));
            let rt = &permissions.entries[i].0;
            let actions = &permissions.entries[i].1.entries;
            let ghost base = string_views(scopes@);
            let mut k: usize = 0;
            while k < actions.len()
                invariant
                    k <= actions@.len(),
                    string_views(scopes@) == base + allowed_actions(
                        rt@,
                        actions@.subrange(0, k as int),
                    ),
                decreases actions@.len() - k,
            {
                let ghost ae = actions@.subrange(0, k + 1);
                assert(ae.drop_last() =~= actions@.subrange(0, k as int));
                let ghost before = string_views(scopes@);
                if actions[k].1 {
                    let s = concat2(rt.as_str(), ":").concat(actions[k].0.as_str());
                    scopes.push(s);
                    assert(string_views(scopes@) =~= before.push(scope_of(rt@, actions@[k as int].0@)));
                }
                k = k + 1;
            }
            assert(actions@.subrange(0, actions@.len() as int) == actions@);
            i = i + 1;
        }
        assert(permissions.entries@.subrange(0, permissions.entries@.len() as int)
            == permissions.entries@);
        sort_strings(scopes)
    }

    /// A scope read back as its resource type and action: the text before
    /// and after its first `:`; none without a `:`.
    pub fn parse_scope(&self, scope: &str) -> (r: Option<(String, String)>)
        ensures
            match r {
                Some((a, b)) => parse_scope_spec(scope@) == Some((a@, b@)),
                None => parse_scope_spec(scope@) is None,
            },
    {
        let n = scope.unicode_len();
        let mut i: usize = 0;
        while i < n && scope.get_char(i) != ':'
            invariant
                n == scope@.len(),
                i <= n,
                forall|k: int| 0 <= k < i ==> scope@[k] != ':',
            decreases n - i,
        {
            i = i + 1;
        }
        if i == n {
            return None;
        }
        proof {
            let c = choose|c: int|
                0 <= c < scope@.len() && scope@[c] == ':' && forall|k: int|
                    0 <= k < c ==> scope@[k] != ':';
            if c < i {
                assert(scope@[c] != ':');
            } else if c > i {
                assert(scope@[i as int] != ':');
            }
        }
        Some((scope.substring_char(0, i).to_owned(), scope.substring_char(i + 1, n).to_owned()))
    }

    /// Whether the token's scopes include the required one.
    pub fn has_scope(&self, token_scopes: &Vec<String>, required_scope: &str) -> (b: bool)
        ensures
            b == string_views(token_scopes@).contains(required_scope@),
    {
        let mut i: usize = 0;
        while i < token_scopes.len()
            invariant
                i <= token_scopes@.len(),
                forall|k: int| 0 <= k < i ==> token_scopes@[k]@ != required_scope@,
            decreases token_scopes@.len() - i,
        {
            if str_eq(token_scopes[i].as_str(), required_scope) {
                assert(string_views(token_scopes@)[i as int] == required_scope@);
                return true;
            }
            i = i + 1;
        }
        proof {
            if string_views(token_scopes@).contains(required_scope@) {
                let k = choose|k: int|
                    0 <= k < token_scopes@.len() && string_views(token_scopes@)[k]
                        == required_scope@;
                assert(token_scopes@[k]@ == required_scope@);
            }
        }
        false
    }
}

} // verus!
