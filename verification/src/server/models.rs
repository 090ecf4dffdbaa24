//! The request and result shapes of the authorization API.

use crate::strmap::{Duplicate, StrMap};
use vstd::prelude::*;

verus! {

/// A JSON value as the API carries it. What the authorization logic reads
/// of a value is whether it is a string and what that string holds; numbers,
/// arrays and objects are kept as their compact JSON text.
#[derive(Debug, Clone)]
pub enum JsonValue {
    Null,
    Bool(bool),
    Number(String),
    Str(String),
    Array(String),
    Object(String),
}

impl Duplicate for JsonValue {
    fn duplicate(&self) -> (r: Self) {
        match self {
            JsonValue::Null => JsonValue::Null,
            JsonValue::Bool(b) => JsonValue::Bool(*b),
            JsonValue::Number(t) => JsonValue::Number(t.clone()),
            JsonValue::Str(s) => JsonValue::Str(s.clone()),
            JsonValue::Array(t) => JsonValue::Array(t.clone()),
            JsonValue::Object(t) => JsonValue::Object(t.clone()),
        }
    }
}

/// A lowercase hexadecimal digit, for `0 <= n < 16`.
pub open spec fn hex_digit(n: int) -> char {
    if n < 10 {
        ('0' as int + n) as char
    } else {
        ('a' as int + (n - 10)) as char
    }
}

/// How one character stands inside a compact JSON string literal: the quote
/// and the backslash are escaped by a backslash, backspace, tab, line feed,
/// form feed and carriage return by their short escapes, every other control
/// character below U+0020 as `\u00` and two lowercase hex digits; all other
/// characters stand as they are.
pub open spec fn json_char_escape(c: char) -> Seq<char> {
    if c == '"' {
        seq!['\\', '"']
    } else if c == '\\' {
        seq!['\\', '\\']
    } else if c == '\u{8}' {
        seq!['\\', 'b']
    } else if c == '\t' {
        seq!['\\', 't']
    } else if c == '\n' {
        seq!['\\', 'n']
    } else if c == '\u{c}' {
        seq!['\\', 'f']
    } else if c == '\r' {
        seq!['\\', 'r']
    } else if (c as int) < 0x20 {
        seq!['\\', 'u', '0', '0', hex_digit(c as int / 16), hex_digit(c as int % 16)]
    } else {
        seq![c]
    }
}

/// The characters of a text, each escaped for a JSON string literal.
pub open spec fn json_escaped(s: Seq<char>) -> Seq<char>
    decreases s.len(),
{
    if s.len() == 0 {
        Seq::empty()
    } else {
        json_escaped(s.drop_last()) + json_char_escape(s.last())
    }
}

/// The compact JSON string literal of a text: the escaped text in double
/// quotes.
pub open spec fn json_string_text(s: Seq<char>) -> Seq<char> {
    seq!['"'] + json_escaped(s) + seq!['"']
}

/// Serialises a text as a JSON string literal with `serde_json::to_string`,
/// which quotes it and escapes each character by the compact formatter's
/// table (`json_char_escape`); serialising a `str` does not fail.
#[verifier::external_body]
fn json_string_literal(s: &str) -> (r: String)
    ensures
        r@ == json_string_text(s@),
{
    match serde_json::to_string(s) {
        Ok(t) => t,
        Err(_) => String::new(),
    }
}

/// The compact JSON text of a value, as `to_string` renders it.
pub open spec fn json_text(v: JsonValue) -> Seq<char> {
    match v {
        JsonValue::Null => "null"@,
        JsonValue::Bool(b) => if b { "true"@ } else { "false"@ },
        JsonValue::Number(t) => t@,
        JsonValue::Str(s) => json_string_text(s@),
        JsonValue::Array(t) => t@,
        JsonValue::Object(t) => t@,
    }
}

impl JsonValue {
    /// The compact JSON text of the value.
    pub fn to_json_text(&self) -> (r: String)
        ensures
            r@ == json_text(*self),
    {
        match self {
            JsonValue::Null => "null".to_owned(),
            JsonValue::Bool(b) => if *b {
                "true".to_owned()
            } else {
                "false".to_owned()
            },
            JsonValue::Number(t) => t.clone(),
            JsonValue::Str(s) => json_string_literal(s.as_str()),
            JsonValue::Array(t) => t.clone(),
            JsonValue::Object(t) => t.clone(),
        }
    }
}

/// A JSON object keyed by strings.
pub type JsonMap = StrMap<JsonValue>;

/// The user of an authorization query.
#[derive(Debug, Clone)]
pub struct User {
    /// Unique identifier of the user.
    pub key: String,
    pub first_name: Option<String>,
    pub last_name: Option<String>,
    pub email: Option<String>,
    /// Further attributes of the user.
    pub attributes: JsonMap,
}

/// The resource of an authorization query.
#[derive(Debug, Clone)]
pub struct Resource {
    /// The type of the resource (`type` on the wire).
    pub kind: String,
    pub key: Option<String>,
    pub tenant: Option<String>,
    pub attributes: JsonMap,
    pub context: JsonMap,
}

/// A single permission check: may `user` perform `action` on `resource`.
#[derive(Debug, Clone)]
pub struct AuthorizationQuery {
    pub user: User,
    pub action: String,
    pub resource: Resource,
    pub context: JsonMap,
    /// The SDK that asks.
    pub sdk: Option<String>,
}

/// The name by which the `/allowed` endpoint knows its query.
pub type AllowedQuery = AuthorizationQuery;

/// The answer to a permission check.
#[derive(Debug, Clone)]
pub struct AuthorizationResult {
    pub allow: bool,
    pub query: Option<JsonMap>,
    pub debug: Option<JsonMap>,
    /// Deprecated copy of the decision, kept for older clients.
    pub result: bool,
}

/// The name by which the `/allowed` endpoint knows its result.
pub type AllowedResult = AuthorizationResult;

/// The answers to several permission checks, in the order of the checks.
#[derive(Debug, Clone)]
pub struct BulkAuthorizationResult {
    pub allow: Vec<AuthorizationResult>,
}

/// Several permission checks at once.
#[derive(Debug, Clone)]
pub struct BulkAuthorizationQuery {
    pub checks: Vec<AuthorizationQuery>,
}

/// Details of a resource in a permissions result.
#[derive(Debug, Clone)]
pub struct ResourceDetails {
    pub key: String,
    pub kind: String,
    pub attributes: JsonMap,
}

/// Details of a tenant.
#[derive(Debug, Clone)]
pub struct TenantDetails {
    pub key: String,
    pub attributes: JsonMap,
}

/// What a user may do on one resource or tenant.
#[derive(Debug, Clone)]
pub struct UserPermissionsResult {
    pub tenant: Option<TenantDetails>,
    pub resource: Option<ResourceDetails>,
    /// Permissions in the form `action:resource`.
    pub permissions: Vec<String>,
    pub roles: Option<Vec<String>>,
}

/// A query for all permissions of a user.
#[derive(Debug, Clone)]
pub struct UserPermissionsQuery {
    pub user: User,
    pub tenants: Option<Vec<String>>,
    pub resources: Option<Vec<String>>,
    pub resource_types: Option<Vec<String>>,
    pub context: Option<JsonMap>,
}

/// One entry of a validation failure.
#[derive(Debug, Clone)]
pub struct ValidationError {
    pub loc: Vec<String>,
    pub msg: String,
    pub kind: String,
}

/// A validation failure of a request.
#[derive(Debug, Clone)]
pub struct HTTPValidationError {
    pub detail: Vec<ValidationError>,
}

/// Whether an action is allowed in one tenant.
#[derive(Debug, Clone)]
pub struct TenantAuthorizationResult {
    pub allow: bool,
    pub tenant: TenantDetails,
}

/// The tenants in which an action is allowed.
#[derive(Debug, Clone)]
pub struct AllTenantsAuthorizationResult {
    pub allowed_tenants: Vec<TenantAuthorizationResult>,
}

/// A query for the users that may perform an action on a resource.
#[derive(Debug, Clone)]
pub struct AuthorizedUsersAuthorizationQuery {
    pub action: String,
    pub resource: Resource,
    pub context: JsonMap,
    pub sdk: Option<String>,
}

/// The name by which the `/authorized_users` endpoint knows its query.
pub type AuthorizedUsersQuery = AuthorizedUsersAuthorizationQuery;

/// A role assignment that makes a user authorized.
#[derive(Debug, Clone)]
pub struct AuthorizedUserAssignment {
    pub user: String,
    pub tenant: String,
    pub resource: String,
    pub role: String,
}

/// The users authorized on a resource, each with the assignments that
/// authorize them.
#[derive(Debug, Clone)]
pub struct AuthorizedUsersResult {
    pub resource: String,
    pub tenant: String,
    pub users: StrMap<Vec<AuthorizedUserAssignment>>,
}

/// A query for the tenants of a user.
#[derive(Debug, Clone)]
pub struct UserTenantsQuery {
    pub user: User,
    pub context: JsonMap,
}

impl User {
    /// All maps of the user are well formed.
    pub open spec fn wf(&self) -> bool {
        self.attributes.wf()
    }
}

impl Resource {
    /// All maps of the resource are well formed.
    pub open spec fn wf(&self) -> bool {
        self.attributes.wf() && self.context.wf()
    }
}

impl AuthorizationQuery {
    /// All maps of the query are well formed.
    pub open spec fn wf(&self) -> bool {
        self.user.wf() && self.resource.wf() && self.context.wf()
    }
}

} // verus!
