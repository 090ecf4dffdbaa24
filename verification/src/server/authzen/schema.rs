//! The subject, resource and action of the AuthZen protocol, and how they
//! become the user and resource of a permission check.

use crate::server::models::{JsonMap, JsonValue, Resource, User};
use crate::strmap::{Duplicate, StrMap};
use vstd::prelude::*;

verus! {

/// The user in the AuthZen protocol.
#[derive(Debug, Clone)]
pub struct AuthZenSubject {
    /// The type of the subject (`type` on the wire).
    pub kind: String,
    /// Unique identifier of the subject (empty where a search leaves it out).
    pub id: String,
    pub properties: Option<JsonMap>,
}

/// The resource in the AuthZen protocol.
#[derive(Debug, Clone)]
pub struct AuthZenResource {
    /// The type of the resource (`type` on the wire).
    pub kind: String,
    pub id: Option<String>,
    pub properties: Option<JsonMap>,
}

/// The action in the AuthZen protocol.
#[derive(Debug, Clone)]
pub struct AuthZenAction {
    pub name: String,
    pub properties: Option<JsonMap>,
}

/// The properties of a message, none standing for an empty map.
pub open spec fn properties_map(p: Option<JsonMap>) -> Map<Seq<char>, JsonValue> {
    match p {
        Some(m) => m@,
        None => Map::empty(),
    }
}

/// Properties, where present, are well formed.
pub open spec fn properties_wf(p: Option<JsonMap>) -> bool {
    p matches Some(m) ==> m.wf()
}

/// The string held under `key`, if the key holds a JSON string.
pub open spec fn string_property(m: Map<Seq<char>, JsonValue>, key: Seq<char>) -> Option<String> {
    if m.contains_key(key) {
        match m[key] {
            JsonValue::Str(s) => Some(s),
            _ => None,
        }
    } else {
        None
    }
}

/// `u` is the user of a permission check for the subject `s`: the
/// subject's id is the key; the string properties `first_name`,
/// `last_name` and `email` become the user's fields; every other property
/// is an attribute. Those three properties leave the attributes whatever
/// their value.
pub open spec fn user_from_subject(u: User, s: AuthZenSubject) -> bool {
    &&& u.key == s.id
    &&& u.first_name == string_property(properties_map(s.properties), "first_name"@)
    &&& u.last_name == string_property(properties_map(s.properties), "last_name"@)
    &&& u.email == string_property(properties_map(s.properties), "email"@)
    &&& u.attributes.wf()
    &&& u.attributes@ == properties_map(s.properties).remove("first_name"@).remove(
        "last_name"@,
    ).remove("email"@)
}

/// `r` is the resource of a permission check for the AuthZen resource `a`:
/// same type and id; a string `tenant` property becomes the tenant; every
/// other property is an attribute; the context is empty. The `tenant`
/// property leaves the attributes whatever its value.
pub open spec fn resource_from_authzen(r: Resource, a: AuthZenResource) -> bool {
    &&& r.kind == a.kind
    &&& r.key == a.id
    &&& r.tenant == string_property(properties_map(a.properties), "tenant"@)
    &&& r.attributes.wf()
    &&& r.attributes@ == properties_map(a.properties).remove("tenant"@)
    &&& r.context.wf()
    &&& r.context@ == Map::<Seq<char>, JsonValue>::empty()
}

/// The properties of a message, moved out; none gives an empty map.
pub fn take_properties(p: Option<JsonMap>) -> (m: JsonMap)
    requires
        properties_wf(p),
    ensures
        m.wf(),
        m@ == properties_map(p),
{
    match p {
        Some(m) => m,
        None => StrMap::new(),
    }
}

/// Removes `key` from the map and gives the string it held, if it held one.
pub fn remove_string_property(m: &mut JsonMap, key: &str) -> (r: Option<String>)
    requires
        old(m).wf(),
    ensures
        final(m).wf(),
        final(m)@ == old(m)@.remove(key@),
        r == string_property(old(m)@, key@),
{
    match m.remove(key) {
        Some(JsonValue::Str(s)) => Some(s),
        _ => None,
    }
}

/// A copy of optional properties with the same entries.
pub fn duplicate_properties(p: &Option<JsonMap>) -> (r: Option<JsonMap>)
    ensures
        properties_map(r) == properties_map(*p),
        properties_wf(*p) ==> properties_wf(r),
        r is Some <==> p is Some,
{
    match p {
        Some(m) => Some(m.duplicate()),
        None => None,
    }
}

impl AuthZenSubject {
    /// A copy with the same type, id and properties.
    pub fn duplicate(&self) -> (r: AuthZenSubject)
        ensures
            r.kind == self.kind,
            r.id == self.id,
            properties_map(r.properties) == properties_map(self.properties),
            properties_wf(self.properties) ==> properties_wf(r.properties),
    {
        AuthZenSubject {
            kind: self.kind.clone(),
            id: self.id.clone(),
            properties: duplicate_properties(&self.properties),
        }
    }
}

impl AuthZenResource {
    /// A copy with the same type, id and properties.
    pub fn duplicate(&self) -> (r: AuthZenResource)
        ensures
            r.kind == self.kind,
            r.id == self.id,
            properties_map(r.properties) == properties_map(self.properties),
            properties_wf(self.properties) ==> properties_wf(r.properties),
    {
        AuthZenResource {
            kind: self.kind.clone(),
            id: self.id.duplicate(),
            properties: duplicate_properties(&self.properties),
        }
    }
}

impl AuthZenAction {
    /// A copy with the same name and properties.
    pub fn duplicate(&self) -> (r: AuthZenAction)
        ensures
            r.name == self.name,
            properties_map(r.properties) == properties_map(self.properties),
            properties_wf(self.properties) ==> properties_wf(r.properties),
    {
        AuthZenAction { name: self.name.clone(), properties: duplicate_properties(&self.properties) }
    }
}

impl User {
    /// The user of a permission check for an AuthZen subject.
    pub fn from(val: AuthZenSubject) -> (u: User)
        requires
            properties_wf(val.properties),
        ensures
            user_from_subject(u, val),
    {
        let mut properties = take_properties(val.properties);
        let ghost p0 = properties@;
        let first_name = remove_string_property(&mut properties, "first_name");
        let ghost p1 = properties@;
        let last_name = remove_string_property(&mut properties, "last_name");
        let ghost p2 = properties@;
        let email = remove_string_property(&mut properties, "email");
        proof {
            reveal_strlit("first_name");
            reveal_strlit("last_name");
            reveal_strlit("email");
            assert("last_name"@.len() != "first_name"@.len());
            assert("email"@.len() != "first_name"@.len());
            assert("email"@.len() != "last_name"@.len());
            assert(string_property(p1, "last_name"@) == string_property(p0, "last_name"@));
            assert(string_property(p2, "email"@) == string_property(p0, "email"@));
        }
        User { key: val.id, first_name, last_name, email, attributes: properties }
    }
}

impl Resource {
    /// The resource of a permission check for an AuthZen resource.
    pub fn from(val: AuthZenResource) -> (r: Resource)
        requires
            properties_wf(val.properties),
        ensures
            resource_from_authzen(r, val),
    {
        let mut properties = take_properties(val.properties);
        let tenant = remove_string_property(&mut properties, "tenant");
        Resource {
            kind: val.kind,
            key: val.id,
            tenant,
            attributes: properties,
            context: StrMap::new(),
        }
    }
}

} // verus!
