//! The search endpoints of the AuthZen API: which actions a subject may
//! perform on a resource, which resources it may access, and which
//! subjects may access a resource.

use crate::server::authzen::evaluation::authzen_query;
use crate::server::authzen::schema::{
    properties_map, properties_wf, resource_from_authzen, take_properties, user_from_subject,
    AuthZenAction, AuthZenResource, AuthZenSubject,
};
use crate::server::models::{
    json_text, AuthorizedUsersQuery, AuthorizedUsersResult, JsonMap, JsonValue, Resource,
    ResourceDetails, User, UserPermissionsQuery, UserPermissionsResult,
};
use crate::strmap::StrMap;
use crate::text::{concat2, sort_dedup, str_eq, string_views, strictly_ascending};
use vstd::prelude::*;

verus! {

/// Pagination of a search request.
#[derive(Debug, Clone)]
pub struct PageRequest {
    pub next_token: Option<String>,
    pub size: Option<i32>,
}

/// Pagination of a search response; no token means no further page.
#[derive(Debug, Clone)]
pub struct PageResponse {
    pub next_token: Option<String>,
}

/// The actions a subject may perform on a resource.
#[derive(Debug, Clone)]
pub struct ActionSearchRequest {
    pub subject: AuthZenSubject,
    pub resource: AuthZenResource,
    pub context: Option<JsonMap>,
    pub page: Option<PageRequest>,
}

/// The answer to an action search.
#[derive(Debug, Clone)]
pub struct ActionSearchResponse {
    pub results: Vec<AuthZenAction>,
    pub page: Option<PageResponse>,
    pub context: Option<JsonMap>,
}

/// The resources a subject may access.
#[derive(Debug, Clone)]
pub struct ResourceSearchRequest {
    pub subject: AuthZenSubject,
    pub action: Option<AuthZenAction>,
    pub resource_type: Option<String>,
    pub context: Option<JsonMap>,
    pub page: Option<PageRequest>,
}

/// A resource and an action on it.
#[derive(Debug, Clone)]
pub struct ResourceAction {
    pub resource: AuthZenResource,
    pub action: AuthZenAction,
}

/// The answer to a resource search.
#[derive(Debug, Clone)]
pub struct ResourceSearchResponse {
    pub results: Vec<AuthZenResource>,
    pub page: Option<PageResponse>,
    pub context: Option<JsonMap>,
}

/// The subjects that may perform an action on a resource.
#[derive(Debug, Clone)]
pub struct SubjectSearchRequest {
    pub resource: AuthZenResource,
    pub action: AuthZenAction,
    pub context: Option<JsonMap>,
    pub page: Option<PageRequest>,
}

/// The answer to a subject search.
#[derive(Debug, Clone)]
pub struct SubjectSearchResponse {
    pub results: Vec<AuthZenSubject>,
    pub page: Option<PageResponse>,
    pub context: Option<JsonMap>,
}

/// The tenant of an action search: the JSON text of the resource's
/// `tenant` property, whatever its type.
pub open spec fn search_tenant(resource: AuthZenResource) -> Option<Seq<char>> {
    let m = properties_map(resource.properties);
    if m.contains_key("tenant"@) {
        Some(json_text(m["tenant"@]))
    } else {
        None
    }
}

impl UserPermissionsQuery {
    /// The permissions query of an action search: the subject's permissions
    /// on the resource, by its id and type, in the tenant that the
    /// resource's `tenant` property names (as JSON text).
    pub fn from(req: ActionSearchRequest) -> (q: UserPermissionsQuery)
        requires
            properties_wf(req.subject.properties),
            properties_wf(req.resource.properties),
            properties_wf(req.context),
        ensures
            user_from_subject(q.user, req.subject),
            match search_tenant(req.resource) {
                Some(t) => q.tenants matches Some(ts) && string_views(ts@) == seq![t],
                None => q.tenants is None,
            },
            q.resources matches Some(rs) && rs@ == match req.resource.id {
                Some(id) => seq![id],
                None => Seq::<String>::empty(),
            },
            q.resource_types matches Some(ts) && ts@ == seq![req.resource.kind],
            q.context matches Some(c) && c.wf() && c@ == properties_map(req.context),
    {
        let tenant = match &req.resource.properties {
            Some(p) => match p.get("tenant") {
                Some(v) => Some(v.to_json_text()),
                None => None,
            },
            None => None,
        };
        let tenants = match tenant {
            Some(t) => {
                let mut v: Vec<String> = Vec::new();
                v.push(t);
                proof {
                    assert(string_views(v@) =~= seq![v@[0]@]);
                }
                Some(v)
            },
            None => None,
        };
        let mut resources: Vec<String> = Vec::new();
        match req.resource.id {
            Some(id) => resources.push(id),
            None => {},
        }
        let mut resource_types: Vec<String> = Vec::new();
        resource_types.push(req.resource.kind);
        let user = User::from(req.subject);
        let context = take_properties(req.context);
        UserPermissionsQuery {
            user,
            tenants,
            resources: Some(resources),
            resource_types: Some(resource_types),
            context: Some(context),
        }
    }

    /// The permissions query of a resource search: all the subject's
    /// permissions, on resources of the requested type if one is given.
    pub fn from_resource_search(req: ResourceSearchRequest) -> (q: UserPermissionsQuery)
        requires
            properties_wf(req.subject.properties),
            properties_wf(req.context),
        ensures
            user_from_subject(q.user, req.subject),
            q.tenants is None,
            q.resources is None,
            match req.resource_type {
                Some(t) => q.resource_types matches Some(ts) && ts@ == seq![t],
                None => q.resource_types is None,
            },
            q.context matches Some(c) && c.wf() && c@ == properties_map(req.context),
    {
        let resource_types = match req.resource_type {
            Some(t) => {
                let mut v: Vec<String> = Vec::new();
                v.push(t);
                Some(v)
            },
            None => None,
        };
        UserPermissionsQuery {
            user: User::from(req.subject),
            tenants: None,
            resources: None,
            resource_types,
            context: Some(take_properties(req.context)),
        }
    }
}

impl AuthorizedUsersQuery {
    /// The authorized-users query of a subject search, asked by the AuthZen
    /// SDK; a missing context is an empty one.
    pub fn from(req: SubjectSearchRequest) -> (q: AuthorizedUsersQuery)
        requires
            properties_wf(req.resource.properties),
            properties_wf(req.context),
        ensures
            q.action == req.action.name,
            resource_from_authzen(q.resource, req.resource),
            q.context.wf(),
            q.context@ == properties_map(req.context),
            q.sdk matches Some(s) && s@ == "authzen"@,
    {
        AuthorizedUsersQuery {
            action: req.action.name,
            resource: Resource::from(req.resource),
            context: take_properties(req.context),
            sdk: Some("authzen".to_owned()),
        }
    }
}

/// Every permission of every entry, entry after entry.
pub open spec fn all_permissions(es: Seq<(String, UserPermissionsResult)>) -> Seq<Seq<char>>
    decreases es.len(),
{
    if es.len() == 0 {
        Seq::empty()
    } else {
        all_permissions(es.drop_last()) + string_views(es.last().1.permissions@)
    }
}

/// The answer to an action search: every permission found, each once, in
/// ascending order, as actions without properties; one page.
pub fn action_search_response(permissions: &StrMap<UserPermissionsResult>) -> (r:
    ActionSearchResponse)
    ensures
        strictly_ascending(r.results@.map_values(|a: AuthZenAction| a.name@)),
        forall|x: Seq<char>|
            r.results@.map_values(|a: AuthZenAction| a.name@).contains(x) <==> all_permissions(
                permissions.entries@,
            ).contains(x),
        forall|i: int| 0 <= i < r.results@.len() ==> (#[trigger] r.results@[i]).properties is None,
        r.page matches Some(p) && p.next_token is None,
        r.context is None,
{
    let mut all: Vec<String> = Vec::new();
    let mut i: usize = 0;
    while i < permissions.entries.len()
        invariant
            i <= permissions.entries@.len(),
            string_views(all@) == all_permissions(permissions.entries@.subrange(0, i as int)),
        decreases permissions.entries@.len() - i,
    {
        let ghost es = permissions.entries@.subrange(0, i + 1);
        assert(es.drop_last() == permissions.entries@.subrange(0, i as int));
        let ps = &permissions.entries[i].1.permissions;
        let ghost before = string_views(all@);
        let mut k: usize = 0;
        while k < ps.len()
            invariant
                k <= ps@.len(),
                string_views(all@) == before + string_views(ps@.subrange(0, k as int)),
            decreases ps@.len() - k,
        {
            let ghost prev = all@;
            all.push(ps[k].clone());
            assert(string_views(ps@.subrange(0, k + 1)) =~= string_views(ps@.subrange(0, k as int)).push(ps@[k as int]@));
            assert(string_views(all@) =~= string_views(prev).push(ps@[k as int]@));
            assert(string_views(all@) =~= before + string_views(ps@.subrange(0, k + 1)));
            k = k + 1;
        }
        assert(ps@.subrange(0, ps@.len() as int) == ps@);
        i = i + 1;
    }
    assert(permissions.entries@.subrange(0, permissions.entries@.len() as int)
        == permissions.entries@);
    let names = sort_dedup(&all);
    let mut results: Vec<AuthZenAction> = Vec::new();
    let mut j: usize = 0;
    while j < names.len()
        invariant
            j <= names@.len(),
            results@.len() == j,
            forall|k: int|
                0 <= k < j ==> (#[trigger] results@[k]).name@ == names@[k]@
                    && results@[k].properties is None,
        decreases names@.len() - j,
    {
        results.push(AuthZenAction { name: names[j].clone(), properties: None });
        j = j + 1;
    }
    assert(results@.map_values(|a: AuthZenAction| a.name@) =~= string_views(names@));
    ActionSearchResponse {
        results,
        page: Some(PageResponse { next_token: None }),
        context: None,
    }
}

/// The AuthZen form of a resource in a permissions result; empty
/// attributes give no properties.
pub open spec fn resource_of_details(d: ResourceDetails) -> AuthZenResource {
    AuthZenResource {
        kind: d.kind,
        id: Some(d.key),
        properties: if d.attributes.entries@.len() == 0 {
            None
        } else {
            Some(d.attributes)
        },
    }
}

/// The characters of an optional string.
pub open spec fn opt_view(o: Option<String>) -> Option<Seq<char>> {
    match o {
        Some(s) => Some(s@),
        None => None,
    }
}

/// Where the first resource with the given id stands, or the length if
/// none has it.
pub open spec fn position_of_id(rs: Seq<AuthZenResource>, id: Option<Seq<char>>) -> int
    decreases rs.len(),
{
    if rs.len() == 0 {
        0
    } else {
        let p = position_of_id(rs.drop_last(), id);
        if p < rs.len() - 1 {
            p
        } else if opt_view(rs.last().id) == id {
            rs.len() - 1
        } else {
            rs.len() as int
        }
    }
}

/// The resources of the entries, one per id: a later resource with an id
/// already seen replaces the earlier one in its place.
pub open spec fn unique_resources(es: Seq<(String, UserPermissionsResult)>) -> Seq<AuthZenResource>
    decreases es.len(),
{
    if es.len() == 0 {
        Seq::empty()
    } else {
        let prev = unique_resources(es.drop_last());
        match es.last().1.resource {
            None => prev,
            Some(d) => {
                let r = resource_of_details(d);
                let p = position_of_id(prev, opt_view(r.id));
                if p < prev.len() {
                    prev.update(p, r)
                } else {
                    prev.push(r)
                }
            },
        }
    }
}

proof fn lemma_position_of_id(rs: Seq<AuthZenResource>, id: Option<Seq<char>>, k: int)
    requires
        0 <= k <= rs.len(),
        forall|j: int| 0 <= j < k ==> opt_view((#[trigger] rs[j]).id) != id,
        k < rs.len() ==> opt_view(rs[k].id) == id,
    ensures
        position_of_id(rs, id) == k,
    decreases rs.len(),
{
    if rs.len() > 0 {
        if k < rs.len() {
            if k < rs.len() - 1 {
                lemma_position_of_id(rs.drop_last(), id, k);
            } else {
                lemma_position_of_id(rs.drop_last(), id, k);
            }
        } else {
            lemma_position_of_id(rs.drop_last(), id, k - 1);
        }
    }
}

fn same_id(a: &Option<String>, b: &Option<String>) -> (r: bool)
    ensures
        r == (opt_view(*a) == opt_view(*b)),
{
    match (a, b) {
        (Some(x), Some(y)) => str_eq(x.as_str(), y.as_str()),
        (None, None) => true,
        _ => false,
    }
}

/// The answer to a resource search: the resource of every permission entry
/// that names one, one per id, a later one replacing an earlier one with
/// the same id; one page.
pub fn resource_search_response(permissions: StrMap<UserPermissionsResult>) -> (r:
    ResourceSearchResponse)
    ensures
        r.results@ == unique_resources(permissions.entries@),
        r.page matches Some(p) && p.next_token is None,
        r.context is None,
{
    let mut results: Vec<AuthZenResource> = Vec::new();
    let mut rest = permissions.entries;
    let ghost all = rest@;
    let ghost mut done: Seq<(String, UserPermissionsResult)> = Seq::empty();
    while rest.len() > 0
        invariant
            done + rest@ == all,
            results@ == unique_resources(done),
        decreases rest@.len(),
    {
        let ghost before = results@;
        let (key, entry) = rest.remove(0);
        let ghost old_done = done;
        proof {
            done = done.push((key, entry));
            assert(done.drop_last() =~= old_done);
            assert(done + rest@ =~= all);
        }
        match entry.resource {
            None => {},
            Some(d) => {
                let properties = if d.attributes.entries.len() == 0 {
                    None
                } else {
                    Some(d.attributes)
                };
                let res = AuthZenResource { kind: d.kind, id: Some(d.key), properties };
                let mut p: usize = 0;
                while p < results.len() && !same_id(&results[p].id, &res.id)
                    invariant
                        results@ == before,
                        p <= before.len(),
                        forall|j: int| 0 <= j < p ==> opt_view((#[trigger] before[j]).id) != opt_view(res.id),
                    decreases before.len() - p,
                {
                    p = p + 1;
                }
                let found = p < results.len();
                proof {
                    lemma_position_of_id(before, opt_view(res.id), p as int);
                }
                if found {
                    results.set(p, res);
                } else {
                    results.push(res);
                }
            },
        }
    }
    assert(done == all);
    ResourceSearchResponse {
        results,
        page: Some(PageResponse { next_token: None }),
        context: None,
    }
}

/// The subjects of the users that have at least one assignment, in the
/// order of the entries.
pub open spec fn assigned_users(es: Seq<(String, Vec<crate::server::models::AuthorizedUserAssignment>)>) -> Seq<Seq<char>>
    decreases es.len(),
{
    if es.len() == 0 {
        Seq::empty()
    } else {
        let prev = assigned_users(es.drop_last());
        if es.last().1@.len() > 0 {
            prev.push(es.last().0@)
        } else {
            prev
        }
    }
}

/// The answer to a subject search: a subject of type `user` for every user
/// that has an assignment, without properties; one page.
pub fn subject_search_response(result: &AuthorizedUsersResult) -> (r: SubjectSearchResponse)
    ensures
        r.results@.map_values(|s: AuthZenSubject| s.id@) == assigned_users(result.users.entries@),
        forall|i: int|
            0 <= i < r.results@.len() ==> (#[trigger] r.results@[i]).kind@ == "user"@
                && r.results@[i].properties is None,
        r.page matches Some(p) && p.next_token is None,
        r.context is None,
{
    let mut results: Vec<AuthZenSubject> = Vec::new();
    let mut i: usize = 0;
    while i < result.users.entries.len()
        invariant
            i <= result.users.entries@.len(),
            results@.map_values(|s: AuthZenSubject| s.id@) == assigned_users(
                result.users.entries@.subrange(0, i as int),
            ),
            forall|k: int|
                0 <= k < results@.len() ==> (#[trigger] results@[k]).kind@ == "user"@
                    && results@[k].properties is None,
        decreases result.users.entries@.len() - i,
    {
        let ghost es = result.users.entries@.subrange(0, i + 1);
        assert(es.drop_last() == result.users.entries@.subrange(0, i as int));
        let ghost before = results@;
        if result.users.entries[i].1.len() > 0 {
            results.push(
                AuthZenSubject {
                    kind: "user".to_owned(),
                    id: result.users.entries[i].0.clone(),
                    properties: None,
                },
            );
            assert(results@.map_values(|s: AuthZenSubject| s.id@) =~= before.map_values(
                |s: AuthZenSubject| s.id@,
            ).push(result.users.entries@[i as int].0@));
        }
        i = i + 1;
    }
    assert(result.users.entries@.subrange(0, result.users.entries@.len() as int)
        == result.users.entries@);
    SubjectSearchResponse {
        results,
        page: Some(PageResponse { next_token: None }),
        context: None,
    }
}

/// The capabilities of this policy decision point.
#[derive(Debug, Clone)]
pub struct AuthZenMetadataResponse {
    pub policy_decision_point: String,
    pub access_evaluation_endpoint: String,
    pub access_evaluations_endpoint: String,
    pub search_subject_endpoint: String,
    pub search_action_endpoint: String,
    pub search_resource_endpoint: String,
}

/// The base URL of a request: its scheme (else `http`), `://`, and its
/// authority (else `localhost:7766`).
pub open spec fn metadata_base(scheme: Option<Seq<char>>, authority: Option<Seq<char>>) -> Seq<char> {
    (match scheme {
        Some(s) => s,
        None => "http"@,
    }) + "://"@ + (match authority {
        Some(a) => a,
        None => "localhost:7766"@,
    })
}

impl AuthZenMetadataResponse {
    /// The endpoints under the base URL of a request.
    pub fn for_request(scheme: Option<&str>, authority: Option<&str>) -> (m: AuthZenMetadataResponse)
        ensures
            ({
                let base = metadata_base(
                    match scheme {
                        Some(s) => Some(s@),
                        None => None,
                    },
                    match authority {
                        Some(a) => Some(a@),
                        None => None,
                    },
                );
                &&& m.policy_decision_point@ == base
                &&& m.access_evaluation_endpoint@ == base + "/access/v1/evaluation"@
                &&& m.access_evaluations_endpoint@ == base + "/access/v1/evaluations"@
                &&& m.search_subject_endpoint@ == base + "/access/v1/search/subject"@
                &&& m.search_resource_endpoint@ == base + "/access/v1/search/resource"@
                &&& m.search_action_endpoint@ == base + "/access/v1/search/action"@
            }),
    {
        let s = match scheme {
            Some(s) => s,
            None => "http",
        };
        let a = match authority {
            Some(a) => a,
            None => "localhost:7766",
        };
        let base = concat2(s, "://").concat(a);
        AuthZenMetadataResponse {
            policy_decision_point: base.clone(),
            access_evaluation_endpoint: concat2(base.as_str(), "/access/v1/evaluation"),
            access_evaluations_endpoint: concat2(base.as_str(), "/access/v1/evaluations"),
            search_subject_endpoint: concat2(base.as_str(), "/access/v1/search/subject"),
            search_action_endpoint: concat2(base.as_str(), "/access/v1/search/action"),
            search_resource_endpoint: concat2(base.as_str(), "/access/v1/search/resource"),
        }
    }
}

} // verus!
