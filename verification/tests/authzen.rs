use pdp::server::authzen::errors::{ApiError, AuthZenError, AuthZenErrorCode};
use pdp::server::authzen::evaluation::{AccessEvaluationRequest, AccessEvaluationResponse};
use pdp::server::authzen::evaluations::{
    convert_to_allowed_query, evaluations_response, missing_evaluations_message,
    plan_access_evaluations, AccessEvaluationsRequest, EvaluationResult, IndividualEvaluation,
};
use pdp::server::authzen::schema::{AuthZenAction, AuthZenResource, AuthZenSubject};
use pdp::server::authzen::search::{
    action_search_response, resource_search_response, subject_search_response,
    ActionSearchRequest, AuthZenMetadataResponse, ResourceSearchRequest, SubjectSearchRequest,
};
use pdp::server::models::{
    AllowedQuery, AuthorizationResult, AuthorizedUserAssignment, AuthorizedUsersQuery,
    AuthorizedUsersResult, BulkAuthorizationResult, JsonMap, JsonValue, Resource,
    ResourceDetails, User, UserPermissionsQuery, UserPermissionsResult,
};
use pdp::strmap::StrMap;

fn map(entries: Vec<(&str, JsonValue)>) -> JsonMap {
    let mut m = StrMap::new();
    for (k, v) in entries {
        m.insert(k.to_string(), v);
    }
    m
}

fn s(v: &str) -> JsonValue {
    JsonValue::Str(v.to_string())
}

fn attr<'a>(m: &'a JsonMap, key: &str) -> Option<&'a JsonValue> {
    m.get(key)
}

fn same(a: Option<&JsonValue>, b: &JsonValue) -> bool {
    match (a, b) {
        (Some(JsonValue::Str(x)), JsonValue::Str(y)) => x == y,
        (Some(JsonValue::Number(x)), JsonValue::Number(y)) => x == y,
        (Some(JsonValue::Bool(x)), JsonValue::Bool(y)) => x == y,
        (Some(JsonValue::Array(x)), JsonValue::Array(y)) => x == y,
        (Some(JsonValue::Object(x)), JsonValue::Object(y)) => x == y,
        (Some(JsonValue::Null), JsonValue::Null) => true,
        _ => false,
    }
}

#[test]
fn test_authzen_resource_conversion_with_attributes() {
    let authzen_resource = AuthZenResource {
        kind: "document".to_string(),
        id: Some("doc-123".to_string()),
        properties: Some(map(vec![
            ("tenant", s("acme-corp")),
            ("department", s("sales")),
            ("classification", s("confidential")),
            ("owner", s("bob@example.com")),
            ("created_at", s("2023-01-01T00:00:00Z")),
            ("tags", JsonValue::Array("[\"financial\",\"customer-data\"]".to_string())),
            ("metadata", JsonValue::Object("{\"locked\":true,\"version\":1}".to_string())),
        ])),
    };
    let opa_resource = Resource::from(authzen_resource);
    assert_eq!(opa_resource.kind, "document");
    assert_eq!(opa_resource.key, Some("doc-123".to_string()));
    assert_eq!(opa_resource.tenant, Some("acme-corp".to_string()));
    assert_eq!(opa_resource.attributes.len(), 6);
    assert!(same(attr(&opa_resource.attributes, "department"), &s("sales")));
    assert!(same(attr(&opa_resource.attributes, "classification"), &s("confidential")));
    assert!(same(attr(&opa_resource.attributes, "owner"), &s("bob@example.com")));
    assert!(same(attr(&opa_resource.attributes, "created_at"), &s("2023-01-01T00:00:00Z")));
    assert!(same(
        attr(&opa_resource.attributes, "tags"),
        &JsonValue::Array("[\"financial\",\"customer-data\"]".to_string())
    ));
    assert!(same(
        attr(&opa_resource.attributes, "metadata"),
        &JsonValue::Object("{\"locked\":true,\"version\":1}".to_string())
    ));
    assert!(attr(&opa_resource.attributes, "tenant").is_none());
    assert!(opa_resource.context.is_empty());
}

#[test]
fn test_authzen_resource_conversion_minimal() {
    let authzen_resource = AuthZenResource {
        kind: "document".to_string(),
        id: Some("doc-456".to_string()),
        properties: None,
    };
    let opa_resource = Resource::from(authzen_resource);
    assert_eq!(opa_resource.kind, "document");
    assert_eq!(opa_resource.key, Some("doc-456".to_string()));
    assert!(opa_resource.tenant.is_none());
    assert!(opa_resource.attributes.is_empty());
    assert!(opa_resource.context.is_empty());
}

#[test]
fn test_authzen_resource_conversion_tenant_only() {
    let authzen_resource = AuthZenResource {
        kind: "file".to_string(),
        id: Some("file-789".to_string()),
        properties: Some(map(vec![("tenant", s("other-corp"))])),
    };
    let opa_resource = Resource::from(authzen_resource);
    assert_eq!(opa_resource.kind, "file");
    assert_eq!(opa_resource.key, Some("file-789".to_string()));
    assert_eq!(opa_resource.tenant, Some("other-corp".to_string()));
    assert!(opa_resource.attributes.is_empty());
}

#[test]
fn test_authzen_subject_conversion_with_attributes() {
    let authzen_subject = AuthZenSubject {
        kind: "user".to_string(),
        id: "alice@example.com".to_string(),
        properties: Some(map(vec![
            ("first_name", s("Alice")),
            ("last_name", s("Smith")),
            ("email", s("alice@example.com")),
            ("department", s("engineering")),
            ("role", s("senior")),
            ("clearance_level", JsonValue::Number("3".to_string())),
            ("active", JsonValue::Bool(true)),
        ])),
    };
    let opa_user = User::from(authzen_subject);
    assert_eq!(opa_user.key, "alice@example.com");
    assert_eq!(opa_user.first_name, Some("Alice".to_string()));
    assert_eq!(opa_user.last_name, Some("Smith".to_string()));
    assert_eq!(opa_user.email, Some("alice@example.com".to_string()));
    assert_eq!(opa_user.attributes.len(), 4);
    assert!(same(attr(&opa_user.attributes, "department"), &s("engineering")));
    assert!(same(attr(&opa_user.attributes, "role"), &s("senior")));
    assert!(same(
        attr(&opa_user.attributes, "clearance_level"),
        &JsonValue::Number("3".to_string())
    ));
    assert!(same(attr(&opa_user.attributes, "active"), &JsonValue::Bool(true)));
}

#[test]
fn test_authzen_subject_conversion_minimal() {
    let authzen_subject = AuthZenSubject {
        kind: "user".to_string(),
        id: "bob@example.com".to_string(),
        properties: None,
    };
    let opa_user = User::from(authzen_subject);
    assert_eq!(opa_user.key, "bob@example.com");
    assert!(opa_user.first_name.is_none());
    assert!(opa_user.last_name.is_none());
    assert!(opa_user.email.is_none());
    assert!(opa_user.attributes.is_empty());
}

#[test]
fn test_authzen_resource_conversion_without_id() {
    let authzen_resource = AuthZenResource {
        kind: "document".to_string(),
        id: Some("doc-123".to_string()),
        properties: Some(map(vec![
            ("tenant", s("test-corp")),
            ("category", s("public")),
            ("size", JsonValue::Number("1024".to_string())),
        ])),
    };
    let opa_resource = Resource::from(authzen_resource);
    assert_eq!(opa_resource.kind, "document");
    assert_eq!(opa_resource.key, Some("doc-123".to_string()));
    assert_eq!(opa_resource.tenant, Some("test-corp".to_string()));
    assert_eq!(opa_resource.attributes.len(), 2);
    assert!(same(attr(&opa_resource.attributes, "category"), &s("public")));
    assert!(same(
        attr(&opa_resource.attributes, "size"),
        &JsonValue::Number("1024".to_string())
    ));
}

#[test]
fn string_properties_of_another_type_are_dropped() {
    let subject = AuthZenSubject {
        kind: "user".to_string(),
        id: "carol".to_string(),
        properties: Some(map(vec![
            ("first_name", JsonValue::Number("7".to_string())),
            ("email", JsonValue::Null),
            ("team", s("red")),
        ])),
    };
    let user = User::from(subject);
    assert!(user.first_name.is_none());
    assert!(user.email.is_none());
    assert_eq!(user.attributes.len(), 1);
    assert!(same(attr(&user.attributes, "team"), &s("red")));

    let resource = AuthZenResource {
        kind: "doc".to_string(),
        id: None,
        properties: Some(map(vec![("tenant", JsonValue::Bool(false))])),
    };
    let r = Resource::from(resource);
    assert!(r.tenant.is_none());
    assert!(r.key.is_none());
    assert!(r.attributes.is_empty());
}

#[test]
fn test_access_evaluation_request_conversion() {
    let authzen_request = AccessEvaluationRequest {
        subject: AuthZenSubject {
            kind: "user".to_string(),
            id: "alice@example.com".to_string(),
            properties: None,
        },
        resource: AuthZenResource {
            kind: "document".to_string(),
            id: Some("doc-123".to_string()),
            properties: Some(map(vec![
                ("tenant", s("acme-corp")),
                ("department", s("sales")),
                ("classification", s("confidential")),
            ])),
        },
        action: AuthZenAction { name: "can_read".to_string(), properties: None },
        context: Some(map(vec![("request_time", s("2023-01-01T12:00:00Z"))])),
    };
    let allowed_query: AllowedQuery = AllowedQuery::from(authzen_request);
    assert_eq!(allowed_query.user.key, "alice@example.com");
    assert!(allowed_query.user.first_name.is_none());
    assert!(allowed_query.user.attributes.is_empty());
    assert_eq!(allowed_query.action, "can_read");
    assert_eq!(allowed_query.resource.kind, "document");
    assert_eq!(allowed_query.resource.key, Some("doc-123".to_string()));
    assert_eq!(allowed_query.resource.tenant, Some("acme-corp".to_string()));
    assert_eq!(allowed_query.resource.attributes.len(), 2);
    assert!(same(attr(&allowed_query.resource.attributes, "department"), &s("sales")));
    assert!(same(
        attr(&allowed_query.resource.attributes, "classification"),
        &s("confidential")
    ));
    assert_eq!(allowed_query.context.len(), 1);
    assert!(same(
        attr(&allowed_query.context, "request_time"),
        &s("2023-01-01T12:00:00Z")
    ));
    assert_eq!(allowed_query.sdk, Some("authzen".to_string()));
}

fn result(allow: bool, debug: Option<JsonMap>, query: Option<JsonMap>) -> AuthorizationResult {
    AuthorizationResult { allow, query, debug, result: allow }
}

#[test]
fn evaluation_response_prefers_debug_over_query() {
    let r = AccessEvaluationResponse::from(result(
        true,
        Some(map(vec![("reason", s("role"))])),
        Some(map(vec![("input", s("q"))])),
    ));
    assert!(r.decision);
    assert!(attr(r.context.as_ref().unwrap(), "reason").is_some());

    let r = AccessEvaluationResponse::from(result(false, None, Some(map(vec![("input", s("q"))]))));
    assert!(!r.decision);
    assert!(attr(r.context.as_ref().unwrap(), "input").is_some());

    let r = EvaluationResult::from(result(true, None, None));
    assert!(r.decision);
    assert!(r.context.is_none());
}

fn subject(id: &str) -> AuthZenSubject {
    AuthZenSubject { kind: "user".to_string(), id: id.to_string(), properties: None }
}

fn resource(id: &str) -> AuthZenResource {
    AuthZenResource { kind: "document".to_string(), id: Some(id.to_string()), properties: None }
}

fn action(name: &str) -> AuthZenAction {
    AuthZenAction { name: name.to_string(), properties: None }
}

fn evaluation(
    subject: Option<AuthZenSubject>,
    resource: Option<AuthZenResource>,
    action: Option<AuthZenAction>,
    context: Option<JsonMap>,
) -> IndividualEvaluation {
    IndividualEvaluation { subject, resource, action, context }
}

#[test]
fn evaluations_take_defaults_and_merge_context() {
    let defaults = AccessEvaluationsRequest {
        subject: Some(subject("alice@example.com")),
        resource: None,
        action: None,
        context: Some(map(vec![("ip", s("1.2.3.4")), ("time", s("noon"))])),
        evaluations: vec![],
        options: None,
    };
    let e = evaluation(
        None,
        Some(resource("doc1")),
        Some(action("can_read")),
        Some(map(vec![("time", s("midnight"))])),
    );
    let q = convert_to_allowed_query(&e, &defaults).ok().unwrap();
    assert_eq!(q.user.key, "alice@example.com");
    assert_eq!(q.action, "can_read");
    assert_eq!(q.resource.key, Some("doc1".to_string()));
    assert_eq!(q.context.len(), 2);
    assert!(same(attr(&q.context, "time"), &s("midnight")));
    assert!(same(attr(&q.context, "ip"), &s("1.2.3.4")));
    assert_eq!(q.sdk, Some("authzen".to_string()));

    let own = evaluation(Some(subject("bob")), Some(resource("doc2")), Some(action("write")), None);
    let q = convert_to_allowed_query(&own, &defaults).ok().unwrap();
    assert_eq!(q.user.key, "bob");
}

#[test]
fn evaluations_report_missing_fields_in_order() {
    let defaults = AccessEvaluationsRequest {
        subject: None,
        resource: None,
        action: Some(action("read")),
        context: None,
        evaluations: vec![],
        options: None,
    };
    let e = evaluation(None, None, None, None);
    let missing = convert_to_allowed_query(&e, &defaults).err().unwrap();
    assert_eq!(missing, vec!["subject".to_string(), "resource".to_string()]);
}

#[test]
fn evaluation_batches_are_planned_or_refused() {
    let empty = AccessEvaluationsRequest {
        subject: None,
        resource: None,
        action: None,
        context: None,
        evaluations: vec![],
        options: None,
    };
    match plan_access_evaluations(&empty) {
        Err(Err(e)) => {
            assert_eq!(e.code, AuthZenErrorCode::InvalidRequest);
            assert_eq!(e.message, "No evaluations provided");
        }
        _ => panic!("an empty batch is refused"),
    }

    let batch = AccessEvaluationsRequest {
        subject: Some(subject("alice")),
        resource: None,
        action: None,
        context: None,
        evaluations: vec![
            evaluation(None, Some(resource("doc1")), Some(action("read")), None),
            evaluation(None, None, Some(action("write")), None),
            evaluation(None, Some(resource("doc3")), None, None),
        ],
        options: None,
    };
    match plan_access_evaluations(&batch) {
        Err(Ok(missing)) => {
            assert_eq!(missing.len(), 2);
            assert_eq!(missing[0].index, 1);
            assert_eq!(missing[0].missing, vec!["resource".to_string()]);
            assert_eq!(missing[1].index, 2);
            assert_eq!(missing[1].missing, vec!["action".to_string()]);
        }
        _ => panic!("incomplete evaluations are reported"),
    }

    let complete = AccessEvaluationsRequest {
        subject: Some(subject("alice")),
        resource: Some(resource("doc")),
        action: None,
        context: None,
        evaluations: vec![
            evaluation(None, None, Some(action("read")), None),
            evaluation(None, None, Some(action("write")), None),
        ],
        options: None,
    };
    let queries = match plan_access_evaluations(&complete) {
        Ok(q) => q,
        _ => panic!("complete evaluations are planned"),
    };
    assert_eq!(queries.len(), 2);
    assert_eq!(queries[0].action, "read");
    assert_eq!(queries[1].action, "write");
}

#[test]
fn missing_evaluations_message_lists_each_evaluation() {
    let details = vec![(1usize, vec!["subject".to_string(), "action".to_string()], "{}".to_string())];
    let msg = missing_evaluations_message(&details);
    assert_eq!(
        msg,
        "Invalid evaluations request:\n- Evaluation at position 1: Missing required fields: subject, action\n  Provided evaluation: {}\n\nPlease provide all required fields (subject, resource, action) either in individual evaluations or at the request level."
    );
}

#[test]
fn evaluations_response_keeps_order_of_checks() {
    let bulk = BulkAuthorizationResult {
        allow: vec![result(true, None, None), result(false, None, None)],
    };
    let r = evaluations_response(bulk);
    assert_eq!(r.evaluations.len(), 2);
    assert!(r.evaluations[0].decision);
    assert!(!r.evaluations[1].decision);
}

#[test]
fn authzen_errors_map_statuses() {
    assert_eq!(AuthZenErrorCode::InvalidRequest.status_code(), 400);
    assert_eq!(AuthZenErrorCode::Unauthorized.status_code(), 401);
    assert_eq!(AuthZenErrorCode::Forbidden.status_code(), 403);
    assert_eq!(AuthZenErrorCode::InternalError.status_code(), 500);

    let e = AuthZenError::from(ApiError { status_code: 401, detail: "x".to_string() });
    assert_eq!(e.code, AuthZenErrorCode::Unauthorized);
    assert_eq!(e.message, "Authentication required");
    let e = AuthZenError::from(ApiError { status_code: 403, detail: "x".to_string() });
    assert_eq!(e.message, "Access denied");
    let e = AuthZenError::from(ApiError { status_code: 400, detail: "bad input".to_string() });
    assert_eq!(e.code, AuthZenErrorCode::InvalidRequest);
    assert_eq!(e.message, "bad input");
    let e = AuthZenError::from(ApiError { status_code: 502, detail: "secret".to_string() });
    assert_eq!(e.code, AuthZenErrorCode::InternalError);
    assert_eq!(e.message, "Internal server error");
    assert_eq!(e.into_response(), (500, "Internal server error".to_string()));
    assert_eq!(AuthZenError::from_forwarding_failure().message, "Internal server error");
}

#[test]
fn action_search_query_uses_json_text_of_tenant() {
    let req = ActionSearchRequest {
        subject: subject("alice"),
        resource: AuthZenResource {
            kind: "document".to_string(),
            id: Some("doc1".to_string()),
            properties: Some(map(vec![("tenant", s("acme"))])),
        },
        context: None,
        page: None,
    };
    let q = UserPermissionsQuery::from(req);
    assert_eq!(q.tenants, Some(vec!["\"acme\"".to_string()]));
    assert_eq!(q.resources, Some(vec!["doc1".to_string()]));
    assert_eq!(q.resource_types, Some(vec!["document".to_string()]));
    assert!(q.context.unwrap().is_empty());

    let req = ResourceSearchRequest {
        subject: subject("alice"),
        action: None,
        resource_type: Some("document".to_string()),
        context: None,
        page: None,
    };
    let q = UserPermissionsQuery::from_resource_search(req);
    assert!(q.tenants.is_none());
    assert!(q.resources.is_none());
    assert_eq!(q.resource_types, Some(vec!["document".to_string()]));
}

fn perms(entries: Vec<(&str, Option<ResourceDetails>, Vec<&str>)>) -> StrMap<UserPermissionsResult> {
    let mut m = StrMap::new();
    for (k, resource, p) in entries {
        m.insert(
            k.to_string(),
            UserPermissionsResult {
                tenant: None,
                resource,
                permissions: p.into_iter().map(|x| x.to_string()).collect(),
                roles: None,
            },
        );
    }
    m
}

#[test]
fn action_search_results_are_sorted_and_unique() {
    let p = perms(vec![
        ("document:doc1", None, vec!["can_read", "can_edit"]),
        ("document:doc2", None, vec!["can_read", "can_delete"]),
    ]);
    let r = action_search_response(&p);
    let names: Vec<String> = r.results.iter().map(|a| a.name.clone()).collect();
    assert_eq!(names, vec!["can_delete", "can_edit", "can_read"]);
    assert!(r.results.iter().all(|a| a.properties.is_none()));
    assert!(r.page.unwrap().next_token.is_none());
}

fn details(kind: &str, key: &str, attrs: JsonMap) -> ResourceDetails {
    ResourceDetails { key: key.to_string(), kind: kind.to_string(), attributes: attrs }
}

#[test]
fn resource_search_keeps_one_resource_per_id() {
    let p = perms(vec![
        ("a", Some(details("document", "doc1", StrMap::new())), vec!["read"]),
        ("b", None, vec!["read"]),
        ("c", Some(details("folder", "doc1", map(vec![("color", s("red"))]))), vec!["read"]),
        ("d", Some(details("document", "doc2", StrMap::new())), vec!["read"]),
    ]);
    let r = resource_search_response(p);
    assert_eq!(r.results.len(), 2);
    assert_eq!(r.results[0].id, Some("doc1".to_string()));
    assert_eq!(r.results[0].kind, "folder");
    assert!(r.results[0].properties.is_some());
    assert_eq!(r.results[1].id, Some("doc2".to_string()));
    assert!(r.results[1].properties.is_none());
}

#[test]
fn subject_search_lists_users_with_assignments() {
    let mut users = StrMap::new();
    users.insert(
        "alice".to_string(),
        vec![AuthorizedUserAssignment {
            user: "alice".to_string(),
            tenant: "default".to_string(),
            resource: "document:doc".to_string(),
            role: "viewer".to_string(),
        }],
    );
    users.insert("bob".to_string(), vec![]);
    let result = AuthorizedUsersResult {
        resource: "document:doc".to_string(),
        tenant: "default".to_string(),
        users,
    };
    let r = subject_search_response(&result);
    assert_eq!(r.results.len(), 1);
    assert_eq!(r.results[0].id, "alice");
    assert_eq!(r.results[0].kind, "user");

    let q = AuthorizedUsersQuery::from(SubjectSearchRequest {
        resource: resource("doc"),
        action: action("read"),
        context: None,
        page: None,
    });
    assert_eq!(q.action, "read");
    assert_eq!(q.sdk, Some("authzen".to_string()));
    assert!(q.context.is_empty());
}

#[test]
fn metadata_endpoints_follow_the_request_base() {
    let m = AuthZenMetadataResponse::for_request(Some("https"), Some("pdp.example.com"));
    assert_eq!(m.policy_decision_point, "https://pdp.example.com");
    assert_eq!(m.access_evaluation_endpoint, "https://pdp.example.com/access/v1/evaluation");
    assert_eq!(m.search_action_endpoint, "https://pdp.example.com/access/v1/search/action");
    let m = AuthZenMetadataResponse::for_request(None, None);
    assert_eq!(m.policy_decision_point, "http://localhost:7766");
    assert_eq!(m.access_evaluations_endpoint, "http://localhost:7766/access/v1/evaluations");
    assert_eq!(m.search_subject_endpoint, "http://localhost:7766/access/v1/search/subject");
    assert_eq!(m.search_resource_endpoint, "http://localhost:7766/access/v1/search/resource");
}
