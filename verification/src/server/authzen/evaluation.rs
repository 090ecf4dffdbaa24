//! Single access evaluations of the AuthZen API.

use crate::server::authzen::schema::{
    properties_map, properties_wf, resource_from_authzen, take_properties, user_from_subject,
    AuthZenAction, AuthZenResource, AuthZenSubject,
};
use crate::server::models::{AllowedQuery, AllowedResult, AuthorizationQuery, JsonMap, Resource, User};
use vstd::prelude::*;

verus! {

/// An access evaluation: may the subject perform the action on the resource.
#[derive(Debug, Clone)]
pub struct AccessEvaluationRequest {
    pub subject: AuthZenSubject,
    pub resource: AuthZenResource,
    pub action: AuthZenAction,
    pub context: Option<JsonMap>,
}

/// The decision of an access evaluation.
#[derive(Debug, Clone)]
pub struct AccessEvaluationResponse {
    pub decision: bool,
    pub context: Option<JsonMap>,
}

impl AccessEvaluationRequest {
    /// All property maps of the request are well formed.
    pub open spec fn wf(&self) -> bool {
        &&& properties_wf(self.subject.properties)
        &&& properties_wf(self.resource.properties)
        &&& properties_wf(self.context)
    }
}

/// `q` is the permission check of an AuthZen evaluation of `action` by
/// `subject` on `resource` with context `context`, asked by the AuthZen SDK.
pub open spec fn authzen_query(
    q: AllowedQuery,
    subject: AuthZenSubject,
    resource: AuthZenResource,
    action: AuthZenAction,
    context: Map<Seq<char>, crate::server::models::JsonValue>,
) -> bool {
    &&& user_from_subject(q.user, subject)
    &&& q.action == action.name
    &&& resource_from_authzen(q.resource, resource)
    &&& q.context.wf()
    &&& q.context@ == context
    &&& (q.sdk matches Some(s) && s@ == "authzen"@)
}

impl AuthorizationQuery {
    /// The permission check of an access evaluation; a missing context is
    /// an empty one.
    pub fn from(req: AccessEvaluationRequest) -> (q: AllowedQuery)
        requires
            req.wf(),
        ensures
            authzen_query(q, req.subject, req.resource, req.action, properties_map(req.context)),
    {
        AuthorizationQuery {
            user: User::from(req.subject),
            action: req.action.name,
            resource: Resource::from(req.resource),
            context: take_properties(req.context),
            sdk: Some("authzen".to_owned()),
        }
    }
}

/// The context that answers a decision: the debug output if there is one,
/// else the query as the engine saw it.
pub open spec fn decision_context(res: AllowedResult) -> Option<JsonMap> {
    match res.debug {
        Some(d) => Some(d),
        None => res.query,
    }
}

impl AccessEvaluationResponse {
    /// The AuthZen form of a decision.
    pub fn from(res: AllowedResult) -> (r: AccessEvaluationResponse)
        ensures
            r.decision == res.allow,
            r.context == decision_context(res),
    {
        let context = match res.debug {
            Some(d) => Some(d),
            None => res.query,
        };
        AccessEvaluationResponse { decision: res.allow, context }
    }
}

} // verus!
