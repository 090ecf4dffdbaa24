//! Batches of access evaluations: each evaluation takes what it leaves out
//! from the request's defaults, and the batch is decided by one bulk check.

use crate::server::authzen::errors::AuthZenError;
use crate::server::authzen::evaluation::{authzen_query, decision_context};
use crate::server::authzen::schema::{
    duplicate_properties, properties_map, properties_wf, AuthZenAction, AuthZenResource,
    AuthZenSubject,
};
use crate::server::models::{
    AllowedQuery, AllowedResult, AuthorizationQuery, BulkAuthorizationResult, JsonMap, Resource,
    User,
};
use crate::strmap::StrMap;
use crate::text::{string_views, u64_to_decimal, decimal};
use vstd::prelude::*;

verus! {

/// A batch of evaluations with defaults for what each one leaves out.
#[derive(Debug, Clone)]
pub struct AccessEvaluationsRequest {
    pub subject: Option<AuthZenSubject>,
    pub resource: Option<AuthZenResource>,
    pub action: Option<AuthZenAction>,
    pub context: Option<JsonMap>,
    pub evaluations: Vec<IndividualEvaluation>,
    pub options: Option<JsonMap>,
}

/// One evaluation of a batch; what it gives overrides the defaults.
#[derive(Debug, Clone)]
pub struct IndividualEvaluation {
    pub subject: Option<AuthZenSubject>,
    pub resource: Option<AuthZenResource>,
    pub action: Option<AuthZenAction>,
    pub context: Option<JsonMap>,
}

/// The decisions of a batch, in the order of its evaluations.
#[derive(Debug, Clone)]
pub struct AccessEvaluationsResponse {
    pub evaluations: Vec<EvaluationResult>,
}

/// The decision of one evaluation of a batch.
#[derive(Debug, Clone)]
pub struct EvaluationResult {
    pub decision: bool,
    pub context: Option<JsonMap>,
}

/// The evaluation's own value if it gives one, else the default.
pub open spec fn pick<T>(own: Option<T>, default: Option<T>) -> Option<T> {
    match own {
        Some(x) => Some(x),
        None => default,
    }
}

impl AccessEvaluationsRequest {
    /// All property maps of the request and its evaluations are well formed.
    pub open spec fn wf(&self) -> bool {
        &&& (self.subject matches Some(s) ==> properties_wf(s.properties))
        &&& (self.resource matches Some(r) ==> properties_wf(r.properties))
        &&& properties_wf(self.context)
        &&& forall|i: int|
            0 <= i < self.evaluations@.len() ==> #[trigger] self.evaluations@[i].wf()
    }
}

impl IndividualEvaluation {
    /// All property maps of the evaluation are well formed.
    pub open spec fn wf(&self) -> bool {
        &&& (self.subject matches Some(s) ==> properties_wf(s.properties))
        &&& (self.resource matches Some(r) ==> properties_wf(r.properties))
        &&& properties_wf(self.context)
    }
}

/// The names of the parts that neither the evaluation nor the defaults give,
/// in the order subject, resource, action.
pub open spec fn missing_fields(e: IndividualEvaluation, d: AccessEvaluationsRequest) -> Seq<
    Seq<char>,
> {
    (if pick(e.subject, d.subject) is None {
        seq!["subject"@]
    } else {
        Seq::empty()
    }) + (if pick(e.resource, d.resource) is None {
        seq!["resource"@]
    } else {
        Seq::empty()
    }) + (if pick(e.action, d.action) is None {
        seq!["action"@]
    } else {
        Seq::empty()
    })
}

/// The context of an evaluation: the default context with the evaluation's
/// own entries over it.
pub open spec fn merged_context(e: IndividualEvaluation, d: AccessEvaluationsRequest) -> Map<
    Seq<char>,
    crate::server::models::JsonValue,
> {
    properties_map(d.context).union_prefer_right(properties_map(e.context))
}

/// The permission check of one evaluation of a batch, or the names of the
/// parts that are missing.
pub fn convert_to_allowed_query(
    evaluation: &IndividualEvaluation,
    defaults: &AccessEvaluationsRequest,
) -> (r: Result<AllowedQuery, Vec<String>>)
    requires
        evaluation.wf(),
        defaults.wf(),
    ensures
        r is Ok <==> missing_fields(*evaluation, *defaults).len() == 0,
        match r {
            Ok(q) => authzen_query(
                q,
                pick(evaluation.subject, defaults.subject)->0,
                pick(evaluation.resource, defaults.resource)->0,
                pick(evaluation.action, defaults.action)->0,
                merged_context(*evaluation, *defaults),
            ),
            Err(m) => string_views(m@) == missing_fields(*evaluation, *defaults),
        },
{
    let subject = match &evaluation.subject {
        Some(s) => Some(s),
        None => match &defaults.subject {
            Some(s) => Some(s),
            None => None,
        },
    };
    let resource = match &evaluation.resource {
        Some(r) => Some(r),
        None => match &defaults.resource {
            Some(r) => Some(r),
            None => None,
        },
    };
    let action = match &evaluation.action {
        Some(a) => Some(a),
        None => match &defaults.action {
            Some(a) => Some(a),
            None => None,
        },
    };
    let mut context: JsonMap = match duplicate_properties(&defaults.context) {
        Some(m) => m,
        None => StrMap::new(),
    };
    if let Some(c) = &evaluation.context {
        context.extend_from(c);
    }
    proof {
        assert(context@ == merged_context(*evaluation, *defaults));
    }
    let mut missing: Vec<String> = Vec::new();
    if subject.is_none() {
        missing.push("subject".to_owned());
    }
    if resource.is_none() {
        missing.push("resource".to_owned());
    }
    if action.is_none() {
        missing.push("action".to_owned());
    }
    proof {
        assert(string_views(missing@) =~= missing_fields(*evaluation, *defaults));
    }
    match (subject, resource, action) {
        (Some(s), Some(r), Some(a)) => {
            let q = AuthorizationQuery {
                user: User::from(s.duplicate()),
                action: a.name.clone(),
                resource: Resource::from(r.duplicate()),
                context,
                sdk: Some("authzen".to_owned()),
            };
            Ok(q)
        },
        _ => Err(missing),
    }
}

impl EvaluationResult {
    /// The batch form of a decision.
    pub fn from(allowed_result: AllowedResult) -> (r: EvaluationResult)
        ensures
            r.decision == allowed_result.allow,
            r.context == decision_context(allowed_result),
    {
        let context = match allowed_result.debug {
            Some(d) => Some(d),
            None => allowed_result.query,
        };
        EvaluationResult { decision: allowed_result.allow, context }
    }
}

/// The evaluations of a batch that lack parts: their positions and the
/// names of the missing parts.
pub struct MissingEvaluation {
    pub index: usize,
    pub missing: Vec<String>,
}

/// The checks of a batch, one per evaluation, or, if some evaluation lacks
/// parts, every such evaluation. An empty batch is refused.
pub fn plan_access_evaluations(request: &AccessEvaluationsRequest) -> (r: Result<
    Vec<AllowedQuery>,
    Result<Vec<MissingEvaluation>, AuthZenError>,
>)
    requires
        request.wf(),
    ensures
        request.evaluations@.len() == 0 <==> (r matches Err(Err(e)) && e.message@
            == "No evaluations provided"@ && e.code
            == crate::server::authzen::errors::AuthZenErrorCode::InvalidRequest),
        r is Ok ==> forall|i: int|
            0 <= i < request.evaluations@.len() ==> missing_fields(
                #[trigger] request.evaluations@[i],
                *request,
            ).len() == 0,
        match r {
            Ok(qs) => {
                &&& qs@.len() == request.evaluations@.len()
                &&& forall|i: int|
                    0 <= i < qs@.len() ==> #[trigger] authzen_query(
                        qs@[i],
                        pick(request.evaluations@[i].subject, request.subject)->0,
                        pick(request.evaluations@[i].resource, request.resource)->0,
                        pick(request.evaluations@[i].action, request.action)->0,
                        merged_context(request.evaluations@[i], *request),
                    )
            },
            Err(Ok(ms)) => {
                &&& ms@.len() > 0
                &&& forall|k: int|
                    0 <= k < ms@.len() ==> {
                        &&& #[trigger] ms@[k].index < request.evaluations@.len()
                        &&& string_views(ms@[k].missing@) == missing_fields(
                            request.evaluations@[ms@[k].index as int],
                            *request,
                        )
                        &&& missing_fields(
                            request.evaluations@[ms@[k].index as int],
                            *request,
                        ).len() > 0
                    }
                &&& forall|k1: int, k2: int|
                    0 <= k1 < k2 < ms@.len() ==> #[trigger] ms@[k1].index < #[trigger] ms@[k2].index
                &&& forall|i: int|
                    0 <= i < request.evaluations@.len() && missing_fields(
                        #[trigger] request.evaluations@[i],
                        *request,
                    ).len() > 0 ==> exists|k: int| 0 <= k < ms@.len() && ms@[k].index == i
            },
            Err(Err(_)) => request.evaluations@.len() == 0,
        },
{
    if request.evaluations.len() == 0 {
        return Err(Err(AuthZenError::invalid_request("No evaluations provided".to_owned())));
    }
    let mut queries: Vec<AllowedQuery> = Vec::new();
    let mut missing: Vec<MissingEvaluation> = Vec::new();
    let mut i: usize = 0;
    while i < request.evaluations.len()
        invariant
            request.wf(),
            i <= request.evaluations@.len(),
            missing@.len() == 0 ==> queries@.len() == i,
            missing@.len() == 0 ==> forall|j: int|
                0 <= j < i ==> #[trigger] authzen_query(
                    queries@[j],
                    pick(request.evaluations@[j].subject, request.subject)->0,
                    pick(request.evaluations@[j].resource, request.resource)->0,
                    pick(request.evaluations@[j].action, request.action)->0,
                    merged_context(request.evaluations@[j], *request),
                ),
            forall|k: int|
                0 <= k < missing@.len() ==> {
                    &&& #[trigger] missing@[k].index < i
                    &&& string_views(missing@[k].missing@) == missing_fields(
                        request.evaluations@[missing@[k].index as int],
                        *request,
                    )
                    &&& missing_fields(
                        request.evaluations@[missing@[k].index as int],
                        *request,
                    ).len() > 0
                },
            forall|k1: int, k2: int|
                0 <= k1 < k2 < missing@.len() ==> #[trigger] missing@[k1].index
                    < #[trigger] missing@[k2].index,
            forall|j: int|
                0 <= j < i && missing_fields(#[trigger] request.evaluations@[j], *request).len()
                    > 0 ==> exists|k: int| 0 <= k < missing@.len() && missing@[k].index == j,
        decreases request.evaluations@.len() - i,
    {
        let e = &request.evaluations[i];
        assert(e.wf());
        match convert_to_allowed_query(e, request) {
            Ok(q) => {
                queries.push(q);
            },
            Err(m) => {
                let ghost before = missing@;
                missing.push(MissingEvaluation { index: i, missing: m });
                proof {
                    assert forall|j: int|
                        0 <= j <= i && missing_fields(
                            #[trigger] request.evaluations@[j],
                            *request,
                        ).len() > 0 implies exists|k: int|
                        0 <= k < missing@.len() && missing@[k].index == j by {
                        if j < i {
                            let k = choose|k: int| 0 <= k < before.len() && before[k].index == j;
                            assert(missing@[k] == before[k]);
                        } else {
                            assert(missing@[before.len() as int].index == j);
                        }
                    }
                }
            },
        }
        i = i + 1;
    }
    if missing.len() > 0 {
        Err(Ok(missing))
    } else {
        Ok(queries)
    }
}

/// The message that refuses a batch with incomplete evaluations. Each entry
/// gives a position, the missing parts and the evaluation as pretty JSON.
pub fn missing_evaluations_message(details: &Vec<(usize, Vec<String>, String)>) -> (msg: String)
    ensures
        msg@ == missing_message_text(details@),
{
    let mut msg = "Invalid evaluations request:\n".to_owned();
    let mut i: usize = 0;
    while i < details.len()
        invariant
            i <= details@.len(),
            msg@ == "Invalid evaluations request:\n"@ + missing_lines(details@.subrange(0, i as int)),
        decreases details@.len() - i,
    {
        let ghost before = msg@;
        assert(details@.subrange(0, i + 1).drop_last() == details@.subrange(0, i as int));
        let d = &details[i];
        msg.append("- Evaluation at position ");
        msg.append(u64_to_decimal(d.0 as u64).as_str());
        msg.append(": Missing required fields: ");
        msg.append(crate::text::join(&d.1, ", ").as_str());
        msg.append("\n  Provided evaluation: ");
        msg.append(d.2.as_str());
        msg.append("\n");
        assert(msg@ =~= before + missing_line(details@[i as int]));
        i = i + 1;
    }
    assert(details@.subrange(0, details@.len() as int) == details@);
    msg.append(
        "\nPlease provide all required fields (subject, resource, action) either in individual evaluations or at the request level.",
    );
    msg
}

/// The line of the refusal message for one incomplete evaluation.
pub open spec fn missing_line(d: (usize, Vec<String>, String)) -> Seq<char> {
    "- Evaluation at position "@ + decimal(d.0 as nat) + ": Missing required fields: "@
        + crate::text::join_spec(string_views(d.1@), ", "@) + "\n  Provided evaluation: "@ + d.2@
        + "\n"@
}

/// The lines for the incomplete evaluations, in order.
pub open spec fn missing_lines(ds: Seq<(usize, Vec<String>, String)>) -> Seq<char>
    decreases ds.len(),
{
    if ds.len() == 0 {
        Seq::empty()
    } else {
        missing_lines(ds.drop_last()) + missing_line(ds.last())
    }
}

/// The whole refusal message.
pub open spec fn missing_message_text(ds: Seq<(usize, Vec<String>, String)>) -> Seq<char> {
    "Invalid evaluations request:\n"@ + missing_lines(ds)
        + "\nPlease provide all required fields (subject, resource, action) either in individual evaluations or at the request level."@
}

/// The decisions of a batch, in the order of its checks.
pub fn evaluations_response(bulk: BulkAuthorizationResult) -> (r: AccessEvaluationsResponse)
    ensures
        r.evaluations@.len() == bulk.allow@.len(),
        forall|i: int|
            0 <= i < r.evaluations@.len() ==> {
                &&& #[trigger] r.evaluations@[i].decision == bulk.allow@[i].allow
                &&& r.evaluations@[i].context == decision_context(bulk.allow@[i])
            },
{
    let mut evaluations: Vec<EvaluationResult> = Vec::new();
    let mut rest = bulk.allow;
    let ghost all = rest@;
    while rest.len() > 0
        invariant
            evaluations@.len() + rest@.len() == all.len(),
            rest@ == all.subrange(evaluations@.len() as int, all.len() as int),
            forall|j: int|
                0 <= j < evaluations@.len() ==> {
                    &&& #[trigger] evaluations@[j].decision == all[j].allow
                    &&& evaluations@[j].context == decision_context(all[j])
                },
        decreases rest@.len(),
    {
        let a = rest.remove(0);
        evaluations.push(EvaluationResult::from(a));
    }
    AccessEvaluationsResponse { evaluations }
}

} // verus!
