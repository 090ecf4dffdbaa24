//! Access decisions for Trino: which permission checks a request needs and
//! how their answers combine into the decision.

use crate::server::models::{
    AllowedQuery, AuthorizationResult, BulkAuthorizationResult, JsonMap, Resource, User,
};
use crate::server::trino::schemas::{
    operation_name, TrinoAuthzQuery, TrinoResource, TrinoTable,
};
use crate::strmap::StrMap;
use crate::text::concat2;
use vstd::prelude::*;

verus! {

/// `a_b`
pub open spec fn underscored2(a: Seq<char>, b: Seq<char>) -> Seq<char> {
    a + "_"@ + b
}

/// The resource type under which a table's permissions are kept.
pub open spec fn table_resource(c: Seq<char>, s: Seq<char>, t: Seq<char>) -> Seq<char> {
    "trino_table_"@ + c + "_"@ + s + "_"@ + t
}

/// The resource type under which a column's permissions are kept.
pub open spec fn column_resource(c: Seq<char>, s: Seq<char>, t: Seq<char>, col: Seq<char>) -> Seq<
    char,
> {
    "trino_column_"@ + c + "_"@ + s + "_"@ + t + "_"@ + col
}

/// The resource type under which a schema's permissions are kept.
pub open spec fn schema_resource(c: Seq<char>, s: Seq<char>) -> Seq<char> {
    "trino_schema_"@ + c + "_"@ + s
}

/// The resource type under which a catalog's permissions are kept.
pub open spec fn catalog_resource(n: Seq<char>) -> Seq<char> {
    "trino_catalog_"@ + n
}

/// The resource type under which a function's permissions are kept.
pub open spec fn function_resource(c: Seq<char>, s: Seq<char>, f: Seq<char>) -> Seq<char> {
    "trino_function_"@ + c + "_"@ + s + "_"@ + f
}

/// The resource type of system-level permissions.
pub open spec fn system_resource() -> Seq<char> {
    "trino_sys"@
}

/// `q` is the permission check that Trino requests turn into: `user` asks to
/// perform `action` on a resource of type `resource` in the default tenant,
/// with no further attributes or context, the SDK being `trino/<version>`.
pub open spec fn trino_query_for(
    q: AllowedQuery,
    user: Seq<char>,
    action: Seq<char>,
    resource: Seq<char>,
    version: Seq<char>,
) -> bool {
    &&& q.wf()
    &&& q.user.key@ == user
    &&& q.user.first_name is None
    &&& q.user.last_name is None
    &&& q.user.email is None
    &&& q.user.attributes@ == Map::<Seq<char>, crate::server::models::JsonValue>::empty()
    &&& q.action@ == action
    &&& q.resource.kind@ == resource
    &&& q.resource.key is None
    &&& (q.resource.tenant matches Some(t) && t@ == "default"@)
    &&& q.resource.attributes@ == Map::<Seq<char>, crate::server::models::JsonValue>::empty()
    &&& q.resource.context@ == Map::<Seq<char>, crate::server::models::JsonValue>::empty()
    &&& q.context@ == Map::<Seq<char>, crate::server::models::JsonValue>::empty()
    &&& (q.sdk matches Some(s) && s@ == "trino/"@ + version)
}

/// The permission check for `user` performing `action` on a resource type.
pub fn make_trino_query(user: &String, action: String, resource: String, version: &String) -> (q:
    AllowedQuery)
    ensures
        trino_query_for(q, user@, action@, resource@, version@),
{
    let empty_attributes: JsonMap = StrMap::new();
    let empty_resource_attributes: JsonMap = StrMap::new();
    let empty_resource_context: JsonMap = StrMap::new();
    let empty_context: JsonMap = StrMap::new();
    AllowedQuery {
        user: User {
            key: user.clone(),
            first_name: None,
            last_name: None,
            email: None,
            attributes: empty_attributes,
        },
        action,
        resource: Resource {
            kind: resource,
            key: None,
            tenant: Some("default".to_owned()),
            attributes: empty_resource_attributes,
            context: empty_resource_context,
        },
        context: empty_context,
        sdk: Some(concat2("trino/", version.as_str())),
    }
}

/// The permission check of an access request on a resource type: the
/// operation is the action.
pub fn build_allowed_query(query: &TrinoAuthzQuery, resource: String) -> (q: AllowedQuery)
    ensures
        trino_query_for(
            q,
            query.context.identity.user@,
            operation_name(query.action.operation),
            resource@,
            query.context.software_stack.trino_version@,
        ),
{
    make_trino_query(
        &query.context.identity.user,
        query.action.operation.to_string(),
        resource,
        &query.context.software_stack.trino_version,
    )
}

fn concat3(a: &str, b: &str, c: &str) -> (s: String)
    ensures
        s@ == a@ + b@ + c@,
{
    concat2(a, b).concat(c)
}

/// The resource type of a table.
pub fn table_resource_name(c: &str, s: &str, t: &str) -> (r: String)
    ensures
        r@ == table_resource(c@, s@, t@),
{
    let r = concat3("trino_table_", c, "_");
    let r = r.concat(s);
    let r = r.concat("_");
    r.concat(t)
}

/// The resource type of a column.
pub fn column_resource_name(c: &str, s: &str, t: &str, col: &str) -> (r: String)
    ensures
        r@ == column_resource(c@, s@, t@, col@),
{
    let r = concat3("trino_column_", c, "_");
    let r = r.concat(s);
    let r = r.concat("_");
    let r = r.concat(t);
    let r = r.concat("_");
    r.concat(col)
}

fn schema_resource_name(c: &str, s: &str) -> (r: String)
    ensures
        r@ == schema_resource(c@, s@),
{
    let r = concat3("trino_schema_", c, "_");
    r.concat(s)
}

fn function_resource_name(c: &str, s: &str, f: &str) -> (r: String)
    ensures
        r@ == function_resource(c@, s@, f@),
{
    let r = concat3("trino_function_", c, "_");
    let r = r.concat(s);
    let r = r.concat("_");
    r.concat(f)
}

/// The next thing to do in an access decision: ask one permission check,
/// ask several at once, or answer.
pub enum TrinoCheckStep {
    Ask(AllowedQuery),
    AskBulk(Vec<AllowedQuery>),
    Decided(bool),
}

/// The resource type that an access request is first checked against, if
/// the request is supported: tables, schemas, catalogs and functions by
/// their own type; users, session properties and requests without a
/// resource at the system level; columns are not supported.
pub open spec fn first_check_resource(r: Option<TrinoResource>) -> Option<Seq<char>> {
    match r {
        Some(TrinoResource::Table { table }) => Some(
            table_resource(table.catalog_name@, table.schema_name@, table.table_name@),
        ),
        Some(TrinoResource::Schema { schema }) => Some(
            schema_resource(schema.catalog_name@, schema.schema_name@),
        ),
        Some(TrinoResource::Catalog { catalog }) => Some(catalog_resource(catalog.name@)),
        Some(TrinoResource::Function { function }) => Some(
            function_resource(
                function.schema.catalog_name@,
                function.schema.schema_name@,
                function.function_name@,
            ),
        ),
        Some(TrinoResource::Column { .. }) => None,
        _ => Some(system_resource()),
    }
}

/// The column resource types of a table, in the order of its columns.
pub open spec fn table_column_resources(table: TrinoTable, cols: Seq<String>) -> Seq<Seq<char>> {
    cols.map_values(
        |col: String|
            column_resource(table.catalog_name@, table.schema_name@, table.table_name@, col@),
    )
}

/// Whether an answer, if there is one, allows.
pub open spec fn answer_allow(a: Option<&AuthorizationResult>) -> Option<bool> {
    match a {
        Some(r) => Some(r.allow),
        None => None,
    }
}

/// Every answer of a bulk check allows.
pub open spec fn all_allowed(b: BulkAuthorizationResult) -> bool {
    forall|i: int| 0 <= i < b.allow@.len() ==> #[trigger] b.allow@[i].allow
}

/// The access decision of the original: a supported request is allowed when
/// its first check allows; a table request that its table check does not
/// allow is still allowed when the table names no columns, or when every
/// column check of the bulk answer allows. A failed check (`None`) denies.
pub open spec fn trino_access_decision(
    query: TrinoAuthzQuery,
    answer: Option<bool>,
    bulk: Option<BulkAuthorizationResult>,
) -> bool {
    match query.action.resource {
        Some(TrinoResource::Column { .. }) => false,
        Some(TrinoResource::Table { table }) => answer == Some(true) || match table.columns {
            None => true,
            Some(cols) => cols@.len() == 0 || (bulk matches Some(b) && all_allowed(b)),
        },
        _ => answer == Some(true),
    }
}

/// A request on a schema, a catalog, a function, a user or a session
/// property, or with no resource, is decided by its first check alone: it
/// is allowed exactly when that check answered and the answer allows, and a
/// failed check denies, whatever the column checks say.
pub proof fn lemma_decision_follows_first_answer(
    query: TrinoAuthzQuery,
    allow: bool,
    bulk: Option<BulkAuthorizationResult>,
)
    requires
        !(query.action.resource matches Some(TrinoResource::Table { .. })),
        !(query.action.resource matches Some(TrinoResource::Column { .. })),
    ensures
        trino_access_decision(query, Some(allow), bulk) == allow,
        !trino_access_decision(query, None, bulk),
{
}

/// A table request that its table check allows is allowed; one that the
/// table check denies, or whose check failed, is allowed by its column
/// checks only, when it names columns: denied when the column checks
/// failed, allowed when they all allow. A column request is always denied.
pub proof fn lemma_table_and_column_decisions(
    query: TrinoAuthzQuery,
    answer: Option<bool>,
    bulk: Option<BulkAuthorizationResult>,
)
    ensures
        query.action.resource matches Some(TrinoResource::Table { .. }) ==> trino_access_decision(
            query,
            Some(true),
            bulk,
        ),
        (query.action.resource matches Some(TrinoResource::Table { table }) && table.columns matches Some(
            cols,
        ) && cols@.len() > 0 && answer != Some(true)) ==> {
            &&& !trino_access_decision(query, answer, None)
            &&& forall|b: BulkAuthorizationResult|
                #[trigger] trino_access_decision(query, answer, Some(b)) == (forall|i: int|
                    0 <= i < b.allow@.len() ==> b.allow@[i].allow)
        },
        query.action.resource matches Some(TrinoResource::Column { .. }) ==> !trino_access_decision(
            query,
            answer,
            bulk,
        ),
{
}

/// The first step of an access decision.
pub fn trino_check_first_step(query: &TrinoAuthzQuery) -> (step: TrinoCheckStep)
    ensures
        match first_check_resource(query.action.resource) {
            None => step matches TrinoCheckStep::Decided(d) && !d,
            Some(resource) => step matches TrinoCheckStep::Ask(q) && trino_query_for(
                q,
                query.context.identity.user@,
                operation_name(query.action.operation),
                resource,
                query.context.software_stack.trino_version@,
            ),
        },
        step matches TrinoCheckStep::Decided(d) ==> d == trino_access_decision(*query, None, None),
{
    match &query.action.resource {
        Some(TrinoResource::Table { table }) => TrinoCheckStep::Ask(
            build_allowed_query(
                query,
                table_resource_name(
                    table.catalog_name.as_str(),
                    table.schema_name.as_str(),
                    table.table_name.as_str(),
                ),
            ),
        ),
        Some(TrinoResource::Schema { schema }) => TrinoCheckStep::Ask(
            build_allowed_query(
                query,
                schema_resource_name(schema.catalog_name.as_str(), schema.schema_name.as_str()),
            ),
        ),
        Some(TrinoResource::Catalog { catalog }) => TrinoCheckStep::Ask(
            build_allowed_query(query, concat2("trino_catalog_", catalog.name.as_str())),
        ),
        Some(TrinoResource::Function { function }) => TrinoCheckStep::Ask(
            build_allowed_query(
                query,
                function_resource_name(
                    function.schema.catalog_name.as_str(),
                    function.schema.schema_name.as_str(),
                    function.function_name.as_str(),
                ),
            ),
        ),
        Some(TrinoResource::Column { .. }) => TrinoCheckStep::Decided(false),
        _ => TrinoCheckStep::Ask(build_allowed_query(query, "trino_sys".to_owned())),
    }
}

/// The step after the first check answered (`None` when it failed).
pub fn trino_check_after_answer(query: &TrinoAuthzQuery, answer: Option<&AuthorizationResult>) -> (step:
    TrinoCheckStep)
    ensures
        match step {
            TrinoCheckStep::Decided(d) => forall|b: Option<BulkAuthorizationResult>|
                d == #[trigger] trino_access_decision(
                    *query,
                    answer_allow(answer),
                    b,
                ),
            TrinoCheckStep::AskBulk(qs) => {
                &&& query.action.resource matches Some(TrinoResource::Table { table })
                &&& table.columns matches Some(cols)
                &&& qs@.len() == cols@.len()
                &&& forall|i: int|
                    0 <= i < qs@.len() ==> #[trigger] trino_query_for(
                        qs@[i],
                        query.context.identity.user@,
                        operation_name(query.action.operation),
                        table_column_resources(table, cols@)[i],
                        query.context.software_stack.trino_version@,
                    )
                &&& forall|b: BulkAuthorizationResult|
                    #[trigger] trino_access_decision(
                        *query,
                        answer_allow(answer),
                        Some(b),
                    ) == all_allowed(b)
                &&& trino_access_decision(
                    *query,
                    answer_allow(answer),
                    None,
                ) == false
            },
            TrinoCheckStep::Ask(_) => false,
        },
        (query.action.resource matches Some(TrinoResource::Column { .. })) ==> (
        step matches TrinoCheckStep::Decided(d) && !d),
        (!(query.action.resource matches Some(TrinoResource::Table { .. })) && !(
        query.action.resource matches Some(TrinoResource::Column { .. }))) ==> (
        step matches TrinoCheckStep::Decided(d) && (d <==> (answer matches Some(a) && a.allow))),
        ((answer matches Some(a) && a.allow) && (
        query.action.resource matches Some(TrinoResource::Table { .. }))) ==> (
        step matches TrinoCheckStep::Decided(d) && d),
{
    let allowed = match answer {
        Some(a) => a.allow,
        None => false,
    };
    match &query.action.resource {
        Some(TrinoResource::Table { table }) => {
            if allowed {
                return TrinoCheckStep::Decided(true);
            }
            match &table.columns {
                None => TrinoCheckStep::Decided(true),
                Some(cols) => {
                    if cols.len() == 0 {
                        return TrinoCheckStep::Decided(true);
                    }
                    let mut qs: Vec<AllowedQuery> = Vec::new();
                    let mut i: usize = 0;
                    while i < cols.len()
                        invariant
                            i <= cols@.len(),
                            qs@.len() == i,
                            forall|k: int|
                                0 <= k < i ==> #[trigger] trino_query_for(
                                    qs@[k],
                                    query.context.identity.user@,
                                    operation_name(query.action.operation),
                                    table_column_resources(*table, cols@)[k],
                                    query.context.software_stack.trino_version@,
                                ),
                        decreases cols@.len() - i,
                    {
                        let q = build_allowed_query(
                            query,
                            column_resource_name(
                                table.catalog_name.as_str(),
                                table.schema_name.as_str(),
                                table.table_name.as_str(),
                                cols[i].as_str(),
                            ),
                        );
                        qs.push(q);
                        i = i + 1;
                    }
                    TrinoCheckStep::AskBulk(qs)
                },
            }
        },
        Some(TrinoResource::Column { .. }) => TrinoCheckStep::Decided(false),
        _ => TrinoCheckStep::Decided(allowed),
    }
}

/// The decision once the column checks of a table answered (`None` when the
/// bulk check failed): allowed when every answer allows.
pub fn trino_check_after_bulk(bulk: Option<&BulkAuthorizationResult>) -> (d: bool)
    ensures
        d == (bulk matches Some(b) && all_allowed(*b)),
{
    match bulk {
        None => false,
        Some(b) => {
            let mut i: usize = 0;
            while i < b.allow.len()
                invariant
                    bulk == Some(b),
                    i <= b.allow@.len(),
                    forall|k: int| 0 <= k < i ==> #[trigger] b.allow@[k].allow,
                decreases b.allow@.len() - i,
            {
                if !b.allow[i].allow {
                    assert(!b.allow@[i as int].allow);
                    return false;
                }
                i = i + 1;
            }
            true
        },
    }
}

} // verus!
