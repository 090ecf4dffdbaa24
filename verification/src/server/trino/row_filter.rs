//! Row filters for Trino: which configured filters of a table apply to a
//! user, decided by one bulk permission check with a check per filter.

use crate::server::config::trino_authz::{RowFilterConfig, TrinoAuthzConfig};
use crate::server::models::{AllowedQuery, BulkAuthorizationResult};
use crate::server::trino::checks::{
    make_trino_query, table_resource, table_resource_name, trino_query_for,
};
use crate::server::trino::schemas::{TrinoResource, TrinoRowFilterQuery, TrinoRowFilterResponse};
use vstd::prelude::*;

verus! {

/// Whether the answer at position `i` of a bulk check exists and allows.
pub open spec fn allows_at(b: BulkAuthorizationResult, i: int) -> bool {
    0 <= i < b.allow@.len() && b.allow@[i].allow
}

/// The answer at position `i` of a bulk check, `false` where there is none.
pub fn answer_allows(b: &BulkAuthorizationResult, i: usize) -> (r: bool)
    ensures
        r == allows_at(*b, i as int),
{
    if i < b.allow.len() {
        b.allow[i].allow
    } else {
        false
    }
}

/// The row filters configured for the table of a request: none unless the
/// request is on a table that the configuration lists.
pub open spec fn configured_row_filters(
    config: Option<TrinoAuthzConfig>,
    query: TrinoRowFilterQuery,
) -> Seq<RowFilterConfig> {
    match query.action.resource {
        TrinoResource::Table { table } => match config {
            Some(c) => {
                let t = table_resource(
                    table.catalog_name@,
                    table.schema_name@,
                    table.table_name@,
                );
                if c.row_filters@.contains_key(t) {
                    c.row_filters@[t]@
                } else {
                    Seq::empty()
                }
            },
            None => Seq::empty(),
        },
        _ => Seq::empty(),
    }
}

/// The row filters to ask about and the permission check of each.
#[derive(Debug, Clone)]
pub struct RowFilterPlan {
    /// The configured filters, in the order of the configuration.
    pub filters: Vec<RowFilterConfig>,
    /// One check per filter, at the same position.
    pub queries: Vec<AllowedQuery>,
}

/// The permission check of a row filter: the filter's action on the
/// table's resource type.
pub fn build_row_filter_query(query: &TrinoRowFilterQuery, resource_name: &str, action: &str) -> (q:
    AllowedQuery)
    ensures
        trino_query_for(
            q,
            query.context.identity.user@,
            action@,
            resource_name@,
            query.context.software_stack.trino_version@,
        ),
{
    make_trino_query(
        &query.context.identity.user,
        action.to_owned(),
        resource_name.to_owned(),
        &query.context.software_stack.trino_version,
    )
}

/// The row filters a request may receive and the checks that decide them.
/// A request that is not on a table, a missing configuration, or a table
/// with no filters gives an empty plan, which needs no check.
pub fn plan_row_filters(config: Option<&TrinoAuthzConfig>, query: &TrinoRowFilterQuery) -> (p:
    RowFilterPlan)
    requires
        config matches Some(c) ==> c.wf(),
    ensures
        p.filters@ == configured_row_filters(
            match config {
                Some(c) => Some(*c),
                None => None,
            },
            *query,
        ),
        p.queries@.len() == p.filters@.len(),
        query.action.resource matches TrinoResource::Table { table } ==> forall|i: int|
            0 <= i < p.queries@.len() ==> #[trigger] trino_query_for(
                p.queries@[i],
                query.context.identity.user@,
                p.filters@[i].action@,
                table_resource(table.catalog_name@, table.schema_name@, table.table_name@),
                query.context.software_stack.trino_version@,
            ),
{
    let empty = RowFilterPlan { filters: Vec::new(), queries: Vec::new() };
    let table = match &query.action.resource {
        TrinoResource::Table { table } => table,
        _ => {
            return empty;
        },
    };
    let config = match config {
        Some(c) => c,
        None => {
            return empty;
        },
    };
    let resource_name = table_resource_name(
        table.catalog_name.as_str(),
        table.schema_name.as_str(),
        table.table_name.as_str(),
    );
    let filters = match config.get_filters(resource_name.as_str()) {
        Some(f) => f,
        None => {
            return empty;
        },
    };
    let mut kept: Vec<RowFilterConfig> = Vec::new();
    let mut queries: Vec<AllowedQuery> = Vec::new();
    let mut i: usize = 0;
    while i < filters.len()
        invariant
            i <= filters@.len(),
            kept@ == filters@.subrange(0, i as int),
            queries@.len() == i,
            forall|k: int|
                0 <= k < i ==> #[trigger] trino_query_for(
                    queries@[k],
                    query.context.identity.user@,
                    filters@[k].action@,
                    resource_name@,
                    query.context.software_stack.trino_version@,
                ),
        decreases filters@.len() - i,
    {
        let f = RowFilterConfig {
            action: filters[i].action.clone(),
            expression: filters[i].expression.clone(),
        };
        queries.push(build_row_filter_query(query, resource_name.as_str(), filters[i].action.as_str()));
        kept.push(f);
        i = i + 1;
    }
    assert(filters@.subrange(0, filters@.len() as int) == filters@);
    RowFilterPlan { filters: kept, queries }
}

/// The expressions of the filters whose check allows, in the order of the
/// filters; an answer missing from the bulk result does not allow.
pub open spec fn allowed_filter_expressions(
    filters: Seq<RowFilterConfig>,
    b: BulkAuthorizationResult,
) -> Seq<Seq<char>>
    decreases filters.len(),
{
    if filters.len() == 0 {
        Seq::empty()
    } else {
        let prev = allowed_filter_expressions(filters.drop_last(), b);
        if allows_at(b, filters.len() - 1) {
            prev.push(filters.last().expression@)
        } else {
            prev
        }
    }
}

/// The row filter expressions of a request once its checks answered
/// (`None` when the bulk check failed, which gives no filter).
pub fn get_row_filter_expressions(
    plan: &RowFilterPlan,
    answers: Option<&BulkAuthorizationResult>,
) -> (r: Vec<TrinoRowFilterResponse>)
    ensures
        r@.map_values(|e: TrinoRowFilterResponse| e.expression@) == match answers {
            Some(b) => allowed_filter_expressions(plan.filters@, *b),
            None => Seq::<Seq<char>>::empty(),
        },
{
    let b = match answers {
        Some(b) => b,
        None => {
            let r: Vec<TrinoRowFilterResponse> = Vec::new();
            assert(r@.map_values(|e: TrinoRowFilterResponse| e.expression@) =~= Seq::<
                Seq<char>,
            >::empty());
            return r;
        },
    };
    let mut r: Vec<TrinoRowFilterResponse> = Vec::new();
    let mut i: usize = 0;
    while i < plan.filters.len()
        invariant
            i <= plan.filters@.len(),
            r@.map_values(|e: TrinoRowFilterResponse| e.expression@) == allowed_filter_expressions(
                plan.filters@.subrange(0, i as int),
                *b,
            ),
        decreases plan.filters@.len() - i,
    {
        let ghost before = r@;
        assert(plan.filters@.subrange(0, i + 1).drop_last() == plan.filters@.subrange(0, i as int));
        if answer_allows(b, i) {
            r.push(TrinoRowFilterResponse { expression: plan.filters[i].expression.clone() });
            assert(r@.map_values(|e: TrinoRowFilterResponse| e.expression@) =~= before.map_values(
                |e: TrinoRowFilterResponse| e.expression@,
            ).push(plan.filters@[i as int].expression@));
        }
        i = i + 1;
    }
    assert(plan.filters@.subrange(0, plan.filters@.len() as int) == plan.filters@);
    r
}

} // verus!
