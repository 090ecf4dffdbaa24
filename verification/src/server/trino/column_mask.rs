//! Column masks for Trino: which configured masks of the requested columns
//! apply to a user. Each candidate mask is decided by two permission
//! checks, one on its table and one on its column; either one grants it.

use crate::server::config::trino_authz::{ColumnConfig, ColumnMaskConfig, TrinoAuthzConfig};
use crate::server::models::{AllowedQuery, BulkAuthorizationResult};
use crate::server::trino::checks::{
    column_resource, column_resource_name, make_trino_query, table_resource, table_resource_name,
    trino_query_for,
};
use crate::server::trino::row_filter::{allows_at, answer_allows};
use crate::server::trino::schemas::{
    TrinoColumnMaskColumn, TrinoColumnMaskQuery, TrinoColumnMaskResource, TrinoColumnMaskResponse,
    ViewExpression,
};
use crate::strmap::Duplicate;
use crate::text::{contains_str, str_eq, string_views};
use vstd::prelude::*;

verus! {

/// The columns of a request, in the order of the request.
pub open spec fn mask_columns(q: TrinoColumnMaskQuery) -> Seq<TrinoColumnMaskColumn> {
    q.action.filter_resources@.map_values(|r: TrinoColumnMaskResource| r.column)
}

/// The resource type of a requested column's table.
pub open spec fn column_table(c: TrinoColumnMaskColumn) -> Seq<char> {
    table_resource(c.catalog_name@, c.schema_name@, c.table_name@)
}

/// The resource type of a requested column.
pub open spec fn column_resource_of(c: TrinoColumnMaskColumn) -> Seq<char> {
    column_resource(c.catalog_name@, c.schema_name@, c.table_name@, c.column_name@)
}

/// The tables of the requested columns, each once, in order of first
/// appearance.
pub open spec fn first_tables(cols: Seq<TrinoColumnMaskColumn>) -> Seq<Seq<char>>
    decreases cols.len(),
{
    if cols.len() == 0 {
        Seq::empty()
    } else {
        let prev = first_tables(cols.drop_last());
        let t = column_table(cols.last());
        if prev.contains(t) {
            prev
        } else {
            prev.push(t)
        }
    }
}

/// `j` is the first mask configuration of the column `name`.
pub open spec fn is_first_column_match(cs: Seq<ColumnConfig>, name: Seq<char>, j: int) -> bool {
    &&& 0 <= j < cs.len()
    &&& cs[j].column_name@ == name
    &&& forall|k: int| 0 <= k < j ==> #[trigger] cs[k].column_name@ != name
}

/// The first mask configuration of the column `name`, if any.
pub open spec fn column_match(cs: Seq<ColumnConfig>, name: Seq<char>) -> Option<int> {
    if exists|j: int| is_first_column_match(cs, name, j) {
        Some(choose|j: int| is_first_column_match(cs, name, j))
    } else {
        None
    }
}

/// The first match is the only one that the definition can pick.
pub proof fn lemma_column_match_is(cs: Seq<ColumnConfig>, name: Seq<char>, j: int)
    requires
        is_first_column_match(cs, name, j),
    ensures
        column_match(cs, name) == Some(j),
{
    let c = choose|c: int| is_first_column_match(cs, name, c);
    assert(is_first_column_match(cs, name, c));
    if c < j {
        assert(cs[c].column_name@ != name);
    } else if j < c {
        assert(cs[j].column_name@ != name);
    }
}

/// With no configuration of the column there is no match.
pub proof fn lemma_column_match_none(cs: Seq<ColumnConfig>, name: Seq<char>)
    requires
        forall|k: int| 0 <= k < cs.len() ==> #[trigger] cs[k].column_name@ != name,
    ensures
        column_match(cs, name) is None,
{
    if exists|j: int| is_first_column_match(cs, name, j) {
        let j = choose|j: int| is_first_column_match(cs, name, j);
        assert(cs[j].column_name@ != name);
    }
}

/// The candidate masks of table `t` among the first `k` requested columns:
/// the position of each column of `t` that has a mask configuration, with
/// the position of its first configuration.
pub open spec fn table_candidates(
    cols: Seq<TrinoColumnMaskColumn>,
    t: Seq<char>,
    mc: ColumnMaskConfig,
    k: int,
) -> Seq<(int, int)>
    decreases k,
{
    if k <= 0 {
        Seq::empty()
    } else {
        let prev = table_candidates(cols, t, mc, k - 1);
        if column_table(cols[k - 1]) == t {
            match column_match(mc.columns@, cols[k - 1].column_name@) {
                Some(j) => prev.push((k - 1, j)),
                None => prev,
            }
        } else {
            prev
        }
    }
}

/// The candidate masks, table after table, of the tables that the
/// configuration lists.
pub open spec fn mask_candidates(
    config: TrinoAuthzConfig,
    cols: Seq<TrinoColumnMaskColumn>,
    tables: Seq<Seq<char>>,
) -> Seq<(int, int)>
    decreases tables.len(),
{
    if tables.len() == 0 {
        Seq::empty()
    } else {
        let prev = mask_candidates(config, cols, tables.drop_last());
        let t = tables.last();
        if config.column_masks@.contains_key(t) {
            prev + table_candidates(cols, t, config.column_masks@[t], cols.len() as int)
        } else {
            prev
        }
    }
}

/// The candidate masks of a request: pairs of the position of a requested
/// column and the position of its mask in its table's configuration,
/// grouped by table in order of first appearance.
pub open spec fn column_mask_candidates(config: TrinoAuthzConfig, q: TrinoColumnMaskQuery) -> Seq<
    (int, int),
> {
    mask_candidates(config, mask_columns(q), first_tables(mask_columns(q)))
}

/// The table configuration of a candidate.
pub open spec fn candidate_table_config(
    config: TrinoAuthzConfig,
    q: TrinoColumnMaskQuery,
    cand: (int, int),
) -> ColumnMaskConfig {
    config.column_masks@[column_table(mask_columns(q)[cand.0])]
}

/// The mask configuration of a candidate.
pub open spec fn candidate_column_config(
    config: TrinoAuthzConfig,
    q: TrinoColumnMaskQuery,
    cand: (int, int),
) -> ColumnConfig {
    candidate_table_config(config, q, cand).columns@[cand.1]
}

/// The action that grants a candidate: the column's own, else the table's.
pub open spec fn candidate_action(
    config: TrinoAuthzConfig,
    q: TrinoColumnMaskQuery,
    cand: (int, int),
) -> Seq<char> {
    match candidate_column_config(config, q, cand).action {
        Some(a) => a@,
        None => candidate_table_config(config, q, cand).action@,
    }
}

/// The `k`-th candidate's mask and its two checks, at `2k` (the table) and
/// `2k + 1` (the column) among the checks.
pub open spec fn mask_entry(
    config: TrinoAuthzConfig,
    q: TrinoColumnMaskQuery,
    cand: (int, int),
    mask: TrinoColumnMaskResponse,
    queries: Seq<AllowedQuery>,
    k: int,
) -> bool {
    let col = mask_columns(q)[cand.0];
    let cc = candidate_column_config(config, q, cand);
    let action = candidate_action(config, q, cand);
    &&& mask.index == cand.0
    &&& mask.view_expression.expression == cc.view_expression
    &&& mask.view_expression.identity == cc.identity
    &&& trino_query_for(
        queries[2 * k],
        q.context.identity.user@,
        action,
        column_table(col),
        q.context.software_stack.trino_version@,
    )
    &&& trino_query_for(
        queries[2 * k + 1],
        q.context.identity.user@,
        action,
        column_resource_of(col),
        q.context.software_stack.trino_version@,
    )
}


/// A candidate of table `t` among the requested columns: a column of `t`
/// and the position of its first mask configuration.
pub open spec fn is_table_candidate(
    cols: Seq<TrinoColumnMaskColumn>,
    t: Seq<char>,
    mc: ColumnMaskConfig,
    cand: (int, int),
) -> bool {
    &&& 0 <= cand.0 < cols.len()
    &&& column_table(cols[cand.0]) == t
    &&& column_match(mc.columns@, cols[cand.0].column_name@) == Some(cand.1)
}

proof fn lemma_table_candidates(
    cols: Seq<TrinoColumnMaskColumn>,
    t: Seq<char>,
    mc: ColumnMaskConfig,
    k: int,
)
    requires
        0 <= k <= cols.len(),
    ensures
        forall|e: int|
            0 <= e < table_candidates(cols, t, mc, k).len() ==> {
                &&& is_table_candidate(cols, t, mc, #[trigger] table_candidates(cols, t, mc, k)[e])
                &&& table_candidates(cols, t, mc, k)[e].0 < k
            },
        forall|e1: int, e2: int|
            0 <= e1 < e2 < table_candidates(cols, t, mc, k).len() ==> #[trigger] table_candidates(
                cols,
                t,
                mc,
                k,
            )[e1].0 < #[trigger] table_candidates(cols, t, mc, k)[e2].0,
        forall|i: int|
            0 <= i < k && column_table(cols[i]) == t && #[trigger] column_match(
                mc.columns@,
                cols[i].column_name@,
            ) is Some ==> table_candidates(cols, t, mc, k).contains(
                (i, column_match(mc.columns@, cols[i].column_name@)->0),
            ),
    decreases k,
{
    if k > 0 {
        lemma_table_candidates(cols, t, mc, k - 1);
        let prev = table_candidates(cols, t, mc, k - 1);
        let cur = table_candidates(cols, t, mc, k);
        assert forall|i: int|
            0 <= i < k && column_table(cols[i]) == t && #[trigger] column_match(
                mc.columns@,
                cols[i].column_name@,
            ) is Some implies cur.contains(
            (i, column_match(mc.columns@, cols[i].column_name@)->0),
        ) by {
            let x = (i, column_match(mc.columns@, cols[i].column_name@)->0);
            if i < k - 1 {
                let e = choose|e: int| 0 <= e < prev.len() && prev[e] == x;
                assert(cur[e] == x);
            } else {
                assert(cur[prev.len() as int] == x);
            }
        }
    }
}

/// The tables of first appearance are distinct, and they are exactly the
/// tables of the requested columns.
pub proof fn lemma_first_tables(cols: Seq<TrinoColumnMaskColumn>)
    ensures
        forall|a: int, b: int|
            0 <= a < b < first_tables(cols).len() ==> #[trigger] first_tables(cols)[a]
                != #[trigger] first_tables(cols)[b],
        forall|i: int| 0 <= i < cols.len() ==> first_tables(cols).contains(#[trigger] column_table(cols[i])),
        forall|x: Seq<char>|
            #[trigger] first_tables(cols).contains(x) ==> exists|i: int|
                0 <= i < cols.len() && column_table(cols[i]) == x,
    decreases cols.len(),
{
    if cols.len() > 0 {
        let prev_cols = cols.drop_last();
        lemma_first_tables(prev_cols);
        let prev = first_tables(prev_cols);
        let ft = first_tables(cols);
        let t = column_table(cols.last());
        assert forall|i: int| 0 <= i < cols.len() implies ft.contains(
            #[trigger] column_table(cols[i]),
        ) by {
            if i < cols.len() - 1 {
                assert(column_table(prev_cols[i]) == column_table(cols[i]));
                let e = choose|e: int| 0 <= e < prev.len() && prev[e] == column_table(cols[i]);
                assert(ft[e] == column_table(cols[i]));
            } else if !prev.contains(t) {
                assert(ft[prev.len() as int] == t);
            }
        }
        assert forall|x: Seq<char>| #[trigger] ft.contains(x) implies exists|i: int|
            0 <= i < cols.len() && column_table(cols[i]) == x by {
            if prev.contains(x) {
                let i = choose|i: int| 0 <= i < prev_cols.len() && column_table(prev_cols[i]) == x;
                assert(column_table(cols[i]) == x);
            } else {
                let e = choose|e: int| 0 <= e < ft.len() && ft[e] == x;
                assert(e == prev.len());
                assert(column_table(cols[cols.len() - 1]) == x);
            }
        }
        if !prev.contains(t) {
            assert forall|a: int, b: int| 0 <= a < b < ft.len() implies #[trigger] ft[a]
                != #[trigger] ft[b] by {
                if b == prev.len() {
                    assert(prev[a] == ft[a]);
                }
            }
        }
    }
}

proof fn lemma_mask_candidates(
    config: TrinoAuthzConfig,
    cols: Seq<TrinoColumnMaskColumn>,
    tables: Seq<Seq<char>>,
)
    requires
        forall|a: int, b: int| 0 <= a < b < tables.len() ==> #[trigger] tables[a] != #[trigger] tables[b],
    ensures
        forall|e: int|
            0 <= e < mask_candidates(config, cols, tables).len() ==> {
                let cand = #[trigger] mask_candidates(config, cols, tables)[e];
                let t = column_table(cols[cand.0]);
                &&& tables.contains(t)
                &&& config.column_masks@.contains_key(t)
                &&& is_table_candidate(cols, t, config.column_masks@[t], cand)
            },
        forall|e1: int, e2: int|
            0 <= e1 < mask_candidates(config, cols, tables).len() && 0 <= e2 < mask_candidates(
                config,
                cols,
                tables,
            ).len() && e1 != e2 ==> #[trigger] mask_candidates(config, cols, tables)[e1].0
                != #[trigger] mask_candidates(config, cols, tables)[e2].0,
        forall|i: int|
            0 <= i < cols.len() && tables.contains(#[trigger] column_table(cols[i]))
                && config.column_masks@.contains_key(column_table(cols[i])) && column_match(
                config.column_masks@[column_table(cols[i])].columns@,
                cols[i].column_name@,
            ) is Some ==> mask_candidates(config, cols, tables).contains(
                (
                    i,
                    column_match(
                        config.column_masks@[column_table(cols[i])].columns@,
                        cols[i].column_name@,
                    )->0,
                ),
            ),
    decreases tables.len(),
{
    if tables.len() > 0 {
        let pt = tables.drop_last();
        lemma_mask_candidates(config, cols, pt);
        let prev = mask_candidates(config, cols, pt);
        let t = tables.last();
        let cur = mask_candidates(config, cols, tables);
        assert(!pt.contains(t)) by {
            if pt.contains(t) {
                let a = choose|a: int| 0 <= a < pt.len() && pt[a] == t;
                assert(tables[a] == tables[tables.len() - 1]);
            }
        }
        assert forall|x: Seq<char>| pt.contains(x) implies tables.contains(x) by {
            let a = choose|a: int| 0 <= a < pt.len() && pt[a] == x;
            assert(tables[a] == x);
        }
        assert(tables[tables.len() - 1] == t);
        if config.column_masks@.contains_key(t) {
            let mc = config.column_masks@[t];
            let tc = table_candidates(cols, t, mc, cols.len() as int);
            lemma_table_candidates(cols, t, mc, cols.len() as int);
            assert(cur == prev + tc);
            assert forall|e: int| 0 <= e < cur.len() implies {
                let cand = #[trigger] cur[e];
                let ct = column_table(cols[cand.0]);
                &&& tables.contains(ct)
                &&& config.column_masks@.contains_key(ct)
                &&& is_table_candidate(cols, ct, config.column_masks@[ct], cand)
            } by {
                if e < prev.len() {
                    assert(cur[e] == prev[e]);
                } else {
                    assert(cur[e] == tc[e - prev.len()]);
                }
            }
            assert forall|e1: int, e2: int|
                0 <= e1 < cur.len() && 0 <= e2 < cur.len() && e1 != e2 implies #[trigger] cur[e1].0
                != #[trigger] cur[e2].0 by {
                if e1 < prev.len() && e2 < prev.len() {
                    assert(cur[e1] == prev[e1] && cur[e2] == prev[e2]);
                } else if e1 >= prev.len() && e2 >= prev.len() {
                    assert(cur[e1] == tc[e1 - prev.len()] && cur[e2] == tc[e2 - prev.len()]);
                    if e1 < e2 {
                        assert(tc[e1 - prev.len()].0 < tc[e2 - prev.len()].0);
                    } else {
                        assert(tc[e2 - prev.len()].0 < tc[e1 - prev.len()].0);
                    }
                } else if e1 < prev.len() {
                    assert(cur[e1] == prev[e1] && cur[e2] == tc[e2 - prev.len()]);
                    assert(pt.contains(column_table(cols[prev[e1].0])));
                } else {
                    assert(cur[e2] == prev[e2] && cur[e1] == tc[e1 - prev.len()]);
                    assert(pt.contains(column_table(cols[prev[e2].0])));
                }
            }
            assert forall|i: int|
                0 <= i < cols.len() && tables.contains(#[trigger] column_table(cols[i]))
                    && config.column_masks@.contains_key(column_table(cols[i])) && column_match(
                    config.column_masks@[column_table(cols[i])].columns@,
                    cols[i].column_name@,
                ) is Some implies cur.contains(
                (
                    i,
                    column_match(
                        config.column_masks@[column_table(cols[i])].columns@,
                        cols[i].column_name@,
                    )->0,
                ),
            ) by {
                let x = (
                    i,
                    column_match(
                        config.column_masks@[column_table(cols[i])].columns@,
                        cols[i].column_name@,
                    )->0,
                );
                if column_table(cols[i]) == t {
                    assert(column_match(mc.columns@, cols[i].column_name@) is Some);
                    assert(tc.contains(x));
                    let e = choose|e: int| 0 <= e < tc.len() && tc[e] == x;
                    assert(cur[prev.len() + e] == x);
                } else {
                    let a = choose|a: int| 0 <= a < tables.len() && tables[a] == column_table(cols[i]);
                    assert(pt[a] == column_table(cols[i]));
                    assert(pt.contains(column_table(cols[i])));
                    let e = choose|e: int| 0 <= e < prev.len() && prev[e] == x;
                    assert(cur[e] == x);
                }
            }
        } else {
            assert(cur == prev);
            assert forall|i: int|
                0 <= i < cols.len() && tables.contains(#[trigger] column_table(cols[i]))
                    && config.column_masks@.contains_key(column_table(cols[i])) && column_match(
                    config.column_masks@[column_table(cols[i])].columns@,
                    cols[i].column_name@,
                ) is Some implies cur.contains(
                (
                    i,
                    column_match(
                        config.column_masks@[column_table(cols[i])].columns@,
                        cols[i].column_name@,
                    )->0,
                ),
            ) by {
                let a = choose|a: int| 0 <= a < tables.len() && tables[a] == column_table(cols[i]);
                assert(a != tables.len() - 1);
                assert(pt[a] == column_table(cols[i]));
            }
        }
    }
}

/// Every candidate mask is the first mask that its table's configuration
/// gives for a requested column; no requested column has two candidates;
/// and every requested column whose table configuration gives it a mask is
/// a candidate.
pub proof fn lemma_column_mask_candidates(config: TrinoAuthzConfig, q: TrinoColumnMaskQuery)
    ensures
        forall|e: int|
            0 <= e < column_mask_candidates(config, q).len() ==> {
                let cand = #[trigger] column_mask_candidates(config, q)[e];
                let col = mask_columns(q)[cand.0];
                &&& 0 <= cand.0 < mask_columns(q).len()
                &&& config.column_masks@.contains_key(column_table(col))
                &&& is_first_column_match(
                    config.column_masks@[column_table(col)].columns@,
                    col.column_name@,
                    cand.1,
                )
            },
        forall|e1: int, e2: int|
            0 <= e1 < column_mask_candidates(config, q).len() && 0 <= e2
                < column_mask_candidates(config, q).len() && e1 != e2
                ==> #[trigger] column_mask_candidates(config, q)[e1].0
                != #[trigger] column_mask_candidates(config, q)[e2].0,
        forall|i: int, j: int|
            0 <= i < mask_columns(q).len() && config.column_masks@.contains_key(
                column_table(mask_columns(q)[i]),
            ) && #[trigger] is_first_column_match(
                config.column_masks@[column_table(mask_columns(q)[i])].columns@,
                mask_columns(q)[i].column_name@,
                j,
            ) ==> column_mask_candidates(config, q).contains((i, j)),
{
    let cols = mask_columns(q);
    lemma_first_tables(cols);
    lemma_mask_candidates(config, cols, first_tables(cols));
    let cands = column_mask_candidates(config, q);
    assert forall|e: int| 0 <= e < cands.len() implies {
        let cand = #[trigger] cands[e];
        let col = cols[cand.0];
        &&& 0 <= cand.0 < cols.len()
        &&& config.column_masks@.contains_key(column_table(col))
        &&& is_first_column_match(
            config.column_masks@[column_table(col)].columns@,
            col.column_name@,
            cand.1,
        )
    } by {
        let cand = cands[e];
        let col = cols[cand.0];
        let cs = config.column_masks@[column_table(col)].columns@;
        let c = choose|c: int| is_first_column_match(cs, col.column_name@, c);
        assert(column_match(cs, col.column_name@) == Some(cand.1));
    }
    assert forall|i: int, j: int|
        0 <= i < cols.len() && config.column_masks@.contains_key(column_table(cols[i]))
            && #[trigger] is_first_column_match(
            config.column_masks@[column_table(cols[i])].columns@,
            cols[i].column_name@,
            j,
        ) implies cands.contains((i, j)) by {
        lemma_column_match_is(
            config.column_masks@[column_table(cols[i])].columns@,
            cols[i].column_name@,
            j,
        );
        assert(first_tables(cols).contains(column_table(cols[i])));
    }
}

/// The masks a request may receive and the checks that decide them.
#[derive(Debug, Clone)]
pub struct ColumnMaskPlan {
    /// The candidate masks.
    pub masks: Vec<TrinoColumnMaskResponse>,
    /// Two checks per candidate: its table's at `2k`, its column's at `2k + 1`.
    pub queries: Vec<AllowedQuery>,
}

/// The permission check of a column mask: its action on a resource type.
pub fn build_column_mask_query(query: &TrinoColumnMaskQuery, resource_name: &str, action: &str) -> (q:
    AllowedQuery)
    ensures
        trino_query_for(
            q,
            query.context.identity.user@,
            action@,
            resource_name@,
            query.context.software_stack.trino_version@,
        ),
{
    make_trino_query(
        &query.context.identity.user,
        action.to_owned(),
        resource_name.to_owned(),
        &query.context.software_stack.trino_version,
    )
}

/// The first mask configuration of a column name.
fn find_column_config(cs: &Vec<ColumnConfig>, name: &str) -> (r: Option<usize>)
    ensures
        match r {
            Some(j) => is_first_column_match(cs@, name@, j as int),
            None => forall|k: int| 0 <= k < cs@.len() ==> #[trigger] cs@[k].column_name@ != name@,
        },
{
    let mut j: usize = 0;
    while j < cs.len()
        invariant
            j <= cs@.len(),
            forall|k: int| 0 <= k < j ==> #[trigger] cs@[k].column_name@ != name@,
        decreases cs@.len() - j,
    {
        if str_eq(cs[j].column_name.as_str(), name) {
            return Some(j);
        }
        j = j + 1;
    }
    None
}

/// The table resource types of the requested columns, position by
/// position, and the tables each once in order of first appearance.
fn request_tables(query: &TrinoColumnMaskQuery) -> (r: (Vec<String>, Vec<String>))
    ensures
        r.0@.len() == mask_columns(*query).len(),
        forall|k: int|
            0 <= k < r.0@.len() ==> #[trigger] r.0@[k]@ == column_table(mask_columns(*query)[k]),
        string_views(r.1@) == first_tables(mask_columns(*query)),
{
    let ghost cols = mask_columns(*query);
    let mut names: Vec<String> = Vec::new();
    let mut tables: Vec<String> = Vec::new();
    let mut i: usize = 0;
    while i < query.action.filter_resources.len()
        invariant
            cols == mask_columns(*query),
            cols.len() == query.action.filter_resources@.len(),
            i <= cols.len(),
            names@.len() == i,
            forall|k: int| 0 <= k < i ==> #[trigger] names@[k]@ == column_table(cols[k]),
            string_views(tables@) == first_tables(cols.subrange(0, i as int)),
        decreases cols.len() - i,
    {
        let c = &query.action.filter_resources[i].column;
        let name = table_resource_name(
            c.catalog_name.as_str(),
            c.schema_name.as_str(),
            c.table_name.as_str(),
        );
        proof {
            assert(cols.subrange(0, i + 1).drop_last() == cols.subrange(0, i as int));
            assert(cols.subrange(0, i + 1).last() == cols[i as int]);
        }
        if !contains_str(&tables, name.as_str()) {
            let ghost before = tables@;
            tables.push(name.clone());
            assert(string_views(tables@) =~= string_views(before).push(name@));
        }
        names.push(name);
        i = i + 1;
    }
    assert(cols.subrange(0, cols.len() as int) == cols);
    (names, tables)
}

/// The candidate masks of a request and the checks that decide them: for
/// each table of the request that the configuration lists, and each of its
/// requested columns with a mask configured, the column's first mask and
/// a check of the mask's action on the table and on the column. No
/// configuration gives an empty plan, which needs no check.
pub fn plan_column_masks(config: Option<&TrinoAuthzConfig>, query: &TrinoColumnMaskQuery) -> (p:
    ColumnMaskPlan)
    requires
        config matches Some(c) ==> c.wf(),
    ensures
        match config {
            None => p.masks@.len() == 0 && p.queries@.len() == 0,
            Some(c) => {
                let cands = column_mask_candidates(*c, *query);
                &&& p.masks@.len() == cands.len()
                &&& p.queries@.len() == 2 * cands.len()
                &&& forall|k: int|
                    0 <= k < cands.len() ==> #[trigger] mask_entry(
                        *c,
                        *query,
                        cands[k],
                        p.masks@[k],
                        p.queries@,
                        k,
                    )
            },
        },
{
    let config = match config {
        Some(c) => c,
        None => {
            return ColumnMaskPlan { masks: Vec::new(), queries: Vec::new() };
        },
    };
    let ghost cols = mask_columns(*query);
    let (names, tables) = request_tables(query);
    let ghost ft = first_tables(cols);
    let mut masks: Vec<TrinoColumnMaskResponse> = Vec::new();
    let mut queries: Vec<AllowedQuery> = Vec::new();
    let ghost mut cands: Seq<(int, int)> = Seq::empty();
    let mut m: usize = 0;
    while m < tables.len()
        invariant
            config.wf(),
            cols == mask_columns(*query),
            cols.len() == query.action.filter_resources@.len(),
            ft == first_tables(cols),
            string_views(tables@) == ft,
            names@.len() == cols.len(),
            forall|k: int| 0 <= k < names@.len() ==> #[trigger] names@[k]@ == column_table(cols[k]),
            m <= tables@.len(),
            cands == mask_candidates(*config, cols, ft.subrange(0, m as int)),
            masks@.len() == cands.len(),
            queries@.len() == 2 * cands.len(),
            forall|k: int|
                0 <= k < cands.len() ==> #[trigger] mask_entry(
                    *config,
                    *query,
                    cands[k],
                    masks@[k],
                    queries@,
                    k,
                ),
        decreases tables@.len() - m,
    {
        proof {
            assert(ft.subrange(0, m + 1).drop_last() == ft.subrange(0, m as int));
            assert(ft.subrange(0, m + 1).last() == ft[m as int]);
            assert(ft[m as int] == tables@[m as int]@);
        }
        match config.get_column_masks(tables[m].as_str()) {
            None => {},
            Some(mc) => {
                let ghost base = cands;
                let ghost t = tables@[m as int]@;
                let mut i: usize = 0;
                while i < names.len()
                    invariant
                        config.wf(),
                        cols == mask_columns(*query),
                        cols.len() == query.action.filter_resources@.len(),
                        names@.len() == cols.len(),
                        forall|k: int|
                            0 <= k < names@.len() ==> #[trigger] names@[k]@ == column_table(cols[k]),
                        m < tables@.len(),
                        t == tables@[m as int]@,
                        config.column_masks@.contains_key(t),
                        config.column_masks@[t] == *mc,
                        i <= names@.len(),
                        cands == base + table_candidates(cols, t, *mc, i as int),
                        masks@.len() == cands.len(),
                        queries@.len() == 2 * cands.len(),
                        forall|k: int|
                            0 <= k < cands.len() ==> #[trigger] mask_entry(
                                *config,
                                *query,
                                cands[k],
                                masks@[k],
                                queries@,
                                k,
                            ),
                    decreases names@.len() - i,
                {
                    let ghost prev_cands = cands;
                    if str_eq(names[i].as_str(), tables[m].as_str()) {
                        let c = &query.action.filter_resources[i].column;
                        assert(*c == cols[i as int]);
                        match find_column_config(&mc.columns, c.column_name.as_str()) {
                            Some(j) => {
                                proof {
                                    lemma_column_match_is(mc.columns@, c.column_name@, j as int);
                                }
                                let cc = &mc.columns[j];
                                let action: &String = match &cc.action {
                                    Some(a) => a,
                                    None => &mc.action,
                                };
                                let column_name = column_resource_name(
                                    c.catalog_name.as_str(),
                                    c.schema_name.as_str(),
                                    c.table_name.as_str(),
                                    c.column_name.as_str(),
                                );
                                let tq = build_column_mask_query(
                                    query,
                                    tables[m].as_str(),
                                    action.as_str(),
                                );
                                let cq = build_column_mask_query(
                                    query,
                                    column_name.as_str(),
                                    action.as_str(),
                                );
                                let mask = TrinoColumnMaskResponse {
                                    index: i,
                                    view_expression: ViewExpression {
                                        expression: cc.view_expression.clone(),
                                        identity: cc.identity.duplicate(),
                                    },
                                };
                                let ghost old_queries = queries@;
                                masks.push(mask);
                                queries.push(tq);
                                queries.push(cq);
                                proof {
                                    cands = cands.push((i as int, j as int));
                                    assert(cands =~= base + table_candidates(
                                        cols,
                                        t,
                                        *mc,
                                        i + 1,
                                    ));
                                    assert forall|k: int| 0 <= k < cands.len() implies #[trigger] mask_entry(
                                        *config,
                                        *query,
                                        cands[k],
                                        masks@[k],
                                        queries@,
                                        k,
                                    ) by {
                                        if k < prev_cands.len() {
                                            assert(mask_entry(
                                                *config,
                                                *query,
                                                prev_cands[k],
                                                masks@[k],
                                                old_queries,
                                                k,
                                            ));
                                            assert(queries@[2 * k] == old_queries[2 * k]);
                                            assert(queries@[2 * k + 1] == old_queries[2 * k + 1]);
                                        }
                                    }
                                }
                            },
                            None => {
                                proof {
                                    lemma_column_match_none(mc.columns@, c.column_name@);
                                }
                            },
                        }
                    }
                    i = i + 1;
                }
                proof {
                    assert(cands == mask_candidates(*config, cols, ft.subrange(0, m + 1)));
                }
            },
        }
        m = m + 1;
    }
    assert(ft.subrange(0, ft.len() as int) == ft);
    ColumnMaskPlan { masks, queries }
}

/// The candidates whose table check or column check allows, in order.
pub open spec fn granted_masks(masks: Seq<TrinoColumnMaskResponse>, b: BulkAuthorizationResult) -> Seq<
    TrinoColumnMaskResponse,
>
    decreases masks.len(),
{
    if masks.len() == 0 {
        Seq::empty()
    } else {
        let k = masks.len() - 1;
        let prev = granted_masks(masks.drop_last(), b);
        if allows_at(b, 2 * k) || allows_at(b, 2 * k + 1) {
            prev.push(masks.last())
        } else {
            prev
        }
    }
}

/// The column masks of a request once its checks answered (`None` when the
/// bulk check failed, which gives no mask): a candidate is granted when
/// the check on its table or the check on its column allows.
pub fn get_column_mask_expressions(
    plan: &ColumnMaskPlan,
    answers: Option<&BulkAuthorizationResult>,
) -> (r: Vec<TrinoColumnMaskResponse>)
    ensures
        r@ == match answers {
            Some(b) => granted_masks(plan.masks@, *b),
            None => Seq::<TrinoColumnMaskResponse>::empty(),
        },
{
    let b = match answers {
        Some(b) => b,
        None => {
            return Vec::new();
        },
    };
    let mut r: Vec<TrinoColumnMaskResponse> = Vec::new();
    let mut k: usize = 0;
    while k < plan.masks.len()
        invariant
            k <= plan.masks@.len(),
            r@ == granted_masks(plan.masks@.subrange(0, k as int), *b),
        decreases plan.masks@.len() - k,
    {
        assert(plan.masks@.subrange(0, k + 1).drop_last() == plan.masks@.subrange(0, k as int));
        let table_allowed: bool;
        let column_allowed: bool;
        if k <= (usize::MAX - 1) / 2 {
            table_allowed = answer_allows(b, 2 * k);
            column_allowed = answer_allows(b, 2 * k + 1);
        } else {
            let n = b.allow.len();
            assert(2 * k >= n);
            table_allowed = false;
            column_allowed = false;
        }
        assert(table_allowed == allows_at(*b, 2 * k));
        assert(column_allowed == allows_at(*b, 2 * k + 1));
        let ghost before = r@;
        if table_allowed || column_allowed {
            let m = &plan.masks[k];
            r.push(
                TrinoColumnMaskResponse {
                    index: m.index,
                    view_expression: ViewExpression {
                        expression: m.view_expression.expression.clone(),
                        identity: m.view_expression.identity.duplicate(),
                    },
                },
            );
            assert(r@ == before.push(plan.masks@[k as int]));
        }
        k = k + 1;
    }
    assert(plan.masks@.subrange(0, plan.masks@.len() as int) == plan.masks@);
    r
}

} // verus!
