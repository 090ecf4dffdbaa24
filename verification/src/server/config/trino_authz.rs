//! Row-filter and column-mask configuration of the Trino integration.

use crate::strmap::{distinct_keys, Duplicate, StrMap};
use crate::text::str_eq;
use vstd::prelude::*;

verus! {

/// Row filters per table resource, and column masks per table resource.
#[derive(Debug, Clone)]
pub struct TrinoAuthzConfig {
    pub row_filters: StrMap<Vec<RowFilterConfig>>,
    pub column_masks: StrMap<ColumnMaskConfig>,
}

/// A row filter: the expression applies when the user may perform `action`.
#[derive(Debug, Clone)]
pub struct RowFilterConfig {
    pub action: String,
    pub expression: String,
}

/// The column masks of one table.
#[derive(Debug, Clone)]
pub struct ColumnMaskConfig {
    /// The action that grants the masks (by default "AddColumnMask").
    pub action: String,
    pub columns: Vec<ColumnConfig>,
}

/// The mask of one column.
#[derive(Debug, Clone)]
pub struct ColumnConfig {
    pub column_name: String,
    /// The SQL expression that replaces the column.
    pub view_expression: String,
    /// The identity to evaluate the expression as.
    pub identity: Option<String>,
    /// An action that overrides the table's action for this column.
    pub action: Option<String>,
}

impl Duplicate for ColumnConfig {
    fn duplicate(&self) -> (r: Self) {
        ColumnConfig {
            column_name: self.column_name.clone(),
            view_expression: self.view_expression.clone(),
            identity: self.identity.duplicate(),
            action: self.action.duplicate(),
        }
    }
}

impl Duplicate for RowFilterConfig {
    fn duplicate(&self) -> (r: Self) {
        RowFilterConfig { action: self.action.clone(), expression: self.expression.clone() }
    }
}

/// The action of a column-mask configuration when none is given.
pub open spec fn default_mask_action() -> Seq<char> {
    "AddColumnMask"@
}

/// The action of a column-mask configuration when none is given.
pub fn default_column_mask_action() -> (s: String)
    ensures
        s@ == default_mask_action(),
{
    "AddColumnMask".to_owned()
}

/// The column names of a list of column masks.
pub open spec fn column_names(s: Seq<ColumnConfig>) -> Seq<Seq<char>> {
    s.map_values(|c: ColumnConfig| c.column_name@)
}

/// The columns with the first mask of each column name, in order.
pub open spec fn dedup_columns(s: Seq<ColumnConfig>) -> Seq<ColumnConfig>
    decreases s.len(),
{
    if s.len() == 0 {
        s
    } else {
        let p = dedup_columns(s.drop_last());
        if column_names(s.drop_last()).contains(s.last().column_name@) {
            p
        } else {
            p.push(s.last())
        }
    }
}

proof fn lemma_names_last(s: Seq<ColumnConfig>, n: Seq<char>)
    requires
        s.len() > 0,
    ensures
        column_names(s).contains(n) <==> (column_names(s.drop_last()).contains(n)
            || s.last().column_name@ == n),
{
    assert(column_names(s.drop_last()) =~= column_names(s).drop_last());
    if column_names(s).contains(n) {
        let i = choose|i: int| 0 <= i < column_names(s).len() && column_names(s)[i] == n;
        if i < s.len() - 1 {
            assert(column_names(s.drop_last())[i] == n);
        }
    }
    if column_names(s.drop_last()).contains(n) {
        let i = choose|i: int|
            0 <= i < column_names(s.drop_last()).len() && column_names(s.drop_last())[i] == n;
        assert(column_names(s)[i] == n);
    }
    if s.last().column_name@ == n {
        assert(column_names(s)[s.len() - 1] == n);
    }
}

proof fn lemma_dedup_names(s: Seq<ColumnConfig>, name: Seq<char>)
    ensures
        column_names(dedup_columns(s)).contains(name) <==> column_names(s).contains(name),
    decreases s.len(),
{
    if s.len() > 0 {
        lemma_dedup_names(s.drop_last(), name);
        lemma_names_last(s, name);
        let p = dedup_columns(s.drop_last());
        if !column_names(s.drop_last()).contains(s.last().column_name@) {
            let q = p.push(s.last());
            assert(q.drop_last() =~= p);
            lemma_names_last(q, name);
        } else {
            lemma_dedup_names(s.drop_last(), s.last().column_name@);
        }
    }
}

proof fn lemma_dedup_distinct_is_identity(s: Seq<ColumnConfig>)
    requires
        forall|i: int, j: int|
            0 <= i < j < s.len() ==> #[trigger] s[i].column_name@ != #[trigger] s[j].column_name@,
    ensures
        dedup_columns(s) == s,
    decreases s.len(),
{
    if s.len() > 0 {
        lemma_dedup_distinct_is_identity(s.drop_last());
        if column_names(s.drop_last()).contains(s.last().column_name@) {
            let i = choose|i: int|
                0 <= i < column_names(s.drop_last()).len() && column_names(s.drop_last())[i]
                    == s.last().column_name@;
            assert(s[i].column_name@ == s[s.len() - 1].column_name@);
        }
        assert(s.drop_last().push(s.last()) =~= s);
    }
}

/// Deduplication keeps one mask per column name: no name appears twice
/// after it, every name of the input remains, and deduplicating again
/// changes nothing.
pub proof fn lemma_deduplicate_columns(s: Seq<ColumnConfig>)
    ensures
        forall|i: int, j: int|
            0 <= i < j < dedup_columns(s).len() ==> #[trigger] dedup_columns(s)[i].column_name@
                != #[trigger] dedup_columns(s)[j].column_name@,
        forall|n: Seq<char>|
            #[trigger] column_names(dedup_columns(s)).contains(n) <==> column_names(s).contains(n),
        dedup_columns(dedup_columns(s)) == dedup_columns(s),
    decreases s.len(),
{
    if s.len() > 0 {
        lemma_deduplicate_columns(s.drop_last());
        let p = dedup_columns(s.drop_last());
        let d = dedup_columns(s);
        assert forall|n: Seq<char>| #[trigger] column_names(d).contains(n) <==> column_names(s).contains(n) by {
            lemma_dedup_names(s, n);
        }
        if !column_names(s.drop_last()).contains(s.last().column_name@) {
            lemma_dedup_names(s.drop_last(), s.last().column_name@);
            assert forall|i: int, j: int| 0 <= i < j < d.len() implies #[trigger] d[i].column_name@
                != #[trigger] d[j].column_name@ by {
                if j == d.len() - 1 {
                    assert(d[i] == p[i]);
                    assert(column_names(p)[i] == p[i].column_name@);
                }
            }
        }
        lemma_dedup_distinct_is_identity(d);
    }
}

/// The first masks of each column name, in their order.
pub fn deduplicate_columns(columns: &Vec<ColumnConfig>) -> (r: Vec<ColumnConfig>)
    ensures
        r@ == dedup_columns(columns@),
{
    let mut r: Vec<ColumnConfig> = Vec::new();
    let mut i: usize = 0;
    while i < columns.len()
        invariant
            i <= columns@.len(),
            r@ == dedup_columns(columns@.subrange(0, i as int)),
        decreases columns@.len() - i,
    {
        let ghost prefix = columns@.subrange(0, i as int);
        let ghost next = columns@.subrange(0, i + 1);
        assert(next.drop_last() =~= prefix);
        let mut seen = false;
        let mut j: usize = 0;
        while j < r.len()
            invariant
                j <= r@.len(),
                r@ == dedup_columns(prefix),
                i < columns@.len(),
                seen == column_names(r@.subrange(0, j as int)).contains(columns@[i as int].column_name@),
            decreases r@.len() - j,
        {
            let ghost q = r@.subrange(0, j + 1);
            proof {
                assert(q.drop_last() =~= r@.subrange(0, j as int));
                lemma_names_last(q, columns@[i as int].column_name@);
            }
            if str_eq(r[j].column_name.as_str(), columns[i].column_name.as_str()) {
                seen = true;
            }
            j = j + 1;
        }
        proof {
            assert(r@.subrange(0, r@.len() as int) == r@);
            lemma_dedup_names(prefix, columns@[i as int].column_name@);
            assert(next.last() == columns@[i as int]);
        }
        if !seen {
            r.push(columns[i].duplicate());
        }
        i = i + 1;
    }
    assert(columns@.subrange(0, columns@.len() as int) == columns@);
    r
}

/// The column-mask entries after deduplication: same tables and actions,
/// the first mask of each column name.
pub open spec fn deduplicated_masks(
    before: Seq<(String, ColumnMaskConfig)>,
    after: Seq<(String, ColumnMaskConfig)>,
) -> bool {
    &&& after.len() == before.len()
    &&& forall|i: int|
        0 <= i < before.len() ==> {
            &&& #[trigger] after[i].0@ == before[i].0@
            &&& after[i].1.action@ == before[i].1.action@
            &&& after[i].1.columns@ == dedup_columns(before[i].1.columns@)
        }
}

impl TrinoAuthzConfig {
    /// Both maps are well formed.
    pub open spec fn wf(&self) -> bool {
        self.row_filters.wf() && self.column_masks.wf()
    }

    /// The row filters of a table resource.
    pub fn get_filters(&self, resource_name: &str) -> (r: Option<&Vec<RowFilterConfig>>)
        requires
            self.wf(),
        ensures
            match r {
                Some(v) => self.row_filters@.contains_key(resource_name@)
                    && self.row_filters@[resource_name@] == *v,
                None => !self.row_filters@.contains_key(resource_name@),
            },
    {
        self.row_filters.get(resource_name)
    }

    /// The column masks of a table resource.
    pub fn get_column_masks(&self, resource_name: &str) -> (r: Option<&ColumnMaskConfig>)
        requires
            self.wf(),
        ensures
            match r {
                Some(v) => self.column_masks@.contains_key(resource_name@)
                    && self.column_masks@[resource_name@] == *v,
                None => !self.column_masks@.contains_key(resource_name@),
            },
    {
        self.column_masks.get(resource_name)
    }

    /// Keeps, in every table's column masks, only the first mask of each
    /// column name; row filters stay as they are.
    pub fn validate_and_deduplicate_columns(&mut self)
        requires
            old(self).wf(),
        ensures
            final(self).wf(),
            final(self).row_filters == old(self).row_filters,
            deduplicated_masks(old(self).column_masks.entries@, final(self).column_masks.entries@),
    {
        let mut entries: Vec<(String, ColumnMaskConfig)> = Vec::new();
        let mut i: usize = 0;
        while i < self.column_masks.entries.len()
            invariant
                i <= self.column_masks.entries@.len(),
                entries@.len() == i,
                forall|k: int|
                    0 <= k < i ==> {
                        &&& #[trigger] entries@[k].0@ == self.column_masks.entries@[k].0@
                        &&& entries@[k].1.action@ == self.column_masks.entries@[k].1.action@
                        &&& entries@[k].1.columns@ == dedup_columns(
                            self.column_masks.entries@[k].1.columns@,
                        )
                    },
            decreases self.column_masks.entries@.len() - i,
        {
            let key = self.column_masks.entries[i].0.clone();
            let action = self.column_masks.entries[i].1.action.clone();
            let columns = deduplicate_columns(&self.column_masks.entries[i].1.columns);
            let ghost prev = entries@;
            entries.push((key, ColumnMaskConfig { action, columns }));
            assert(entries@ == prev.push(entries@[i as int]));
            assert forall|k: int| 0 <= k < i implies #[trigger] entries@[k] == prev[k] by {}
            i = i + 1;
        }
        let ghost before = self.column_masks.entries@;
        self.column_masks = StrMap { entries };
        assert(distinct_keys(self.column_masks.entries@)) by {
            assert forall|a: int, b: int|
                0 <= a < b < self.column_masks.entries@.len() implies self.column_masks.entries@[a].0@
                != self.column_masks.entries@[b].0@ by {
                assert(self.column_masks.entries@[a].0@ == before[a].0@);
                assert(self.column_masks.entries@[b].0@ == before[b].0@);
            }
        }
    }
}

} // verus!
