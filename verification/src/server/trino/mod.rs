pub mod checks;
pub mod column_mask;
pub mod row_filter;
pub mod schemas;
