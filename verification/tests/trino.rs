use pdp::server::config::trino_authz::{
    default_column_mask_action, ColumnConfig, ColumnMaskConfig, RowFilterConfig, TrinoAuthzConfig,
};
use pdp::server::models::{AuthorizationResult, BulkAuthorizationResult};
use pdp::server::trino::checks::{
    build_allowed_query, trino_check_after_answer, trino_check_after_bulk,
    trino_check_first_step, TrinoCheckStep,
};
use pdp::server::trino::column_mask::{get_column_mask_expressions, plan_column_masks};
use pdp::server::trino::row_filter::{get_row_filter_expressions, plan_row_filters};
use pdp::server::trino::schemas::{
    NamedEntity, TrinoAllowAction, TrinoAuthzQuery, TrinoColumnMaskAction, TrinoColumnMaskColumn,
    TrinoColumnMaskQuery, TrinoColumnMaskResource, TrinoContext, TrinoIdentity, TrinoOperation,
    TrinoResource, TrinoRowFilterAction, TrinoRowFilterQuery, TrinoSchema, TrinoStackContext,
    TrinoTable,
};
use pdp::strmap::StrMap;

fn context(user: &str) -> TrinoContext {
    TrinoContext {
        identity: TrinoIdentity {
            user: user.to_string(),
            groups: vec!["group1".to_string(), "group2".to_string()],
        },
        software_stack: TrinoStackContext { trino_version: "434".to_string() },
    }
}

fn query(operation: TrinoOperation, resource: Option<TrinoResource>) -> TrinoAuthzQuery {
    TrinoAuthzQuery {
        context: context("test-user"),
        action: TrinoAllowAction {
            operation,
            resource,
            filter_resources: None,
            target_resource: None,
            grantee: None,
        },
    }
}

#[test]
fn test_build_allowed_query() {
    let query = TrinoAuthzQuery {
        context: TrinoContext {
            identity: TrinoIdentity {
                user: "test-user".to_string(),
                groups: vec!["group1".to_string(), "group2".to_string()],
            },
            software_stack: TrinoStackContext {
                trino_version: "434".to_string(),
            },
        },
        action: TrinoAllowAction {
            operation: TrinoOperation::SelectFromColumns,
            resource: None,
            filter_resources: None,
            target_resource: None,
            grantee: None,
        },
    };

    let allowed_query = build_allowed_query(&query, "test_resource".to_string());

    assert_eq!(allowed_query.user.key, "test-user");
    assert_eq!(allowed_query.action, "SelectFromColumns");
    assert_eq!(allowed_query.resource.kind, "test_resource");
    assert_eq!(allowed_query.resource.tenant, Some("default".to_string()));
    assert_eq!(allowed_query.sdk, Some("trino/434".to_string()));
    assert!(allowed_query.user.first_name.is_none());
    assert!(allowed_query.user.last_name.is_none());
    assert!(allowed_query.user.email.is_none());
    assert!(allowed_query.user.attributes.is_empty());
    assert!(allowed_query.resource.attributes.is_empty());
    assert!(allowed_query.resource.context.is_empty());
    assert!(allowed_query.context.is_empty());
}

fn table(columns: Option<Vec<&str>>) -> TrinoResource {
    TrinoResource::Table {
        table: TrinoTable {
            catalog_name: "postgres".to_string(),
            schema_name: "public".to_string(),
            table_name: "users".to_string(),
            columns: columns.map(|c| c.into_iter().map(|s| s.to_string()).collect()),
            properties: None,
        },
    }
}

fn answer(allow: bool) -> AuthorizationResult {
    AuthorizationResult { allow, query: None, debug: None, result: allow }
}

#[test]
fn first_checks_name_the_resource_type() {
    match trino_check_first_step(&query(TrinoOperation::SelectFromColumns, Some(table(None)))) {
        TrinoCheckStep::Ask(q) => assert_eq!(q.resource.kind, "trino_table_postgres_public_users"),
        _ => panic!("ask"),
    }
    let schema = TrinoResource::Schema {
        schema: TrinoSchema {
            catalog_name: "postgres".to_string(),
            schema_name: "public".to_string(),
            properties: None,
        },
    };
    match trino_check_first_step(&query(TrinoOperation::ShowSchemas, Some(schema))) {
        TrinoCheckStep::Ask(q) => assert_eq!(q.resource.kind, "trino_schema_postgres_public"),
        _ => panic!("ask"),
    }
    let catalog = TrinoResource::Catalog { catalog: NamedEntity { name: "postgres".to_string() } };
    match trino_check_first_step(&query(TrinoOperation::AccessCatalog, Some(catalog))) {
        TrinoCheckStep::Ask(q) => {
            assert_eq!(q.resource.kind, "trino_catalog_postgres");
            assert_eq!(q.action, "AccessCatalog");
        }
        _ => panic!("ask"),
    }
    match trino_check_first_step(&query(TrinoOperation::ExecuteQuery, None)) {
        TrinoCheckStep::Ask(q) => assert_eq!(q.resource.kind, "trino_sys"),
        _ => panic!("ask"),
    }
}

#[test]
fn table_checks_fall_back_to_every_column() {
    let q = query(TrinoOperation::SelectFromColumns, Some(table(Some(vec!["id", "email"]))));
    match trino_check_after_answer(&q, Some(&answer(true))) {
        TrinoCheckStep::Decided(d) => assert!(d),
        _ => panic!("decided"),
    }
    let qs = match trino_check_after_answer(&q, Some(&answer(false))) {
        TrinoCheckStep::AskBulk(qs) => qs,
        _ => panic!("bulk"),
    };
    assert_eq!(qs.len(), 2);
    assert_eq!(qs[0].resource.kind, "trino_column_postgres_public_users_id");
    assert_eq!(qs[1].resource.kind, "trino_column_postgres_public_users_email");
    let all = BulkAuthorizationResult { allow: vec![answer(true), answer(true)] };
    let partial = BulkAuthorizationResult { allow: vec![answer(true), answer(false)] };
    assert!(trino_check_after_bulk(Some(&all)));
    assert!(!trino_check_after_bulk(Some(&partial)));
    assert!(!trino_check_after_bulk(None));

    let no_columns = query(TrinoOperation::SelectFromColumns, Some(table(None)));
    assert!(matches!(trino_check_after_answer(&no_columns, Some(&answer(false))), TrinoCheckStep::Decided(true)));
    let empty = query(TrinoOperation::SelectFromColumns, Some(table(Some(vec![]))));
    assert!(matches!(trino_check_after_answer(&empty, None), TrinoCheckStep::Decided(true)));
    let system = query(TrinoOperation::ExecuteQuery, None);
    assert!(matches!(trino_check_after_answer(&system, None), TrinoCheckStep::Decided(false)));
}

fn row_config() -> TrinoAuthzConfig {
    let mut row_filters = StrMap::new();
    row_filters.insert(
        "trino_table_postgres_demo_users".to_string(),
        vec![
            RowFilterConfig { action: "view_active".to_string(), expression: "status = 'active'".to_string() },
            RowFilterConfig { action: "view_public".to_string(), expression: "is_public = TRUE".to_string() },
        ],
    );
    TrinoAuthzConfig { row_filters, column_masks: StrMap::new() }
}

fn row_query(table_name: &str) -> TrinoRowFilterQuery {
    TrinoRowFilterQuery {
        context: context("charlie"),
        action: TrinoRowFilterAction {
            operation: TrinoOperation::GetRowFilters,
            resource: TrinoResource::Table {
                table: TrinoTable {
                    catalog_name: "postgres".to_string(),
                    schema_name: "demo".to_string(),
                    table_name: table_name.to_string(),
                    columns: None,
                    properties: None,
                },
            },
        },
    }
}

#[test]
fn row_filters_apply_where_their_check_allows() {
    let config = row_config();
    let plan = plan_row_filters(Some(&config), &row_query("users"));
    assert_eq!(plan.queries.len(), 2);
    assert_eq!(plan.queries[0].action, "view_active");
    assert_eq!(plan.queries[1].resource.kind, "trino_table_postgres_demo_users");
    let answers = BulkAuthorizationResult { allow: vec![answer(false), answer(true)] };
    let r = get_row_filter_expressions(&plan, Some(&answers));
    assert_eq!(r.len(), 1);
    assert_eq!(r[0].expression, "is_public = TRUE");
    let short = BulkAuthorizationResult { allow: vec![answer(true)] };
    assert_eq!(get_row_filter_expressions(&plan, Some(&short)).len(), 1);
    assert!(get_row_filter_expressions(&plan, None).is_empty());
    assert!(plan_row_filters(None, &row_query("users")).queries.is_empty());
    assert!(plan_row_filters(Some(&config), &row_query("orders")).queries.is_empty());
}

fn mask_config() -> TrinoAuthzConfig {
    let mut column_masks = StrMap::new();
    column_masks.insert(
        "trino_table_postgres_demo_users".to_string(),
        ColumnMaskConfig {
            action: "AddColumnMask".to_string(),
            columns: vec![
                ColumnConfig { column_name: "ssn".to_string(), view_expression: "'***-**-****'".to_string(), identity: None, action: None },
                ColumnConfig { column_name: "email".to_string(), view_expression: "CONCAT(SUBSTRING(email, 1, 2), '***@***.com')".to_string(), identity: Some("admin".to_string()), action: None },
                ColumnConfig { column_name: "phone".to_string(), view_expression: "'XXX-XXX-XXXX'".to_string(), identity: None, action: Some("ViewPhone".to_string()) },
            ],
        },
    );
    column_masks.insert(
        "trino_table_postgres_demo_projects".to_string(),
        ColumnMaskConfig {
            action: "ViewSensitiveData".to_string(),
            columns: vec![ColumnConfig { column_name: "budget".to_string(), view_expression: "NULL".to_string(), identity: None, action: None }],
        },
    );
    TrinoAuthzConfig { row_filters: StrMap::new(), column_masks }
}

fn column(table_name: &str, name: &str) -> TrinoColumnMaskResource {
    TrinoColumnMaskResource {
        column: TrinoColumnMaskColumn {
            catalog_name: "postgres".to_string(),
            schema_name: "demo".to_string(),
            table_name: table_name.to_string(),
            column_name: name.to_string(),
            column_type: "VARCHAR".to_string(),
        },
    }
}

#[test]
fn column_masks_need_the_table_or_the_column_check() {
    let config = mask_config();
    let q = TrinoColumnMaskQuery {
        context: context("charlie"),
        action: TrinoColumnMaskAction {
            operation: TrinoOperation::GetColumnMask,
            filter_resources: vec![
                column("users", "ssn"),
                column("projects", "budget"),
                column("users", "name"),
                column("users", "phone"),
            ],
        },
    };
    let plan = plan_column_masks(Some(&config), &q);
    assert_eq!(plan.masks.len(), 3);
    assert_eq!(plan.queries.len(), 6);
    assert_eq!(plan.masks[0].index, 0);
    assert_eq!(plan.masks[1].index, 3);
    assert_eq!(plan.masks[2].index, 1);
    assert_eq!(plan.queries[0].resource.kind, "trino_table_postgres_demo_users");
    assert_eq!(plan.queries[1].resource.kind, "trino_column_postgres_demo_users_ssn");
    assert_eq!(plan.queries[0].action, "AddColumnMask");
    assert_eq!(plan.queries[2].action, "ViewPhone");
    assert_eq!(plan.queries[4].action, "ViewSensitiveData");
    let answers = BulkAuthorizationResult {
        allow: vec![answer(false), answer(true), answer(false), answer(false), answer(true), answer(false)],
    };
    let masks = get_column_mask_expressions(&plan, Some(&answers));
    assert_eq!(masks.len(), 2);
    assert_eq!(masks[0].index, 0);
    assert_eq!(masks[0].view_expression.expression, "'***-**-****'");
    assert_eq!(masks[1].index, 1);
    assert_eq!(masks[1].view_expression.expression, "NULL");
    assert!(get_column_mask_expressions(&plan, None).is_empty());
    let none = plan_column_masks(None, &q);
    assert!(none.masks.is_empty() && none.queries.is_empty());
}

fn config_with_masks(tables: Vec<(&str, Option<&str>, Vec<(&str, &str)>)>) -> TrinoAuthzConfig {
    let mut column_masks = StrMap::new();
    for (t, action, cols) in tables {
        column_masks.insert(
            t.to_string(),
            ColumnMaskConfig {
                action: action.map(|a| a.to_string()).unwrap_or_else(default_column_mask_action),
                columns: cols
                    .into_iter()
                    .map(|(n, e)| ColumnConfig {
                        column_name: n.to_string(),
                        view_expression: e.to_string(),
                        identity: None,
                        action: None,
                    })
                    .collect(),
            },
        );
    }
    let mut config = TrinoAuthzConfig { row_filters: StrMap::new(), column_masks };
    config.validate_and_deduplicate_columns();
    config
}

#[test]
fn test_load_valid_config() {
    let mut row_filters = StrMap::new();
    row_filters.insert(
        "trino_table_postgres_public_projects".to_string(),
        vec![
            RowFilterConfig { action: "only_public".to_string(), expression: "is_public = TRUE".to_string() },
            RowFilterConfig { action: "small_projects".to_string(), expression: "size = 'small'".to_string() },
        ],
    );
    row_filters.insert(
        "trino_table_postgres_public_users".to_string(),
        vec![RowFilterConfig { action: "view_active".to_string(), expression: "status = 'active'".to_string() }],
    );
    let mut config = TrinoAuthzConfig { row_filters, column_masks: StrMap::new() };
    config.validate_and_deduplicate_columns();
    assert_eq!(config.row_filters.len(), 2);

    let project_filters = config.get_filters("trino_table_postgres_public_projects");
    assert!(project_filters.is_some());

    let filters = project_filters.unwrap();
    assert_eq!(filters.len(), 2);
    assert_eq!(filters[0].action, "only_public");
    assert_eq!(filters[0].expression, "is_public = TRUE");
    assert_eq!(filters[1].action, "small_projects");
    assert_eq!(filters[1].expression, "size = 'small'");
}

#[test]
fn test_get_filters_existing_resource() {
    let mut row_filters = StrMap::new();
    row_filters.insert(
        "test_resource".to_string(),
        vec![RowFilterConfig { action: "test_action".to_string(), expression: "test = TRUE".to_string() }],
    );
    let config = TrinoAuthzConfig { row_filters, column_masks: StrMap::new() };
    let filters = config.get_filters("test_resource");
    assert!(filters.is_some());
    assert_eq!(filters.unwrap().len(), 1);
}

#[test]
fn test_get_filters_nonexistent_resource() {
    let mut row_filters = StrMap::new();
    row_filters.insert(
        "test_resource".to_string(),
        vec![RowFilterConfig { action: "test_action".to_string(), expression: "test = TRUE".to_string() }],
    );
    let config = TrinoAuthzConfig { row_filters, column_masks: StrMap::new() };
    let filters = config.get_filters("nonexistent_resource");
    assert!(filters.is_none());
}

#[test]
fn test_load_config_with_column_masking() {
    let mut column_masks = StrMap::new();
    column_masks.insert(
        "trino_table_postgres_public_users".to_string(),
        ColumnMaskConfig {
            action: "AddColumnMask".to_string(),
            columns: vec![
                ColumnConfig { column_name: "ssn".to_string(), view_expression: "'***-**-****'".to_string(), identity: None, action: None },
                ColumnConfig { column_name: "email".to_string(), view_expression: "CONCAT(SUBSTRING(email, 1, 2), '***@***.com')".to_string(), identity: Some("admin".to_string()), action: None },
                ColumnConfig { column_name: "phone".to_string(), view_expression: "'XXX-XXX-XXXX'".to_string(), identity: None, action: Some("ViewPhone".to_string()) },
            ],
        },
    );
    let mut row_filters = StrMap::new();
    row_filters.insert(
        "trino_table_postgres_public_users".to_string(),
        vec![RowFilterConfig { action: "view_active".to_string(), expression: "status = 'active'".to_string() }],
    );
    let mut config = TrinoAuthzConfig { row_filters, column_masks };
    config.validate_and_deduplicate_columns();

    assert_eq!(config.column_masks.len(), 1);

    let masks = config.get_column_masks("trino_table_postgres_public_users");
    assert!(masks.is_some());

    let mask_config = masks.unwrap();
    assert_eq!(mask_config.action, "AddColumnMask");
    assert_eq!(mask_config.columns.len(), 3);

    assert_eq!(mask_config.columns[0].column_name, "ssn");
    assert_eq!(mask_config.columns[0].view_expression, "'***-**-****'");
    assert!(mask_config.columns[0].identity.is_none());
    assert!(mask_config.columns[0].action.is_none());

    assert_eq!(mask_config.columns[1].column_name, "email");
    assert_eq!(
        mask_config.columns[1].view_expression,
        "CONCAT(SUBSTRING(email, 1, 2), '***@***.com')"
    );
    assert_eq!(mask_config.columns[1].identity, Some("admin".to_string()));
    assert!(mask_config.columns[1].action.is_none());

    assert_eq!(mask_config.columns[2].column_name, "phone");
    assert_eq!(mask_config.columns[2].view_expression, "'XXX-XXX-XXXX'");
    assert!(mask_config.columns[2].identity.is_none());
    assert_eq!(mask_config.columns[2].action, Some("ViewPhone".to_string()));
}

#[test]
fn test_get_column_masks_nonexistent_resource() {
    let config = config_with_masks(vec![("trino_table_test", None, vec![("test_column", "NULL")])]);
    let masks = config.get_column_masks("nonexistent_resource");
    assert!(masks.is_none());
}

#[test]
fn test_default_column_mask_action() {
    let config = config_with_masks(vec![("trino_table_test", None, vec![("test_column", "NULL")])]);
    let masks = config.get_column_masks("trino_table_test").unwrap();
    assert_eq!(masks.action, "AddColumnMask");
}

#[test]
fn test_duplicate_column_names_deduplicated() {
    let config = config_with_masks(vec![(
        "trino_table_test",
        Some("AddColumnMask"),
        vec![
            ("email", "'FIRST@EXPRESSION.com'"),
            ("phone", "'XXX-XXX-XXXX'"),
            ("email", "'SECOND@EXPRESSION.com'"),
            ("ssn", "'***-**-****'"),
            ("email", "'THIRD@EXPRESSION.com'"),
        ],
    )]);
    let masks = config.get_column_masks("trino_table_test").unwrap();

    assert_eq!(masks.columns.len(), 3);

    assert_eq!(masks.columns[0].column_name, "email");
    assert_eq!(masks.columns[0].view_expression, "'FIRST@EXPRESSION.com'");

    assert_eq!(masks.columns[1].column_name, "phone");
    assert_eq!(masks.columns[1].view_expression, "'XXX-XXX-XXXX'");

    assert_eq!(masks.columns[2].column_name, "ssn");
    assert_eq!(masks.columns[2].view_expression, "'***-**-****'");
}

#[test]
fn test_duplicate_column_names_multiple_tables() {
    let config = config_with_masks(vec![
        ("trino_table_test1", None, vec![("col1", "'FIRST'"), ("col1", "'SECOND'")]),
        ("trino_table_test2", None, vec![("col2", "'FIRST'"), ("col2", "'SECOND'"), ("col2", "'THIRD'")]),
    ]);

    let masks1 = config.get_column_masks("trino_table_test1").unwrap();
    assert_eq!(masks1.columns.len(), 1);
    assert_eq!(masks1.columns[0].column_name, "col1");
    assert_eq!(masks1.columns[0].view_expression, "'FIRST'");

    let masks2 = config.get_column_masks("trino_table_test2").unwrap();
    assert_eq!(masks2.columns.len(), 1);
    assert_eq!(masks2.columns[0].column_name, "col2");
    assert_eq!(masks2.columns[0].view_expression, "'FIRST'");
}

#[test]
fn resources_render_names_and_kinds() {
    let t = table(None);
    assert_eq!(t.get_name(), "postgres.public.users");
    assert_eq!(t.get_type(), "table");
    assert_eq!(t.to_debug_string(), "table=postgres.public.users");
    assert_eq!(TrinoOperation::FilterCatalogs.to_string(), "FilterCatalogs");
}

#[test]
fn operation_names_are_distinct() {
    let ops = [
        TrinoOperation::ImpersonateUser,
        TrinoOperation::ExecuteQuery,
        TrinoOperation::ViewQueryOwnedBy,
        TrinoOperation::FilterViewQueryOwnedBy,
        TrinoOperation::KillQueryOwnedBy,
        TrinoOperation::ReadSystemInformation,
        TrinoOperation::WriteSystemInformation,
        TrinoOperation::SetSystemSessionProperty,
        TrinoOperation::AccessCatalog,
        TrinoOperation::CreateCatalog,
        TrinoOperation::DropCatalog,
        TrinoOperation::FilterCatalogs,
        TrinoOperation::CreateSchema,
        TrinoOperation::DropSchema,
        TrinoOperation::RenameSchema,
        TrinoOperation::SetSchemaAuthorization,
        TrinoOperation::ShowSchemas,
        TrinoOperation::FilterSchemas,
        TrinoOperation::ShowCreateSchema,
        TrinoOperation::ShowCreateTable,
        TrinoOperation::CreateTable,
        TrinoOperation::DropTable,
        TrinoOperation::RenameTable,
        TrinoOperation::SetTableProperties,
        TrinoOperation::SetTableComment,
        TrinoOperation::AddColumn,
        TrinoOperation::AlterColumn,
        TrinoOperation::DropColumn,
        TrinoOperation::RenameColumn,
        TrinoOperation::SelectFromColumns,
        TrinoOperation::InsertIntoTable,
        TrinoOperation::DeleteFromTable,
        TrinoOperation::TruncateTable,
        TrinoOperation::UpdateTableColumns,
        TrinoOperation::ShowTables,
        TrinoOperation::FilterTables,
        TrinoOperation::ShowColumns,
        TrinoOperation::FilterColumns,
        TrinoOperation::SetTableAuthorization,
        TrinoOperation::CreateView,
        TrinoOperation::RenameView,
        TrinoOperation::DropView,
        TrinoOperation::SetViewAuthorization,
        TrinoOperation::SetViewComment,
        TrinoOperation::CreateViewWithSelectFromColumns,
        TrinoOperation::CreateMaterializedView,
        TrinoOperation::RefreshMaterializedView,
        TrinoOperation::SetMaterializedViewProperties,
        TrinoOperation::DropMaterializedView,
        TrinoOperation::RenameMaterializedView,
        TrinoOperation::SetCatalogSessionProperty,
        TrinoOperation::ShowFunctions,
        TrinoOperation::FilterFunctions,
        TrinoOperation::ExecuteFunction,
        TrinoOperation::ExecuteProcedure,
        TrinoOperation::ExecuteTableProcedure,
        TrinoOperation::CreateFunction,
        TrinoOperation::DropFunction,
        TrinoOperation::ShowCreateFunction,
        TrinoOperation::CreateViewWithExecuteFunction,
        TrinoOperation::GetRowFilters,
        TrinoOperation::GetColumnMask,
    ];
    let mut names: Vec<String> = ops.iter().map(|op| op.to_string()).collect();
    assert_eq!(names[0], "ImpersonateUser");
    names.sort();
    names.dedup();
    assert_eq!(names.len(), ops.len());
}
