//! The request shapes that Trino's OPA access-control plugin sends.

use crate::strmap::StrMap;
use crate::text::concat2;
use vstd::prelude::*;

verus! {

/// Who is asking, and which Trino version asks.
#[derive(Debug, Clone)]
pub struct TrinoContext {
    pub identity: TrinoIdentity,
    pub software_stack: TrinoStackContext,
}

/// The user and groups of the Trino session.
#[derive(Debug, Clone)]
pub struct TrinoIdentity {
    pub user: String,
    pub groups: Vec<String>,
}

/// The running Trino version (e.g. "448").
#[derive(Debug, Clone)]
pub struct TrinoStackContext {
    pub trino_version: String,
}

/// The operations Trino asks about.
#[derive(Debug, Clone, Copy, PartialEq, Eq)]
pub enum TrinoOperation {
    ImpersonateUser,
    ExecuteQuery,
    ViewQueryOwnedBy,
    FilterViewQueryOwnedBy,
    KillQueryOwnedBy,
    ReadSystemInformation,
    WriteSystemInformation,
    SetSystemSessionProperty,
    AccessCatalog,
    CreateCatalog,
    DropCatalog,
    FilterCatalogs,
    CreateSchema,
    DropSchema,
    RenameSchema,
    SetSchemaAuthorization,
    ShowSchemas,
    FilterSchemas,
    ShowCreateSchema,
    ShowCreateTable,
    CreateTable,
    DropTable,
    RenameTable,
    SetTableProperties,
    SetTableComment,
    AddColumn,
    AlterColumn,
    DropColumn,
    RenameColumn,
    SelectFromColumns,
    InsertIntoTable,
    DeleteFromTable,
    TruncateTable,
    UpdateTableColumns,
    ShowTables,
    FilterTables,
    ShowColumns,
    FilterColumns,
    SetTableAuthorization,
    CreateView,
    RenameView,
    DropView,
    SetViewAuthorization,
    SetViewComment,
    CreateViewWithSelectFromColumns,
    CreateMaterializedView,
    RefreshMaterializedView,
    SetMaterializedViewProperties,
    DropMaterializedView,
    RenameMaterializedView,
    SetCatalogSessionProperty,
    ShowFunctions,
    FilterFunctions,
    ExecuteFunction,
    ExecuteProcedure,
    ExecuteTableProcedure,
    CreateFunction,
    DropFunction,
    ShowCreateFunction,
    CreateViewWithExecuteFunction,
    GetRowFilters,
    GetColumnMask,
}

/// The name of an operation, as Trino spells it.
pub open spec fn operation_name(op: TrinoOperation) -> Seq<char> {
    match op {
        TrinoOperation::ImpersonateUser => "ImpersonateUser"@,
        TrinoOperation::ExecuteQuery => "ExecuteQuery"@,
        TrinoOperation::ViewQueryOwnedBy => "ViewQueryOwnedBy"@,
        TrinoOperation::FilterViewQueryOwnedBy => "FilterViewQueryOwnedBy"@,
        TrinoOperation::KillQueryOwnedBy => "KillQueryOwnedBy"@,
        TrinoOperation::ReadSystemInformation => "ReadSystemInformation"@,
        TrinoOperation::WriteSystemInformation => "WriteSystemInformation"@,
        TrinoOperation::SetSystemSessionProperty => "SetSystemSessionProperty"@,
        TrinoOperation::AccessCatalog => "AccessCatalog"@,
        TrinoOperation::CreateCatalog => "CreateCatalog"@,
        TrinoOperation::DropCatalog => "DropCatalog"@,
        TrinoOperation::FilterCatalogs => "FilterCatalogs"@,
        TrinoOperation::CreateSchema => "CreateSchema"@,
        TrinoOperation::DropSchema => "DropSchema"@,
        TrinoOperation::RenameSchema => "RenameSchema"@,
        TrinoOperation::SetSchemaAuthorization => "SetSchemaAuthorization"@,
        TrinoOperation::ShowSchemas => "ShowSchemas"@,
        TrinoOperation::FilterSchemas => "FilterSchemas"@,
        TrinoOperation::ShowCreateSchema => "ShowCreateSchema"@,
        TrinoOperation::ShowCreateTable => "ShowCreateTable"@,
        TrinoOperation::CreateTable => "CreateTable"@,
        TrinoOperation::DropTable => "DropTable"@,
        TrinoOperation::RenameTable => "RenameTable"@,
        TrinoOperation::SetTableProperties => "SetTableProperties"@,
        TrinoOperation::SetTableComment => "SetTableComment"@,
        TrinoOperation::AddColumn => "AddColumn"@,
        TrinoOperation::AlterColumn => "AlterColumn"@,
        TrinoOperation::DropColumn => "DropColumn"@,
        TrinoOperation::RenameColumn => "RenameColumn"@,
        TrinoOperation::SelectFromColumns => "SelectFromColumns"@,
        TrinoOperation::InsertIntoTable => "InsertIntoTable"@,
        TrinoOperation::DeleteFromTable => "DeleteFromTable"@,
        TrinoOperation::TruncateTable => "TruncateTable"@,
        TrinoOperation::UpdateTableColumns => "UpdateTableColumns"@,
        TrinoOperation::ShowTables => "ShowTables"@,
        TrinoOperation::FilterTables => "FilterTables"@,
        TrinoOperation::ShowColumns => "ShowColumns"@,
        TrinoOperation::FilterColumns => "FilterColumns"@,
        TrinoOperation::SetTableAuthorization => "SetTableAuthorization"@,
        TrinoOperation::CreateView => "CreateView"@,
        TrinoOperation::RenameView => "RenameView"@,
        TrinoOperation::DropView => "DropView"@,
        TrinoOperation::SetViewAuthorization => "SetViewAuthorization"@,
        TrinoOperation::SetViewComment => "SetViewComment"@,
        TrinoOperation::CreateViewWithSelectFromColumns => "CreateViewWithSelectFromColumns"@,
        TrinoOperation::CreateMaterializedView => "CreateMaterializedView"@,
        TrinoOperation::RefreshMaterializedView => "RefreshMaterializedView"@,
        TrinoOperation::SetMaterializedViewProperties => "SetMaterializedViewProperties"@,
        TrinoOperation::DropMaterializedView => "DropMaterializedView"@,
        TrinoOperation::RenameMaterializedView => "RenameMaterializedView"@,
        TrinoOperation::SetCatalogSessionProperty => "SetCatalogSessionProperty"@,
        TrinoOperation::ShowFunctions => "ShowFunctions"@,
        TrinoOperation::FilterFunctions => "FilterFunctions"@,
        TrinoOperation::ExecuteFunction => "ExecuteFunction"@,
        TrinoOperation::ExecuteProcedure => "ExecuteProcedure"@,
        TrinoOperation::ExecuteTableProcedure => "ExecuteTableProcedure"@,
        TrinoOperation::CreateFunction => "CreateFunction"@,
        TrinoOperation::DropFunction => "DropFunction"@,
        TrinoOperation::ShowCreateFunction => "ShowCreateFunction"@,
        TrinoOperation::CreateViewWithExecuteFunction => "CreateViewWithExecuteFunction"@,
        TrinoOperation::GetRowFilters => "GetRowFilters"@,
        TrinoOperation::GetColumnMask => "GetColumnMask"@,
    }
}

/// The operation that a name spells, if it spells one.
pub open spec fn operation_named(s: Seq<char>) -> Option<TrinoOperation> {
    if s.len() == 8 {
        if s == "DropView"@ {
            Some(TrinoOperation::DropView)
        } else {
            None
        }
    } else if s.len() == 9 {
        if s == "DropTable"@ {
            Some(TrinoOperation::DropTable)
        } else if s == "AddColumn"@ {
            Some(TrinoOperation::AddColumn)
        } else {
            None
        }
    } else if s.len() == 10 {
        if s == "DropSchema"@ {
            Some(TrinoOperation::DropSchema)
        } else if s == "DropColumn"@ {
            Some(TrinoOperation::DropColumn)
        } else if s == "ShowTables"@ {
            Some(TrinoOperation::ShowTables)
        } else if s == "CreateView"@ {
            Some(TrinoOperation::CreateView)
        } else if s == "RenameView"@ {
            Some(TrinoOperation::RenameView)
        } else {
            None
        }
    } else if s.len() == 11 {
        if s == "DropCatalog"@ {
            Some(TrinoOperation::DropCatalog)
        } else if s == "ShowSchemas"@ {
            Some(TrinoOperation::ShowSchemas)
        } else if s == "CreateTable"@ {
            Some(TrinoOperation::CreateTable)
        } else if s == "RenameTable"@ {
            Some(TrinoOperation::RenameTable)
        } else if s == "AlterColumn"@ {
            Some(TrinoOperation::AlterColumn)
        } else if s == "ShowColumns"@ {
            Some(TrinoOperation::ShowColumns)
        } else {
            None
        }
    } else if s.len() == 12 {
        if s == "ExecuteQuery"@ {
            Some(TrinoOperation::ExecuteQuery)
        } else if s == "CreateSchema"@ {
            Some(TrinoOperation::CreateSchema)
        } else if s == "RenameSchema"@ {
            Some(TrinoOperation::RenameSchema)
        } else if s == "RenameColumn"@ {
            Some(TrinoOperation::RenameColumn)
        } else if s == "FilterTables"@ {
            Some(TrinoOperation::FilterTables)
        } else if s == "DropFunction"@ {
            Some(TrinoOperation::DropFunction)
        } else {
            None
        }
    } else if s.len() == 13 {
        if s == "AccessCatalog"@ {
            Some(TrinoOperation::AccessCatalog)
        } else if s == "CreateCatalog"@ {
            Some(TrinoOperation::CreateCatalog)
        } else if s == "FilterSchemas"@ {
            Some(TrinoOperation::FilterSchemas)
        } else if s == "TruncateTable"@ {
            Some(TrinoOperation::TruncateTable)
        } else if s == "FilterColumns"@ {
            Some(TrinoOperation::FilterColumns)
        } else if s == "ShowFunctions"@ {
            Some(TrinoOperation::ShowFunctions)
        } else if s == "GetRowFilters"@ {
            Some(TrinoOperation::GetRowFilters)
        } else if s == "GetColumnMask"@ {
            Some(TrinoOperation::GetColumnMask)
        } else {
            None
        }
    } else if s.len() == 14 {
        if s == "FilterCatalogs"@ {
            Some(TrinoOperation::FilterCatalogs)
        } else if s == "SetViewComment"@ {
            Some(TrinoOperation::SetViewComment)
        } else if s == "CreateFunction"@ {
            Some(TrinoOperation::CreateFunction)
        } else {
            None
        }
    } else if s.len() == 15 {
        if s == "ImpersonateUser"@ {
            Some(TrinoOperation::ImpersonateUser)
        } else if s == "ShowCreateTable"@ {
            Some(TrinoOperation::ShowCreateTable)
        } else if s == "SetTableComment"@ {
            Some(TrinoOperation::SetTableComment)
        } else if s == "InsertIntoTable"@ {
            Some(TrinoOperation::InsertIntoTable)
        } else if s == "DeleteFromTable"@ {
            Some(TrinoOperation::DeleteFromTable)
        } else if s == "FilterFunctions"@ {
            Some(TrinoOperation::FilterFunctions)
        } else if s == "ExecuteFunction"@ {
            Some(TrinoOperation::ExecuteFunction)
        } else {
            None
        }
    } else if s.len() == 16 {
        if s == "ViewQueryOwnedBy"@ {
            Some(TrinoOperation::ViewQueryOwnedBy)
        } else if s == "KillQueryOwnedBy"@ {
            Some(TrinoOperation::KillQueryOwnedBy)
        } else if s == "ShowCreateSchema"@ {
            Some(TrinoOperation::ShowCreateSchema)
        } else if s == "ExecuteProcedure"@ {
            Some(TrinoOperation::ExecuteProcedure)
        } else {
            None
        }
    } else if s.len() == 17 {
        if s == "SelectFromColumns"@ {
            Some(TrinoOperation::SelectFromColumns)
        } else {
            None
        }
    } else if s.len() == 18 {
        if s == "SetTableProperties"@ {
            Some(TrinoOperation::SetTableProperties)
        } else if s == "UpdateTableColumns"@ {
            Some(TrinoOperation::UpdateTableColumns)
        } else if s == "ShowCreateFunction"@ {
            Some(TrinoOperation::ShowCreateFunction)
        } else {
            None
        }
    } else if s.len() == 20 {
        if s == "SetViewAuthorization"@ {
            Some(TrinoOperation::SetViewAuthorization)
        } else if s == "DropMaterializedView"@ {
            Some(TrinoOperation::DropMaterializedView)
        } else {
            None
        }
    } else if s.len() == 21 {
        if s == "ReadSystemInformation"@ {
            Some(TrinoOperation::ReadSystemInformation)
        } else if s == "SetTableAuthorization"@ {
            Some(TrinoOperation::SetTableAuthorization)
        } else if s == "ExecuteTableProcedure"@ {
            Some(TrinoOperation::ExecuteTableProcedure)
        } else {
            None
        }
    } else if s.len() == 22 {
        if s == "FilterViewQueryOwnedBy"@ {
            Some(TrinoOperation::FilterViewQueryOwnedBy)
        } else if s == "WriteSystemInformation"@ {
            Some(TrinoOperation::WriteSystemInformation)
        } else if s == "SetSchemaAuthorization"@ {
            Some(TrinoOperation::SetSchemaAuthorization)
        } else if s == "CreateMaterializedView"@ {
            Some(TrinoOperation::CreateMaterializedView)
        } else if s == "RenameMaterializedView"@ {
            Some(TrinoOperation::RenameMaterializedView)
        } else {
            None
        }
    } else if s.len() == 23 {
        if s == "RefreshMaterializedView"@ {
            Some(TrinoOperation::RefreshMaterializedView)
        } else {
            None
        }
    } else if s.len() == 24 {
        if s == "SetSystemSessionProperty"@ {
            Some(TrinoOperation::SetSystemSessionProperty)
        } else {
            None
        }
    } else if s.len() == 25 {
        if s == "SetCatalogSessionProperty"@ {
            Some(TrinoOperation::SetCatalogSessionProperty)
        } else {
            None
        }
    } else if s.len() == 29 {
        if s == "SetMaterializedViewProperties"@ {
            Some(TrinoOperation::SetMaterializedViewProperties)
        } else if s == "CreateViewWithExecuteFunction"@ {
            Some(TrinoOperation::CreateViewWithExecuteFunction)
        } else {
            None
        }
    } else if s.len() == 31 {
        if s == "CreateViewWithSelectFromColumns"@ {
            Some(TrinoOperation::CreateViewWithSelectFromColumns)
        } else {
            None
        }
    } else {
        None
    }
}

/// Each operation is found again from its name.
pub proof fn lemma_operation_named(op: TrinoOperation)
    ensures
        operation_named(operation_name(op)) == Some(op),
{
    match op {
        TrinoOperation::DropView => {
            reveal_strlit("DropView");
        },
        TrinoOperation::DropTable => {
            reveal_strlit("DropTable");
        },
        TrinoOperation::AddColumn => {
            reveal_strlit("AddColumn");
            reveal_strlit("DropTable");
            assert("DropTable"@[0] != "AddColumn"@[0]);
        },
        TrinoOperation::DropSchema => {
            reveal_strlit("DropSchema");
        },
        TrinoOperation::DropColumn => {
            reveal_strlit("DropColumn");
            reveal_strlit("DropSchema");
            assert("DropSchema"@[4] != "DropColumn"@[4]);
        },
        TrinoOperation::ShowTables => {
            reveal_strlit("ShowTables");
            reveal_strlit("DropSchema");
            assert("DropSchema"@[0] != "ShowTables"@[0]);
            reveal_strlit("DropColumn");
            assert("DropColumn"@[0] != "ShowTables"@[0]);
        },
        TrinoOperation::CreateView => {
            reveal_strlit("CreateView");
            reveal_strlit("DropSchema");
            assert("DropSchema"@[0] != "CreateView"@[0]);
            reveal_strlit("DropColumn");
            assert("DropColumn"@[0] != "CreateView"@[0]);
            reveal_strlit("ShowTables");
            assert("ShowTables"@[0] != "CreateView"@[0]);
        },
        TrinoOperation::RenameView => {
            reveal_strlit("RenameView");
            reveal_strlit("DropSchema");
            assert("DropSchema"@[0] != "RenameView"@[0]);
            reveal_strlit("DropColumn");
            assert("DropColumn"@[0] != "RenameView"@[0]);
            reveal_strlit("ShowTables");
            assert("ShowTables"@[0] != "RenameView"@[0]);
            reveal_strlit("CreateView");
            assert("CreateView"@[0] != "RenameView"@[0]);
        },
        TrinoOperation::DropCatalog => {
            reveal_strlit("DropCatalog");
        },
        TrinoOperation::ShowSchemas => {
            reveal_strlit("ShowSchemas");
            reveal_strlit("DropCatalog");
            assert("DropCatalog"@[0] != "ShowSchemas"@[0]);
        },
        TrinoOperation::CreateTable => {
            reveal_strlit("CreateTable");
            reveal_strlit("DropCatalog");
            assert("DropCatalog"@[0] != "CreateTable"@[0]);
            reveal_strlit("ShowSchemas");
            assert("ShowSchemas"@[0] != "CreateTable"@[0]);
        },
        TrinoOperation::RenameTable => {
            reveal_strlit("RenameTable");
            reveal_strlit("DropCatalog");
            assert("DropCatalog"@[0] != "RenameTable"@[0]);
            reveal_strlit("ShowSchemas");
            assert("ShowSchemas"@[0] != "RenameTable"@[0]);
            reveal_strlit("CreateTable");
            assert("CreateTable"@[0] != "RenameTable"@[0]);
        },
        TrinoOperation::AlterColumn => {
            reveal_strlit("AlterColumn");
            reveal_strlit("DropCatalog");
            assert("DropCatalog"@[0] != "AlterColumn"@[0]);
            reveal_strlit("ShowSchemas");
            assert("ShowSchemas"@[0] != "AlterColumn"@[0]);
            reveal_strlit("CreateTable");
            assert("CreateTable"@[0] != "AlterColumn"@[0]);
            reveal_strlit("RenameTable");
            assert("RenameTable"@[0] != "AlterColumn"@[0]);
        },
        TrinoOperation::ShowColumns => {
            reveal_strlit("ShowColumns");
            reveal_strlit("DropCatalog");
            assert("DropCatalog"@[0] != "ShowColumns"@[0]);
            reveal_strlit("ShowSchemas");
            assert("ShowSchemas"@[4] != "ShowColumns"@[4]);
            reveal_strlit("CreateTable");
            assert("CreateTable"@[0] != "ShowColumns"@[0]);
            reveal_strlit("RenameTable");
            assert("RenameTable"@[0] != "ShowColumns"@[0]);
            reveal_strlit("AlterColumn");
            assert("AlterColumn"@[0] != "ShowColumns"@[0]);
        },
        TrinoOperation::ExecuteQuery => {
            reveal_strlit("ExecuteQuery");
        },
        TrinoOperation::CreateSchema => {
            reveal_strlit("CreateSchema");
            reveal_strlit("ExecuteQuery");
            assert("ExecuteQuery"@[0] != "CreateSchema"@[0]);
        },
        TrinoOperation::RenameSchema => {
            reveal_strlit("RenameSchema");
            reveal_strlit("ExecuteQuery");
            assert("ExecuteQuery"@[0] != "RenameSchema"@[0]);
            reveal_strlit("CreateSchema");
            assert("CreateSchema"@[0] != "RenameSchema"@[0]);
        },
        TrinoOperation::RenameColumn => {
            reveal_strlit("RenameColumn");
            reveal_strlit("ExecuteQuery");
            assert("ExecuteQuery"@[0] != "RenameColumn"@[0]);
            reveal_strlit("CreateSchema");
            assert("CreateSchema"@[0] != "RenameColumn"@[0]);
            reveal_strlit("RenameSchema");
            assert("RenameSchema"@[6] != "RenameColumn"@[6]);
        },
        TrinoOperation::FilterTables => {
            reveal_strlit("FilterTables");
            reveal_strlit("ExecuteQuery");
            assert("ExecuteQuery"@[0] != "FilterTables"@[0]);
            reveal_strlit("CreateSchema");
            assert("CreateSchema"@[0] != "FilterTables"@[0]);
            reveal_strlit("RenameSchema");
            assert("RenameSchema"@[0] != "FilterTables"@[0]);
            reveal_strlit("RenameColumn");
            assert("RenameColumn"@[0] != "FilterTables"@[0]);
        },
        TrinoOperation::DropFunction => {
            reveal_strlit("DropFunction");
            reveal_strlit("ExecuteQuery");
            assert("ExecuteQuery"@[0] != "DropFunction"@[0]);
            reveal_strlit("CreateSchema");
            assert("CreateSchema"@[0] != "DropFunction"@[0]);
            reveal_strlit("RenameSchema");
            assert("RenameSchema"@[0] != "DropFunction"@[0]);
            reveal_strlit("RenameColumn");
            assert("RenameColumn"@[0] != "DropFunction"@[0]);
            reveal_strlit("FilterTables");
            assert("FilterTables"@[0] != "DropFunction"@[0]);
        },
        TrinoOperation::AccessCatalog => {
            reveal_strlit("AccessCatalog");
        },
        TrinoOperation::CreateCatalog => {
            reveal_strlit("CreateCatalog");
            reveal_strlit("AccessCatalog");
            assert("AccessCatalog"@[0] != "CreateCatalog"@[0]);
        },
        TrinoOperation::FilterSchemas => {
            reveal_strlit("FilterSchemas");
            reveal_strlit("AccessCatalog");
            assert("AccessCatalog"@[0] != "FilterSchemas"@[0]);
            reveal_strlit("CreateCatalog");
            assert("CreateCatalog"@[0] != "FilterSchemas"@[0]);
        },
        TrinoOperation::TruncateTable => {
            reveal_strlit("TruncateTable");
            reveal_strlit("AccessCatalog");
            assert("AccessCatalog"@[0] != "TruncateTable"@[0]);
            reveal_strlit("CreateCatalog");
            assert("CreateCatalog"@[0] != "TruncateTable"@[0]);
            reveal_strlit("FilterSchemas");
            assert("FilterSchemas"@[0] != "TruncateTable"@[0]);
        },
        TrinoOperation::FilterColumns => {
            reveal_strlit("FilterColumns");
            reveal_strlit("AccessCatalog");
            assert("AccessCatalog"@[0] != "FilterColumns"@[0]);
            reveal_strlit("CreateCatalog");
            assert("CreateCatalog"@[0] != "FilterColumns"@[0]);
            reveal_strlit("FilterSchemas");
            assert("FilterSchemas"@[6] != "FilterColumns"@[6]);
            reveal_strlit("TruncateTable");
            assert("TruncateTable"@[0] != "FilterColumns"@[0]);
        },
        TrinoOperation::ShowFunctions => {
            reveal_strlit("ShowFunctions");
            reveal_strlit("AccessCatalog");
            assert("AccessCatalog"@[0] != "ShowFunctions"@[0]);
            reveal_strlit("CreateCatalog");
            assert("CreateCatalog"@[0] != "ShowFunctions"@[0]);
            reveal_strlit("FilterSchemas");
            assert("FilterSchemas"@[0] != "ShowFunctions"@[0]);
            reveal_strlit("TruncateTable");
            assert("TruncateTable"@[0] != "ShowFunctions"@[0]);
            reveal_strlit("FilterColumns");
            assert("FilterColumns"@[0] != "ShowFunctions"@[0]);
        },
        TrinoOperation::GetRowFilters => {
            reveal_strlit("GetRowFilters");
            reveal_strlit("AccessCatalog");
            assert("AccessCatalog"@[0] != "GetRowFilters"@[0]);
            reveal_strlit("CreateCatalog");
            assert("CreateCatalog"@[0] != "GetRowFilters"@[0]);
            reveal_strlit("FilterSchemas");
            assert("FilterSchemas"@[0] != "GetRowFilters"@[0]);
            reveal_strlit("TruncateTable");
            assert("TruncateTable"@[0] != "GetRowFilters"@[0]);
            reveal_strlit("FilterColumns");
            assert("FilterColumns"@[0] != "GetRowFilters"@[0]);
            reveal_strlit("ShowFunctions");
            assert("ShowFunctions"@[0] != "GetRowFilters"@[0]);
        },
        TrinoOperation::GetColumnMask => {
            reveal_strlit("GetColumnMask");
            reveal_strlit("AccessCatalog");
            assert("AccessCatalog"@[0] != "GetColumnMask"@[0]);
            reveal_strlit("CreateCatalog");
            assert("CreateCatalog"@[0] != "GetColumnMask"@[0]);
            reveal_strlit("FilterSchemas");
            assert("FilterSchemas"@[0] != "GetColumnMask"@[0]);
            reveal_strlit("TruncateTable");
            assert("TruncateTable"@[0] != "GetColumnMask"@[0]);
            reveal_strlit("FilterColumns");
            assert("FilterColumns"@[0] != "GetColumnMask"@[0]);
            reveal_strlit("ShowFunctions");
            assert("ShowFunctions"@[0] != "GetColumnMask"@[0]);
            reveal_strlit("GetRowFilters");
            assert("GetRowFilters"@[3] != "GetColumnMask"@[3]);
        },
        TrinoOperation::FilterCatalogs => {
            reveal_strlit("FilterCatalogs");
        },
        TrinoOperation::SetViewComment => {
            reveal_strlit("SetViewComment");
            reveal_strlit("FilterCatalogs");
            assert("FilterCatalogs"@[0] != "SetViewComment"@[0]);
        },
        TrinoOperation::CreateFunction => {
            reveal_strlit("CreateFunction");
            reveal_strlit("FilterCatalogs");
            assert("FilterCatalogs"@[0] != "CreateFunction"@[0]);
            reveal_strlit("SetViewComment");
            assert("SetViewComment"@[0] != "CreateFunction"@[0]);
        },
        TrinoOperation::ImpersonateUser => {
            reveal_strlit("ImpersonateUser");
        },
        TrinoOperation::ShowCreateTable => {
            reveal_strlit("ShowCreateTable");
            reveal_strlit("ImpersonateUser");
            assert("ImpersonateUser"@[0] != "ShowCreateTable"@[0]);
        },
        TrinoOperation::SetTableComment => {
            reveal_strlit("SetTableComment");
            reveal_strlit("ImpersonateUser");
            assert("ImpersonateUser"@[0] != "SetTableComment"@[0]);
            reveal_strlit("ShowCreateTable");
            assert("ShowCreateTable"@[1] != "SetTableComment"@[1]);
        },
        TrinoOperation::InsertIntoTable => {
            reveal_strlit("InsertIntoTable");
            reveal_strlit("ImpersonateUser");
            assert("ImpersonateUser"@[1] != "InsertIntoTable"@[1]);
            reveal_strlit("ShowCreateTable");
            assert("ShowCreateTable"@[0] != "InsertIntoTable"@[0]);
            reveal_strlit("SetTableComment");
            assert("SetTableComment"@[0] != "InsertIntoTable"@[0]);
        },
        TrinoOperation::DeleteFromTable => {
            reveal_strlit("DeleteFromTable");
            reveal_strlit("ImpersonateUser");
            assert("ImpersonateUser"@[0] != "DeleteFromTable"@[0]);
            reveal_strlit("ShowCreateTable");
            assert("ShowCreateTable"@[0] != "DeleteFromTable"@[0]);
            reveal_strlit("SetTableComment");
            assert("SetTableComment"@[0] != "DeleteFromTable"@[0]);
            reveal_strlit("InsertIntoTable");
            assert("InsertIntoTable"@[0] != "DeleteFromTable"@[0]);
        },
        TrinoOperation::FilterFunctions => {
            reveal_strlit("FilterFunctions");
            reveal_strlit("ImpersonateUser");
            assert("ImpersonateUser"@[0] != "FilterFunctions"@[0]);
            reveal_strlit("ShowCreateTable");
            assert("ShowCreateTable"@[0] != "FilterFunctions"@[0]);
            reveal_strlit("SetTableComment");
            assert("SetTableComment"@[0] != "FilterFunctions"@[0]);
            reveal_strlit("InsertIntoTable");
            assert("InsertIntoTable"@[0] != "FilterFunctions"@[0]);
            reveal_strlit("DeleteFromTable");
            assert("DeleteFromTable"@[0] != "FilterFunctions"@[0]);
        },
        TrinoOperation::ExecuteFunction => {
            reveal_strlit("ExecuteFunction");
            reveal_strlit("ImpersonateUser");
            assert("ImpersonateUser"@[0] != "ExecuteFunction"@[0]);
            reveal_strlit("ShowCreateTable");
            assert("ShowCreateTable"@[0] != "ExecuteFunction"@[0]);
            reveal_strlit("SetTableComment");
            assert("SetTableComment"@[0] != "ExecuteFunction"@[0]);
            reveal_strlit("InsertIntoTable");
            assert("InsertIntoTable"@[0] != "ExecuteFunction"@[0]);
            reveal_strlit("DeleteFromTable");
            assert("DeleteFromTable"@[0] != "ExecuteFunction"@[0]);
            reveal_strlit("FilterFunctions");
            assert("FilterFunctions"@[0] != "ExecuteFunction"@[0]);
        },
        TrinoOperation::ViewQueryOwnedBy => {
            reveal_strlit("ViewQueryOwnedBy");
        },
        TrinoOperation::KillQueryOwnedBy => {
            reveal_strlit("KillQueryOwnedBy");
            reveal_strlit("ViewQueryOwnedBy");
            assert("ViewQueryOwnedBy"@[0] != "KillQueryOwnedBy"@[0]);
        },
        TrinoOperation::ShowCreateSchema => {
            reveal_strlit("ShowCreateSchema");
            reveal_strlit("ViewQueryOwnedBy");
            assert("ViewQueryOwnedBy"@[0] != "ShowCreateSchema"@[0]);
            reveal_strlit("KillQueryOwnedBy");
            assert("KillQueryOwnedBy"@[0] != "ShowCreateSchema"@[0]);
        },
        TrinoOperation::ExecuteProcedure => {
            reveal_strlit("ExecuteProcedure");
            reveal_strlit("ViewQueryOwnedBy");
            assert("ViewQueryOwnedBy"@[0] != "ExecuteProcedure"@[0]);
            reveal_strlit("KillQueryOwnedBy");
            assert("KillQueryOwnedBy"@[0] != "ExecuteProcedure"@[0]);
            reveal_strlit("ShowCreateSchema");
            assert("ShowCreateSchema"@[0] != "ExecuteProcedure"@[0]);
        },
        TrinoOperation::SelectFromColumns => {
            reveal_strlit("SelectFromColumns");
        },
        TrinoOperation::SetTableProperties => {
            reveal_strlit("SetTableProperties");
        },
        TrinoOperation::UpdateTableColumns => {
            reveal_strlit("UpdateTableColumns");
            reveal_strlit("SetTableProperties");
            assert("SetTableProperties"@[0] != "UpdateTableColumns"@[0]);
        },
        TrinoOperation::ShowCreateFunction => {
            reveal_strlit("ShowCreateFunction");
            reveal_strlit("SetTableProperties");
            assert("SetTableProperties"@[1] != "ShowCreateFunction"@[1]);
            reveal_strlit("UpdateTableColumns");
            assert("UpdateTableColumns"@[0] != "ShowCreateFunction"@[0]);
        },
        TrinoOperation::SetViewAuthorization => {
            reveal_strlit("SetViewAuthorization");
        },
        TrinoOperation::DropMaterializedView => {
            reveal_strlit("DropMaterializedView");
            reveal_strlit("SetViewAuthorization");
            assert("SetViewAuthorization"@[0] != "DropMaterializedView"@[0]);
        },
        TrinoOperation::ReadSystemInformation => {
            reveal_strlit("ReadSystemInformation");
        },
        TrinoOperation::SetTableAuthorization => {
            reveal_strlit("SetTableAuthorization");
            reveal_strlit("ReadSystemInformation");
            assert("ReadSystemInformation"@[0] != "SetTableAuthorization"@[0]);
        },
        TrinoOperation::ExecuteTableProcedure => {
            reveal_strlit("ExecuteTableProcedure");
            reveal_strlit("ReadSystemInformation");
            assert("ReadSystemInformation"@[0] != "ExecuteTableProcedure"@[0]);
            reveal_strlit("SetTableAuthorization");
            assert("SetTableAuthorization"@[0] != "ExecuteTableProcedure"@[0]);
        },
        TrinoOperation::FilterViewQueryOwnedBy => {
            reveal_strlit("FilterViewQueryOwnedBy");
        },
        TrinoOperation::WriteSystemInformation => {
            reveal_strlit("WriteSystemInformation");
            reveal_strlit("FilterViewQueryOwnedBy");
            assert("FilterViewQueryOwnedBy"@[0] != "WriteSystemInformation"@[0]);
        },
        TrinoOperation::SetSchemaAuthorization => {
            reveal_strlit("SetSchemaAuthorization");
            reveal_strlit("FilterViewQueryOwnedBy");
            assert("FilterViewQueryOwnedBy"@[0] != "SetSchemaAuthorization"@[0]);
            reveal_strlit("WriteSystemInformation");
            assert("WriteSystemInformation"@[0] != "SetSchemaAuthorization"@[0]);
        },
        TrinoOperation::CreateMaterializedView => {
            reveal_strlit("CreateMaterializedView");
            reveal_strlit("FilterViewQueryOwnedBy");
            assert("FilterViewQueryOwnedBy"@[0] != "CreateMaterializedView"@[0]);
            reveal_strlit("WriteSystemInformation");
            assert("WriteSystemInformation"@[0] != "CreateMaterializedView"@[0]);
            reveal_strlit("SetSchemaAuthorization");
            assert("SetSchemaAuthorization"@[0] != "CreateMaterializedView"@[0]);
        },
        TrinoOperation::RenameMaterializedView => {
            reveal_strlit("RenameMaterializedView");
            reveal_strlit("FilterViewQueryOwnedBy");
            assert("FilterViewQueryOwnedBy"@[0] != "RenameMaterializedView"@[0]);
            reveal_strlit("WriteSystemInformation");
            assert("WriteSystemInformation"@[0] != "RenameMaterializedView"@[0]);
            reveal_strlit("SetSchemaAuthorization");
            assert("SetSchemaAuthorization"@[0] != "RenameMaterializedView"@[0]);
            reveal_strlit("CreateMaterializedView");
            assert("CreateMaterializedView"@[0] != "RenameMaterializedView"@[0]);
        },
        TrinoOperation::RefreshMaterializedView => {
            reveal_strlit("RefreshMaterializedView");
        },
        TrinoOperation::SetSystemSessionProperty => {
            reveal_strlit("SetSystemSessionProperty");
        },
        TrinoOperation::SetCatalogSessionProperty => {
            reveal_strlit("SetCatalogSessionProperty");
        },
        TrinoOperation::SetMaterializedViewProperties => {
            reveal_strlit("SetMaterializedViewProperties");
        },
        TrinoOperation::CreateViewWithExecuteFunction => {
            reveal_strlit("CreateViewWithExecuteFunction");
            reveal_strlit("SetMaterializedViewProperties");
            assert("SetMaterializedViewProperties"@[0] != "CreateViewWithExecuteFunction"@[0]);
        },
        TrinoOperation::CreateViewWithSelectFromColumns => {
            reveal_strlit("CreateViewWithSelectFromColumns");
        },
    }
}

/// Distinct operations have distinct names.
pub proof fn lemma_operation_names_distinct(a: TrinoOperation, b: TrinoOperation)
    ensures
        operation_name(a) == operation_name(b) ==> a == b,
{
    lemma_operation_named(a);
    lemma_operation_named(b);
}

impl TrinoOperation {
    /// The name of the operation, as its `Display` renders it.
    pub fn to_string(&self) -> (s: String)
        ensures
            s@ == operation_name(*self),
    {
        match self {
            TrinoOperation::ImpersonateUser => "ImpersonateUser".to_owned(),
            TrinoOperation::ExecuteQuery => "ExecuteQuery".to_owned(),
            TrinoOperation::ViewQueryOwnedBy => "ViewQueryOwnedBy".to_owned(),
            TrinoOperation::FilterViewQueryOwnedBy => "FilterViewQueryOwnedBy".to_owned(),
            TrinoOperation::KillQueryOwnedBy => "KillQueryOwnedBy".to_owned(),
            TrinoOperation::ReadSystemInformation => "ReadSystemInformation".to_owned(),
            TrinoOperation::WriteSystemInformation => "WriteSystemInformation".to_owned(),
            TrinoOperation::SetSystemSessionProperty => "SetSystemSessionProperty".to_owned(),
            TrinoOperation::AccessCatalog => "AccessCatalog".to_owned(),
            TrinoOperation::CreateCatalog => "CreateCatalog".to_owned(),
            TrinoOperation::DropCatalog => "DropCatalog".to_owned(),
            TrinoOperation::FilterCatalogs => "FilterCatalogs".to_owned(),
            TrinoOperation::CreateSchema => "CreateSchema".to_owned(),
            TrinoOperation::DropSchema => "DropSchema".to_owned(),
            TrinoOperation::RenameSchema => "RenameSchema".to_owned(),
            TrinoOperation::SetSchemaAuthorization => "SetSchemaAuthorization".to_owned(),
            TrinoOperation::ShowSchemas => "ShowSchemas".to_owned(),
            TrinoOperation::FilterSchemas => "FilterSchemas".to_owned(),
            TrinoOperation::ShowCreateSchema => "ShowCreateSchema".to_owned(),
            TrinoOperation::ShowCreateTable => "ShowCreateTable".to_owned(),
            TrinoOperation::CreateTable => "CreateTable".to_owned(),
            TrinoOperation::DropTable => "DropTable".to_owned(),
            TrinoOperation::RenameTable => "RenameTable".to_owned(),
            TrinoOperation::SetTableProperties => "SetTableProperties".to_owned(),
            TrinoOperation::SetTableComment => "SetTableComment".to_owned(),
            TrinoOperation::AddColumn => "AddColumn".to_owned(),
            TrinoOperation::AlterColumn => "AlterColumn".to_owned(),
            TrinoOperation::DropColumn => "DropColumn".to_owned(),
            TrinoOperation::RenameColumn => "RenameColumn".to_owned(),
            TrinoOperation::SelectFromColumns => "SelectFromColumns".to_owned(),
            TrinoOperation::InsertIntoTable => "InsertIntoTable".to_owned(),
            TrinoOperation::DeleteFromTable => "DeleteFromTable".to_owned(),
            TrinoOperation::TruncateTable => "TruncateTable".to_owned(),
            TrinoOperation::UpdateTableColumns => "UpdateTableColumns".to_owned(),
            TrinoOperation::ShowTables => "ShowTables".to_owned(),
            TrinoOperation::FilterTables => "FilterTables".to_owned(),
            TrinoOperation::ShowColumns => "ShowColumns".to_owned(),
            TrinoOperation::FilterColumns => "FilterColumns".to_owned(),
            TrinoOperation::SetTableAuthorization => "SetTableAuthorization".to_owned(),
            TrinoOperation::CreateView => "CreateView".to_owned(),
            TrinoOperation::RenameView => "RenameView".to_owned(),
            TrinoOperation::DropView => "DropView".to_owned(),
            TrinoOperation::SetViewAuthorization => "SetViewAuthorization".to_owned(),
            TrinoOperation::SetViewComment => "SetViewComment".to_owned(),
            TrinoOperation::CreateViewWithSelectFromColumns => "CreateViewWithSelectFromColumns".to_owned(),
            TrinoOperation::CreateMaterializedView => "CreateMaterializedView".to_owned(),
            TrinoOperation::RefreshMaterializedView => "RefreshMaterializedView".to_owned(),
            TrinoOperation::SetMaterializedViewProperties => "SetMaterializedViewProperties".to_owned(),
            TrinoOperation::DropMaterializedView => "DropMaterializedView".to_owned(),
            TrinoOperation::RenameMaterializedView => "RenameMaterializedView".to_owned(),
            TrinoOperation::SetCatalogSessionProperty => "SetCatalogSessionProperty".to_owned(),
            TrinoOperation::ShowFunctions => "ShowFunctions".to_owned(),
            TrinoOperation::FilterFunctions => "FilterFunctions".to_owned(),
            TrinoOperation::ExecuteFunction => "ExecuteFunction".to_owned(),
            TrinoOperation::ExecuteProcedure => "ExecuteProcedure".to_owned(),
            TrinoOperation::ExecuteTableProcedure => "ExecuteTableProcedure".to_owned(),
            TrinoOperation::CreateFunction => "CreateFunction".to_owned(),
            TrinoOperation::DropFunction => "DropFunction".to_owned(),
            TrinoOperation::ShowCreateFunction => "ShowCreateFunction".to_owned(),
            TrinoOperation::CreateViewWithExecuteFunction => "CreateViewWithExecuteFunction".to_owned(),
            TrinoOperation::GetRowFilters => "GetRowFilters".to_owned(),
            TrinoOperation::GetColumnMask => "GetColumnMask".to_owned(),
        }
    }
}

/// The decision request of `/trino/allowed`.
#[derive(Debug, Clone)]
pub struct TrinoAllowAction {
    pub operation: TrinoOperation,
    pub resource: Option<TrinoResource>,
    pub filter_resources: Option<Vec<TrinoResource>>,
    pub target_resource: Option<TrinoResource>,
    pub grantee: Option<TrinoGrantPrincipal>,
}

/// The principal of a grant.
#[derive(Debug, Clone)]
pub enum TrinoGrantPrincipal {
    User { name: String },
    Role { name: String },
}

/// The wrapper sent to every `/trino/...` decision endpoint.
#[derive(Debug, Clone)]
pub struct TrinoAuthzQuery {
    pub context: TrinoContext,
    pub action: TrinoAllowAction,
}

/// The kinds of resource Trino asks about.
#[derive(Debug, Clone)]
pub enum TrinoResource {
    User { user: TrinoUser },
    SystemSessionProperty { system_session_property: NamedEntity },
    CatalogSessionProperty { catalog_session_property: TrinoCatalogSessionProperty },
    Function { function: TrinoFunction },
    Catalog { catalog: NamedEntity },
    Schema { schema: TrinoSchema },
    Table { table: TrinoTable },
    Column { column: TrinoColumn },
}

/// An entity known by its name alone.
#[derive(Debug, Clone)]
pub struct NamedEntity {
    pub name: String,
}

/// A user that an operation is about.
#[derive(Debug, Clone)]
pub struct TrinoUser {
    pub name: String,
}

/// A session property of a catalog.
#[derive(Debug, Clone)]
pub struct TrinoCatalogSessionProperty {
    pub catalog: String,
    pub property: String,
}

/// A schema of a catalog, with its properties.
#[derive(Debug, Clone)]
pub struct TrinoSchema {
    pub catalog_name: String,
    pub schema_name: String,
    pub properties: Option<StrMap<Option<String>>>,
}

/// A table, with the columns the operation touches.
#[derive(Debug, Clone)]
pub struct TrinoTable {
    pub catalog_name: String,
    pub schema_name: String,
    pub table_name: String,
    pub columns: Option<Vec<String>>,
    pub properties: Option<StrMap<Option<String>>>,
}

/// The name of a table.
#[derive(Debug, Clone)]
pub struct TrinoTableRef {
    pub catalog_name: String,
    pub schema_name: String,
    pub table_name: String,
}

/// A column of a table.
#[derive(Debug, Clone)]
pub struct TrinoColumn {
    pub table: TrinoTableRef,
    pub name: String,
    /// The SQL type of the column (`type` on the wire).
    pub ty: String,
}

/// A function of a schema.
#[derive(Debug, Clone)]
pub struct TrinoFunction {
    pub schema: TrinoSchema,
    pub function_name: String,
}

/// `a.b`
pub open spec fn dotted2(a: Seq<char>, b: Seq<char>) -> Seq<char> {
    a + "."@ + b
}

/// `a.b.c`
pub open spec fn dotted3(a: Seq<char>, b: Seq<char>, c: Seq<char>) -> Seq<char> {
    a + "."@ + b + "."@ + c
}

/// The qualified name of a resource.
pub open spec fn resource_name(r: TrinoResource) -> Seq<char> {
    match r {
        TrinoResource::Table { table } => dotted3(table.catalog_name@, table.schema_name@, table.table_name@),
        TrinoResource::Schema { schema } => dotted2(schema.catalog_name@, schema.schema_name@),
        TrinoResource::Catalog { catalog } => catalog.name@,
        TrinoResource::User { user } => user.name@,
        TrinoResource::SystemSessionProperty { system_session_property } => system_session_property.name@,
        TrinoResource::CatalogSessionProperty { catalog_session_property } => dotted2(
            catalog_session_property.catalog@,
            catalog_session_property.property@,
        ),
        TrinoResource::Function { function } => dotted3(
            function.schema.catalog_name@,
            function.schema.schema_name@,
            function.function_name@,
        ),
        TrinoResource::Column { column } => dotted3(
            column.table.catalog_name@,
            column.table.schema_name@,
            column.name@,
        ),
    }
}

/// The kind of a resource.
pub open spec fn resource_type(r: TrinoResource) -> Seq<char> {
    match r {
        TrinoResource::Table { .. } => "table"@,
        TrinoResource::Schema { .. } => "schema"@,
        TrinoResource::Catalog { .. } => "catalog"@,
        TrinoResource::User { .. } => "user"@,
        TrinoResource::SystemSessionProperty { .. } => "systemSessionProperty"@,
        TrinoResource::CatalogSessionProperty { .. } => "catalogSessionProperty"@,
        TrinoResource::Function { .. } => "function"@,
        TrinoResource::Column { .. } => "column"@,
    }
}

fn join_dotted2(a: &str, b: &str) -> (s: String)
    ensures
        s@ == dotted2(a@, b@),
{
    let s = concat2(a, ".");
    s.concat(b)
}

fn join_dotted3(a: &str, b: &str, c: &str) -> (s: String)
    ensures
        s@ == dotted3(a@, b@, c@),
{
    let s = join_dotted2(a, b);
    let s = s.concat(".");
    s.concat(c)
}

impl TrinoResource {
    /// The qualified name of the resource: dotted catalog, schema and
    /// object names where the resource has them.
    pub fn get_name(&self) -> (s: String)
        ensures
            s@ == resource_name(*self),
    {
        match self {
            TrinoResource::Table { table } => join_dotted3(
                table.catalog_name.as_str(),
                table.schema_name.as_str(),
                table.table_name.as_str(),
            ),
            TrinoResource::Schema { schema } => join_dotted2(
                schema.catalog_name.as_str(),
                schema.schema_name.as_str(),
            ),
            TrinoResource::Catalog { catalog } => catalog.name.clone(),
            TrinoResource::User { user } => user.name.clone(),
            TrinoResource::SystemSessionProperty { system_session_property } => system_session_property.name.clone(),
            TrinoResource::CatalogSessionProperty { catalog_session_property } => join_dotted2(
                catalog_session_property.catalog.as_str(),
                catalog_session_property.property.as_str(),
            ),
            TrinoResource::Function { function } => join_dotted3(
                function.schema.catalog_name.as_str(),
                function.schema.schema_name.as_str(),
                function.function_name.as_str(),
            ),
            TrinoResource::Column { column } => join_dotted3(
                column.table.catalog_name.as_str(),
                column.table.schema_name.as_str(),
                column.name.as_str(),
            ),
        }
    }

    /// The kind of the resource.
    pub fn get_type(&self) -> (s: String)
        ensures
            s@ == resource_type(*self),
    {
        match self {
            TrinoResource::Table { .. } => "table".to_owned(),
            TrinoResource::Schema { .. } => "schema".to_owned(),
            TrinoResource::Catalog { .. } => "catalog".to_owned(),
            TrinoResource::User { .. } => "user".to_owned(),
            TrinoResource::SystemSessionProperty { .. } => "systemSessionProperty".to_owned(),
            TrinoResource::CatalogSessionProperty { .. } => "catalogSessionProperty".to_owned(),
            TrinoResource::Function { .. } => "function".to_owned(),
            TrinoResource::Column { .. } => "column".to_owned(),
        }
    }

    /// `kind=name`, for logs.
    pub fn to_debug_string(&self) -> (s: String)
        ensures
            s@ == resource_type(*self) + "="@ + resource_name(*self),
    {
        let s = self.get_type();
        let s = s.concat("=");
        let n = self.get_name();
        s.concat(n.as_str())
    }
}

/// A column in a column-mask request.
#[derive(Debug, Clone)]
pub struct TrinoColumnMaskColumn {
    pub catalog_name: String,
    pub schema_name: String,
    pub table_name: String,
    pub column_name: String,
    pub column_type: String,
}

/// A resource in a column-mask request.
#[derive(Debug, Clone)]
pub struct TrinoColumnMaskResource {
    pub column: TrinoColumnMaskColumn,
}

/// The operation of a column-mask request and the columns it asks for.
#[derive(Debug, Clone)]
pub struct TrinoColumnMaskAction {
    pub operation: TrinoOperation,
    pub filter_resources: Vec<TrinoColumnMaskResource>,
}

/// The request of `/trino/batch-column-masking`.
#[derive(Debug, Clone)]
pub struct TrinoColumnMaskQuery {
    pub context: TrinoContext,
    pub action: TrinoColumnMaskAction,
}

/// A mask expression for one requested column.
#[derive(Debug, Clone)]
pub struct ViewExpression {
    pub expression: String,
    pub identity: Option<String>,
}

/// The mask of the column at `index` in the request.
#[derive(Debug, Clone)]
pub struct TrinoColumnMaskResponse {
    pub index: usize,
    pub view_expression: ViewExpression,
}

/// The operation of a row-filter request and the table it asks for.
#[derive(Debug, Clone)]
pub struct TrinoRowFilterAction {
    pub operation: TrinoOperation,
    pub resource: TrinoResource,
}

/// The request of `/trino/row-filter`.
#[derive(Debug, Clone)]
pub struct TrinoRowFilterQuery {
    pub context: TrinoContext,
    pub action: TrinoRowFilterAction,
}

/// A row filter expression.
#[derive(Debug, Clone)]
pub struct TrinoRowFilterResponse {
    pub expression: String,
}

} // verus!
