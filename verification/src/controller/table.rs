//! The table controller: an entry in the catalog for each table, under the
//! entry of the database that the table names.

use vstd::prelude::*;
use vstd::string::*;
use crate::controller::database::bucket_name;
use crate::controller::database::catalog_name;
use crate::controller::database::DatabaseController;
use crate::controller::error::ControllerReconciliationError;
use crate::controller::error::ControllerReconciliationErrorView;
use crate::controller::error::ValidationError;
use crate::controller::error::ValidationErrorView;
use crate::controller::error::VALIDATION_REGEX_COLUMN_NAME;
use crate::controller::error::VALIDATION_REGEX_TABLE_NAME;
use crate::descriptor_store::descriptor_key;
use crate::descriptor_store::key_for;
use crate::descriptor_store::kind_pattern;
use crate::descriptor_store::list_pattern;
use crate::fluid::descriptor::DescriptorKind;
use crate::fluid::descriptor::database::DatabaseDescriptor;
use crate::fluid::descriptor::database::DatabaseDescriptorView;
use crate::fluid::descriptor::table::TableColumnAttribute;
use crate::fluid::descriptor::table::TableColumnAttributeView;
use crate::fluid::descriptor::table::TableDescriptor;
use crate::fluid::descriptor::table::TableDescriptorView;
use crate::pattern::check;
use crate::pattern::conforms;
use crate::provisioner::glue::ColumnInput;
use crate::provisioner::glue::ColumnInputView;
use crate::provisioner::glue::TableInput;
use crate::provisioner::glue::TableInputView;
use crate::provisioner::glue::TableRequest;
use crate::provisioner::glue::TableRequestView;
use crate::text::join3;

verus! {

/// What is wrong with a column, if anything: first its name, then its type.
pub open spec fn column_fault(column: TableColumnAttributeView, name_ok: bool) -> Option<
    ValidationErrorView,
> {
    if !name_ok {
        Some(ValidationErrorView::InvalidColumnName { name: column.name })
    } else if !column.codec.kind.supported() {
        Some(ValidationErrorView::UnsupportedColumnType { kind: column.codec.kind })
    } else {
        None
    }
}

/// Whether the name of column `i` is known to keep the rule: `names_ok[i]`
/// says so, and a column that `names_ok` is too short for is not known to.
pub open spec fn name_ok_at(names_ok: Seq<bool>, i: int) -> bool {
    0 <= i < names_ok.len() && names_ok[i]
}

/// The fault of the first faulty column at or after `from`, if there is
/// one.
pub open spec fn first_column_fault(
    columns: Seq<TableColumnAttributeView>,
    names_ok: Seq<bool>,
    from: int,
) -> Option<ValidationErrorView>
    decreases columns.len() - from,
{
    if from < 0 || from >= columns.len() {
        None
    } else {
        match column_fault(columns[from], name_ok_at(names_ok, from)) {
            Some(fault) => Some(fault),
            None => first_column_fault(columns, names_ok, from + 1),
        }
    }
}

/// What is wrong with a table, if anything: first its name, then its
/// columns in their order.
pub open spec fn table_fault(d: TableDescriptorView, name_ok: bool, names_ok: Seq<bool>) -> Option<
    ValidationErrorView,
> {
    if !name_ok {
        Some(ValidationErrorView::InvalidTableName { name: d.name })
    } else {
        first_column_fault(d.columns, names_ok, 0)
    }
}

/// For each column, whether its name keeps the rule for column names.
pub open spec fn column_names_conform(columns: Seq<TableColumnAttributeView>) -> Seq<bool> {
    columns.map_values(
        |column: TableColumnAttributeView| conforms(VALIDATION_REGEX_COLUMN_NAME@, column.name),
    )
}

/// What validation finds wrong with a table, if anything.
pub open spec fn table_verdict(d: TableDescriptorView) -> Option<ValidationErrorView> {
    table_fault(
        d,
        conforms(VALIDATION_REGEX_TABLE_NAME@, d.name),
        column_names_conform(d.columns),
    )
}

/// What the catalog is told about a column: its name, its type in lower
/// case, and its summary as the comment.
pub open spec fn column_input(column: TableColumnAttributeView) -> ColumnInputView {
    ColumnInputView {
        name: column.name,
        column_type: column.codec.kind.tag(),
        comment: column.summary,
    }
}

/// Where the data of the table `table` of the database `database` lies.
pub open spec fn table_location(database: Seq<char>, table: Seq<char>) -> Seq<char> {
    "s3://"@ + bucket_name(database) + "/"@ + table
}

/// What the catalog is told about a table of the database `db`.
pub open spec fn table_input(d: TableDescriptorView, db: DatabaseDescriptorView) -> TableInputView {
    TableInputView {
        name: d.name,
        description: d.summary,
        columns: d.columns.map_values(|column: TableColumnAttributeView| column_input(column)),
        location: table_location(db.name, d.name),
    }
}

/// The request that creates or updates the table.
pub open spec fn table_request(
    d: TableDescriptorView,
    db: DatabaseDescriptorView,
) -> TableRequestView {
    TableRequestView { database_name: catalog_name(db.name), input: table_input(d, db) }
}

/// What to do about the catalog entry of a table.
#[derive(Clone, Debug, PartialEq, Eq)]
pub enum TableAction {
    Create(TableRequest),
    Update(TableRequest),
}

/// A table action as a mathematical value.
pub ghost enum TableActionView {
    Create(TableRequestView),
    Update(TableRequestView),
}

impl View for TableAction {
    type V = TableActionView;

    open spec fn view(&self) -> TableActionView {
        match self {
            TableAction::Create(request) => TableActionView::Create(request@),
            TableAction::Update(request) => TableActionView::Update(request@),
        }
    }
}

/// What to do about the catalog entry of `d`: update it where it exists,
/// else create it, either way with the same request.
pub open spec fn table_action(
    d: TableDescriptorView,
    db: DatabaseDescriptorView,
    table_exists: bool,
) -> TableActionView {
    if table_exists {
        TableActionView::Update(table_request(d, db))
    } else {
        TableActionView::Create(table_request(d, db))
    }
}

/// The catalog entry to look at before a table is created or updated.
#[derive(Clone, Debug, PartialEq, Eq)]
pub struct TableLookup {
    pub database_name: String,
    pub name: String,
}

/// Checks table descriptors and says how to reconcile them.
#[derive(Clone, Copy, Debug)]
pub struct TableController {}

impl TableController {
    /// A controller; it keeps nothing between calls.
    pub fn new() -> (r: TableController) {
        TableController {  }
    }

    /// The verdict on a table, given whether its name keeps the rule for
    /// table names and, for each column, whether its name keeps the rule
    /// for column names. The first fault in the order name, then columns,
    /// and within a column name, then type, is the one reported.
    pub fn verdict(descriptor: &TableDescriptor, name_ok: bool, names_ok: &Vec<bool>) -> (r:
        Result<(), ValidationError>)
        ensures
            r is Ok <==> table_fault(descriptor@, name_ok, names_ok@) is None,
            r matches Err(e) ==> table_fault(descriptor@, name_ok, names_ok@) == Some(e@),
    {
        if !name_ok {
            return Err(ValidationError::InvalidTableName { name: descriptor.name.clone() });
        }
        let ghost columns = descriptor@.columns;
        let mut i: usize = 0;
        while i < descriptor.columns.len()
            invariant
                i <= descriptor.columns.len(),
                columns == descriptor@.columns,
                name_ok,
                first_column_fault(columns, names_ok@, 0) == first_column_fault(
                    columns,
                    names_ok@,
                    i as int,
                ),
            decreases descriptor.columns.len() - i,
        {
            let column = &descriptor.columns[i];
            if !(i < names_ok.len() && names_ok[i]) {
                return Err(ValidationError::InvalidColumnName { name: column.name.clone() });
            }
            if !column.codec.kind.is_supported() {
                return Err(ValidationError::UnsupportedColumnType { kind: column.codec.kind });
            }
            i = i + 1;
        }
        Ok(())
    }

    /// Accepts a table exactly when its name and the names of its columns
    /// keep their rules and every column has a supported type.
    pub fn validate(&self, descriptor: &TableDescriptor) -> (r: Result<(), ValidationError>)
        ensures
            r is Ok <==> table_verdict(descriptor@) is None,
            r matches Err(e) ==> table_verdict(descriptor@) == Some(e@),
    {
        let name_ok = check(VALIDATION_REGEX_TABLE_NAME, descriptor.name.as_str());
        let mut names_ok: Vec<bool> = Vec::new();
        let mut i: usize = 0;
        while i < descriptor.columns.len()
            invariant
                i <= descriptor.columns.len(),
                names_ok.len() == i,
                forall|j: int|
                    0 <= j < i ==> names_ok[j] == conforms(
                        VALIDATION_REGEX_COLUMN_NAME@,
                        #[trigger] descriptor.columns[j].name@,
                    ),
            decreases descriptor.columns.len() - i,
        {
            names_ok.push(
                check(VALIDATION_REGEX_COLUMN_NAME, descriptor.columns[i].name.as_str()),
            );
            i = i + 1;
        }
        assert(names_ok@ =~= column_names_conform(descriptor@.columns));
        Self::verdict(descriptor, name_ok, &names_ok)
    }

    /// The pattern that lists the keys of the stored descriptors that this
    /// controller reconciles.
    pub fn list_descriptors(&self) -> (r: String)
        ensures
            r@ == kind_pattern(DescriptorKind::Table.tag()),
    {
        list_pattern("table")
    }

    /// The key under which the descriptor store keeps the database that
    /// the table names.
    pub fn dependency(&self, descriptor: &TableDescriptor) -> (r: String)
        ensures
            r@ == descriptor_key(DescriptorKind::Database.tag(), descriptor.database@),
    {
        key_for(descriptor.database.as_str(), "database")
    }

    /// Starts the reconciliation of a table, given what the descriptor
    /// store holds under the id of its database. Without that database the
    /// table cannot be placed: the result is `DependencyMissing` with the
    /// id, and nothing is asked of the catalog. With it, the result names
    /// the catalog entry to look at.
    pub fn reconcile(
        &self,
        descriptor: &TableDescriptor,
        depended_db: &Option<DatabaseDescriptor>,
    ) -> (r: Result<TableLookup, ControllerReconciliationError>)
        ensures
            r is Err <==> depended_db is None,
            r matches Err(e) ==> e@ == ControllerReconciliationErrorView::DependencyMissing(
                descriptor.database@,
            ),
            r matches Ok(lookup) ==> lookup.database_name@ == catalog_name(depended_db->0.name@)
                && lookup.name@ == descriptor.name@,
    {
        match depended_db {
            Some(db_descriptor) => Ok(
                TableLookup {
                    database_name: Self::glue_name_for(db_descriptor),
                    name: descriptor.name.clone(),
                },
            ),
            None => Err(
                ControllerReconciliationError::DependencyMissing(descriptor.database.clone()),
            ),
        }
    }

    /// Says what to do about the catalog entry, given what the catalog
    /// holds under its name.
    pub fn reconcile_glue_table(
        &self,
        table_descriptor: &TableDescriptor,
        db_descriptor: &DatabaseDescriptor,
        table: &Option<TableInput>,
    ) -> (r: TableAction)
        ensures
            r@ == table_action(table_descriptor@, db_descriptor@, table is Some),
    {
        if table.is_some() {
            TableAction::Update(self.update_table(table_descriptor, db_descriptor))
        } else {
            TableAction::Create(self.create_table(table_descriptor, db_descriptor))
        }
    }

    /// The outcome of a reconciliation whose database was there, given
    /// what came of the calls on the catalog: a failure there is a
    /// provisioner error.
    pub fn reconciled(&self, outcome: Result<(), String>) -> (r: Result<
        (),
        ControllerReconciliationError,
    >)
        ensures
            r is Ok <==> outcome is Ok,
            r matches Err(e) ==> e@ == ControllerReconciliationErrorView::ProvisionerError(
                outcome->Err_0@,
            ),
    {
        match outcome {
            Ok(_) => Ok(()),
            Err(cause) => Err(ControllerReconciliationError::ProvisionerError(cause)),
        }
    }

    /// The request that creates the table.
    pub fn create_table(
        &self,
        table_descriptor: &TableDescriptor,
        db_descriptor: &DatabaseDescriptor,
    ) -> (r: TableRequest)
        ensures
            r@ == table_request(table_descriptor@, db_descriptor@),
    {
        TableRequest {
            database_name: Self::glue_name_for(db_descriptor),
            input: Self::build_table_input(table_descriptor, db_descriptor),
        }
    }

    /// The request that brings the table up to date.
    pub fn update_table(
        &self,
        table_descriptor: &TableDescriptor,
        db_descriptor: &DatabaseDescriptor,
    ) -> (r: TableRequest)
        ensures
            r@ == table_request(table_descriptor@, db_descriptor@),
    {
        TableRequest {
            database_name: Self::glue_name_for(db_descriptor),
            input: Self::build_table_input(table_descriptor, db_descriptor),
        }
    }

    /// What the catalog is told about one column.
    pub fn build_column_input(column: &TableColumnAttribute) -> (r: ColumnInput)
        ensures
            r@ == column_input(column@),
    {
        ColumnInput {
            name: column.name.clone(),
            column_type: column.codec.kind.catalog_type(),
            comment: column.summary.clone(),
        }
    }

    /// What the catalog is told about a table: its columns in their order,
    /// and where its data lies in the bucket of its database.
    pub fn build_table_input(
        table_descriptor: &TableDescriptor,
        db_descriptor: &DatabaseDescriptor,
    ) -> (r: TableInput)
        ensures
            r@ == table_input(table_descriptor@, db_descriptor@),
    {
        let mut columns: Vec<ColumnInput> = Vec::new();
        let mut i: usize = 0;
        while i < table_descriptor.columns.len()
            invariant
                i <= table_descriptor.columns.len(),
                columns.len() == i,
                forall|j: int|
                    0 <= j < i ==> (#[trigger] columns[j])@ == column_input(
                        table_descriptor.columns[j]@,
                    ),
            decreases table_descriptor.columns.len() - i,
        {
            columns.push(Self::build_column_input(&table_descriptor.columns[i]));
            i = i + 1;
        }
        let bucket = Self::s3_name_for(db_descriptor);
        let mut location = join3("s3://", bucket.as_str(), "/");
        location.append(table_descriptor.name.as_str());
        let input = TableInput {
            name: table_descriptor.name.clone(),
            description: table_descriptor.summary.clone(),
            columns,
            location,
        };
        assert(input@.columns =~= table_input(table_descriptor@, db_descriptor@).columns);
        input
    }

    /// The name of the catalog entry of a database.
    pub fn glue_name_for(descriptor: &DatabaseDescriptor) -> (r: String)
        ensures
            r@ == catalog_name(descriptor.name@),
    {
        DatabaseController::glue_name_for(descriptor)
    }

    /// The name of the bucket of a database.
    pub fn s3_name_for(descriptor: &DatabaseDescriptor) -> (r: String)
        ensures
            r@ == bucket_name(descriptor.name@),
    {
        DatabaseController::s3_name_for(descriptor)
    }
}

} // verus!
