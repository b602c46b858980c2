//! The catalog: databases and tables.

use vstd::prelude::*;
use vstd::string::*;
use crate::provisioner::looked_up;
use crate::provisioner::identifying_tag_set;
use crate::provisioner::identifying_tags;
use crate::provisioner::Lookup;
use crate::provisioner::Tag;
use crate::provisioner::TagView;
use crate::text::join;

verus! {

/// The stem of the name under which the catalog knows its databases.
pub const DATABASE_ARN_STEM: &'static str = "arn:aws:glue:us-east-1:549989278514:database/";

/// What the catalog is told about a database.
#[derive(Clone, Debug, PartialEq, Eq)]
pub struct DatabaseInput {
    pub name: String,
    pub description: String,
    pub location_uri: String,
}

/// What the catalog is told about a column.
#[derive(Clone, Debug, PartialEq, Eq)]
pub struct ColumnInput {
    pub name: String,
    pub column_type: String,
    pub comment: String,
}

/// What the catalog is told about a table.
#[derive(Clone, Debug, PartialEq, Eq)]
pub struct TableInput {
    pub name: String,
    pub description: String,
    pub columns: Vec<ColumnInput>,
    pub location: String,
}

/// Labels to add to the resource named by `resource_arn`.
#[derive(Clone, Debug, PartialEq, Eq)]
pub struct ResourceTagging {
    pub resource_arn: String,
    pub tags_to_add: Vec<Tag>,
}

/// What to send to make a database: first `input`, then, once that went
/// through, `tagging`.
#[derive(Clone, Debug, PartialEq, Eq)]
pub struct CreateDatabaseRequest {
    pub input: DatabaseInput,
    pub tagging: ResourceTagging,
}

/// What to send to bring the database `name` up to date.
#[derive(Clone, Debug, PartialEq, Eq)]
pub struct UpdateDatabaseRequest {
    pub name: String,
    pub input: DatabaseInput,
}

/// What to send to make or update a table in the database
/// `database_name`.
#[derive(Clone, Debug, PartialEq, Eq)]
pub struct TableRequest {
    pub database_name: String,
    pub input: TableInput,
}

/// A database input as a mathematical value.
pub ghost struct DatabaseInputView {
    pub name: Seq<char>,
    pub description: Seq<char>,
    pub location_uri: Seq<char>,
}

/// A column input as a mathematical value.
pub ghost struct ColumnInputView {
    pub name: Seq<char>,
    pub column_type: Seq<char>,
    pub comment: Seq<char>,
}

/// A table input as a mathematical value.
pub ghost struct TableInputView {
    pub name: Seq<char>,
    pub description: Seq<char>,
    pub columns: Seq<ColumnInputView>,
    pub location: Seq<char>,
}

/// A tagging as a mathematical value.
pub ghost struct ResourceTaggingView {
    pub resource_arn: Seq<char>,
    pub tags_to_add: Seq<TagView>,
}

/// A request to create a database as a mathematical value.
pub ghost struct CreateDatabaseRequestView {
    pub input: DatabaseInputView,
    pub tagging: ResourceTaggingView,
}

/// A request to update a database as a mathematical value.
pub ghost struct UpdateDatabaseRequestView {
    pub name: Seq<char>,
    pub input: DatabaseInputView,
}

/// A table request as a mathematical value.
pub ghost struct TableRequestView {
    pub database_name: Seq<char>,
    pub input: TableInputView,
}

impl View for DatabaseInput {
    type V = DatabaseInputView;

    open spec fn view(&self) -> DatabaseInputView {
        DatabaseInputView {
            name: self.name@,
            description: self.description@,
            location_uri: self.location_uri@,
        }
    }
}

impl View for ColumnInput {
    type V = ColumnInputView;

    open spec fn view(&self) -> ColumnInputView {
        ColumnInputView {
            name: self.name@,
            column_type: self.column_type@,
            comment: self.comment@,
        }
    }
}

impl DeepView for ColumnInput {
    type V = ColumnInputView;

    open spec fn deep_view(&self) -> ColumnInputView {
        self.view()
    }
}

impl View for TableInput {
    type V = TableInputView;

    open spec fn view(&self) -> TableInputView {
        TableInputView {
            name: self.name@,
            description: self.description@,
            columns: self.columns.deep_view(),
            location: self.location@,
        }
    }
}

impl View for ResourceTagging {
    type V = ResourceTaggingView;

    open spec fn view(&self) -> ResourceTaggingView {
        ResourceTaggingView {
            resource_arn: self.resource_arn@,
            tags_to_add: self.tags_to_add.deep_view(),
        }
    }
}

impl View for CreateDatabaseRequest {
    type V = CreateDatabaseRequestView;

    open spec fn view(&self) -> CreateDatabaseRequestView {
        CreateDatabaseRequestView { input: self.input@, tagging: self.tagging@ }
    }
}

impl View for UpdateDatabaseRequest {
    type V = UpdateDatabaseRequestView;

    open spec fn view(&self) -> UpdateDatabaseRequestView {
        UpdateDatabaseRequestView { name: self.name@, input: self.input@ }
    }
}

impl View for TableRequest {
    type V = TableRequestView;

    open spec fn view(&self) -> TableRequestView {
        TableRequestView { database_name: self.database_name@, input: self.input@ }
    }
}

/// The name under which the catalog knows the database `name`.
pub open spec fn database_arn(name: Seq<char>) -> Seq<char> {
    DATABASE_ARN_STEM@ + name
}

/// What the catalog is told about a database.
pub open spec fn db_input(
    name: Seq<char>,
    description: Seq<char>,
    location: Seq<char>,
) -> DatabaseInputView {
    DatabaseInputView { name, description, location_uri: location }
}

/// The requests that make a database and label it.
pub open spec fn create_database_request(
    name: Seq<char>,
    description: Seq<char>,
    location: Seq<char>,
) -> CreateDatabaseRequestView {
    CreateDatabaseRequestView {
        input: db_input(name, description, location),
        tagging: ResourceTaggingView {
            resource_arn: database_arn(name),
            tags_to_add: identifying_tags("glue"@),
        },
    }
}

/// Says what to ask of the catalog and reads its answers.
#[derive(Clone, Copy, Debug)]
pub struct GlueProvisioner {}

impl GlueProvisioner {
    /// A provisioner; it keeps nothing between calls.
    pub fn new() -> (r: GlueProvisioner) {
        GlueProvisioner {  }
    }

    /// Reads the answer to a look at a database: `NotFound` means that it
    /// does not exist, any other failure is handed on.
    pub fn get_database(&self, reply: Lookup<DatabaseInput>) -> (r: Result<
        Option<DatabaseInput>,
        String,
    >)
        ensures
            reply matches Lookup::Found(record) ==> r == Ok::<Option<DatabaseInput>, String>(
                Some(record),
            ),
            reply is NotFound ==> r == Ok::<Option<DatabaseInput>, String>(None),
            reply matches Lookup::Failed(cause) ==> r == Err::<Option<DatabaseInput>, String>(
                cause,
            ),
    {
        looked_up(reply)
    }

    /// Reads the answer to a look at a table, as `get_database` does for a
    /// database.
    pub fn get_table(&self, reply: Lookup<TableInput>) -> (r: Result<Option<TableInput>, String>)
        ensures
            reply matches Lookup::Found(record) ==> r == Ok::<Option<TableInput>, String>(
                Some(record),
            ),
            reply is NotFound ==> r == Ok::<Option<TableInput>, String>(None),
            reply matches Lookup::Failed(cause) ==> r == Err::<Option<TableInput>, String>(cause),
    {
        looked_up(reply)
    }

    /// The requests that make the database `name` and label it.
    pub fn create_database(&self, name: &String, description: &String, location: &String) -> (r:
        CreateDatabaseRequest)
        ensures
            r@ == create_database_request(name@, description@, location@),
    {
        CreateDatabaseRequest {
            input: Self::build_db_input(name, description, location),
            tagging: ResourceTagging {
                resource_arn: self.arn_for_database(name),
                tags_to_add: identifying_tag_set("glue"),
            },
        }
    }

    /// The request that brings the database `name` up to date.
    pub fn update_database(&self, name: &String, description: &String, location: &String) -> (r:
        UpdateDatabaseRequest)
        ensures
            r@ == (UpdateDatabaseRequestView {
                name: name@,
                input: db_input(name@, description@, location@),
            }),
    {
        UpdateDatabaseRequest {
            name: name.clone(),
            input: Self::build_db_input(name, description, location),
        }
    }

    /// The request that makes a table in the database `database_name`.
    pub fn create_table(&self, database_name: &String, input: TableInput) -> (r: TableRequest)
        ensures
            r@ == (TableRequestView { database_name: database_name@, input: input@ }),
    {
        TableRequest { database_name: database_name.clone(), input }
    }

    /// The request that brings a table in the database `database_name` up
    /// to date.
    pub fn update_table(&self, database_name: &String, input: TableInput) -> (r: TableRequest)
        ensures
            r@ == (TableRequestView { database_name: database_name@, input: input@ }),
    {
        TableRequest { database_name: database_name.clone(), input }
    }

    /// What the catalog is told about a database.
    pub fn build_db_input(name: &String, description: &String, location: &String) -> (r:
        DatabaseInput)
        ensures
            r@ == db_input(name@, description@, location@),
    {
        DatabaseInput {
            name: name.clone(),
            description: description.clone(),
            location_uri: location.clone(),
        }
    }

    /// The name under which the catalog knows the database `database_name`.
    pub fn arn_for_database(&self, database_name: &String) -> (r: String)
        ensures
            r@ == database_arn(database_name@),
    {
        join(DATABASE_ARN_STEM, database_name.as_str())
    }
}

} // verus!
