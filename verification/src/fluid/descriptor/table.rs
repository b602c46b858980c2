//! The descriptor of a table: its columns and the database it lives in.

use vstd::prelude::*;
use vstd::string::*;
use super::DescriptorKind;
use super::IdentifiableDescriptor;

verus! {

/// A request for a table. `database` is the id of a database descriptor.
#[derive(Clone, Debug, PartialEq, Eq)]
pub struct TableDescriptor {
    pub id: String,
    pub name: String,
    pub summary: String,
    pub columns: Vec<TableColumnAttribute>,
    pub database: String,
}

/// One column of a table.
#[derive(Clone, Debug, PartialEq, Eq)]
pub struct TableColumnAttribute {
    pub id: String,
    pub name: String,
    pub summary: String,
    pub codec: TableColumnCodec,
    pub nullable: bool,
}

/// How the values of a column are encoded.
#[derive(Clone, Copy, Debug, PartialEq, Eq, Structural)]
pub struct TableColumnCodec {
    pub kind: TableColumnType,
}

/// The type of the values of a column. `Complex` can be written in a
/// descriptor, but no catalog table can hold it.
#[derive(Clone, Copy, Debug, PartialEq, Eq, Structural)]
pub enum TableColumnType {
    Int,
    Long,
    Float,
    Double,
    Boolean,
    String,
    Date,
    Timestamp,
    Complex,
}

impl TableColumnType {
    /// The name of the type as the catalog writes it.
    pub open spec fn tag(self) -> Seq<char> {
        match self {
            TableColumnType::Int => "int"@,
            TableColumnType::Long => "long"@,
            TableColumnType::Float => "float"@,
            TableColumnType::Double => "double"@,
            TableColumnType::Boolean => "boolean"@,
            TableColumnType::String => "string"@,
            TableColumnType::Date => "date"@,
            TableColumnType::Timestamp => "timestamp"@,
            TableColumnType::Complex => "complex"@,
        }
    }

    /// Whether a catalog table can hold a column of this type.
    pub open spec fn supported(self) -> bool {
        self != TableColumnType::Complex
    }

    /// Writes the name of the type in lower case.
    pub fn catalog_type(&self) -> (r: std::string::String)
        ensures
            r@ == self.tag(),
    {
        match self {
            TableColumnType::Int => std::string::String::from_str("int"),
            TableColumnType::Long => std::string::String::from_str("long"),
            TableColumnType::Float => std::string::String::from_str("float"),
            TableColumnType::Double => std::string::String::from_str("double"),
            TableColumnType::Boolean => std::string::String::from_str("boolean"),
            TableColumnType::String => std::string::String::from_str("string"),
            TableColumnType::Date => std::string::String::from_str("date"),
            TableColumnType::Timestamp => std::string::String::from_str("timestamp"),
            TableColumnType::Complex => std::string::String::from_str("complex"),
        }
    }

    /// Tells whether a catalog table can hold a column of this type.
    pub fn is_supported(&self) -> (r: bool)
        ensures
            r == self.supported(),
    {
        match self {
            TableColumnType::Complex => false,
            _ => true,
        }
    }
}

/// A column as a mathematical value.
pub ghost struct TableColumnAttributeView {
    pub id: Seq<char>,
    pub name: Seq<char>,
    pub summary: Seq<char>,
    pub codec: TableColumnCodec,
    pub nullable: bool,
}

/// A table descriptor as a mathematical value.
pub ghost struct TableDescriptorView {
    pub id: Seq<char>,
    pub name: Seq<char>,
    pub summary: Seq<char>,
    pub columns: Seq<TableColumnAttributeView>,
    pub database: Seq<char>,
}

impl View for TableColumnAttribute {
    type V = TableColumnAttributeView;

    open spec fn view(&self) -> TableColumnAttributeView {
        TableColumnAttributeView {
            id: self.id@,
            name: self.name@,
            summary: self.summary@,
            codec: self.codec,
            nullable: self.nullable,
        }
    }
}

impl DeepView for TableColumnAttribute {
    type V = TableColumnAttributeView;

    open spec fn deep_view(&self) -> TableColumnAttributeView {
        self.view()
    }
}

impl View for TableDescriptor {
    type V = TableDescriptorView;

    open spec fn view(&self) -> TableDescriptorView {
        TableDescriptorView {
            id: self.id@,
            name: self.name@,
            summary: self.summary@,
            columns: self.columns.deep_view(),
            database: self.database@,
        }
    }
}

impl DeepView for TableDescriptor {
    type V = TableDescriptorView;

    open spec fn deep_view(&self) -> TableDescriptorView {
        self.view()
    }
}

impl IdentifiableDescriptor for TableDescriptor {
    open spec fn spec_id(&self) -> Seq<char> {
        self.id@
    }

    open spec fn spec_kind(&self) -> DescriptorKind {
        DescriptorKind::Table
    }

    fn id(&self) -> (r: String) {
        self.id.clone()
    }

    fn kind(&self) -> (r: String) {
        String::from_str("table")
    }
}

} // verus!
