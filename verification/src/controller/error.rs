//! Why a descriptor was turned down, and why a reconciliation failed.

use vstd::prelude::*;
use vstd::string::*;
use crate::fluid::descriptor::table::TableColumnType;
use crate::text::join;
use crate::text::join3;

verus! {

/// The rule for the name of a database.
pub const VALIDATION_REGEX_NAME: &'static str = "^[a-z0-9_]+$";

/// The rule for the name of a table.
pub const VALIDATION_REGEX_TABLE_NAME: &'static str = "^[a-z0-9_]";

/// The rule for the name of a column.
pub const VALIDATION_REGEX_COLUMN_NAME: &'static str = "^[a-z0-9_]";

/// Why a reconciliation did not finish.
#[derive(Clone, Debug, PartialEq, Eq)]
pub enum ControllerReconciliationError {
    /// A backend refused a call or could not be reached.
    ProvisionerError(String),
    /// The controller could not work out what to ask for.
    ControllerError(String),
    /// A descriptor that this one refers to is not stored yet.
    DependencyMissing(String),
}

/// Why a controller gave up on a resource.
#[derive(Clone, Debug, PartialEq, Eq)]
pub enum ControllerResourceError {
    CircuitBroken { source: String, id: String },
}

/// Why a descriptor was turned down before anything was stored.
#[derive(Clone, Debug, PartialEq, Eq)]
pub enum ValidationError {
    InvalidName { name: String },
    InvalidTableName { name: String },
    InvalidColumnName { name: String },
    UnsupportedColumnType { kind: TableColumnType },
    UnsupportedCondition,
}

/// A reconciliation error as a mathematical value.
pub ghost enum ControllerReconciliationErrorView {
    ProvisionerError(Seq<char>),
    ControllerError(Seq<char>),
    DependencyMissing(Seq<char>),
}

/// A resource error as a mathematical value.
pub ghost enum ControllerResourceErrorView {
    CircuitBroken { source: Seq<char>, id: Seq<char> },
}

/// A validation error as a mathematical value.
pub ghost enum ValidationErrorView {
    InvalidName { name: Seq<char> },
    InvalidTableName { name: Seq<char> },
    InvalidColumnName { name: Seq<char> },
    UnsupportedColumnType { kind: TableColumnType },
    UnsupportedCondition,
}

impl View for ControllerReconciliationError {
    type V = ControllerReconciliationErrorView;

    open spec fn view(&self) -> ControllerReconciliationErrorView {
        match self {
            ControllerReconciliationError::ProvisionerError(cause) =>
                ControllerReconciliationErrorView::ProvisionerError(cause@),
            ControllerReconciliationError::ControllerError(cause) =>
                ControllerReconciliationErrorView::ControllerError(cause@),
            ControllerReconciliationError::DependencyMissing(reference) =>
                ControllerReconciliationErrorView::DependencyMissing(reference@),
        }
    }
}

impl DeepView for ControllerReconciliationError {
    type V = ControllerReconciliationErrorView;

    open spec fn deep_view(&self) -> ControllerReconciliationErrorView {
        self.view()
    }
}

impl View for ControllerResourceError {
    type V = ControllerResourceErrorView;

    open spec fn view(&self) -> ControllerResourceErrorView {
        match self {
            ControllerResourceError::CircuitBroken { source, id } =>
                ControllerResourceErrorView::CircuitBroken { source: source@, id: id@ },
        }
    }
}

impl View for ValidationError {
    type V = ValidationErrorView;

    open spec fn view(&self) -> ValidationErrorView {
        match self {
            ValidationError::InvalidName { name } => ValidationErrorView::InvalidName {
                name: name@,
            },
            ValidationError::InvalidTableName { name } => ValidationErrorView::InvalidTableName {
                name: name@,
            },
            ValidationError::InvalidColumnName { name } => ValidationErrorView::InvalidColumnName {
                name: name@,
            },
            ValidationError::UnsupportedColumnType { kind } =>
                ValidationErrorView::UnsupportedColumnType { kind: *kind },
            ValidationError::UnsupportedCondition => ValidationErrorView::UnsupportedCondition,
        }
    }
}

impl DeepView for ValidationError {
    type V = ValidationErrorView;

    open spec fn deep_view(&self) -> ValidationErrorView {
        self.view()
    }
}

impl ControllerReconciliationErrorView {
    /// The text that describes the error.
    pub open spec fn message(self) -> Seq<char> {
        match self {
            ControllerReconciliationErrorView::ProvisionerError(cause) =>
                "error from provisioner: "@ + cause,
            ControllerReconciliationErrorView::ControllerError(cause) =>
                "error from controller: "@ + cause,
            ControllerReconciliationErrorView::DependencyMissing(reference) =>
                "missing dependency `"@ + reference + "`"@,
        }
    }

    /// Every error has something to say.
    pub proof fn lemma_message_not_empty(self)
        ensures
            self.message().len() > 0,
    {
        reveal_strlit("error from provisioner: ");
        reveal_strlit("error from controller: ");
        reveal_strlit("missing dependency `");
    }
}

impl ControllerReconciliationError {
    /// Describes the error in words.
    pub fn message(&self) -> (r: String)
        ensures
            r@ == self@.message(),
    {
        match self {
            ControllerReconciliationError::ProvisionerError(cause) => join(
                "error from provisioner: ",
                cause.as_str(),
            ),
            ControllerReconciliationError::ControllerError(cause) => join(
                "error from controller: ",
                cause.as_str(),
            ),
            ControllerReconciliationError::DependencyMissing(reference) => join3(
                "missing dependency `",
                reference.as_str(),
                "`",
            ),
        }
    }
}

impl ValidationErrorView {
    /// The text that tells the submitter what to correct.
    pub open spec fn message(self) -> Seq<char> {
        match self {
            ValidationErrorView::InvalidName { name } => "Invalid name '"@ + name
                + "'. Must match '"@ + VALIDATION_REGEX_NAME@ + "'"@,
            ValidationErrorView::InvalidTableName { name } => "Invalid table name '"@ + name
                + "'. Must match '"@ + VALIDATION_REGEX_TABLE_NAME@ + "'"@,
            ValidationErrorView::InvalidColumnName { name } => "Invalid column name '"@ + name
                + "'. Must match '"@ + VALIDATION_REGEX_COLUMN_NAME@ + "'"@,
            ValidationErrorView::UnsupportedColumnType { kind } => "Unsupported column type '"@
                + kind.tag() + "'"@,
            ValidationErrorView::UnsupportedCondition => "unsupported trigger condition"@,
        }
    }
}

impl ValidationError {
    /// Describes the error in words.
    pub fn message(&self) -> (r: String)
        ensures
            r@ == self@.message(),
    {
        match self {
            ValidationError::InvalidName { name } => {
                let mut out = join3("Invalid name '", name.as_str(), "'. Must match '");
                out.append(VALIDATION_REGEX_NAME);
                out.append("'");
                out
            },
            ValidationError::InvalidTableName { name } => {
                let mut out = join3("Invalid table name '", name.as_str(), "'. Must match '");
                out.append(VALIDATION_REGEX_TABLE_NAME);
                out.append("'");
                out
            },
            ValidationError::InvalidColumnName { name } => {
                let mut out = join3("Invalid column name '", name.as_str(), "'. Must match '");
                out.append(VALIDATION_REGEX_COLUMN_NAME);
                out.append("'");
                out
            },
            ValidationError::UnsupportedColumnType { kind } => {
                let tag = kind.catalog_type();
                join3("Unsupported column type '", tag.as_str(), "'")
            },
            ValidationError::UnsupportedCondition => String::from_str(
                "unsupported trigger condition",
            ),
        }
    }
}

} // verus!
