//! The database controller: a bucket in the object store and an entry in
//! the catalog for each database.

use vstd::prelude::*;
use vstd::string::*;
use crate::controller::error::ControllerReconciliationError;
use crate::controller::error::ControllerReconciliationErrorView;
use crate::controller::error::ValidationError;
use crate::controller::error::ValidationErrorView;
use crate::controller::error::VALIDATION_REGEX_NAME;
use crate::descriptor_store::kind_pattern;
use crate::descriptor_store::list_pattern;
use crate::fluid::descriptor::DescriptorKind;
use crate::fluid::descriptor::database::DatabaseDescriptor;
use crate::fluid::descriptor::database::DatabaseDescriptorView;
use crate::pattern::conforms;
use crate::provisioner::glue::DatabaseInput;
use crate::pattern::search;
use crate::text::join;
use crate::text::replace_char;
use crate::text::replaced;

verus! {

/// The name of the bucket of the database `name`: a fixed prefix, then the
/// name with every underscore turned into a hyphen.
pub open spec fn bucket_name(name: Seq<char>) -> Seq<char> {
    "cz-vaporeon-db-"@ + replaced(name, '_', '-')
}

/// The name of the catalog entry of the database `name`.
pub open spec fn catalog_name(name: Seq<char>) -> Seq<char> {
    "zone_"@ + name
}

/// The address of the bucket of the database `name`.
pub open spec fn bucket_uri(name: Seq<char>) -> Seq<char> {
    "s3://"@ + bucket_name(name)
}

/// Two databases whose names hold no hyphen have the same bucket only if
/// they have the same name.
pub proof fn lemma_bucket_names_apart(a: Seq<char>, b: Seq<char>)
    requires
        !a.contains('-'),
        !b.contains('-'),
        bucket_name(a) == bucket_name(b),
    ensures
        a == b,
{
    let stem = "cz-vaporeon-db-"@;
    assert(a.len() == b.len()) by {
        assert(bucket_name(b).len() == stem.len() + b.len());
    }
    assert forall|i: int| 0 <= i < a.len() implies a[i] == b[i] by {
        assert(bucket_name(b)[stem.len() + i] == replaced(b, '_', '-')[i]);
    }
}

/// Two databases have the same catalog entry only if they have the same
/// name.
pub proof fn lemma_catalog_names_apart(a: Seq<char>, b: Seq<char>)
    requires
        catalog_name(a) == catalog_name(b),
    ensures
        a == b,
{
    let stem = "zone_"@;
    assert(a.len() == b.len()) by {
        assert(catalog_name(b).len() == stem.len() + b.len());
    }
    assert forall|i: int| 0 <= i < a.len() implies a[i] == b[i] by {
        assert(catalog_name(b)[stem.len() + i] == b[i]);
    }
}

/// What to do about the bucket of a database.
#[derive(Clone, Debug, PartialEq, Eq)]
pub enum BucketAction {
    Create { bucket: String },
    Update { bucket: String },
}

/// What to do about the catalog entry of a database.
#[derive(Clone, Debug, PartialEq, Eq)]
pub enum CatalogAction {
    CreateDatabase { name: String, description: String, location: String },
    UpdateDatabase { name: String, description: String, location: String },
}

/// A bucket action as a mathematical value.
pub ghost enum BucketActionView {
    Create { bucket: Seq<char> },
    Update { bucket: Seq<char> },
}

/// A catalog action as a mathematical value.
pub ghost enum CatalogActionView {
    CreateDatabase { name: Seq<char>, description: Seq<char>, location: Seq<char> },
    UpdateDatabase { name: Seq<char>, description: Seq<char>, location: Seq<char> },
}

impl View for BucketAction {
    type V = BucketActionView;

    open spec fn view(&self) -> BucketActionView {
        match self {
            BucketAction::Create { bucket } => BucketActionView::Create { bucket: bucket@ },
            BucketAction::Update { bucket } => BucketActionView::Update { bucket: bucket@ },
        }
    }
}

impl View for CatalogAction {
    type V = CatalogActionView;

    open spec fn view(&self) -> CatalogActionView {
        match self {
            CatalogAction::CreateDatabase { name, description, location } =>
                CatalogActionView::CreateDatabase {
                    name: name@,
                    description: description@,
                    location: location@,
                },
            CatalogAction::UpdateDatabase { name, description, location } =>
                CatalogActionView::UpdateDatabase {
                    name: name@,
                    description: description@,
                    location: location@,
                },
        }
    }
}

/// What to do about the bucket of `d`: update it where it exists, else
/// create it.
pub open spec fn bucket_action(d: DatabaseDescriptorView, bucket_exists: bool) -> BucketActionView {
    if bucket_exists {
        BucketActionView::Update { bucket: bucket_name(d.name) }
    } else {
        BucketActionView::Create { bucket: bucket_name(d.name) }
    }
}

/// What to do about the catalog entry of `d`: update it where it exists,
/// else create it, either way with the descriptor's summary as its
/// description and the bucket's address as its location.
pub open spec fn catalog_action(
    d: DatabaseDescriptorView,
    database_exists: bool,
) -> CatalogActionView {
    if database_exists {
        CatalogActionView::UpdateDatabase {
            name: catalog_name(d.name),
            description: d.summary,
            location: bucket_uri(d.name),
        }
    } else {
        CatalogActionView::CreateDatabase {
            name: catalog_name(d.name),
            description: d.summary,
            location: bucket_uri(d.name),
        }
    }
}

/// Checks database descriptors and says how to reconcile them.
#[derive(Clone, Copy, Debug)]
pub struct DatabaseController {}

impl DatabaseController {
    /// A controller; it keeps nothing between calls.
    pub fn new() -> (r: DatabaseController) {
        DatabaseController {  }
    }

    /// The verdict on a database's name, given what the search for the
    /// naming rule in it gave.
    pub fn name_verdict(descriptor: &DatabaseDescriptor, found: Option<bool>) -> (r: Result<
        (),
        ValidationError,
    >)
        ensures
            r is Ok <==> found == Some(true),
            r matches Err(e) ==> e@ == (ValidationErrorView::InvalidName {
                name: descriptor.name@,
            }),
    {
        match found {
            Some(true) => Ok(()),
            _ => Err(ValidationError::InvalidName { name: descriptor.name.clone() }),
        }
    }

    /// Accepts a database exactly when its name keeps the naming rule.
    pub fn validate(&self, descriptor: &DatabaseDescriptor) -> (r: Result<(), ValidationError>)
        ensures
            r is Ok <==> conforms(VALIDATION_REGEX_NAME@, descriptor.name@),
            r matches Err(e) ==> e@ == (ValidationErrorView::InvalidName {
                name: descriptor.name@,
            }),
    {
        Self::name_verdict(descriptor, search(VALIDATION_REGEX_NAME, descriptor.name.as_str()))
    }

    /// The pattern that lists the keys of the stored descriptors that this
    /// controller reconciles.
    pub fn list_descriptors(&self) -> (r: String)
        ensures
            r@ == kind_pattern(DescriptorKind::Database.tag()),
    {
        list_pattern("database")
    }

    /// Says what to do about the bucket, given whether it exists.
    pub fn reconcile_s3(&self, descriptor: &DatabaseDescriptor, bucket_exists: bool) -> (r:
        BucketAction)
        ensures
            r@ == bucket_action(descriptor@, bucket_exists),
    {
        let bucket = Self::s3_name_for(descriptor);
        if bucket_exists {
            BucketAction::Update { bucket }
        } else {
            BucketAction::Create { bucket }
        }
    }

    /// Says what to do about the catalog entry, given what the catalog
    /// holds under its name.
    pub fn reconcile_glue(
        &self,
        descriptor: &DatabaseDescriptor,
        glue_resource: &Option<DatabaseInput>,
    ) -> (r: CatalogAction)
        ensures
            r@ == catalog_action(descriptor@, glue_resource is Some),
    {
        let name = Self::glue_name_for(descriptor);
        let bucket = Self::s3_name_for(descriptor);
        let location = join("s3://", bucket.as_str());
        if glue_resource.is_some() {
            CatalogAction::UpdateDatabase {
                name,
                description: descriptor.summary.clone(),
                location,
            }
        } else {
            CatalogAction::CreateDatabase {
                name,
                description: descriptor.summary.clone(),
                location,
            }
        }
    }

    /// Access rights: nothing is asked for yet, so this always succeeds.
    pub fn reconcile_iam(&self) -> (r: Result<(), String>)
        ensures
            r is Ok,
    {
        Ok(())
    }

    /// The outcome of a reconciliation, given the first failure among its
    /// parts, if any part failed. The parts run side by side and all must
    /// succeed; the first failure ends the reconciliation as a provisioner
    /// error.
    pub fn reconcile(&self, first_failure: Option<String>) -> (r: Result<
        (),
        ControllerReconciliationError,
    >)
        ensures
            r is Ok <==> first_failure is None,
            r matches Err(e) ==> e@ == ControllerReconciliationErrorView::ProvisionerError(
                first_failure->0@,
            ),
    {
        match first_failure {
            None => Ok(()),
            Some(cause) => Err(ControllerReconciliationError::ProvisionerError(cause)),
        }
    }

    /// The name of the catalog entry of a database.
    pub fn glue_name_for(descriptor: &DatabaseDescriptor) -> (r: String)
        ensures
            r@ == catalog_name(descriptor.name@),
    {
        join("zone_", descriptor.name.as_str())
    }

    /// The name of the bucket of a database.
    pub fn s3_name_for(descriptor: &DatabaseDescriptor) -> (r: String)
        ensures
            r@ == bucket_name(descriptor.name@),
    {
        let hyphenated = replace_char(descriptor.name.as_str(), '_', '-');
        join("cz-vaporeon-db-", hyphenated.as_str())
    }
}

} // verus!
