//! What the backends hold, as far as reconciliation can tell, and what a
//! reconciliation that goes through does to it.
//!
//! The remote systems are the state of record; this crate keeps no copy of
//! them. The model here says what each successful call is taken to do:
//! creating a resource adds it, updating it overwrites what the request
//! carries, and posting a job replaces the job of that id.

use vstd::prelude::*;
use crate::controller::database::bucket_action;
use crate::controller::database::bucket_name;
use crate::controller::database::bucket_uri;
use crate::controller::database::catalog_action;
use crate::controller::database::catalog_name;
use crate::controller::database::BucketActionView;
use crate::controller::database::CatalogActionView;
use crate::controller::flow::compilable;
use crate::controller::flow::compiled_job;
use crate::controller::table::table_action;
use crate::controller::table::table_input;
use crate::controller::table::TableActionView;
use crate::fluid::descriptor::database::DatabaseDescriptorView;
use crate::fluid::descriptor::flow::FlowDescriptorView;
use crate::fluid::descriptor::table::TableDescriptorView;
use crate::provisioner::glue::create_database_request;
use crate::provisioner::glue::db_input;
use crate::provisioner::glue::DatabaseInputView;
use crate::provisioner::glue::TableInputView;
use crate::provisioner::identifying_tags;
use crate::provisioner::s3::create_bucket_request;
use crate::provisioner::waterwheel::WaterwheelJobView;
use crate::provisioner::TagView;

verus! {

/// A database as the catalog holds it.
pub ghost struct CatalogEntry {
    pub input: DatabaseInputView,
    pub tags: Seq<TagView>,
}

/// The backends: buckets with their labels, catalog databases by name,
/// catalog tables by database and name, and jobs by id.
#[verifier::ext_equal]
pub ghost struct Backends {
    pub buckets: Map<Seq<char>, Seq<TagView>>,
    pub databases: Map<Seq<char>, CatalogEntry>,
    pub tables: Map<(Seq<char>, Seq<char>), TableInputView>,
    pub jobs: Map<Seq<char>, WaterwheelJobView>,
}

impl Backends {
    /// Whether the object store has the bucket.
    pub open spec fn has_bucket(self, bucket: Seq<char>) -> bool {
        self.buckets.contains_key(bucket)
    }

    /// Whether the catalog has the database.
    pub open spec fn has_database(self, name: Seq<char>) -> bool {
        self.databases.contains_key(name)
    }

    /// Whether the catalog has the table.
    pub open spec fn has_table(self, database: Seq<char>, name: Seq<char>) -> bool {
        self.tables.contains_key((database, name))
    }

    /// The backends after a bucket action went through. Creating adds the
    /// bucket with the identifying labels; updating changes nothing.
    pub open spec fn after_bucket_action(self, action: BucketActionView) -> Backends {
        match action {
            BucketActionView::Create { bucket } => {
                let request = create_bucket_request(bucket);
                Backends { buckets: self.buckets.insert(request.bucket, request.tag_set), ..self }
            },
            BucketActionView::Update { bucket } => self,
        }
    }

    /// The backends after a catalog action went through. Creating adds the
    /// database with the identifying labels; updating overwrites what the
    /// catalog was told about it and keeps its labels.
    pub open spec fn after_catalog_action(self, action: CatalogActionView) -> Backends {
        match action {
            CatalogActionView::CreateDatabase { name, description, location } => {
                let request = create_database_request(name, description, location);
                Backends {
                    databases: self.databases.insert(
                        name,
                        CatalogEntry { input: request.input, tags: request.tagging.tags_to_add },
                    ),
                    ..self
                }
            },
            CatalogActionView::UpdateDatabase { name, description, location } => {
                if self.has_database(name) {
                    Backends {
                        databases: self.databases.insert(
                            name,
                            CatalogEntry {
                                input: db_input(name, description, location),
                                tags: self.databases[name].tags,
                            },
                        ),
                        ..self
                    }
                } else {
                    self
                }
            },
        }
    }

    /// The backends after a table action went through: either way the
    /// catalog then holds what the request carries.
    pub open spec fn after_table_action(self, action: TableActionView) -> Backends {
        match action {
            TableActionView::Create(request) => Backends {
                tables: self.tables.insert(
                    (request.database_name, request.input.name),
                    request.input,
                ),
                ..self
            },
            TableActionView::Update(request) => Backends {
                tables: self.tables.insert(
                    (request.database_name, request.input.name),
                    request.input,
                ),
                ..self
            },
        }
    }

    /// The backends after a job was posted and accepted: it stands in place
    /// of any earlier job of the same id.
    pub open spec fn after_job_submission(self, job: WaterwheelJobView) -> Backends {
        Backends { jobs: self.jobs.insert(job.uuid, job), ..self }
    }

    /// The backends after a database was reconciled without a failure.
    pub open spec fn reconcile_database(self, d: DatabaseDescriptorView) -> Backends {
        self.after_bucket_action(
            bucket_action(d, self.has_bucket(bucket_name(d.name))),
        ).after_catalog_action(catalog_action(d, self.has_database(catalog_name(d.name))))
    }

    /// The backends after a table was reconciled without a failure other
    /// than a missing database. `db` is what the descriptor store held
    /// under the id of the table's database.
    pub open spec fn reconcile_table(
        self,
        d: TableDescriptorView,
        db: Option<DatabaseDescriptorView>,
    ) -> Backends {
        match db {
            None => self,
            Some(db) => self.after_table_action(
                table_action(d, db, self.has_table(catalog_name(db.name), d.name)),
            ),
        }
    }

    /// The backends after a flow was reconciled without a failure other
    /// than one of compilation.
    pub open spec fn reconcile_flow(self, project: Seq<char>, d: FlowDescriptorView) -> Backends {
        if compilable(d) {
            self.after_job_submission(compiled_job(project, d))
        } else {
            self
        }
    }

    /// Reconciling a database a second time changes nothing, and the
    /// second time nothing is created: both resources are found and
    /// updated.
    pub proof fn lemma_database_converges(self, d: DatabaseDescriptorView)
        ensures
            self.reconcile_database(d).reconcile_database(d) == self.reconcile_database(d),
            self.reconcile_database(d).has_bucket(bucket_name(d.name)),
            self.reconcile_database(d).has_database(catalog_name(d.name)),
            bucket_action(d, self.reconcile_database(d).has_bucket(bucket_name(d.name)))
                is Update,
            catalog_action(d, self.reconcile_database(d).has_database(catalog_name(d.name)))
                is UpdateDatabase,
            self.reconcile_database(d).databases[catalog_name(d.name)].input == db_input(
                catalog_name(d.name),
                d.summary,
                bucket_uri(d.name),
            ),
    {
    }

    /// Where neither the bucket nor the catalog entry exists, a
    /// reconciliation creates both: the bucket with the three identifying
    /// labels of the object store, and the entry with the descriptor's
    /// summary, the bucket's address and the identifying labels of the
    /// catalog.
    pub proof fn lemma_database_is_created(self, d: DatabaseDescriptorView)
        requires
            !self.has_bucket(bucket_name(d.name)),
            !self.has_database(catalog_name(d.name)),
        ensures
            self.reconcile_database(d).buckets[bucket_name(d.name)] == identifying_tags("s3"@),
            self.reconcile_database(d).databases[catalog_name(d.name)] == (CatalogEntry {
                input: db_input(catalog_name(d.name), d.summary, bucket_uri(d.name)),
                tags: identifying_tags("glue"@),
            }),
    {
    }

    /// Where both the bucket and the catalog entry exist, a reconciliation
    /// creates nothing: the bucket and every label stay as they are, and
    /// the entry is told the descriptor's summary and the bucket's address.
    pub proof fn lemma_database_is_updated(self, d: DatabaseDescriptorView)
        requires
            self.has_bucket(bucket_name(d.name)),
            self.has_database(catalog_name(d.name)),
        ensures
            self.reconcile_database(d).buckets == self.buckets,
            self.reconcile_database(d).databases[catalog_name(d.name)] == (CatalogEntry {
                input: db_input(catalog_name(d.name), d.summary, bucket_uri(d.name)),
                tags: self.databases[catalog_name(d.name)].tags,
            }),
    {
    }

    /// A reconciliation of a database touches its own bucket and its own
    /// catalog entry and nothing else.
    pub proof fn lemma_database_keeps_others(self, d: DatabaseDescriptorView)
        ensures
            self.reconcile_database(d).tables == self.tables,
            self.reconcile_database(d).jobs == self.jobs,
            self.reconcile_database(d).buckets.remove(bucket_name(d.name)) == self.buckets.remove(
                bucket_name(d.name),
            ),
            self.reconcile_database(d).databases.remove(catalog_name(d.name))
                == self.databases.remove(catalog_name(d.name)),
    {
    }

    /// The two parts of a database's reconciliation do not get in each
    /// other's way: in either order they leave the same backends.
    pub proof fn lemma_parts_commute(self, d: DatabaseDescriptorView)
        ensures
            self.reconcile_database(d) == self.after_catalog_action(
                catalog_action(d, self.has_database(catalog_name(d.name))),
            ).after_bucket_action(bucket_action(d, self.has_bucket(bucket_name(d.name)))),
    {
    }

    /// Reconciling a table a second time, with the descriptor store
    /// unchanged, changes nothing; and if the database was there, the
    /// catalog then holds the table as the descriptor asks.
    pub proof fn lemma_table_converges(
        self,
        d: TableDescriptorView,
        db: Option<DatabaseDescriptorView>,
    )
        ensures
            self.reconcile_table(d, db).reconcile_table(d, db) == self.reconcile_table(d, db),
            db is None ==> self.reconcile_table(d, db) == self,
            db matches Some(database) ==> {
                &&& self.reconcile_table(d, db).has_table(catalog_name(database.name), d.name)
                &&& self.reconcile_table(d, db).tables[(catalog_name(database.name), d.name)]
                    == table_input(d, database)
            },
    {
    }

    /// Reconciling a flow a second time changes nothing; and if the flow
    /// compiles, the workflow engine then holds its job under its id.
    pub proof fn lemma_flow_converges(self, project: Seq<char>, d: FlowDescriptorView)
        ensures
            self.reconcile_flow(project, d).reconcile_flow(project, d) == self.reconcile_flow(
                project,
                d,
            ),
            compilable(d) ==> self.reconcile_flow(project, d).jobs.contains_key(d.id)
                && self.reconcile_flow(project, d).jobs[d.id] == compiled_job(project, d),
            !compilable(d) ==> self.reconcile_flow(project, d) == self,
    {
    }
}

} // verus!
