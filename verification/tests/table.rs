use basin::controller::error::ControllerReconciliationError;
use basin::controller::table::{TableAction, TableController, TableLookup};
use basin::controller::base::ReconcileOutcome;
use basin::fluid::descriptor::database::DatabaseDescriptor;
use basin::fluid::descriptor::table::{
    TableColumnAttribute, TableColumnCodec, TableColumnType, TableDescriptor,
};
use basin::provisioner::glue::{ColumnInput, GlueProvisioner, TableInput, TableRequest};
use basin::provisioner::Lookup;

fn sales() -> DatabaseDescriptor {
    DatabaseDescriptor { id: "d1".to_string(), name: "sales".to_string(), summary: "s".to_string() }
}

fn orders() -> TableDescriptor {
    TableDescriptor {
        id: "t1".to_string(),
        name: "orders".to_string(),
        summary: "all orders".to_string(),
        columns: vec![TableColumnAttribute {
            id: "c1".to_string(),
            name: "qty".to_string(),
            summary: "how many".to_string(),
            codec: TableColumnCodec { kind: TableColumnType::Int },
            nullable: false,
        }],
        database: "d1".to_string(),
    }
}

fn orders_request() -> TableRequest {
    TableRequest {
        database_name: "zone_sales".to_string(),
        input: TableInput {
            name: "orders".to_string(),
            description: "all orders".to_string(),
            columns: vec![ColumnInput {
                name: "qty".to_string(),
                column_type: "int".to_string(),
                comment: "how many".to_string(),
            }],
            location: "s3://cz-vaporeon-db-sales/orders".to_string(),
        },
    }
}

#[test]
fn table_before_database() {
    let controller = TableController::new();
    let outcome = controller.reconcile(&orders(), &None);
    assert_eq!(
        outcome,
        Err(ControllerReconciliationError::DependencyMissing("d1".to_string()))
    );
    let result: Result<(), ControllerReconciliationError> = outcome.map(|_| ());
    assert_eq!(ReconcileOutcome::from_result(result).deployment_info(), None);
}

#[test]
fn table_after_database() {
    let controller = TableController::new();
    let glue = GlueProvisioner::new();
    let lookup = controller.reconcile(&orders(), &Some(sales())).unwrap();
    assert_eq!(
        lookup,
        TableLookup { database_name: "zone_sales".to_string(), name: "orders".to_string() }
    );
    assert_eq!(controller.dependency(&orders()), "descriptor/database/d1");
    let table = glue.get_table(Lookup::NotFound).unwrap();
    let action = controller.reconcile_glue_table(&orders(), &sales(), &table);
    assert_eq!(action, TableAction::Create(orders_request()));
    assert_eq!(controller.reconciled(Ok(())), Ok(()));
}

#[test]
fn existing_table_is_updated_with_the_same_request() {
    let controller = TableController::new();
    let glue = GlueProvisioner::new();
    let mut stale = orders_request().input;
    stale.columns.clear();
    let table = glue.get_table(Lookup::Found(stale.clone())).unwrap();
    assert_eq!(table, Some(stale));
    let action = controller.reconcile_glue_table(&orders(), &sales(), &table);
    assert_eq!(action, TableAction::Update(orders_request()));
    assert_eq!(glue.get_table(Lookup::Failed("denied".to_string())), Err("denied".to_string()));
    assert_eq!(controller.create_table(&orders(), &sales()), orders_request());
    assert_eq!(controller.update_table(&orders(), &sales()), orders_request());
}

#[test]
fn dependency_is_missing_exactly_when_the_store_has_no_database() {
    let controller = TableController::new();
    let mut table = orders();
    for id in ["d1", "", "no/such", "d 2"] {
        table.database = id.to_string();
        assert_eq!(
            controller.reconcile(&table, &None),
            Err(ControllerReconciliationError::DependencyMissing(id.to_string()))
        );
        assert!(controller.reconcile(&table, &Some(sales())).is_ok());
    }
}

#[test]
fn table_input_keeps_the_order_of_the_columns() {
    let mut table = orders();
    let kinds = [
        ("a", TableColumnType::Timestamp, "timestamp"),
        ("b", TableColumnType::Boolean, "boolean"),
        ("c", TableColumnType::String, "string"),
        ("d", TableColumnType::Double, "double"),
    ];
    table.columns = kinds
        .iter()
        .map(|(name, kind, _)| TableColumnAttribute {
            id: String::new(),
            name: name.to_string(),
            summary: format!("column {}", name),
            codec: TableColumnCodec { kind: *kind },
            nullable: true,
        })
        .collect();
    let input = TableController::build_table_input(&table, &sales());
    assert_eq!(input.columns.len(), 4);
    for (i, (name, _, tag)) in kinds.iter().enumerate() {
        assert_eq!(input.columns[i].name, *name);
        assert_eq!(input.columns[i].column_type, *tag);
        assert_eq!(input.columns[i].comment, format!("column {}", name));
    }
}

#[test]
fn table_location_lies_in_the_bucket_of_the_database() {
    let db = DatabaseDescriptor {
        id: "d2".to_string(),
        name: "web_logs".to_string(),
        summary: String::new(),
    };
    let mut table = orders();
    table.name = "hits_by_day".to_string();
    let input = TableController::build_table_input(&table, &db);
    assert_eq!(input.location, "s3://cz-vaporeon-db-web-logs/hits_by_day");
    assert_eq!(input.name, "hits_by_day");
    let request = TableController::new().create_table(&table, &db);
    assert_eq!(request.database_name, "zone_web_logs");
}

#[test]
fn catalog_failure_is_a_provisioner_error() {
    let controller = TableController::new();
    assert_eq!(
        controller.reconciled(Err("access denied".to_string())),
        Err(ControllerReconciliationError::ProvisionerError("access denied".to_string()))
    );
}

#[test]
fn table_requests_of_the_provisioner() {
    let glue = GlueProvisioner::new();
    let input = orders_request().input;
    assert_eq!(glue.create_table(&"zone_sales".to_string(), input.clone()), orders_request());
    assert_eq!(glue.update_table(&"zone_sales".to_string(), input), orders_request());
    assert_eq!(TableController::new().list_descriptors(), "descriptor/table/*");
}
