use basin::controller::database::DatabaseController;
use basin::controller::error::ValidationError;
use basin::controller::table::TableController;
use basin::fluid::descriptor::database::DatabaseDescriptor;
use basin::fluid::descriptor::table::{
    TableColumnAttribute, TableColumnCodec, TableColumnType, TableDescriptor,
};
use basin::pattern::{check, found_match};

fn database(name: &str) -> DatabaseDescriptor {
    DatabaseDescriptor { id: "d1".to_string(), name: name.to_string(), summary: "s".to_string() }
}

fn column(name: &str, kind: TableColumnType) -> TableColumnAttribute {
    TableColumnAttribute {
        id: format!("c-{}", name),
        name: name.to_string(),
        summary: format!("the {} column", name),
        codec: TableColumnCodec { kind },
        nullable: false,
    }
}

fn table(name: &str, columns: Vec<TableColumnAttribute>) -> TableDescriptor {
    TableDescriptor {
        id: "t1".to_string(),
        name: name.to_string(),
        summary: "orders of the day".to_string(),
        columns,
        database: "d1".to_string(),
    }
}

#[test]
fn database_names_of_lower_case_digits_and_underscores_pass() {
    let controller = DatabaseController::new();
    for name in ["sales", "sales_2024", "_", "0", "a_b_c_9"] {
        assert_eq!(controller.validate(&database(name)), Ok(()), "{}", name);
    }
}

#[test]
fn other_database_names_are_turned_down() {
    let controller = DatabaseController::new();
    for name in ["", "Sales", "sales-2024", "sales 2024", "säles", "sales\n", "sales.eu", "a/b"] {
        assert_eq!(
            controller.validate(&database(name)),
            Err(ValidationError::InvalidName { name: name.to_string() }),
            "{:?}",
            name
        );
    }
}

#[test]
fn database_name_verdict_follows_the_search() {
    let d = database("sales");
    assert_eq!(DatabaseController::name_verdict(&d, Some(true)), Ok(()));
    assert_eq!(
        DatabaseController::name_verdict(&d, Some(false)),
        Err(ValidationError::InvalidName { name: "sales".to_string() })
    );
    assert_eq!(
        DatabaseController::name_verdict(&d, None),
        Err(ValidationError::InvalidName { name: "sales".to_string() })
    );
}

#[test]
fn a_rule_that_is_no_pattern_is_kept_by_nothing() {
    assert!(!check("(", "("));
    assert!(!check("[a-", "a"));
    assert!(!found_match(None));
    assert!(!found_match(Some(false)));
    assert!(found_match(Some(true)));
}

#[test]
fn rules_are_searched_for_and_not_compared() {
    assert!(check("^[a-z0-9_]+$", "abc"));
    assert!(!check("^[a-z0-9_]+$", "^[a-z0-9_]+$"));
    assert!(check("b", "abc"));
    assert!(!check("^b", "abc"));
}

#[test]
fn table_with_supported_columns_passes() {
    let controller = TableController::new();
    let t = table(
        "orders",
        vec![
            column("qty", TableColumnType::Int),
            column("total", TableColumnType::Long),
            column("ratio", TableColumnType::Float),
            column("price", TableColumnType::Double),
            column("paid", TableColumnType::Boolean),
            column("note", TableColumnType::String),
            column("day", TableColumnType::Date),
            column("at", TableColumnType::Timestamp),
        ],
    );
    assert_eq!(controller.validate(&t), Ok(()));
}

#[test]
fn table_without_columns_passes() {
    let controller = TableController::new();
    assert_eq!(controller.validate(&table("orders", vec![])), Ok(()));
}

#[test]
fn table_name_is_checked_at_its_first_character_only() {
    let controller = TableController::new();
    assert_eq!(controller.validate(&table("o-RDERS", vec![])), Ok(()));
    assert_eq!(controller.validate(&table("_orders", vec![])), Ok(()));
    for name in ["", "Orders", "-orders", " orders"] {
        assert_eq!(
            controller.validate(&table(name, vec![])),
            Err(ValidationError::InvalidTableName { name: name.to_string() }),
            "{:?}",
            name
        );
    }
}

#[test]
fn column_name_is_checked_at_its_first_character_only() {
    let controller = TableController::new();
    let good = table("orders", vec![column("q-TY", TableColumnType::Int)]);
    assert_eq!(controller.validate(&good), Ok(()));
    let bad = table("orders", vec![column("Qty", TableColumnType::Int)]);
    assert_eq!(
        controller.validate(&bad),
        Err(ValidationError::InvalidColumnName { name: "Qty".to_string() })
    );
}

#[test]
fn unsupported_column() {
    let controller = TableController::new();
    let t = table(
        "orders",
        vec![column("qty", TableColumnType::Int), column("blob", TableColumnType::Complex)],
    );
    assert_eq!(
        controller.validate(&t),
        Err(ValidationError::UnsupportedColumnType { kind: TableColumnType::Complex })
    );
}

#[test]
fn first_fault_is_reported() {
    let controller = TableController::new();
    let name_first = table("Orders", vec![column("Qty", TableColumnType::Complex)]);
    assert_eq!(
        controller.validate(&name_first),
        Err(ValidationError::InvalidTableName { name: "Orders".to_string() })
    );
    let column_name_before_type = table("orders", vec![column("Qty", TableColumnType::Complex)]);
    assert_eq!(
        controller.validate(&column_name_before_type),
        Err(ValidationError::InvalidColumnName { name: "Qty".to_string() })
    );
    let earlier_column_first = table(
        "orders",
        vec![
            column("ok", TableColumnType::Int),
            column("blob", TableColumnType::Complex),
            column("Bad", TableColumnType::Int),
        ],
    );
    assert_eq!(
        controller.validate(&earlier_column_first),
        Err(ValidationError::UnsupportedColumnType { kind: TableColumnType::Complex })
    );
}

#[test]
fn table_verdict_follows_the_searches() {
    let t = table(
        "orders",
        vec![column("a", TableColumnType::Int), column("b", TableColumnType::Int)],
    );
    assert_eq!(TableController::verdict(&t, true, &vec![true, true]), Ok(()));
    assert_eq!(
        TableController::verdict(&t, false, &vec![true, true]),
        Err(ValidationError::InvalidTableName { name: "orders".to_string() })
    );
    assert_eq!(
        TableController::verdict(&t, true, &vec![true, false]),
        Err(ValidationError::InvalidColumnName { name: "b".to_string() })
    );
    assert_eq!(
        TableController::verdict(&t, true, &vec![false, false]),
        Err(ValidationError::InvalidColumnName { name: "a".to_string() })
    );
    assert_eq!(
        TableController::verdict(&t, true, &vec![true]),
        Err(ValidationError::InvalidColumnName { name: "b".to_string() })
    );
}

#[test]
fn supported_types_are_all_but_complex() {
    let all = [
        TableColumnType::Int,
        TableColumnType::Long,
        TableColumnType::Float,
        TableColumnType::Double,
        TableColumnType::Boolean,
        TableColumnType::String,
        TableColumnType::Date,
        TableColumnType::Timestamp,
        TableColumnType::Complex,
    ];
    for kind in all {
        assert_eq!(kind.is_supported(), kind != TableColumnType::Complex);
    }
}

#[test]
fn type_names_are_lower_case() {
    assert_eq!(TableColumnType::Int.catalog_type(), "int");
    assert_eq!(TableColumnType::Long.catalog_type(), "long");
    assert_eq!(TableColumnType::Float.catalog_type(), "float");
    assert_eq!(TableColumnType::Double.catalog_type(), "double");
    assert_eq!(TableColumnType::Boolean.catalog_type(), "boolean");
    assert_eq!(TableColumnType::String.catalog_type(), "string");
    assert_eq!(TableColumnType::Date.catalog_type(), "date");
    assert_eq!(TableColumnType::Timestamp.catalog_type(), "timestamp");
    assert_eq!(TableColumnType::Complex.catalog_type(), "complex");
}

#[test]
fn validation_messages() {
    assert_eq!(
        ValidationError::InvalidName { name: "Sales".to_string() }.message(),
        "Invalid name 'Sales'. Must match '^[a-z0-9_]+$'"
    );
    assert_eq!(
        ValidationError::InvalidTableName { name: "Orders".to_string() }.message(),
        "Invalid table name 'Orders'. Must match '^[a-z0-9_]'"
    );
    assert_eq!(
        ValidationError::InvalidColumnName { name: "Qty".to_string() }.message(),
        "Invalid column name 'Qty'. Must match '^[a-z0-9_]'"
    );
    assert_eq!(
        ValidationError::UnsupportedColumnType { kind: TableColumnType::Complex }.message(),
        "Unsupported column type 'complex'"
    );
    assert_eq!(ValidationError::UnsupportedCondition.message(), "unsupported trigger condition");
}
