use basin::deployment_state_store::{state_key_for, DeploymentInfo, DeploymentState};
use basin::descriptor_store::{
    key_for, key_of, list_descriptors, list_pattern, writes_for, StoreWrites,
};
use basin::fluid::descriptor::database::DatabaseDescriptor;
use basin::fluid::descriptor::table::TableDescriptor;
use basin::fluid::descriptor::{DescriptorKind, IdentifiableDescriptor};
use std::collections::HashMap;

fn sales() -> DatabaseDescriptor {
    DatabaseDescriptor { id: "d1".to_string(), name: "sales".to_string(), summary: "s".to_string() }
}

#[test]
fn descriptor_keys() {
    assert_eq!(key_for("d1", "database"), "descriptor/database/d1");
    assert_eq!(key_for("t1", "table"), "descriptor/table/t1");
    assert_eq!(key_for("f1", "flow"), "descriptor/flow/f1");
    assert_eq!(key_for("", "flow"), "descriptor/flow/");
    assert_eq!(key_of(&sales()), "descriptor/database/d1");
}

#[test]
fn list_patterns() {
    assert_eq!(list_pattern("database"), "descriptor/database/*");
    assert_eq!(list_pattern("table"), "descriptor/table/*");
    assert_eq!(list_pattern("flow"), "descriptor/flow/*");
}

#[test]
fn state_keys() {
    assert_eq!(state_key_for("d1"), "deployment-state/d1");
    assert_eq!(state_key_for(""), "deployment-state/");
}

#[test]
fn get_after_put_reads_the_same_key() {
    let mut store: HashMap<String, String> = HashMap::new();
    let d = sales();
    let document = "{\"id\":\"d1\",\"name\":\"sales\",\"summary\":\"s\"}".to_string();
    store.insert(key_of(&d), document.clone());
    assert_eq!(store.get(&key_for(&d.id(), &d.kind())), Some(&document));
    assert_eq!(store.get(&key_for("d1", "table")), None);
    assert_eq!(store.get(&key_for("d2", "database")), None);
}

#[test]
fn keys_of_different_descriptors_differ() {
    let kinds = [DescriptorKind::Database, DescriptorKind::Table, DescriptorKind::Flow];
    let ids = ["d1", "d2", "", "a/b", "table/x", "x/flow"];
    let mut seen: HashMap<String, (DescriptorKind, &str)> = HashMap::new();
    for kind in kinds {
        for id in ids {
            let key = key_for(id, &kind.name());
            assert_eq!(seen.insert(key, (kind, id)), None);
            assert_ne!(state_key_for(id), key_for(id, &kind.name()));
        }
    }
}

#[test]
fn vanished_documents_are_left_out_of_a_listing() {
    let fetched = vec![
        Some("a".to_string()),
        None,
        Some("b".to_string()),
        None,
        None,
        Some("c".to_string()),
    ];
    assert_eq!(list_descriptors(fetched), vec!["a".to_string(), "b".to_string(), "c".to_string()]);
    assert_eq!(list_descriptors(vec![]), Vec::<String>::new());
    assert_eq!(list_descriptors(vec![None, None]), Vec::<String>::new());
}

#[test]
fn intake_writes_descriptor_and_pending_state() {
    let writes = writes_for(&sales());
    assert_eq!(
        writes,
        StoreWrites {
            descriptor_key: "descriptor/database/d1".to_string(),
            state_key: "deployment-state/d1".to_string(),
            state: DeploymentInfo { state: DeploymentState::Pending, description: None },
        }
    );
    let table = TableDescriptor {
        id: "t1".to_string(),
        name: "orders".to_string(),
        summary: String::new(),
        columns: vec![],
        database: "d1".to_string(),
    };
    let writes = writes_for(&table);
    assert_eq!(writes.descriptor_key, "descriptor/table/t1");
    assert_eq!(writes.state_key, "deployment-state/t1");
}
