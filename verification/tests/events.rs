use basin::descriptor_event_watcher::{
    Deletion, DescriptorEvent, DescriptorEventWatcher, DescriptorLoad, EnvelopedEvent,
    IngestPlan, MessageBody, QueueMessage,
};
use basin::deployment_state_store::{DeploymentInfo, DeploymentState};
use basin::fluid::descriptor::database::DatabaseDescriptor;
use basin::fluid::descriptor::DescriptorKind;

fn event(kind: &str, uri: &str) -> MessageBody {
    MessageBody::Event(EnvelopedEvent {
        event_id: "e1".to_string(),
        event_type: "descriptor".to_string(),
        payload: DescriptorEvent {
            event_type: "created".to_string(),
            descriptor_uri: uri.to_string(),
            kind: kind.to_string(),
            revision: 1,
        },
        resource: None,
        time: None,
    })
}

fn message(handle: Option<&str>, id: Option<&str>, body: MessageBody) -> QueueMessage {
    QueueMessage {
        receipt_handle: handle.map(|h| h.to_string()),
        message_id: id.map(|i| i.to_string()),
        body,
    }
}

fn load(kind: DescriptorKind, uri: &str) -> DescriptorLoad {
    DescriptorLoad { kind, descriptor_uri: uri.to_string() }
}

fn deletion(id: &str, handle: &str) -> Deletion {
    Deletion { id: id.to_string(), receipt_handle: handle.to_string() }
}

#[test]
fn event_ingestion() {
    let watcher = DescriptorEventWatcher::new();
    let messages = vec![message(Some("rh-1"), Some("m-1"), event("database", "http://x/y"))];
    let plan = watcher.ingest_set(&messages);
    assert_eq!(
        plan,
        IngestPlan {
            loads: vec![load(DescriptorKind::Database, "http://x/y")],
            unsupported: vec![],
            malformed: vec![],
        }
    );
    let fetched = DatabaseDescriptor {
        id: "d1".to_string(),
        name: "sales".to_string(),
        summary: "s".to_string(),
    };
    let writes = watcher.load_upstream_descriptor(&fetched);
    assert_eq!(writes.descriptor_key, "descriptor/database/d1");
    assert_eq!(writes.state_key, "deployment-state/d1");
    assert_eq!(writes.state, DeploymentInfo { state: DeploymentState::Pending, description: None });
    assert_eq!(watcher.deletions_after(&messages, &vec![true]), vec![deletion("m-1", "rh-1")]);
}

#[test]
fn empty_batch_asks_for_nothing() {
    let watcher = DescriptorEventWatcher::new();
    let plan = watcher.ingest_set(&vec![]);
    assert_eq!(plan, IngestPlan { loads: vec![], unsupported: vec![], malformed: vec![] });
    assert_eq!(watcher.deletions_after(&vec![], &vec![]), vec![]);
    assert_eq!(watcher.deletions_after(&vec![], &vec![true, false]), vec![]);
}

#[test]
fn each_known_kind_is_loaded_in_order() {
    let watcher = DescriptorEventWatcher::new();
    let messages = vec![
        message(Some("rh-0"), Some("m-0"), event("table", "http://x/t")),
        message(Some("rh-1"), Some("m-1"), event("flow", "http://x/f")),
        message(Some("rh-2"), Some("m-2"), event("database", "http://x/d")),
    ];
    let plan = watcher.ingest_set(&messages);
    assert_eq!(
        plan.loads,
        vec![
            load(DescriptorKind::Table, "http://x/t"),
            load(DescriptorKind::Flow, "http://x/f"),
            load(DescriptorKind::Database, "http://x/d"),
        ]
    );
    assert_eq!(plan.malformed, Vec::<String>::new());
    assert_eq!(
        watcher.deletions_after(&messages, &vec![true, true, true]),
        vec![deletion("m-0", "rh-0"), deletion("m-1", "rh-1"), deletion("m-2", "rh-2")]
    );
}

#[test]
fn unknown_kind_is_skipped_and_still_deleted() {
    let watcher = DescriptorEventWatcher::new();
    let messages = vec![
        message(Some("rh-0"), Some("m-0"), event("view", "http://x/v")),
        message(Some("rh-1"), Some("m-1"), event("database", "http://x/d")),
        message(Some("rh-2"), Some("m-2"), event("Database", "http://x/e")),
    ];
    let plan = watcher.ingest_set(&messages);
    assert_eq!(plan.loads, vec![load(DescriptorKind::Database, "http://x/d")]);
    assert_eq!(plan.unsupported, vec!["view".to_string(), "Database".to_string()]);
    assert_eq!(
        watcher.deletions_after(&messages, &vec![true]),
        vec![deletion("m-0", "rh-0"), deletion("m-1", "rh-1"), deletion("m-2", "rh-2")]
    );
    assert_eq!(
        watcher.deletions_after(&messages, &vec![false]),
        vec![deletion("m-0", "rh-0"), deletion("m-2", "rh-2")]
    );
}

#[test]
fn message_without_body_is_deleted_and_not_loaded() {
    let watcher = DescriptorEventWatcher::new();
    let messages = vec![message(Some("rh-0"), Some("m-0"), MessageBody::Absent)];
    let plan = watcher.ingest_set(&messages);
    assert_eq!(plan.loads, vec![]);
    assert_eq!(watcher.deletions_after(&messages, &vec![]), vec![deletion("m-0", "rh-0")]);
}

#[test]
fn message_without_receipt_handle_is_loaded_and_not_deleted() {
    let watcher = DescriptorEventWatcher::new();
    let messages = vec![message(None, Some("m-0"), event("flow", "http://x/f"))];
    let plan = watcher.ingest_set(&messages);
    assert_eq!(plan.loads, vec![load(DescriptorKind::Flow, "http://x/f")]);
    assert_eq!(watcher.deletions_after(&messages, &vec![true]), vec![]);
}

#[test]
fn message_without_id_is_deleted_under_its_index() {
    let mut messages: Vec<QueueMessage> = (0..12)
        .map(|i| {
            message(Some(&format!("rh-{}", i)), Some(&format!("m-{}", i)), MessageBody::Absent)
        })
        .collect();
    messages[0].message_id = None;
    messages[3].message_id = None;
    messages[11].message_id = None;
    messages[5].receipt_handle = None;
    let deletions = DescriptorEventWatcher::new().deletions_after(&messages, &vec![]);
    assert_eq!(deletions.len(), 11);
    assert_eq!(deletions[0], deletion("0", "rh-0"));
    assert_eq!(deletions[1], deletion("m-1", "rh-1"));
    assert_eq!(deletions[3], deletion("3", "rh-3"));
    assert_eq!(deletions[5], deletion("m-6", "rh-6"));
    assert_eq!(deletions[10], deletion("11", "rh-11"));
}

#[test]
fn malformed_body_keeps_only_its_own_message() {
    let watcher = DescriptorEventWatcher::new();
    let messages = vec![
        message(Some("rh-0"), Some("m-0"), event("database", "http://x/d")),
        message(Some("rh-1"), Some("m-1"), MessageBody::Malformed("expected value".to_string())),
        message(Some("rh-2"), Some("m-2"), event("flow", "http://x/f")),
    ];
    let plan = watcher.ingest_set(&messages);
    assert_eq!(
        plan,
        IngestPlan {
            loads: vec![
                load(DescriptorKind::Database, "http://x/d"),
                load(DescriptorKind::Flow, "http://x/f"),
            ],
            unsupported: vec![],
            malformed: vec!["expected value".to_string()],
        }
    );
    assert_eq!(
        watcher.deletions_after(&messages, &vec![true, true]),
        vec![deletion("m-0", "rh-0"), deletion("m-2", "rh-2")]
    );
}

#[test]
fn every_malformed_body_is_reported() {
    let watcher = DescriptorEventWatcher::new();
    let messages = vec![
        message(Some("rh-0"), None, MessageBody::Malformed("first".to_string())),
        message(Some("rh-1"), None, MessageBody::Malformed("second".to_string())),
    ];
    let plan = watcher.ingest_set(&messages);
    assert_eq!(plan.malformed, vec!["first".to_string(), "second".to_string()]);
    assert_eq!(plan.loads, vec![]);
    assert_eq!(watcher.deletions_after(&messages, &vec![]), vec![]);
}

#[test]
fn failed_load_keeps_only_its_own_message() {
    let watcher = DescriptorEventWatcher::new();
    let messages = vec![
        message(Some("rh-0"), Some("m-0"), event("database", "http://x/d")),
        message(Some("rh-1"), Some("m-1"), event("table", "http://x/t")),
        message(Some("rh-2"), Some("m-2"), MessageBody::Absent),
        message(Some("rh-3"), Some("m-3"), event("flow", "http://x/f")),
    ];
    assert_eq!(
        watcher.deletions_after(&messages, &vec![true, false, true]),
        vec![deletion("m-0", "rh-0"), deletion("m-2", "rh-2"), deletion("m-3", "rh-3")]
    );
    assert_eq!(
        watcher.deletions_after(&messages, &vec![false, true, false]),
        vec![deletion("m-1", "rh-1"), deletion("m-2", "rh-2")]
    );
    assert_eq!(
        watcher.deletions_after(&messages, &vec![false, false, false]),
        vec![deletion("m-2", "rh-2")]
    );
}

#[test]
fn load_without_a_note_did_not_go_through() {
    let watcher = DescriptorEventWatcher::new();
    let messages = vec![
        message(Some("rh-0"), Some("m-0"), event("database", "http://x/d")),
        message(Some("rh-1"), Some("m-1"), event("table", "http://x/t")),
    ];
    assert_eq!(watcher.deletions_after(&messages, &vec![true]), vec![deletion("m-0", "rh-0")]);
    assert_eq!(watcher.deletions_after(&messages, &vec![]), vec![]);
    assert_eq!(
        watcher.deletions_after(&messages, &vec![true, true, true]),
        vec![deletion("m-0", "rh-0"), deletion("m-1", "rh-1")]
    );
}

#[test]
fn revision_is_not_looked_at() {
    let mut old = event("database", "http://x/d");
    if let MessageBody::Event(e) = &mut old {
        e.payload.revision = 0;
    }
    let new = event("database", "http://x/d");
    let watcher = DescriptorEventWatcher::new();
    let a = watcher.ingest_set(&vec![message(Some("rh"), Some("m"), old)]);
    let b = watcher.ingest_set(&vec![message(Some("rh"), Some("m"), new)]);
    assert_eq!(a, b);
}

#[test]
fn intervals_of_the_reflector() {
    assert_eq!(basin::descriptor_event_watcher::INGEST_INTERVAL_MILLIS, 30000);
    assert_eq!(basin::descriptor_event_watcher::VISIBILITY_TIMEOUT_SECONDS, 10);
}
