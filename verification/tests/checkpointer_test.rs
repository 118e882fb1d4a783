use teleflow_core::domain::counter::{AdvanceEvent, CounterState, CounterWorkflow};
use teleflow_core::domain::workflow::{WorkflowBehavior, WorkflowRecord, WorkflowStatus};
use teleflow_core::infrastructure::checkpointer::{
    Checkpointer, CheckpointerError, NewWorkflowInstance, WorkflowRow, row_to_record,
};

/// A tiny in-memory stand-in for the workflow-instance table, applied the
/// way the runtime applies the checkpointer's plans: read the row, let the
/// checkpointer decide, write what the plan says, then commit the cache.
struct TestStore {
    rows: Vec<WorkflowRecord>,
}

impl TestStore {
    fn new() -> Self {
        TestStore { rows: Vec::new() }
    }

    fn get(&self, id: &str) -> Option<&WorkflowRecord> {
        self.rows.iter().find(|r| r.id == id)
    }

    fn insert_if_absent(&mut self, record: WorkflowRecord) -> bool {
        if self.get(&record.id).is_some() {
            return false;
        }
        self.rows.push(record);
        true
    }

    fn update(&mut self, id: &str, state: String, status: WorkflowStatus) {
        let row = self.rows.iter_mut().find(|r| r.id == id).expect("row must exist");
        row.state = state;
        row.status = status;
    }
}

fn bootstrap(
    store: &mut TestStore,
    cp: &mut Checkpointer<CounterWorkflow>,
    params: NewWorkflowInstance<CounterState>,
) {
    let state_text = Checkpointer::<CounterWorkflow>::encode_initial_state(&params);
    let inserted = store.insert_if_absent(WorkflowRecord {
        id: params.id.clone(),
        account_id: params.account_id.clone(),
        flow_definition_id: params.flow_definition_id.clone(),
        state: state_text,
        status: params.status,
        created_at: 0,
        updated_at: 0,
    });
    cp.bootstrap_instance(params, inserted);
}

fn process_event(
    store: &mut TestStore,
    cp: &mut Checkpointer<CounterWorkflow>,
    id: &str,
) -> Result<usize, CheckpointerError> {
    let id_string = id.to_string();
    let row = store.get(id).cloned();
    let plan = cp.plan_event(&id_string, row.as_ref(), &AdvanceEvent)?;
    store.update(id, plan.state_text.clone(), plan.status);
    let actions = cp.commit_event(&id_string, plan);
    Ok(actions.len())
}

fn new_instance(id: &str, step: u64) -> NewWorkflowInstance<CounterState> {
    NewWorkflowInstance {
        id: id.to_string(),
        account_id: "account-1".to_string(),
        flow_definition_id: "flow-basic".to_string(),
        state: CounterState { step },
        status: WorkflowStatus::Running,
    }
}

#[test]
fn highlander_test() {
    let mut store = TestStore::new();
    let mut cp = Checkpointer::<CounterWorkflow>::new();

    bootstrap(&mut store, &mut cp, new_instance("wf-highlander", 1));
    let actions = process_event(&mut store, &mut cp, "wf-highlander").unwrap();
    assert_eq!(actions, 1);

    drop(cp);

    // A fresh checkpointer has no cache; the state resolves from the store.
    let mut resurrected = Checkpointer::<CounterWorkflow>::new();
    let record = store.get("wf-highlander").cloned().expect("record must exist");
    let persisted = CounterWorkflow::decode_state(&record.state).expect("state must decode");
    assert_eq!(persisted, CounterState { step: 2 });
    let plan = resurrected
        .plan_event(&"wf-highlander".to_string(), Some(&record), &AdvanceEvent)
        .unwrap();
    assert_eq!(plan.next_state, CounterState { step: 3 });
}

#[test]
fn bootstrap_is_idempotent() {
    let mut store = TestStore::new();
    let mut cp = Checkpointer::<CounterWorkflow>::new();

    bootstrap(&mut store, &mut cp, new_instance("wf-1", 1));
    // The duplicate asks for a different state; the first call's row wins.
    bootstrap(&mut store, &mut cp, new_instance("wf-1", 9));

    let record = store.get("wf-1").unwrap();
    assert_eq!(record.state, "1");
    assert_eq!(record.status, WorkflowStatus::Running);
    assert_eq!(store.rows.len(), 1);

    // The cache kept the first state too: the next event advances 1 -> 2.
    let actions = process_event(&mut store, &mut cp, "wf-1").unwrap();
    assert_eq!(actions, 1);
    assert_eq!(store.get("wf-1").unwrap().state, "2");
}

#[test]
fn event_on_unbootstrapped_id_is_not_found() {
    let mut store = TestStore::new();
    let mut cp = Checkpointer::<CounterWorkflow>::new();
    let err = process_event(&mut store, &mut cp, "wf-missing").unwrap_err();
    match err {
        CheckpointerError::NotFound(id) => assert_eq!(id, "wf-missing"),
        other => panic!("expected NotFound, got {:?}", other),
    }
    // No row came into being.
    assert!(store.get("wf-missing").is_none());
    assert_eq!(store.rows.len(), 0);
}

#[test]
fn two_events_lose_no_update() {
    let mut store = TestStore::new();
    let mut cp = Checkpointer::<CounterWorkflow>::new();
    bootstrap(&mut store, &mut cp, new_instance("wf-steps", 1));

    process_event(&mut store, &mut cp, "wf-steps").unwrap();
    process_event(&mut store, &mut cp, "wf-steps").unwrap();

    let record = store.get("wf-steps").unwrap();
    assert_eq!(record.state, "3", "two increments from 1 must persist 3, never 2");
    assert_eq!(CounterWorkflow::decode_state(&record.state), Some(CounterState { step: 3 }));
}

#[test]
fn cache_miss_resolves_from_store() {
    let mut store = TestStore::new();
    let mut cp = Checkpointer::<CounterWorkflow>::new();
    bootstrap(&mut store, &mut cp, new_instance("wf-cold", 41));
    cp.clear_cache();
    process_event(&mut store, &mut cp, "wf-cold").unwrap();
    assert_eq!(store.get("wf-cold").unwrap().state, "42");
}

#[test]
fn undecodable_state_is_serialization_error() {
    let mut store = TestStore::new();
    let mut cp = Checkpointer::<CounterWorkflow>::new();
    store.insert_if_absent(WorkflowRecord {
        id: "wf-bad".to_string(),
        account_id: "account-1".to_string(),
        flow_definition_id: "flow-basic".to_string(),
        state: "not-a-number".to_string(),
        status: WorkflowStatus::Running,
        created_at: 0,
        updated_at: 0,
    });
    let err = process_event(&mut store, &mut cp, "wf-bad").unwrap_err();
    match err {
        CheckpointerError::Serialization(text) => assert_eq!(text, "not-a-number"),
        other => panic!("expected Serialization, got {:?}", other),
    }
    // The bad row is untouched.
    assert_eq!(store.get("wf-bad").unwrap().state, "not-a-number");
}

#[test]
fn status_text_round_trips() {
    let all = [
        (WorkflowStatus::Running, "RUNNING"),
        (WorkflowStatus::Paused, "PAUSED"),
        (WorkflowStatus::Failed, "FAILED"),
        (WorkflowStatus::Completed, "COMPLETED"),
    ];
    for (status, text) in all {
        assert_eq!(status.as_str(), text);
        assert_eq!(WorkflowStatus::from_str(text), Some(status));
    }
    // Only the exact four texts are valid: other casings are fatal on read.
    assert_eq!(WorkflowStatus::from_str("running"), None);
    assert_eq!(WorkflowStatus::from_str("Completed"), None);
    assert_eq!(WorkflowStatus::from_str("LIMBO"), None);
    assert_eq!(WorkflowStatus::from_str(""), None);
    assert_eq!(WorkflowStatus::default(), WorkflowStatus::Running);
}

#[test]
fn row_validation_rejects_unknown_status() {
    let row = WorkflowRow {
        id: "wf-x".to_string(),
        account_id: "account-1".to_string(),
        flow_definition_id: "flow-basic".to_string(),
        state: "7".to_string(),
        status: "LIMBO".to_string(),
        created_at: 3,
        updated_at: 4,
    };
    match row_to_record(row) {
        Err(CheckpointerError::InvalidStatus(text)) => assert_eq!(text, "LIMBO"),
        other => panic!("expected InvalidStatus, got {:?}", other),
    }

    // A stored status in the wrong casing is outside the known set too.
    let row = WorkflowRow {
        id: "wf-x".to_string(),
        account_id: "account-1".to_string(),
        flow_definition_id: "flow-basic".to_string(),
        state: "7".to_string(),
        status: "paused".to_string(),
        created_at: 3,
        updated_at: 4,
    };
    match row_to_record(row) {
        Err(CheckpointerError::InvalidStatus(text)) => assert_eq!(text, "paused"),
        other => panic!("expected InvalidStatus, got {:?}", other),
    }

    let row = WorkflowRow {
        id: "wf-x".to_string(),
        account_id: "account-1".to_string(),
        flow_definition_id: "flow-basic".to_string(),
        state: "7".to_string(),
        status: "PAUSED".to_string(),
        created_at: 3,
        updated_at: 4,
    };
    let record = row_to_record(row).unwrap();
    assert_eq!(record.status, WorkflowStatus::Paused);
    assert_eq!(record.state, "7");
    assert_eq!(record.id, "wf-x");
    assert_eq!(record.created_at, 3);
    assert_eq!(record.updated_at, 4);
}

#[test]
fn counter_codec_round_trips() {
    for step in [0u64, 1, 9, 10, 41, 99, 1000, u64::MAX] {
        let text = CounterWorkflow::encode_state(&CounterState { step });
        assert_eq!(CounterWorkflow::decode_state(&text), Some(CounterState { step }));
    }
    assert_eq!(CounterWorkflow::encode_state(&CounterState { step: 42 }), "42");
    assert_eq!(CounterWorkflow::encode_state(&CounterState { step: 0 }), "0");
    assert_eq!(
        CounterWorkflow::decode_state("18446744073709551615"),
        Some(CounterState { step: u64::MAX })
    );
    assert_eq!(CounterWorkflow::decode_state("18446744073709551616"), None);
    assert_eq!(CounterWorkflow::decode_state(""), None);
    assert_eq!(CounterWorkflow::decode_state("12a"), None);
}

#[test]
fn counter_transition_emits_log_action() {
    let t = CounterWorkflow::compute_next(&CounterState { step: 6 }, &AdvanceEvent);
    assert_eq!(t.next_state, CounterState { step: 7 });
    assert_eq!(t.status, WorkflowStatus::Running);
    assert_eq!(t.actions.len(), 1);
    assert_eq!(t.actions[0].kind, "log");
    assert_eq!(t.actions[0].payload, "7");
}
