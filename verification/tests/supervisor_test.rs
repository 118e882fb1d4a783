use teleflow_core::actors::account::{AccountActor, WorkerStep};
use teleflow_core::actors::messages::{AccountMessage, SupervisorMessage};
use teleflow_core::actors::supervisor::{
    SupervisionNotice, SupervisorEffect, SupervisorState, SystemSupervisor,
};

fn spawn(state: &mut SupervisorState, id: &str, handle: u64) -> u64 {
    let effect = SystemSupervisor::handle(
        state,
        SupervisorMessage::SpawnAccount { id: id.to_string() },
    );
    let generation = match effect {
        SupervisorEffect::StartWorker { id: eid, generation } => {
            assert_eq!(eid, id);
            generation
        }
        other => panic!("spawn produced {:?}", other),
    };
    state.complete_spawn(&id.to_string(), handle);
    generation
}

fn get_generation(state: &mut SupervisorState, id: &str) -> Option<u64> {
    match SystemSupervisor::handle(
        state,
        SupervisorMessage::GetGeneration { id: id.to_string() },
    ) {
        SupervisorEffect::Generation { value } => value,
        other => panic!("query produced {:?}", other),
    }
}

#[test]
fn phoenix_test() {
    let mut state = SupervisorState::new();
    let account_id = "account-phoenix";

    let generation = spawn(&mut state, account_id, 100);
    assert_eq!(generation, 1);
    assert_eq!(
        get_generation(&mut state, account_id),
        Some(1),
        "First spawn should register generation 1"
    );

    // A Kill command faults the worker rather than being handled gracefully.
    let step = AccountActor::handle(AccountMessage::Kill);
    assert!(matches!(step, WorkerStep::Fault));

    // The supervisor observes the crash and directs exactly one respawn.
    let respawn = SystemSupervisor::handle_supervisor_evt(
        &mut state,
        SupervisionNotice::ActorFailed { handle: 100 },
    );
    match respawn {
        Some(SupervisorEffect::StartWorker { id, generation }) => {
            assert_eq!(id, account_id);
            assert_eq!(generation, 2);
            state.complete_spawn(&id, 300);
        }
        other => panic!("failure notice produced {:?}", other),
    }
    assert_eq!(
        get_generation(&mut state, account_id),
        Some(2),
        "Supervisor must resurrect the fallen lord"
    );
}

#[test]
fn generation_absent_for_never_spawned() {
    let mut state = SupervisorState::new();
    assert_eq!(get_generation(&mut state, "account-ghost"), None);
    spawn(&mut state, "account-other", 7);
    assert_eq!(get_generation(&mut state, "account-ghost"), None);
}

#[test]
fn generation_counts_spawns() {
    let mut state = SupervisorState::new();
    let id = "account-cat";
    let mut handle = 10u64;
    assert_eq!(spawn(&mut state, id, handle), 1);
    for expected in 2..=5u64 {
        let notice = SupervisionNotice::ActorTerminated { handle };
        handle += 1;
        match SystemSupervisor::handle_supervisor_evt(&mut state, notice) {
            Some(SupervisorEffect::StartWorker { id: eid, generation }) => {
                assert_eq!(eid, id);
                assert_eq!(generation, expected);
                state.complete_spawn(&eid, handle);
            }
            other => panic!("notice produced {:?}", other),
        }
    }
    assert_eq!(get_generation(&mut state, id), Some(5));
}

#[test]
fn dispatch_to_unknown_is_dropped() {
    let mut state = SupervisorState::new();
    let effect = SystemSupervisor::handle(
        &mut state,
        SupervisorMessage::Dispatch {
            id: "account-nobody".to_string(),
            message: AccountMessage::Heartbeat,
        },
    );
    match effect {
        SupervisorEffect::DropDispatch { id } => assert_eq!(id, "account-nobody"),
        other => panic!("dispatch produced {:?}", other),
    }
    // Dropping the dispatch created no worker and no generation entry.
    assert_eq!(get_generation(&mut state, "account-nobody"), None);
    assert!(state.live_handle("account-nobody").is_none());
}

#[test]
fn dispatch_routes_to_own_worker() {
    let mut state = SupervisorState::new();
    spawn(&mut state, "account-a", 11);
    spawn(&mut state, "account-b", 22);
    let effect = SystemSupervisor::handle(
        &mut state,
        SupervisorMessage::Dispatch {
            id: "account-b".to_string(),
            message: AccountMessage::Start { flow_id: "flow-1".to_string() },
        },
    );
    match effect {
        SupervisorEffect::Forward { handle, message } => {
            assert_eq!(handle, 22);
            assert!(matches!(message, AccountMessage::Start { .. }));
        }
        other => panic!("dispatch produced {:?}", other),
    }
}

#[test]
fn unknown_handle_notice_changes_nothing() {
    let mut state = SupervisorState::new();
    spawn(&mut state, "account-a", 11);
    let r = SystemSupervisor::handle_supervisor_evt(
        &mut state,
        SupervisionNotice::ActorFailed { handle: 999 },
    );
    assert!(r.is_none());
    assert_eq!(get_generation(&mut state, "account-a"), Some(1));
    assert_eq!(state.live_handle("account-a"), Some(11));
}

#[test]
fn test_scalability() {
    let mut state = SupervisorState::new();
    for i in 0..50u64 {
        let id = format!("account-{}", i);
        let generation = spawn(&mut state, &id, 100 + i);
        assert_eq!(generation, 1);
    }
    // All fifty report generation 1 and each dispatch reaches its own
    // worker, never a neighbour's.
    for i in 0..50u64 {
        let id = format!("account-{}", i);
        assert_eq!(get_generation(&mut state, &id), Some(1));
        let effect = SystemSupervisor::handle(
            &mut state,
            SupervisorMessage::Dispatch { id, message: AccountMessage::Heartbeat },
        );
        match effect {
            SupervisorEffect::Forward { handle, .. } => assert_eq!(handle, 100 + i),
            other => panic!("dispatch produced {:?}", other),
        }
    }
}

#[test]
fn worker_steps_follow_messages() {
    let step = AccountActor::handle(AccountMessage::Start { flow_id: "flow-9".to_string() });
    match step {
        WorkerStep::LogStart { flow_id } => assert_eq!(flow_id, "flow-9"),
        other => panic!("start produced {:?}", other),
    }
    assert!(matches!(AccountActor::handle(AccountMessage::Stop), WorkerStep::LogStop));
    assert!(matches!(
        AccountActor::handle(AccountMessage::Heartbeat),
        WorkerStep::LogHeartbeat
    ));
    let step = AccountActor::handle(AccountMessage::Signal {
        source: "Fiber".to_string(),
        payload: vec![1, 2, 3],
    });
    match step {
        WorkerStep::LogSignal { source, bytes } => {
            assert_eq!(source, "Fiber");
            assert_eq!(bytes, 3);
        }
        other => panic!("signal produced {:?}", other),
    }
}
