//! Interruption of exactly the process that a human means.
use muqun_work::work::model::Attempt;
use muqun_work::work::model::AttemptRole;
use muqun_work::work::model::CreateTask;
use muqun_work::work::model::FailureCode;
use muqun_work::work::model::InterruptInput;
use muqun_work::work::model::InterruptionOutcome;
use muqun_work::work::model::InterruptionReceipt;
use muqun_work::work::model::LaunchPhase;
use muqun_work::work::model::NativeBinding;
use muqun_work::work::model::NewAttempt;
use muqun_work::work::model::Operation;
use muqun_work::work::model::OperationKind;
use muqun_work::work::model::OperationOutcome;
use muqun_work::work::model::OperationState;
use muqun_work::work::model::Task;
use muqun_work::work::model::TaskPolicy;
use muqun_work::work::store::rules::new_operation;
use muqun_work::work::store::summaries::reservation_active;
use muqun_work::work::store::tables::Body;
use muqun_work::work::store::tables::FactKind;
use muqun_work::work::store::tables::ReservedFact;
use muqun_work::work::store::tables::WorkStore;

fn fixture(store: &mut WorkStore) -> (Task, Attempt) {
    let task = store
        .create_task(
            "device",
            "s",
            "task",
            CreateTask {
                repo_path: "/repo".into(),
                title: "Task".into(),
                brief: "Brief".into(),
                parent_task_id: None,
                policy: TaskPolicy {
                    allowed_agents: vec!["codex".into()],
                    max_workers: 0,
                },
            },
            1,
        )
        .unwrap()
        .value;
    let op = store
        .prepare_attempt(
            "device",
            "s",
            &task.id,
            "start",
            task.revision,
            NewAttempt {
                agent_kind: "codex".into(),
                role: AttemptRole::Lead,
            },
            "digest",
            2,
        )
        .unwrap()
        .value;
    let mut attempt = store.load::<Attempt>("s", op.attempt_id.as_deref().unwrap()).unwrap();
    attempt.binding.instance_id = Some("launch".into());
    attempt.lifecycle.native_owner_epoch = Some("owner".into());
    attempt.lifecycle.launch_phase = LaunchPhase::LaunchConfirmed;
    store.put("s", &attempt.id, &task.id, Body::Attempt(attempt.clone()))
    .unwrap();
    let mut start = op;
    start.state = OperationState::Acknowledged;
    store.put("s", &start.id, &task.id, Body::Operation(start.clone()))
    .unwrap();
    (task, attempt)
}

fn input(store: &WorkStore, task: &Task, key: &str) -> InterruptInput {
    InterruptInput {
        request_key: key.into(),
        expected_revision: store.load::<Task>("s", &task.id)
            .unwrap()
            .revision,
        expected_instance_id: "launch".into(),
        expected_native_owner_epoch: "owner".into(),
    }
}

fn receipt(op: &Operation) -> InterruptionReceipt {
    InterruptionReceipt {
        operation_id: op.id.clone(),
        launch_id: "launch".into(),
        owner_epoch: "owner".into(),
        receipt_id: "receipt".into(),
        key: "Escape".into(),
        bytes_written: 1,
        input_disposition: "written".into(),
    }
}

#[test]
fn interruption_coexists_with_uncertain_prompt_but_has_cross_device_single_flight() {
    let mut store = WorkStore::in_memory().unwrap();
    let (task, attempt) = fixture(&mut store);
    let mut prompt = new_operation(
        &fresh(),
        &task.id,
        Some(attempt.id.clone()),
        OperationKind::DeliverPrompt,
        3,
    );
    prompt.state = OperationState::Unconfirmed;
    store.put("s", &prompt.id, &task.id, Body::Operation(prompt.clone()))
    .unwrap();
    let request = input(&store, &task, "interrupt");
    let op = store
        .prepare_interrupt("device", "s", &task.id, &attempt.id, request.clone(), 4)
        .unwrap()
        .value;
    let second = input(&store, &task, "second");
    assert_eq!(
        store
            .prepare_interrupt("other", "s", &task.id, &attempt.id, second, 5)
            .unwrap_err()
            .0,
        FailureCode::NotReady
    );
    store.begin_operation("s", &op.id, 6).unwrap();
    assert!(store
        .finalize_operation(
            "s",
            &op.id,
            OperationOutcome {
                state: OperationState::Acknowledged,
                resources: NativeBinding::default(),
                failure_code: None
            },
            7
        )
        .is_err());
    let done = store
        .finalize_interrupt(
            "s",
            &op.id,
            InterruptionOutcome::Acknowledged(receipt(&op)),
            8,
        )
        .unwrap();
    assert_eq!(done.state, OperationState::Acknowledged);
    let replay = store
        .replay_interrupt("device", "s", &task.id, &attempt.id, &request)
        .unwrap()
        .unwrap();
    assert!(replay.replayed);
    assert_eq!(replay.value.interruption_receipt, done.interruption_receipt);
    let mut changed = request;
    changed.expected_native_owner_epoch = "replacement".into();
    assert_eq!(
        store
            .replay_interrupt("device", "s", &task.id, &attempt.id, &changed)
            .unwrap_err()
            .0,
        FailureCode::RequestKeyConflict
    );
    assert_eq!(
        store.get_operation("s", &prompt.id).unwrap().state,
        OperationState::Unconfirmed
    );
    let detail = store.detail("s", &task.id).unwrap();
    assert!(reservation_active(&detail.attempts[0]));
    assert!(detail.results.is_empty());
    let next = input(&store, &task, "next");
    assert!(store
        .prepare_interrupt("other", "s", &task.id, &attempt.id, next, 9)
        .is_ok());
}

#[test]
fn interruption_rejects_wrong_binding_and_preserves_uncertainty_across_restart() {
    let mut store = WorkStore::in_memory().unwrap();
    let (task, attempt) = fixture(&mut store);
    let mut wrong = input(&store, &task, "bad");
    wrong.expected_native_owner_epoch = "old".into();
    assert_eq!(
        store
            .prepare_interrupt("device", "s", &task.id, &attempt.id, wrong, 3)
            .unwrap_err()
            .0,
        FailureCode::InstanceChanged
    );
    let request = input(&store, &task, "valid");
    let op = store
        .prepare_interrupt("device", "s", &task.id, &attempt.id, request.clone(), 4)
        .unwrap()
        .value;
    store.begin_operation("s", &op.id, 5).unwrap();
    let mut store = WorkStore::initialize(store).unwrap();
    assert_eq!(
        store.get_operation("s", &op.id).unwrap().state,
        OperationState::Unconfirmed
    );
    assert!(
        store
            .replay_interrupt("device", "s", &task.id, &attempt.id, &request)
            .unwrap()
            .unwrap()
            .replayed
    );
    let next = input(&store, &task, "next");
    assert_eq!(
        store
            .prepare_interrupt("other", "s", &task.id, &attempt.id, next, 6)
            .unwrap_err()
            .0,
        FailureCode::NotReady
    );
    assert_eq!(
        store
            .get_receipt("other", "s", OperationKind::InterruptAttempt, "valid")
            .unwrap_err()
            .0,
        FailureCode::NotFound
    );
}

#[test]
fn interruption_terminal_receipt_uses_reserved_capacity_and_malformed_ack_is_unknown() {
    for malformed in [false, true] {
        let mut store = WorkStore::in_memory().unwrap();
        let (task, attempt) = fixture(&mut store);
        let request = input(&store, &task, "interrupt");
        let op = store
            .prepare_interrupt("device", "s", &task.id, &attempt.id, request, 4)
            .unwrap()
            .value;
        store.begin_operation("s", &op.id, 5).unwrap();
        let count = filed(&store, &task.id);
        for _ in count..1024 {
            store.put("s", &fresh(), &task.id, padding())
            .unwrap();
        }
        let mut proof = receipt(&op);
        if malformed {
            proof.bytes_written = 2;
        }
        let done = store
            .finalize_interrupt("s", &op.id, InterruptionOutcome::Acknowledged(proof), 6)
            .unwrap();
        assert_eq!(
            done.state,
            if malformed {
                OperationState::Unconfirmed
            } else {
                OperationState::Acknowledged
            }
        );
        assert_eq!(done.interruption_receipt.is_some(), !malformed);
        assert!(reservation_active(
            &store.detail("s", &task.id).unwrap().attempts[0]
        ));
        assert_eq!(
            store.put("s", &fresh(), &task.id, padding())
            .unwrap_err()
            .0,
            FailureCode::ResourceLimit
        );
    }
}

#[test]
fn interruption_admission_is_scoped_quota_atomic_and_blocks_new_prompt() {
    let mut store = WorkStore::in_memory().unwrap();
    let (task, attempt) = fixture(&mut store);
    let request = input(&store, &task, "key");
    assert!(store
        .prepare_interrupt(
            "device",
            "foreign",
            &task.id,
            &attempt.id,
            request.clone(),
            3
        )
        .is_err());
    let mut stale = request.clone();
    stale.expected_revision = 0;
    assert_eq!(
        store
            .prepare_interrupt("device", "s", &task.id, &attempt.id, stale, 3)
            .unwrap_err()
            .0,
        FailureCode::RevisionConflict
    );
    // Leave only one row: an operation plus terminal fact must be rejected atomically.
    let count = filed(&store, &task.id);
    for _ in count..1023 {
        store.put("s", &fresh(), &task.id, padding())
        .unwrap();
    }
    assert_eq!(
        store
            .prepare_interrupt("device", "s", &task.id, &attempt.id, request.clone(), 3)
            .unwrap_err()
            .0,
        FailureCode::ResourceLimit
    );
    assert!(store
        .replay_interrupt("device", "s", &task.id, &attempt.id, &request)
        .unwrap()
        .is_none());
    store.records.retain(|r| r.body != padding());
    let op = store
        .prepare_interrupt("device", "s", &task.id, &attempt.id, request, 4)
        .unwrap()
        .value;
    let revision = input(&store, &task, "unused").expected_revision;
    assert_eq!(
        store
            .prepare_delivery(
                "device",
                "s",
                &task.id,
                &attempt.id,
                "prompt",
                revision,
                "launch",
                "hello",
                5
            )
            .unwrap_err()
            .0,
        FailureCode::NotReady
    );
    // A lifecycle change between preparation and dispatch prevents the effect.
    let mut replaced = attempt;
    replaced.lifecycle.native_owner_epoch = Some("replacement".into());
    store.put("s", &replaced.id, &task.id, Body::Attempt(replaced.clone()))
    .unwrap();
    assert_eq!(
        store.begin_operation("s", &op.id, 6).unwrap_err().0,
        FailureCode::InstanceChanged
    );
    assert_eq!(
        store.get_operation("s", &op.id).unwrap().state,
        OperationState::Prepared
    );
}

fn fresh() -> String {
    uuid::Uuid::new_v4().to_string()
}

fn filed(store: &WorkStore, task: &str) -> usize {
    store.records.iter().filter(|r| r.task_id == task).count()
}

fn padding() -> Body {
    Body::Reserved(ReservedFact {
        purpose: FactKind::Interruption,
        operation_id: "padding".into(),
    })
}
