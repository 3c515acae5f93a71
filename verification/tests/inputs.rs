//! Uploaded inputs: who may use them, and what a repeated request gets.
use muqun_work::work::model::AttemptRole;
use muqun_work::work::model::CreateTask;
use muqun_work::work::model::FailureCode;
use muqun_work::work::model::InputReceipt;
use muqun_work::work::model::InputRef;
use muqun_work::work::model::InputUpload;
use muqun_work::work::model::InputUse;
use muqun_work::work::model::NativeBinding;
use muqun_work::work::model::NewAttempt;
use muqun_work::work::model::Operation;
use muqun_work::work::model::OperationKind;
use muqun_work::work::model::OperationOutcome;
use muqun_work::work::model::OperationState;
use muqun_work::work::model::TaskPolicy;
use muqun_work::work::store::inputs::INPUT_TTL_MS;
use muqun_work::work::store::inputs::delivery_request_digest;
use muqun_work::work::store::inputs::validate_refs;
use muqun_work::work::store::requests::Request;
use muqun_work::work::store::rules::new_operation;
use muqun_work::work::store::tables::Body;
use muqun_work::work::store::tables::DeliveryRow;
use muqun_work::work::store::tables::ReceiptBody;
use muqun_work::work::store::tables::RequestKind;
use muqun_work::work::store::tables::WorkStore;

fn upload(name: &str) -> InputUpload {
    InputUpload {
        repo_path: "/project".into(),
        name: name.into(),
        mime: "text/plain".into(),
        size_bytes: 10,
        sha256: "a".repeat(64),
    }
}

fn task() -> CreateTask {
    CreateTask {
        repo_path: "/project".into(),
        title: "Task".into(),
        brief: "Work".into(),
        parent_task_id: None,
        policy: TaskPolicy {
            allowed_agents: vec!["codex".into()],
            max_workers: 0,
        },
    }
}

fn reference(receipt: &InputReceipt) -> InputRef {
    InputRef {
        input_id: receipt.input_id.clone(),
        caption: "Quotes \" and $() are data".into(),
        use_: InputUse::ReferenceOnly,
    }
}

#[test]
fn scoped_upload_receipts_keep_original_identity_and_expiry() {
    let mut store = WorkStore::in_memory().unwrap();
    let first = store
        .commit_input_upload("actor", "session", "key", upload("file.txt"), 100)
        .unwrap();
    assert_eq!(first.expires_at_ms, 100 + INPUT_TTL_MS);
    assert_eq!(
        store
            .commit_input_upload(
                "actor",
                "session",
                "key",
                upload("file.txt"),
                first.expires_at_ms + 100
            )
            .unwrap(),
        first
    );
    assert_eq!(
        store
            .get_input_receipt("other", "session", "key")
            .unwrap_err()
            .0,
        FailureCode::NotFound
    );
    assert_eq!(
        store
            .get_input_receipt("actor", "other", "key")
            .unwrap_err()
            .0,
        FailureCode::NotFound
    );
    assert_eq!(
        store
            .replay_input_upload("actor", "session", "key", &upload("different.txt"))
            .unwrap_err()
            .0,
        FailureCode::RequestKeyConflict
    );
    let mut oversized = upload("big.txt");
    oversized.size_bytes = 10 * 1024 * 1024 + 1;
    assert_eq!(
        store
            .commit_input_upload("actor", "session", "big", oversized, 100)
            .unwrap_err()
            .0,
        FailureCode::InvalidInput
    );
    assert!(store
        .resolve_inputs(
            "actor",
            "session",
            "/project",
            None,
            &[reference(&first)],
            99
        )
        .is_ok());
    assert_eq!(
        store
            .resolve_inputs(
                "actor",
                "session",
                "/project",
                None,
                &[reference(&first)],
                first.expires_at_ms
            )
            .unwrap_err()
            .0,
        FailureCode::InputExpired
    );
}

#[test]
fn create_claims_are_atomic_ordered_and_replay_after_expiry() {
    let mut store = WorkStore::in_memory().unwrap();
    let own = store
        .commit_input_upload("actor", "session", "one", upload("one.txt"), 0)
        .unwrap();
    let foreign = store
        .commit_input_upload("other", "session", "two", upload("two.txt"), 0)
        .unwrap();
    let refs = vec![reference(&own), reference(&foreign)];
    assert_eq!(
        store
            .create_task_with_inputs("actor", "session", "bad", task(), refs, 1)
            .unwrap_err()
            .0,
        FailureCode::ScopeMismatch
    );
    assert!(store.list_tasks("session", None, 100).unwrap().is_empty());
    assert!(store
        .resolve_inputs("actor", "session", "/project", None, &[reference(&own)], 1)
        .is_ok());
    let second = store
        .commit_input_upload("actor", "session", "three", upload("three.txt"), 0)
        .unwrap();
    let refs = vec![reference(&second), reference(&own)];
    let created = store
        .create_task_with_inputs("actor", "session", "create", task(), refs.clone(), 1)
        .unwrap()
        .value;
    assert_eq!(
        created
            .input_refs
            .iter()
            .map(|r| r.input_id.clone())
            .collect::<Vec<_>>(),
        vec![second.input_id, own.input_id]
    );
    assert_eq!(
        store
            .create_task_with_inputs(
                "actor",
                "session",
                "create",
                task(),
                refs.clone(),
                INPUT_TTL_MS + 1
            )
            .unwrap()
            .value
            .id,
        created.id
    );
    assert!(store
        .replay_create_with_inputs("actor", "session", "create", &task(), &refs)
        .unwrap()
        .is_some());
    assert_eq!(
        store
            .create_task_with_inputs("actor", "session", "steal", task(), refs.clone(), 2)
            .unwrap_err()
            .0,
        FailureCode::ScopeMismatch
    );
    assert!(store
        .resolve_inputs(
            "other",
            "session",
            "/project",
            Some(&created.id),
            &refs,
            INPUT_TTL_MS + 1
        )
        .is_ok());
    assert_eq!(
        store
            .resolve_inputs(
                "actor",
                "session",
                "/elsewhere",
                Some(&created.id),
                &refs,
                2
            )
            .unwrap_err()
            .0,
        FailureCode::ScopeMismatch
    );
    let mut changed = refs;
    changed.reverse();
    assert_eq!(
        store
            .replay_create_with_inputs("actor", "session", "create", &task(), &changed)
            .unwrap_err()
            .0,
        FailureCode::RequestKeyConflict
    );
}

#[test]
fn delivery_freezes_only_selected_refs_and_replays_without_recapture() {
    let mut store = WorkStore::in_memory().unwrap();
    let initial = store
        .commit_input_upload("actor", "session", "initial", upload("initial.txt"), 0)
        .unwrap();
    let created = store
        .create_task_with_inputs(
            "actor",
            "session",
            "create",
            task(),
            vec![reference(&initial)],
            1,
        )
        .unwrap()
        .value;
    let start = store
        .prepare_attempt(
            "actor",
            "session",
            &created.id,
            "start",
            created.revision,
            NewAttempt {
                agent_kind: "codex".into(),
                role: AttemptRole::Lead,
            },
            "launch",
            2,
        )
        .unwrap()
        .value;
    store.begin_operation("session", &start.id, 3).unwrap();
    store.claim_start_dispatch("session", &start.id, 4).unwrap();
    store
        .confirm_start_launch(
            "session",
            &start.id,
            NativeBinding {
                instance_id: Some("launch".into()),
                ..Default::default()
            },
            "epoch",
            5,
        )
        .unwrap();
    store
        .finalize_operation(
            "session",
            &start.id,
            OperationOutcome {
                state: OperationState::Acknowledged,
                resources: Default::default(),
                failure_code: None,
            },
            6,
        )
        .unwrap();
    let fresh = store
        .commit_input_upload("actor", "session", "fresh", upload("fresh.txt"), 7)
        .unwrap();
    let refs = vec![reference(&fresh)];
    let frozen = store
        .resolve_inputs("actor", "session", "/project", Some(&created.id), &refs, 8)
        .unwrap();
    let revision = store.detail("session", &created.id).unwrap().task.revision;
    let aid = start.attempt_id.as_deref().unwrap();
    let mut bad = frozen.clone();
    bad[0].sha256 = "b".repeat(64);
    assert_eq!(
        store
            .prepare_delivery_with_inputs(
                "actor",
                "session",
                &created.id,
                aid,
                "deliver",
                revision,
                "launch",
                "User text",
                Some("v1"),
                refs.clone(),
                &bad,
                &"c".repeat(64),
                8
            )
            .unwrap_err()
            .0,
        FailureCode::ArtifactChanged
    );
    assert!(store
        .resolve_inputs("actor", "session", "/project", None, &refs, 8)
        .is_ok());
    let delivery = store
        .prepare_delivery_with_inputs(
            "actor",
            "session",
            &created.id,
            aid,
            "deliver",
            revision,
            "launch",
            "User text",
            Some("v1"),
            refs.clone(),
            &frozen,
            &"c".repeat(64),
            8,
        )
        .unwrap()
        .value;
    assert_eq!(delivery.input_refs, frozen);
    assert_eq!(delivery.input_refs.len(), 1);
    assert_ne!(delivery.input_refs[0].input_id, initial.input_id);
    assert!(store
        .resolve_inputs("actor", "session", "/project", None, &refs, 8)
        .is_err());
    let replay = store
        .replay_delivery_with_inputs(
            "actor",
            "session",
            &created.id,
            aid,
            "deliver",
            revision,
            "launch",
            "User text",
            Some("v1"),
            &refs,
        )
        .unwrap()
        .unwrap();
    assert_eq!(replay.value.id, delivery.id);
    // The server's rendered prompt can change after an executable upgrade;
    // the same client request keeps its original frozen receipt instead.
    assert_eq!(
        store
            .prepare_delivery_with_inputs(
                "actor",
                "session",
                &created.id,
                aid,
                "deliver",
                revision,
                "launch",
                "User text",
                Some("v1"),
                refs.clone(),
                &frozen,
                &"d".repeat(64),
                INPUT_TTL_MS + 1
            )
            .unwrap()
            .value
            .id,
        delivery.id
    );
    let mut changed = refs;
    changed[0].caption = "Changed".into();
    assert_eq!(
        store
            .replay_delivery_with_inputs(
                "actor",
                "session",
                &created.id,
                aid,
                "deliver",
                revision,
                "launch",
                "User text",
                Some("v1"),
                &changed
            )
            .unwrap_err()
            .0,
        FailureCode::RequestKeyConflict
    );
}

#[test]
fn input_limits_and_two_task_claim_race_preserve_one_owner() {
    let mut store = WorkStore::in_memory().unwrap();
    let receipt = store
        .commit_input_upload("actor", "session", "upload", upload("one.txt"), 0)
        .unwrap();
    assert_eq!(
        validate_refs(&vec![reference(&receipt); 10]).unwrap_err().0,
        FailureCode::InvalidInput
    );
    assert_eq!(
        validate_refs(&vec![reference(&receipt); 2]).unwrap_err().0,
        FailureCode::InvalidInput
    );
    let a = store.create_task_with_inputs(
        "actor",
        "session",
        "task-a",
        task(),
        vec![reference(&receipt)],
        1,
    );
    let b = store.create_task_with_inputs(
        "actor",
        "session",
        "task-b",
        task(),
        vec![reference(&receipt)],
        1,
    );
    let results = (a, b);
    assert_ne!(results.0.is_ok(), results.1.is_ok());
    assert_eq!(
        store
            .list_tasks("session", None, 100)
            .unwrap()
            .len(),
        1
    );
}

#[test]
fn input_receipts_and_claims_survive_restart_and_v1_records_default_empty() {
    let (closed, (receipt, created)) = {
        let mut store = WorkStore::in_memory().unwrap();
        let receipt = store
            .commit_input_upload("actor", "session", "upload", upload("one.txt"), 1)
            .unwrap();
        let created = store
            .create_task_with_inputs(
                "actor",
                "session",
                "task",
                task(),
                vec![reference(&receipt)],
                2,
            )
            .unwrap()
            .value;
        (store, (receipt, created))
    };
    let store = WorkStore::initialize(closed).unwrap();
    assert_eq!(
        store
            .get_input_receipt("actor", "session", "upload")
            .unwrap(),
        receipt
    );
    assert_eq!(
        store
            .detail("session", &created.id)
            .unwrap()
            .task
            .input_refs,
        created.input_refs
    );
    assert!(store
        .resolve_inputs(
            "actor",
            "session",
            "/project",
            Some(&created.id),
            &[reference(&receipt)],
            INPUT_TTL_MS + 5
        )
        .is_ok());
}

#[test]
fn migration_from_v1_preserves_text_only_creation_receipt() {
    let (closed, original) = {
        let mut store = WorkStore::in_memory().unwrap();
        let task = store
            .create_task("actor", "session", "old", task(), 1)
            .unwrap()
            .value;
        (store, task)
    };
    let mut store = WorkStore::initialize(closed).unwrap();
    assert!(store
        .detail("session", &original.id)
        .unwrap()
        .task
        .input_refs
        .is_empty());
    assert_eq!(
        store
            .create_task("actor", "session", "old", task(), 2)
            .unwrap()
            .value
            .id,
        original.id
    );
    assert!(store
        .commit_input_upload("actor", "session", "new", upload("file.txt"), 3)
        .is_ok());
}

#[test]
fn migration_from_v1_replays_exact_bootstrap_delivery_only() {
    let (closed, (task_id, attempt_id, revision, delivery_id)) = {
        let mut store = WorkStore::in_memory().unwrap();
        let task = store
            .create_task("actor", "session", "task", task(), 1)
            .unwrap()
            .value;
        let start = store
            .prepare_attempt(
                "actor",
                "session",
                &task.id,
                "start",
                task.revision,
                NewAttempt {
                    agent_kind: "codex".into(),
                    role: AttemptRole::Lead,
                },
                "launch",
                2,
            )
            .unwrap()
            .value;
        store.begin_operation("session", &start.id, 3).unwrap();
        store
            .finalize_operation(
                "session",
                &start.id,
                OperationOutcome {
                    state: OperationState::Acknowledged,
                    resources: NativeBinding {
                        instance_id: Some("launch".into()),
                        ..Default::default()
                    },
                    failure_code: None,
                },
                4,
            )
            .unwrap();
        let revision = store.detail("session", &task.id).unwrap().task.revision;
        let aid = start.attempt_id.unwrap();
        let delivery = store
            .prepare_delivery_with_instructions(
                "actor",
                "session",
                &task.id,
                &aid,
                "delivery",
                revision,
                "launch",
                "Original text",
                Some("onboarding-v1"),
                5,
            )
            .unwrap()
            .value;
        assert_eq!(delivery.bootstrap_version.as_deref(), Some("onboarding-v1"));
        store.begin_operation("session", &delivery.id, 6).unwrap();
        // The tables of inputs and deliveries came later.
        store.deliveries.clear();
        store.inputs.clear();
        (store, (task.id, aid, revision, delivery.id))
    };
    let mut store = WorkStore::initialize(closed).unwrap();
    let replay = store
        .replay_delivery_with_inputs(
            "actor",
            "session",
            &task_id,
            &attempt_id,
            "delivery",
            revision,
            "launch",
            "Original text",
            Some("onboarding-v1"),
            &[],
        )
        .unwrap()
        .unwrap();
    assert_eq!(replay.value.id, delivery_id);
    assert_eq!(replay.value.state, OperationState::Unconfirmed);
    assert_eq!(
        replay.value.bootstrap_version.as_deref(),
        Some("onboarding-v1")
    );
    assert_eq!(
        store
            .prepare_delivery_with_inputs(
                "actor",
                "session",
                &task_id,
                &attempt_id,
                "delivery",
                revision,
                "launch",
                "Original text",
                Some("onboarding-v1"),
                vec![],
                &[],
                &"a".repeat(64),
                10
            )
            .unwrap()
            .value
            .id,
        delivery_id
    );
    for (text, instance, rev, version) in [
        ("Changed", "launch", revision, Some("onboarding-v1")),
        (
            "Original text",
            "other-launch",
            revision,
            Some("onboarding-v1"),
        ),
        (
            "Original text",
            "launch",
            revision + 1,
            Some("onboarding-v1"),
        ),
    ] {
        assert_eq!(
            store
                .replay_delivery_with_inputs(
                    "actor",
                    "session",
                    &task_id,
                    &attempt_id,
                    "delivery",
                    rev,
                    instance,
                    text,
                    version,
                    &[]
                )
                .unwrap_err()
                .0,
            FailureCode::RequestKeyConflict
        );
    }
    assert!(store
        .replay_delivery_with_inputs(
            "other-actor",
            "session",
            &task_id,
            &attempt_id,
            "delivery",
            revision,
            "launch",
            "Original text",
            Some("onboarding-v1"),
            &[]
        )
        .unwrap()
        .is_none());
    assert!(store
        .replay_delivery_with_inputs(
            "actor",
            "other-session",
            &task_id,
            &attempt_id,
            "delivery",
            revision,
            "launch",
            "Original text",
            Some("onboarding-v1"),
            &[]
        )
        .unwrap()
        .is_none());
}

#[test]
fn modern_empty_delivery_missing_sidecar_is_not_accepted_as_legacy() {
    let mut store = WorkStore::in_memory().unwrap();
    let task = store
        .create_task("actor", "session", "task", task(), 1)
        .unwrap()
        .value;
    let start = store
        .prepare_attempt(
            "actor",
            "session",
            &task.id,
            "start",
            task.revision,
            NewAttempt {
                agent_kind: "codex".into(),
                role: AttemptRole::Lead,
            },
            "launch",
            2,
        )
        .unwrap()
        .value;
    store.begin_operation("session", &start.id, 3).unwrap();
    store
        .finalize_operation(
            "session",
            &start.id,
            OperationOutcome {
                state: OperationState::Acknowledged,
                resources: NativeBinding {
                    instance_id: Some("launch".into()),
                    ..Default::default()
                },
                failure_code: None,
            },
            4,
        )
        .unwrap();
    let revision = store.detail("session", &task.id).unwrap().task.revision;
    let aid = start.attempt_id.unwrap();
    let delivery = store
        .prepare_delivery_with_inputs(
            "actor",
            "session",
            &task.id,
            &aid,
            "delivery",
            revision,
            "launch",
            "Original text",
            Some("v1"),
            vec![],
            &[],
            &"a".repeat(64),
            5,
        )
        .unwrap()
        .value;
    store.deliveries.retain(|row| row.operation_id != delivery.id);
    assert_eq!(
        store
            .replay_delivery_with_inputs(
                "actor",
                "session",
                &task.id,
                &aid,
                "delivery",
                revision,
                "launch",
                "Original text",
                Some("v1"),
                &[]
            )
            .unwrap_err()
            .0,
        FailureCode::RequestKeyConflict
    );
}

#[test]
fn instruction_version_replay_migrates_initial_followup_and_explicit_null() {
    for first in [false, true] {
        for legacy in [false, true] {
            for original_version in [None, Some("result-reporting-v1")] {
                let mut store = WorkStore::in_memory().unwrap();
                let task = store
                    .create_task("actor", "session", &fresh(), task(), 1)
                    .unwrap()
                    .value;
                let key = fresh();
                let mut op = new_operation(
                    &fresh(),
                    &task.id,
                    Some("attempt".into()),
                    OperationKind::DeliverPrompt,
                    2,
                );
                op.bootstrap_version = if first {
                    original_version.map(str::to_owned)
                } else {
                    None
                };
                let digest = delivery_request_digest(
                    &task.id,
                    "attempt",
                    7,
                    "launch",
                    "text",
                    original_version,
                    &[],
                );
                store.put("session", &op.id, &task.id, Body::Operation(op.clone()))
                .unwrap();
                store.save(
                    &Request {
                        actor: "actor",
                        session: "session",
                        key: &key,
                        kind: RequestKind::Work(OperationKind::DeliverPrompt),
                        digest: "final-native-envelope".into(),
                    },
                    ReceiptBody::Operation(op.clone()),
                );
                store.deliveries.push(DeliveryRow {
                    operation_id: op.id.clone(),
                    request_digest: digest,
                    final_prompt_digest: "final".into(),
                    instruction_version: if legacy {
                        None
                    } else {
                        Some(original_version.map(str::to_owned))
                    },
                });
                let store = WorkStore::initialize(store).unwrap();
                assert_eq!(
                    store
                        .replay_delivery_with_inputs(
                            "actor",
                            "session",
                            &task.id,
                            "attempt",
                            &key,
                            7,
                            "launch",
                            "text",
                            Some("managed-delegation-v2"),
                            &[]
                        )
                        .unwrap()
                        .unwrap()
                        .value
                        .id,
                    op.id
                );
                for (text, launch, rev, refs) in [
                    ("changed", "launch", 7, vec![]),
                    ("text", "other", 7, vec![]),
                    ("text", "launch", 8, vec![]),
                    (
                        "text",
                        "launch",
                        7,
                        vec![InputRef {
                            input_id: fresh(),
                            caption: "".into(),
                            use_: InputUse::ReferenceOnly,
                        }],
                    ),
                ] {
                    assert_eq!(
                        store
                            .replay_delivery_with_inputs(
                                "actor",
                                "session",
                                &task.id,
                                "attempt",
                                &key,
                                rev,
                                launch,
                                text,
                                Some("managed-delegation-v2"),
                                &refs
                            )
                            .unwrap_err()
                            .0,
                        FailureCode::RequestKeyConflict
                    );
                }
                assert!(store
                    .replay_delivery_with_inputs(
                        "foreign",
                        "session",
                        &task.id,
                        "attempt",
                        &key,
                        7,
                        "launch",
                        "text",
                        Some("managed-delegation-v2"),
                        &[]
                    )
                    .unwrap()
                    .is_none());
                if !legacy {
                    assert_eq!(
                        store.replay_versions("actor",
                            "session",
                            &key,
                            Some("future-v3")
                        )
                        .unwrap(),
                        vec![original_version.map(str::to_owned)]
                    );
                }
            }
        }
    }
}

fn fresh() -> String {
    uuid::Uuid::new_v4().to_string()
}
