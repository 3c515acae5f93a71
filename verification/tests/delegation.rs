//! What a coordinator may do below its task, and for how long.
use muqun_work::digest::payload_digest;
use muqun_work::work::model::AttemptRole;
use muqun_work::work::model::CreateTask;
use muqun_work::work::model::DelegationConfig;
use muqun_work::work::model::DelegationFence;
use muqun_work::work::model::DelegationPolicy;
use muqun_work::work::model::DependencyReadiness;
use muqun_work::work::model::DependencyRequirement;
use muqun_work::work::model::FailureCode;
use muqun_work::work::model::InputRef;
use muqun_work::work::model::InputShare;
use muqun_work::work::model::InputUpload;
use muqun_work::work::model::InputUse;
use muqun_work::work::model::Mutation;
use muqun_work::work::model::NativeBinding;
use muqun_work::work::model::NewAttempt;
use muqun_work::work::model::Operation;
use muqun_work::work::model::OperationKind;
use muqun_work::work::model::OperationOutcome;
use muqun_work::work::model::OperationState;
use muqun_work::work::model::PauseInput;
use muqun_work::work::model::ReceiptValue;
use muqun_work::work::model::Reservation;
use muqun_work::work::model::ResultInput;
use muqun_work::work::model::ReviewDecision;
use muqun_work::work::model::ReviewInput;
use muqun_work::work::model::Task;
use muqun_work::work::model::TaskDependency;
use muqun_work::work::model::TaskPolicy;
use muqun_work::work::model::WorkResult;
use muqun_work::work::store::inputs::delivery_request_digest;
use muqun_work::work::store::requests::Request;
use muqun_work::work::store::rules::new_operation;
use muqun_work::work::store::tables::Body;
use muqun_work::work::store::tables::DeliveryRow;
use muqun_work::work::store::tables::FactKind;
use muqun_work::work::store::tables::ReceiptBody;
use muqun_work::work::store::tables::RequestKind;
use muqun_work::work::store::tables::ReservedFact;
use muqun_work::work::store::tables::WorkStore;

fn input(parent: Option<String>) -> CreateTask {
    CreateTask {
        repo_path: "/project".into(),
        title: "Task".into(),
        brief: "Do work".into(),
        parent_task_id: parent,
        policy: TaskPolicy {
            allowed_agents: vec!["codex".into()],
            max_workers: 2,
        },
    }
}

fn revision(store: &mut WorkStore, id: &str) -> u64 {
    store.detail("s", id).unwrap().task.revision
}

fn fixture(
    requirement: DependencyRequirement,
    max_children: u32,
) -> (WorkStore, Task, DelegationFence) {
    fixture_inputs(requirement, max_children, false)
}

fn fixture_inputs(
    requirement: DependencyRequirement,
    max_children: u32,
    with_inputs: bool,
) -> (WorkStore, Task, DelegationFence) {
    fixture_store(
        WorkStore::in_memory().unwrap(),
        requirement,
        max_children,
        with_inputs,
    )
}

fn fixture_store(
    mut store: WorkStore,
    requirement: DependencyRequirement,
    max_children: u32,
    with_inputs: bool,
) -> (WorkStore, Task, DelegationFence) {
    let mut refs = Vec::new();
    if with_inputs {
        for (index, use_) in [InputUse::ReferenceOnly, InputUse::MayInclude]
            .into_iter()
            .enumerate()
        {
            let upload = store
                .commit_input_upload(
                    "phone",
                    "s",
                    &format!("upload-{index}"),
                    InputUpload {
                        repo_path: "/project".into(),
                        name: format!("source-{index}.txt"),
                        mime: "text/plain".into(),
                        size_bytes: 5,
                        sha256: "a".repeat(64),
                    },
                    0,
                )
                .unwrap();
            refs.push(InputRef {
                input_id: upload.input_id,
                caption: "Parent reference".into(),
                use_,
            });
        }
    }
    let root = store
        .create_task_with_inputs("phone", "s", "root", input(None), refs, 1)
        .unwrap()
        .value;
    assert!(!root.delegation.policy.enabled);
    let op = store
        .prepare_attempt(
            "phone",
            "s",
            &root.id,
            "lead",
            root.revision,
            NewAttempt {
                agent_kind: "codex".into(),
                role: AttemptRole::Lead,
            },
            "launch",
            2,
        )
        .unwrap()
        .value;
    store.begin_operation("s", &op.id, 3).unwrap();
    store.claim_start_dispatch("s", &op.id, 4).unwrap();
    store
        .confirm_start_launch(
            "s",
            &op.id,
            NativeBinding {
                instance_id: Some("root-launch".into()),
                ..Default::default()
            },
            "owner",
            5,
        )
        .unwrap();
    store
        .finalize_operation(
            "s",
            &op.id,
            OperationOutcome {
                state: OperationState::Acknowledged,
                resources: Default::default(),
                failure_code: None,
            },
            6,
        )
        .unwrap();
    let rev = revision(&mut store, &root.id);
    let root = store
        .configure_delegation(
            "phone",
            "s",
            &root.id,
            "enable",
            rev,
            DelegationConfig {
                policy: DelegationPolicy {
                    enabled: true,
                    max_children,
                    max_depth: 1,
                    dependency_requirement: requirement,
                },
                coordinator_attempt_id: op.attempt_id.clone(),
            },
            7,
        )
        .unwrap()
        .value;
    let fence = DelegationFence {
        coordinator_task_id: root.id.clone(),
        coordinator_attempt_id: op.attempt_id.unwrap(),
        coordinator_epoch: root.delegation.coordinator_epoch,
        instance_id: "root-launch".into(),
        native_owner_epoch: "owner".into(),
    };
    (store, root, fence)
}

fn child(
    store: &mut WorkStore,
    root: &Task,
    fence: &DelegationFence,
    key: &str,
    deps: Vec<TaskDependency>,
) -> Task {
    let rev = revision(store, &root.id);
    store
        .create_delegated_task(
            "lead",
            "s",
            key,
            fence,
            rev,
            input(Some(root.id.clone())),
            deps,
            8,
        )
        .unwrap()
        .value
}

fn start(
    store: &mut WorkStore,
    child: &Task,
    fence: &DelegationFence,
    key: &str,
) -> WorkResult<Mutation<Operation>> {
    let rev = revision(store, &child.id);
    store.prepare_delegated_attempt(
        "lead",
        "s",
        &child.id,
        key,
        rev,
        NewAttempt {
            agent_kind: "codex".into(),
            role: AttemptRole::Lead,
        },
        "launch",
        fence,
        9,
    )
}

#[test]
fn child_scope_epoch_pause_and_lifetime_budget_are_fenced() {
    let (mut store, root, fence) = fixture(DependencyRequirement::ResultAvailable, 1);
    let rev = revision(&mut store, &root.id);
    let mut forged = fence.clone();
    forged.instance_id = "replacement".into();
    assert_eq!(
        store
            .create_delegated_task(
                "lead",
                "s",
                "forged",
                &forged,
                rev,
                input(Some(root.id.clone())),
                vec![],
                8
            )
            .unwrap_err()
            .0,
        FailureCode::InstanceChanged
    );
    let first = child(&mut store, &root, &fence, "child", vec![]);
    assert!(!first.delegation.policy.enabled);
    assert_eq!(first.delegation.policy.max_depth, 0);
    assert_eq!(
        store
            .create_delegated_task(
                "lead",
                "s",
                "child",
                &fence,
                rev,
                input(Some(root.id.clone())),
                vec![],
                9
            )
            .unwrap()
            .value
            .id,
        first.id
    );
    let current = revision(&mut store, &root.id);
    assert_eq!(
        store
            .create_delegated_task(
                "lead",
                "s",
                "over",
                &fence,
                current,
                input(Some(root.id.clone())),
                vec![],
                10
            )
            .unwrap_err()
            .0,
        FailureCode::ResourceLimit
    );
    let prepared = start(&mut store, &first, &fence, "start").unwrap().value;
    store.begin_operation("s", &prepared.id, 11).unwrap();
    let rev = revision(&mut store, &root.id);
    store
        .set_paused(
            "phone",
            "s",
            &root.id,
            "pause",
            rev,
            PauseInput { paused: true },
            12,
        )
        .unwrap();
    assert_eq!(
        store
            .claim_start_dispatch("s", &prepared.id, 13)
            .unwrap_err()
            .0,
        FailureCode::NotReady
    );
    let rev = revision(&mut store, &root.id);
    store
        .set_paused(
            "phone",
            "s",
            &root.id,
            "resume",
            rev,
            PauseInput { paused: false },
            14,
        )
        .unwrap();
    let rev = revision(&mut store, &root.id);
    store
        .configure_delegation(
            "phone",
            "s",
            &root.id,
            "takeover",
            rev,
            DelegationConfig {
                policy: root.delegation.policy.clone(),
                coordinator_attempt_id: Some(fence.coordinator_attempt_id.clone()),
            },
            15,
        )
        .unwrap();
    assert_eq!(
        store
            .claim_start_dispatch("s", &prepared.id, 16)
            .unwrap_err()
            .0,
        FailureCode::ScopeMismatch
    );
    assert_eq!(
        store.detail("s", &first.id).unwrap().attempts[0]
            .lifecycle
            .reservation,
        Reservation::Reserved
    );
}

#[test]
fn exact_dependency_result_and_review_insertion_order_gate_dispatch() {
    let (mut store, root, fence) = fixture(DependencyRequirement::HumanAccepted, 4);
    let prerequisite = child(&mut store, &root, &fence, "prerequisite", vec![]);
    let dependent = child(
        &mut store,
        &root,
        &fence,
        "dependent",
        vec![TaskDependency {
            prerequisite_task_id: prerequisite.id.clone(),
            submission_id: None,
        }],
    );
    assert_eq!(
        store.dependency_readiness("s", &dependent.id).unwrap(),
        DependencyReadiness::WaitingForResult
    );
    assert_eq!(
        start(&mut store, &dependent, &fence, "blocked")
            .unwrap_err()
            .0,
        FailureCode::NotReady
    );
    assert!(store
        .detail("s", &dependent.id)
        .unwrap()
        .attempts
        .is_empty());
    let attempt = start(&mut store, &prerequisite, &fence, "candidate")
        .unwrap()
        .value;
    let rev = revision(&mut store, &prerequisite.id);
    let result = store
        .submit_result(
            "worker",
            "s",
            &prerequisite.id,
            "result",
            rev,
            ResultInput {
                attempt_id: attempt.attempt_id.unwrap(),
                summary: "Candidate".into(),
                artifacts: vec![],
                evidence: vec![],
            },
            100,
        )
        .unwrap()
        .value;
    let rev = revision(&mut store, &dependent.id);
    store
        .set_delegated_dependencies(
            "lead",
            "s",
            &dependent.id,
            "bind",
            rev,
            vec![TaskDependency {
                prerequisite_task_id: prerequisite.id.clone(),
                submission_id: Some(result.id.clone()),
            }],
            &fence,
            101,
        )
        .unwrap();
    assert_eq!(
        store.dependency_readiness("s", &dependent.id).unwrap(),
        DependencyReadiness::WaitingForAcceptance
    );
    let rev = revision(&mut store, &prerequisite.id);
    store
        .review_result(
            "phone",
            "s",
            &prerequisite.id,
            "accept",
            rev,
            ReviewInput {
                submission_id: result.id.clone(),
                decision: ReviewDecision::Accepted,
                message: None,
            },
            1000,
        )
        .unwrap();
    let op = start(&mut store, &dependent, &fence, "start")
        .unwrap()
        .value;
    assert_eq!(op.dependency_snapshot[0].submission_id, result.id);
    store.begin_operation("s", &op.id, 102).unwrap();
    let rev = revision(&mut store, &prerequisite.id);
    store
        .review_result(
            "phone",
            "s",
            &prerequisite.id,
            "changes",
            rev,
            ReviewInput {
                submission_id: result.id.clone(),
                decision: ReviewDecision::ChangesRequested,
                message: None,
            },
            1,
        )
        .unwrap();
    assert_eq!(
        store.claim_start_dispatch("s", &op.id, 103).unwrap_err().0,
        FailureCode::NotReady
    );
    let rev = revision(&mut store, &prerequisite.id);
    let accepted = store
        .review_result(
            "phone",
            "s",
            &prerequisite.id,
            "accept-again",
            rev,
            ReviewInput {
                submission_id: result.id.clone(),
                decision: ReviewDecision::Accepted,
                message: None,
            },
            0,
        )
        .unwrap()
        .value;
    let claimed = store.claim_start_dispatch("s", &op.id, 104).unwrap();
    assert_eq!(
        claimed.dependency_snapshot[0].review_id.as_deref(),
        Some(accepted.id.as_str())
    );
    let rev = revision(&mut store, &dependent.id);
    assert_eq!(
        store
            .set_dependencies(
                "lead",
                "s",
                &dependent.id,
                "after-start",
                rev,
                vec![],
                Some(&fence),
                105
            )
            .unwrap_err()
            .0,
        FailureCode::NotReady
    );
}

#[test]
fn dependencies_reject_cycles_foreign_results_and_recursive_delegation() {
    let (mut store, root, fence) = fixture(DependencyRequirement::ResultAvailable, 4);
    let a = child(&mut store, &root, &fence, "a", vec![]);
    let b = child(
        &mut store,
        &root,
        &fence,
        "b",
        vec![TaskDependency {
            prerequisite_task_id: a.id.clone(),
            submission_id: None,
        }],
    );
    let rev = revision(&mut store, &a.id);
    assert_eq!(
        store
            .set_dependencies(
                "lead",
                "s",
                &a.id,
                "cycle",
                rev,
                vec![TaskDependency {
                    prerequisite_task_id: b.id.clone(),
                    submission_id: None
                }],
                Some(&fence),
                9
            )
            .unwrap_err()
            .0,
        FailureCode::InvalidInput
    );
    assert_eq!(
        store
            .set_dependencies(
                "lead",
                "s",
                &a.id,
                "parent",
                rev,
                vec![TaskDependency {
                    prerequisite_task_id: root.id.clone(),
                    submission_id: None
                }],
                Some(&fence),
                10
            )
            .unwrap_err()
            .0,
        FailureCode::ScopeMismatch
    );
    assert_eq!(
        store
            .configure_delegation(
                "phone",
                "s",
                &a.id,
                "recursive",
                rev,
                DelegationConfig {
                    policy: root.delegation.policy.clone(),
                    coordinator_attempt_id: Some(fence.coordinator_attempt_id)
                },
                11
            )
            .unwrap_err()
            .0,
        FailureCode::CapabilityUnavailable
    );
}

#[test]
fn admitted_delegated_start_persists_dependency_evidence_at_record_cap() {
    let (mut store, root, fence) = fixture(DependencyRequirement::ResultAvailable, 4);
    let prerequisite = child(&mut store, &root, &fence, "prerequisite", vec![]);
    let attempt = start(&mut store, &prerequisite, &fence, "prerequisite-attempt")
        .unwrap()
        .value;
    let rev = revision(&mut store, &prerequisite.id);
    let result = store
        .submit_result(
            "worker",
            "s",
            &prerequisite.id,
            "candidate",
            rev,
            ResultInput {
                attempt_id: attempt.attempt_id.clone().unwrap(),
                summary: "Candidate".into(),
                artifacts: vec![],
                evidence: vec![],
            },
            10,
        )
        .unwrap()
        .value;
    let dependent = child(
        &mut store,
        &root,
        &fence,
        "dependent",
        vec![TaskDependency {
            prerequisite_task_id: prerequisite.id.clone(),
            submission_id: Some(result.id.clone()),
        }],
    );
    let existing = filed(&store, &dependent.id);
    for index in existing..1021 {
        store
            .put("s", &format!("quota-{index}"), &dependent.id, padding())
            .unwrap();
    }
    let op = start(&mut store, &dependent, &fence, "start")
        .unwrap()
        .value;
    store.begin_operation("s", &op.id, 11).unwrap();
    let claimed = store.claim_start_dispatch("s", &op.id, 12).unwrap();
    assert_eq!(claimed.dependency_snapshot[0].submission_id, result.id);
    store
        .record_start_refusal("s", &op.id, "owner", "no-process", 13)
        .unwrap();
    store
        .finalize_operation(
            "s",
            &op.id,
            OperationOutcome {
                state: OperationState::Refused,
                resources: Default::default(),
                failure_code: Some(FailureCode::NotReady),
            },
            14,
        )
        .unwrap();
    assert_eq!(filed(&store, &dependent.id), 1024);
    assert!(store.get_start_refusal("s", &op.id).unwrap().is_some());
}

#[test]
fn unrelated_child_inputs_refuse_without_stealing_claims() {
    let (mut store, root, fence) = fixture(DependencyRequirement::ResultAvailable, 4);
    let rev = revision(&mut store, &root.id);
    assert_eq!(
        store
            .create_delegated_task_with_inputs(
                "lead",
                "s",
                "child-inputs",
                &fence,
                rev,
                input(Some(root.id.clone())),
                vec![],
                vec![InputRef {
                    input_id: uuid::Uuid::new_v4().to_string(),
                    caption: "Reference".into(),
                    use_: InputUse::ReferenceOnly
                }],
                8
            )
            .unwrap_err()
            .0,
        FailureCode::ScopeMismatch
    );
    assert_eq!(store.list_tasks("s", None, 100).unwrap().len(), 1);
}

#[test]
fn parent_input_shares_narrow_permissions_and_preserve_one_source_claim() {
    let (mut store, root, fence) =
        fixture_inputs(DependencyRequirement::ResultAvailable, 8, true);
    let refs = vec![InputRef {
        input_id: root.input_refs[0].input_id.clone(),
        caption: "Child reference".into(),
        use_: InputUse::ReferenceOnly,
    }];
    let parent_revision = revision(&mut store, &root.id);
    let first = store
        .create_delegated_task_with_inputs(
            "lead",
            "s",
            "first",
            &fence,
            parent_revision,
            input(Some(root.id.clone())),
            vec![],
            refs.clone(),
            10,
        )
        .unwrap()
        .value;
    let rev = revision(&mut store, &root.id);
    let second = store
        .create_delegated_task_with_inputs(
            "lead",
            "s",
            "second",
            &fence,
            rev,
            input(Some(root.id.clone())),
            vec![],
            refs.clone(),
            11,
        )
        .unwrap()
        .value;
    assert_ne!(first.id, second.id);
    assert_eq!(first.input_refs, second.input_refs);
    let claimed: String = claimed_by(&store, &refs[0].input_id);
    assert_eq!(claimed, root.id);
    for child in [&first, &second] {
        let shares: Vec<InputShare> =
            store.records::<InputShare>("s", &child.id);
        assert_eq!(shares.len(), 1);
        assert_eq!(shares[0].source_task_id, root.id);
        assert!(store
            .resolve_inputs(
                "phone",
                "s",
                "/project",
                Some(&child.id),
                &refs,
                49 * 60 * 60 * 1000
            )
            .is_ok());
    }
    let mut wider = refs.clone();
    wider[0].use_ = InputUse::MayInclude;
    let rev = revision(&mut store, &root.id);
    assert_eq!(
        store
            .create_delegated_task_with_inputs(
                "lead",
                "s",
                "widen",
                &fence,
                rev,
                input(Some(root.id.clone())),
                vec![],
                wider.clone(),
                12
            )
            .unwrap_err()
            .0,
        FailureCode::ScopeMismatch
    );
    assert_eq!(
        store
            .resolve_delegated_inputs("lead", "s", &fence, Some(&first.id), &wider, 12)
            .unwrap_err()
            .0,
        FailureCode::ScopeMismatch
    );
    let narrower = vec![InputRef {
        input_id: root.input_refs[1].input_id.clone(),
        caption: "Narrower".into(),
        use_: InputUse::ReferenceOnly,
    }];
    let third = store
        .create_delegated_task_with_inputs(
            "lead",
            "s",
            "third",
            &fence,
            rev,
            input(Some(root.id.clone())),
            vec![],
            narrower.clone(),
            13,
        )
        .unwrap()
        .value;
    assert_eq!(third.input_refs[0].use_, InputUse::ReferenceOnly);
    let mut invalid = refs.clone();
    invalid.push(InputRef {
        input_id: uuid::Uuid::new_v4().to_string(),
        caption: "Foreign".into(),
        use_: InputUse::ReferenceOnly,
    });
    let rev = revision(&mut store, &root.id);
    let before = store.list_tasks("s", None, 100).unwrap().len();
    assert_eq!(
        store
            .create_delegated_task_with_inputs(
                "lead",
                "s",
                "invalid-second",
                &fence,
                rev,
                input(Some(root.id.clone())),
                vec![],
                invalid,
                14
            )
            .unwrap_err()
            .0,
        FailureCode::ScopeMismatch
    );
    assert_eq!(store.list_tasks("s", None, 100).unwrap().len(), before);
    assert_eq!(revision(&mut store, &root.id), rev);
    assert_eq!(
        store
            .replay_delegated_create_with_inputs(
                "lead",
                "s",
                "first",
                &fence,
                parent_revision,
                &input(Some(root.id.clone())),
                &[],
                &refs
            )
            .unwrap()
            .unwrap()
            .value
            .id,
        first.id
    );
    match store
        .get_delegated_receipt("lead", "s", &fence, OperationKind::CreateTask, "first")
        .unwrap()
        .value
    {
        ReceiptValue::Task(task) => assert_eq!(task.id, first.id),
        other => panic!("{other:?}"),
    }
    assert_eq!(
        store
            .get_delegated_receipt("other", "s", &fence, OperationKind::CreateTask, "first")
            .unwrap_err()
            .0,
        FailureCode::NotFound
    );
}

#[test]
fn delegated_final_digest_replay_closed_targets_and_takeover_history() {
    let (mut store, root, fence) =
        fixture_inputs(DependencyRequirement::ResultAvailable, 4, true);
    let refs = vec![InputRef {
        input_id: root.input_refs[0].input_id.clone(),
        caption: "Reference".into(),
        use_: InputUse::ReferenceOnly,
    }];
    let rev = revision(&mut store, &root.id);
    let child = store
        .create_delegated_task_with_inputs(
            "lead",
            "s",
            "child",
            &fence,
            rev,
            input(Some(root.id.clone())),
            vec![],
            refs.clone(),
            10,
        )
        .unwrap()
        .value;
    let op = start(&mut store, &child, &fence, "start").unwrap().value;
    let aid = op.attempt_id.as_deref().unwrap();
    assert_eq!(
        store
            .begin_delegated_operation(
                "s",
                &op.id,
                &root.id,
                aid,
                OperationKind::StartAttempt,
                &fence,
                11
            )
            .unwrap_err()
            .0,
        FailureCode::ScopeMismatch
    );
    assert_eq!(
        store
            .begin_delegated_operation(
                "s",
                &op.id,
                &child.id,
                aid,
                OperationKind::DeliverPrompt,
                &fence,
                11
            )
            .unwrap_err()
            .0,
        FailureCode::ScopeMismatch
    );
    store
        .begin_delegated_operation(
            "s",
            &op.id,
            &child.id,
            aid,
            OperationKind::StartAttempt,
            &fence,
            12,
        )
        .unwrap();
    store
        .claim_delegated_start_dispatch("s", &op.id, &child.id, aid, &fence, 13)
        .unwrap();
    store
        .confirm_start_launch(
            "s",
            &op.id,
            NativeBinding {
                instance_id: Some("child-launch".into()),
                ..Default::default()
            },
            "child-owner",
            14,
        )
        .unwrap();
    store
        .finalize_operation(
            "s",
            &op.id,
            OperationOutcome {
                state: OperationState::Acknowledged,
                resources: Default::default(),
                failure_code: None,
            },
            15,
        )
        .unwrap();
    let frozen = store
        .resolve_delegated_inputs("lead", "s", &fence, Some(&child.id), &refs, 16)
        .unwrap();
    let rev = revision(&mut store, &child.id);
    let delivery = store
        .prepare_delegated_delivery_with_inputs(
            "lead",
            "s",
            &child.id,
            aid,
            "send",
            rev,
            "child-launch",
            "User text",
            Some("v1"),
            refs.clone(),
            &frozen,
            &"c".repeat(64),
            &fence,
            16,
        )
        .unwrap()
        .value;
    assert_eq!(delivery.input_refs, frozen);
    assert_eq!(
        store
            .replay_delegated_delivery(
                "lead",
                "s",
                &child.id,
                aid,
                "send",
                rev,
                "child-launch",
                "User text",
                Some("v1"),
                &refs,
                &fence
            )
            .unwrap()
            .unwrap()
            .value
            .id,
        delivery.id
    );
    assert_eq!(
        store
            .prepare_delegated_delivery_with_inputs(
                "lead",
                "s",
                &child.id,
                aid,
                "send",
                rev,
                "child-launch",
                "User text",
                Some("v1"),
                refs.clone(),
                &frozen,
                &"d".repeat(64),
                &fence,
                17
            )
            .unwrap()
            .value
            .id,
        delivery.id
    );
    assert_eq!(
        store
            .replay_delegated_delivery(
                "lead",
                "s",
                &child.id,
                aid,
                "send",
                rev,
                "child-launch",
                "Changed",
                Some("v1"),
                &refs,
                &fence
            )
            .unwrap_err()
            .0,
        FailureCode::RequestKeyConflict
    );
    let rev = revision(&mut store, &root.id);
    let configured = store
        .configure_delegation(
            "phone",
            "s",
            &root.id,
            "takeover",
            rev,
            DelegationConfig {
                policy: root.delegation.policy.clone(),
                coordinator_attempt_id: Some(fence.coordinator_attempt_id.clone()),
            },
            18,
        )
        .unwrap()
        .value;
    let mut successor = fence.clone();
    successor.coordinator_epoch = configured.delegation.coordinator_epoch;
    assert_eq!(
        store
            .get_delegated_operation("s", &successor, &delivery.id)
            .unwrap()
            .id,
        delivery.id
    );
    assert_eq!(
        store
            .get_delegated_receipt(
                "lead",
                "s",
                &successor,
                OperationKind::DeliverPrompt,
                "send"
            )
            .unwrap_err()
            .0,
        FailureCode::ScopeMismatch
    );
    assert_eq!(
        store
            .begin_delegated_operation(
                "s",
                &delivery.id,
                &child.id,
                aid,
                OperationKind::DeliverPrompt,
                &fence,
                19
            )
            .unwrap_err()
            .0,
        FailureCode::ScopeMismatch
    );
    assert!(store
        .resolve_delegated_inputs("new-lead", "s", &successor, Some(&child.id), &refs, 19)
        .is_ok());
}

#[test]
fn input_shares_survive_restart_and_parent_followup_only_refs_are_not_eligible() {
    let (mut store, root, fence) = fixture_store(
        WorkStore::in_memory().unwrap(),
        DependencyRequirement::ResultAvailable,
        4,
        true,
    );
    let refs = vec![InputRef {
        input_id: root.input_refs[0].input_id.clone(),
        caption: "Child".into(),
        use_: InputUse::ReferenceOnly,
    }];
    let rev = revision(&mut store, &root.id);
    let child = store
        .create_delegated_task_with_inputs(
            "lead",
            "s",
            "child",
            &fence,
            rev,
            input(Some(root.id.clone())),
            vec![],
            refs.clone(),
            10,
        )
        .unwrap()
        .value;
    let fresh = store
        .commit_input_upload(
            "phone",
            "s",
            "later",
            InputUpload {
                repo_path: "/project".into(),
                name: "later.txt".into(),
                mime: "text/plain".into(),
                size_bytes: 5,
                sha256: "b".repeat(64),
            },
            11,
        )
        .unwrap();
    let later = vec![InputRef {
        input_id: fresh.input_id.clone(),
        caption: "Later".into(),
        use_: InputUse::ReferenceOnly,
    }];
    let frozen = store
        .resolve_inputs("phone", "s", "/project", Some(&root.id), &later, 12)
        .unwrap();
    let rev = revision(&mut store, &root.id);
    store
        .prepare_delivery_with_inputs(
            "phone",
            "s",
            &root.id,
            &fence.coordinator_attempt_id,
            "root-later",
            rev,
            "root-launch",
            "Followup",
            Some("v1"),
            later.clone(),
            &frozen,
            &"c".repeat(64),
            12,
        )
        .unwrap();
    assert_eq!(
        store
            .resolve_delegated_inputs("lead", "s", &fence, None, &later, 13)
            .unwrap_err()
            .0,
        FailureCode::ScopeMismatch
    );
    let store = WorkStore::initialize(store).unwrap();
    assert_eq!(
        store.detail("s", &child.id).unwrap().task.input_refs,
        child.input_refs
    );
    let shares: Vec<InputShare> =
        store.records::<InputShare>("s", &child.id);
    assert_eq!(shares.len(), 1);
    assert_eq!(
        store
            .resolve_inputs(
                "phone",
                "s",
                "/project",
                Some(&child.id),
                &refs,
                49 * 60 * 60 * 1000
            )
            .unwrap(),
        child.input_refs
    );
    assert_eq!(
        claimed_by(&store, &refs[0].input_id),
        root.id
    );
}

#[test]
fn delegated_initial_and_followup_version_replay_preserves_exact_fence_and_request() {
    for first in [false, true] {
        for legacy in [false, true] {
            let (mut store, root, fence) = fixture(DependencyRequirement::ResultAvailable, 4);
            let rev = revision(&mut store, &root.id);
            let child = store
                .create_delegated_task(
                    "lead",
                    "s",
                    "child",
                    &fence,
                    rev,
                    input(Some(root.id)),
                    vec![],
                    10,
                )
                .unwrap()
                .value;
            let mut op = new_operation(
                &fresh(),
                &child.id,
                Some("attempt".into()),
                OperationKind::DeliverPrompt,
                11,
            );
            op.delegation_fence = Some(fence.clone());
            op.bootstrap_version = if first {
                Some("result-reporting-v1".into())
            } else {
                None
            };
            let base = delivery_request_digest(
                &child.id,
                "attempt",
                7,
                "launch",
                "text",
                Some("result-reporting-v1"),
                &[],
            );
            let digest = payload_digest(&(base, fence.clone())).unwrap();
            store.put("s", &op.id, &child.id, Body::Operation(op.clone())).unwrap();
            store.save(
                &Request {
                    actor: "lead",
                    session: "s",
                    key: "send",
                    kind: RequestKind::Work(OperationKind::DeliverPrompt),
                    digest: "final-native-envelope".into(),
                },
                ReceiptBody::Operation(op.clone()),
            );
            store.deliveries.push(DeliveryRow {
                operation_id: op.id.clone(),
                request_digest: digest,
                final_prompt_digest: "final".into(),
                instruction_version: if legacy {
                    None
                } else {
                    Some(Some("result-reporting-v1".into()))
                },
            });
            assert_eq!(
                store
                    .replay_delegated_delivery(
                        "lead",
                        "s",
                        &child.id,
                        "attempt",
                        "send",
                        7,
                        "launch",
                        "text",
                        Some("managed-delegation-v2"),
                        &[],
                        &fence
                    )
                    .unwrap()
                    .unwrap()
                    .value
                    .id,
                op.id
            );
            for (text, launch, rev) in [
                ("changed", "launch", 7),
                ("text", "other", 7),
                ("text", "launch", 8),
            ] {
                assert_eq!(
                    store
                        .replay_delegated_delivery(
                            "lead",
                            "s",
                            &child.id,
                            "attempt",
                            "send",
                            rev,
                            launch,
                            text,
                            Some("managed-delegation-v2"),
                            &[],
                            &fence
                        )
                        .unwrap_err()
                        .0,
                    FailureCode::RequestKeyConflict
                );
            }
            let mut stale = fence.clone();
            stale.coordinator_epoch += 1;
            assert!(store
                .replay_delegated_delivery(
                    "lead",
                    "s",
                    &child.id,
                    "attempt",
                    "send",
                    7,
                    "launch",
                    "text",
                    Some("managed-delegation-v2"),
                    &[],
                    &stale
                )
                .is_err());
        }
    }
}

#[test]
fn delegated_dependency_update_receipts_are_exact_and_authority_is_not_revived() {
    let (mut store, root, fence) = fixture(DependencyRequirement::HumanAccepted, 4);
    let prerequisite = child(&mut store, &root, &fence, "prerequisite", vec![]);
    let dependent = child(&mut store, &root, &fence, "dependent", vec![]);
    let rev = revision(&mut store, &dependent.id);
    let deps = vec![TaskDependency {
        prerequisite_task_id: prerequisite.id,
        submission_id: None,
    }];
    let updated = store
        .set_delegated_dependencies(
            "lead",
            "s",
            &dependent.id,
            "bind",
            rev,
            deps.clone(),
            &fence,
            10,
        )
        .unwrap();
    assert!(!updated.replayed);
    assert_eq!(
        store.dependency_readiness("s", &dependent.id).unwrap(),
        DependencyReadiness::WaitingForResult
    );
    assert!(
        store
            .replay_delegated_dependencies(
                "lead",
                "s",
                &dependent.id,
                "bind",
                rev,
                &deps,
                &fence
            )
            .unwrap()
            .unwrap()
            .replayed
    );
    assert!(
        store
            .set_delegated_dependencies(
                "lead",
                "s",
                &dependent.id,
                "bind",
                rev,
                deps.clone(),
                &fence,
                11
            )
            .unwrap()
            .replayed
    );
    let receipt = store
        .get_delegated_receipt("lead", "s", &fence, OperationKind::SetDependencies, "bind")
        .unwrap();
    match receipt.value {
        ReceiptValue::Task(task) => assert_eq!(task.id, dependent.id),
        other => panic!("{other:?}"),
    }
    assert_eq!(
        store
            .replay_delegated_dependencies("lead", "s", &dependent.id, "bind", rev, &[], &fence)
            .unwrap_err()
            .0,
        FailureCode::RequestKeyConflict
    );
    assert_eq!(
        store
            .replay_delegated_dependencies(
                "lead",
                "s",
                &dependent.id,
                "bind",
                rev + 1,
                &deps,
                &fence
            )
            .unwrap_err()
            .0,
        FailureCode::RequestKeyConflict
    );
    assert!(store
        .get_delegated_receipt("other", "s", &fence, OperationKind::SetDependencies, "bind")
        .is_err());
    assert_eq!(
        store
            .set_delegated_dependencies(
                "lead",
                "s",
                &dependent.id,
                "new",
                rev,
                deps.clone(),
                &fence,
                12
            )
            .unwrap_err()
            .0,
        FailureCode::RevisionConflict
    );
    let mut root = store.load::<Task>("s", &root.id).unwrap();
    root.delegation.coordinator_epoch += 1;
    store.put("s", &root.id, &root.id, Body::Task(root.clone())).unwrap();
    assert!(store
        .set_delegated_dependencies(
            "lead",
            "s",
            &dependent.id,
            "bind",
            rev,
            deps.clone(),
            &fence,
            13
        )
        .is_err());
    let mut successor = fence;
    successor.coordinator_epoch += 1;
    assert!(store
        .get_delegated_receipt(
            "lead",
            "s",
            &successor,
            OperationKind::SetDependencies,
            "bind"
        )
        .is_err());
    assert!(store
        .replay_delegated_dependencies(
            "lead",
            "s",
            &dependent.id,
            "bind",
            rev,
            &deps,
            &successor
        )
        .is_err());
}

fn fresh() -> String {
    uuid::Uuid::new_v4().to_string()
}

fn filed(store: &WorkStore, task: &str) -> usize {
    store.records.iter().filter(|r| r.task_id == task).count()
}

fn padding() -> Body {
    Body::Reserved(ReservedFact {
        purpose: FactKind::Interruption,
        operation_id: "padding".into(),
    })
}

fn claimed_by(store: &WorkStore, input: &str) -> String {
    store
        .inputs
        .iter()
        .find(|row| row.id == input)
        .and_then(|row| row.claimed_task.clone())
        .unwrap()
}
