//! A local lead at work for its children, from its grant to its end.
use muqun_work::text::text_before;
use muqun_work::work::model::AttemptRole;
use muqun_work::work::model::CreateTask;
use muqun_work::work::model::DelegationConfig;
use muqun_work::work::model::DelegationPolicy;
use muqun_work::work::model::DependencyRequirement;
use muqun_work::work::model::FailureCode;
use muqun_work::work::model::NativeBinding;
use muqun_work::work::model::NewAttempt;
use muqun_work::work::model::OperationKind;
use muqun_work::work::model::OperationOutcome;
use muqun_work::work::model::OperationState;
use muqun_work::work::model::ReceiptValue;
use muqun_work::work::model::Task;
use muqun_work::work::model::TaskDependency;
use muqun_work::work::model::TaskPolicy;
use muqun_work::work::store::tables::WorkStore;
use muqun_work::work_actor::ChildPlan;
use muqun_work::work_actor::ChildRecord;
use muqun_work::work_actor::Ids;
use muqun_work::work_actor::Moment;
use muqun_work::work_actor::Observation;
use muqun_work::work_actor::WorkActor;
use muqun_work::work_authority::Registry;
use muqun_work::work_authority::Scope;
use muqun_work::work_delegation::configure;
use muqun_work::work_delegation::coordinator_to_see;
use muqun_work::work_delegation::require_live;
use muqun_work::work_delegation::ChildReadRequest;
use muqun_work::work_delegation::ConfigureRequest;
use muqun_work::work_delegation::CreateChildRequest;
use muqun_work::work_delegation::DependencyUpdateRequest;
use muqun_work::work_execution::reconcile::Lifecycle;
use muqun_work::work_execution::session::bar_launch;
use muqun_work::work_execution::session::grant_launch;
use muqun_work::work_execution::session::interruptible;
use muqun_work::work_execution::session::launched;
use muqun_work::work_execution::session::locate;
use muqun_work::work_execution::session::needs_reporting;
use muqun_work::work_execution::session::placed;
use muqun_work::work_execution::session::preflight_owner;
use muqun_work::work_execution::session::preflight_start;
use muqun_work::work_execution::session::prompt_received;
use muqun_work::work_execution::session::supported;
use muqun_work::work_execution::session::ungranted;
use muqun_work::work_execution::session::withdraw_grant;
use muqun_work::work_execution::session::workspace_binding;
use muqun_work::work_execution::session::Pane;
use muqun_work::work_execution::session::Placement;
use muqun_work::work_execution::start::BindingReply;
use muqun_work::work_execution::start::LaunchReply;
use muqun_work::work_execution::NativeAnswer;
use muqun_work::work_execution::NativeFailure;
use muqun_work::work_http::revoke_local_authority;

fn input() -> CreateTask {
    CreateTask {
        repo_path: "/project".into(),
        title: "Task".into(),
        brief: "Work".into(),
        parent_task_id: None,
        policy: TaskPolicy { allowed_agents: vec!["codex".into()], max_workers: 4 },
    }
}

fn at(seen: Observation) -> Moment {
    Moment { seen, device: Ok(()), now: 50 }
}

fn asked(key: &str, revision: u64) -> CreateChildRequest {
    CreateChildRequest {
        request_key: key.into(),
        expected_parent_revision: revision,
        title: "Child".into(),
        brief: "Part".into(),
        policy: TaskPolicy { allowed_agents: vec!["codex".into()], max_workers: 1 },
        dependencies: Vec::new(),
        input_refs: Vec::new(),
    }
}

fn revision(store: &WorkStore, task: &str) -> u64 {
    store.detail("s", task).unwrap().task.revision
}

struct World {
    store: WorkStore,
    registry: Registry,
    task: Task,
    scope: Scope,
    token: String,
}

/// A task whose lead runs, holds a grant and coordinates.
fn coordinated() -> World {
    let mut store = WorkStore::in_memory().unwrap();
    let mut registry = Registry::new();
    let task = store.create_task("phone", "s", "task", input(), 1).unwrap().value;
    let start = store
        .prepare_attempt(
            "phone",
            "s",
            &task.id,
            "start",
            task.revision,
            NewAttempt { agent_kind: "codex".into(), role: AttemptRole::Lead },
            "launch",
            2,
        )
        .unwrap()
        .value;
    store.begin_operation("s", &start.id, 3).unwrap();
    store.claim_start_dispatch("s", &start.id, 4).unwrap();
    let (scope, issuance) =
        grant_launch(&store, &mut registry, "s", &start.id, "/grants", "/socket", 4).unwrap();
    assert!(issuance.stale.is_empty());
    let issued = issuance.issued.unwrap();
    assert_eq!(scope.task_id, task.id);
    assert_eq!(issued.path, format!("/grants/{}.json", scope.attempt_id));
    assert_eq!(issued.context.socket, "/socket");
    let binding =
        NativeBinding { instance_id: Some("launch".into()), ..NativeBinding::default() };
    store.confirm_start_launch("s", &start.id, binding, "owner", 5).unwrap();
    store
        .finalize_operation(
            "s",
            &start.id,
            OperationOutcome {
                state: OperationState::Acknowledged,
                resources: NativeBinding::default(),
                failure_code: None,
            },
            6,
        )
        .unwrap();
    let request = ConfigureRequest {
        request_key: "delegate".into(),
        expected_revision: revision(&store, &task.id),
        input: DelegationConfig {
            policy: DelegationPolicy {
                enabled: true,
                max_children: 2,
                max_depth: 1,
                dependency_requirement: DependencyRequirement::ResultAvailable,
            },
            coordinator_attempt_id: Some(scope.attempt_id.clone()),
        },
    };
    let detail = store.detail("s", &task.id).unwrap();
    let lead = coordinator_to_see(&detail, &request.input).unwrap();
    {
        let seen = lead.as_ref().unwrap();
        assert_eq!(seen.instance_id, "launch");
        assert_eq!(seen.owner_epoch, "owner");
    }
    configure(&mut registry, &mut store, "phone", "s", &task.id, request, lead, 7).unwrap();
    World { store, registry, task, scope, token: issued.context.token }
}

fn lead_of(world: &World) -> WorkActor {
    WorkActor::local_lead(&world.registry, world.token.clone(), 40).unwrap()
}

#[test]
fn only_a_running_lead_is_looked_at() {
    let world = coordinated();
    let detail = world.store.detail("s", &world.task.id).unwrap();
    let asked = |enabled: bool, attempt: Option<&str>| DelegationConfig {
        policy: DelegationPolicy { enabled, ..DelegationPolicy::default() },
        coordinator_attempt_id: attempt.map(str::to_owned),
    };
    assert!(coordinator_to_see(&detail, &asked(false, None)).unwrap().is_none());
    assert_eq!(
        coordinator_to_see(&detail, &asked(true, Some("stranger"))).unwrap_err().0,
        FailureCode::ScopeMismatch
    );
    require_live(&Lifecycle::Live).unwrap();
    assert_eq!(require_live(&Lifecycle::Unknown).unwrap_err().0, FailureCode::NotReady);
    let gone = Lifecycle::Exited { receipt_id: "receipt".into() };
    assert_eq!(require_live(&gone).unwrap_err().0, FailureCode::NotReady);
}

#[test]
fn a_lead_creates_reads_and_orders_its_children() {
    let mut world = coordinated();
    let lead = lead_of(&world);
    assert!(lead.is_local());
    assert_eq!(lead.local_scope().unwrap(), world.scope);
    let mut made = Vec::new();
    for key in ["one", "two"] {
        let request = asked(key, revision(&world.store, &world.task.id));
        let unseen = at(Observation::Unknown);
        let plan = lead.plan_child(&world.registry, &world.store, &request, &unseen).unwrap();
        let ChildPlan::Render { input, inputs } = plan else { panic!("{key} was made before") };
        assert!(inputs.is_empty());
        assert_eq!(input.parent_task_id.as_deref(), Some(world.task.id.as_str()));
        assert_eq!(input.repo_path, "/project");
        let mutation = lead
            .create_child(
                &mut world.registry,
                &mut world.store,
                request,
                input,
                &at(Observation::Live),
            )
            .unwrap();
        assert!(!mutation.replayed);
        made.push(mutation.value);
    }
    // Its allowance is used up.
    let request = asked("three", revision(&world.store, &world.task.id));
    let plan =
        lead.plan_child(&world.registry, &world.store, &request, &at(Observation::Unknown));
    if let Ok(ChildPlan::Render { input, .. }) = plan {
        assert_eq!(
            lead.create_child(
                &mut world.registry,
                &mut world.store,
                request,
                input,
                &at(Observation::Live),
            )
            .unwrap_err()
            .0,
            FailureCode::ResourceLimit
        );
    }

    let read = |task: &str, kind: Option<&str>| ChildReadRequest {
        task_id: task.to_owned(),
        kind: kind.map(str::to_owned),
        snapshot_revision: None,
        after_id: None,
        record_id: None,
    };
    let now = at(Observation::Unknown);
    let found = lead
        .read_child(&world.registry, &world.store, "s", &read(&made[0].id, None), &now)
        .unwrap();
    match found {
        ChildRecord::Task { task, .. } => assert_eq!(task.id, made[0].id),
        _ => panic!("a child is read as a task"),
    }
    // A page needs the snapshot that it belongs to, and no other task can be read.
    assert_eq!(
        lead.read_child(
            &world.registry,
            &world.store,
            "s",
            &read(&made[0].id, Some("results")),
            &now
        )
        .unwrap_err()
        .0,
        FailureCode::InvalidInput
    );
    assert!(lead
        .read_child(&world.registry, &world.store, "s", &read(&world.task.id, None), &now)
        .is_err());

    let request = || DependencyUpdateRequest {
        request_key: "order".into(),
        expected_revision: made[1].revision,
        dependencies: vec![TaskDependency {
            prerequisite_task_id: made[0].id.clone(),
            submission_id: None,
        }],
    };
    assert!(lead
        .replay_child_dependencies(&world.registry, &world.store, &made[1].id, &request(), &now)
        .unwrap()
        .is_none());
    let set = lead
        .set_child_dependencies(
            &mut world.registry,
            &mut world.store,
            &Ids::fresh(),
            &made[1].id,
            request(),
            &at(Observation::Live),
        )
        .unwrap();
    assert_eq!(set.value.dependencies.len(), 1);
    let again = lead
        .replay_child_dependencies(&world.registry, &world.store, &made[1].id, &request(), &now)
        .unwrap()
        .unwrap();
    assert!(again.replayed);

    let receipt = lead
        .child_receipt(
            &world.registry,
            &world.store,
            "s",
            OperationKind::CreateTask,
            "one",
            &now,
        )
        .unwrap();
    match receipt.value {
        ReceiptValue::Task(task) => assert_eq!(task.id, made[0].id),
        other => panic!("{other:?}"),
    }
    assert!(lead
        .child_operation(&world.registry, &world.store, "s", "stranger", &now)
        .is_err());
}

#[test]
fn an_exited_lead_can_do_nothing_more() {
    let mut world = coordinated();
    let lead = lead_of(&world);
    let request = asked("late", revision(&world.store, &world.task.id));
    let plan = lead
        .plan_child(&world.registry, &world.store, &request, &at(Observation::Unknown))
        .unwrap();
    let ChildPlan::Render { input, .. } = plan else { panic!("made before") };
    let kept = world.store.clone();
    assert!(lead
        .create_child(
            &mut world.registry,
            &mut world.store,
            request,
            input,
            &at(Observation::Exited),
        )
        .is_err());
    assert_eq!(world.store, kept);
    // What was seen took its authority to coordinate, and left its grant to report.
    assert!(WorkActor::local_lead(&world.registry, world.token.clone(), 40).is_err());
    assert_eq!(world.registry.identify(&world.token, 40).unwrap(), world.scope);
}

#[test]
fn a_revoked_grant_identifies_nobody() {
    let mut world = coordinated();
    let stranger = Scope {
        session_id: "s".into(),
        task_id: world.task.id.clone(),
        attempt_id: "stranger".into(),
    };
    assert_eq!(
        revoke_local_authority(&world.store, &mut world.registry, &stranger).unwrap_err().0,
        FailureCode::ScopeMismatch
    );
    let (revoked, files) =
        revoke_local_authority(&world.store, &mut world.registry, &world.scope).unwrap();
    assert!(revoked);
    assert_eq!(files, vec![format!("/grants/{}.json", world.scope.attempt_id)]);
    assert!(world.registry.identify(&world.token, 40).is_err());
    let (again, files) =
        revoke_local_authority(&world.store, &mut world.registry, &world.scope).unwrap();
    assert!(!again && files.is_empty());
}

#[test]
fn capabilities_decide_what_the_native_side_is_asked() {
    let both = vec!["instance_bound_start".to_string(), "instance_bound_prompt".to_string()];
    assert!(supported(true, &both));
    assert!(!supported(false, &both));
    assert!(!supported(true, &both[..1]));
    assert_eq!(interruptible(&both).unwrap_err().0, FailureCode::CapabilityUnavailable);
    interruptible(&["instance_bound_interrupt".to_string()]).unwrap();
    let reporting = vec!["reporting_mcp_codex".to_string()];
    let unsupported = NativeAnswer::Failed(NativeFailure::Unsupported);
    assert!(needs_reporting("codex") && !needs_reporting("opencode"));
    assert_eq!(preflight_start("codex", &reporting, true), NativeAnswer::Done);
    assert_eq!(preflight_start("codex", &reporting, false), unsupported);
    assert_eq!(preflight_start("codex", &both, true), unsupported);
    assert_eq!(preflight_start("opencode", &[], false), NativeAnswer::Done);
    let changed = NativeAnswer::Failed(NativeFailure::Refused {
        code: Some("instance_changed".into()),
    });
    let owner = Some("owner".to_string());
    assert_eq!(preflight_owner(&owner, &Lifecycle::Live), NativeAnswer::Done);
    assert_eq!(preflight_owner(&owner, &Lifecycle::Unknown), changed);
    assert_eq!(preflight_owner(&None, &Lifecycle::Unknown), NativeAnswer::Done);
}

#[test]
fn a_launch_is_barred_before_the_native_side_is_asked() {
    let failed = |failure: NativeFailure| Some(LaunchReply::Failed(failure));
    assert_eq!(bar_launch(true, NativeAnswer::Done, true), None);
    assert_eq!(bar_launch(false, NativeAnswer::Done, false), failed(NativeFailure::Unsupported));
    assert_eq!(bar_launch(true, NativeAnswer::Done, false), failed(NativeFailure::Other));
    let refusal = || NativeFailure::Refused { code: None };
    assert_eq!(bar_launch(true, NativeAnswer::Failed(refusal()), true), failed(refusal()));
    assert_eq!(
        ungranted(),
        LaunchReply::Failed(NativeFailure::Refused {
            code: Some("local_authority_unavailable".into())
        })
    );
}

#[test]
fn places_and_panes_are_bound() {
    let worktree = placed(Placement {
        workspace_id: "w".into(),
        pane_id: "p".into(),
        path: Some("/tree".into()),
    });
    assert_eq!(worktree.pane_id.as_deref(), Some("p"));
    assert_eq!(worktree.worktree_path.as_deref(), Some("/tree"));
    // A pane that is known is not looked for.
    assert_eq!(locate(&worktree, &[]), BindingReply::Bound(NativeBinding::default()));
    let plain = workspace_binding("w".into());
    let pane = |id: &str, workspace: &str| Pane {
        id: id.into(),
        tab_id: format!("tab-{id}"),
        workspace_id: workspace.into(),
    };
    let panes = [pane("a", "other"), pane("b", "w"), pane("c", "w")];
    match locate(&plain, &panes) {
        BindingReply::Bound(found) => {
            assert_eq!(found.pane_id.as_deref(), Some("b"));
            assert_eq!(found.tab_id.as_deref(), Some("tab-b"));
        }
        other => panic!("{other:?}"),
    }
    assert!(matches!(locate(&plain, &panes[..1]), BindingReply::Failed(NativeFailure::Other)));
}

#[test]
fn a_grant_is_withdrawn_only_where_nothing_was_started() {
    for (reply, withdrawn) in [
        (launched(Some("launch".into()), None, Some("owner".into())), false),
        (LaunchReply::Failed(NativeFailure::Other), false),
        (
            LaunchReply::Failed(NativeFailure::StartNotStarted {
                operation_id: "op".into(),
                owner_epoch: "owner".into(),
                receipt_id: "receipt".into(),
                code: None,
            }),
            true,
        ),
    ] {
        let mut world = coordinated();
        let files = withdraw_grant(&mut world.registry, &world.scope, &reply);
        assert_eq!(files.is_empty(), !withdrawn);
        assert_eq!(world.registry.identify(&world.token, 40).is_err(), withdrawn);
    }
}

#[test]
fn a_prompt_is_received_by_its_own_process_only() {
    let mut world = coordinated();
    let lead = world.scope.attempt_id.clone();
    let now = revision(&world.store, &world.task.id);
    let op = world
        .store
        .prepare_delivery("phone", "s", &world.task.id, &lead, "go", now, "launch", "Go on", 8)
        .unwrap()
        .value;
    let other = NativeAnswer::Failed(NativeFailure::Other);
    assert_eq!(prompt_received(&op, &op.id, "launch"), NativeAnswer::Done);
    assert_eq!(prompt_received(&op, "stranger", "launch"), other);
    assert_eq!(prompt_received(&op, &op.id, "stranger"), other);
}

#[test]
fn identifiers_are_ordered_by_their_bytes() {
    assert!(text_before("a", "b") && !text_before("b", "a"));
    assert!(text_before("a", "aa") && !text_before("a", "a"));
    assert!(text_before("", "a") && text_before("Z", "a") && text_before("z", "é"));
    for (a, b) in [("a", "b"), ("", "x"), ("é", "🙂"), ("10", "9")] {
        assert_eq!(text_before(a, b), a.as_bytes() < b.as_bytes());
        assert_eq!(text_before(b, a), b.as_bytes() < a.as_bytes());
    }
}
