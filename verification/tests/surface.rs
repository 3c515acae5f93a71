//! What a paired device is shown and may do, and what it is refused.
use muqun_work::digest::bytes_digest;
use muqun_work::work::model::ArtifactRef;
use muqun_work::work::model::AttemptRole;
use muqun_work::work::model::CreateTask;
use muqun_work::work::model::DelegationConfig;
use muqun_work::work::model::DelegationPolicy;
use muqun_work::work::model::FailureCode;
use muqun_work::work::model::FrozenInputRef;
use muqun_work::work::model::InputUse;
use muqun_work::work::model::InterruptInput;
use muqun_work::work::model::InterruptionReceipt;
use muqun_work::work::model::NativeBinding;
use muqun_work::work::model::NewAttempt;
use muqun_work::work::model::OperationKind;
use muqun_work::work::model::OperationOutcome;
use muqun_work::work::model::OperationState;
use muqun_work::work::model::PauseInput;
use muqun_work::work::model::ReceiptValue;
use muqun_work::work::model::Reservation;
use muqun_work::work::model::ResultInput;
use muqun_work::work::model::Task;
use muqun_work::work::model::TaskPolicy;
use muqun_work::work::model::WorkError;
use muqun_work::work::store::opening;
use muqun_work::work::store::tables::WorkStore;
use muqun_work::work_actor::Ids;
use muqun_work::work_actor::Observation;
use muqun_work::work_actor::WorkActor;
use muqun_work::work_artifacts::FileRead;
use muqun_work::work_artifacts::FileState;
use muqun_work::work_authority::Registry;
use muqun_work::work_delegation::configure;
use muqun_work::work_delegation::ConfigureRequest;
use muqun_work::work_events::events;
use muqun_work::work_events::Pause;
use muqun_work::work_events::StreamStep;
use muqun_work::work_execution::NativeFailure;
use muqun_work::work_http::admit_start;
use muqun_work::work_http::artifact_content;
use muqun_work::work_http::list_tasks;
use muqun_work::work_http::page_limit;
use muqun_work::work_http::plan_create;
use muqun_work::work_http::set_paused;
use muqun_work::work_http::task_detail;
use muqun_work::work_http::task_summaries;
use muqun_work::work_http::timestamp;
use muqun_work::work_http::validate_id;
use muqun_work::work_http::work_error;
use muqun_work::work_http::CreatePlan;
use muqun_work::work_http::CreateRequest;
use muqun_work::work_inputs::authorize_device;
use muqun_work::work_inputs::describe_upload;
use muqun_work::work_inputs::resolve_input;
use muqun_work::work_inputs::Access;
use muqun_work::work_inputs::FormFailure;
use muqun_work::work_inputs::UploadForm;
use muqun_work::work_inputs::MAX_INPUT_BYTES;
use muqun_work::work_interrupt::bound_interrupt;
use muqun_work::work_interrupt::dispatch_interrupt;
use muqun_work::work_interrupt::end_interrupt;
use muqun_work::work_interrupt::InterruptReply;

fn input(title: &str) -> CreateTask {
    CreateTask {
        repo_path: "/repo".into(),
        title: title.into(),
        brief: "Work".into(),
        parent_task_id: None,
        policy: TaskPolicy { allowed_agents: vec!["codex".into()], max_workers: 0 },
    }
}

#[test]
fn production_actor_rejects_admin_unknown_and_forged_identity() {
    // The administrator's token and an unknown one identify no device.
    for (identified, id) in [
        (None, "phone"),
        (None, "phone"),
        (Some("phone"), "another-device"),
    ] {
        assert!(WorkActor::paired(identified, id).is_err());
    }
    assert!(WorkActor::paired(Some("phone"), "phone").is_ok());
}

#[test]
fn captured_actor_revalidates_revocation_before_any_store_action() {
    let actor = WorkActor::paired(Some("phone"), "phone").unwrap();
    assert_eq!(actor.id(), "phone");
    assert!(!actor.is_local());
    assert!(actor.commit(Ok(())).is_ok());
    let gone = actor.commit(Err(WorkError(FailureCode::ScopeMismatch)));
    assert_eq!(gone.unwrap_err().0, FailureCode::ScopeMismatch);
    assert!(actor.assert_actor("phone").is_ok());
    assert_eq!(actor.assert_actor("other").unwrap_err().0, FailureCode::ScopeMismatch);
    assert!(actor.local_scope().is_err());
    let mut registry = Registry::new();
    assert!(actor.observe_controller(&mut registry, Observation::Failed).is_ok());
}

#[test]
fn pagination_and_errors_are_bounded() {
    assert_eq!(page_limit(None).unwrap(), 50);
    assert!(page_limit(Some(0)).is_err());
    assert!(page_limit(Some(101)).is_err());
    assert!(validate_id(&"x".repeat(257)).is_err());
    assert_eq!(work_error(WorkError(FailureCode::StorageUnavailable)).0, 503);
    assert_eq!(work_error(WorkError(FailureCode::RevisionConflict)).0, 409);
}

#[test]
fn every_refusal_has_its_status_and_its_word() {
    for (code, status, word) in [
        (FailureCode::InvalidInput, 400, "invalid_input"),
        (FailureCode::NotFound, 404, "not_found"),
        (FailureCode::ScopeMismatch, 403, "scope_mismatch"),
        (FailureCode::RevisionConflict, 409, "revision_conflict"),
        (FailureCode::RequestKeyConflict, 409, "request_key_conflict"),
        (FailureCode::CapabilityUnavailable, 501, "capability_unavailable"),
        (FailureCode::InstanceChanged, 409, "instance_changed"),
        (FailureCode::NotReady, 409, "not_ready"),
        (FailureCode::ApprovalRequired, 409, "approval_required"),
        (FailureCode::DeliveryUnconfirmed, 409, "delivery_unconfirmed"),
        (FailureCode::ArtifactChanged, 409, "artifact_changed"),
        (FailureCode::ArtifactMissing, 409, "artifact_missing"),
        (FailureCode::InputExpired, 409, "input_expired"),
        (FailureCode::ResourceLimit, 429, "resource_limit"),
        (FailureCode::StorageUnavailable, 503, "storage_unavailable"),
    ] {
        assert_eq!(work_error(WorkError(code)), (status, word));
    }
}

#[test]
fn identifiers_and_times_keep_to_their_bounds() {
    assert!(validate_id("x").is_ok());
    assert!(validate_id(&"x".repeat(256)).is_ok());
    assert!(validate_id("").is_err());
    assert_eq!(page_limit(Some(100)).unwrap(), 100);
    assert_eq!(timestamp(5), 5);
    assert_eq!(timestamp(u128::MAX), i64::MAX);
}

#[test]
fn delegation_pause_requires_paired_authority_and_exact_revision() {
    let mut store = WorkStore::in_memory().unwrap();
    let task = store.create_task("phone", "session", "create", input("Task"), 1).unwrap().value;
    assert!(WorkActor::paired(None, "phone").is_err());
    let mut pause = |key: &str, paused: bool| {
        set_paused(
            &mut store,
            "phone",
            "session",
            &task.id,
            key,
            1,
            PauseInput { paused },
            2,
        )
    };
    let updated = pause("pause", true).unwrap();
    assert!(updated.value.paused);
    assert_eq!(updated.value.revision, 2);
    let replay = pause("pause", true).unwrap();
    assert!(replay.replayed);
    let conflict = pause("stale-resume", false);
    assert_eq!(work_error(conflict.unwrap_err()).0, 409);
}

#[test]
fn session_reads_cannot_access_another_sessions_records() {
    let mut store = WorkStore::in_memory().unwrap();
    let task = store
        .create_task("phone", "another-session", "seed", input("Private task"), 1)
        .unwrap()
        .value;
    let missing = task_detail(&store, "session", &task.id);
    assert_eq!(work_error(missing.unwrap_err()).0, 404);
    let listed = list_tasks(&store, "session", None, None).unwrap();
    assert!(listed.tasks.is_empty());
    assert_eq!(list_tasks(&store, "another-session", None, None).unwrap().tasks, vec![task]);
}

#[test]
fn summaries_are_scoped_compact_and_snapshot_pinned() {
    let mut store = WorkStore::in_memory().unwrap();
    for (index, scope) in ["session", "session", "foreign"].iter().enumerate() {
        let mut wanted = input(&format!("Task {index}"));
        wanted.brief = "Never expose this brief".into();
        wanted.policy.max_workers = 1;
        store.create_task("phone", scope, &format!("summary-{index}"), wanted, 1).unwrap();
    }
    let first = task_summaries(&store, "session", Some(1), None, None).unwrap();
    assert_eq!(first.items.len(), 1);
    assert_eq!(first.items[0].session_id, "session");
    let after = first.next_after_id.clone().unwrap();
    let cursor = Some(first.snapshot_cursor);
    let second = task_summaries(&store, "session", Some(1), Some(&after), cursor).unwrap();
    assert_eq!(second.items.len(), 1);
    assert_ne!(second.items[0].task_id, first.items[0].task_id);
    assert!(second.next_after_id.is_none());
    store
        .set_paused(
            "phone",
            "session",
            &first.items[0].task_id,
            "pause-summary",
            first.items[0].task_revision,
            PauseInput { paused: true },
            2,
        )
        .unwrap();
    let stale = task_summaries(&store, "session", Some(1), Some(&after), cursor);
    assert_eq!(work_error(stale.unwrap_err()).0, 409);
    for (limit, cursor) in [(Some(21), None), (None, Some(1))] {
        let refused = task_summaries(&store, "session", limit, None, cursor);
        assert_eq!(work_error(refused.unwrap_err()).0, 400);
    }
}

#[test]
fn receipt_lookup_is_paired_actor_scoped_and_read_only() {
    let mut store = WorkStore::in_memory().unwrap();
    let task =
        store.create_task("phone", "session", "recover", input("Recover"), 1).unwrap().value;
    let other = store.get_receipt("other", "session", OperationKind::CreateTask, "recover");
    assert_eq!(work_error(other.unwrap_err()).0, 404);
    let found =
        store.get_receipt("phone", "session", OperationKind::CreateTask, "recover").unwrap();
    assert_eq!(found.value, ReceiptValue::Task(task.clone()));
    assert_eq!(store.detail("session", &task.id).unwrap().task, task);
}

#[test]
fn artifact_submission_replays_after_source_deletion_and_retrieval_checks_membership() {
    let mut store = WorkStore::in_memory().unwrap();
    let mut wanted = input("Task");
    wanted.policy.max_workers = 1;
    let task = store.create_task("phone", "session", "create", wanted, 1).unwrap().value;
    let operation = store
        .prepare_attempt(
            "phone",
            "session",
            &task.id,
            "attempt",
            task.revision,
            NewAttempt { agent_kind: "codex".into(), role: AttemptRole::Lead },
            "digest",
            2,
        )
        .unwrap()
        .value;
    let revision = store.detail("session", &task.id).unwrap().task.revision;
    let result = ResultInput {
        attempt_id: operation.attempt_id.unwrap(),
        summary: "Submitted".into(),
        evidence: vec![],
        artifacts: vec![ArtifactRef {
            path: "result.html".into(),
            sha256: bytes_digest(b"<script>unsafe()</script>"),
            size_bytes: 25,
        }],
    };
    let submission = store
        .submit_result("device", "session", &task.id, "result", revision, result.clone(), 3)
        .unwrap();
    assert!(!submission.replayed);
    let replay = store
        .submit_result("device", "session", &task.id, "result", revision, result.clone(), 4)
        .unwrap();
    assert!(replay.replayed);
    assert_eq!(submission.value.id, replay.value.id);
    let content =
        artifact_content(&store, "session", &task.id, &submission.value.id, 0).unwrap();
    assert_eq!(content, result.artifacts[0]);
    let invalid = artifact_content(&store, "session", &task.id, "another-submission", 0);
    assert_eq!(work_error(invalid.unwrap_err()).0, 404);
    let invalid = artifact_content(&store, "session", &task.id, &submission.value.id, 1);
    assert_eq!(work_error(invalid.unwrap_err()).0, 404);
}

#[test]
fn creation_is_planned_before_its_prompt_is_rendered() {
    let mut store = WorkStore::in_memory().unwrap();
    let request =
        CreateRequest { request_key: "one".into(), input_refs: vec![], input: input("Task") };
    let unknown = plan_create(&store, "phone", "session", &request, false, Some("/repo"), 1);
    assert!(unknown.is_err());
    let plan = plan_create(&store, "phone", "session", &request, true, Some("/real"), 1).unwrap();
    match plan {
        CreatePlan::Render { input, inputs } => {
            assert_eq!(input.repo_path, "/real");
            assert!(inputs.is_empty());
        }
        CreatePlan::Replayed(_) => panic!("nothing was created yet"),
    }
    let made = store.create_task("phone", "session", "one", input("Task"), 1).unwrap().value;
    match plan_create(&store, "phone", "session", &request, true, Some("/repo"), 2).unwrap() {
        CreatePlan::Replayed(found) => {
            assert!(found.replayed);
            assert_eq!(found.value, made);
        }
        CreatePlan::Render { .. } => panic!("the task was created"),
    }
    assert!(admit_start(true, true, "/repo", Some("/repo")).is_ok());
    assert!(admit_start(false, true, "/repo", Some("/repo")).is_err());
    assert!(admit_start(true, false, "/repo", Some("/repo")).is_err());
    assert!(admit_start(true, true, "/repo", Some("/other")).is_err());
    assert!(admit_start(true, true, "/repo", None).is_err());
}

#[test]
fn stream_replays_only_scoped_changes_and_closes_on_reset() {
    let mut store = WorkStore::in_memory().unwrap();
    store.create_task("phone", "another-session", "foreign", input("Task"), 1).unwrap();
    store.create_task("phone", "session", "own", input("Task"), 2).unwrap();
    match events(&store, "session", 0, true) {
        StreamStep::Emit { name, page, pause } => {
            assert_eq!(name, "work.changes");
            assert_eq!(page.changes.len(), 1);
            assert_eq!(page.cursor, 2);
            assert_eq!(pause, Pause::Wait);
        }
        _ => panic!("there is a change to tell"),
    }
    match events(&store, "session", 999, true) {
        StreamStep::Emit { name, page, pause } => {
            assert_eq!(name, "work.reset");
            assert!(page.reset_required);
            assert_eq!(pause, Pause::Close);
        }
        _ => panic!("the reader is told to start over"),
    }
}

#[test]
fn revocation_before_first_page_closes_without_task_data() {
    let store = WorkStore::in_memory().unwrap();
    assert!(matches!(events(&store, "session", 0, false), StreamStep::Close));
}

#[test]
fn paired_disable_replays_without_reactivation_and_rejects_admin() {
    let mut store = WorkStore::in_memory().unwrap();
    let mut registry = Registry::new();
    let task = store.create_task("phone", "session", "task", input("Task"), 1).unwrap().value;
    let request = || ConfigureRequest {
        request_key: "disable".into(),
        expected_revision: task.revision,
        input: DelegationConfig {
            policy: DelegationPolicy::default(),
            coordinator_attempt_id: None,
        },
    };
    let mut configured = |now: i64| {
        configure(
            &mut registry,
            &mut store,
            "phone",
            "session",
            &task.id,
            request(),
            None,
            now,
        )
    };
    let first = configured(2).unwrap();
    assert!(!first.replayed);
    let replay = configured(3).unwrap();
    assert!(replay.replayed);
    assert_eq!(
        replay.value.delegation.coordinator_epoch,
        first.value.delegation.coordinator_epoch
    );
    // The administrator's token identifies no device, and a rotated key has to be proven.
    assert_eq!(authorize_device(None, "phone", false, false), Access::InvalidToken);
    assert_eq!(authorize_device(Some("phone"), "phone", true, false), Access::ProofRequired);
    assert_eq!(authorize_device(Some("phone"), "phone", true, true), Access::Granted);
    assert_eq!(authorize_device(Some("phone"), "phone", false, false), Access::Granted);
    assert_eq!(authorize_device(Some("other"), "phone", false, false), Access::InvalidToken);
}

#[test]
fn immutable_input_resolution_rejects_changed_missing_bytes_and_mime() {
    let data = b"reference content";
    let digest = bytes_digest(data);
    let mut input = FrozenInputRef {
        input_id: "d4d30000-0000-4000-8000-000000000001".into(),
        caption: "untrusted caption".into(),
        use_: InputUse::default(),
        name: "reference.txt".into(),
        mime: "text/plain; charset=utf-8".into(),
        size_bytes: data.len() as u64,
        sha256: digest.clone(),
    };
    let state = |size: u64| FileState {
        regular: true,
        size,
        device: 1,
        inode: 2,
        modified: 3,
        modified_nanos: 4,
        changed: 5,
        changed_nanos: 6,
    };
    let read = |content: &[u8]| FileRead {
        before: state(content.len() as u64),
        content: content.to_vec(),
        after: state(content.len() as u64),
    };
    let seen = Some("text/plain; charset=utf-8");
    assert_eq!(
        resolve_input("/blobs", &input, Ok(read(data)), seen).unwrap(),
        format!("/blobs/{digest}")
    );
    input.mime = "image/png".into();
    assert_eq!(
        resolve_input("/blobs", &input, Ok(read(data)), seen).unwrap_err().0,
        FailureCode::ArtifactChanged
    );
    input.mime = "text/plain; charset=utf-8".into();
    assert_eq!(
        resolve_input("/blobs", &input, Ok(read(b"changed")), seen).unwrap_err().0,
        FailureCode::ArtifactChanged
    );
    let missing = Err(WorkError(FailureCode::ArtifactMissing));
    assert_eq!(
        resolve_input("/blobs", &input, missing, seen).unwrap_err().0,
        FailureCode::ArtifactMissing
    );
}

fn fill(form: &mut UploadForm, name: &str, file: Option<&str>, bytes: &[u8]) -> Result<(), FormFailure> {
    let mut field = form.open(Some(name), file)?;
    field.extend(bytes)?;
    form.close(field)
}

#[test]
fn upload_fields_come_once_and_within_their_sizes() {
    let mut form = UploadForm::new();
    fill(&mut form, "request_key", None, b"key").unwrap();
    assert_eq!(fill(&mut form, "request_key", None, b"again").unwrap_err(), FormFailure::Invalid);
    let mut form = UploadForm::new();
    assert_eq!(fill(&mut form, "actor", None, b"phone").unwrap_err(), FormFailure::Invalid);
    let large = vec![b'x'; MAX_INPUT_BYTES + 1];
    assert_eq!(
        fill(&mut form, "file", Some("note.txt"), &large).unwrap_err(),
        FormFailure::TooLarge
    );
    fill(&mut form, "request_key", None, b"key").unwrap();
    assert_eq!(fill(&mut form, "repo_path", None, b"\xff\xfe").unwrap_err(), FormFailure::Invalid);
    fill(&mut form, "repo_path", None, "/tmp/\u{e9}".as_bytes()).unwrap();
    fill(&mut form, "file", Some("note.txt"), &large[1..]).unwrap();
    let parsed = form.finish().unwrap();
    assert_eq!(parsed.key, "key");
    assert_eq!(parsed.project, "/tmp/\u{e9}");
    assert_eq!(parsed.name, "note.txt");
    assert_eq!(parsed.bytes.len(), MAX_INPUT_BYTES);
    assert_eq!(UploadForm::new().finish().unwrap_err(), FormFailure::Invalid);
    let described = describe_upload(
        &b"abc".to_vec(),
        "/tmp".into(),
        "note.txt".into(),
        "text/plain".into(),
    );
    assert_eq!(described.size_bytes, 3);
    assert_eq!(
        described.sha256,
        "ba7816bf8f01cfea414140de5dae2223b00361a396177a9cb410ff61f20015ad"
    );
}

fn launched(store: &mut WorkStore) -> (Task, String, InterruptInput) {
    let task = store.create_task("phone", "default", "task", input("Task"), 1).unwrap().value;
    let start = store
        .prepare_attempt(
            "phone",
            "default",
            &task.id,
            "start",
            task.revision,
            NewAttempt { agent_kind: "codex".into(), role: AttemptRole::Lead },
            "digest",
            2,
        )
        .unwrap()
        .value;
    store.begin_operation("default", &start.id, 3).unwrap();
    store.claim_start_dispatch("default", &start.id, 4).unwrap();
    store
        .confirm_start_launch(
            "default",
            &start.id,
            NativeBinding { instance_id: Some("launch".into()), ..NativeBinding::default() },
            "owner",
            5,
        )
        .unwrap();
    store
        .finalize_operation(
            "default",
            &start.id,
            OperationOutcome {
                state: OperationState::Acknowledged,
                resources: NativeBinding::default(),
                failure_code: None,
            },
            6,
        )
        .unwrap();
    let revision = store.detail("default", &task.id).unwrap().task.revision;
    (
        task,
        start.attempt_id.unwrap(),
        InterruptInput {
            request_key: "interrupt".into(),
            expected_revision: revision,
            expected_instance_id: "launch".into(),
            expected_native_owner_epoch: "owner".into(),
        },
    )
}

fn dispatch(
    store: &mut WorkStore,
    task: &str,
    attempt: &str,
    input: InterruptInput,
) -> muqun_work::work::model::WorkResult<
    muqun_work::work::model::Mutation<muqun_work::work::model::Operation>,
> {
    dispatch_interrupt(store, &Ids::fresh(), "phone", "default", task, attempt, input, 7)
}

#[test]
fn interruption_replays_without_discovery_and_preserves_write_receipt_after_revocation() {
    let mut store = WorkStore::in_memory().unwrap();
    let (task, attempt, input) = launched(&mut store);
    let begun = dispatch(&mut store, &task.id, &attempt, input.clone()).unwrap();
    assert!(!begun.replayed);
    assert_eq!(begun.value.state, OperationState::Submitting);
    let bound = bound_interrupt(&begun.value).unwrap();
    assert_eq!(bound.operation_id, begun.value.id);
    assert_eq!(bound.expected_launch_id, "launch");
    assert_eq!(bound.expected_owner_epoch, "owner");
    let receipt = InterruptionReceipt {
        operation_id: begun.value.id.clone(),
        launch_id: "launch".into(),
        owner_epoch: "owner".into(),
        receipt_id: "receipt".into(),
        key: "Escape".into(),
        bytes_written: 1,
        input_disposition: "written".into(),
    };
    let original = end_interrupt(
        &mut store,
        "default",
        &begun.value.id,
        InterruptReply::Received(receipt.clone()),
        8,
    )
    .unwrap();
    assert_eq!(original.value.state, OperationState::Acknowledged);
    assert_eq!(original.value.interruption_receipt, Some(receipt));
    let replay = dispatch(&mut store, &task.id, &attempt, input).unwrap();
    assert!(replay.replayed);
    assert_eq!(replay.value.interruption_receipt, original.value.interruption_receipt);
    let detail = store.detail("default", &task.id).unwrap();
    assert_eq!(detail.attempts[0].lifecycle.reservation, Reservation::Reserved);
}

#[test]
fn interruption_authority_and_binding_refusals_never_dispatch() {
    let mut store = WorkStore::in_memory().unwrap();
    let (task, attempt, input) = launched(&mut store);
    let mut wrong = input;
    wrong.expected_instance_id = "replacement".into();
    assert!(dispatch(&mut store, &task.id, &attempt, wrong).is_err());
    let detail = store.detail("default", &task.id).unwrap();
    assert!(!detail.operations.iter().any(|op| op.kind == OperationKind::InterruptAttempt));
}

#[test]
fn interruption_uncertainty_is_retained_and_capacity_is_definitely_refused() {
    for (code, expected) in [
        ("delivery_unconfirmed", OperationState::Unconfirmed),
        ("resource_limit", OperationState::Refused),
    ] {
        let mut store = WorkStore::in_memory().unwrap();
        let (task, attempt, input) = launched(&mut store);
        let begun = dispatch(&mut store, &task.id, &attempt, input.clone()).unwrap();
        let reply = InterruptReply::Failed(NativeFailure::Refused { code: Some(code.into()) });
        let result =
            end_interrupt(&mut store, "default", &begun.value.id, reply, 8).unwrap();
        assert_eq!(result.value.state, expected);
        let replay = dispatch(&mut store, &task.id, &attempt, input).unwrap();
        assert!(replay.replayed);
        assert_eq!(replay.value.state, expected);
    }
}

#[test]
fn a_database_is_opened_only_where_it_is_private() {
    let file = || opening::FileIdentity {
        regular: true,
        directory: false,
        device: 1,
        inode: 2,
        links: 1,
        owner: 7,
        mode: 0o600,
    };
    let folder = || opening::FileIdentity {
        regular: false,
        directory: true,
        device: 1,
        inode: 3,
        links: 2,
        owner: 7,
        mode: 0o700,
    };
    assert!(opening::admit_file(&file(), 7).is_ok());
    assert!(opening::admit_file(&file(), 8).is_err());
    let mut linked = file();
    linked.links = 2;
    assert!(opening::admit_file(&linked, 7).is_err());
    let mut pipe = file();
    pipe.regular = false;
    assert!(opening::admit_file(&pipe, 7).is_err());
    assert!(opening::admit_directory(false, &folder(), 7).is_ok());
    assert!(opening::admit_directory(true, &folder(), 7).is_err());
    assert!(opening::admit_directory(false, &file(), 7).is_err());
    assert!(opening::confirm_identity(&folder(), &folder(), &file(), &file(), &file(), 7).is_ok());
    let mut moved = file();
    moved.inode = 9;
    assert!(opening::confirm_identity(&folder(), &folder(), &file(), &moved, &file(), 7).is_err());
    assert!(opening::admit_layout(opening::LAYOUT_VERSION).is_ok());
    assert!(opening::admit_layout(opening::LAYOUT_VERSION + 1).is_err());
}
