//! What holds of the store over many requests, on single histories.
use muqun_work::work::model::AttemptRole;
use muqun_work::work::model::CreateTask;
use muqun_work::work::model::DelegationConfig;
use muqun_work::work::model::DelegationFence;
use muqun_work::work::model::DelegationPolicy;
use muqun_work::work::model::DependencyRequirement;
use muqun_work::work::model::FailureCode;
use muqun_work::work::model::InputRef;
use muqun_work::work::model::InputUpload;
use muqun_work::work::model::InputUse;
use muqun_work::work::model::InterruptInput;
use muqun_work::work::model::InterruptionOutcome;
use muqun_work::work::model::LaunchPhase;
use muqun_work::work::model::NativeBinding;
use muqun_work::work::model::NewAttempt;
use muqun_work::work::model::Operation;
use muqun_work::work::model::OperationKind;
use muqun_work::work::model::OperationOutcome;
use muqun_work::work::model::OperationState;
use muqun_work::work::model::PauseInput;
use muqun_work::work::model::ReceiptValue;
use muqun_work::work::model::ReconcileInput;
use muqun_work::work::model::ReconciliationEvidence;
use muqun_work::work::model::ReleaseReason;
use muqun_work::work::model::Reservation;
use muqun_work::work::model::ResultInput;
use muqun_work::work::model::ReviewDecision;
use muqun_work::work::model::ReviewInput;
use muqun_work::work::model::Task;
use muqun_work::work::model::TaskDependency;
use muqun_work::work::model::TaskPolicy;
use muqun_work::work::store::inputs::use_allowed;
use muqun_work::work::store::inputs::INPUT_TTL_MS;
use muqun_work::work::store::tables::WorkStore;
use muqun_work::work_actor::Ids;
use muqun_work::work_interrupt::dispatch_interrupt;

fn input(title: &str) -> CreateTask {
    CreateTask {
        repo_path: "/project".into(),
        title: title.into(),
        brief: "Do work".into(),
        parent_task_id: None,
        policy: TaskPolicy { allowed_agents: vec!["codex".into()], max_workers: 2 },
    }
}

fn upload() -> InputUpload {
    InputUpload {
        repo_path: "/project".into(),
        name: "notes.txt".into(),
        mime: "text/plain".into(),
        size_bytes: 10,
        sha256: "a".repeat(64),
    }
}

fn revision(store: &WorkStore, task: &str) -> u64 {
    store.detail("s", task).unwrap().task.revision
}

fn lead() -> NewAttempt {
    NewAttempt { agent_kind: "codex".into(), role: AttemptRole::Lead }
}

fn ended(state: OperationState) -> OperationOutcome {
    OperationOutcome { state, resources: NativeBinding::default(), failure_code: None }
}

/// A task with one lead that runs.
fn running() -> (WorkStore, Task, Operation) {
    let mut store = WorkStore::in_memory().unwrap();
    let task = store.create_task("phone", "s", "task", input("Task"), 1).unwrap().value;
    let start = store
        .prepare_attempt("phone", "s", &task.id, "start", task.revision, lead(), "launch", 2)
        .unwrap()
        .value;
    store.begin_operation("s", &start.id, 3).unwrap();
    store.claim_start_dispatch("s", &start.id, 4).unwrap();
    let binding =
        NativeBinding { instance_id: Some("launch".into()), ..NativeBinding::default() };
    store.confirm_start_launch("s", &start.id, binding, "owner", 5).unwrap();
    store.finalize_operation("s", &start.id, ended(OperationState::Acknowledged), 6).unwrap();
    (store, task, start)
}

/// Looks for the process of an attempt, and finds that it has ended.
fn release(store: &mut WorkStore, task: &str, attempt: &str) -> ReconcileInput {
    let request = ReconcileInput {
        request_key: "check".into(),
        expected_revision: revision(store, task),
        expected_instance_id: Some("launch".into()),
        expected_native_owner_epoch: Some("owner".into()),
    };
    let op = store
        .prepare_reconciliation("phone", "s", task, attempt, request.clone(), 20)
        .unwrap()
        .value;
    store.begin_operation("s", &op.id, 21).unwrap();
    let found = ReconciliationEvidence::Exited {
        instance_id: "launch".into(),
        owner_epoch: "owner".into(),
        receipt_id: "receipt".into(),
    };
    let now = revision(store, task);
    let receipt = store.finish_reconciliation("s", &op.id, now, found, 22).unwrap();
    assert_eq!(receipt.reservation, Reservation::Released);
    request
}

fn coordinated() -> (WorkStore, Task, DelegationFence) {
    let (mut store, task, start) = running();
    let attempt = start.attempt_id.unwrap();
    let config = DelegationConfig {
        policy: DelegationPolicy {
            enabled: true,
            max_children: 2,
            max_depth: 1,
            dependency_requirement: DependencyRequirement::ResultAvailable,
        },
        coordinator_attempt_id: Some(attempt.clone()),
    };
    let now = revision(&store, &task.id);
    let configured = store
        .configure_delegation("phone", "s", &task.id, "delegate", now, config, 7)
        .unwrap()
        .value;
    let fence = DelegationFence {
        coordinator_task_id: task.id.clone(),
        coordinator_attempt_id: attempt,
        coordinator_epoch: configured.delegation.coordinator_epoch,
        instance_id: "launch".into(),
        native_owner_epoch: "owner".into(),
    };
    (store, task, fence)
}

#[test]
fn a_repeated_request_gives_the_same_answer_and_changes_nothing() {
    let (mut store, task, start) = running();
    let attempt = start.attempt_id.clone().unwrap();

    let kept = store.clone();
    let again = store.create_task("phone", "s", "task", input("Task"), 90).unwrap();
    assert!(again.replayed);
    assert_eq!(again.value.id, task.id);
    let again = store
        .prepare_attempt("phone", "s", &task.id, "start", task.revision, lead(), "launch", 91)
        .unwrap();
    assert!(again.replayed);
    assert_eq!(again.value.id, start.id);
    assert_eq!(store, kept);

    let at = revision(&store, &task.id);
    let pause = PauseInput { paused: true };
    let first = store.set_paused("phone", "s", &task.id, "pause", at, pause.clone(), 10).unwrap();
    let kept = store.clone();
    let again = store.set_paused("phone", "s", &task.id, "pause", at, pause, 92).unwrap();
    assert!(!first.replayed && again.replayed);
    assert_eq!(again.value, first.value);
    assert_eq!(store, kept);

    let waiting = store.create_task("phone", "s", "waiting", input("Waiting"), 11).unwrap().value;
    let at = waiting.revision;
    let first = store
        .set_dependencies("phone", "s", &waiting.id, "pins", at, Vec::new(), None, 11)
        .unwrap();
    let kept = store.clone();
    let again = store
        .set_dependencies("phone", "s", &waiting.id, "pins", at, Vec::new(), None, 93)
        .unwrap();
    assert!(!first.replayed && again.replayed);
    assert_eq!(store, kept);

    let at = revision(&store, &task.id);
    let result = ResultInput {
        attempt_id: attempt.clone(),
        summary: "Done".into(),
        artifacts: Vec::new(),
        evidence: Vec::new(),
    };
    let sent =
        store.submit_result("phone", "s", &task.id, "result", at, result.clone(), 12).unwrap();
    let kept = store.clone();
    let again = store.submit_result("phone", "s", &task.id, "result", at, result, 94).unwrap();
    assert!(again.replayed);
    assert_eq!(again.value, sent.value);
    assert_eq!(store, kept);

    let at = revision(&store, &task.id);
    let review = ReviewInput {
        submission_id: sent.value.id.clone(),
        decision: ReviewDecision::Accepted,
        message: None,
    };
    let first =
        store.review_result("phone", "s", &task.id, "review", at, review.clone(), 13).unwrap();
    let kept = store.clone();
    let again = store.review_result("phone", "s", &task.id, "review", at, review, 95).unwrap();
    assert!(again.replayed);
    assert_eq!(again.value, first.value);
    assert_eq!(store, kept);

    let first = store.commit_input_upload("phone", "s", "file", upload(), 14).unwrap();
    let kept = store.clone();
    let again = store.commit_input_upload("phone", "s", "file", upload(), 96).unwrap();
    assert_eq!(again, first);
    assert_eq!(store, kept);

    let at = revision(&store, &task.id);
    let first = store
        .prepare_delivery("phone", "s", &task.id, &attempt, "prompt", at, "launch", "Go on", 15)
        .unwrap();
    let kept = store.clone();
    let again = store
        .prepare_delivery("phone", "s", &task.id, &attempt, "prompt", at, "launch", "Go on", 97)
        .unwrap();
    assert!(!first.replayed && again.replayed);
    assert_eq!(store, kept);

    store
        .refuse_prepared_operation("s", &first.value.id, FailureCode::NotReady, 16)
        .unwrap();
    let check = release(&mut store, &task.id, &attempt);
    let kept = store.clone();
    let again =
        store.prepare_reconciliation("phone", "s", &task.id, &attempt, check, 98).unwrap();
    assert!(again.replayed);
    assert_eq!(store, kept);
}

#[test]
fn a_key_stands_for_one_request_only() {
    let (mut store, task, start) = running();
    let attempt = start.attempt_id.unwrap();
    let kept = store.clone();
    let other = store.create_task("phone", "s", "task", input("Another"), 9);
    assert_eq!(other.unwrap_err().0, FailureCode::RequestKeyConflict);
    let other = store
        .prepare_attempt("phone", "s", &task.id, "start", task.revision, lead(), "changed", 9);
    assert_eq!(other.unwrap_err().0, FailureCode::RequestKeyConflict);
    assert_eq!(store, kept);
    // The same key is free for another actor and for another kind of request.
    assert!(store.create_task("tablet", "s", "task", input("Another"), 9).is_ok());
    let at = revision(&store, &task.id);
    assert!(store
        .prepare_delivery("phone", "s", &task.id, &attempt, "start", at, "launch", "Go on", 9)
        .is_ok());
}

#[test]
fn a_refused_request_leaves_the_store_as_it_was() {
    let (mut store, task, start) = running();
    let attempt = start.attempt_id.unwrap();
    let at = revision(&store, &task.id);
    let kept = store.clone();
    let mut codes = Vec::new();
    let mut untitled = input("");
    untitled.title = " ".into();
    codes.push(store.create_task("phone", "s", "blank", untitled, 9).unwrap_err().0);
    codes.push(
        store
            .set_paused("phone", "s", &task.id, "stale", at + 1, PauseInput { paused: true }, 9)
            .unwrap_err()
            .0,
    );
    codes.push(
        store
            .set_paused("phone", "other", &task.id, "far", at, PauseInput { paused: true }, 9)
            .unwrap_err()
            .0,
    );
    codes.push(
        store
            .prepare_attempt("phone", "s", &task.id, "second", at, lead(), "launch", 9)
            .unwrap_err()
            .0,
    );
    codes.push(
        store
            .prepare_delivery("phone", "s", &task.id, &attempt, "gone", at, "other", "Go", 9)
            .unwrap_err()
            .0,
    );
    assert_eq!(
        codes,
        vec![
            FailureCode::InvalidInput,
            FailureCode::RevisionConflict,
            FailureCode::NotFound,
            FailureCode::ResourceLimit,
            FailureCode::InstanceChanged,
        ]
    );
    assert_eq!(store, kept);
}

#[test]
fn nothing_that_was_recorded_goes_away() {
    let (mut store, task, start) = running();
    let attempt = start.attempt_id.unwrap();
    let at = revision(&store, &task.id);
    let result = ResultInput {
        attempt_id: attempt.clone(),
        summary: "First".into(),
        artifacts: Vec::new(),
        evidence: vec!["checked".into()],
    };
    let sent =
        store.submit_result("phone", "s", &task.id, "one", at, result.clone(), 10).unwrap().value;
    let at = revision(&store, &task.id);
    let review = ReviewInput {
        submission_id: sent.id.clone(),
        decision: ReviewDecision::ChangesRequested,
        message: Some("Again".into()),
    };
    let said =
        store.review_result("phone", "s", &task.id, "said", at, review, 11).unwrap().value;
    let before = store.detail("s", &task.id).unwrap();

    let at = revision(&store, &task.id);
    let second = ResultInput { summary: "Second".into(), ..result };
    store.submit_result("phone", "s", &task.id, "two", at, second, 12).unwrap();
    release(&mut store, &task.id, &attempt);

    let later = store.detail("s", &task.id).unwrap();
    assert!(later.task.revision > before.task.revision);
    assert_eq!(later.task.created_at_ms, before.task.created_at_ms);
    assert_eq!(later.results[0], sent);
    assert_eq!(later.reviews[0], said);
    assert_eq!(later.attempts[0].id, before.attempts[0].id);
    assert_eq!(later.attempts[0].binding, before.attempts[0].binding);
    assert_eq!(later.operations[0], before.operations[0]);
    assert!(later.operations.len() > before.operations.len());
}

#[test]
fn an_operation_begins_once_is_dispatched_once_and_ends_once() {
    let mut store = WorkStore::in_memory().unwrap();
    let task = store.create_task("phone", "s", "task", input("Task"), 1).unwrap().value;
    let start = store
        .prepare_attempt("phone", "s", &task.id, "start", task.revision, lead(), "launch", 2)
        .unwrap()
        .value;
    store.begin_operation("s", &start.id, 3).unwrap();
    assert_eq!(
        store.begin_operation("s", &start.id, 4).unwrap_err().0,
        FailureCode::RevisionConflict
    );
    store.claim_start_dispatch("s", &start.id, 5).unwrap();
    assert_eq!(
        store.claim_start_dispatch("s", &start.id, 6).unwrap_err().0,
        FailureCode::RevisionConflict
    );
    store.finalize_operation("s", &start.id, ended(OperationState::Acknowledged), 7).unwrap();
    let kept = store.clone();
    assert!(store
        .finalize_operation("s", &start.id, ended(OperationState::Unconfirmed), 8)
        .is_err());
    assert_eq!(store, kept);
}

#[test]
fn a_released_attempt_takes_no_prompt_and_no_interruption() {
    let (mut store, task, start) = running();
    let attempt = start.attempt_id.unwrap();
    let at = revision(&store, &task.id);
    let waiting = store
        .prepare_delivery("phone", "s", &task.id, &attempt, "prompt", at, "launch", "Go on", 9)
        .unwrap()
        .value;
    release(&mut store, &task.id, &attempt);
    let at = revision(&store, &task.id);
    assert!(store
        .prepare_delivery("phone", "s", &task.id, &attempt, "late", at, "launch", "Go on", 30)
        .is_err());
    assert!(store.begin_operation("s", &waiting.id, 31).is_err());
    let interrupt = InterruptInput {
        request_key: "stop".into(),
        expected_revision: at,
        expected_instance_id: "launch".into(),
        expected_native_owner_epoch: "owner".into(),
    };
    assert!(store
        .prepare_interrupt("phone", "s", &task.id, &attempt, interrupt, 32)
        .is_err());
    // Its place is free for another lead.
    assert!(store
        .prepare_attempt("phone", "s", &task.id, "next", at, lead(), "launch", 33)
        .is_ok());
}

#[test]
fn prompts_and_interruptions_do_not_overlap() {
    let (mut store, task, start) = running();
    let attempt = start.attempt_id.unwrap();
    let at = revision(&store, &task.id);
    let interrupt = InterruptInput {
        request_key: "stop".into(),
        expected_revision: at,
        expected_instance_id: "launch".into(),
        expected_native_owner_epoch: "owner".into(),
    };
    let begun = dispatch_interrupt(
        &mut store,
        &Ids::fresh(),
        "phone",
        "s",
        &task.id,
        &attempt,
        interrupt.clone(),
        9,
    )
    .unwrap()
    .value;
    let at = revision(&store, &task.id);
    let another =
        InterruptInput { request_key: "again".into(), expected_revision: at, ..interrupt };
    assert!(store
        .prepare_interrupt("tablet", "s", &task.id, &attempt, another.clone(), 10)
        .is_err());
    let refused = InterruptionOutcome::Refused(FailureCode::ResourceLimit);
    store.finalize_interrupt("s", &begun.id, refused, 11).unwrap();
    let at = revision(&store, &task.id);
    let another = InterruptInput { expected_revision: at, ..another };
    assert!(store.prepare_interrupt("tablet", "s", &task.id, &attempt, another, 12).is_ok());
}

#[test]
fn reopening_settles_what_was_under_way() {
    let mut store = WorkStore::in_memory().unwrap();
    let task = store.create_task("phone", "s", "task", input("Task"), 1).unwrap().value;
    let start = store
        .prepare_attempt("phone", "s", &task.id, "start", task.revision, lead(), "launch", 2)
        .unwrap()
        .value;
    store.begin_operation("s", &start.id, 3).unwrap();
    store.claim_start_dispatch("s", &start.id, 4).unwrap();
    let mut store = WorkStore::initialize(store).unwrap();
    let found = store.get_operation("s", &start.id).unwrap();
    assert_eq!(found.state, OperationState::Unconfirmed);
    assert_eq!(found.failure_code, Some(FailureCode::DeliveryUnconfirmed));
    assert!(store.claim_start_dispatch("s", &start.id, 5).is_err());
    let detail = store.detail("s", &task.id).unwrap();
    assert_eq!(detail.attempts[0].lifecycle.reservation, Reservation::Reserved);
    // Opening it once more changes nothing.
    let again = WorkStore::initialize(store.clone()).unwrap();
    assert_eq!(again, store);
}

#[test]
fn a_coordinator_that_was_replaced_has_no_authority() {
    let (mut store, task, fence) = coordinated();
    store.assert_delegation_authority("s", &fence, None).unwrap();
    let mut child = input("Child");
    child.parent_task_id = Some(task.id.clone());
    let at = revision(&store, &task.id);
    let made = store
        .create_delegated_task("lead", "s", "child", &fence, at, child.clone(), Vec::new(), 8)
        .unwrap()
        .value;
    assert_eq!(made.parent_task_id.as_deref(), Some(task.id.as_str()));
    assert!(!made.delegation.policy.enabled);

    let at = revision(&store, &task.id);
    let off = DelegationConfig {
        policy: DelegationPolicy::default(),
        coordinator_attempt_id: None,
    };
    store.configure_delegation("phone", "s", &task.id, "off", at, off, 9).unwrap();
    assert!(store.assert_delegation_authority("s", &fence, None).is_err());
    let at = revision(&store, &task.id);
    assert!(store
        .create_delegated_task("lead", "s", "late", &fence, at, child, Vec::new(), 10)
        .is_err());
}

#[test]
fn an_exited_coordinator_has_no_authority() {
    let (mut store, task, fence) = coordinated();
    release(&mut store, &task.id, &fence.coordinator_attempt_id);
    assert!(store.assert_delegation_authority("s", &fence, None).is_err());
}

#[test]
fn a_child_is_never_allowed_more_than_its_parent() {
    let mut store = WorkStore::in_memory().unwrap();
    let root = store.create_task("phone", "s", "root", input("Root"), 1).unwrap().value;
    let mut wider = input("Child");
    wider.parent_task_id = Some(root.id.clone());
    wider.policy.max_workers = 3;
    assert!(store.create_task("phone", "s", "wider", wider.clone(), 2).is_err());
    wider.policy.max_workers = 2;
    wider.policy.allowed_agents = vec!["codex".into(), "opencode".into()];
    assert!(store.create_task("phone", "s", "other", wider.clone(), 3).is_err());
    wider.policy.allowed_agents = vec!["codex".into()];
    let child = store.create_task("phone", "s", "child", wider, 4).unwrap().value;
    assert!(child.policy.max_workers <= root.policy.max_workers);
}

#[test]
fn prerequisites_never_lead_back() {
    let (mut store, task, fence) = coordinated();
    let mut made = Vec::new();
    for key in ["a", "b"] {
        let mut child = input(key);
        child.parent_task_id = Some(task.id.clone());
        let at = revision(&store, &task.id);
        made.push(
            store
                .create_delegated_task("lead", "s", key, &fence, at, child, Vec::new(), 8)
                .unwrap()
                .value,
        );
    }
    let on = |id: &str| {
        vec![TaskDependency { prerequisite_task_id: id.to_owned(), submission_id: None }]
    };
    let at = revision(&store, &made[0].id);
    store
        .set_dependencies("phone", "s", &made[0].id, "forth", at, on(&made[1].id), None, 9)
        .unwrap();
    let at = revision(&store, &made[1].id);
    assert!(store
        .set_dependencies("phone", "s", &made[1].id, "back", at, on(&made[0].id), None, 10)
        .is_err());
    assert!(store
        .set_dependencies("phone", "s", &made[1].id, "self", at, on(&made[1].id), None, 11)
        .is_err());
}

#[test]
fn changes_come_in_order_and_none_is_skipped() {
    let (mut store, task, _) = running();
    store.create_task("phone", "elsewhere", "task", input("Task"), 7).unwrap();
    let at = revision(&store, &task.id);
    store.set_paused("phone", "s", &task.id, "pause", at, PauseInput { paused: true }, 8).unwrap();

    let all = store.changes("s", 0, 100).unwrap();
    assert!(!all.reset_required);
    let mut read = Vec::new();
    let mut cursor = 0;
    loop {
        let page = store.changes("s", cursor, 2).unwrap();
        if page.changes.is_empty() {
            break;
        }
        assert_eq!(page.cursor, page.changes[page.changes.len() - 1].cursor);
        cursor = page.cursor;
        read.extend(page.changes);
    }
    assert_eq!(read, all.changes);
    for pair in read.windows(2) {
        assert!(pair[0].cursor < pair[1].cursor);
    }
    let known = store.changes.iter().filter(|row| row.session == "s").count();
    assert_eq!(read.len(), known);
    assert!(read.iter().all(|change| change.task_id == task.id));
}

#[test]
fn tasks_are_listed_in_order_and_none_is_left_out() {
    let mut store = WorkStore::in_memory().unwrap();
    let mut made = Vec::new();
    for n in 0..5 {
        let key = format!("task-{n}");
        made.push(store.create_task("phone", "s", &key, input(&key), n).unwrap().value.id);
    }
    store.create_task("phone", "elsewhere", "task", input("Task"), 9).unwrap();
    let mut listed: Vec<String> = Vec::new();
    loop {
        let after = listed.last().cloned();
        let page = store.list_tasks("s", after.as_deref(), 2).unwrap();
        if page.is_empty() {
            break;
        }
        listed.extend(page.into_iter().map(|task| task.id));
    }
    assert!(listed.windows(2).all(|pair| pair[0] < pair[1]));
    made.sort();
    assert_eq!(listed, made);
}

#[test]
fn a_claimed_input_does_not_expire() {
    let mut store = WorkStore::in_memory().unwrap();
    let free = store.commit_input_upload("phone", "s", "free", upload(), 0).unwrap();
    let held = store.commit_input_upload("phone", "s", "held", upload(), 0).unwrap();
    let named = |id: &str| {
        vec![InputRef {
            input_id: id.to_owned(),
            caption: "Notes".into(),
            use_: InputUse::ReferenceOnly,
        }]
    };
    let task = store
        .create_task_with_inputs("phone", "s", "task", input("Task"), named(&held.input_id), 1)
        .unwrap()
        .value;
    let late = INPUT_TTL_MS + 1;
    let expired =
        store.resolve_inputs("phone", "s", "/project", None, &named(&free.input_id), late);
    assert_eq!(expired.unwrap_err().0, FailureCode::InputExpired);
    let found = store
        .resolve_inputs("phone", "s", "/project", Some(&task.id), &named(&held.input_id), late)
        .unwrap();
    assert_eq!(found[0].input_id, held.input_id);
    // Nobody else can take it.
    assert!(store
        .create_task_with_inputs("phone", "s", "other", input("Other"), named(&held.input_id), 2)
        .is_err());
}

#[test]
fn a_share_permits_no_more_than_its_source() {
    assert!(use_allowed(InputUse::MayInclude, InputUse::MayInclude));
    assert!(use_allowed(InputUse::MayInclude, InputUse::ReferenceOnly));
    assert!(use_allowed(InputUse::ReferenceOnly, InputUse::ReferenceOnly));
    assert!(!use_allowed(InputUse::ReferenceOnly, InputUse::MayInclude));
}

#[test]
fn what_was_answered_can_be_read_again() {
    let (store, task, start) = running();
    let receipt = store.get_receipt("phone", "s", OperationKind::StartAttempt, "start").unwrap();
    match receipt.value {
        ReceiptValue::Operation(op) => assert_eq!(op.id, start.id),
        other => panic!("{other:?}"),
    }
    let receipt = store.get_receipt("phone", "s", OperationKind::CreateTask, "task").unwrap();
    match receipt.value {
        ReceiptValue::Task(found) => assert_eq!(found, task),
        other => panic!("{other:?}"),
    }
}

#[test]
fn no_task_has_more_workers_than_it_is_allowed() {
    // The lead of a task does not count against the task.
    let (mut store, root, _) = running();
    let mut below = input("Below");
    below.parent_task_id = Some(root.id.clone());
    let child = store.create_task("phone", "s", "child", below, 7).unwrap().value;
    let worker = || NewAttempt { agent_kind: "codex".into(), role: AttemptRole::Worker };
    let at = revision(&store, &root.id);
    store.prepare_attempt("phone", "s", &root.id, "a", at, worker(), "launch", 8).unwrap();
    // The lead of a child counts against its parent, and not against the child.
    let at = revision(&store, &child.id);
    let led = store
        .prepare_attempt("phone", "s", &child.id, "b", at, lead(), "launch", 4)
        .unwrap()
        .value;
    for task in [&root, &child] {
        let at = revision(&store, &task.id);
        assert_eq!(
            store
                .prepare_attempt("phone", "s", &task.id, "c", at, worker(), "launch", 5)
                .unwrap_err()
                .0,
            FailureCode::ResourceLimit
        );
    }
    // What is given back can be taken again.
    store.refuse_prepared_operation("s", &led.id, FailureCode::NotReady, 6).unwrap();
    let at = revision(&store, &root.id);
    assert!(store
        .prepare_attempt("phone", "s", &root.id, "d", at, worker(), "launch", 7)
        .is_ok());
}

#[test]
fn what_was_found_is_read_ever_after() {
    let (mut store, task, start) = running();
    let attempt = start.attempt_id.unwrap();
    release(&mut store, &task.id, &attempt);
    let check = store
        .detail("s", &task.id)
        .unwrap()
        .operations
        .into_iter()
        .find(|op| op.kind == OperationKind::ReconcileAttempt)
        .unwrap();
    let found = store.get_reconciliation("s", &check.id).unwrap();
    let at = revision(&store, &task.id);
    store.prepare_attempt("phone", "s", &task.id, "next", at, lead(), "launch", 30).unwrap();
    let at = revision(&store, &task.id);
    store.set_paused("phone", "s", &task.id, "hold", at, PauseInput { paused: true }, 31).unwrap();
    let at = revision(&store, &task.id);
    let again = store
        .finish_reconciliation("s", &check.id, at, ReconciliationEvidence::Unknown, 32)
        .unwrap();
    assert_eq!(again, found);
    let store = WorkStore::initialize(store).unwrap();
    assert_eq!(store.get_reconciliation("s", &check.id).unwrap(), found);
}

#[test]
fn pages_of_summaries_skip_nothing() {
    let mut store = WorkStore::in_memory().unwrap();
    let mut made = Vec::new();
    for n in 0..5 {
        let key = format!("task-{n}");
        made.push(store.create_task("phone", "s", &key, input(&key), n).unwrap().value.id);
    }
    let mut shown = Vec::new();
    let mut page = store.task_summaries("s", 2, None, None).unwrap();
    loop {
        shown.extend(page.items.iter().map(|item| item.task_id.clone()));
        let Some(next) = page.next_after_id.clone() else { break };
        page = store.task_summaries("s", 2, Some(&next), Some(page.snapshot_cursor)).unwrap();
    }
    made.sort();
    assert_eq!(shown, made);
}

#[test]
fn a_claimed_dispatch_is_never_given_up() {
    for claimed in [false, true] {
        let mut store = WorkStore::in_memory().unwrap();
        let task = store.create_task("phone", "s", "task", input("Task"), 1).unwrap().value;
        let start = store
            .prepare_attempt("phone", "s", &task.id, "start", task.revision, lead(), "launch", 2)
            .unwrap()
            .value;
        store.begin_operation("s", &start.id, 3).unwrap();
        if claimed {
            store.claim_start_dispatch("s", &start.id, 4).unwrap();
        }
        store.finalize_operation("s", &start.id, ended(OperationState::Refused), 5).unwrap();
        let attempt = store.detail("s", &task.id).unwrap().attempts.remove(0);
        let lifecycle = attempt.lifecycle;
        if claimed {
            assert_eq!(lifecycle.launch_phase, LaunchPhase::DispatchClaimed);
            assert_eq!(lifecycle.reservation, Reservation::Reserved);
            assert_eq!(lifecycle.release, None);
        } else {
            assert_eq!(lifecycle.reservation, Reservation::Released);
            assert_eq!(lifecycle.release.unwrap().reason, ReleaseReason::StartupNotDispatched);
            assert!(store.claim_start_dispatch("s", &start.id, 6).is_err());
        }
        let kept = store.clone();
        assert_eq!(
            store
                .finalize_operation("s", &start.id, ended(OperationState::Acknowledged), 7)
                .unwrap_err()
                .0,
            FailureCode::RevisionConflict
        );
        assert_eq!(store, kept);
    }
}

#[test]
fn opening_changes_a_task_once_for_each_operation_that_was_lost() {
    let (mut store, task, start) = running();
    let other = store.create_task("phone", "s", "other", input("Other"), 7).unwrap().value;
    let attempt = start.attempt_id.unwrap();
    let at = revision(&store, &task.id);
    let prompt = store
        .prepare_delivery("phone", "s", &task.id, &attempt, "prompt", at, "launch", "Go on", 8)
        .unwrap()
        .value;
    store.begin_operation("s", &prompt.id, 9).unwrap();
    let before = store.detail("s", &task.id).unwrap();
    let mut store = WorkStore::initialize(store).unwrap();
    let after = store.detail("s", &task.id).unwrap();
    assert_eq!(after.task.revision, before.task.revision + 1);
    assert_eq!(after.attempts, before.attempts);
    assert_eq!(after.operations[0], before.operations[0]);
    let mut lost = before.operations[1].clone();
    lost.state = OperationState::Unconfirmed;
    lost.failure_code = Some(FailureCode::DeliveryUnconfirmed);
    assert_eq!(after.operations[1], lost);
    assert_eq!(store.detail("s", &other.id).unwrap().task, other);
    // Every task is on the list as it stands.
    let page = store.task_summaries("s", 20, None, None).unwrap();
    let mut ids = vec![task.id.clone(), other.id.clone()];
    ids.sort();
    assert_eq!(page.items.iter().map(|item| item.task_id.clone()).collect::<Vec<_>>(), ids);
    for item in &page.items {
        assert_eq!(item.task_revision, revision(&store, &item.task_id));
    }
    store.begin_operation("s", &prompt.id, 10).unwrap_err();
}

#[test]
fn results_and_reviews_stand_as_they_were_answered() {
    let (mut store, task, start) = running();
    let attempt = start.attempt_id.unwrap();
    let at = revision(&store, &task.id);
    let body = ResultInput {
        attempt_id: attempt,
        summary: "Done".into(),
        artifacts: vec![],
        evidence: vec!["ran".into()],
    };
    let result = store.submit_result("phone", "s", &task.id, "result", at, body, 8).unwrap().value;
    let at = revision(&store, &task.id);
    let verdict = ReviewInput {
        submission_id: result.id.clone(),
        decision: ReviewDecision::Accepted,
        message: Some("Good".into()),
    };
    let review =
        store.review_result("phone", "s", &task.id, "review", at, verdict, 9).unwrap().value;
    let at = revision(&store, &task.id);
    let halt = PauseInput { paused: true };
    store.set_paused("phone", "s", &task.id, "pause", at, halt, 10).unwrap();
    let store = WorkStore::initialize(store).unwrap();
    let detail = store.detail("s", &task.id).unwrap();
    assert_eq!(detail.results, vec![result]);
    assert_eq!(detail.reviews, vec![review]);
}

#[test]
fn instructions_go_with_the_first_prompt_that_is_not_refused() {
    let (mut store, task, start) = running();
    let attempt = start.attempt_id.unwrap();
    let send = |store: &mut WorkStore, key: &str, version: &str, at: u64| {
        store.prepare_delivery_with_instructions(
            "phone", "s", &task.id, &attempt, key, at, "launch", "Go on", Some(version), 8,
        )
    };
    let at = revision(&store, &task.id);
    let first = send(&mut store, "one", "v1", at).unwrap().value;
    assert_eq!(first.bootstrap_version.as_deref(), Some("v1"));
    // The same once more is answered alike; another version under the key is a conflict.
    let again = send(&mut store, "one", "v1", at).unwrap();
    assert!(again.replayed);
    assert_eq!(again.value, first);
    assert_eq!(send(&mut store, "one", "v2", at).unwrap_err().0, FailureCode::RequestKeyConflict);
    store.refuse_prepared_operation("s", &first.id, FailureCode::NotReady, 9).unwrap();
    // The first was refused, so the next one carries the instructions again.
    let at = revision(&store, &task.id);
    let second = send(&mut store, "two", "v2", at).unwrap().value;
    assert_eq!(second.bootstrap_version.as_deref(), Some("v2"));
    store.begin_operation("s", &second.id, 10).unwrap();
    store.finalize_operation("s", &second.id, ended(OperationState::Acknowledged), 11).unwrap();
    let at = revision(&store, &task.id);
    let third = send(&mut store, "three", "v3", at).unwrap().value;
    assert_eq!(third.bootstrap_version, None);
}

#[test]
fn a_promised_prompt_is_answered_again_whatever_is_promised() {
    let (mut store, task, start) = running();
    let attempt = start.attempt_id.unwrap();
    let at = revision(&store, &task.id);
    let mut send = |digest: &str| {
        store.prepare_delivery_with_inputs(
            "phone",
            "s",
            &task.id,
            &attempt,
            "prompt",
            at,
            "launch",
            "Go on",
            Some("v1"),
            vec![],
            &[],
            digest,
            8,
        )
    };
    let first = send(&"a".repeat(64)).unwrap();
    assert!(!first.replayed);
    let again = send(&"b".repeat(64)).unwrap();
    assert!(again.replayed);
    assert_eq!(again.value, first.value);
}

#[test]
fn a_full_task_takes_no_further_attempt() {
    let (mut store, task, _start) = running();
    let worker = || NewAttempt { agent_kind: "codex".into(), role: AttemptRole::Worker };
    let mut at = revision(&store, &task.id);
    assert_eq!(
        store
            .prepare_attempt("phone", "s", &task.id, "lead", at, lead(), "launch", 8)
            .unwrap_err()
            .0,
        FailureCode::ResourceLimit
    );
    for key in ["one", "two"] {
        store.prepare_attempt("phone", "s", &task.id, key, at, worker(), "launch", 9).unwrap();
        at = revision(&store, &task.id);
    }
    let kept = store.clone();
    assert_eq!(
        store
            .prepare_attempt("phone", "s", &task.id, "three", at, worker(), "launch", 10)
            .unwrap_err()
            .0,
        FailureCode::ResourceLimit
    );
    assert_eq!(store, kept);
    // Without a lead whose process is known there is no place for a worker.
    let bare = store.create_task("phone", "s", "bare", input("Bare"), 11).unwrap().value;
    assert_eq!(
        store
            .prepare_attempt("phone", "s", &bare.id, "early", 1, worker(), "launch", 12)
            .unwrap_err()
            .0,
        FailureCode::NotReady
    );
}

#[test]
fn pages_of_another_session_do_not_matter_and_an_old_cursor_conflicts() {
    let mut store = WorkStore::in_memory().unwrap();
    let mut made = Vec::new();
    for n in 0..3 {
        let key = format!("task-{n}");
        made.push(store.create_task("phone", "s", &key, input(&key), n).unwrap().value.id);
        store.create_task("phone", "other", &key, input(&key), n).unwrap();
    }
    made.sort();
    let page = store.task_summaries("s", 2, None, None).unwrap();
    assert_eq!(page.items.len(), 2);
    let next = page.next_after_id.clone().unwrap();
    assert_eq!(next, made[1]);
    // What happens in another session leaves the list where it stands.
    store.create_task("phone", "other", "more", input("More"), 4).unwrap();
    let rest = store.task_summaries("s", 2, Some(&next), Some(page.snapshot_cursor)).unwrap();
    assert_eq!(rest.items.len(), 1);
    assert_eq!(rest.items[0].task_id, made[2]);
    assert_eq!(rest.next_after_id, None);
    store.create_task("phone", "s", "more", input("More"), 5).unwrap();
    assert_eq!(
        store
            .task_summaries("s", 2, Some(&next), Some(page.snapshot_cursor))
            .unwrap_err()
            .0,
        FailureCode::RevisionConflict
    );
}

#[test]
fn building_the_list_anew_changes_no_page() {
    let (mut store, task, start) = running();
    let other = store.create_task("phone", "s", "other", input("Other"), 7).unwrap().value;
    store.create_task("phone", "elsewhere", "task", input("Task"), 8).unwrap();
    let result = ResultInput {
        attempt_id: start.attempt_id.unwrap(),
        summary: "done".into(),
        artifacts: vec![],
        evidence: vec![],
    };
    let now = revision(&store, &task.id);
    store.submit_result("phone", "s", &task.id, "result", now, result, 9).unwrap();
    let page = store.task_summaries("s", 20, None, None).unwrap();
    let elsewhere = store.task_summaries("elsewhere", 20, None, None).unwrap();
    assert_eq!(page.items.len(), 2);
    for item in &page.items {
        let busy = item.task_id == task.id;
        assert_eq!(busy, item.task_id != other.id);
        let detail = store.detail("s", &item.task_id).unwrap();
        assert_eq!(item.task_revision, detail.task.revision);
        assert_eq!(item.reserved_attempts, u64::from(busy));
        assert_eq!(item.unreviewed_results, u64::from(busy));
        assert_eq!(item.unresolved_native_operations, 0);
    }

    let mut again = store.clone();
    again.rebuild_summaries().unwrap();
    assert_eq!(again.task_summaries("s", 20, None, None).unwrap(), page);

    // The list does not need the stream for what has reached it already.
    let mut pruned = store.clone();
    pruned.changes = vec![];
    pruned.rebuild_summaries().unwrap();
    assert_eq!(pruned.task_summaries("s", 20, None, None).unwrap(), page);

    // Nor its own tables, while the stream still holds what it stood at.
    let mut bare = store.clone();
    bare.summaries = vec![];
    bare.activity = vec![];
    bare.watermarks = vec![];
    bare.summaries_ready = false;
    assert_eq!(
        bare.task_summaries("s", 20, None, None).unwrap_err().0,
        FailureCode::CapabilityUnavailable
    );
    assert_eq!(bare.list_tasks("s", None, 100).unwrap().len(), 2);
    bare.rebuild_summaries().unwrap();
    assert_eq!(bare.task_summaries("s", 20, None, None).unwrap(), page);
    assert_eq!(bare.task_summaries("elsewhere", 20, None, None).unwrap(), elsewhere);
}
