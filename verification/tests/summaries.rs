//! The task list keeps step with the records.
use muqun_work::json::ToJson;
use muqun_work::value::Replica;
use muqun_work::work::model::Attempt;
use muqun_work::work::model::AttemptRole;
use muqun_work::work::model::CreateTask;
use muqun_work::work::model::FailureCode;
use muqun_work::work::model::Operation;
use muqun_work::work::model::OperationKind;
use muqun_work::work::model::OperationState;
use muqun_work::work::model::PauseInput;
use muqun_work::work::model::Reservation;
use muqun_work::work::model::ResultInput;
use muqun_work::work::model::ResultSubmission;
use muqun_work::work::model::Review;
use muqun_work::work::model::ReviewDecision;
use muqun_work::work::model::ReviewInput;
use muqun_work::work::model::SummaryResult;
use muqun_work::work::model::Task;
use muqun_work::work::model::TaskPolicy;
use muqun_work::work::model::TaskSummary;
use muqun_work::work::store::rules::new_operation;
use muqun_work::work::store::tables::Body;
use muqun_work::work::store::tables::Record;
use muqun_work::work::store::tables::WorkStore;
use muqun_work::work::store::task_list::MAX_LIST_BYTES;

fn task(store: &mut WorkStore, session: &str, path: &str) -> Task {
    store
        .create_task(
            "device",
            session,
            &fresh(),
            CreateTask {
                repo_path: path.into(),
                title: "Task".into(),
                brief: "Never in summary".into(),
                parent_task_id: None,
                policy: TaskPolicy {
                    allowed_agents: vec!["codex".into()],
                    max_workers: 0,
                },
            },
            1,
        )
        .unwrap()
        .value
}

fn revise(store: &mut WorkStore, task: &Task) {
    let current = store.load::<Task>(&task.session_id, &task.id).unwrap();
    store
        .set_paused(
            "device",
            &task.session_id,
            &task.id,
            &fresh(),
            current.revision,
            PauseInput {
                paused: !current.paused,
            },
            1,
        )
        .unwrap();
}

fn summary(store: &mut WorkStore) -> TaskSummary {
    store
        .task_summaries("s", 20, None, None)
        .unwrap()
        .items
        .remove(0)
}

#[test]
fn projection_tracks_exact_result_review_order_and_lifecycle_without_completion() {
    let mut store = WorkStore::in_memory().unwrap();
    let task = task(&mut store, "s", "/repo");
    let mut attempt = Attempt {
        id: fresh(),
        task_id: task.id.clone(),
        agent_kind: "codex".into(),
        role: AttemptRole::Lead,
        binding: Default::default(),
        lifecycle: Default::default(),
        created_at_ms: 1,
    };
    store.put("s", &attempt.id, &task.id, Body::Attempt(attempt.clone()))
    .unwrap();
    for kind in [
        OperationKind::StartAttempt,
        OperationKind::DeliverPrompt,
        OperationKind::InterruptAttempt,
        OperationKind::ReconcileAttempt,
    ] {
        let mut op = new_operation(&fresh(), &task.id, Some(attempt.id.clone()), kind, 1);
        op.state = OperationState::Unconfirmed;
        store.put("s", &op.id, &task.id, Body::Operation(op.clone())).unwrap();
    }
    let result = ResultSubmission {
        id: fresh(),
        task_id: task.id.clone(),
        result: ResultInput {
            attempt_id: attempt.id.clone(),
            summary: "Private result".into(),
            artifacts: vec![],
            evidence: vec![],
        },
        created_at_ms: 100,
    };
    store.put("s", &result.id, &task.id, Body::Result(result.clone()))
    .unwrap();
    revise(&mut store, &task);
    let first = summary(&mut store);
    assert_eq!(first.reserved_attempts, 1);
    assert_eq!(first.unresolved_native_operations, 3);
    assert_eq!(first.unreviewed_results, 1);
    let mut last_review = String::new();
    for (decision, time) in [
        (ReviewDecision::Accepted, 1000),
        (ReviewDecision::ChangesRequested, 1),
    ] {
        let review = Review {
            id: fresh(),
            task_id: task.id.clone(),
            actor_id: "device".into(),
            review: ReviewInput {
                submission_id: result.id.clone(),
                decision,
                message: None,
            },
            created_at_ms: time,
        };
        store.put("s", &review.id, &task.id, Body::Review(review.clone()))
        .unwrap();
        revise(&mut store, &task);
        last_review = review.id;
    }
    let reviewed = summary(&mut store);
    assert_eq!(reviewed.unreviewed_results, 0);
    let review = reviewed.latest_result.unwrap().review.unwrap();
    assert_eq!(review.review_id, last_review);
    assert_eq!(review.decision, ReviewDecision::ChangesRequested);
    let mut newer = result;
    newer.id = fresh();
    newer.created_at_ms = 0;
    store.put("s", &newer.id, &task.id, Body::Result(newer.clone()))
    .unwrap();
    revise(&mut store, &task);
    let latest = summary(&mut store);
    assert_eq!(latest.unreviewed_results, 1);
    assert_eq!(
        latest.latest_result.unwrap(),
        SummaryResult {
            submission_id: newer.id,
            review: None
        }
    );
    attempt.lifecycle.reservation = Reservation::Released;
    store.put("s", &attempt.id, &task.id, Body::Attempt(attempt.clone()))
    .unwrap();
    revise(&mut store, &task);
    let released = summary(&mut store);
    assert_eq!(released.reserved_attempts, 0);
    assert_eq!(released.unresolved_native_operations, 0);
    let before = store.task_summaries("s", 20, None, None).unwrap();
    store.rebuild_summaries().unwrap();
    assert_eq!(store.task_summaries("s", 20, None, None).unwrap(), before);
    let json = before.to_json();
    assert!(!json.contains("Private result"));
    assert!(!json.contains("Never in summary"));
}

#[test]
fn summary_pages_are_bounded_session_pinned_and_survive_pruned_history_rebuild() {
    let mut store = WorkStore::in_memory().unwrap();
    for _ in 0..23 {
        task(&mut store, "s", &format!("/{}", "\"".repeat(4094)));
    }
    let first = store.task_summaries("s", 20, None, None).unwrap();
    assert!(first.items.len() < 20);
    assert!(first.to_json().len() <= MAX_LIST_BYTES);
    assert!(first.next_after_id.is_some());
    task(&mut store, "other", "/foreign");
    let second = store
        .task_summaries(
            "s",
            20,
            first.next_after_id.as_deref(),
            Some(first.snapshot_cursor),
        )
        .unwrap();
    assert!(second.items.iter().all(|row| row.session_id == "s"));
    assert!(first
        .items
        .iter()
        .all(|a| second.items.iter().all(|b| a.task_id != b.task_id)));
    assert!(store.task_summaries("s", 21, None, None).is_err());
    assert!(store
        .task_summaries("s", 20, first.next_after_id.as_deref(), None)
        .is_err());
    let snapshot = store.task_summaries("s", 20, None, None).unwrap();
    store.changes.clear();
    store.rebuild_summaries().unwrap();
    assert_eq!(store.task_summaries("s", 20, None, None).unwrap(), snapshot);
    let mut store = WorkStore::initialize(store).unwrap();
    assert_eq!(store.task_summaries("s", 20, None, None).unwrap(), snapshot);
    task(&mut store, "s", "/new");
    assert_eq!(
        store
            .task_summaries(
                "s",
                20,
                first.next_after_id.as_deref(),
                Some(first.snapshot_cursor)
            )
            .unwrap_err()
            .0,
        FailureCode::RevisionConflict
    );
}

#[test]
fn projection_rollback_and_failed_rebuild_do_not_disable_legacy_reads() {
    let mut store = WorkStore::in_memory().unwrap();
    let task = task(&mut store, "s", "/repo");
    let before = summary(&mut store);
    {
        let mut tried = store.replica();
        tried
            .set_paused(
                "device",
                "s",
                &before.task_id,
                "pause",
                task.revision,
                PauseInput { paused: true },
                2,
            )
            .unwrap();
    }
    assert_eq!(summary(&mut store), before);
    // A second record under the task's identifier hides the first from the projection.
    store.records.push(Record {
        id: task.id.clone(),
        session: "elsewhere".into(),
        task_id: task.id.clone(),
        body: Body::Task(task.clone()),
        wire: None,
    });
    assert!(store.rebuild_summaries().is_err());
    assert!(!store.summaries_ready());
    assert_eq!(store.list_tasks("s", None, 20).unwrap().len(), 1);
    assert_eq!(
        store.task_summaries("s", 20, None, None).unwrap_err().0,
        FailureCode::CapabilityUnavailable
    );
    store.records.pop();
    store.rebuild_summaries().unwrap();
    assert_eq!(summary(&mut store), before);
    store.summaries.clear();
    store.activity.clear();
    store.watermarks.clear();
    store.rebuild_summaries().unwrap();
    assert_eq!(summary(&mut store), before);
}

fn fresh() -> String {
    uuid::Uuid::new_v4().to_string()
}
