//! Pages of a task's records.
use muqun_work::json::ToJson;
use muqun_work::work::model::AttemptRole;
use muqun_work::work::model::CreateTask;
use muqun_work::work::model::FailureCode;
use muqun_work::work::model::NewAttempt;
use muqun_work::work::model::OperationKind;
use muqun_work::work::model::PauseInput;
use muqun_work::work::model::ResultInput;
use muqun_work::work::model::ResultSubmission;
use muqun_work::work::model::TaskPolicy;
use muqun_work::work::store::pagination::PAGE_BYTES;
use muqun_work::work::store::pagination::RecordValue;
use muqun_work::work::store::pagination::ShownRecord;
use muqun_work::work::store::tables::WorkStore;

#[test]
fn escaped_results_remain_readable_and_snapshot_pages_never_skip_history() {
    let mut store = WorkStore::in_memory().unwrap();
    let task = store
        .create_task(
            "human",
            "s",
            "create",
            CreateTask {
                repo_path: "/tmp/project".into(),
                title: "Large history".into(),
                brief: "Review".into(),
                parent_task_id: None,
                policy: TaskPolicy {
                    allowed_agents: vec!["codex".into()],
                    max_workers: 1,
                },
            },
            1,
        )
        .unwrap()
        .value;
    let op = store
        .prepare_attempt(
            "human",
            "s",
            &task.id,
            "start",
            1,
            NewAttempt {
                agent_kind: "codex".into(),
                role: AttemptRole::Lead,
            },
            "digest",
            2,
        )
        .unwrap()
        .value;
    let attempt = op.attempt_id.unwrap();
    let mut result_ids = Vec::new();
    for i in 0..24 {
        let revision = store.detail("s", &task.id).unwrap().task.revision;
        let result = store
            .submit_result(
                "human",
                "s",
                &task.id,
                &format!("result-{i}"),
                revision,
                ResultInput {
                    attempt_id: attempt.clone(),
                    summary: "x".repeat(16384),
                    artifacts: vec![],
                    // U+0001 is valid input and expands sixfold in JSON.
                    evidence: vec!["\u{1}".repeat(4096); 32],
                },
                i + 3,
            )
            .unwrap()
            .value;
        result_ids.push(result.id);
    }
    let full = store.detail("s", &task.id).unwrap();
    assert!(full.results.to_json().len() > 16 * 1024 * 1024);
    let first = store.paged_detail("s", &task.id).unwrap();
    assert!(first.detail.results.to_json().len() < 9 * 1024 * 1024);
    assert!(first.pages.results.has_more);
    let revision = first.detail.task.revision;
    let one = store
        .task_records("s", &task.id, "result", first.detail.task.revision, None, 1)
        .unwrap();
    assert_eq!(one.items.len(), 1);
    assert!(one.page.has_more);
    assert_eq!(
        store
            .task_records(
                "s",
                &task.id,
                "result",
                first.detail.task.revision,
                None,
                21
            )
            .unwrap_err()
            .0,
        FailureCode::InvalidInput
    );
    assert_eq!(
        store
            .task_records(
                "s",
                &task.id,
                "result",
                first.detail.task.revision,
                Some("invalid"),
                20
            )
            .unwrap_err()
            .0,
        FailureCode::InvalidInput
    );

    let mut seen: Vec<_> = first.detail.results.iter().map(|r| r.id.clone()).collect();
    let mut after = first.pages.results.next_after_id;
    while let Some(id) = after {
        let page = store
            .task_records("s", &task.id, "result", revision, Some(&id), 20)
            .unwrap();
        assert!(encoded_items(&page.items) < PAGE_BYTES + 1024);
        seen.extend(
            page.items.iter().map(|v| result_of(v).id.clone()),
        );
        after = page.page.next_after_id;
    }
    result_ids.sort();
    assert_eq!(seen, result_ids);
    let historical = store
        .immutable_record("s", &task.id, "result", &result_ids[0])
        .unwrap();
    assert_eq!(
        result_of(&historical).result.evidence[0],
        "\u{1}".repeat(4096)
    );
    assert_eq!(
        store
            .immutable_record("s", "foreign", "result", &result_ids[0])
            .unwrap_err()
            .0,
        FailureCode::ScopeMismatch
    );
    assert_eq!(
        store
            .immutable_record("other", &task.id, "result", &result_ids[0])
            .unwrap_err()
            .0,
        FailureCode::NotFound
    );
    store
        .set_paused(
            "human",
            "s",
            &task.id,
            "pause",
            revision,
            PauseInput { paused: true },
            99,
        )
        .unwrap();
    assert_eq!(
        store
            .task_records("s", &task.id, "result", revision, None, 20)
            .unwrap_err()
            .0,
        FailureCode::RevisionConflict
    );
    assert!(store
        .immutable_record("s", &task.id, "result", &result_ids[0])
        .is_ok());
}

fn result_of(shown: &ShownRecord) -> &ResultSubmission {
    match &shown.value {
        RecordValue::Result(result) => result,
        other => panic!("{other:?}"),
    }
}

fn encoded_items(items: &[ShownRecord]) -> usize {
    items.iter().map(|v| result_of(v).to_json().len() + 1).sum()
}

#[test]
fn what_was_written_before_is_shown_and_counted_as_it_was_written() {
    let mut store = WorkStore::in_memory().unwrap();
    let input = CreateTask {
        repo_path: "/tmp/project".into(),
        title: "Old".into(),
        brief: "Read".into(),
        parent_task_id: None,
        policy: TaskPolicy { allowed_agents: vec!["codex".into()], max_workers: 1 },
    };
    let task = store.create_task("human", "s", "create", input, 1).unwrap().value;
    let lead = NewAttempt { agent_kind: "codex".into(), role: AttemptRole::Lead };
    let start = store
        .prepare_attempt("human", "s", &task.id, "start", 1, lead, "digest", 2)
        .unwrap()
        .value;
    let old = format!("{{\"id\":\"{}\",\"kind\":\"start_attempt\"}}", start.id);
    let at = store.records.iter().position(|record| record.id == start.id).unwrap();
    store.records[at].wire = Some(old.clone());
    let page = store.task_records("s", &task.id, "operation", 2, None, 20).unwrap();
    assert_eq!(page.items[0].wire, Some(old));
    assert_eq!(page.items[0].value, RecordValue::Operation(start.clone()));
    // A row that fills a page by what was written leaves no place for another.
    store.records[at].wire = Some("x".repeat(PAGE_BYTES));
    assert_eq!(
        store.task_records("s", &task.id, "operation", 2, None, 20).unwrap_err().0,
        FailureCode::ResourceLimit
    );
    // What is written anew is written as it is written now.
    store.begin_operation("s", &start.id, 3).unwrap();
    let page = store.task_records("s", &task.id, "operation", 3, None, 20).unwrap();
    assert_eq!(page.items[0].wire, None);
    // An answer is shown as it was written, an operation as it stands.
    for row in store.receipts.iter_mut() {
        row.wire = Some("{}".into());
    }
    let created = store.get_receipt("human", "s", OperationKind::CreateTask, "create").unwrap();
    assert_eq!(created.wire.as_deref(), Some("{}"));
    let started = store.get_receipt("human", "s", OperationKind::StartAttempt, "start").unwrap();
    assert_eq!(started.wire, None);
}
