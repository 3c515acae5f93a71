//! The exact JSON text of values, which digests and page sizes rest on.
use muqun_work::digest::bytes_digest;
use muqun_work::digest::payload_digest;
use muqun_work::json::ToJson;
use muqun_work::work::model::Attempt;
use muqun_work::work::model::AttemptLifecycle;
use muqun_work::work::model::AttemptRelease;
use muqun_work::work::model::AttemptRole;
use muqun_work::work::model::CreateTask;
use muqun_work::work::model::DelegationPolicy;
use muqun_work::work::model::DelegationState;
use muqun_work::work::model::FrozenInputRef;
use muqun_work::work::model::InputRef;
use muqun_work::work::model::InputUse;
use muqun_work::work::model::LaunchPhase;
use muqun_work::work::model::NativeBinding;
use muqun_work::work::model::OperationKind;
use muqun_work::work::model::ReleaseEvidence;
use muqun_work::work::model::ReleaseReason;
use muqun_work::work::model::Reservation;
use muqun_work::work::model::Task;
use muqun_work::work::model::TaskPolicy;
use muqun_work::work::store::inputs::create_request_digest;
use muqun_work::work::store::inputs::delivery_request_digest;
use muqun_work::work::store::rules::new_operation;

fn policy() -> TaskPolicy {
    TaskPolicy { allowed_agents: vec!["codex".into(), "opencode".into()], max_workers: 2 }
}

#[test]
fn text_is_quoted_and_escaped() {
    let text = String::from("a\"b\\c\n\t\u{1}\u{7f}/é🙂");
    assert_eq!(text.to_json(), "\"a\\\"b\\\\c\\n\\t\\u0001\u{7f}/é🙂\"");
    assert_eq!(String::new().to_json(), "\"\"");
    // The outside library writes the same text.
    assert_eq!(serde_json::to_string(&text).unwrap(), text.to_json());
}

#[test]
fn a_task_is_written_field_by_field() {
    let task = Task {
        delegation: DelegationState {
            policy: DelegationPolicy::default(),
            coordinator_attempt_id: None,
            coordinator_epoch: 0,
        },
        dependencies: Vec::new(),
        input_refs: vec![FrozenInputRef {
            input_id: "input".into(),
            caption: "Notes".into(),
            use_: InputUse::MayInclude,
            name: "notes.txt".into(),
            mime: "text/plain".into(),
            size_bytes: 10,
            sha256: "ab".into(),
        }],
        id: "task".into(),
        session_id: "s".into(),
        repo_path: "/project".into(),
        title: "A \"title\"".into(),
        brief: "Line\nline".into(),
        parent_task_id: Some("parent".into()),
        revision: 18_446_744_073_709_551_615,
        created_at_ms: -5,
        updated_at_ms: 0,
        paused: false,
        policy: policy(),
    };
    assert_eq!(
        task.to_json(),
        concat_lines(&[
            r#"{"delegation":{"policy":{"enabled":false,"max_children":16,"max_depth":1,"#,
            r#""dependency_requirement":"result_available"},"coordinator_attempt_id":null,"#,
            r#""coordinator_epoch":0},"dependencies":[],"input_refs":[{"input_id":"input","#,
            r#""caption":"Notes","use":"may-include","name":"notes.txt","mime":"text/plain","#,
            r#""size_bytes":10,"sha256":"ab"}],"id":"task","session_id":"s","#,
            r#""repo_path":"/project","title":"A \"title\"","brief":"Line\nline","#,
            r#""parent_task_id":"parent","revision":18446744073709551615,"created_at_ms":-5,"#,
            r#""updated_at_ms":0,"paused":false,"#,
            r#""policy":{"allowed_agents":["codex","opencode"],"max_workers":2}}"#,
        ])
    );
}

#[test]
fn an_attempt_shows_its_binding_among_its_fields() {
    let attempt = Attempt {
        lifecycle: AttemptLifecycle {
            launch_phase: LaunchPhase::LaunchConfirmed,
            reservation: Reservation::Released,
            native_owner_epoch: Some("owner".into()),
            release: Some(AttemptRelease {
                reason: ReleaseReason::OwnedProcessExited,
                evidence: ReleaseEvidence::NativeExitTombstone {
                    instance_id: "launch".into(),
                    native_owner_epoch: "owner".into(),
                    native_receipt_id: "receipt".into(),
                },
                reconciliation_operation_id: "check".into(),
                released_at_ms: 9,
            }),
        },
        id: "attempt".into(),
        task_id: "task".into(),
        agent_kind: "codex".into(),
        role: AttemptRole::Lead,
        binding: NativeBinding {
            instance_id: Some("launch".into()),
            ..NativeBinding::default()
        },
        created_at_ms: 1,
    };
    assert_eq!(
        attempt.to_json(),
        concat_lines(&[
            r#"{"lifecycle":{"launch_phase":"launch_confirmed","reservation":"released","#,
            r#""native_owner_epoch":"owner","release":{"reason":"owned_process_exited","#,
            r#""evidence":{"kind":"native_exit_tombstone","instance_id":"launch","#,
            r#""native_owner_epoch":"owner","native_receipt_id":"receipt"},"#,
            r#""reconciliation_operation_id":"check","released_at_ms":9}},"id":"attempt","#,
            r#""task_id":"task","agent_kind":"codex","role":"lead","workspace_id":null,"#,
            r#""tab_id":null,"instance_id":"launch","target":null,"pane_id":null,"#,
            r#""worktree_path":null,"created_at_ms":1}"#,
        ])
    );
}

#[test]
fn an_operation_is_written_field_by_field() {
    let op = new_operation("op", "task", Some("attempt".into()), OperationKind::DeliverPrompt, 3);
    assert_eq!(
        op.to_json(),
        concat_lines(&[
            r#"{"interruption_receipt":null,"interruption_owner_epoch":null,"#,
            r#""delegation_fence":null,"dependency_snapshot":[],"input_refs":[],"#,
            r#""bootstrap_version":null,"id":"op","task_id":"task","attempt_id":"attempt","#,
            r#""kind":"deliver_prompt","state":"prepared","resources":{"workspace_id":null,"#,
            r#""tab_id":null,"instance_id":null,"target":null,"pane_id":null,"#,
            r#""worktree_path":null},"failure_code":null,"created_at_ms":3,"updated_at_ms":3}"#,
        ])
    );
}

#[test]
fn requests_are_told_apart_by_the_digest_of_their_text() {
    let input = CreateTask {
        repo_path: "/project".into(),
        title: "Task".into(),
        brief: "Work".into(),
        parent_task_id: None,
        policy: policy(),
    };
    let plain = concat_lines(&[
        r#"{"repo_path":"/project","title":"Task","brief":"Work","parent_task_id":null,"#,
        r#""policy":{"allowed_agents":["codex","opencode"],"max_workers":2}}"#,
    ]);
    assert_eq!(payload_digest(&input).unwrap(), bytes_digest(plain.as_bytes()));
    assert_eq!(create_request_digest(&input, &[]), bytes_digest(plain.as_bytes()));
    let refs = [InputRef {
        input_id: "input".into(),
        caption: "Notes".into(),
        use_: InputUse::ReferenceOnly,
    }];
    let named = r#"[{"input_id":"input","caption":"Notes","use":"reference-only"}]"#;
    let both = format!("[{plain},{named}]");
    assert_eq!(create_request_digest(&input, &refs), bytes_digest(both.as_bytes()));
    let sent = format!(r#"["task","attempt",7,"launch","Go on","v1",{named}]"#);
    assert_eq!(
        delivery_request_digest("task", "attempt", 7, "launch", "Go on", Some("v1"), &refs),
        bytes_digest(sent.as_bytes())
    );
    let bare = r#"["task","attempt",7,"launch","Go on",null,[]]"#;
    assert_eq!(
        delivery_request_digest("task", "attempt", 7, "launch", "Go on", None, &[]),
        bytes_digest(bare.as_bytes())
    );
}

fn concat_lines(parts: &[&str]) -> String {
    parts.concat()
}
