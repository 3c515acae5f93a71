//! Starts, deliveries and reconciliations, driven step by step against a native side that is
//! played by the test.
use muqun_work::digest::bytes_digest;
use muqun_work::work::model::ArtifactRef;
use muqun_work::work::model::AttemptRole;
use muqun_work::work::model::CreateTask;
use muqun_work::work::model::FailureCode;
use muqun_work::work::model::InputRef;
use muqun_work::work::model::InputUpload;
use muqun_work::work::model::InputUse;
use muqun_work::work::model::LifecycleObservation;
use muqun_work::work::model::Mutation;
use muqun_work::work::model::NativeBinding;
use muqun_work::work::model::Operation;
use muqun_work::work::model::OperationKind;
use muqun_work::work::model::OperationState;
use muqun_work::work::model::PauseInput;
use muqun_work::work::model::ReceiptValue;
use muqun_work::work::model::ReconcileInput;
use muqun_work::work::model::ReconciliationEvidence;
use muqun_work::work::model::ReconciliationReceipt;
use muqun_work::work::model::Reservation;
use muqun_work::work::model::Task;
use muqun_work::work::model::TaskPolicy;
use muqun_work::work::model::WorkError;
use muqun_work::work::model::WorkResult;
use muqun_work::work::store::tables::WorkStore;
use muqun_work::work_actor::Ids;
use muqun_work::work_actor::Moment;
use muqun_work::work_actor::Observation;
use muqun_work::work_actor::WorkActor;
use muqun_work::work_artifacts::publish_bytes;
use muqun_work::work_artifacts::FileRead;
use muqun_work::work_artifacts::FileState;
use muqun_work::work_authority::Registry;
use muqun_work::work_authority::Scope;
use muqun_work::work_execution::delivery::DeliveryEvent;
use muqun_work::work_execution::delivery::DeliveryNext;
use muqun_work::work_execution::delivery::DeliveryStage;
use muqun_work::work_execution::reconcile::Evidence;
use muqun_work::work_execution::reconcile::Lifecycle;
use muqun_work::work_execution::reconcile::ReconcileNext;
use muqun_work::work_execution::start::BindingReply;
use muqun_work::work_execution::start::LaunchReply;
use muqun_work::work_execution::start::StartEvent;
use muqun_work::work_execution::start::StartNext;
use muqun_work::work_execution::start::StartStage;
use muqun_work::work_execution::DeliveryRequest;
use muqun_work::work_execution::Execution;
use muqun_work::work_execution::NativeAnswer;
use muqun_work::work_execution::NativeFailure;
use muqun_work::work_execution::StartRequest;
use muqun_work::work_inputs::resolve_input;

const INSTRUCTIONS_VERSION: &str = "result-reporting-v2";
const NOW: i64 = 1_000;

/// What happens while a place is made.
enum Meanwhile {
    Nothing,
    Pause,
    Release,
}

/// The world around the library: the store, the grants, and a native side.
struct World {
    store: WorkStore,
    registry: Registry,
    device_gone: bool,
    revoke_at_preflight: bool,
    preflight_refused: bool,
    blobs: Option<Vec<(String, Vec<u8>)>>,
    lifecycle: Lifecycle,
    supported: bool,
    calls: usize,
    fail_start: bool,
    reporting_available: bool,
    refuse_start: Option<&'static str>,
    fail_prompt: bool,
    prompts: Vec<String>,
    meanwhile: Meanwhile,
}

fn file_state(size: u64) -> FileState {
    FileState {
        regular: true,
        size,
        device: 1,
        inode: 2,
        modified: 3,
        modified_nanos: 4,
        changed: 5,
        changed_nanos: 6,
    }
}

fn read_of(content: &[u8]) -> FileRead {
    FileRead {
        before: file_state(content.len() as u64),
        content: content.to_vec(),
        after: file_state(content.len() as u64),
    }
}

fn execution() -> Execution {
    Execution { actor: WorkActor::paired(Some("user"), "user").unwrap(), session: "session".into() }
}

impl World {
    fn at(&self) -> Moment {
        Moment {
            seen: Observation::Live,
            device: if self.device_gone {
                Err(WorkError(FailureCode::ScopeMismatch))
            } else {
                Ok(())
            },
            now: NOW,
        }
    }

    fn revision(&self, task: &str) -> u64 {
        self.store.detail("session", task).unwrap().task.revision
    }

    fn place(&mut self, task: &str) -> BindingReply {
        self.calls += 1;
        match self.meanwhile {
            Meanwhile::Nothing => {}
            Meanwhile::Pause => {
                let revision = self.revision(task);
                self.store
                    .set_paused(
                        "user",
                        "session",
                        task,
                        "pause",
                        revision,
                        PauseInput { paused: true },
                        10,
                    )
                    .unwrap();
            }
            Meanwhile::Release => {
                let detail = self.store.detail("session", task).unwrap();
                let attempt = detail.attempts[0].id.clone();
                let op = self
                    .store
                    .prepare_reconciliation(
                        "user",
                        "session",
                        task,
                        &attempt,
                        ReconcileInput {
                            request_key: "release-before-dispatch".into(),
                            expected_revision: detail.task.revision,
                            expected_instance_id: None,
                            expected_native_owner_epoch: None,
                        },
                        10,
                    )
                    .unwrap()
                    .value;
                self.store.begin_operation("session", &op.id, 11).unwrap();
                let revision = self.revision(task);
                self.store
                    .finish_reconciliation(
                        "session",
                        &op.id,
                        revision,
                        ReconciliationEvidence::NotDispatched,
                        12,
                    )
                    .unwrap();
            }
        }
        BindingReply::Bound(NativeBinding {
            workspace_id: Some("workspace".into()),
            ..NativeBinding::default()
        })
    }

    fn launch(&mut self, operation_id: &str) -> LaunchReply {
        self.calls += 1;
        if let Some(code) = self.refuse_start {
            return LaunchReply::Failed(NativeFailure::StartNotStarted {
                operation_id: operation_id.into(),
                owner_epoch: "native-owner".into(),
                receipt_id: "no-process-proof".into(),
                code: Some(code.into()),
            });
        }
        if self.fail_start {
            return LaunchReply::Failed(NativeFailure::Other);
        }
        LaunchReply::Launched {
            binding: NativeBinding {
                instance_id: Some("native-generation".into()),
                ..NativeBinding::default()
            },
            owner_epoch: Some("native-owner".into()),
        }
    }

    fn start(
        &mut self,
        actor: &str,
        task: &str,
        request: &StartRequest,
    ) -> WorkResult<Mutation<Operation>> {
        let execution = execution();
        let mut stage = execution.begin_start(actor)?;
        loop {
            let event = match &stage {
                StartStage::Asked => {
                    StartEvent::Support { supported: self.supported, branch_valid: true }
                }
                StartStage::Supported { .. }
                | StartStage::Preflighted { .. }
                | StartStage::Rendered { .. }
                | StartStage::Placed { .. }
                | StartStage::Located { .. } => StartEvent::Observed,
                StartStage::Prepared { .. } => {
                    StartEvent::Preflight { ready: self.reporting_available }
                }
                StartStage::Begun { .. } => StartEvent::Render(Ok(())),
                StartStage::Cleared { .. } => StartEvent::Place(self.place(task)),
                StartStage::Recleared { .. } => {
                    StartEvent::Locate(BindingReply::Bound(NativeBinding {
                        pane_id: Some("pane".into()),
                        ..NativeBinding::default()
                    }))
                }
                StartStage::Claimed { op, .. } => {
                    let id = op.id.clone();
                    StartEvent::Launch(self.launch(&id))
                }
            };
            let at = self.at();
            let next = execution.start(
                &mut self.registry,
                &mut self.store,
                &Ids::fresh(),
                task,
                request,
                stage,
                event,
                &at,
            );
            match next {
                StartNext::Await(later) => stage = later,
                StartNext::Finished(result) => return result,
            }
        }
    }

    fn render(&self, request: &DeliveryRequest, stage: &DeliveryStage) -> WorkResult<String> {
        let (bootstrap, inputs) = match stage {
            DeliveryStage::Checked { bootstrap, inputs } => (*bootstrap, inputs),
            _ => unreachable!(),
        };
        let mut prompt = request.text.clone();
        for input in inputs {
            let blob = self
                .blobs
                .as_ref()
                .unwrap()
                .iter()
                .find(|(name, _)| *name == input.sha256);
            let found = match blob {
                Some((_, content)) => Ok(read_of(content)),
                None => Err(WorkError(FailureCode::ArtifactMissing)),
            };
            let path = resolve_input("/blobs", input, found, Some("text/plain; charset=utf-8"))?;
            prompt.push('\n');
            prompt.push_str(&path);
        }
        if bootstrap {
            prompt.push_str("\nReport with: work submit-result");
        }
        if prompt.len() > 65_536 {
            return Err(WorkError(FailureCode::InvalidInput));
        }
        Ok(prompt)
    }

    fn deliver(
        &mut self,
        task: &str,
        attempt: &str,
        request: &DeliveryRequest,
    ) -> WorkResult<Mutation<Operation>> {
        let execution = execution();
        let mut next = execution.begin_delivery(
            &self.registry,
            &self.store,
            "user",
            task,
            attempt,
            request,
            INSTRUCTIONS_VERSION,
            &self.at(),
        );
        loop {
            let stage = match next {
                DeliveryNext::Finished(result) => return result,
                DeliveryNext::Await(stage) => stage,
            };
            let event = match &stage {
                DeliveryStage::Asked => DeliveryEvent::Support { supported: self.supported },
                DeliveryStage::Vetted { .. } => {
                    if self.revoke_at_preflight {
                        self.device_gone = true;
                    }
                    DeliveryEvent::Preflight(if self.preflight_refused {
                        NativeAnswer::Failed(NativeFailure::Refused {
                            code: Some("agent_blocked".into()),
                        })
                    } else {
                        NativeAnswer::Done
                    })
                }
                DeliveryStage::Checked { .. } => DeliveryEvent::Render(self.render(request, &stage)),
                DeliveryStage::Rendered { .. } | DeliveryStage::Prepared { .. } => {
                    DeliveryEvent::Observed
                }
                DeliveryStage::Begun { prompt, .. } => {
                    self.calls += 1;
                    self.prompts.push(prompt.clone());
                    DeliveryEvent::Prompt(if self.fail_prompt {
                        NativeAnswer::Failed(NativeFailure::Other)
                    } else {
                        NativeAnswer::Done
                    })
                }
            };
            let at = self.at();
            next = execution.deliver(
                &mut self.registry,
                &mut self.store,
                &Ids::fresh(),
                task,
                attempt,
                request,
                INSTRUCTIONS_VERSION,
                stage,
                event,
                &at,
            );
        }
    }

    fn reconcile(
        &mut self,
        task: &str,
        attempt: &str,
        input: ReconcileInput,
        pause: bool,
    ) -> (Vec<String>, WorkResult<Mutation<ReconciliationReceipt>>) {
        let execution = execution();
        let next = execution.begin_reconcile(
            &mut self.store,
            &Ids::fresh(),
            "user",
            task,
            attempt,
            input,
            NOW,
        );
        let stage = match next {
            ReconcileNext::Finished(result) => return (Vec::new(), result),
            ReconcileNext::Await(stage) => stage,
        };
        let seen = match &stage.evidence {
            Evidence::Known(_) => Lifecycle::Unknown,
            Evidence::Look { .. } => {
                self.calls += 1;
                match &self.lifecycle {
                    Lifecycle::Live => Lifecycle::Live,
                    Lifecycle::Exited { receipt_id } => {
                        Lifecycle::Exited { receipt_id: receipt_id.clone() }
                    }
                    Lifecycle::Unknown => Lifecycle::Unknown,
                }
            }
        };
        if pause {
            let revision = self.revision(task);
            self.store
                .set_paused(
                    "user",
                    "session",
                    task,
                    "pause-concurrently",
                    revision,
                    PauseInput { paused: true },
                    NOW,
                )
                .unwrap();
        }
        execution.reconcile(
            &mut self.registry,
            &mut self.store,
            task,
            attempt,
            stage,
            seen,
            NOW,
        )
    }
}

fn fixture() -> (World, Task, StartRequest) {
    let mut store = WorkStore::in_memory().unwrap();
    let task = store
        .create_task(
            "user",
            "session",
            "task",
            CreateTask {
                repo_path: "/tmp/project".into(),
                title: "Task".into(),
                brief: "Do work".into(),
                parent_task_id: None,
                policy: TaskPolicy { allowed_agents: vec!["codex".into()], max_workers: 0 },
            },
            1,
        )
        .unwrap()
        .value;
    let world = World {
        store,
        registry: Registry::new(),
        device_gone: false,
        revoke_at_preflight: false,
        preflight_refused: false,
        blobs: None,
        lifecycle: Lifecycle::Unknown,
        supported: true,
        calls: 0,
        fail_start: false,
        reporting_available: true,
        refuse_start: None,
        fail_prompt: false,
        prompts: Vec::new(),
        meanwhile: Meanwhile::Nothing,
    };
    (
        world,
        task,
        StartRequest {
            request_key: "start".into(),
            expected_revision: 1,
            agent_kind: "codex".into(),
            role: AttemptRole::Lead,
            branch_name: None,
        },
    )
}

#[test]
fn caller_cannot_substitute_another_actor_for_authenticated_execution() {
    let (mut world, task, request) = fixture();
    assert_eq!(
        world.start("forged-lead", &task.id, &request).unwrap_err().0,
        FailureCode::ScopeMismatch
    );
    assert_eq!(world.calls, 0);
    assert!(world.store.detail("session", &task.id).unwrap().attempts.is_empty());
}

#[test]
fn exact_exit_releases_and_revokes_once_without_replaying_native_query() {
    let (mut world, task, request) = fixture();
    world.lifecycle = Lifecycle::Exited { receipt_id: "reaped-owned-child".into() };
    let started = world.start("user", &task.id, &request).unwrap().value;
    let aid = started.attempt_id.unwrap();
    let scope = Scope {
        session_id: "session".into(),
        task_id: task.id.clone(),
        attempt_id: aid.clone(),
    };
    let issued = world
        .registry
        .issue("/grants", "/grants/socket", scope.clone(), NOW)
        .issued
        .unwrap();
    let token = issued.context.token;
    assert!(world.registry.authorize(&token, &scope, NOW).is_ok());
    let input = ReconcileInput {
        request_key: "check".into(),
        expected_revision: world.revision(&task.id),
        expected_instance_id: Some("native-generation".into()),
        expected_native_owner_epoch: Some("native-owner".into()),
    };
    let (files, checked) = world.reconcile(&task.id, &aid, input.clone(), false);
    let checked = checked.unwrap();
    assert_eq!(checked.value.reservation, Reservation::Released);
    assert_eq!(checked.value.observation, LifecycleObservation::Exited);
    assert!(world.registry.authorize(&token, &scope, NOW).is_err());
    assert_eq!(files, vec![issued.path]);
    let calls = world.calls;
    let (files, replay) = world.reconcile(&task.id, &aid, input, false);
    let replay = replay.unwrap();
    assert!(files.is_empty());
    assert!(replay.replayed);
    assert_eq!(replay.value.operation_id, checked.value.operation_id);
    assert_eq!(world.calls, calls);
    assert!(world.store.detail("session", &task.id).unwrap().attempts[0]
        .binding
        .workspace_id
        .is_some());
}

#[test]
fn live_and_unknown_checks_keep_reservations() {
    for observation in [Lifecycle::Live, Lifecycle::Unknown] {
        let (mut world, task, request) = fixture();
        world.lifecycle = observation;
        let op = world.start("user", &task.id, &request).unwrap().value;
        let input = ReconcileInput {
            request_key: "check".into(),
            expected_revision: world.revision(&task.id),
            expected_instance_id: Some("native-generation".into()),
            expected_native_owner_epoch: Some("native-owner".into()),
        };
        let attempt = op.attempt_id.unwrap();
        let checked = world.reconcile(&task.id, &attempt, input, false).1.unwrap();
        assert_eq!(checked.value.reservation, Reservation::Reserved);
        assert!(checked.value.release.is_none());
    }
}

#[test]
fn delayed_lifecycle_revision_conflict_has_terminal_read_only_recovery() {
    let (mut world, task, request) = fixture();
    world.lifecycle = Lifecycle::Exited { receipt_id: "exit-proof".into() };
    let started = world.start("user", &task.id, &request).unwrap().value;
    let aid = started.attempt_id.unwrap();
    let scope = Scope {
        session_id: "session".into(),
        task_id: task.id.clone(),
        attempt_id: aid.clone(),
    };
    let token = world
        .registry
        .issue("/grants", "/grants/socket", scope.clone(), NOW)
        .issued
        .unwrap()
        .context
        .token;
    let input = ReconcileInput {
        request_key: "delayed-check".into(),
        expected_revision: world.revision(&task.id),
        expected_instance_id: Some("native-generation".into()),
        expected_native_owner_epoch: Some("native-owner".into()),
    };
    let (files, checked) = world.reconcile(&task.id, &aid, input, true);
    assert_eq!(checked.unwrap_err().0, FailureCode::RevisionConflict);
    assert!(files.is_empty());
    let receipt = world
        .store
        .get_receipt("user", "session", OperationKind::ReconcileAttempt, "delayed-check")
        .unwrap();
    match receipt.value {
        ReceiptValue::ReconciliationPending(op) => {
            assert_eq!(op.state, OperationState::Refused);
            assert_eq!(op.failure_code, Some(FailureCode::RevisionConflict));
        }
        _ => panic!("the operation is shown while nothing is found"),
    }
    assert_eq!(
        world.store.detail("session", &task.id).unwrap().attempts[0].lifecycle.reservation,
        Reservation::Reserved
    );
    world.registry.authorize(&token, &scope, NOW).unwrap();
}

#[test]
fn immutable_inputs_are_explicit_and_replay_does_not_reread_a_missing_blob() {
    let (mut world, task, start) = fixture();
    let bytes = b"Reference content for the assistant".to_vec();
    let hash = bytes_digest(&bytes);
    publish_bytes(
        &ArtifactRef {
            path: "reference.txt".into(),
            sha256: hash.clone(),
            size_bytes: bytes.len() as u64,
        },
        &bytes,
    )
    .unwrap();
    world.blobs = Some(vec![(hash.clone(), bytes.clone())]);
    let receipt = world
        .store
        .commit_input_upload(
            "user",
            "session",
            "upload",
            InputUpload {
                repo_path: task.repo_path.clone(),
                name: "reference.txt".into(),
                mime: "text/plain; charset=utf-8".into(),
                size_bytes: bytes.len() as u64,
                sha256: hash.clone(),
            },
            NOW,
        )
        .unwrap();
    let started = world.start("user", &task.id, &start).unwrap().value;
    let aid = started.attempt_id.unwrap();
    let request = DeliveryRequest {
        request_key: "input-delivery".into(),
        expected_revision: world.revision(&task.id),
        expected_instance_id: "native-generation".into(),
        text: "Inspect the reference".into(),
        input_refs: vec![InputRef {
            input_id: receipt.input_id.clone(),
            caption: "Keep as reference".into(),
            use_: InputUse::ReferenceOnly,
        }],
    };
    let delivered = world.deliver(&task.id, &aid, &request).unwrap();
    assert_eq!(delivered.value.input_refs[0].sha256, hash);
    assert!(world.prompts[0].contains(&format!("/blobs/{hash}")));
    world.blobs = Some(Vec::new());
    assert!(world.deliver(&task.id, &aid, &request).unwrap().replayed);
    assert_eq!(world.prompts.len(), 1);
    let followup = DeliveryRequest {
        request_key: "independent-followup".into(),
        expected_revision: world.revision(&task.id),
        expected_instance_id: "native-generation".into(),
        text: "Only this instruction".into(),
        input_refs: vec![],
    };
    world.deliver(&task.id, &aid, &followup).unwrap();
    assert_eq!(world.prompts[1], "Only this instruction");
    let missing = DeliveryRequest {
        request_key: "missing-reference".into(),
        expected_revision: world.revision(&task.id),
        expected_instance_id: "native-generation".into(),
        text: "Try to read".into(),
        input_refs: vec![InputRef {
            input_id: receipt.input_id,
            caption: String::new(),
            use_: InputUse::ReferenceOnly,
        }],
    };
    let failed = world.deliver(&task.id, &aid, &missing).unwrap_err();
    assert_eq!(failed.0, FailureCode::ArtifactMissing);
    assert_eq!(world.prompts.len(), 2);
}

#[test]
fn blocked_preflight_cannot_claim_inputs_or_record_a_delivery() {
    let (mut world, task, start) = fixture();
    world.preflight_refused = true;
    let receipt = world
        .store
        .commit_input_upload(
            "user",
            "session",
            "upload",
            InputUpload {
                repo_path: task.repo_path.clone(),
                name: "note.txt".into(),
                mime: "text/plain; charset=utf-8".into(),
                size_bytes: 1,
                sha256: "a".repeat(64),
            },
            NOW,
        )
        .unwrap();
    let refs = vec![InputRef {
        input_id: receipt.input_id,
        caption: String::new(),
        use_: InputUse::ReferenceOnly,
    }];
    let started = world.start("user", &task.id, &start).unwrap().value;
    let revision = world.revision(&task.id);
    let request = DeliveryRequest {
        request_key: "blocked".into(),
        expected_revision: revision,
        expected_instance_id: "native-generation".into(),
        text: "Use reference".into(),
        input_refs: refs.clone(),
    };
    let result = world
        .deliver(&task.id, started.attempt_id.as_deref().unwrap(), &request)
        .unwrap_err();
    assert_eq!(result.0, FailureCode::ApprovalRequired);
    assert_eq!(world.revision(&task.id), revision);
    assert!(world
        .store
        .resolve_inputs("user", "session", &task.repo_path, None, &refs, NOW)
        .is_ok());
    assert!(world.prompts.is_empty());
}

#[test]
fn revocation_during_native_preflight_fences_admission_without_affecting_unchanged_actor() {
    for change in ["revoked", "transport", "unchanged"] {
        let (mut world, task, start) = fixture();
        let started = world.start("user", &task.id, &start).unwrap().value;
        let revision = world.revision(&task.id);
        world.revoke_at_preflight = change != "unchanged";
        let request = DeliveryRequest {
            request_key: "after-preflight".into(),
            expected_revision: revision,
            expected_instance_id: "native-generation".into(),
            text: "Only if authorized".into(),
            input_refs: vec![],
        };
        let result = world.deliver(&task.id, started.attempt_id.as_deref().unwrap(), &request);
        if change != "unchanged" {
            assert_eq!(result.unwrap_err().0, FailureCode::ScopeMismatch);
            assert_eq!(world.revision(&task.id), revision);
            assert!(world.prompts.is_empty());
        } else {
            assert_eq!(result.unwrap().value.state, OperationState::Acknowledged);
            assert_eq!(world.prompts.len(), 1);
        }
    }
}

#[test]
fn release_during_placement_keeps_resources_and_stops_suspended_start() {
    let (mut world, task, request) = fixture();
    world.meanwhile = Meanwhile::Release;
    let result = world.start("user", &task.id, &request).unwrap();
    assert_eq!(result.value.state, OperationState::Refused);
    assert_eq!(world.calls, 1);
    let detail = world.store.detail("session", &task.id).unwrap();
    assert_eq!(detail.attempts[0].lifecycle.reservation, Reservation::Released);
    assert!(detail.attempts[0].binding.workspace_id.is_some());
    assert!(detail.attempts[0].binding.instance_id.is_none());
}

#[test]
fn missing_reporting_refuses_before_native_effects_and_replays_receipt() {
    let (mut world, task, request) = fixture();
    world.reporting_available = false;
    let result = world.start("user", &task.id, &request).unwrap();
    assert_eq!(result.value.state, OperationState::Refused);
    assert_eq!(result.value.failure_code, Some(FailureCode::CapabilityUnavailable));
    assert_eq!(world.calls, 0);
    let detail = world.store.detail("session", &task.id).unwrap();
    assert_eq!(detail.attempts[0].lifecycle.reservation, Reservation::Released);
    assert!(world.start("user", &task.id, &request).unwrap().replayed);
    assert_eq!(world.calls, 0);
}

#[test]
fn no_process_refusal_preserves_profile_reason_and_never_retries() {
    for (code, expected) in [
        ("unsupported_agent_kind", FailureCode::CapabilityUnavailable),
        ("agent_not_ready", FailureCode::NotReady),
        ("resource_limit", FailureCode::ResourceLimit),
    ] {
        let (mut world, task, request) = fixture();
        world.refuse_start = Some(code);
        let result = world.start("user", &task.id, &request).unwrap();
        assert_eq!(result.value.state, OperationState::Refused);
        assert_eq!(result.value.failure_code, Some(expected.clone()));
        assert!(result.value.resources.instance_id.is_none());
        let calls = world.calls;
        assert_eq!(calls, 2); // One workspace creation, one bound start; no prompt.
        let replay = world.start("user", &task.id, &request).unwrap();
        assert!(replay.replayed);
        assert_eq!(replay.value.failure_code, Some(expected));
        assert_eq!(world.calls, calls);
        assert!(world.prompts.is_empty());
    }
}

#[test]
fn unsupported_backend_creates_no_records_or_native_resources() {
    let (mut world, task, request) = fixture();
    world.supported = false;
    assert_eq!(
        world.start("user", &task.id, &request).unwrap_err().0,
        FailureCode::CapabilityUnavailable
    );
    assert_eq!(world.calls, 0);
    assert!(world.store.detail("session", &task.id).unwrap().attempts.is_empty());
}

#[test]
fn lost_start_ack_preserves_workspace_and_duplicate_never_starts_again() {
    let (mut world, task, request) = fixture();
    world.fail_start = true;
    let result = world.start("user", &task.id, &request).unwrap();
    assert_eq!(result.value.state, OperationState::Unconfirmed);
    assert_eq!(result.value.resources.workspace_id.as_deref(), Some("workspace"));
    let replay = world.start("user", &task.id, &request).unwrap();
    assert!(replay.replayed);
    assert_eq!(replay.value.id, result.value.id);
    assert_eq!(world.calls, 2);
}

#[test]
fn pause_after_workspace_prevents_agent_start_and_keeps_resource() {
    let (mut world, task, request) = fixture();
    world.meanwhile = Meanwhile::Pause;
    let result = world.start("user", &task.id, &request).unwrap();
    assert_eq!(result.value.state, OperationState::Refused);
    assert_eq!(result.value.resources.workspace_id.as_deref(), Some("workspace"));
    assert_eq!(world.calls, 1);
}

#[test]
fn ambiguous_prompt_is_recorded_once_and_second_key_cannot_overlap() {
    let (mut world, task, request) = fixture();
    world.fail_prompt = true;
    let launch = world.start("user", &task.id, &request).unwrap().value;
    let aid = launch.attempt_id.unwrap();
    let request = DeliveryRequest {
        input_refs: vec![],
        request_key: "send".into(),
        expected_revision: world.revision(&task.id),
        expected_instance_id: "native-generation".into(),
        text: "Hello".into(),
    };
    let result = world.deliver(&task.id, &aid, &request).unwrap();
    assert_eq!(result.value.state, OperationState::Unconfirmed);
    assert!(world.deliver(&task.id, &aid, &request).unwrap().replayed);
    let mut next = request;
    next.request_key = "unsafe-retry".into();
    next.expected_revision = world.revision(&task.id);
    assert_eq!(world.deliver(&task.id, &aid, &next).unwrap_err().0, FailureCode::NotReady);
    assert_eq!(world.calls, 3);
}

#[test]
fn onboarding_is_first_only_replayed_once_and_does_not_change_task_brief() {
    let (mut world, task, start) = fixture();
    let launch = world.start("user", &task.id, &start).unwrap().value;
    let attempt = launch.attempt_id.unwrap();
    let first = DeliveryRequest {
        input_refs: vec![],
        request_key: "initial".into(),
        expected_revision: world.revision(&task.id),
        expected_instance_id: "native-generation".into(),
        text: "  My exact initial request\n".into(),
    };
    let sent = world.deliver(&task.id, &attempt, &first).unwrap();
    assert_eq!(sent.value.bootstrap_version.as_deref(), Some(INSTRUCTIONS_VERSION));
    assert!(world.deliver(&task.id, &attempt, &first).unwrap().replayed);
    let followup = "  My exact follow-up\n";
    let second = DeliveryRequest {
        input_refs: vec![],
        request_key: "followup".into(),
        expected_revision: world.revision(&task.id),
        expected_instance_id: "native-generation".into(),
        text: followup.into(),
    };
    world.deliver(&task.id, &attempt, &second).unwrap();
    assert_eq!(world.prompts.len(), 2);
    assert!(world.prompts[0].starts_with(&first.text));
    assert!(world.prompts[0].contains("work submit-result"));
    assert_eq!(world.prompts[1], followup);
    assert_eq!(world.store.detail("session", &task.id).unwrap().task.brief, task.brief);
}

#[test]
fn oversized_onboarding_is_refused_before_input_and_releases_preparation() {
    let (mut world, task, start) = fixture();
    let launch = world.start("user", &task.id, &start).unwrap().value;
    let attempt = launch.attempt_id.unwrap();
    let prior_revision = world.revision(&task.id);
    let large = DeliveryRequest {
        input_refs: vec![],
        request_key: "large".into(),
        expected_revision: prior_revision,
        expected_instance_id: "native-generation".into(),
        text: "x".repeat(65536),
    };
    let refused = world.deliver(&task.id, &attempt, &large).unwrap_err();
    assert_eq!(refused.0, FailureCode::InvalidInput);
    assert_eq!(world.revision(&task.id), prior_revision);
    assert!(world.prompts.is_empty());
    let shortened = DeliveryRequest {
        input_refs: vec![],
        request_key: "shortened".into(),
        expected_revision: prior_revision,
        expected_instance_id: "native-generation".into(),
        text: "Short request".into(),
    };
    let next = world.deliver(&task.id, &attempt, &shortened).unwrap();
    assert_eq!(next.value.state, OperationState::Acknowledged);
    assert_eq!(next.value.bootstrap_version.as_deref(), Some(INSTRUCTIONS_VERSION));
    assert_eq!(world.prompts.len(), 1);
}
