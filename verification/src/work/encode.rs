//! The JSON text of the values that are digested or measured.
use vstd::prelude::*;
use crate::json::object;
use crate::json::ObjectWriter;
use crate::json::ToJson;
use crate::value::Text;

use crate::work::model::ArtifactRef;
use crate::work::model::ArtifactRefModel;
use crate::work::model::Attempt;
use crate::work::model::AttemptLifecycle;
use crate::work::model::AttemptLifecycleModel;
use crate::work::model::AttemptModel;
use crate::work::model::AttemptRelease;
use crate::work::model::AttemptReleaseModel;
use crate::work::model::AttemptRole;
use crate::work::model::CreateTask;
use crate::work::model::CreateTaskModel;
use crate::work::model::DelegationConfig;
use crate::work::model::DelegationConfigModel;
use crate::work::model::DelegationFence;
use crate::work::model::DelegationFenceModel;
use crate::work::model::DelegationPolicy;
use crate::work::model::DelegationPolicyModel;
use crate::work::model::DelegationState;
use crate::work::model::DelegationStateModel;
use crate::work::model::DependencyRequirement;
use crate::work::model::DependencySnapshot;
use crate::work::model::DependencySnapshotModel;
use crate::work::model::FailureCode;
use crate::work::model::FrozenInputRef;
use crate::work::model::FrozenInputRefModel;
use crate::work::model::InputRef;
use crate::work::model::InputRefModel;
use crate::work::model::InputUpload;
use crate::work::model::InputUploadModel;
use crate::work::model::InputUse;
use crate::work::model::InterruptInput;
use crate::work::model::InterruptInputModel;
use crate::work::model::InterruptionReceipt;
use crate::work::model::InterruptionReceiptModel;
use crate::work::model::LaunchPhase;
use crate::work::model::LifecycleObservation;
use crate::work::model::NativeBinding;
use crate::work::model::NativeBindingModel;
use crate::work::model::NewAttempt;
use crate::work::model::NewAttemptModel;
use crate::work::model::Operation;
use crate::work::model::OperationKind;
use crate::work::model::OperationModel;
use crate::work::model::OperationState;
use crate::work::model::PauseInput;
use crate::work::model::PauseInputModel;
use crate::work::model::ReconcileInput;
use crate::work::model::ReconcileInputModel;
use crate::work::model::ReleaseEvidence;
use crate::work::model::ReleaseEvidenceModel;
use crate::work::model::ReleaseReason;
use crate::work::model::Reservation;
use crate::work::model::ResultInput;
use crate::work::model::ResultInputModel;
use crate::work::model::ResultSubmission;
use crate::work::model::ResultSubmissionModel;
use crate::work::model::Review;
use crate::work::model::ReviewDecision;
use crate::work::model::ReviewInput;
use crate::work::model::ReviewInputModel;
use crate::work::model::ReviewModel;
use crate::work::model::SummaryResult;
use crate::work::model::SummaryResultModel;
use crate::work::model::SummaryReview;
use crate::work::model::SummaryReviewModel;
use crate::work::model::Task;
use crate::work::model::TaskActivity;
use crate::work::model::TaskActivityModel;
use crate::work::model::TaskDependency;
use crate::work::model::TaskDependencyModel;
use crate::work::model::TaskModel;
use crate::work::model::TaskPolicy;
use crate::work::model::TaskPolicyModel;
use crate::work::model::TaskSummary;
use crate::work::model::TaskSummaryModel;
use crate::work::model::TaskSummaryPage;
use crate::work::model::TaskSummaryPageModel;

verus! {

broadcast use vstd::string::group_string_axioms;

impl ToJson for FailureCode {
    open spec fn json(v: FailureCode) -> Text {
        match v {
            FailureCode::InvalidInput => "\"invalid_input\""@,
            FailureCode::NotFound => "\"not_found\""@,
            FailureCode::ScopeMismatch => "\"scope_mismatch\""@,
            FailureCode::RevisionConflict => "\"revision_conflict\""@,
            FailureCode::RequestKeyConflict => "\"request_key_conflict\""@,
            FailureCode::CapabilityUnavailable => "\"capability_unavailable\""@,
            FailureCode::InstanceChanged => "\"instance_changed\""@,
            FailureCode::NotReady => "\"not_ready\""@,
            FailureCode::ApprovalRequired => "\"approval_required\""@,
            FailureCode::DeliveryUnconfirmed => "\"delivery_unconfirmed\""@,
            FailureCode::ArtifactChanged => "\"artifact_changed\""@,
            FailureCode::ArtifactMissing => "\"artifact_missing\""@,
            FailureCode::InputExpired => "\"input_expired\""@,
            FailureCode::ResourceLimit => "\"resource_limit\""@,
            FailureCode::StorageUnavailable => "\"storage_unavailable\""@,
        }
    }

    fn to_json(&self) -> (res: String) {
        match self {
            FailureCode::InvalidInput => "\"invalid_input\"".to_string(),
            FailureCode::NotFound => "\"not_found\"".to_string(),
            FailureCode::ScopeMismatch => "\"scope_mismatch\"".to_string(),
            FailureCode::RevisionConflict => "\"revision_conflict\"".to_string(),
            FailureCode::RequestKeyConflict => "\"request_key_conflict\"".to_string(),
            FailureCode::CapabilityUnavailable => "\"capability_unavailable\"".to_string(),
            FailureCode::InstanceChanged => "\"instance_changed\"".to_string(),
            FailureCode::NotReady => "\"not_ready\"".to_string(),
            FailureCode::ApprovalRequired => "\"approval_required\"".to_string(),
            FailureCode::DeliveryUnconfirmed => "\"delivery_unconfirmed\"".to_string(),
            FailureCode::ArtifactChanged => "\"artifact_changed\"".to_string(),
            FailureCode::ArtifactMissing => "\"artifact_missing\"".to_string(),
            FailureCode::InputExpired => "\"input_expired\"".to_string(),
            FailureCode::ResourceLimit => "\"resource_limit\"".to_string(),
            FailureCode::StorageUnavailable => "\"storage_unavailable\"".to_string(),
        }
    }
}

impl ToJson for AttemptRole {
    open spec fn json(v: AttemptRole) -> Text {
        match v {
            AttemptRole::Lead => "\"lead\""@,
            AttemptRole::Worker => "\"worker\""@,
        }
    }

    fn to_json(&self) -> (res: String) {
        match self {
            AttemptRole::Lead => "\"lead\"".to_string(),
            AttemptRole::Worker => "\"worker\"".to_string(),
        }
    }
}

impl ToJson for OperationKind {
    open spec fn json(v: OperationKind) -> Text {
        match v {
            OperationKind::CreateTask => "\"create_task\""@,
            OperationKind::StartAttempt => "\"start_attempt\""@,
            OperationKind::DeliverPrompt => "\"deliver_prompt\""@,
            OperationKind::InterruptAttempt => "\"interrupt_attempt\""@,
            OperationKind::SubmitResult => "\"submit_result\""@,
            OperationKind::ReviewResult => "\"review_result\""@,
            OperationKind::PauseTask => "\"pause_task\""@,
            OperationKind::ReconcileAttempt => "\"reconcile_attempt\""@,
            OperationKind::ConfigureDelegation => "\"configure_delegation\""@,
            OperationKind::SetDependencies => "\"set_dependencies\""@,
        }
    }

    fn to_json(&self) -> (res: String) {
        match self {
            OperationKind::CreateTask => "\"create_task\"".to_string(),
            OperationKind::StartAttempt => "\"start_attempt\"".to_string(),
            OperationKind::DeliverPrompt => "\"deliver_prompt\"".to_string(),
            OperationKind::InterruptAttempt => "\"interrupt_attempt\"".to_string(),
            OperationKind::SubmitResult => "\"submit_result\"".to_string(),
            OperationKind::ReviewResult => "\"review_result\"".to_string(),
            OperationKind::PauseTask => "\"pause_task\"".to_string(),
            OperationKind::ReconcileAttempt => "\"reconcile_attempt\"".to_string(),
            OperationKind::ConfigureDelegation => "\"configure_delegation\"".to_string(),
            OperationKind::SetDependencies => "\"set_dependencies\"".to_string(),
        }
    }
}

impl ToJson for OperationState {
    open spec fn json(v: OperationState) -> Text {
        match v {
            OperationState::Prepared => "\"prepared\""@,
            OperationState::Submitting => "\"submitting\""@,
            OperationState::Acknowledged => "\"acknowledged\""@,
            OperationState::Refused => "\"refused\""@,
            OperationState::Unconfirmed => "\"unconfirmed\""@,
        }
    }

    fn to_json(&self) -> (res: String) {
        match self {
            OperationState::Prepared => "\"prepared\"".to_string(),
            OperationState::Submitting => "\"submitting\"".to_string(),
            OperationState::Acknowledged => "\"acknowledged\"".to_string(),
            OperationState::Refused => "\"refused\"".to_string(),
            OperationState::Unconfirmed => "\"unconfirmed\"".to_string(),
        }
    }
}

impl ToJson for ReviewDecision {
    open spec fn json(v: ReviewDecision) -> Text {
        match v {
            ReviewDecision::Accepted => "\"accepted\""@,
            ReviewDecision::ChangesRequested => "\"changes_requested\""@,
        }
    }

    fn to_json(&self) -> (res: String) {
        match self {
            ReviewDecision::Accepted => "\"accepted\"".to_string(),
            ReviewDecision::ChangesRequested => "\"changes_requested\"".to_string(),
        }
    }
}

impl ToJson for LaunchPhase {
    open spec fn json(v: LaunchPhase) -> Text {
        match v {
            LaunchPhase::NotDispatched => "\"not_dispatched\""@,
            LaunchPhase::DispatchClaimed => "\"dispatch_claimed\""@,
            LaunchPhase::LaunchConfirmed => "\"launch_confirmed\""@,
            LaunchPhase::LegacyUnknown => "\"legacy_unknown\""@,
        }
    }

    fn to_json(&self) -> (res: String) {
        match self {
            LaunchPhase::NotDispatched => "\"not_dispatched\"".to_string(),
            LaunchPhase::DispatchClaimed => "\"dispatch_claimed\"".to_string(),
            LaunchPhase::LaunchConfirmed => "\"launch_confirmed\"".to_string(),
            LaunchPhase::LegacyUnknown => "\"legacy_unknown\"".to_string(),
        }
    }
}

impl ToJson for Reservation {
    open spec fn json(v: Reservation) -> Text {
        match v {
            Reservation::Reserved => "\"reserved\""@,
            Reservation::Released => "\"released\""@,
        }
    }

    fn to_json(&self) -> (res: String) {
        match self {
            Reservation::Reserved => "\"reserved\"".to_string(),
            Reservation::Released => "\"released\"".to_string(),
        }
    }
}

impl ToJson for ReleaseReason {
    open spec fn json(v: ReleaseReason) -> Text {
        match v {
            ReleaseReason::StartupNotDispatched => "\"startup_not_dispatched\""@,
            ReleaseReason::StartupRefusedWithoutProcess => "\"startup_refused_without_process\""@,
            ReleaseReason::OwnedProcessExited => "\"owned_process_exited\""@,
        }
    }

    fn to_json(&self) -> (res: String) {
        match self {
            ReleaseReason::StartupNotDispatched => "\"startup_not_dispatched\"".to_string(),
            ReleaseReason::StartupRefusedWithoutProcess => "\"startup_refused_without_process\"".to_string(),
            ReleaseReason::OwnedProcessExited => "\"owned_process_exited\"".to_string(),
        }
    }
}

impl ToJson for LifecycleObservation {
    open spec fn json(v: LifecycleObservation) -> Text {
        match v {
            LifecycleObservation::NotStarted => "\"not_started\""@,
            LifecycleObservation::Live => "\"live\""@,
            LifecycleObservation::Exited => "\"exited\""@,
            LifecycleObservation::Unknown => "\"unknown\""@,
            LifecycleObservation::AlreadyReleased => "\"already_released\""@,
        }
    }

    fn to_json(&self) -> (res: String) {
        match self {
            LifecycleObservation::NotStarted => "\"not_started\"".to_string(),
            LifecycleObservation::Live => "\"live\"".to_string(),
            LifecycleObservation::Exited => "\"exited\"".to_string(),
            LifecycleObservation::Unknown => "\"unknown\"".to_string(),
            LifecycleObservation::AlreadyReleased => "\"already_released\"".to_string(),
        }
    }
}

impl ToJson for InputUse {
    open spec fn json(v: InputUse) -> Text {
        match v {
            InputUse::ReferenceOnly => "\"reference-only\""@,
            InputUse::MayInclude => "\"may-include\""@,
        }
    }

    fn to_json(&self) -> (res: String) {
        match self {
            InputUse::ReferenceOnly => "\"reference-only\"".to_string(),
            InputUse::MayInclude => "\"may-include\"".to_string(),
        }
    }
}

impl ToJson for DependencyRequirement {
    open spec fn json(v: DependencyRequirement) -> Text {
        match v {
            DependencyRequirement::ResultAvailable => "\"result_available\""@,
            DependencyRequirement::HumanAccepted => "\"human_accepted\""@,
        }
    }

    fn to_json(&self) -> (res: String) {
        match self {
            DependencyRequirement::ResultAvailable => "\"result_available\"".to_string(),
            DependencyRequirement::HumanAccepted => "\"human_accepted\"".to_string(),
        }
    }
}

impl ToJson for ReleaseEvidence {
    open spec fn json(v: ReleaseEvidenceModel) -> Text {
        match v {
            ReleaseEvidenceModel::GatewayDispatchFence { start_operation_id } => object(
                Seq::empty()
                    .push(("kind"@, "\"gateway_dispatch_fence\""@))
                    .push(("start_operation_id"@, String::json(start_operation_id)))
            ),
            ReleaseEvidenceModel::NativeStartRefusal { start_operation_id, native_owner_epoch, native_receipt_id } => object(
                Seq::empty()
                    .push(("kind"@, "\"native_start_refusal\""@))
                    .push(("start_operation_id"@, String::json(start_operation_id)))
                    .push(("native_owner_epoch"@, String::json(native_owner_epoch)))
                    .push(("native_receipt_id"@, String::json(native_receipt_id)))
            ),
            ReleaseEvidenceModel::NativeExitTombstone { instance_id, native_owner_epoch, native_receipt_id } => object(
                Seq::empty()
                    .push(("kind"@, "\"native_exit_tombstone\""@))
                    .push(("instance_id"@, String::json(instance_id)))
                    .push(("native_owner_epoch"@, String::json(native_owner_epoch)))
                    .push(("native_receipt_id"@, String::json(native_receipt_id)))
            ),
        }
    }

    fn to_json(&self) -> (res: String) {
        match self {
            ReleaseEvidence::GatewayDispatchFence { start_operation_id } => ObjectWriter::new()
                .with("kind", "\"gateway_dispatch_fence\"".to_string())
                .with("start_operation_id", start_operation_id.to_json())
                .finish(),
            ReleaseEvidence::NativeStartRefusal { start_operation_id, native_owner_epoch, native_receipt_id } => ObjectWriter::new()
                .with("kind", "\"native_start_refusal\"".to_string())
                .with("start_operation_id", start_operation_id.to_json())
                .with("native_owner_epoch", native_owner_epoch.to_json())
                .with("native_receipt_id", native_receipt_id.to_json())
                .finish(),
            ReleaseEvidence::NativeExitTombstone { instance_id, native_owner_epoch, native_receipt_id } => ObjectWriter::new()
                .with("kind", "\"native_exit_tombstone\"".to_string())
                .with("instance_id", instance_id.to_json())
                .with("native_owner_epoch", native_owner_epoch.to_json())
                .with("native_receipt_id", native_receipt_id.to_json())
                .finish(),
        }
    }
}

impl ToJson for TaskPolicy {
    open spec fn json(v: TaskPolicyModel) -> Text {
        object(
            Seq::empty()
                .push(("allowed_agents"@, Vec::<String>::json(v.allowed_agents)))
                .push(("max_workers"@, u32::json(v.max_workers)))
        )
    }

    fn to_json(&self) -> (res: String) {
        ObjectWriter::new()
            .with("allowed_agents", self.allowed_agents.to_json())
            .with("max_workers", self.max_workers.to_json())
            .finish()
    }
}

impl ToJson for CreateTask {
    open spec fn json(v: CreateTaskModel) -> Text {
        object(
            Seq::empty()
                .push(("repo_path"@, String::json(v.repo_path)))
                .push(("title"@, String::json(v.title)))
                .push(("brief"@, String::json(v.brief)))
                .push(("parent_task_id"@, Option::<String>::json(v.parent_task_id)))
                .push(("policy"@, TaskPolicy::json(v.policy)))
        )
    }

    fn to_json(&self) -> (res: String) {
        ObjectWriter::new()
            .with("repo_path", self.repo_path.to_json())
            .with("title", self.title.to_json())
            .with("brief", self.brief.to_json())
            .with("parent_task_id", self.parent_task_id.to_json())
            .with("policy", self.policy.to_json())
            .finish()
    }
}

impl ToJson for DelegationPolicy {
    open spec fn json(v: DelegationPolicyModel) -> Text {
        object(
            Seq::empty()
                .push(("enabled"@, bool::json(v.enabled)))
                .push(("max_children"@, u32::json(v.max_children)))
                .push(("max_depth"@, u32::json(v.max_depth)))
                .push(("dependency_requirement"@, DependencyRequirement::json(v.dependency_requirement)))
        )
    }

    fn to_json(&self) -> (res: String) {
        ObjectWriter::new()
            .with("enabled", self.enabled.to_json())
            .with("max_children", self.max_children.to_json())
            .with("max_depth", self.max_depth.to_json())
            .with("dependency_requirement", self.dependency_requirement.to_json())
            .finish()
    }
}

impl ToJson for DelegationState {
    open spec fn json(v: DelegationStateModel) -> Text {
        object(
            Seq::empty()
                .push(("policy"@, DelegationPolicy::json(v.policy)))
                .push(("coordinator_attempt_id"@, Option::<String>::json(v.coordinator_attempt_id)))
                .push(("coordinator_epoch"@, u64::json(v.coordinator_epoch)))
        )
    }

    fn to_json(&self) -> (res: String) {
        ObjectWriter::new()
            .with("policy", self.policy.to_json())
            .with("coordinator_attempt_id", self.coordinator_attempt_id.to_json())
            .with("coordinator_epoch", self.coordinator_epoch.to_json())
            .finish()
    }
}

impl ToJson for TaskDependency {
    open spec fn json(v: TaskDependencyModel) -> Text {
        object(
            Seq::empty()
                .push(("prerequisite_task_id"@, String::json(v.prerequisite_task_id)))
                .push(("submission_id"@, Option::<String>::json(v.submission_id)))
        )
    }

    fn to_json(&self) -> (res: String) {
        ObjectWriter::new()
            .with("prerequisite_task_id", self.prerequisite_task_id.to_json())
            .with("submission_id", self.submission_id.to_json())
            .finish()
    }
}

impl ToJson for FrozenInputRef {
    open spec fn json(v: FrozenInputRefModel) -> Text {
        object(
            Seq::empty()
                .push(("input_id"@, String::json(v.input_id)))
                .push(("caption"@, String::json(v.caption)))
                .push(("use"@, InputUse::json(v.use_)))
                .push(("name"@, String::json(v.name)))
                .push(("mime"@, String::json(v.mime)))
                .push(("size_bytes"@, u64::json(v.size_bytes)))
                .push(("sha256"@, String::json(v.sha256)))
        )
    }

    fn to_json(&self) -> (res: String) {
        ObjectWriter::new()
            .with("input_id", self.input_id.to_json())
            .with("caption", self.caption.to_json())
            .with("use", self.use_.to_json())
            .with("name", self.name.to_json())
            .with("mime", self.mime.to_json())
            .with("size_bytes", self.size_bytes.to_json())
            .with("sha256", self.sha256.to_json())
            .finish()
    }
}

impl ToJson for Task {
    open spec fn json(v: TaskModel) -> Text {
        object(
            Seq::empty()
                .push(("delegation"@, DelegationState::json(v.delegation)))
                .push(("dependencies"@, Vec::<TaskDependency>::json(v.dependencies)))
                .push(("input_refs"@, Vec::<FrozenInputRef>::json(v.input_refs)))
                .push(("id"@, String::json(v.id)))
                .push(("session_id"@, String::json(v.session_id)))
                .push(("repo_path"@, String::json(v.repo_path)))
                .push(("title"@, String::json(v.title)))
                .push(("brief"@, String::json(v.brief)))
                .push(("parent_task_id"@, Option::<String>::json(v.parent_task_id)))
                .push(("revision"@, u64::json(v.revision)))
                .push(("created_at_ms"@, i64::json(v.created_at_ms)))
                .push(("updated_at_ms"@, i64::json(v.updated_at_ms)))
                .push(("paused"@, bool::json(v.paused)))
                .push(("policy"@, TaskPolicy::json(v.policy)))
        )
    }

    fn to_json(&self) -> (res: String) {
        ObjectWriter::new()
            .with("delegation", self.delegation.to_json())
            .with("dependencies", self.dependencies.to_json())
            .with("input_refs", self.input_refs.to_json())
            .with("id", self.id.to_json())
            .with("session_id", self.session_id.to_json())
            .with("repo_path", self.repo_path.to_json())
            .with("title", self.title.to_json())
            .with("brief", self.brief.to_json())
            .with("parent_task_id", self.parent_task_id.to_json())
            .with("revision", self.revision.to_json())
            .with("created_at_ms", self.created_at_ms.to_json())
            .with("updated_at_ms", self.updated_at_ms.to_json())
            .with("paused", self.paused.to_json())
            .with("policy", self.policy.to_json())
            .finish()
    }
}

impl ToJson for NewAttempt {
    open spec fn json(v: NewAttemptModel) -> Text {
        object(
            Seq::empty()
                .push(("agent_kind"@, String::json(v.agent_kind)))
                .push(("role"@, AttemptRole::json(v.role)))
        )
    }

    fn to_json(&self) -> (res: String) {
        ObjectWriter::new()
            .with("agent_kind", self.agent_kind.to_json())
            .with("role", self.role.to_json())
            .finish()
    }
}

impl ToJson for PauseInput {
    open spec fn json(v: PauseInputModel) -> Text {
        object(
            Seq::empty()
                .push(("paused"@, bool::json(v.paused)))
        )
    }

    fn to_json(&self) -> (res: String) {
        ObjectWriter::new()
            .with("paused", self.paused.to_json())
            .finish()
    }
}

impl ToJson for NativeBinding {
    open spec fn json(v: NativeBindingModel) -> Text {
        object(
            Seq::empty()
                .push(("workspace_id"@, Option::<String>::json(v.workspace_id)))
                .push(("tab_id"@, Option::<String>::json(v.tab_id)))
                .push(("instance_id"@, Option::<String>::json(v.instance_id)))
                .push(("target"@, Option::<String>::json(v.target)))
                .push(("pane_id"@, Option::<String>::json(v.pane_id)))
                .push(("worktree_path"@, Option::<String>::json(v.worktree_path)))
        )
    }

    fn to_json(&self) -> (res: String) {
        ObjectWriter::new()
            .with("workspace_id", self.workspace_id.to_json())
            .with("tab_id", self.tab_id.to_json())
            .with("instance_id", self.instance_id.to_json())
            .with("target", self.target.to_json())
            .with("pane_id", self.pane_id.to_json())
            .with("worktree_path", self.worktree_path.to_json())
            .finish()
    }
}

impl ToJson for AttemptRelease {
    open spec fn json(v: AttemptReleaseModel) -> Text {
        object(
            Seq::empty()
                .push(("reason"@, ReleaseReason::json(v.reason)))
                .push(("evidence"@, ReleaseEvidence::json(v.evidence)))
                .push(("reconciliation_operation_id"@, String::json(v.reconciliation_operation_id)))
                .push(("released_at_ms"@, i64::json(v.released_at_ms)))
        )
    }

    fn to_json(&self) -> (res: String) {
        ObjectWriter::new()
            .with("reason", self.reason.to_json())
            .with("evidence", self.evidence.to_json())
            .with("reconciliation_operation_id", self.reconciliation_operation_id.to_json())
            .with("released_at_ms", self.released_at_ms.to_json())
            .finish()
    }
}

impl ToJson for AttemptLifecycle {
    open spec fn json(v: AttemptLifecycleModel) -> Text {
        object(
            Seq::empty()
                .push(("launch_phase"@, LaunchPhase::json(v.launch_phase)))
                .push(("reservation"@, Reservation::json(v.reservation)))
                .push(("native_owner_epoch"@, Option::<String>::json(v.native_owner_epoch)))
                .push(("release"@, Option::<AttemptRelease>::json(v.release)))
        )
    }

    fn to_json(&self) -> (res: String) {
        ObjectWriter::new()
            .with("launch_phase", self.launch_phase.to_json())
            .with("reservation", self.reservation.to_json())
            .with("native_owner_epoch", self.native_owner_epoch.to_json())
            .with("release", self.release.to_json())
            .finish()
    }
}

impl ToJson for Attempt {
    open spec fn json(v: AttemptModel) -> Text {
        object(
            Seq::empty()
                .push(("lifecycle"@, AttemptLifecycle::json(v.lifecycle)))
                .push(("id"@, String::json(v.id)))
                .push(("task_id"@, String::json(v.task_id)))
                .push(("agent_kind"@, String::json(v.agent_kind)))
                .push(("role"@, AttemptRole::json(v.role)))
                .push(("workspace_id"@, Option::<String>::json(v.binding.workspace_id)))
                .push(("tab_id"@, Option::<String>::json(v.binding.tab_id)))
                .push(("instance_id"@, Option::<String>::json(v.binding.instance_id)))
                .push(("target"@, Option::<String>::json(v.binding.target)))
                .push(("pane_id"@, Option::<String>::json(v.binding.pane_id)))
                .push(("worktree_path"@, Option::<String>::json(v.binding.worktree_path)))
                .push(("created_at_ms"@, i64::json(v.created_at_ms)))
        )
    }

    fn to_json(&self) -> (res: String) {
        ObjectWriter::new()
            .with("lifecycle", self.lifecycle.to_json())
            .with("id", self.id.to_json())
            .with("task_id", self.task_id.to_json())
            .with("agent_kind", self.agent_kind.to_json())
            .with("role", self.role.to_json())
            .with("workspace_id", self.binding.workspace_id.to_json())
            .with("tab_id", self.binding.tab_id.to_json())
            .with("instance_id", self.binding.instance_id.to_json())
            .with("target", self.binding.target.to_json())
            .with("pane_id", self.binding.pane_id.to_json())
            .with("worktree_path", self.binding.worktree_path.to_json())
            .with("created_at_ms", self.created_at_ms.to_json())
            .finish()
    }
}

impl ToJson for InterruptionReceipt {
    open spec fn json(v: InterruptionReceiptModel) -> Text {
        object(
            Seq::empty()
                .push(("operation_id"@, String::json(v.operation_id)))
                .push(("launch_id"@, String::json(v.launch_id)))
                .push(("owner_epoch"@, String::json(v.owner_epoch)))
                .push(("receipt_id"@, String::json(v.receipt_id)))
                .push(("key"@, String::json(v.key)))
                .push(("bytes_written"@, u64::json(v.bytes_written)))
                .push(("input_disposition"@, String::json(v.input_disposition)))
        )
    }

    fn to_json(&self) -> (res: String) {
        ObjectWriter::new()
            .with("operation_id", self.operation_id.to_json())
            .with("launch_id", self.launch_id.to_json())
            .with("owner_epoch", self.owner_epoch.to_json())
            .with("receipt_id", self.receipt_id.to_json())
            .with("key", self.key.to_json())
            .with("bytes_written", self.bytes_written.to_json())
            .with("input_disposition", self.input_disposition.to_json())
            .finish()
    }
}

impl ToJson for DelegationFence {
    open spec fn json(v: DelegationFenceModel) -> Text {
        object(
            Seq::empty()
                .push(("coordinator_task_id"@, String::json(v.coordinator_task_id)))
                .push(("coordinator_attempt_id"@, String::json(v.coordinator_attempt_id)))
                .push(("coordinator_epoch"@, u64::json(v.coordinator_epoch)))
                .push(("instance_id"@, String::json(v.instance_id)))
                .push(("native_owner_epoch"@, String::json(v.native_owner_epoch)))
        )
    }

    fn to_json(&self) -> (res: String) {
        ObjectWriter::new()
            .with("coordinator_task_id", self.coordinator_task_id.to_json())
            .with("coordinator_attempt_id", self.coordinator_attempt_id.to_json())
            .with("coordinator_epoch", self.coordinator_epoch.to_json())
            .with("instance_id", self.instance_id.to_json())
            .with("native_owner_epoch", self.native_owner_epoch.to_json())
            .finish()
    }
}

impl ToJson for DependencySnapshot {
    open spec fn json(v: DependencySnapshotModel) -> Text {
        object(
            Seq::empty()
                .push(("prerequisite_task_id"@, String::json(v.prerequisite_task_id)))
                .push(("submission_id"@, String::json(v.submission_id)))
                .push(("review_id"@, Option::<String>::json(v.review_id)))
        )
    }

    fn to_json(&self) -> (res: String) {
        ObjectWriter::new()
            .with("prerequisite_task_id", self.prerequisite_task_id.to_json())
            .with("submission_id", self.submission_id.to_json())
            .with("review_id", self.review_id.to_json())
            .finish()
    }
}

impl ToJson for Operation {
    open spec fn json(v: OperationModel) -> Text {
        object(
            Seq::empty()
                .push(("interruption_receipt"@, Option::<InterruptionReceipt>::json(v.interruption_receipt)))
                .push(("interruption_owner_epoch"@, Option::<String>::json(v.interruption_owner_epoch)))
                .push(("delegation_fence"@, Option::<DelegationFence>::json(v.delegation_fence)))
                .push(("dependency_snapshot"@, Vec::<DependencySnapshot>::json(v.dependency_snapshot)))
                .push(("input_refs"@, Vec::<FrozenInputRef>::json(v.input_refs)))
                .push(("bootstrap_version"@, Option::<String>::json(v.bootstrap_version)))
                .push(("id"@, String::json(v.id)))
                .push(("task_id"@, String::json(v.task_id)))
                .push(("attempt_id"@, Option::<String>::json(v.attempt_id)))
                .push(("kind"@, OperationKind::json(v.kind)))
                .push(("state"@, OperationState::json(v.state)))
                .push(("resources"@, NativeBinding::json(v.resources)))
                .push(("failure_code"@, Option::<FailureCode>::json(v.failure_code)))
                .push(("created_at_ms"@, i64::json(v.created_at_ms)))
                .push(("updated_at_ms"@, i64::json(v.updated_at_ms)))
        )
    }

    fn to_json(&self) -> (res: String) {
        ObjectWriter::new()
            .with("interruption_receipt", self.interruption_receipt.to_json())
            .with("interruption_owner_epoch", self.interruption_owner_epoch.to_json())
            .with("delegation_fence", self.delegation_fence.to_json())
            .with("dependency_snapshot", self.dependency_snapshot.to_json())
            .with("input_refs", self.input_refs.to_json())
            .with("bootstrap_version", self.bootstrap_version.to_json())
            .with("id", self.id.to_json())
            .with("task_id", self.task_id.to_json())
            .with("attempt_id", self.attempt_id.to_json())
            .with("kind", self.kind.to_json())
            .with("state", self.state.to_json())
            .with("resources", self.resources.to_json())
            .with("failure_code", self.failure_code.to_json())
            .with("created_at_ms", self.created_at_ms.to_json())
            .with("updated_at_ms", self.updated_at_ms.to_json())
            .finish()
    }
}

impl ToJson for ArtifactRef {
    open spec fn json(v: ArtifactRefModel) -> Text {
        object(
            Seq::empty()
                .push(("path"@, String::json(v.path)))
                .push(("sha256"@, String::json(v.sha256)))
                .push(("size_bytes"@, u64::json(v.size_bytes)))
        )
    }

    fn to_json(&self) -> (res: String) {
        ObjectWriter::new()
            .with("path", self.path.to_json())
            .with("sha256", self.sha256.to_json())
            .with("size_bytes", self.size_bytes.to_json())
            .finish()
    }
}

impl ToJson for ResultInput {
    open spec fn json(v: ResultInputModel) -> Text {
        object(
            Seq::empty()
                .push(("attempt_id"@, String::json(v.attempt_id)))
                .push(("summary"@, String::json(v.summary)))
                .push(("artifacts"@, Vec::<ArtifactRef>::json(v.artifacts)))
                .push(("evidence"@, Vec::<String>::json(v.evidence)))
        )
    }

    fn to_json(&self) -> (res: String) {
        ObjectWriter::new()
            .with("attempt_id", self.attempt_id.to_json())
            .with("summary", self.summary.to_json())
            .with("artifacts", self.artifacts.to_json())
            .with("evidence", self.evidence.to_json())
            .finish()
    }
}

impl ToJson for ResultSubmission {
    open spec fn json(v: ResultSubmissionModel) -> Text {
        object(
            Seq::empty()
                .push(("id"@, String::json(v.id)))
                .push(("task_id"@, String::json(v.task_id)))
                .push(("attempt_id"@, String::json(v.result.attempt_id)))
                .push(("summary"@, String::json(v.result.summary)))
                .push(("artifacts"@, Vec::<ArtifactRef>::json(v.result.artifacts)))
                .push(("evidence"@, Vec::<String>::json(v.result.evidence)))
                .push(("created_at_ms"@, i64::json(v.created_at_ms)))
        )
    }

    fn to_json(&self) -> (res: String) {
        ObjectWriter::new()
            .with("id", self.id.to_json())
            .with("task_id", self.task_id.to_json())
            .with("attempt_id", self.result.attempt_id.to_json())
            .with("summary", self.result.summary.to_json())
            .with("artifacts", self.result.artifacts.to_json())
            .with("evidence", self.result.evidence.to_json())
            .with("created_at_ms", self.created_at_ms.to_json())
            .finish()
    }
}

impl ToJson for ReviewInput {
    open spec fn json(v: ReviewInputModel) -> Text {
        object(
            Seq::empty()
                .push(("submission_id"@, String::json(v.submission_id)))
                .push(("decision"@, ReviewDecision::json(v.decision)))
                .push(("message"@, Option::<String>::json(v.message)))
        )
    }

    fn to_json(&self) -> (res: String) {
        ObjectWriter::new()
            .with("submission_id", self.submission_id.to_json())
            .with("decision", self.decision.to_json())
            .with("message", self.message.to_json())
            .finish()
    }
}

impl ToJson for Review {
    open spec fn json(v: ReviewModel) -> Text {
        object(
            Seq::empty()
                .push(("id"@, String::json(v.id)))
                .push(("task_id"@, String::json(v.task_id)))
                .push(("actor_id"@, String::json(v.actor_id)))
                .push(("submission_id"@, String::json(v.review.submission_id)))
                .push(("decision"@, ReviewDecision::json(v.review.decision)))
                .push(("message"@, Option::<String>::json(v.review.message)))
                .push(("created_at_ms"@, i64::json(v.created_at_ms)))
        )
    }

    fn to_json(&self) -> (res: String) {
        ObjectWriter::new()
            .with("id", self.id.to_json())
            .with("task_id", self.task_id.to_json())
            .with("actor_id", self.actor_id.to_json())
            .with("submission_id", self.review.submission_id.to_json())
            .with("decision", self.review.decision.to_json())
            .with("message", self.review.message.to_json())
            .with("created_at_ms", self.created_at_ms.to_json())
            .finish()
    }
}

impl ToJson for ReconcileInput {
    open spec fn json(v: ReconcileInputModel) -> Text {
        object(
            Seq::empty()
                .push(("request_key"@, String::json(v.request_key)))
                .push(("expected_revision"@, u64::json(v.expected_revision)))
                .push(("expected_instance_id"@, Option::<String>::json(v.expected_instance_id)))
                .push(("expected_native_owner_epoch"@, Option::<String>::json(v.expected_native_owner_epoch)))
        )
    }

    fn to_json(&self) -> (res: String) {
        ObjectWriter::new()
            .with("request_key", self.request_key.to_json())
            .with("expected_revision", self.expected_revision.to_json())
            .with("expected_instance_id", self.expected_instance_id.to_json())
            .with("expected_native_owner_epoch", self.expected_native_owner_epoch.to_json())
            .finish()
    }
}

impl ToJson for InputUpload {
    open spec fn json(v: InputUploadModel) -> Text {
        object(
            Seq::empty()
                .push(("repo_path"@, String::json(v.repo_path)))
                .push(("name"@, String::json(v.name)))
                .push(("mime"@, String::json(v.mime)))
                .push(("size_bytes"@, u64::json(v.size_bytes)))
                .push(("sha256"@, String::json(v.sha256)))
        )
    }

    fn to_json(&self) -> (res: String) {
        ObjectWriter::new()
            .with("repo_path", self.repo_path.to_json())
            .with("name", self.name.to_json())
            .with("mime", self.mime.to_json())
            .with("size_bytes", self.size_bytes.to_json())
            .with("sha256", self.sha256.to_json())
            .finish()
    }
}

impl ToJson for InputRef {
    open spec fn json(v: InputRefModel) -> Text {
        object(
            Seq::empty()
                .push(("input_id"@, String::json(v.input_id)))
                .push(("caption"@, String::json(v.caption)))
                .push(("use"@, InputUse::json(v.use_)))
        )
    }

    fn to_json(&self) -> (res: String) {
        ObjectWriter::new()
            .with("input_id", self.input_id.to_json())
            .with("caption", self.caption.to_json())
            .with("use", self.use_.to_json())
            .finish()
    }
}

impl ToJson for DelegationConfig {
    open spec fn json(v: DelegationConfigModel) -> Text {
        object(
            Seq::empty()
                .push(("policy"@, DelegationPolicy::json(v.policy)))
                .push(("coordinator_attempt_id"@, Option::<String>::json(v.coordinator_attempt_id)))
        )
    }

    fn to_json(&self) -> (res: String) {
        ObjectWriter::new()
            .with("policy", self.policy.to_json())
            .with("coordinator_attempt_id", self.coordinator_attempt_id.to_json())
            .finish()
    }
}

impl ToJson for InterruptInput {
    open spec fn json(v: InterruptInputModel) -> Text {
        object(
            Seq::empty()
                .push(("request_key"@, String::json(v.request_key)))
                .push(("expected_revision"@, u64::json(v.expected_revision)))
                .push(("expected_instance_id"@, String::json(v.expected_instance_id)))
                .push(("expected_native_owner_epoch"@, String::json(v.expected_native_owner_epoch)))
        )
    }

    fn to_json(&self) -> (res: String) {
        ObjectWriter::new()
            .with("request_key", self.request_key.to_json())
            .with("expected_revision", self.expected_revision.to_json())
            .with("expected_instance_id", self.expected_instance_id.to_json())
            .with("expected_native_owner_epoch", self.expected_native_owner_epoch.to_json())
            .finish()
    }
}

impl ToJson for TaskActivity {
    open spec fn json(v: TaskActivityModel) -> Text {
        object(
            Seq::empty()
                .push(("cursor"@, u64::json(v.cursor)))
                .push(("kind"@, String::json(v.kind)))
                .push(("entity_id"@, String::json(v.entity_id)))
        )
    }

    fn to_json(&self) -> (res: String) {
        ObjectWriter::new()
            .with("cursor", self.cursor.to_json())
            .with("kind", self.kind.to_json())
            .with("entity_id", self.entity_id.to_json())
            .finish()
    }
}

impl ToJson for SummaryReview {
    open spec fn json(v: SummaryReviewModel) -> Text {
        object(
            Seq::empty()
                .push(("review_id"@, String::json(v.review_id)))
                .push(("decision"@, ReviewDecision::json(v.decision)))
        )
    }

    fn to_json(&self) -> (res: String) {
        ObjectWriter::new()
            .with("review_id", self.review_id.to_json())
            .with("decision", self.decision.to_json())
            .finish()
    }
}

impl ToJson for SummaryResult {
    open spec fn json(v: SummaryResultModel) -> Text {
        object(
            Seq::empty()
                .push(("submission_id"@, String::json(v.submission_id)))
                .push(("review"@, Option::<SummaryReview>::json(v.review)))
        )
    }

    fn to_json(&self) -> (res: String) {
        ObjectWriter::new()
            .with("submission_id", self.submission_id.to_json())
            .with("review", self.review.to_json())
            .finish()
    }
}

impl ToJson for TaskSummary {
    open spec fn json(v: TaskSummaryModel) -> Text {
        object(
            Seq::empty()
                .push(("task_id"@, String::json(v.task_id)))
                .push(("session_id"@, String::json(v.session_id)))
                .push(("parent_task_id"@, Option::<String>::json(v.parent_task_id)))
                .push(("task_revision"@, u64::json(v.task_revision)))
                .push(("title"@, String::json(v.title)))
                .push(("repo_path"@, String::json(v.repo_path)))
                .push(("paused"@, bool::json(v.paused)))
                .push(("last_activity"@, Option::<TaskActivity>::json(v.last_activity)))
                .push(("reserved_attempts"@, u64::json(v.reserved_attempts)))
                .push(("unresolved_native_operations"@, u64::json(v.unresolved_native_operations)))
                .push(("unreviewed_results"@, u64::json(v.unreviewed_results)))
                .push(("latest_result"@, Option::<SummaryResult>::json(v.latest_result)))
        )
    }

    fn to_json(&self) -> (res: String) {
        ObjectWriter::new()
            .with("task_id", self.task_id.to_json())
            .with("session_id", self.session_id.to_json())
            .with("parent_task_id", self.parent_task_id.to_json())
            .with("task_revision", self.task_revision.to_json())
            .with("title", self.title.to_json())
            .with("repo_path", self.repo_path.to_json())
            .with("paused", self.paused.to_json())
            .with("last_activity", self.last_activity.to_json())
            .with("reserved_attempts", self.reserved_attempts.to_json())
            .with("unresolved_native_operations", self.unresolved_native_operations.to_json())
            .with("unreviewed_results", self.unreviewed_results.to_json())
            .with("latest_result", self.latest_result.to_json())
            .finish()
    }
}

impl ToJson for TaskSummaryPage {
    open spec fn json(v: TaskSummaryPageModel) -> Text {
        object(
            Seq::empty()
                .push(("items"@, Vec::<TaskSummary>::json(v.items)))
                .push(("snapshot_cursor"@, u64::json(v.snapshot_cursor)))
                .push(("next_after_id"@, Option::<String>::json(v.next_after_id)))
        )
    }

    fn to_json(&self) -> (res: String) {
        ObjectWriter::new()
            .with("items", self.items.to_json())
            .with("snapshot_cursor", self.snapshot_cursor.to_json())
            .with("next_after_id", self.next_after_id.to_json())
            .finish()
    }
}

} // verus!
