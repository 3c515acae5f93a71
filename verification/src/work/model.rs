//! The values that the work store keeps and hands out, each with the mathematical
//! value that contracts speak of.
use vstd::prelude::*;
use crate::value::Replica;
use crate::value::Same;
use crate::value::Text;

verus! {

/// Why a request was not carried out.
#[derive(Debug, Clone, Copy, PartialEq, Eq, Structural)]
pub enum FailureCode {
    InvalidInput,
    NotFound,
    ScopeMismatch,
    RevisionConflict,
    RequestKeyConflict,
    CapabilityUnavailable,
    InstanceChanged,
    NotReady,
    ApprovalRequired,
    DeliveryUnconfirmed,
    ArtifactChanged,
    ArtifactMissing,
    InputExpired,
    ResourceLimit,
    StorageUnavailable,
}

impl DeepView for FailureCode {
    type V = FailureCode;

    open spec fn deep_view(&self) -> FailureCode {
        *self
    }
}

impl Replica for FailureCode {
    fn replica(&self) -> (res: Self) {
        *self
    }
}

/// What an attempt is for: leading its task or working under a lead.
#[derive(Debug, Clone, Copy, PartialEq, Eq, Structural)]
pub enum AttemptRole {
    Lead,
    Worker,
}

impl DeepView for AttemptRole {
    type V = AttemptRole;

    open spec fn deep_view(&self) -> AttemptRole {
        *self
    }
}

impl Replica for AttemptRole {
    fn replica(&self) -> (res: Self) {
        *self
    }
}

/// The requests that leave a durable receipt.
#[derive(Debug, Clone, Copy, PartialEq, Eq, Structural)]
pub enum OperationKind {
    CreateTask,
    StartAttempt,
    DeliverPrompt,
    InterruptAttempt,
    SubmitResult,
    ReviewResult,
    PauseTask,
    ReconcileAttempt,
    ConfigureDelegation,
    SetDependencies,
}

impl DeepView for OperationKind {
    type V = OperationKind;

    open spec fn deep_view(&self) -> OperationKind {
        *self
    }
}

impl Replica for OperationKind {
    fn replica(&self) -> (res: Self) {
        *self
    }
}

/// How far an operation has come.
#[derive(Debug, Clone, Copy, PartialEq, Eq, Structural)]
pub enum OperationState {
    Prepared,
    Submitting,
    Acknowledged,
    Refused,
    Unconfirmed,
}

impl DeepView for OperationState {
    type V = OperationState;

    open spec fn deep_view(&self) -> OperationState {
        *self
    }
}

impl Replica for OperationState {
    fn replica(&self) -> (res: Self) {
        *self
    }
}

/// A human's verdict on one submission.
#[derive(Debug, Clone, Copy, PartialEq, Eq, Structural)]
pub enum ReviewDecision {
    Accepted,
    ChangesRequested,
}

impl DeepView for ReviewDecision {
    type V = ReviewDecision;

    open spec fn deep_view(&self) -> ReviewDecision {
        *self
    }
}

impl Replica for ReviewDecision {
    fn replica(&self) -> (res: Self) {
        *self
    }
}

/// How far the native launch of an attempt has come.
#[derive(Debug, Clone, Copy, PartialEq, Eq, Structural)]
pub enum LaunchPhase {
    NotDispatched,
    DispatchClaimed,
    LaunchConfirmed,
    LegacyUnknown,
}

impl DeepView for LaunchPhase {
    type V = LaunchPhase;

    open spec fn deep_view(&self) -> LaunchPhase {
        *self
    }
}

impl Replica for LaunchPhase {
    fn replica(&self) -> (res: Self) {
        *self
    }
}

impl Default for LaunchPhase {
    fn default() -> (res: Self)
        ensures
            res == LaunchPhase::LegacyUnknown,
    {
        LaunchPhase::LegacyUnknown
    }
}

/// Whether an attempt still counts against its task's allowance.
#[derive(Debug, Clone, Copy, PartialEq, Eq, Structural)]
pub enum Reservation {
    Reserved,
    Released,
}

impl DeepView for Reservation {
    type V = Reservation;

    open spec fn deep_view(&self) -> Reservation {
        *self
    }
}

impl Replica for Reservation {
    fn replica(&self) -> (res: Self) {
        *self
    }
}

impl Default for Reservation {
    fn default() -> (res: Self)
        ensures
            res == Reservation::Reserved,
    {
        Reservation::Reserved
    }
}

/// Why a reservation was given back.
#[derive(Debug, Clone, Copy, PartialEq, Eq, Structural)]
pub enum ReleaseReason {
    StartupNotDispatched,
    StartupRefusedWithoutProcess,
    OwnedProcessExited,
}

impl DeepView for ReleaseReason {
    type V = ReleaseReason;

    open spec fn deep_view(&self) -> ReleaseReason {
        *self
    }
}

impl Replica for ReleaseReason {
    fn replica(&self) -> (res: Self) {
        *self
    }
}

/// What a reconciliation saw.
#[derive(Debug, Clone, Copy, PartialEq, Eq, Structural)]
pub enum LifecycleObservation {
    NotStarted,
    Live,
    Exited,
    Unknown,
    AlreadyReleased,
}

impl DeepView for LifecycleObservation {
    type V = LifecycleObservation;

    open spec fn deep_view(&self) -> LifecycleObservation {
        *self
    }
}

impl Replica for LifecycleObservation {
    fn replica(&self) -> (res: Self) {
        *self
    }
}

/// What the recipient may do with an input.
#[derive(Debug, Clone, Copy, PartialEq, Eq, Structural)]
pub enum InputUse {
    ReferenceOnly,
    MayInclude,
}

impl DeepView for InputUse {
    type V = InputUse;

    open spec fn deep_view(&self) -> InputUse {
        *self
    }
}

impl Replica for InputUse {
    fn replica(&self) -> (res: Self) {
        *self
    }
}

impl Default for InputUse {
    fn default() -> (res: Self)
        ensures
            res == InputUse::ReferenceOnly,
    {
        InputUse::ReferenceOnly
    }
}

/// What a prerequisite owes before its dependents may start.
#[derive(Debug, Clone, Copy, PartialEq, Eq, Structural)]
pub enum DependencyRequirement {
    ResultAvailable,
    HumanAccepted,
}

impl DeepView for DependencyRequirement {
    type V = DependencyRequirement;

    open spec fn deep_view(&self) -> DependencyRequirement {
        *self
    }
}

impl Replica for DependencyRequirement {
    fn replica(&self) -> (res: Self) {
        *self
    }
}

impl Default for DependencyRequirement {
    fn default() -> (res: Self)
        ensures
            res == DependencyRequirement::ResultAvailable,
    {
        DependencyRequirement::ResultAvailable
    }
}

/// Whether a task's prerequisites are met.
#[derive(Debug, Clone, Copy, PartialEq, Eq, Structural)]
pub enum DependencyReadiness {
    Ready,
    WaitingForResult,
    WaitingForAcceptance,
}

impl DeepView for DependencyReadiness {
    type V = DependencyReadiness;

    open spec fn deep_view(&self) -> DependencyReadiness {
        *self
    }
}

impl Replica for DependencyReadiness {
    fn replica(&self) -> (res: Self) {
        *self
    }
}

/// The one error of the library: the code that callers and transports act on.
#[derive(Debug, Clone, Copy, PartialEq, Eq, Structural)]
pub struct WorkError(pub FailureCode);

impl WorkError {
    /// The name of the code, as it is shown to an operator.
    pub fn describe(&self) -> (res: &'static str)
        ensures
            res@ == failure_name(self.0),
    {
        match self.0 {
            FailureCode::InvalidInput => "InvalidInput",
            FailureCode::NotFound => "NotFound",
            FailureCode::ScopeMismatch => "ScopeMismatch",
            FailureCode::RevisionConflict => "RevisionConflict",
            FailureCode::RequestKeyConflict => "RequestKeyConflict",
            FailureCode::CapabilityUnavailable => "CapabilityUnavailable",
            FailureCode::InstanceChanged => "InstanceChanged",
            FailureCode::NotReady => "NotReady",
            FailureCode::ApprovalRequired => "ApprovalRequired",
            FailureCode::DeliveryUnconfirmed => "DeliveryUnconfirmed",
            FailureCode::ArtifactChanged => "ArtifactChanged",
            FailureCode::ArtifactMissing => "ArtifactMissing",
            FailureCode::InputExpired => "InputExpired",
            FailureCode::ResourceLimit => "ResourceLimit",
            FailureCode::StorageUnavailable => "StorageUnavailable",
        }
    }
}

/// The name of a failure code.
pub open spec fn failure_name(code: FailureCode) -> Text {
    match code {
        FailureCode::InvalidInput => "InvalidInput"@,
        FailureCode::NotFound => "NotFound"@,
        FailureCode::ScopeMismatch => "ScopeMismatch"@,
        FailureCode::RevisionConflict => "RevisionConflict"@,
        FailureCode::RequestKeyConflict => "RequestKeyConflict"@,
        FailureCode::CapabilityUnavailable => "CapabilityUnavailable"@,
        FailureCode::InstanceChanged => "InstanceChanged"@,
        FailureCode::NotReady => "NotReady"@,
        FailureCode::ApprovalRequired => "ApprovalRequired"@,
        FailureCode::DeliveryUnconfirmed => "DeliveryUnconfirmed"@,
        FailureCode::ArtifactChanged => "ArtifactChanged"@,
        FailureCode::ArtifactMissing => "ArtifactMissing"@,
        FailureCode::InputExpired => "InputExpired"@,
        FailureCode::ResourceLimit => "ResourceLimit"@,
        FailureCode::StorageUnavailable => "StorageUnavailable"@,
    }
}

/// What the operations of the library return.
pub type WorkResult<T> = Result<T, WorkError>;

/// Which agents may work on a task, and how many at once.
#[derive(Debug, PartialEq, Eq)]
pub struct TaskPolicy {
    pub allowed_agents: Vec<String>,
    pub max_workers: u32,
}

/// The value of a `TaskPolicy`.
#[verifier::ext_equal]
pub struct TaskPolicyModel {
    pub allowed_agents: Seq<Text>,
    pub max_workers: u32,
}

impl DeepView for TaskPolicy {
    type V = TaskPolicyModel;

    open spec fn deep_view(&self) -> TaskPolicyModel {
        TaskPolicyModel {
            allowed_agents: self.allowed_agents.deep_view(),
            max_workers: self.max_workers,
        }
    }
}

impl Replica for TaskPolicy {
    fn replica(&self) -> (res: Self) {
        TaskPolicy {
            allowed_agents: self.allowed_agents.replica(),
            max_workers: self.max_workers,
        }
    }
}

impl Clone for TaskPolicy {
    fn clone(&self) -> (res: Self)
        ensures
            res.deep_view() == self.deep_view(),
    {
        self.replica()
    }
}

/// What a caller asks for when it creates a task.
#[derive(Debug, PartialEq, Eq)]
pub struct CreateTask {
    pub repo_path: String,
    pub title: String,
    pub brief: String,
    pub parent_task_id: Option<String>,
    pub policy: TaskPolicy,
}

/// The value of a `CreateTask`.
#[verifier::ext_equal]
pub struct CreateTaskModel {
    pub repo_path: Text,
    pub title: Text,
    pub brief: Text,
    pub parent_task_id: Option<Text>,
    pub policy: TaskPolicyModel,
}

impl DeepView for CreateTask {
    type V = CreateTaskModel;

    open spec fn deep_view(&self) -> CreateTaskModel {
        CreateTaskModel {
            repo_path: self.repo_path.deep_view(),
            title: self.title.deep_view(),
            brief: self.brief.deep_view(),
            parent_task_id: self.parent_task_id.deep_view(),
            policy: self.policy.deep_view(),
        }
    }
}

impl Replica for CreateTask {
    fn replica(&self) -> (res: Self) {
        CreateTask {
            repo_path: self.repo_path.replica(),
            title: self.title.replica(),
            brief: self.brief.replica(),
            parent_task_id: self.parent_task_id.replica(),
            policy: self.policy.replica(),
        }
    }
}

impl Clone for CreateTask {
    fn clone(&self) -> (res: Self)
        ensures
            res.deep_view() == self.deep_view(),
    {
        self.replica()
    }
}

/// The limits under which a coordinator may create children.
#[derive(Debug, PartialEq, Eq)]
pub struct DelegationPolicy {
    pub enabled: bool,
    pub max_children: u32,
    pub max_depth: u32,
    pub dependency_requirement: DependencyRequirement,
}

/// The value of a `DelegationPolicy`.
#[verifier::ext_equal]
pub struct DelegationPolicyModel {
    pub enabled: bool,
    pub max_children: u32,
    pub max_depth: u32,
    pub dependency_requirement: DependencyRequirement,
}

impl DeepView for DelegationPolicy {
    type V = DelegationPolicyModel;

    open spec fn deep_view(&self) -> DelegationPolicyModel {
        DelegationPolicyModel {
            enabled: self.enabled,
            max_children: self.max_children,
            max_depth: self.max_depth,
            dependency_requirement: self.dependency_requirement,
        }
    }
}

impl Replica for DelegationPolicy {
    fn replica(&self) -> (res: Self) {
        DelegationPolicy {
            enabled: self.enabled,
            max_children: self.max_children,
            max_depth: self.max_depth,
            dependency_requirement: self.dependency_requirement,
        }
    }
}

impl Clone for DelegationPolicy {
    fn clone(&self) -> (res: Self)
        ensures
            res.deep_view() == self.deep_view(),
    {
        self.replica()
    }
}

/// The delegation settings of a task and who holds them.
#[derive(Debug, PartialEq, Eq)]
pub struct DelegationState {
    pub policy: DelegationPolicy,
    pub coordinator_attempt_id: Option<String>,
    pub coordinator_epoch: u64,
}

/// The value of a `DelegationState`.
#[verifier::ext_equal]
pub struct DelegationStateModel {
    pub policy: DelegationPolicyModel,
    pub coordinator_attempt_id: Option<Text>,
    pub coordinator_epoch: u64,
}

impl DeepView for DelegationState {
    type V = DelegationStateModel;

    open spec fn deep_view(&self) -> DelegationStateModel {
        DelegationStateModel {
            policy: self.policy.deep_view(),
            coordinator_attempt_id: self.coordinator_attempt_id.deep_view(),
            coordinator_epoch: self.coordinator_epoch,
        }
    }
}

impl Replica for DelegationState {
    fn replica(&self) -> (res: Self) {
        DelegationState {
            policy: self.policy.replica(),
            coordinator_attempt_id: self.coordinator_attempt_id.replica(),
            coordinator_epoch: self.coordinator_epoch,
        }
    }
}

impl Clone for DelegationState {
    fn clone(&self) -> (res: Self)
        ensures
            res.deep_view() == self.deep_view(),
    {
        self.replica()
    }
}

/// An edge to a sibling task whose result is needed first.
#[derive(Debug, PartialEq, Eq)]
pub struct TaskDependency {
    pub prerequisite_task_id: String,
    pub submission_id: Option<String>,
}

/// The value of a `TaskDependency`.
#[verifier::ext_equal]
pub struct TaskDependencyModel {
    pub prerequisite_task_id: Text,
    pub submission_id: Option<Text>,
}

impl DeepView for TaskDependency {
    type V = TaskDependencyModel;

    open spec fn deep_view(&self) -> TaskDependencyModel {
        TaskDependencyModel {
            prerequisite_task_id: self.prerequisite_task_id.deep_view(),
            submission_id: self.submission_id.deep_view(),
        }
    }
}

impl Replica for TaskDependency {
    fn replica(&self) -> (res: Self) {
        TaskDependency {
            prerequisite_task_id: self.prerequisite_task_id.replica(),
            submission_id: self.submission_id.replica(),
        }
    }
}

impl Clone for TaskDependency {
    fn clone(&self) -> (res: Self)
        ensures
            res.deep_view() == self.deep_view(),
    {
        self.replica()
    }
}

/// An input as it was when a request was admitted.
#[derive(Debug, PartialEq, Eq)]
pub struct FrozenInputRef {
    pub input_id: String,
    pub caption: String,
    pub use_: InputUse,
    pub name: String,
    pub mime: String,
    pub size_bytes: u64,
    pub sha256: String,
}

/// The value of a `FrozenInputRef`.
#[verifier::ext_equal]
pub struct FrozenInputRefModel {
    pub input_id: Text,
    pub caption: Text,
    pub use_: InputUse,
    pub name: Text,
    pub mime: Text,
    pub size_bytes: u64,
    pub sha256: Text,
}

impl DeepView for FrozenInputRef {
    type V = FrozenInputRefModel;

    open spec fn deep_view(&self) -> FrozenInputRefModel {
        FrozenInputRefModel {
            input_id: self.input_id.deep_view(),
            caption: self.caption.deep_view(),
            use_: self.use_,
            name: self.name.deep_view(),
            mime: self.mime.deep_view(),
            size_bytes: self.size_bytes,
            sha256: self.sha256.deep_view(),
        }
    }
}

impl Replica for FrozenInputRef {
    fn replica(&self) -> (res: Self) {
        FrozenInputRef {
            input_id: self.input_id.replica(),
            caption: self.caption.replica(),
            use_: self.use_,
            name: self.name.replica(),
            mime: self.mime.replica(),
            size_bytes: self.size_bytes,
            sha256: self.sha256.replica(),
        }
    }
}

impl Clone for FrozenInputRef {
    fn clone(&self) -> (res: Self)
        ensures
            res.deep_view() == self.deep_view(),
    {
        self.replica()
    }
}

impl Same for FrozenInputRef {
    fn same(&self, other: &Self) -> (res: bool) {
        self.input_id.same(&other.input_id)
            && self.caption.same(&other.caption)
            && self.use_ == other.use_
            && self.name.same(&other.name)
            && self.mime.same(&other.mime)
            && self.size_bytes == other.size_bytes
            && self.sha256.same(&other.sha256)
    }
}

/// A unit of work on one repository.
#[derive(Debug, PartialEq, Eq)]
pub struct Task {
    pub delegation: DelegationState,
    pub dependencies: Vec<TaskDependency>,
    pub input_refs: Vec<FrozenInputRef>,
    pub id: String,
    pub session_id: String,
    pub repo_path: String,
    pub title: String,
    pub brief: String,
    pub parent_task_id: Option<String>,
    pub revision: u64,
    pub created_at_ms: i64,
    pub updated_at_ms: i64,
    pub paused: bool,
    pub policy: TaskPolicy,
}

/// The value of a `Task`.
#[verifier::ext_equal]
pub struct TaskModel {
    pub delegation: DelegationStateModel,
    pub dependencies: Seq<TaskDependencyModel>,
    pub input_refs: Seq<FrozenInputRefModel>,
    pub id: Text,
    pub session_id: Text,
    pub repo_path: Text,
    pub title: Text,
    pub brief: Text,
    pub parent_task_id: Option<Text>,
    pub revision: u64,
    pub created_at_ms: i64,
    pub updated_at_ms: i64,
    pub paused: bool,
    pub policy: TaskPolicyModel,
}

impl DeepView for Task {
    type V = TaskModel;

    open spec fn deep_view(&self) -> TaskModel {
        TaskModel {
            delegation: self.delegation.deep_view(),
            dependencies: self.dependencies.deep_view(),
            input_refs: self.input_refs.deep_view(),
            id: self.id.deep_view(),
            session_id: self.session_id.deep_view(),
            repo_path: self.repo_path.deep_view(),
            title: self.title.deep_view(),
            brief: self.brief.deep_view(),
            parent_task_id: self.parent_task_id.deep_view(),
            revision: self.revision,
            created_at_ms: self.created_at_ms,
            updated_at_ms: self.updated_at_ms,
            paused: self.paused,
            policy: self.policy.deep_view(),
        }
    }
}

impl Replica for Task {
    fn replica(&self) -> (res: Self) {
        Task {
            delegation: self.delegation.replica(),
            dependencies: self.dependencies.replica(),
            input_refs: self.input_refs.replica(),
            id: self.id.replica(),
            session_id: self.session_id.replica(),
            repo_path: self.repo_path.replica(),
            title: self.title.replica(),
            brief: self.brief.replica(),
            parent_task_id: self.parent_task_id.replica(),
            revision: self.revision,
            created_at_ms: self.created_at_ms,
            updated_at_ms: self.updated_at_ms,
            paused: self.paused,
            policy: self.policy.replica(),
        }
    }
}

impl Clone for Task {
    fn clone(&self) -> (res: Self)
        ensures
            res.deep_view() == self.deep_view(),
    {
        self.replica()
    }
}

/// What a caller asks for when it starts an attempt.
#[derive(Debug, PartialEq, Eq)]
pub struct NewAttempt {
    pub agent_kind: String,
    pub role: AttemptRole,
}

/// The value of a `NewAttempt`.
#[verifier::ext_equal]
pub struct NewAttemptModel {
    pub agent_kind: Text,
    pub role: AttemptRole,
}

impl DeepView for NewAttempt {
    type V = NewAttemptModel;

    open spec fn deep_view(&self) -> NewAttemptModel {
        NewAttemptModel {
            agent_kind: self.agent_kind.deep_view(),
            role: self.role,
        }
    }
}

impl Replica for NewAttempt {
    fn replica(&self) -> (res: Self) {
        NewAttempt {
            agent_kind: self.agent_kind.replica(),
            role: self.role,
        }
    }
}

impl Clone for NewAttempt {
    fn clone(&self) -> (res: Self)
        ensures
            res.deep_view() == self.deep_view(),
    {
        self.replica()
    }
}

/// Whether launches under a task are to be fenced.
#[derive(Debug, PartialEq, Eq)]
pub struct PauseInput {
    pub paused: bool,
}

/// The value of a `PauseInput`.
#[verifier::ext_equal]
pub struct PauseInputModel {
    pub paused: bool,
}

impl DeepView for PauseInput {
    type V = PauseInputModel;

    open spec fn deep_view(&self) -> PauseInputModel {
        PauseInputModel {
            paused: self.paused,
        }
    }
}

impl Replica for PauseInput {
    fn replica(&self) -> (res: Self) {
        PauseInput {
            paused: self.paused,
        }
    }
}

impl Clone for PauseInput {
    fn clone(&self) -> (res: Self)
        ensures
            res.deep_view() == self.deep_view(),
    {
        self.replica()
    }
}

/// The native resources that an attempt or operation is bound to.
#[derive(Debug, PartialEq, Eq)]
pub struct NativeBinding {
    pub workspace_id: Option<String>,
    pub tab_id: Option<String>,
    pub instance_id: Option<String>,
    pub target: Option<String>,
    pub pane_id: Option<String>,
    pub worktree_path: Option<String>,
}

/// The value of a `NativeBinding`.
#[verifier::ext_equal]
pub struct NativeBindingModel {
    pub workspace_id: Option<Text>,
    pub tab_id: Option<Text>,
    pub instance_id: Option<Text>,
    pub target: Option<Text>,
    pub pane_id: Option<Text>,
    pub worktree_path: Option<Text>,
}

impl DeepView for NativeBinding {
    type V = NativeBindingModel;

    open spec fn deep_view(&self) -> NativeBindingModel {
        NativeBindingModel {
            workspace_id: self.workspace_id.deep_view(),
            tab_id: self.tab_id.deep_view(),
            instance_id: self.instance_id.deep_view(),
            target: self.target.deep_view(),
            pane_id: self.pane_id.deep_view(),
            worktree_path: self.worktree_path.deep_view(),
        }
    }
}

impl Replica for NativeBinding {
    fn replica(&self) -> (res: Self) {
        NativeBinding {
            workspace_id: self.workspace_id.replica(),
            tab_id: self.tab_id.replica(),
            instance_id: self.instance_id.replica(),
            target: self.target.replica(),
            pane_id: self.pane_id.replica(),
            worktree_path: self.worktree_path.replica(),
        }
    }
}

impl Clone for NativeBinding {
    fn clone(&self) -> (res: Self)
        ensures
            res.deep_view() == self.deep_view(),
    {
        self.replica()
    }
}

/// The evidence under which a reservation was given back.
#[derive(Debug, PartialEq, Eq)]
pub enum ReleaseEvidence {
    GatewayDispatchFence { start_operation_id: String },
    NativeStartRefusal { start_operation_id: String, native_owner_epoch: String, native_receipt_id: String },
    NativeExitTombstone { instance_id: String, native_owner_epoch: String, native_receipt_id: String },
}

/// The value of a `ReleaseEvidence`.
#[verifier::ext_equal]
pub enum ReleaseEvidenceModel {
    GatewayDispatchFence { start_operation_id: Text },
    NativeStartRefusal { start_operation_id: Text, native_owner_epoch: Text, native_receipt_id: Text },
    NativeExitTombstone { instance_id: Text, native_owner_epoch: Text, native_receipt_id: Text },
}

impl DeepView for ReleaseEvidence {
    type V = ReleaseEvidenceModel;

    open spec fn deep_view(&self) -> ReleaseEvidenceModel {
        match self {
            ReleaseEvidence::GatewayDispatchFence { start_operation_id } => ReleaseEvidenceModel::GatewayDispatchFence {
                start_operation_id: start_operation_id.deep_view(),
            },
            ReleaseEvidence::NativeStartRefusal { start_operation_id, native_owner_epoch, native_receipt_id } => ReleaseEvidenceModel::NativeStartRefusal {
                start_operation_id: start_operation_id.deep_view(),
                native_owner_epoch: native_owner_epoch.deep_view(),
                native_receipt_id: native_receipt_id.deep_view(),
            },
            ReleaseEvidence::NativeExitTombstone { instance_id, native_owner_epoch, native_receipt_id } => ReleaseEvidenceModel::NativeExitTombstone {
                instance_id: instance_id.deep_view(),
                native_owner_epoch: native_owner_epoch.deep_view(),
                native_receipt_id: native_receipt_id.deep_view(),
            },
        }
    }
}

impl Replica for ReleaseEvidence {
    fn replica(&self) -> (res: Self) {
        match self {
            ReleaseEvidence::GatewayDispatchFence { start_operation_id } => ReleaseEvidence::GatewayDispatchFence {
                start_operation_id: start_operation_id.replica(),
            },
            ReleaseEvidence::NativeStartRefusal { start_operation_id, native_owner_epoch, native_receipt_id } => ReleaseEvidence::NativeStartRefusal {
                start_operation_id: start_operation_id.replica(),
                native_owner_epoch: native_owner_epoch.replica(),
                native_receipt_id: native_receipt_id.replica(),
            },
            ReleaseEvidence::NativeExitTombstone { instance_id, native_owner_epoch, native_receipt_id } => ReleaseEvidence::NativeExitTombstone {
                instance_id: instance_id.replica(),
                native_owner_epoch: native_owner_epoch.replica(),
                native_receipt_id: native_receipt_id.replica(),
            },
        }
    }
}

impl Clone for ReleaseEvidence {
    fn clone(&self) -> (res: Self)
        ensures
            res.deep_view() == self.deep_view(),
    {
        self.replica()
    }
}

/// The proof under which a reservation was given back.
#[derive(Debug, PartialEq, Eq)]
pub struct AttemptRelease {
    pub reason: ReleaseReason,
    pub evidence: ReleaseEvidence,
    pub reconciliation_operation_id: String,
    pub released_at_ms: i64,
}

/// The value of a `AttemptRelease`.
#[verifier::ext_equal]
pub struct AttemptReleaseModel {
    pub reason: ReleaseReason,
    pub evidence: ReleaseEvidenceModel,
    pub reconciliation_operation_id: Text,
    pub released_at_ms: i64,
}

impl DeepView for AttemptRelease {
    type V = AttemptReleaseModel;

    open spec fn deep_view(&self) -> AttemptReleaseModel {
        AttemptReleaseModel {
            reason: self.reason,
            evidence: self.evidence.deep_view(),
            reconciliation_operation_id: self.reconciliation_operation_id.deep_view(),
            released_at_ms: self.released_at_ms,
        }
    }
}

impl Replica for AttemptRelease {
    fn replica(&self) -> (res: Self) {
        AttemptRelease {
            reason: self.reason,
            evidence: self.evidence.replica(),
            reconciliation_operation_id: self.reconciliation_operation_id.replica(),
            released_at_ms: self.released_at_ms,
        }
    }
}

impl Clone for AttemptRelease {
    fn clone(&self) -> (res: Self)
        ensures
            res.deep_view() == self.deep_view(),
    {
        self.replica()
    }
}

/// The launch and reservation state of an attempt.
#[derive(Debug, PartialEq, Eq)]
pub struct AttemptLifecycle {
    pub launch_phase: LaunchPhase,
    pub reservation: Reservation,
    pub native_owner_epoch: Option<String>,
    pub release: Option<AttemptRelease>,
}

/// The value of a `AttemptLifecycle`.
#[verifier::ext_equal]
pub struct AttemptLifecycleModel {
    pub launch_phase: LaunchPhase,
    pub reservation: Reservation,
    pub native_owner_epoch: Option<Text>,
    pub release: Option<AttemptReleaseModel>,
}

impl DeepView for AttemptLifecycle {
    type V = AttemptLifecycleModel;

    open spec fn deep_view(&self) -> AttemptLifecycleModel {
        AttemptLifecycleModel {
            launch_phase: self.launch_phase,
            reservation: self.reservation,
            native_owner_epoch: self.native_owner_epoch.deep_view(),
            release: self.release.deep_view(),
        }
    }
}

impl Replica for AttemptLifecycle {
    fn replica(&self) -> (res: Self) {
        AttemptLifecycle {
            launch_phase: self.launch_phase,
            reservation: self.reservation,
            native_owner_epoch: self.native_owner_epoch.replica(),
            release: self.release.replica(),
        }
    }
}

impl Clone for AttemptLifecycle {
    fn clone(&self) -> (res: Self)
        ensures
            res.deep_view() == self.deep_view(),
    {
        self.replica()
    }
}

/// One agent's run at a task.
#[derive(Debug, PartialEq, Eq)]
pub struct Attempt {
    pub lifecycle: AttemptLifecycle,
    pub id: String,
    pub task_id: String,
    pub agent_kind: String,
    pub role: AttemptRole,
    pub binding: NativeBinding,
    pub created_at_ms: i64,
}

/// The value of a `Attempt`.
#[verifier::ext_equal]
pub struct AttemptModel {
    pub lifecycle: AttemptLifecycleModel,
    pub id: Text,
    pub task_id: Text,
    pub agent_kind: Text,
    pub role: AttemptRole,
    pub binding: NativeBindingModel,
    pub created_at_ms: i64,
}

impl DeepView for Attempt {
    type V = AttemptModel;

    open spec fn deep_view(&self) -> AttemptModel {
        AttemptModel {
            lifecycle: self.lifecycle.deep_view(),
            id: self.id.deep_view(),
            task_id: self.task_id.deep_view(),
            agent_kind: self.agent_kind.deep_view(),
            role: self.role,
            binding: self.binding.deep_view(),
            created_at_ms: self.created_at_ms,
        }
    }
}

impl Replica for Attempt {
    fn replica(&self) -> (res: Self) {
        Attempt {
            lifecycle: self.lifecycle.replica(),
            id: self.id.replica(),
            task_id: self.task_id.replica(),
            agent_kind: self.agent_kind.replica(),
            role: self.role,
            binding: self.binding.replica(),
            created_at_ms: self.created_at_ms,
        }
    }
}

impl Clone for Attempt {
    fn clone(&self) -> (res: Self)
        ensures
            res.deep_view() == self.deep_view(),
    {
        self.replica()
    }
}

/// A native proof that an interrupt key was written.
#[derive(Debug, PartialEq, Eq)]
pub struct InterruptionReceipt {
    pub operation_id: String,
    pub launch_id: String,
    pub owner_epoch: String,
    pub receipt_id: String,
    pub key: String,
    pub bytes_written: u64,
    pub input_disposition: String,
}

/// The value of a `InterruptionReceipt`.
#[verifier::ext_equal]
pub struct InterruptionReceiptModel {
    pub operation_id: Text,
    pub launch_id: Text,
    pub owner_epoch: Text,
    pub receipt_id: Text,
    pub key: Text,
    pub bytes_written: u64,
    pub input_disposition: Text,
}

impl DeepView for InterruptionReceipt {
    type V = InterruptionReceiptModel;

    open spec fn deep_view(&self) -> InterruptionReceiptModel {
        InterruptionReceiptModel {
            operation_id: self.operation_id.deep_view(),
            launch_id: self.launch_id.deep_view(),
            owner_epoch: self.owner_epoch.deep_view(),
            receipt_id: self.receipt_id.deep_view(),
            key: self.key.deep_view(),
            bytes_written: self.bytes_written,
            input_disposition: self.input_disposition.deep_view(),
        }
    }
}

impl Replica for InterruptionReceipt {
    fn replica(&self) -> (res: Self) {
        InterruptionReceipt {
            operation_id: self.operation_id.replica(),
            launch_id: self.launch_id.replica(),
            owner_epoch: self.owner_epoch.replica(),
            receipt_id: self.receipt_id.replica(),
            key: self.key.replica(),
            bytes_written: self.bytes_written,
            input_disposition: self.input_disposition.replica(),
        }
    }
}

impl Clone for InterruptionReceipt {
    fn clone(&self) -> (res: Self)
        ensures
            res.deep_view() == self.deep_view(),
    {
        self.replica()
    }
}

/// The authority of one coordinator, taken from a local grant and never from a caller.
#[derive(Debug, PartialEq, Eq)]
pub struct DelegationFence {
    pub coordinator_task_id: String,
    pub coordinator_attempt_id: String,
    pub coordinator_epoch: u64,
    pub instance_id: String,
    pub native_owner_epoch: String,
}

/// The value of a `DelegationFence`.
#[verifier::ext_equal]
pub struct DelegationFenceModel {
    pub coordinator_task_id: Text,
    pub coordinator_attempt_id: Text,
    pub coordinator_epoch: u64,
    pub instance_id: Text,
    pub native_owner_epoch: Text,
}

impl DeepView for DelegationFence {
    type V = DelegationFenceModel;

    open spec fn deep_view(&self) -> DelegationFenceModel {
        DelegationFenceModel {
            coordinator_task_id: self.coordinator_task_id.deep_view(),
            coordinator_attempt_id: self.coordinator_attempt_id.deep_view(),
            coordinator_epoch: self.coordinator_epoch,
            instance_id: self.instance_id.deep_view(),
            native_owner_epoch: self.native_owner_epoch.deep_view(),
        }
    }
}

impl Replica for DelegationFence {
    fn replica(&self) -> (res: Self) {
        DelegationFence {
            coordinator_task_id: self.coordinator_task_id.replica(),
            coordinator_attempt_id: self.coordinator_attempt_id.replica(),
            coordinator_epoch: self.coordinator_epoch,
            instance_id: self.instance_id.replica(),
            native_owner_epoch: self.native_owner_epoch.replica(),
        }
    }
}

impl Clone for DelegationFence {
    fn clone(&self) -> (res: Self)
        ensures
            res.deep_view() == self.deep_view(),
    {
        self.replica()
    }
}

impl Same for DelegationFence {
    fn same(&self, other: &Self) -> (res: bool) {
        self.coordinator_task_id.same(&other.coordinator_task_id)
            && self.coordinator_attempt_id.same(&other.coordinator_attempt_id)
            && self.coordinator_epoch == other.coordinator_epoch
            && self.instance_id.same(&other.instance_id)
            && self.native_owner_epoch.same(&other.native_owner_epoch)
    }
}

/// The submission, and the review where one is required, under which a dependency was met.
#[derive(Debug, PartialEq, Eq)]
pub struct DependencySnapshot {
    pub prerequisite_task_id: String,
    pub submission_id: String,
    pub review_id: Option<String>,
}

/// The value of a `DependencySnapshot`.
#[verifier::ext_equal]
pub struct DependencySnapshotModel {
    pub prerequisite_task_id: Text,
    pub submission_id: Text,
    pub review_id: Option<Text>,
}

impl DeepView for DependencySnapshot {
    type V = DependencySnapshotModel;

    open spec fn deep_view(&self) -> DependencySnapshotModel {
        DependencySnapshotModel {
            prerequisite_task_id: self.prerequisite_task_id.deep_view(),
            submission_id: self.submission_id.deep_view(),
            review_id: self.review_id.deep_view(),
        }
    }
}

impl Replica for DependencySnapshot {
    fn replica(&self) -> (res: Self) {
        DependencySnapshot {
            prerequisite_task_id: self.prerequisite_task_id.replica(),
            submission_id: self.submission_id.replica(),
            review_id: self.review_id.replica(),
        }
    }
}

impl Clone for DependencySnapshot {
    fn clone(&self) -> (res: Self)
        ensures
            res.deep_view() == self.deep_view(),
    {
        self.replica()
    }
}

/// A durable intent and what became of it.
#[derive(Debug, PartialEq, Eq)]
pub struct Operation {
    pub interruption_receipt: Option<InterruptionReceipt>,
    pub interruption_owner_epoch: Option<String>,
    pub delegation_fence: Option<DelegationFence>,
    pub dependency_snapshot: Vec<DependencySnapshot>,
    pub input_refs: Vec<FrozenInputRef>,
    pub bootstrap_version: Option<String>,
    pub id: String,
    pub task_id: String,
    pub attempt_id: Option<String>,
    pub kind: OperationKind,
    pub state: OperationState,
    pub resources: NativeBinding,
    pub failure_code: Option<FailureCode>,
    pub created_at_ms: i64,
    pub updated_at_ms: i64,
}

/// The value of a `Operation`.
#[verifier::ext_equal]
pub struct OperationModel {
    pub interruption_receipt: Option<InterruptionReceiptModel>,
    pub interruption_owner_epoch: Option<Text>,
    pub delegation_fence: Option<DelegationFenceModel>,
    pub dependency_snapshot: Seq<DependencySnapshotModel>,
    pub input_refs: Seq<FrozenInputRefModel>,
    pub bootstrap_version: Option<Text>,
    pub id: Text,
    pub task_id: Text,
    pub attempt_id: Option<Text>,
    pub kind: OperationKind,
    pub state: OperationState,
    pub resources: NativeBindingModel,
    pub failure_code: Option<FailureCode>,
    pub created_at_ms: i64,
    pub updated_at_ms: i64,
}

impl DeepView for Operation {
    type V = OperationModel;

    open spec fn deep_view(&self) -> OperationModel {
        OperationModel {
            interruption_receipt: self.interruption_receipt.deep_view(),
            interruption_owner_epoch: self.interruption_owner_epoch.deep_view(),
            delegation_fence: self.delegation_fence.deep_view(),
            dependency_snapshot: self.dependency_snapshot.deep_view(),
            input_refs: self.input_refs.deep_view(),
            bootstrap_version: self.bootstrap_version.deep_view(),
            id: self.id.deep_view(),
            task_id: self.task_id.deep_view(),
            attempt_id: self.attempt_id.deep_view(),
            kind: self.kind,
            state: self.state,
            resources: self.resources.deep_view(),
            failure_code: self.failure_code.deep_view(),
            created_at_ms: self.created_at_ms,
            updated_at_ms: self.updated_at_ms,
        }
    }
}

impl Replica for Operation {
    fn replica(&self) -> (res: Self) {
        Operation {
            interruption_receipt: self.interruption_receipt.replica(),
            interruption_owner_epoch: self.interruption_owner_epoch.replica(),
            delegation_fence: self.delegation_fence.replica(),
            dependency_snapshot: self.dependency_snapshot.replica(),
            input_refs: self.input_refs.replica(),
            bootstrap_version: self.bootstrap_version.replica(),
            id: self.id.replica(),
            task_id: self.task_id.replica(),
            attempt_id: self.attempt_id.replica(),
            kind: self.kind,
            state: self.state,
            resources: self.resources.replica(),
            failure_code: self.failure_code.replica(),
            created_at_ms: self.created_at_ms,
            updated_at_ms: self.updated_at_ms,
        }
    }
}

impl Clone for Operation {
    fn clone(&self) -> (res: Self)
        ensures
            res.deep_view() == self.deep_view(),
    {
        self.replica()
    }
}

/// How a native step ended.
#[derive(Debug, PartialEq, Eq)]
pub struct OperationOutcome {
    pub state: OperationState,
    pub resources: NativeBinding,
    pub failure_code: Option<FailureCode>,
}

/// The value of a `OperationOutcome`.
#[verifier::ext_equal]
pub struct OperationOutcomeModel {
    pub state: OperationState,
    pub resources: NativeBindingModel,
    pub failure_code: Option<FailureCode>,
}

impl DeepView for OperationOutcome {
    type V = OperationOutcomeModel;

    open spec fn deep_view(&self) -> OperationOutcomeModel {
        OperationOutcomeModel {
            state: self.state,
            resources: self.resources.deep_view(),
            failure_code: self.failure_code.deep_view(),
        }
    }
}

impl Replica for OperationOutcome {
    fn replica(&self) -> (res: Self) {
        OperationOutcome {
            state: self.state,
            resources: self.resources.replica(),
            failure_code: self.failure_code.replica(),
        }
    }
}

impl Clone for OperationOutcome {
    fn clone(&self) -> (res: Self)
        ensures
            res.deep_view() == self.deep_view(),
    {
        self.replica()
    }
}

/// A file that a result names, by path and content.
#[derive(Debug, PartialEq, Eq)]
pub struct ArtifactRef {
    pub path: String,
    pub sha256: String,
    pub size_bytes: u64,
}

/// The value of a `ArtifactRef`.
#[verifier::ext_equal]
pub struct ArtifactRefModel {
    pub path: Text,
    pub sha256: Text,
    pub size_bytes: u64,
}

impl DeepView for ArtifactRef {
    type V = ArtifactRefModel;

    open spec fn deep_view(&self) -> ArtifactRefModel {
        ArtifactRefModel {
            path: self.path.deep_view(),
            sha256: self.sha256.deep_view(),
            size_bytes: self.size_bytes,
        }
    }
}

impl Replica for ArtifactRef {
    fn replica(&self) -> (res: Self) {
        ArtifactRef {
            path: self.path.replica(),
            sha256: self.sha256.replica(),
            size_bytes: self.size_bytes,
        }
    }
}

impl Clone for ArtifactRef {
    fn clone(&self) -> (res: Self)
        ensures
            res.deep_view() == self.deep_view(),
    {
        self.replica()
    }
}

/// What an attempt reports when it submits a result.
#[derive(Debug, PartialEq, Eq)]
pub struct ResultInput {
    pub attempt_id: String,
    pub summary: String,
    pub artifacts: Vec<ArtifactRef>,
    pub evidence: Vec<String>,
}

/// The value of a `ResultInput`.
#[verifier::ext_equal]
pub struct ResultInputModel {
    pub attempt_id: Text,
    pub summary: Text,
    pub artifacts: Seq<ArtifactRefModel>,
    pub evidence: Seq<Text>,
}

impl DeepView for ResultInput {
    type V = ResultInputModel;

    open spec fn deep_view(&self) -> ResultInputModel {
        ResultInputModel {
            attempt_id: self.attempt_id.deep_view(),
            summary: self.summary.deep_view(),
            artifacts: self.artifacts.deep_view(),
            evidence: self.evidence.deep_view(),
        }
    }
}

impl Replica for ResultInput {
    fn replica(&self) -> (res: Self) {
        ResultInput {
            attempt_id: self.attempt_id.replica(),
            summary: self.summary.replica(),
            artifacts: self.artifacts.replica(),
            evidence: self.evidence.replica(),
        }
    }
}

impl Clone for ResultInput {
    fn clone(&self) -> (res: Self)
        ensures
            res.deep_view() == self.deep_view(),
    {
        self.replica()
    }
}

/// A result as it was recorded.
#[derive(Debug, PartialEq, Eq)]
pub struct ResultSubmission {
    pub id: String,
    pub task_id: String,
    pub result: ResultInput,
    pub created_at_ms: i64,
}

/// The value of a `ResultSubmission`.
#[verifier::ext_equal]
pub struct ResultSubmissionModel {
    pub id: Text,
    pub task_id: Text,
    pub result: ResultInputModel,
    pub created_at_ms: i64,
}

impl DeepView for ResultSubmission {
    type V = ResultSubmissionModel;

    open spec fn deep_view(&self) -> ResultSubmissionModel {
        ResultSubmissionModel {
            id: self.id.deep_view(),
            task_id: self.task_id.deep_view(),
            result: self.result.deep_view(),
            created_at_ms: self.created_at_ms,
        }
    }
}

impl Replica for ResultSubmission {
    fn replica(&self) -> (res: Self) {
        ResultSubmission {
            id: self.id.replica(),
            task_id: self.task_id.replica(),
            result: self.result.replica(),
            created_at_ms: self.created_at_ms,
        }
    }
}

impl Clone for ResultSubmission {
    fn clone(&self) -> (res: Self)
        ensures
            res.deep_view() == self.deep_view(),
    {
        self.replica()
    }
}

/// A verdict on one submission.
#[derive(Debug, PartialEq, Eq)]
pub struct ReviewInput {
    pub submission_id: String,
    pub decision: ReviewDecision,
    pub message: Option<String>,
}

/// The value of a `ReviewInput`.
#[verifier::ext_equal]
pub struct ReviewInputModel {
    pub submission_id: Text,
    pub decision: ReviewDecision,
    pub message: Option<Text>,
}

impl DeepView for ReviewInput {
    type V = ReviewInputModel;

    open spec fn deep_view(&self) -> ReviewInputModel {
        ReviewInputModel {
            submission_id: self.submission_id.deep_view(),
            decision: self.decision,
            message: self.message.deep_view(),
        }
    }
}

impl Replica for ReviewInput {
    fn replica(&self) -> (res: Self) {
        ReviewInput {
            submission_id: self.submission_id.replica(),
            decision: self.decision,
            message: self.message.replica(),
        }
    }
}

impl Clone for ReviewInput {
    fn clone(&self) -> (res: Self)
        ensures
            res.deep_view() == self.deep_view(),
    {
        self.replica()
    }
}

/// A verdict as it was recorded.
#[derive(Debug, PartialEq, Eq)]
pub struct Review {
    pub id: String,
    pub task_id: String,
    pub actor_id: String,
    pub review: ReviewInput,
    pub created_at_ms: i64,
}

/// The value of a `Review`.
#[verifier::ext_equal]
pub struct ReviewModel {
    pub id: Text,
    pub task_id: Text,
    pub actor_id: Text,
    pub review: ReviewInputModel,
    pub created_at_ms: i64,
}

impl DeepView for Review {
    type V = ReviewModel;

    open spec fn deep_view(&self) -> ReviewModel {
        ReviewModel {
            id: self.id.deep_view(),
            task_id: self.task_id.deep_view(),
            actor_id: self.actor_id.deep_view(),
            review: self.review.deep_view(),
            created_at_ms: self.created_at_ms,
        }
    }
}

impl Replica for Review {
    fn replica(&self) -> (res: Self) {
        Review {
            id: self.id.replica(),
            task_id: self.task_id.replica(),
            actor_id: self.actor_id.replica(),
            review: self.review.replica(),
            created_at_ms: self.created_at_ms,
        }
    }
}

impl Clone for Review {
    fn clone(&self) -> (res: Self)
        ensures
            res.deep_view() == self.deep_view(),
    {
        self.replica()
    }
}

/// A task with everything recorded under it.
#[derive(Debug, PartialEq, Eq)]
pub struct TaskDetail {
    pub task: Task,
    pub attempts: Vec<Attempt>,
    pub operations: Vec<Operation>,
    pub results: Vec<ResultSubmission>,
    pub reviews: Vec<Review>,
    pub cursor: u64,
}

/// The value of a `TaskDetail`.
#[verifier::ext_equal]
pub struct TaskDetailModel {
    pub task: TaskModel,
    pub attempts: Seq<AttemptModel>,
    pub operations: Seq<OperationModel>,
    pub results: Seq<ResultSubmissionModel>,
    pub reviews: Seq<ReviewModel>,
    pub cursor: u64,
}

impl DeepView for TaskDetail {
    type V = TaskDetailModel;

    open spec fn deep_view(&self) -> TaskDetailModel {
        TaskDetailModel {
            task: self.task.deep_view(),
            attempts: self.attempts.deep_view(),
            operations: self.operations.deep_view(),
            results: self.results.deep_view(),
            reviews: self.reviews.deep_view(),
            cursor: self.cursor,
        }
    }
}

impl Replica for TaskDetail {
    fn replica(&self) -> (res: Self) {
        TaskDetail {
            task: self.task.replica(),
            attempts: self.attempts.replica(),
            operations: self.operations.replica(),
            results: self.results.replica(),
            reviews: self.reviews.replica(),
            cursor: self.cursor,
        }
    }
}

impl Clone for TaskDetail {
    fn clone(&self) -> (res: Self)
        ensures
            res.deep_view() == self.deep_view(),
    {
        self.replica()
    }
}

/// One entry of the change stream.
#[derive(Debug, PartialEq, Eq)]
pub struct TaskChange {
    pub cursor: u64,
    pub task_id: String,
    pub revision: u64,
    pub kind: String,
    pub entity_id: String,
}

/// The value of a `TaskChange`.
#[verifier::ext_equal]
pub struct TaskChangeModel {
    pub cursor: u64,
    pub task_id: Text,
    pub revision: u64,
    pub kind: Text,
    pub entity_id: Text,
}

impl DeepView for TaskChange {
    type V = TaskChangeModel;

    open spec fn deep_view(&self) -> TaskChangeModel {
        TaskChangeModel {
            cursor: self.cursor,
            task_id: self.task_id.deep_view(),
            revision: self.revision,
            kind: self.kind.deep_view(),
            entity_id: self.entity_id.deep_view(),
        }
    }
}

impl Replica for TaskChange {
    fn replica(&self) -> (res: Self) {
        TaskChange {
            cursor: self.cursor,
            task_id: self.task_id.replica(),
            revision: self.revision,
            kind: self.kind.replica(),
            entity_id: self.entity_id.replica(),
        }
    }
}

impl Clone for TaskChange {
    fn clone(&self) -> (res: Self)
        ensures
            res.deep_view() == self.deep_view(),
    {
        self.replica()
    }
}

/// A stretch of one session's change stream.
#[derive(Debug, PartialEq, Eq)]
pub struct ChangePage {
    pub changes: Vec<TaskChange>,
    pub cursor: u64,
    pub reset_required: bool,
}

/// The value of a `ChangePage`.
#[verifier::ext_equal]
pub struct ChangePageModel {
    pub changes: Seq<TaskChangeModel>,
    pub cursor: u64,
    pub reset_required: bool,
}

impl DeepView for ChangePage {
    type V = ChangePageModel;

    open spec fn deep_view(&self) -> ChangePageModel {
        ChangePageModel {
            changes: self.changes.deep_view(),
            cursor: self.cursor,
            reset_required: self.reset_required,
        }
    }
}

impl Replica for ChangePage {
    fn replica(&self) -> (res: Self) {
        ChangePage {
            changes: self.changes.replica(),
            cursor: self.cursor,
            reset_required: self.reset_required,
        }
    }
}

impl Clone for ChangePage {
    fn clone(&self) -> (res: Self)
        ensures
            res.deep_view() == self.deep_view(),
    {
        self.replica()
    }
}

/// What a caller expects of an attempt that it asks to reconcile.
#[derive(Debug, PartialEq, Eq)]
pub struct ReconcileInput {
    pub request_key: String,
    pub expected_revision: u64,
    pub expected_instance_id: Option<String>,
    pub expected_native_owner_epoch: Option<String>,
}

/// The value of a `ReconcileInput`.
#[verifier::ext_equal]
pub struct ReconcileInputModel {
    pub request_key: Text,
    pub expected_revision: u64,
    pub expected_instance_id: Option<Text>,
    pub expected_native_owner_epoch: Option<Text>,
}

impl DeepView for ReconcileInput {
    type V = ReconcileInputModel;

    open spec fn deep_view(&self) -> ReconcileInputModel {
        ReconcileInputModel {
            request_key: self.request_key.deep_view(),
            expected_revision: self.expected_revision,
            expected_instance_id: self.expected_instance_id.deep_view(),
            expected_native_owner_epoch: self.expected_native_owner_epoch.deep_view(),
        }
    }
}

impl Replica for ReconcileInput {
    fn replica(&self) -> (res: Self) {
        ReconcileInput {
            request_key: self.request_key.replica(),
            expected_revision: self.expected_revision,
            expected_instance_id: self.expected_instance_id.replica(),
            expected_native_owner_epoch: self.expected_native_owner_epoch.replica(),
        }
    }
}

impl Clone for ReconcileInput {
    fn clone(&self) -> (res: Self)
        ensures
            res.deep_view() == self.deep_view(),
    {
        self.replica()
    }
}

/// What the trusted service saw of an attempt. Never built from a caller's words.
#[derive(Debug, PartialEq, Eq)]
pub enum ReconciliationEvidence {
    NotDispatched,
    NativeNotStarted { start_operation_id: String, owner_epoch: String, receipt_id: String },
    Live { instance_id: String, owner_epoch: String },
    Exited { instance_id: String, owner_epoch: String, receipt_id: String },
    Unknown,
}

/// The value of a `ReconciliationEvidence`.
#[verifier::ext_equal]
pub enum ReconciliationEvidenceModel {
    NotDispatched,
    NativeNotStarted { start_operation_id: Text, owner_epoch: Text, receipt_id: Text },
    Live { instance_id: Text, owner_epoch: Text },
    Exited { instance_id: Text, owner_epoch: Text, receipt_id: Text },
    Unknown,
}

impl DeepView for ReconciliationEvidence {
    type V = ReconciliationEvidenceModel;

    open spec fn deep_view(&self) -> ReconciliationEvidenceModel {
        match self {
            ReconciliationEvidence::NotDispatched => ReconciliationEvidenceModel::NotDispatched,
            ReconciliationEvidence::NativeNotStarted { start_operation_id, owner_epoch, receipt_id } => ReconciliationEvidenceModel::NativeNotStarted {
                start_operation_id: start_operation_id.deep_view(),
                owner_epoch: owner_epoch.deep_view(),
                receipt_id: receipt_id.deep_view(),
            },
            ReconciliationEvidence::Live { instance_id, owner_epoch } => ReconciliationEvidenceModel::Live {
                instance_id: instance_id.deep_view(),
                owner_epoch: owner_epoch.deep_view(),
            },
            ReconciliationEvidence::Exited { instance_id, owner_epoch, receipt_id } => ReconciliationEvidenceModel::Exited {
                instance_id: instance_id.deep_view(),
                owner_epoch: owner_epoch.deep_view(),
                receipt_id: receipt_id.deep_view(),
            },
            ReconciliationEvidence::Unknown => ReconciliationEvidenceModel::Unknown,
        }
    }
}

impl Replica for ReconciliationEvidence {
    fn replica(&self) -> (res: Self) {
        match self {
            ReconciliationEvidence::NotDispatched => ReconciliationEvidence::NotDispatched,
            ReconciliationEvidence::NativeNotStarted { start_operation_id, owner_epoch, receipt_id } => ReconciliationEvidence::NativeNotStarted {
                start_operation_id: start_operation_id.replica(),
                owner_epoch: owner_epoch.replica(),
                receipt_id: receipt_id.replica(),
            },
            ReconciliationEvidence::Live { instance_id, owner_epoch } => ReconciliationEvidence::Live {
                instance_id: instance_id.replica(),
                owner_epoch: owner_epoch.replica(),
            },
            ReconciliationEvidence::Exited { instance_id, owner_epoch, receipt_id } => ReconciliationEvidence::Exited {
                instance_id: instance_id.replica(),
                owner_epoch: owner_epoch.replica(),
                receipt_id: receipt_id.replica(),
            },
            ReconciliationEvidence::Unknown => ReconciliationEvidence::Unknown,
        }
    }
}

impl Clone for ReconciliationEvidence {
    fn clone(&self) -> (res: Self)
        ensures
            res.deep_view() == self.deep_view(),
    {
        self.replica()
    }
}

/// What a reconciliation found and left behind.
#[derive(Debug, PartialEq, Eq)]
pub struct ReconciliationReceipt {
    pub operation_id: String,
    pub attempt_id: String,
    pub observation: LifecycleObservation,
    pub reservation: Reservation,
    pub release: Option<AttemptRelease>,
    pub task_revision: u64,
}

/// The value of a `ReconciliationReceipt`.
#[verifier::ext_equal]
pub struct ReconciliationReceiptModel {
    pub operation_id: Text,
    pub attempt_id: Text,
    pub observation: LifecycleObservation,
    pub reservation: Reservation,
    pub release: Option<AttemptReleaseModel>,
    pub task_revision: u64,
}

impl DeepView for ReconciliationReceipt {
    type V = ReconciliationReceiptModel;

    open spec fn deep_view(&self) -> ReconciliationReceiptModel {
        ReconciliationReceiptModel {
            operation_id: self.operation_id.deep_view(),
            attempt_id: self.attempt_id.deep_view(),
            observation: self.observation,
            reservation: self.reservation,
            release: self.release.deep_view(),
            task_revision: self.task_revision,
        }
    }
}

impl Replica for ReconciliationReceipt {
    fn replica(&self) -> (res: Self) {
        ReconciliationReceipt {
            operation_id: self.operation_id.replica(),
            attempt_id: self.attempt_id.replica(),
            observation: self.observation,
            reservation: self.reservation,
            release: self.release.replica(),
            task_revision: self.task_revision,
        }
    }
}

impl Clone for ReconciliationReceipt {
    fn clone(&self) -> (res: Self)
        ensures
            res.deep_view() == self.deep_view(),
    {
        self.replica()
    }
}

/// A native proof that a start never made a process.
#[derive(Debug, PartialEq, Eq)]
pub struct NativeStartRefusal {
    pub start_operation_id: String,
    pub owner_epoch: String,
    pub receipt_id: String,
}

/// The value of a `NativeStartRefusal`.
#[verifier::ext_equal]
pub struct NativeStartRefusalModel {
    pub start_operation_id: Text,
    pub owner_epoch: Text,
    pub receipt_id: Text,
}

impl DeepView for NativeStartRefusal {
    type V = NativeStartRefusalModel;

    open spec fn deep_view(&self) -> NativeStartRefusalModel {
        NativeStartRefusalModel {
            start_operation_id: self.start_operation_id.deep_view(),
            owner_epoch: self.owner_epoch.deep_view(),
            receipt_id: self.receipt_id.deep_view(),
        }
    }
}

impl Replica for NativeStartRefusal {
    fn replica(&self) -> (res: Self) {
        NativeStartRefusal {
            start_operation_id: self.start_operation_id.replica(),
            owner_epoch: self.owner_epoch.replica(),
            receipt_id: self.receipt_id.replica(),
        }
    }
}

impl Clone for NativeStartRefusal {
    fn clone(&self) -> (res: Self)
        ensures
            res.deep_view() == self.deep_view(),
    {
        self.replica()
    }
}

impl Same for NativeStartRefusal {
    fn same(&self, other: &Self) -> (res: bool) {
        self.start_operation_id.same(&other.start_operation_id)
            && self.owner_epoch.same(&other.owner_epoch)
            && self.receipt_id.same(&other.receipt_id)
    }
}

/// The description of an uploaded input.
#[derive(Debug, PartialEq, Eq)]
pub struct InputUpload {
    pub repo_path: String,
    pub name: String,
    pub mime: String,
    pub size_bytes: u64,
    pub sha256: String,
}

/// The value of a `InputUpload`.
#[verifier::ext_equal]
pub struct InputUploadModel {
    pub repo_path: Text,
    pub name: Text,
    pub mime: Text,
    pub size_bytes: u64,
    pub sha256: Text,
}

impl DeepView for InputUpload {
    type V = InputUploadModel;

    open spec fn deep_view(&self) -> InputUploadModel {
        InputUploadModel {
            repo_path: self.repo_path.deep_view(),
            name: self.name.deep_view(),
            mime: self.mime.deep_view(),
            size_bytes: self.size_bytes,
            sha256: self.sha256.deep_view(),
        }
    }
}

impl Replica for InputUpload {
    fn replica(&self) -> (res: Self) {
        InputUpload {
            repo_path: self.repo_path.replica(),
            name: self.name.replica(),
            mime: self.mime.replica(),
            size_bytes: self.size_bytes,
            sha256: self.sha256.replica(),
        }
    }
}

impl Clone for InputUpload {
    fn clone(&self) -> (res: Self)
        ensures
            res.deep_view() == self.deep_view(),
    {
        self.replica()
    }
}

/// An upload as it was recorded.
#[derive(Debug, PartialEq, Eq)]
pub struct InputReceipt {
    pub input_id: String,
    pub session_id: String,
    pub repo_path: String,
    pub name: String,
    pub mime: String,
    pub size_bytes: u64,
    pub sha256: String,
    pub created_at_ms: i64,
    pub expires_at_ms: i64,
}

/// The value of a `InputReceipt`.
#[verifier::ext_equal]
pub struct InputReceiptModel {
    pub input_id: Text,
    pub session_id: Text,
    pub repo_path: Text,
    pub name: Text,
    pub mime: Text,
    pub size_bytes: u64,
    pub sha256: Text,
    pub created_at_ms: i64,
    pub expires_at_ms: i64,
}

impl DeepView for InputReceipt {
    type V = InputReceiptModel;

    open spec fn deep_view(&self) -> InputReceiptModel {
        InputReceiptModel {
            input_id: self.input_id.deep_view(),
            session_id: self.session_id.deep_view(),
            repo_path: self.repo_path.deep_view(),
            name: self.name.deep_view(),
            mime: self.mime.deep_view(),
            size_bytes: self.size_bytes,
            sha256: self.sha256.deep_view(),
            created_at_ms: self.created_at_ms,
            expires_at_ms: self.expires_at_ms,
        }
    }
}

impl Replica for InputReceipt {
    fn replica(&self) -> (res: Self) {
        InputReceipt {
            input_id: self.input_id.replica(),
            session_id: self.session_id.replica(),
            repo_path: self.repo_path.replica(),
            name: self.name.replica(),
            mime: self.mime.replica(),
            size_bytes: self.size_bytes,
            sha256: self.sha256.replica(),
            created_at_ms: self.created_at_ms,
            expires_at_ms: self.expires_at_ms,
        }
    }
}

impl Clone for InputReceipt {
    fn clone(&self) -> (res: Self)
        ensures
            res.deep_view() == self.deep_view(),
    {
        self.replica()
    }
}

/// A caller's reference to an uploaded input.
#[derive(Debug, PartialEq, Eq)]
pub struct InputRef {
    pub input_id: String,
    pub caption: String,
    pub use_: InputUse,
}

/// The value of a `InputRef`.
#[verifier::ext_equal]
pub struct InputRefModel {
    pub input_id: Text,
    pub caption: Text,
    pub use_: InputUse,
}

impl DeepView for InputRef {
    type V = InputRefModel;

    open spec fn deep_view(&self) -> InputRefModel {
        InputRefModel {
            input_id: self.input_id.deep_view(),
            caption: self.caption.deep_view(),
            use_: self.use_,
        }
    }
}

impl Replica for InputRef {
    fn replica(&self) -> (res: Self) {
        InputRef {
            input_id: self.input_id.replica(),
            caption: self.caption.replica(),
            use_: self.use_,
        }
    }
}

impl Clone for InputRef {
    fn clone(&self) -> (res: Self)
        ensures
            res.deep_view() == self.deep_view(),
    {
        self.replica()
    }
}

/// The delegation settings that a caller asks for.
#[derive(Debug, PartialEq, Eq)]
pub struct DelegationConfig {
    pub policy: DelegationPolicy,
    pub coordinator_attempt_id: Option<String>,
}

/// The value of a `DelegationConfig`.
#[verifier::ext_equal]
pub struct DelegationConfigModel {
    pub policy: DelegationPolicyModel,
    pub coordinator_attempt_id: Option<Text>,
}

impl DeepView for DelegationConfig {
    type V = DelegationConfigModel;

    open spec fn deep_view(&self) -> DelegationConfigModel {
        DelegationConfigModel {
            policy: self.policy.deep_view(),
            coordinator_attempt_id: self.coordinator_attempt_id.deep_view(),
        }
    }
}

impl Replica for DelegationConfig {
    fn replica(&self) -> (res: Self) {
        DelegationConfig {
            policy: self.policy.replica(),
            coordinator_attempt_id: self.coordinator_attempt_id.replica(),
        }
    }
}

impl Clone for DelegationConfig {
    fn clone(&self) -> (res: Self)
        ensures
            res.deep_view() == self.deep_view(),
    {
        self.replica()
    }
}

/// The permission by which a child task uses an input of its parent.
#[derive(Debug, PartialEq, Eq)]
pub struct InputShare {
    pub id: String,
    pub source_task_id: String,
    pub recipient_task_id: String,
    pub input_id: String,
    pub source_use: InputUse,
    pub permitted_use: InputUse,
    pub sha256: String,
    pub size_bytes: u64,
    pub name: String,
    pub mime: String,
    pub coordinator_attempt_id: String,
    pub coordinator_epoch: u64,
    pub created_at_ms: i64,
}

/// The value of a `InputShare`.
#[verifier::ext_equal]
pub struct InputShareModel {
    pub id: Text,
    pub source_task_id: Text,
    pub recipient_task_id: Text,
    pub input_id: Text,
    pub source_use: InputUse,
    pub permitted_use: InputUse,
    pub sha256: Text,
    pub size_bytes: u64,
    pub name: Text,
    pub mime: Text,
    pub coordinator_attempt_id: Text,
    pub coordinator_epoch: u64,
    pub created_at_ms: i64,
}

impl DeepView for InputShare {
    type V = InputShareModel;

    open spec fn deep_view(&self) -> InputShareModel {
        InputShareModel {
            id: self.id.deep_view(),
            source_task_id: self.source_task_id.deep_view(),
            recipient_task_id: self.recipient_task_id.deep_view(),
            input_id: self.input_id.deep_view(),
            source_use: self.source_use,
            permitted_use: self.permitted_use,
            sha256: self.sha256.deep_view(),
            size_bytes: self.size_bytes,
            name: self.name.deep_view(),
            mime: self.mime.deep_view(),
            coordinator_attempt_id: self.coordinator_attempt_id.deep_view(),
            coordinator_epoch: self.coordinator_epoch,
            created_at_ms: self.created_at_ms,
        }
    }
}

impl Replica for InputShare {
    fn replica(&self) -> (res: Self) {
        InputShare {
            id: self.id.replica(),
            source_task_id: self.source_task_id.replica(),
            recipient_task_id: self.recipient_task_id.replica(),
            input_id: self.input_id.replica(),
            source_use: self.source_use,
            permitted_use: self.permitted_use,
            sha256: self.sha256.replica(),
            size_bytes: self.size_bytes,
            name: self.name.replica(),
            mime: self.mime.replica(),
            coordinator_attempt_id: self.coordinator_attempt_id.replica(),
            coordinator_epoch: self.coordinator_epoch,
            created_at_ms: self.created_at_ms,
        }
    }
}

impl Clone for InputShare {
    fn clone(&self) -> (res: Self)
        ensures
            res.deep_view() == self.deep_view(),
    {
        self.replica()
    }
}

/// What a caller expects of an attempt that it asks to interrupt.
#[derive(Debug, PartialEq, Eq)]
pub struct InterruptInput {
    pub request_key: String,
    pub expected_revision: u64,
    pub expected_instance_id: String,
    pub expected_native_owner_epoch: String,
}

/// The value of a `InterruptInput`.
#[verifier::ext_equal]
pub struct InterruptInputModel {
    pub request_key: Text,
    pub expected_revision: u64,
    pub expected_instance_id: Text,
    pub expected_native_owner_epoch: Text,
}

impl DeepView for InterruptInput {
    type V = InterruptInputModel;

    open spec fn deep_view(&self) -> InterruptInputModel {
        InterruptInputModel {
            request_key: self.request_key.deep_view(),
            expected_revision: self.expected_revision,
            expected_instance_id: self.expected_instance_id.deep_view(),
            expected_native_owner_epoch: self.expected_native_owner_epoch.deep_view(),
        }
    }
}

impl Replica for InterruptInput {
    fn replica(&self) -> (res: Self) {
        InterruptInput {
            request_key: self.request_key.replica(),
            expected_revision: self.expected_revision,
            expected_instance_id: self.expected_instance_id.replica(),
            expected_native_owner_epoch: self.expected_native_owner_epoch.replica(),
        }
    }
}

impl Clone for InterruptInput {
    fn clone(&self) -> (res: Self)
        ensures
            res.deep_view() == self.deep_view(),
    {
        self.replica()
    }
}

/// The last change of a task.
#[derive(Debug, PartialEq, Eq)]
pub struct TaskActivity {
    pub cursor: u64,
    pub kind: String,
    pub entity_id: String,
}

/// The value of a `TaskActivity`.
#[verifier::ext_equal]
pub struct TaskActivityModel {
    pub cursor: u64,
    pub kind: Text,
    pub entity_id: Text,
}

impl DeepView for TaskActivity {
    type V = TaskActivityModel;

    open spec fn deep_view(&self) -> TaskActivityModel {
        TaskActivityModel {
            cursor: self.cursor,
            kind: self.kind.deep_view(),
            entity_id: self.entity_id.deep_view(),
        }
    }
}

impl Replica for TaskActivity {
    fn replica(&self) -> (res: Self) {
        TaskActivity {
            cursor: self.cursor,
            kind: self.kind.replica(),
            entity_id: self.entity_id.replica(),
        }
    }
}

impl Clone for TaskActivity {
    fn clone(&self) -> (res: Self)
        ensures
            res.deep_view() == self.deep_view(),
    {
        self.replica()
    }
}

/// The latest review of a submission.
#[derive(Debug, PartialEq, Eq)]
pub struct SummaryReview {
    pub review_id: String,
    pub decision: ReviewDecision,
}

/// The value of a `SummaryReview`.
#[verifier::ext_equal]
pub struct SummaryReviewModel {
    pub review_id: Text,
    pub decision: ReviewDecision,
}

impl DeepView for SummaryReview {
    type V = SummaryReviewModel;

    open spec fn deep_view(&self) -> SummaryReviewModel {
        SummaryReviewModel {
            review_id: self.review_id.deep_view(),
            decision: self.decision,
        }
    }
}

impl Replica for SummaryReview {
    fn replica(&self) -> (res: Self) {
        SummaryReview {
            review_id: self.review_id.replica(),
            decision: self.decision,
        }
    }
}

impl Clone for SummaryReview {
    fn clone(&self) -> (res: Self)
        ensures
            res.deep_view() == self.deep_view(),
    {
        self.replica()
    }
}

/// The latest submission of a task.
#[derive(Debug, PartialEq, Eq)]
pub struct SummaryResult {
    pub submission_id: String,
    pub review: Option<SummaryReview>,
}

/// The value of a `SummaryResult`.
#[verifier::ext_equal]
pub struct SummaryResultModel {
    pub submission_id: Text,
    pub review: Option<SummaryReviewModel>,
}

impl DeepView for SummaryResult {
    type V = SummaryResultModel;

    open spec fn deep_view(&self) -> SummaryResultModel {
        SummaryResultModel {
            submission_id: self.submission_id.deep_view(),
            review: self.review.deep_view(),
        }
    }
}

impl Replica for SummaryResult {
    fn replica(&self) -> (res: Self) {
        SummaryResult {
            submission_id: self.submission_id.replica(),
            review: self.review.replica(),
        }
    }
}

impl Clone for SummaryResult {
    fn clone(&self) -> (res: Self)
        ensures
            res.deep_view() == self.deep_view(),
    {
        self.replica()
    }
}

/// One row of the task list.
#[derive(Debug, PartialEq, Eq)]
pub struct TaskSummary {
    pub task_id: String,
    pub session_id: String,
    pub parent_task_id: Option<String>,
    pub task_revision: u64,
    pub title: String,
    pub repo_path: String,
    pub paused: bool,
    pub last_activity: Option<TaskActivity>,
    pub reserved_attempts: u64,
    pub unresolved_native_operations: u64,
    pub unreviewed_results: u64,
    pub latest_result: Option<SummaryResult>,
}

/// The value of a `TaskSummary`.
#[verifier::ext_equal]
pub struct TaskSummaryModel {
    pub task_id: Text,
    pub session_id: Text,
    pub parent_task_id: Option<Text>,
    pub task_revision: u64,
    pub title: Text,
    pub repo_path: Text,
    pub paused: bool,
    pub last_activity: Option<TaskActivityModel>,
    pub reserved_attempts: u64,
    pub unresolved_native_operations: u64,
    pub unreviewed_results: u64,
    pub latest_result: Option<SummaryResultModel>,
}

impl DeepView for TaskSummary {
    type V = TaskSummaryModel;

    open spec fn deep_view(&self) -> TaskSummaryModel {
        TaskSummaryModel {
            task_id: self.task_id.deep_view(),
            session_id: self.session_id.deep_view(),
            parent_task_id: self.parent_task_id.deep_view(),
            task_revision: self.task_revision,
            title: self.title.deep_view(),
            repo_path: self.repo_path.deep_view(),
            paused: self.paused,
            last_activity: self.last_activity.deep_view(),
            reserved_attempts: self.reserved_attempts,
            unresolved_native_operations: self.unresolved_native_operations,
            unreviewed_results: self.unreviewed_results,
            latest_result: self.latest_result.deep_view(),
        }
    }
}

impl Replica for TaskSummary {
    fn replica(&self) -> (res: Self) {
        TaskSummary {
            task_id: self.task_id.replica(),
            session_id: self.session_id.replica(),
            parent_task_id: self.parent_task_id.replica(),
            task_revision: self.task_revision,
            title: self.title.replica(),
            repo_path: self.repo_path.replica(),
            paused: self.paused,
            last_activity: self.last_activity.replica(),
            reserved_attempts: self.reserved_attempts,
            unresolved_native_operations: self.unresolved_native_operations,
            unreviewed_results: self.unreviewed_results,
            latest_result: self.latest_result.replica(),
        }
    }
}

impl Clone for TaskSummary {
    fn clone(&self) -> (res: Self)
        ensures
            res.deep_view() == self.deep_view(),
    {
        self.replica()
    }
}

/// A page of the task list, pinned to one cursor.
#[derive(Debug, PartialEq, Eq)]
pub struct TaskSummaryPage {
    pub items: Vec<TaskSummary>,
    pub snapshot_cursor: u64,
    pub next_after_id: Option<String>,
}

/// The value of a `TaskSummaryPage`.
#[verifier::ext_equal]
pub struct TaskSummaryPageModel {
    pub items: Seq<TaskSummaryModel>,
    pub snapshot_cursor: u64,
    pub next_after_id: Option<Text>,
}

impl DeepView for TaskSummaryPage {
    type V = TaskSummaryPageModel;

    open spec fn deep_view(&self) -> TaskSummaryPageModel {
        TaskSummaryPageModel {
            items: self.items.deep_view(),
            snapshot_cursor: self.snapshot_cursor,
            next_after_id: self.next_after_id.deep_view(),
        }
    }
}

impl Replica for TaskSummaryPage {
    fn replica(&self) -> (res: Self) {
        TaskSummaryPage {
            items: self.items.replica(),
            snapshot_cursor: self.snapshot_cursor,
            next_after_id: self.next_after_id.replica(),
        }
    }
}

impl Clone for TaskSummaryPage {
    fn clone(&self) -> (res: Self)
        ensures
            res.deep_view() == self.deep_view(),
    {
        self.replica()
    }
}

impl Default for NativeBinding {
    fn default() -> (res: Self)
        ensures
            res.deep_view() == unbound(),
    {
        NativeBinding {
            workspace_id: None,
            tab_id: None,
            instance_id: None,
            target: None,
            pane_id: None,
            worktree_path: None,
        }
    }
}

/// The binding that names no native resource.
pub open spec fn unbound() -> NativeBindingModel {
    NativeBindingModel {
        workspace_id: None,
        tab_id: None,
        instance_id: None,
        target: None,
        pane_id: None,
        worktree_path: None,
    }
}

impl Default for AttemptLifecycle {
    fn default() -> (res: Self)
        ensures
            res.deep_view() == (AttemptLifecycleModel {
                launch_phase: LaunchPhase::LegacyUnknown,
                reservation: Reservation::Reserved,
                native_owner_epoch: None,
                release: None,
            }),
    {
        AttemptLifecycle {
            launch_phase: LaunchPhase::LegacyUnknown,
            reservation: Reservation::Reserved,
            native_owner_epoch: None,
            release: None,
        }
    }
}

impl Default for DelegationPolicy {
    fn default() -> (res: Self)
        ensures
            res.deep_view() == no_delegation(),
    {
        DelegationPolicy {
            enabled: false,
            max_children: 16,
            max_depth: 1,
            dependency_requirement: DependencyRequirement::ResultAvailable,
        }
    }
}

/// The policy of a task for which delegation was never configured.
pub open spec fn no_delegation() -> DelegationPolicyModel {
    DelegationPolicyModel {
        enabled: false,
        max_children: 16,
        max_depth: 1,
        dependency_requirement: DependencyRequirement::ResultAvailable,
    }
}

impl Default for DelegationState {
    fn default() -> (res: Self)
        ensures
            res.deep_view() == (DelegationStateModel {
                policy: no_delegation(),
                coordinator_attempt_id: None,
                coordinator_epoch: 0,
            }),
    {
        DelegationState {
            policy: DelegationPolicy::default(),
            coordinator_attempt_id: None,
            coordinator_epoch: 0,
        }
    }
}

/// How the native interrupt of an attempt ended.
#[derive(Debug, PartialEq, Eq)]
pub enum InterruptionOutcome {
    Acknowledged(InterruptionReceipt),
    Refused(FailureCode),
    Unconfirmed,
}

/// The value of an `InterruptionOutcome`.
#[verifier::ext_equal]
pub enum InterruptionOutcomeModel {
    Acknowledged(InterruptionReceiptModel),
    Refused(FailureCode),
    Unconfirmed,
}

impl DeepView for InterruptionOutcome {
    type V = InterruptionOutcomeModel;

    open spec fn deep_view(&self) -> InterruptionOutcomeModel {
        match self {
            InterruptionOutcome::Acknowledged(receipt) => InterruptionOutcomeModel::Acknowledged(
                receipt.deep_view(),
            ),
            InterruptionOutcome::Refused(code) => InterruptionOutcomeModel::Refused(*code),
            InterruptionOutcome::Unconfirmed => InterruptionOutcomeModel::Unconfirmed,
        }
    }
}

impl Replica for InterruptionOutcome {
    fn replica(&self) -> (res: Self) {
        match self {
            InterruptionOutcome::Acknowledged(receipt) => InterruptionOutcome::Acknowledged(
                receipt.replica(),
            ),
            InterruptionOutcome::Refused(code) => InterruptionOutcome::Refused(*code),
            InterruptionOutcome::Unconfirmed => InterruptionOutcome::Unconfirmed,
        }
    }
}

impl Clone for InterruptionOutcome {
    fn clone(&self) -> (res: Self)
        ensures
            res.deep_view() == self.deep_view(),
    {
        self.replica()
    }
}

/// The answer to a request that is carried out at most once per key.
#[derive(Debug, Clone, PartialEq, Eq)]
pub struct Mutation<T> {
    pub value: T,
    pub replayed: bool,
}

/// The value of a `Mutation`.
#[verifier::ext_equal]
pub struct MutationModel<T> {
    pub value: T,
    pub replayed: bool,
}

impl<T: DeepView> DeepView for Mutation<T> {
    type V = MutationModel<T::V>;

    open spec fn deep_view(&self) -> MutationModel<T::V> {
        MutationModel { value: self.value.deep_view(), replayed: self.replayed }
    }
}

/// What a request key was answered with.
#[derive(Debug, PartialEq, Eq)]
pub enum ReceiptValue {
    Task(Task),
    Operation(Operation),
    Result(ResultSubmission),
    Review(Review),
    Reconciliation(ReconciliationReceipt),
    ReconciliationPending(Operation),
}

/// The value of a `ReceiptValue`.
#[verifier::ext_equal]
pub enum ReceiptValueModel {
    Task(TaskModel),
    Operation(OperationModel),
    Result(ResultSubmissionModel),
    Review(ReviewModel),
    Reconciliation(ReconciliationReceiptModel),
    ReconciliationPending(OperationModel),
}

impl DeepView for ReceiptValue {
    type V = ReceiptValueModel;

    open spec fn deep_view(&self) -> ReceiptValueModel {
        match self {
            ReceiptValue::Task(v) => ReceiptValueModel::Task(v.deep_view()),
            ReceiptValue::Operation(v) => ReceiptValueModel::Operation(v.deep_view()),
            ReceiptValue::Result(v) => ReceiptValueModel::Result(v.deep_view()),
            ReceiptValue::Review(v) => ReceiptValueModel::Review(v.deep_view()),
            ReceiptValue::Reconciliation(v) => ReceiptValueModel::Reconciliation(v.deep_view()),
            ReceiptValue::ReconciliationPending(v) => ReceiptValueModel::ReconciliationPending(
                v.deep_view(),
            ),
        }
    }
}

/// Read-only reconciliation of one authenticated actor's committed request key.
#[derive(Debug, PartialEq, Eq)]
pub struct RequestReceipt {
    pub kind: OperationKind,
    pub value: ReceiptValue,
    /// The text that the value was written as, where it is shown as it was written and would now be
    /// written otherwise.
    pub wire: Option<String>,
}

/// The value of a `RequestReceipt`.
#[verifier::ext_equal]
pub struct RequestReceiptModel {
    pub kind: OperationKind,
    pub value: ReceiptValueModel,
    pub wire: Option<Text>,
}

impl DeepView for RequestReceipt {
    type V = RequestReceiptModel;

    open spec fn deep_view(&self) -> RequestReceiptModel {
        RequestReceiptModel {
            kind: self.kind,
            value: self.value.deep_view(),
            wire: self.wire.deep_view(),
        }
    }
}

} // verus!
