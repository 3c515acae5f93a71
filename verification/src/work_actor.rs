//! Who may commit: a paired device, or the local lead that coordinates a task under its grant and
//! the store's fence.
use vstd::prelude::*;
use crate::digest::is_uuid;
use crate::digest::new_id;
use crate::text::text_eq;
use crate::value::Replica;
use crate::value::Same;
use crate::value::Text;
use crate::value::shown;
use crate::work::model::CreateTask;
use crate::work::model::CreateTaskModel;
use crate::work::model::DelegationFence;
use crate::work::model::DelegationFenceModel;
use crate::work::model::FailureCode;
use crate::work::model::FrozenInputRef;
use crate::work::model::FrozenInputRefModel;
use crate::work::model::InputRef;
use crate::work::model::InputRefModel;
use crate::work::model::Mutation;
use crate::work::model::MutationModel;
use crate::work::model::NewAttempt;
use crate::work::model::NewAttemptModel;
use crate::work::model::Operation;
use crate::work::model::OperationKind;
use crate::work::model::OperationModel;
use crate::work::model::OperationState;
use crate::work::model::RequestReceipt;
use crate::work::model::Task;
use crate::work::model::TaskDetail;
use crate::work::model::TaskDetailModel;
use crate::work::model::TaskModel;
use crate::work::model::WorkError;
use crate::work::model::WorkResult;
use crate::work::store::attempts::Start;
use crate::work::store::attempts::StartModel;
use crate::work::store::attempts::dispatch_outcome;
use crate::work::store::attempts::start_outcome;
use crate::work::store::authority::DelegatedCreateModel;
use crate::work::store::authority::OperationTarget;
use crate::work::store::authority::OperationTargetModel;
use crate::work::store::authority::controlled;
use crate::work::store::authority::delegated_inputs;
use crate::work::store::authority::governs_id;
use crate::work::store::delegation::delegated_create_replayed;
use crate::work::store::delegation::dependencies_outcome;
use crate::work::store::delegation::dependencies_request;
use crate::work::store::deliveries::Delivery;
use crate::work::store::deliveries::DeliveryModel;
use crate::work::store::deliveries::Promise;
use crate::work::store::deliveries::PromiseModel;
use crate::work::store::deliveries::delivery_outcome;
use crate::work::store::deliveries::redelivered;
use crate::work::store::operations::begin_outcome;
use crate::work::store::pagination::Page;
use crate::work::store::pagination::RecordPage;
use crate::work::store::pagination::RecordPageModel;
use crate::work::store::pagination::ShownRecord;
use crate::work::store::pagination::ShownRecordModel;
use crate::work::store::pagination::immutable_record_of;
use crate::work::store::pagination::records_paged;
use crate::work::store::receipts::delegated_receipt_of;
use crate::work::store::records::loaded;
use crate::work::store::records::refuse;
use crate::work::store::records::refused;
use crate::work::store::requests::replayed;
use crate::work::store::rules::launchable;
use crate::work::store::tables::Record;
use crate::work::store::tables::StoreModel;
use crate::work::store::tables::WorkStore;
use crate::work::store::tasks::creation_commits;
use crate::work::store::tasks::detail_of;
use crate::work::store::transaction::commits;
use crate::work::store::transaction::repeated;
use crate::work::store::uploads::inputs_resolved;
use crate::work_authority::DelegationAuthority;
use crate::work_authority::DelegationAuthorityModel;
use crate::work_authority::GrantModel;
use crate::work_authority::Registry;
use crate::work_authority::Scope;
use crate::work_authority::ScopeModel;
use crate::work_authority::delegated;
use crate::work_authority::fenced;
use crate::work_authority::invalidated;
use crate::work_delegation::ChildReadRequest;
use crate::work_delegation::ChildReadRequestModel;
use crate::work_delegation::CreateChildRequest;
use crate::work_delegation::CreateChildRequestModel;
use crate::work_delegation::DependencyUpdateRequest;
use crate::work_delegation::DependencyUpdateRequestModel;
use crate::work_execution::DeliveryRequest;
use crate::work_execution::DeliveryRequestModel;
use crate::work_execution::StartRequest;
use crate::work_execution::StartRequestModel;

pub mod leave;

verus! {

/// What a look at the native process of a coordinator came to.
#[derive(Debug, Clone, Copy, PartialEq, Eq, Structural)]
pub enum Observation {
    Live,
    Exited,
    Unknown,
    /// The look itself failed.
    Failed,
}

/// What is known at the moment of a request: the coordinator's process, whether the device that
/// began the request may still act, and the time.
#[derive(Debug, Clone, Copy)]
pub struct Moment {
    pub seen: Observation,
    pub device: WorkResult<()>,
    pub now: i64,
}

/// By what an actor may commit.
#[derive(Debug)]
pub enum Authority {
    Paired,
    LocalLead { token: String, principal: DelegationAuthority },
}

/// The value of an `Authority`.
#[verifier::ext_equal]
pub enum AuthorityModel {
    Paired,
    LocalLead { token: Text, principal: DelegationAuthorityModel },
}

impl DeepView for Authority {
    type V = AuthorityModel;

    open spec fn deep_view(&self) -> AuthorityModel {
        match self {
            Authority::Paired => AuthorityModel::Paired,
            Authority::LocalLead { token, principal } => AuthorityModel::LocalLead {
                token: token.deep_view(),
                principal: principal.deep_view(),
            },
        }
    }
}

impl Replica for Authority {
    fn replica(&self) -> (res: Self) {
        match self {
            Authority::Paired => Authority::Paired,
            Authority::LocalLead { token, principal } => Authority::LocalLead {
                token: token.replica(),
                principal: principal.replica(),
            },
        }
    }
}

impl Clone for Authority {
    fn clone(&self) -> (res: Self)
        ensures
            res.deep_view() == self.deep_view(),
    {
        self.replica()
    }
}

/// Whoever is behind a request.
#[derive(Debug)]
pub struct WorkActor {
    id: String,
    authority: Authority,
}

/// The value of a `WorkActor`.
#[verifier::ext_equal]
pub struct WorkActorModel {
    pub id: Text,
    pub authority: AuthorityModel,
}

impl DeepView for WorkActor {
    type V = WorkActorModel;

    closed spec fn deep_view(&self) -> WorkActorModel {
        WorkActorModel { id: self.id.deep_view(), authority: self.authority.deep_view() }
    }
}

/// Leave to commit one action. It is given by an actor's authority alone.
#[derive(Debug)]
pub struct Commit {
    actor: String,
    fence: Option<DelegationFence>,
}

/// The value of a `Commit`.
#[verifier::ext_equal]
pub struct CommitModel {
    pub actor: Text,
    pub fence: Option<DelegationFenceModel>,
}

impl DeepView for Commit {
    type V = CommitModel;

    closed spec fn deep_view(&self) -> CommitModel {
        CommitModel { actor: self.actor.deep_view(), fence: self.fence.deep_view() }
    }
}

/// What a coordinator sees of a child.
#[derive(Debug)]
pub enum ChildRecord {
    Task { task: Task, cursor: u64 },
    Record(ShownRecord),
    Page(RecordPage),
}

/// The value of a `ChildRecord`.
#[verifier::ext_equal]
pub enum ChildRecordModel {
    Task { task: TaskModel, cursor: u64 },
    Record(ShownRecordModel),
    Page(RecordPageModel),
}

impl DeepView for ChildRecord {
    type V = ChildRecordModel;

    open spec fn deep_view(&self) -> ChildRecordModel {
        match self {
            ChildRecord::Task { task, cursor } => ChildRecordModel::Task {
                task: task.deep_view(),
                cursor: *cursor,
            },
            ChildRecord::Record(value) => ChildRecordModel::Record(value.deep_view()),
            ChildRecord::Page(value) => ChildRecordModel::Page(value.deep_view()),
        }
    }
}

/// How far a request for a child has come before anything is written.
#[derive(Debug)]
pub enum ChildPlan {
    /// It was carried out before.
    Replayed(Mutation<Task>),
    /// The child's prompt is to be rendered with these inputs first.
    Render { input: CreateTask, inputs: Vec<FrozenInputRef> },
}

/// The value of a `ChildPlan`.
#[verifier::ext_equal]
pub enum ChildPlanModel {
    Replayed(MutationModel<TaskModel>),
    Render { input: CreateTaskModel, inputs: Seq<FrozenInputRefModel> },
}

impl DeepView for ChildPlan {
    type V = ChildPlanModel;

    open spec fn deep_view(&self) -> ChildPlanModel {
        match self {
            ChildPlan::Replayed(value) => ChildPlanModel::Replayed(value.deep_view()),
            ChildPlan::Render { input, inputs } => ChildPlanModel::Render {
                input: input.deep_view(),
                inputs: inputs.deep_view(),
            },
        }
    }
}

/// Identifiers for the records that one step may write.
#[derive(Debug)]
pub struct Ids {
    pub first: String,
    pub second: String,
    pub third: String,
    pub fourth: String,
}

/// The value of an `Ids`.
#[verifier::ext_equal]
pub struct IdsModel {
    pub first: Text,
    pub second: Text,
    pub third: Text,
    pub fourth: Text,
}

impl DeepView for Ids {
    type V = IdsModel;

    open spec fn deep_view(&self) -> IdsModel {
        IdsModel {
            first: self.first.deep_view(),
            second: self.second.deep_view(),
            third: self.third.deep_view(),
            fourth: self.fourth.deep_view(),
        }
    }
}

impl Ids {
    /// New identifiers.
    pub fn fresh() -> (res: Ids)
        ensures
            is_uuid(res.first@),
            is_uuid(res.second@),
            is_uuid(res.third@),
            is_uuid(res.fourth@),
    {
        Ids { first: new_id(), second: new_id(), third: new_id(), fourth: new_id() }
    }
}

/// The grants once a coordinator's process was looked at, and whether it may go on. A process that
/// has exited loses its coordination; only one that is seen alive may go on.
pub open spec fn looked_at(actor: WorkActorModel, grants: Seq<GrantModel>, seen: Observation) -> (
    Seq<GrantModel>,
    WorkResult<()>,
) {
    match actor.authority {
        AuthorityModel::Paired => (grants, Ok(())),
        AuthorityModel::LocalLead { token: _, principal } => match seen {
            Observation::Live => (grants, Ok(())),
            Observation::Exited => (
                invalidated(grants, principal.scope, principal.fence),
                refused(FailureCode::NotReady),
            ),
            _ => (grants, refused(FailureCode::NotReady)),
        },
    }
}

/// Leave to commit in a session: a device that may still act, or a lead whose grant and fence are
/// the ones that it began with and are in force.
pub open spec fn admitted(
    actor: WorkActorModel,
    grants: Seq<GrantModel>,
    s: StoreModel,
    session: Text,
    at: Moment,
) -> WorkResult<CommitModel> {
    match actor.authority {
        AuthorityModel::Paired => match at.device {
            Err(error) => Err(error),
            Ok(_) => Ok(CommitModel { actor: actor.id, fence: None }),
        },
        AuthorityModel::LocalLead { token, principal } => match delegated(grants, token, at.now) {
            Err(error) => Err(error),
            Ok(current) => if current.scope != principal.scope || current.fence != principal.fence
                || current.scope.session_id != session {
                refused(FailureCode::ScopeMismatch)
            } else {
                match controlled(s, session, current.fence) {
                    Err(error) => Err(error),
                    Ok(_) => Ok(
                        CommitModel { actor: current.actor_id, fence: Some(current.fence) },
                    ),
                }
            },
        },
    }
}

/// Leave to commit once a coordinator's process was looked at.
pub open spec fn cleared_to_act(
    actor: WorkActorModel,
    grants: Seq<GrantModel>,
    s: StoreModel,
    session: Text,
    at: Moment,
) -> WorkResult<CommitModel> {
    match looked_at(actor, grants, at.seen).1 {
        Err(error) => Err(error),
        Ok(_) => admitted(actor, looked_at(actor, grants, at.seen).0, s, session, at),
    }
}

/// What a coordinator sees of a child.
pub open spec fn child_read(
    s: StoreModel,
    session: Text,
    fence: Option<DelegationFenceModel>,
    request: ChildReadRequestModel,
) -> WorkResult<ChildRecordModel> {
    match fence {
        None => refused(FailureCode::ScopeMismatch),
        Some(fence) => match governs_id(s, session, fence, request.task_id) {
            Err(error) => Err(error),
            Ok(_) => match request.kind {
                None => if request.record_id is Some || request.snapshot_revision is Some
                    || request.after_id is Some {
                    refused(FailureCode::InvalidInput)
                } else {
                    match detail_of(s, session, request.task_id) {
                        Err(error) => Err(error),
                        Ok(detail) => Ok(
                            ChildRecordModel::Task { task: detail.task, cursor: detail.cursor },
                        ),
                    }
                },
                Some(kind) => match request.record_id {
                    Some(id) => if request.snapshot_revision is Some || request.after_id is Some {
                        refused(FailureCode::InvalidInput)
                    } else {
                        match immutable_record_of(s, session, request.task_id, kind, id) {
                            Err(error) => Err(error),
                            Ok(record) => Ok(ChildRecordModel::Record(record)),
                        }
                    },
                    None => match request.snapshot_revision {
                        None => refused(FailureCode::InvalidInput),
                        Some(revision) => match records_paged(
                            s,
                            session,
                            request.task_id,
                            kind,
                            revision,
                            request.after_id,
                            CHILD_PAGE,
                        ) {
                            Err(error) => Err(error),
                            Ok(page) => Ok(ChildRecordModel::Page(page)),
                        },
                    },
                },
            },
        },
    }
}

/// The records on one page of a child.
pub const CHILD_PAGE: u32 = 20;

/// The task that a coordinator's request for a child comes to: in its own repository, below its own
/// task.
pub open spec fn child_of(parent: TaskModel, request: CreateChildRequestModel) -> CreateTaskModel {
    CreateTaskModel {
        repo_path: parent.repo_path,
        title: request.title,
        brief: request.brief,
        parent_task_id: Some(parent.id),
        policy: request.policy,
    }
}

/// How far a request for a child comes before anything is written.
pub open spec fn child_planned(
    s: StoreModel,
    session: Text,
    commit: CommitModel,
    request: CreateChildRequestModel,
    now: i64,
) -> WorkResult<ChildPlanModel> {
    match commit.fence {
        None => refused(FailureCode::ScopeMismatch),
        Some(fence) => match detail_of(s, session, fence.coordinator_task_id) {
            Err(error) => Err(error),
            Ok(detail) => {
                let input = child_of(detail.task, request);
                match delegated_create_replayed(
                    s,
                    commit.actor,
                    session,
                    request.request_key,
                    input,
                    request.input_refs,
                    (DelegatedCreateModel {
                        fence,
                        expected_parent_revision: request.expected_parent_revision,
                        dependencies: request.dependencies,
                    }),
                ) {
                    Err(error) => Err(error),
                    Ok(Some(found)) => Ok(ChildPlanModel::Replayed(found)),
                    Ok(None) => match delegated_inputs(
                        s,
                        commit.actor,
                        session,
                        fence,
                        None,
                        request.input_refs,
                        now,
                    ) {
                        Err(error) => Err(error),
                        Ok(inputs) => Ok(ChildPlanModel::Render { input, inputs }),
                    },
                }
            },
        },
    }
}

/// The scope of a local lead.
pub open spec fn lead_scope(actor: WorkActorModel) -> WorkResult<ScopeModel> {
    match actor.authority {
        AuthorityModel::LocalLead { token: _, principal } => Ok(principal.scope),
        AuthorityModel::Paired => refused(FailureCode::ScopeMismatch),
    }
}

/// The operation that a fence means to act on.
pub open spec fn aimed(
    op: OperationModel,
    kind: OperationKind,
    fence: Option<DelegationFenceModel>,
) -> WorkResult<
    Option<OperationTargetModel>,
> {
    match fence {
        None => Ok(None),
        Some(fence) => match op.attempt_id {
            None => refused(FailureCode::ScopeMismatch),
            Some(attempt_id) => Ok(
                Some(OperationTargetModel { task_id: op.task_id, attempt_id, kind, fence }),
            ),
        },
    }
}

/// What becomes of an operation that goes on: it is begun, or its dispatch is claimed.
pub open spec fn advanced(
    s: StoreModel,
    fact_id: Text,
    session: Text,
    op: OperationModel,
    dispatch: bool,
    fence: Option<DelegationFenceModel>,
    now: i64,
) -> WorkResult<(StoreModel, OperationModel)> {
    if dispatch {
        match aimed(op, OperationKind::StartAttempt, fence) {
            Err(error) => Err(error),
            Ok(target) => dispatch_outcome(s, fact_id, session, op.id, target, now),
        }
    } else {
        match aimed(op, op.kind, fence) {
            Err(error) => Err(error),
            Ok(target) => begin_outcome(s, fact_id, session, op.id, target, now),
        }
    }
}

/// Whether the next native effect of an operation is allowed. A paired device needs no more than
/// the operation; a lead has to hold it still.
pub open spec fn effect_allowed(
    s: StoreModel,
    session: Text,
    op: OperationModel,
    fence: Option<DelegationFenceModel>,
) -> WorkResult<()> {
    match fence {
        None => refused(FailureCode::ScopeMismatch),
        Some(fence) => match loaded::<Operation>(s, session, op.id) {
            Err(error) => Err(error),
            Ok(current) => match governs_id(s, session, fence, current.task_id) {
                Err(error) => Err(error),
                Ok(_) => if current.delegation_fence != Some(fence) || current.task_id != op.task_id
                    || current.attempt_id != op.attempt_id || current.state
                    != OperationState::Submitting {
                    refused(FailureCode::ScopeMismatch)
                } else {
                    match loaded::<Task>(s, session, op.task_id) {
                        Err(error) => Err(error),
                        Ok(task) => launchable(s, task.session_id, task, Seq::empty()),
                    }
                },
            },
        },
    }
}

/// Whether an actor may cause the next native effect of an operation.
#[verifier::opaque]
pub open spec fn next_effect(
    actor: WorkActorModel,
    grants: Seq<GrantModel>,
    s: StoreModel,
    session: Text,
    op: OperationModel,
    at: Moment,
) -> WorkResult<()> {
    if actor.authority is Paired {
        Ok(())
    } else {
        match cleared_to_act(actor, grants, s, session, at) {
            Err(error) => Err(error),
            Ok(commit) => effect_allowed(s, session, op, commit.fence),
        }
    }
}

/// The inputs that a delivery may name.
pub open spec fn inputs_seen(
    s: StoreModel,
    session: Text,
    commit: CommitModel,
    task: TaskModel,
    refs: Seq<InputRefModel>,
    now: i64,
) -> WorkResult<Seq<FrozenInputRefModel>> {
    match commit.fence {
        Some(fence) => delegated_inputs(
            s,
            commit.actor,
            session,
            fence,
            Some(task.id),
            refs,
            now,
        ),
        None => inputs_resolved(
            s,
            commit.actor,
            session,
            task.repo_path,
            Some(task.id),
            refs,
            now,
        ),
    }
}

/// The detail of a task that an actor may see.
pub open spec fn detail_seen(
    s: StoreModel,
    session: Text,
    fence: Option<DelegationFenceModel>,
    task: Text,
) -> WorkResult<TaskDetailModel> {
    match fence {
        None => detail_of(s, session, task),
        Some(fence) => match governs_id(s, session, fence, task) {
            Err(error) => Err(error),
            Ok(_) => detail_of(s, session, task),
        },
    }
}

/// The start that a request comes to.
pub open spec fn start_of(
    commit: CommitModel,
    session: Text,
    task: Text,
    request: StartRequestModel,
    digest: Text,
) -> StartModel {
    StartModel {
        actor: commit.actor,
        session,
        task_id: task,
        key: request.request_key,
        expected_revision: request.expected_revision,
        input: NewAttemptModel { agent_kind: request.agent_kind, role: request.role },
        digest,
    }
}

/// The delivery that a request comes to.
pub open spec fn delivery_of(
    commit: CommitModel,
    session: Text,
    task: Text,
    attempt: Text,
    request: DeliveryRequestModel,
    instructions: Text,
) -> DeliveryModel {
    DeliveryModel {
        actor: commit.actor,
        session,
        task_id: task,
        attempt_id: attempt,
        key: request.request_key,
        expected_revision: request.expected_revision,
        expected_instance: request.expected_instance_id,
        text: request.text,
        instruction_version: Some(instructions),
        input_refs: request.input_refs,
    }
}

impl WorkActor {
    /// The local lead that bears a token.
    pub fn local_lead(registry: &Registry, token: String, now: i64) -> (res: WorkResult<WorkActor>)
        ensures
            shown(res) == (match delegated(registry@, token@, now) {
                Err(error) => Err(error),
                Ok(principal) => Ok(
                    (WorkActorModel {
                        id: principal.actor_id,
                        authority: AuthorityModel::LocalLead { token: token@, principal },
                    }),
                ),
            }),
    {
        let principal = registry.authorize_delegation(token.as_str(), now)?;
        Ok(
            WorkActor {
                id: principal.actor_id.replica(),
                authority: Authority::LocalLead { token, principal },
            },
        )
    }

    /// The paired device that a request's token names, which has to be the one that is expected.
    pub fn paired(identified: Option<&str>, expected_actor: &str) -> (res: WorkResult<WorkActor>)
        ensures
            shown(res) == (if identified.deep_view() == Some(expected_actor@) {
                Ok(
                    (WorkActorModel {
                        id: expected_actor@,
                        authority: AuthorityModel::Paired,
                    }),
                )
            } else {
                refused(FailureCode::ScopeMismatch)
            }),
    {
        let known = match identified {
            Some(id) => text_eq(id, expected_actor),
            None => false,
        };
        if !known {
            return refuse(FailureCode::ScopeMismatch);
        }
        Ok(WorkActor { id: expected_actor.to_string(), authority: Authority::Paired })
    }

    /// The name under which an actor acts.
    pub fn id(&self) -> (res: &str)
        ensures
            res@ == self.deep_view().id,
    {
        self.id.as_str()
    }

    /// Whether an actor is a local lead.
    pub fn is_local(&self) -> (res: bool)
        ensures
            res == self.deep_view().authority is LocalLead,
    {
        match &self.authority {
            Authority::LocalLead { .. } => true,
            Authority::Paired => false,
        }
    }

    /// The scope of a local lead.
    pub fn local_scope(&self) -> (res: WorkResult<Scope>)
        ensures
            shown(res) == lead_scope(self.deep_view()),
    {
        match &self.authority {
            Authority::LocalLead { token: _, principal } => Ok(principal.scope.replica()),
            Authority::Paired => refuse(FailureCode::ScopeMismatch),
        }
    }

    /// Whether an actor is the one that is expected.
    pub fn assert_actor(&self, expected: &str) -> (res: WorkResult<()>)
        ensures
            res == (if self.deep_view().id == expected@ {
                Ok(())
            } else {
                refused(FailureCode::ScopeMismatch)
            }),
    {
        if !text_eq(self.id.as_str(), expected) {
            return refuse(FailureCode::ScopeMismatch);
        }
        Ok(())
    }

    /// Takes note of what a look at a coordinator's process came to.
    pub fn observe_controller(
        &self,
        registry: &mut Registry,
        seen: Observation,
    ) -> (res: WorkResult<
        (),
    >)
        ensures
            final(registry)@ == looked_at(self.deep_view(), old(registry)@, seen).0,
            res == looked_at(self.deep_view(), old(registry)@, seen).1,
    {
        match &self.authority {
            Authority::Paired => Ok(()),
            Authority::LocalLead { token: _, principal } => match seen {
                Observation::Live => Ok(()),
                Observation::Exited => {
                    registry.invalidate_delegation(&principal.scope, &principal.fence);
                    refuse(FailureCode::NotReady)
                },
                _ => refuse(FailureCode::NotReady),
            },
        }
    }

    /// Whether a human's action may be committed. A lead never commits in a human's stead.
    pub fn commit(&self, device: WorkResult<()>) -> (res: WorkResult<()>)
        ensures
            res == (match self.deep_view().authority {
                AuthorityModel::LocalLead { .. } => refused(FailureCode::ScopeMismatch),
                AuthorityModel::Paired => device,
            }),
    {
        match &self.authority {
            Authority::LocalLead { .. } => refuse(FailureCode::ScopeMismatch),
            Authority::Paired => device,
        }
    }

    fn scoped(&self, registry: &Registry, store: &WorkStore, session: &str, at: &Moment) -> (res:
        WorkResult<Commit>)
        ensures
            shown(res) == admitted(self.deep_view(), registry@, store@, session@, *at),
    {
        match &self.authority {
            Authority::Paired => {
                at.device?;
                Ok(Commit { actor: self.id.replica(), fence: None })
            },
            Authority::LocalLead { token, principal } => {
                let current = registry.authorize_delegation(token.as_str(), at.now)?;
                if !current.scope.same(&principal.scope) || !current.fence.same(&principal.fence)
                    || !text_eq(current.scope.session_id.as_str(), session) {
                    return refuse(FailureCode::ScopeMismatch);
                }
                store.assert_delegation_authority(session, &current.fence, None)?;
                Ok(Commit { actor: current.actor_id, fence: Some(current.fence) })
            },
        }
    }

    fn observed_scope(
        &self,
        registry: &mut Registry,
        store: &WorkStore,
        session: &str,
        at: &Moment,
    ) -> (res: WorkResult<Commit>)
        ensures
            final(registry)@ == looked_at(self.deep_view(), old(registry)@, at.seen).0,
            shown(res) == cleared_to_act(
                self.deep_view(),
                old(registry)@,
                store@,
                session@,
                *at,
            ),
    {
        self.observe_controller(registry, at.seen)?;
        self.scoped(registry, store, session, at)
    }

    /// What a coordinator sees of a child.
    pub fn read_child(
        &self,
        registry: &Registry,
        store: &WorkStore,
        session: &str,
        request: &ChildReadRequest,
        at: &Moment,
    ) -> (res: WorkResult<ChildRecord>)
        ensures
            shown(res) == (match admitted(self.deep_view(), registry@, store@, session@, *at) {
                Err(error) => Err(error),
                Ok(commit) => child_read(store@, session@, commit.fence, request.deep_view()),
            }),
    {
        let commit = self.scoped(registry, store, session, at)?;
        let fence = match &commit.fence {
            Some(fence) => fence,
            None => {
                return refuse(FailureCode::ScopeMismatch);
            },
        };
        let task_id = request.task_id.as_str();
        store.assert_delegation_authority(session, fence, Some(task_id))?;
        match (&request.kind, &request.record_id) {
            (None, None) => {
                if request.snapshot_revision.is_some() || request.after_id.is_some() {
                    return refuse(FailureCode::InvalidInput);
                }
                let detail = store.detail(session, task_id)?;
                Ok(ChildRecord::Task { task: detail.task, cursor: detail.cursor })
            },
            (None, Some(_)) => refuse(FailureCode::InvalidInput),
            (Some(kind), Some(id)) => {
                if request.snapshot_revision.is_some() || request.after_id.is_some() {
                    return refuse(FailureCode::InvalidInput);
                }
                let record = store.immutable_record(session, task_id, kind.as_str(), id.as_str())?;
                Ok(ChildRecord::Record(record))
            },
            (Some(kind), None) => {
                let revision: u64 = match request.snapshot_revision {
                    Some(revision) => revision,
                    None => {
                        return refuse(FailureCode::InvalidInput);
                    },
                };
                let after = match &request.after_id {
                    Some(id) => Some(id.as_str()),
                    None => None,
                };
                let page = store.task_records(
                    session,
                    task_id,
                    kind.as_str(),
                    revision,
                    after,
                    CHILD_PAGE,
                )?;
                Ok(ChildRecord::Page(page))
            },
        }
    }

    /// Whether an actor may cause the next native effect of an operation.
    pub fn authorize_next_effect(
        &self,
        registry: &mut Registry,
        store: &WorkStore,
        session: &str,
        operation: &Operation,
        at: &Moment,
    ) -> (res: WorkResult<()>)
        ensures
            final(registry)@ == looked_at(self.deep_view(), old(registry)@, at.seen).0,
            res == next_effect(
                self.deep_view(),
                old(registry)@,
                store@,
                session@,
                operation.deep_view(),
                *at,
            ),
    {
        reveal(next_effect);
        if !self.is_local() {
            return Ok(());
        }
        let commit = self.observed_scope(registry, store, session, at)?;
        let fence = match &commit.fence {
            Some(fence) => fence,
            None => {
                return refuse(FailureCode::ScopeMismatch);
            },
        };
        let current = store.get_delegated_operation(session, fence, operation.id.as_str())?;
        let held = match &current.delegation_fence {
            Some(own) => own.same(fence),
            None => false,
        };
        if !held || !current.task_id.same(&operation.task_id) || !current.attempt_id.same(
            &operation.attempt_id,
        ) || current.state != OperationState::Submitting {
            return refuse(FailureCode::ScopeMismatch);
        }
        store.assert_launch_allowed(session, operation.task_id.as_str())
    }

    /// The receipt of a coordinator's request.
    pub fn child_receipt(
        &self,
        registry: &Registry,
        store: &WorkStore,
        session: &str,
        kind: OperationKind,
        key: &str,
        at: &Moment,
    ) -> (res: WorkResult<RequestReceipt>)
        ensures
            shown(res) == (match admitted(self.deep_view(), registry@, store@, session@, *at) {
                Err(error) => Err(error),
                Ok(commit) => match commit.fence {
                    None => refused(FailureCode::ScopeMismatch),
                    Some(fence) => delegated_receipt_of(
                        store@,
                        commit.actor,
                        session@,
                        fence,
                        kind,
                        key@,
                    ),
                },
            }),
    {
        let commit = self.scoped(registry, store, session, at)?;
        match &commit.fence {
            Some(fence) => store.get_delegated_receipt(
                commit.actor.as_str(),
                session,
                fence,
                kind,
                key,
            ),
            None => refuse(FailureCode::ScopeMismatch),
        }
    }

    /// An operation below a coordinator's task.
    pub fn child_operation(
        &self,
        registry: &Registry,
        store: &WorkStore,
        session: &str,
        id: &str,
        at: &Moment,
    ) -> (res: WorkResult<Operation>)
        ensures
            shown(res) == (match admitted(self.deep_view(), registry@, store@, session@, *at) {
                Err(error) => Err(error),
                Ok(commit) => match commit.fence {
                    None => refused(FailureCode::ScopeMismatch),
                    Some(fence) => match loaded::<Operation>(store@, session@, id@) {
                        Err(error) => Err(error),
                        Ok(op) => match governs_id(store@, session@, fence, op.task_id) {
                            Err(error) => Err(error),
                            Ok(_) => Ok(op),
                        },
                    },
                },
            }),
    {
        let commit = self.scoped(registry, store, session, at)?;
        match &commit.fence {
            Some(fence) => store.get_delegated_operation(session, fence, id),
            None => refuse(FailureCode::ScopeMismatch),
        }
    }

    /// The answer to a request for prerequisites that was carried out before.
    pub fn replay_child_dependencies(
        &self,
        registry: &Registry,
        store: &WorkStore,
        task_id: &str,
        request: &DependencyUpdateRequest,
        at: &Moment,
    ) -> (res: WorkResult<Option<Mutation<Task>>>)
        ensures
            shown(res) == (match lead_scope(self.deep_view()) {
                Err(error) => Err(error),
                Ok(scope) => match admitted(
                    self.deep_view(),
                    registry@,
                    store@,
                    scope.session_id,
                    *at,
                ) {
                    Err(error) => Err(error),
                    Ok(commit) => match commit.fence {
                        None => refused(FailureCode::ScopeMismatch),
                        Some(fence) => match governs_id(
                            store@,
                            scope.session_id,
                            fence,
                            task_id@,
                        ) {
                            Err(error) => Err(error),
                            Ok(_) => repeated(
                                replayed::<Task>(
                                    store@,
                                    dependencies_request(
                                        commit.actor,
                                        scope.session_id,
                                        task_id@,
                                        request.request_key@,
                                        request.expected_revision,
                                        request.dependencies.deep_view(),
                                        Some(fence),
                                    ),
                                ),
                            ),
                        },
                    },
                },
            }),
    {
        let scope = self.local_scope()?;
        let session = scope.session_id.as_str();
        let commit = self.scoped(registry, store, session, at)?;
        match &commit.fence {
            Some(fence) => store.replay_delegated_dependencies(
                commit.actor.as_str(),
                session,
                task_id,
                request.request_key.as_str(),
                request.expected_revision,
                request.dependencies.as_slice(),
                fence,
            ),
            None => refuse(FailureCode::ScopeMismatch),
        }
    }

    /// Gives a child its prerequisites, once its coordinator is seen alive.
    pub fn set_child_dependencies(
        &self,
        registry: &mut Registry,
        store: &mut WorkStore,
        ids: &Ids,
        task_id: &str,
        request: DependencyUpdateRequest,
        at: &Moment,
    ) -> (res: WorkResult<Mutation<Task>>)
        ensures
            final(registry)@ == (if lead_scope(self.deep_view()) is Err {
                old(registry)@
            } else {
                looked_at(self.deep_view(), old(registry)@, at.seen).0
            }),
            commits(
                old(store)@,
                final(store)@,
                child_dependencies_set(
                    self.deep_view(),
                    old(registry)@,
                    old(store)@,
                    ids.first@,
                    task_id@,
                    request.deep_view(),
                    *at,
                ),
                shown(res),
            ),
    {
        let scope = self.local_scope()?;
        let session = scope.session_id.as_str();
        let commit = self.observed_scope(registry, store, session, at)?;
        match &commit.fence {
            Some(fence) => store.set_dependencies_as(
                ids.first.as_str(),
                commit.actor.as_str(),
                session,
                task_id,
                request.request_key.as_str(),
                request.expected_revision,
                request.dependencies,
                Some(fence),
                at.now,
            ),
            None => refuse(FailureCode::ScopeMismatch),
        }
    }

    /// How far a request for a child comes before anything is written.
    pub fn plan_child(
        &self,
        registry: &Registry,
        store: &WorkStore,
        request: &CreateChildRequest,
        at: &Moment,
    ) -> (res: WorkResult<ChildPlan>)
        ensures
            shown(res) == (match lead_scope(self.deep_view()) {
                Err(error) => Err(error),
                Ok(scope) => match admitted(
                    self.deep_view(),
                    registry@,
                    store@,
                    scope.session_id,
                    *at,
                ) {
                    Err(error) => Err(error),
                    Ok(commit) => child_planned(
                        store@,
                        scope.session_id,
                        commit,
                        request.deep_view(),
                        at.now,
                    ),
                },
            }),
    {
        let scope = self.local_scope()?;
        let session = scope.session_id.as_str();
        let commit = self.scoped(registry, store, session, at)?;
        let fence = match &commit.fence {
            Some(fence) => fence,
            None => {
                return refuse(FailureCode::ScopeMismatch);
            },
        };
        let parent = store.detail(session, fence.coordinator_task_id.as_str())?.task;
        let input = CreateTask {
            repo_path: parent.repo_path,
            title: request.title.replica(),
            brief: request.brief.replica(),
            parent_task_id: Some(parent.id),
            policy: request.policy.replica(),
        };
        let found = store.replay_delegated_create_with_inputs(
            commit.actor.as_str(),
            session,
            request.request_key.as_str(),
            fence,
            request.expected_parent_revision,
            &input,
            request.dependencies.as_slice(),
            request.input_refs.as_slice(),
        )?;
        if let Some(found) = found {
            return Ok(ChildPlan::Replayed(found));
        }
        let inputs = store.resolve_delegated_inputs(
            commit.actor.as_str(),
            session,
            fence,
            None,
            request.input_refs.as_slice(),
            at.now,
        )?;
        Ok(ChildPlan::Render { input, inputs })
    }

    /// Creates a child whose prompt was rendered, once its coordinator is seen alive.
    pub fn create_child(
        &self,
        registry: &mut Registry,
        store: &mut WorkStore,
        request: CreateChildRequest,
        input: CreateTask,
        at: &Moment,
    ) -> (res: WorkResult<Mutation<Task>>)
        ensures
            match lead_scope(self.deep_view()) {
                Err(error) => shown(res) == Err::<MutationModel<TaskModel>, WorkError>(error)
                    && final(store)@ == old(store)@ && final(registry)@ == old(registry)@,
                Ok(scope) => final(registry)@ == looked_at(
                    self.deep_view(),
                    old(registry)@,
                    at.seen,
                ).0 && match cleared_to_act(
                    self.deep_view(),
                    old(registry)@,
                    old(store)@,
                    scope.session_id,
                    *at,
                ) {
                    Err(error) => shown(res) == Err::<MutationModel<TaskModel>, WorkError>(error)
                        && final(store)@ == old(store)@,
                    Ok(commit) => match commit.fence {
                        None => shown(res) == refused::<MutationModel<TaskModel>>(
                            FailureCode::ScopeMismatch,
                        ) && final(store)@ == old(store)@,
                        Some(fence) => creation_commits(
                            old(store)@,
                            final(store)@,
                            commit.actor,
                            scope.session_id,
                            request.request_key@,
                            input.deep_view(),
                            request.input_refs.deep_view(),
                            Some(
                                (DelegatedCreateModel {
                                    fence,
                                    expected_parent_revision: request.expected_parent_revision,
                                    dependencies: request.dependencies.deep_view(),
                                }),
                            ),
                            at.now,
                            shown(res),
                        ),
                    },
                },
            },
    {
        let scope = self.local_scope()?;
        let session = scope.session_id.as_str();
        let commit = self.observed_scope(registry, store, session, at)?;
        match &commit.fence {
            Some(fence) => store.create_delegated_task_with_inputs(
                commit.actor.as_str(),
                session,
                request.request_key.as_str(),
                fence,
                request.expected_parent_revision,
                input,
                request.dependencies,
                request.input_refs,
                at.now,
            ),
            None => refuse(FailureCode::ScopeMismatch),
        }
    }

    /// The detail of a task that an actor may see.
    pub fn detail(
        &self,
        registry: &Registry,
        store: &WorkStore,
        session: &str,
        task: &str,
        at: &Moment,
    ) -> (res: WorkResult<TaskDetail>)
        ensures
            shown(res) == (match admitted(self.deep_view(), registry@, store@, session@, *at) {
                Err(error) => Err(error),
                Ok(commit) => detail_seen(store@, session@, commit.fence, task@),
            }),
    {
        let commit = self.scoped(registry, store, session, at)?;
        if let Some(fence) = &commit.fence {
            store.assert_delegation_authority(session, fence, Some(task))?;
        }
        store.detail(session, task)
    }

    /// The inputs that a delivery to a task may name.
    pub fn inputs(
        &self,
        registry: &Registry,
        store: &WorkStore,
        session: &str,
        task: &Task,
        refs: &[InputRef],
        at: &Moment,
    ) -> (res: WorkResult<Vec<FrozenInputRef>>)
        ensures
            shown(res) == (match admitted(self.deep_view(), registry@, store@, session@, *at) {
                Err(error) => Err(error),
                Ok(commit) => inputs_seen(
                    store@,
                    session@,
                    commit,
                    task.deep_view(),
                    refs.deep_view(),
                    at.now,
                ),
            }),
    {
        let commit = self.scoped(registry, store, session, at)?;
        match &commit.fence {
            Some(fence) => store.resolve_delegated_inputs(
                commit.actor.as_str(),
                session,
                fence,
                Some(task.id.as_str()),
                refs,
                at.now,
            ),
            None => store.resolve_inputs(
                commit.actor.as_str(),
                session,
                task.repo_path.as_str(),
                Some(task.id.as_str()),
                refs,
                at.now,
            ),
        }
    }

    /// Records the intent to start an attempt, once a coordinator is seen alive.
    pub fn prepare_start(
        &self,
        registry: &mut Registry,
        store: &mut WorkStore,
        ids: &Ids,
        session: &str,
        task: &str,
        request: &StartRequest,
        digest: &str,
        at: &Moment,
    ) -> (res: WorkResult<Mutation<Operation>>)
        ensures
            final(registry)@ == looked_at(self.deep_view(), old(registry)@, at.seen).0,
            commits(
                old(store)@,
                final(store)@,
                start_prepared(
                    self.deep_view(),
                    old(registry)@,
                    old(store)@,
                    ids.deep_view(),
                    session@,
                    task@,
                    request.deep_view(),
                    digest@,
                    *at,
                ),
                shown(res),
            ),
    {
        reveal(start_prepared);
        let commit = self.observed_scope(registry, store, session, at)?;
        let input = NewAttempt { agent_kind: request.agent_kind.replica(), role: request.role };
        let d = Start {
            actor: commit.actor.as_str(),
            session,
            task_id: task,
            key: request.request_key.as_str(),
            expected_revision: request.expected_revision,
            input: &input,
            digest,
        };
        store.prepare_attempt_as(
            ids.first.as_str(),
            ids.second.as_str(),
            ids.third.as_str(),
            &d,
            commit.fence.replica(),
            at.now,
        )
    }

    /// The answer to a delivery that was carried out before.
    pub fn replay_delivery(
        &self,
        registry: &Registry,
        store: &WorkStore,
        session: &str,
        task: &str,
        attempt: &str,
        request: &DeliveryRequest,
        instructions: &str,
        at: &Moment,
    ) -> (res: WorkResult<Option<Mutation<Operation>>>)
        ensures
            shown(res) == (match admitted(self.deep_view(), registry@, store@, session@, *at) {
                Err(error) => Err(error),
                Ok(commit) => redelivered(
                    store@,
                    delivery_of(
                        commit,
                        session@,
                        task@,
                        attempt@,
                        request.deep_view(),
                        instructions@,
                    ),
                    commit.fence,
                ),
            }),
    {
        let commit = self.scoped(registry, store, session, at)?;
        match &commit.fence {
            Some(fence) => store.replay_delegated_delivery(
                commit.actor.as_str(),
                session,
                task,
                attempt,
                request.request_key.as_str(),
                request.expected_revision,
                request.expected_instance_id.as_str(),
                request.text.as_str(),
                Some(instructions),
                request.input_refs.as_slice(),
                fence,
            ),
            None => store.replay_delivery_with_inputs(
                commit.actor.as_str(),
                session,
                task,
                attempt,
                request.request_key.as_str(),
                request.expected_revision,
                request.expected_instance_id.as_str(),
                request.text.as_str(),
                Some(instructions),
                request.input_refs.as_slice(),
            ),
        }
    }

    /// Records the intent to deliver a prompt, once a coordinator is seen alive.
    pub fn prepare_delivery(
        &self,
        registry: &mut Registry,
        store: &mut WorkStore,
        ids: &Ids,
        session: &str,
        task: &str,
        attempt: &str,
        request: &DeliveryRequest,
        instructions: &str,
        inputs: &[FrozenInputRef],
        digest: &str,
        at: &Moment,
    ) -> (res: WorkResult<Mutation<Operation>>)
        ensures
            final(registry)@ == looked_at(self.deep_view(), old(registry)@, at.seen).0,
            commits(
                old(store)@,
                final(store)@,
                delivery_prepared(
                    self.deep_view(),
                    old(registry)@,
                    old(store)@,
                    ids.first@,
                    session@,
                    task@,
                    attempt@,
                    request.deep_view(),
                    instructions@,
                    inputs.deep_view(),
                    digest@,
                    *at,
                ),
                shown(res),
            ),
    {
        reveal(delivery_prepared);
        let commit = self.observed_scope(registry, store, session, at)?;
        let d = Delivery {
            actor: commit.actor.as_str(),
            session,
            task_id: task,
            attempt_id: attempt,
            key: request.request_key.as_str(),
            expected_revision: request.expected_revision,
            expected_instance: request.expected_instance_id.as_str(),
            text: request.text.as_str(),
            instruction_version: Some(instructions),
            input_refs: request.input_refs.as_slice(),
        };
        let promise = Promise { expected_inputs: inputs, final_prompt_digest: digest };
        store.prepare_delivery_as(
            ids.first.as_str(),
            &d,
            Some(promise),
            commit.fence.replica(),
            at.now,
        )
    }

    /// Takes an operation one step on: begins it, or claims its dispatch.
    pub fn advance(
        &self,
        registry: &mut Registry,
        store: &mut WorkStore,
        ids: &Ids,
        session: &str,
        operation: &Operation,
        dispatch: bool,
        at: &Moment,
    ) -> (res: WorkResult<Operation>)
        ensures
            final(registry)@ == looked_at(self.deep_view(), old(registry)@, at.seen).0,
            commits(
                old(store)@,
                final(store)@,
                step_taken(
                    self.deep_view(),
                    old(registry)@,
                    old(store)@,
                    ids.first@,
                    session@,
                    operation.deep_view(),
                    dispatch,
                    *at,
                ),
                shown(res),
            ),
    {
        reveal(step_taken);
        let commit = self.observed_scope(registry, store, session, at)?;
        let target = match commit.fence {
            Some(fence) => match &operation.attempt_id {
                Some(attempt_id) => Some(
                    OperationTarget {
                        task_id: operation.task_id.replica(),
                        attempt_id: attempt_id.replica(),
                        kind: if dispatch {
                            OperationKind::StartAttempt
                        } else {
                            operation.kind
                        },
                        fence,
                    },
                ),
                None => {
                    return refuse(FailureCode::ScopeMismatch);
                },
            },
            None => None,
        };
        if dispatch {
            store.claim_start_dispatch_as(
                ids.first.as_str(),
                session,
                operation.id.as_str(),
                target,
                at.now,
            )
        } else {
            store.begin_operation_as(
                ids.first.as_str(),
                session,
                operation.id.as_str(),
                target,
                at.now,
            )
        }
    }
}

/// What becomes of prerequisites that a coordinator gives a child.
pub open spec fn child_dependencies_set(
    actor: WorkActorModel,
    grants: Seq<GrantModel>,
    s: StoreModel,
    id: Text,
    task_id: Text,
    request: DependencyUpdateRequestModel,
    at: Moment,
) -> WorkResult<(StoreModel, MutationModel<TaskModel>)> {
    match lead_scope(actor) {
        Err(error) => Err(error),
        Ok(scope) => match cleared_to_act(actor, grants, s, scope.session_id, at) {
            Err(error) => Err(error),
            Ok(commit) => match commit.fence {
                None => refused(FailureCode::ScopeMismatch),
                Some(fence) => dependencies_outcome(
                    s,
                    id,
                    commit.actor,
                    scope.session_id,
                    task_id,
                    request.request_key,
                    request.expected_revision,
                    request.dependencies,
                    Some(fence),
                    at.now,
                ),
            },
        },
    }
}

/// What becomes of the intent to start an attempt.
#[verifier::opaque]
pub open spec fn start_prepared(
    actor: WorkActorModel,
    grants: Seq<GrantModel>,
    s: StoreModel,
    ids: IdsModel,
    session: Text,
    task: Text,
    request: StartRequestModel,
    digest: Text,
    at: Moment,
) -> WorkResult<(StoreModel, MutationModel<OperationModel>)> {
    match cleared_to_act(actor, grants, s, session, at) {
        Err(error) => Err(error),
        Ok(commit) => start_outcome(
            s,
            ids.first,
            ids.second,
            ids.third,
            start_of(commit, session, task, request, digest),
            commit.fence,
            at.now,
        ),
    }
}

/// What becomes of the intent to deliver a prompt.
#[verifier::opaque]
pub open spec fn delivery_prepared(
    actor: WorkActorModel,
    grants: Seq<GrantModel>,
    s: StoreModel,
    id: Text,
    session: Text,
    task: Text,
    attempt: Text,
    request: DeliveryRequestModel,
    instructions: Text,
    inputs: Seq<FrozenInputRefModel>,
    digest: Text,
    at: Moment,
) -> WorkResult<(StoreModel, MutationModel<OperationModel>)> {
    match cleared_to_act(actor, grants, s, session, at) {
        Err(error) => Err(error),
        Ok(commit) => delivery_outcome(
            s,
            id,
            delivery_of(commit, session, task, attempt, request, instructions),
            Some(PromiseModel { expected_inputs: inputs, final_prompt_digest: digest }),
            commit.fence,
            at.now,
        ),
    }
}

/// What becomes of an operation that an actor takes on.
#[verifier::opaque]
pub open spec fn step_taken(
    actor: WorkActorModel,
    grants: Seq<GrantModel>,
    s: StoreModel,
    fact_id: Text,
    session: Text,
    op: OperationModel,
    dispatch: bool,
    at: Moment,
) -> WorkResult<(StoreModel, OperationModel)> {
    match cleared_to_act(actor, grants, s, session, at) {
        Err(error) => Err(error),
        Ok(commit) => advanced(s, fact_id, session, op, dispatch, commit.fence, at.now),
    }
}

/// A lead whose grant was revoked, ran out or was replaced commits nothing: leave is given only to
/// the bearer of a grant that still coordinates under the very fence the lead began with.
pub proof fn leads_commit_only_under_their_fence(
    actor: WorkActorModel,
    grants: Seq<GrantModel>,
    s: StoreModel,
    session: Text,
    at: Moment,
)
    requires
        actor.authority is LocalLead,
    ensures
        admitted(actor, grants, s, session, at) matches Ok(commit) ==> commit.fence == Some(
            actor.authority->principal.fence,
        ) && delegated(grants, actor.authority->token, at.now) is Ok && controlled(
            s,
            session,
            actor.authority->principal.fence,
        ) is Ok && actor.authority->principal.scope.session_id == session,
{
}

/// A device that may no longer act commits nothing.
pub proof fn revoked_devices_commit_nothing(
    actor: WorkActorModel,
    grants: Seq<GrantModel>,
    s: StoreModel,
    session: Text,
    at: Moment,
)
    requires
        actor.authority is Paired,
        at.device is Err,
    ensures
        admitted(actor, grants, s, session, at) is Err,
{
}

/// A coordinator whose process has exited may not go on, and afterwards no token coordinates under
/// its fence.
pub proof fn exited_coordinators_lose_their_fence(
    actor: WorkActorModel,
    grants: Seq<GrantModel>,
    k: int,
)
    requires
        actor.authority is LocalLead,
        0 <= k < grants.len(),
    ensures
        looked_at(actor, grants, Observation::Exited).1 is Err,
        !fenced(
            looked_at(actor, grants, Observation::Exited).0[k],
            actor.authority->principal.scope,
            actor.authority->principal.fence,
        ),
{
}

} // verus!
