//! The start of an attempt, step by step. Each stage names the one thing that is awaited next; the
//! store is written before and after every native effect.
use vstd::prelude::*;
use crate::digest::digest_of;
use crate::digest::digest_text;
use crate::json::ToJson;
use crate::value::Replica;
use crate::value::Same;
use crate::value::Text;
use crate::value::shown;
use crate::work::model::AttemptRole;
use crate::work::model::FailureCode;
use crate::work::model::Mutation;
use crate::work::model::MutationModel;
use crate::work::model::NativeBinding;
use crate::work::model::NativeBindingModel;
use crate::work::model::Operation;
use crate::work::model::OperationModel;
use crate::work::model::OperationState;
use crate::work::model::Task;
use crate::work::model::TaskModel;
use crate::work::model::WorkError;
use crate::work::model::WorkResult;
use crate::work::store::attempts::launch_outcome;
use crate::work::store::attempts::start_refusal_outcome;
use crate::work::store::operations::checkpoint_outcome;
use crate::work::store::records::refuse;
use crate::work::store::records::refused;
use crate::work::store::tables::StoreModel;
use crate::work::store::tables::WorkStore;
use crate::work::store::tasks::detail_of;
use crate::work::store::transaction::after;
use crate::work::store::transaction::answer;
use crate::work::store::transaction::commits;
use crate::work::store::transaction::first_time;
use crate::work_actor::Ids;
use crate::work_actor::IdsModel;
use crate::work_actor::Moment;
use crate::work_actor::looked_at;
use crate::work_actor::next_effect;
use crate::work_actor::start_prepared;
use crate::work_actor::step_taken;
use crate::work_authority::GrantModel;
use crate::work_authority::Registry;
use crate::work_execution::Execution;
use crate::work_execution::ExecutionModel;
use crate::work_execution::NativeAnswer;
use crate::work_execution::NativeAnswerModel;
use crate::work_execution::NativeFailure;
use crate::work_execution::NativeFailureModel;
use crate::work_execution::StartRequest;
use crate::work_execution::StartRequestModel;
use crate::work_execution::check_launch;
use crate::work_execution::checkpoint;
use crate::work_execution::checkpointed;
use crate::work_execution::finish_op;
use crate::work_execution::launch_open;
use crate::work_execution::op_finished;
use crate::work_execution::op_refused;
use crate::work_execution::prepared_refused;
use crate::work_execution::refuse_op;
use crate::work_execution::refuse_prepared;
use crate::work_execution::starting::branches_need_their_worktrees;
use crate::work_execution::told;

verus! {

/// What a native step that yields resources came to.
#[derive(Debug, PartialEq, Eq)]
pub enum BindingReply {
    Bound(NativeBinding),
    Failed(NativeFailure),
}

/// The value of a `BindingReply`.
#[verifier::ext_equal]
pub enum BindingReplyModel {
    Bound(NativeBindingModel),
    Failed(NativeFailureModel),
}

impl DeepView for BindingReply {
    type V = BindingReplyModel;

    open spec fn deep_view(&self) -> BindingReplyModel {
        match self {
            BindingReply::Bound(value) => BindingReplyModel::Bound(value.deep_view()),
            BindingReply::Failed(value) => BindingReplyModel::Failed(value.deep_view()),
        }
    }
}

/// What a native launch came to.
#[derive(Debug, PartialEq, Eq)]
pub enum LaunchReply {
    Launched { binding: NativeBinding, owner_epoch: Option<String> },
    Failed(NativeFailure),
}

/// The value of a `LaunchReply`.
#[verifier::ext_equal]
pub enum LaunchReplyModel {
    Launched { binding: NativeBindingModel, owner_epoch: Option<Text> },
    Failed(NativeFailureModel),
}

impl DeepView for LaunchReply {
    type V = LaunchReplyModel;

    open spec fn deep_view(&self) -> LaunchReplyModel {
        match self {
            LaunchReply::Launched { binding, owner_epoch } => LaunchReplyModel::Launched {
                binding: binding.deep_view(),
                owner_epoch: owner_epoch.deep_view(),
            },
            LaunchReply::Failed(value) => LaunchReplyModel::Failed(value.deep_view()),
        }
    }
}

/// How far a start has come, by what is awaited.
#[derive(Debug)]
pub enum StartStage {
    /// Whether the native side can bind starts and prompts.
    Asked,
    /// A look at the coordinator, before the intent is recorded.
    Supported { digest: String },
    /// Whether the native side is ready for the kind of agent.
    Prepared { op: Operation },
    /// A look at the coordinator, before the operation is begun.
    Preflighted { op: Operation },
    /// Whether the task's prompt can be rendered.
    Begun { op: Operation, task: Task },
    /// A look at the coordinator, before a place is made.
    Rendered { op: Operation, task: Task },
    /// A place for the attempt.
    Cleared { op: Operation, task: Task },
    /// A look at the coordinator, before the place is located.
    Placed { op: Operation },
    /// The pane of the place.
    Recleared { op: Operation },
    /// A look at the coordinator, before the dispatch is claimed.
    Located { op: Operation, pane: String },
    /// The native launch.
    Claimed { op: Operation, pane: String },
}

/// The value of a `StartStage`.
#[verifier::ext_equal]
pub enum StartStageModel {
    Asked,
    Supported { digest: Text },
    Prepared { op: OperationModel },
    Preflighted { op: OperationModel },
    Begun { op: OperationModel, task: TaskModel },
    Rendered { op: OperationModel, task: TaskModel },
    Cleared { op: OperationModel, task: TaskModel },
    Placed { op: OperationModel },
    Recleared { op: OperationModel },
    Located { op: OperationModel, pane: Text },
    Claimed { op: OperationModel, pane: Text },
}

impl DeepView for StartStage {
    type V = StartStageModel;

    open spec fn deep_view(&self) -> StartStageModel {
        match self {
            StartStage::Asked => StartStageModel::Asked,
            StartStage::Supported { digest } => StartStageModel::Supported {
                digest: digest.deep_view(),
            },
            StartStage::Prepared { op } => StartStageModel::Prepared {
                op: op.deep_view(),
            },
            StartStage::Preflighted { op } => StartStageModel::Preflighted {
                op: op.deep_view(),
            },
            StartStage::Begun { op, task } => StartStageModel::Begun {
                op: op.deep_view(),
                task: task.deep_view(),
            },
            StartStage::Rendered { op, task } => StartStageModel::Rendered {
                op: op.deep_view(),
                task: task.deep_view(),
            },
            StartStage::Cleared { op, task } => StartStageModel::Cleared {
                op: op.deep_view(),
                task: task.deep_view(),
            },
            StartStage::Placed { op } => StartStageModel::Placed {
                op: op.deep_view(),
            },
            StartStage::Recleared { op } => StartStageModel::Recleared {
                op: op.deep_view(),
            },
            StartStage::Located { op, pane } => StartStageModel::Located {
                op: op.deep_view(),
                pane: pane.deep_view(),
            },
            StartStage::Claimed { op, pane } => StartStageModel::Claimed {
                op: op.deep_view(),
                pane: pane.deep_view(),
            },
        }
    }
}

/// What came of the thing that was awaited.
#[derive(Debug)]
pub enum StartEvent {
    /// Whether starts are supported, and whether the branch has a valid name where one is given.
    Support { supported: bool, branch_valid: bool },
    /// The coordinator was looked at.
    Observed,
    Preflight { ready: bool },
    Render(WorkResult<()>),
    Place(BindingReply),
    Locate(BindingReply),
    Launch(LaunchReply),
}

/// The value of a `StartEvent`.
#[verifier::ext_equal]
pub enum StartEventModel {
    Support { supported: bool, branch_valid: bool },
    Observed,
    Preflight { ready: bool },
    Render(WorkResult<()>),
    Place(BindingReplyModel),
    Locate(BindingReplyModel),
    Launch(LaunchReplyModel),
}

impl DeepView for StartEvent {
    type V = StartEventModel;

    open spec fn deep_view(&self) -> StartEventModel {
        match self {
            StartEvent::Support { supported, branch_valid } => StartEventModel::Support {
                supported: *supported,
                branch_valid: *branch_valid,
            },
            StartEvent::Observed => StartEventModel::Observed,
            StartEvent::Preflight { ready } => StartEventModel::Preflight {
                ready: *ready,
            },
            StartEvent::Render(value) => StartEventModel::Render(*value),
            StartEvent::Place(value) => StartEventModel::Place(value.deep_view()),
            StartEvent::Locate(value) => StartEventModel::Locate(value.deep_view()),
            StartEvent::Launch(value) => StartEventModel::Launch(value.deep_view()),
        }
    }
}

/// What follows.
#[derive(Debug)]
pub enum StartNext {
    Await(StartStage),
    Finished(WorkResult<Mutation<Operation>>),
}

/// The value of a `StartNext`.
#[verifier::ext_equal]
pub enum StartNextModel {
    Await(StartStageModel),
    Finished(WorkResult<MutationModel<OperationModel>>),
}

impl DeepView for StartNext {
    type V = StartNextModel;

    open spec fn deep_view(&self) -> StartNextModel {
        match self {
            StartNext::Await(value) => StartNextModel::Await(value.deep_view()),
            StartNext::Finished(value) => StartNextModel::Finished(shown(*value)),
        }
    }
}

/// The grants, the store and the next stage after a step.
pub type StartStep = (Seq<GrantModel>, StoreModel, StartNextModel);

/// A start that ends with an error and leaves the store as it is.
pub open spec fn failed(s: StoreModel, code: FailureCode) -> (StoreModel, StartNextModel) {
    (s, StartNextModel::Finished(refused(code)))
}

/// A start that ends with what a transaction gave.
pub open spec fn ended(s: StoreModel, outcome: WorkResult<(StoreModel, OperationModel)>) -> (
    StoreModel,
    StartNextModel,
) {
    (after(s, outcome), StartNextModel::Finished(told(answer(outcome))))
}

/// The start was asked for and the native side answered what it can do.
pub open spec fn support_taken(
    s: StoreModel,
    request: StartRequestModel,
    supported: bool,
    branch_valid: bool,
) -> (StoreModel, StartNextModel) {
    if !supported {
        failed(s, FailureCode::CapabilityUnavailable)
    } else if request.branch_name is Some && !branch_valid {
        failed(s, FailureCode::InvalidInput)
    } else if request.role == AttemptRole::Worker && request.branch_name is None {
        failed(s, FailureCode::InvalidInput)
    } else {
        (
            s,
            StartNextModel::Await(
                StartStageModel::Supported { digest: digest_of(StartRequest::json(request)) },
            ),
        )
    }
}

/// The intent is recorded. A request that was carried out before has no further effect.
pub open spec fn intent_taken(
    s: StoreModel,
    outcome: WorkResult<(StoreModel, MutationModel<OperationModel>)>,
) -> (StoreModel, StartNextModel) {
    (
        after(s, outcome),
        match answer(outcome) {
            Err(error) => StartNextModel::Finished(Err(error)),
            Ok(mutation) => if mutation.replayed {
                StartNextModel::Finished(Ok(mutation))
            } else {
                StartNextModel::Await(StartStageModel::Prepared { op: mutation.value })
            },
        },
    )
}

/// The operation is begun, or refused where it cannot be.
pub open spec fn begin_taken(
    s: StoreModel,
    session: Text,
    task_id: Text,
    prepared: OperationModel,
    outcome: WorkResult<(StoreModel, OperationModel)>,
    now: i64,
) -> (StoreModel, StartNextModel) {
    match outcome {
        Err(error) => ended(s, prepared_refused(s, session, prepared.id, error.0, now)),
        Ok((next, op)) => (
            next,
            match detail_of(next, session, task_id) {
                Err(error) => StartNextModel::Finished(Err(error)),
                Ok(detail) => StartNextModel::Await(
                    StartStageModel::Begun { op, task: detail.task },
                ),
            },
        ),
    }
}

/// The prompt can be rendered and the task may launch.
pub open spec fn render_taken(
    s: StoreModel,
    session: Text,
    task_id: Text,
    op: OperationModel,
    task: TaskModel,
    rendered: WorkResult<()>,
    now: i64,
) -> (StoreModel, StartNextModel) {
    match rendered {
        Err(error) => ended(s, op_refused(s, session, op.id, error.0, now)),
        Ok(_) => match launch_open(s, session, task_id) {
            Err(error) => ended(s, op_refused(s, session, op.id, error.0, now)),
            Ok(_) => (s, StartNextModel::Await(StartStageModel::Rendered { op, task })),
        },
    }
}

/// The actor may cause the next effect.
pub open spec fn leave_taken(
    s: StoreModel,
    session: Text,
    op: OperationModel,
    leave: WorkResult<()>,
    next: StartStageModel,
    now: i64,
) -> (StoreModel, StartNextModel) {
    match leave {
        Err(error) => ended(s, op_refused(s, session, op.id, error.0, now)),
        Ok(_) => (s, StartNextModel::Await(next)),
    }
}

/// A place was made. A branch has to come with its worktree.
pub open spec fn place_taken(
    s: StoreModel,
    session: Text,
    request: StartRequestModel,
    op: OperationModel,
    reply: BindingReplyModel,
    now: i64,
) -> (StoreModel, StartNextModel) {
    match reply {
        BindingReplyModel::Failed(failure) => ended(
            s,
            op_finished(s, session, op.id, NativeAnswerModel::Failed(failure), now),
        ),
        BindingReplyModel::Bound(binding) => match checkpointed(
            s,
            session,
            op.id,
            binding,
            now,
        ) {
            Err(error) => (s, StartNextModel::Finished(Err(error))),
            Ok((next, op)) => if op.state != OperationState::Submitting {
                (next, StartNextModel::Finished(Ok(first_time(op))))
            } else if request.branch_name is Some && op.resources.worktree_path is None {
                ended(next, op_refused(next, session, op.id, FailureCode::NotReady, now))
            } else {
                (next, StartNextModel::Await(StartStageModel::Placed { op }))
            },
        },
    }
}

/// The pane was located.
pub open spec fn locate_taken(
    s: StoreModel,
    session: Text,
    task_id: Text,
    op: OperationModel,
    reply: BindingReplyModel,
    now: i64,
) -> (StoreModel, StartNextModel) {
    match reply {
        BindingReplyModel::Failed(failure) => ended(
            s,
            op_finished(s, session, op.id, NativeAnswerModel::Failed(failure), now),
        ),
        BindingReplyModel::Bound(binding) => match checkpointed(
            s,
            session,
            op.id,
            binding,
            now,
        ) {
            Err(error) => (s, StartNextModel::Finished(Err(error))),
            Ok((next, op)) => if op.state != OperationState::Submitting {
                (next, StartNextModel::Finished(Ok(first_time(op))))
            } else {
                match launch_open(next, session, task_id) {
                    Err(error) => ended(next, op_refused(next, session, op.id, error.0, now)),
                    Ok(_) => match op.resources.pane_id {
                        None => ended(
                            next,
                            op_refused(next, session, op.id, FailureCode::NotReady, now),
                        ),
                        Some(pane) => (
                            next,
                            StartNextModel::Await(StartStageModel::Located { op, pane }),
                        ),
                    },
                }
            },
        },
    }
}

/// The dispatch was claimed: from here on the launch may be asked for, once.
pub open spec fn claim_taken(
    s: StoreModel,
    session: Text,
    op: OperationModel,
    pane: Text,
    outcome: WorkResult<(StoreModel, OperationModel)>,
    now: i64,
) -> (StoreModel, StartNextModel) {
    match outcome {
        Err(error) => ended(s, op_refused(s, session, op.id, error.0, now)),
        Ok((next, op)) => (next, StartNextModel::Await(StartStageModel::Claimed { op, pane })),
    }
}

/// The resources of a launch are recorded, with the owner's epoch where the native side gave one.
#[verifier::opaque]
pub open spec fn launch_recorded(
    s: StoreModel,
    session: Text,
    op: OperationModel,
    binding: NativeBindingModel,
    owner_epoch: Option<Text>,
    now: i64,
) -> WorkResult<(StoreModel, OperationModel)> {
    match owner_epoch {
        Some(epoch) => launch_outcome(s, session, op.id, binding, epoch, now),
        None => checkpoint_outcome(s, session, op.id, binding, now),
    }
}

/// Proof that a start made no process is kept.
#[verifier::opaque]
pub open spec fn proof_kept(
    s: StoreModel,
    session: Text,
    op: OperationModel,
    owner_epoch: Text,
    receipt_id: Text,
    now: i64,
) -> WorkResult<(StoreModel, ())> {
    start_refusal_outcome(s, session, op.id, owner_epoch, receipt_id, now)
}

/// The launch came to its end. Proof that no process was made is recorded first; a launch without
/// an identity is unconfirmed.
pub open spec fn launch_taken(
    s: StoreModel,
    session: Text,
    op: OperationModel,
    reply: LaunchReplyModel,
    now: i64,
) -> (StoreModel, StartNextModel) {
    match reply {
        LaunchReplyModel::Failed(failure) => match failure {
            NativeFailureModel::StartNotStarted { operation_id, owner_epoch, receipt_id, code: _ } => {
                if operation_id != op.id {
                    failed(s, FailureCode::ScopeMismatch)
                } else {
                    match proof_kept(s, session, op, owner_epoch, receipt_id, now) {
                        Err(error) => (s, StartNextModel::Finished(Err(error))),
                        Ok((next, _)) => ended(
                            next,
                            op_finished(
                                next,
                                session,
                                op.id,
                                NativeAnswerModel::Failed(failure),
                                now,
                            ),
                        ),
                    }
                }
            },
            _ => ended(s, op_finished(s, session, op.id, NativeAnswerModel::Failed(failure), now)),
        },
        LaunchReplyModel::Launched { binding, owner_epoch } => match launch_recorded(
            s,
            session,
            op,
            binding,
            owner_epoch,
            now,
        ) {
            Err(error) => (s, StartNextModel::Finished(Err(error))),
            Ok((next, op)) => ended(
                next,
                op_finished(
                    next,
                    session,
                    op.id,
                    if op.resources.instance_id is None {
                        NativeAnswerModel::Failed(NativeFailureModel::Other)
                    } else {
                        NativeAnswerModel::Done
                    },
                    now,
                ),
            ),
        },
    }
}

/// One step of a start.
pub open spec fn start_step(
    run: ExecutionModel,
    grants: Seq<GrantModel>,
    s: StoreModel,
    ids: IdsModel,
    task_id: Text,
    request: StartRequestModel,
    stage: StartStageModel,
    event: StartEventModel,
    at: Moment,
) -> StartStep {
    let session = run.session;
    let (later, (next, stage)) = match (stage, event) {
        (StartStageModel::Asked, StartEventModel::Support { supported, branch_valid }) => (
            grants,
            support_taken(s, request, supported, branch_valid),
        ),
        (StartStageModel::Supported { digest }, StartEventModel::Observed) => (
            looked_at(run.actor, grants, at.seen).0,
            intent_taken(
                s,
                start_prepared(run.actor, grants, s, ids, session, task_id, request, digest, at),
            ),
        ),
        (StartStageModel::Prepared { op }, StartEventModel::Preflight { ready }) => (
            grants,
            if ready {
                (s, StartNextModel::Await(StartStageModel::Preflighted { op }))
            } else {
                ended(
                    s,
                    prepared_refused(s, session, op.id, FailureCode::CapabilityUnavailable, at.now),
                )
            },
        ),
        (StartStageModel::Preflighted { op }, StartEventModel::Observed) => (
            looked_at(run.actor, grants, at.seen).0,
            begin_taken(
                s,
                session,
                task_id,
                op,
                step_taken(run.actor, grants, s, ids.first, session, op, false, at),
                at.now,
            ),
        ),
        (StartStageModel::Begun { op, task }, StartEventModel::Render(rendered)) => (
            grants,
            render_taken(s, session, task_id, op, task, rendered, at.now),
        ),
        (StartStageModel::Rendered { op, task }, StartEventModel::Observed) => (
            looked_at(run.actor, grants, at.seen).0,
            leave_taken(
                s,
                session,
                op,
                next_effect(run.actor, grants, s, session, op, at),
                StartStageModel::Cleared { op, task },
                at.now,
            ),
        ),
        (StartStageModel::Cleared { op, task: _ }, StartEventModel::Place(reply)) => (
            grants,
            place_taken(s, session, request, op, reply, at.now),
        ),
        (StartStageModel::Placed { op }, StartEventModel::Observed) => (
            looked_at(run.actor, grants, at.seen).0,
            leave_taken(
                s,
                session,
                op,
                next_effect(run.actor, grants, s, session, op, at),
                StartStageModel::Recleared { op },
                at.now,
            ),
        ),
        (StartStageModel::Recleared { op }, StartEventModel::Locate(reply)) => (
            grants,
            locate_taken(s, session, task_id, op, reply, at.now),
        ),
        (StartStageModel::Located { op, pane }, StartEventModel::Observed) => (
            looked_at(run.actor, grants, at.seen).0,
            claim_taken(
                s,
                session,
                op,
                pane,
                step_taken(run.actor, grants, s, ids.first, session, op, true, at),
                at.now,
            ),
        ),
        (StartStageModel::Claimed { op, pane: _ }, StartEventModel::Launch(reply)) => (
            grants,
            launch_taken(s, session, op, reply, at.now),
        ),
        _ => (grants, failed(s, FailureCode::InvalidInput)),
    };
    (later, next, stage)
}

fn stop(code: FailureCode) -> (res: StartNext)
    ensures
        res.deep_view() == StartNextModel::Finished(refused(code)),
{
    StartNext::Finished(refuse(code))
}

fn fail(error: WorkError) -> (res: StartNext)
    ensures
        res.deep_view() == StartNextModel::Finished(Err(error)),
{
    StartNext::Finished(Err(error))
}

fn take_support(
    request: &StartRequest,
    supported: bool,
    branch_valid: bool,
    store: &WorkStore,
) -> (res:
    StartNext)
    ensures
        (store@, res.deep_view()) == support_taken(
            store@,
            request.deep_view(),
            supported,
            branch_valid,
        ),
{
    if !supported {
        return stop(FailureCode::CapabilityUnavailable);
    }
    if request.branch_name.is_some() && !branch_valid {
        return stop(FailureCode::InvalidInput);
    }
    if request.role == AttemptRole::Worker && request.branch_name.is_none() {
        return stop(FailureCode::InvalidInput);
    }
    StartNext::Await(StartStage::Supported { digest: digest_text(request) })
}

fn take_render(
    store: &mut WorkStore,
    session: &str,
    task_id: &str,
    op: Operation,
    task: Task,
    rendered: WorkResult<()>,
    now: i64,
) -> (res: StartNext)
    ensures
        (final(store)@, res.deep_view()) == render_taken(
            old(store)@,
            session@,
            task_id@,
            op.deep_view(),
            task.deep_view(),
            rendered,
            now,
        ),
{
    if let Err(error) = rendered {
        return StartNext::Finished(refuse_op(store, session, op.id.as_str(), error.0, now));
    }
    match check_launch(store, session, task_id) {
        Err(error) => StartNext::Finished(
            refuse_op(store, session, op.id.as_str(), error.0, now),
        ),
        Ok(_) => StartNext::Await(StartStage::Rendered { op, task }),
    }
}

fn take_place(
    store: &mut WorkStore,
    session: &str,
    request: &StartRequest,
    op: Operation,
    reply: BindingReply,
    now: i64,
) -> (res: StartNext)
    ensures
        (final(store)@, res.deep_view()) == place_taken(
            old(store)@,
            session@,
            request.deep_view(),
            op.deep_view(),
            reply.deep_view(),
            now,
        ),
{
    match reply {
        BindingReply::Failed(failure) => StartNext::Finished(
            finish_op(store, session, op.id.as_str(), &NativeAnswer::Failed(failure), now),
        ),
        BindingReply::Bound(binding) => match checkpoint(store, session,
            op.id.as_str(),
            binding,
            now,
        ) {
            Err(error) => fail(error),
            Ok(op) => {
                if op.state != OperationState::Submitting {
                    return StartNext::Finished(Ok(Mutation { value: op, replayed: false }));
                }
                if request.branch_name.is_some() && op.resources.worktree_path.is_none() {
                    return StartNext::Finished(
                        refuse_op(store, session, op.id.as_str(), FailureCode::NotReady, now),
                    );
                }
                StartNext::Await(StartStage::Placed { op })
            },
        },
    }
}

fn take_locate(
    store: &mut WorkStore,
    session: &str,
    task_id: &str,
    op: Operation,
    reply: BindingReply,
    now: i64,
) -> (res: StartNext)
    ensures
        (final(store)@, res.deep_view()) == locate_taken(
            old(store)@,
            session@,
            task_id@,
            op.deep_view(),
            reply.deep_view(),
            now,
        ),
{
    match reply {
        BindingReply::Failed(failure) => StartNext::Finished(
            finish_op(store, session, op.id.as_str(), &NativeAnswer::Failed(failure), now),
        ),
        BindingReply::Bound(binding) => match checkpoint(store, session,
            op.id.as_str(),
            binding,
            now,
        ) {
            Err(error) => fail(error),
            Ok(op) => {
                if op.state != OperationState::Submitting {
                    return StartNext::Finished(Ok(Mutation { value: op, replayed: false }));
                }
                if let Err(error) = check_launch(store, session, task_id) {
                    return StartNext::Finished(
                        refuse_op(store, session, op.id.as_str(), error.0, now),
                    );
                }
                let pane = match &op.resources.pane_id {
                    Some(pane) => pane.replica(),
                    None => {
                        return StartNext::Finished(
                            refuse_op(store, session, op.id.as_str(), FailureCode::NotReady, now),
                        );
                    },
                };
                StartNext::Await(StartStage::Located { op, pane })
            },
        },
    }
}

fn keep_proof(
    store: &mut WorkStore,
    session: &str,
    op: &Operation,
    owner_epoch: &str,
    receipt_id: &str,
    now: i64,
) -> (res: WorkResult<()>)
    ensures
        commits(
            old(store)@,
            final(store)@,
            proof_kept(old(store)@, session@, op.deep_view(), owner_epoch@, receipt_id@, now),
            res,
        ),
{
    reveal(proof_kept);
    store.record_start_refusal(session, op.id.as_str(), owner_epoch, receipt_id, now)
}

fn record_launch(
    store: &mut WorkStore,
    session: &str,
    op: &Operation,
    binding: NativeBinding,
    owner_epoch: &Option<String>,
    now: i64,
) -> (res: WorkResult<Operation>)
    ensures
        commits(
            old(store)@,
            final(store)@,
            launch_recorded(
                old(store)@,
                session@,
                op.deep_view(),
                binding.deep_view(),
                owner_epoch.deep_view(),
                now,
            ),
            shown(res),
        ),
{
    reveal(launch_recorded);
    match owner_epoch {
        Some(epoch) => store.confirm_start_launch(
            session,
            op.id.as_str(),
            binding,
            epoch.as_str(),
            now,
        ),
        None => store.checkpoint_operation(session, op.id.as_str(), binding, now),
    }
}

fn take_launch(
    store: &mut WorkStore,
    session: &str,
    op: Operation,
    reply: LaunchReply,
    now: i64,
) -> (res:
    StartNext)
    ensures
        (final(store)@, res.deep_view()) == launch_taken(
            old(store)@,
            session@,
            op.deep_view(),
            reply.deep_view(),
            now,
        ),
{
    match reply {
        LaunchReply::Failed(failure) => {
            if let NativeFailure::StartNotStarted { operation_id, owner_epoch, receipt_id, code: _ } =
                &failure {
                if !operation_id.same(&op.id) {
                    return stop(FailureCode::ScopeMismatch);
                }
                let kept = keep_proof(
                    store,
                    session,
                    &op,
                    owner_epoch.as_str(),
                    receipt_id.as_str(),
                    now,
                );
                if let Err(error) = kept {
                    return fail(error);
                }
            }
            StartNext::Finished(
                finish_op(store, session, op.id.as_str(), &NativeAnswer::Failed(failure), now),
            )
        },
        LaunchReply::Launched { binding, owner_epoch } => {
            let recorded = record_launch(store, session, &op, binding, &owner_epoch, now);
            match recorded {
                Err(error) => fail(error),
                Ok(op) => {
                    let end = if op.resources.instance_id.is_none() {
                        NativeAnswer::Failed(NativeFailure::Other)
                    } else {
                        NativeAnswer::Done
                    };
                    StartNext::Finished(finish_op(store, session, op.id.as_str(), &end, now))
                },
            }
        },
    }
}

impl Execution {
    /// Whether a start may be asked for by an actor.
    pub fn begin_start(&self, actor: &str) -> (res: WorkResult<StartStage>)
        ensures
            shown(res) == (if self.deep_view().actor.id == actor@ {
                Ok(StartStageModel::Asked)
            } else {
                refused(FailureCode::ScopeMismatch)
            }),
    {
        self.actor.assert_actor(actor)?;
        Ok(StartStage::Asked)
    }

    fn start_intent(
        &self,
        registry: &mut Registry,
        store: &mut WorkStore,
        ids: &Ids,
        task_id: &str,
        request: &StartRequest,
        digest: &str,
        at: &Moment,
    ) -> (res: StartNext)
        ensures
            final(registry)@ == looked_at(self.deep_view().actor, old(registry)@, at.seen).0,
            (final(store)@, res.deep_view()) == intent_taken(
                old(store)@,
                start_prepared(
                    self.deep_view().actor,
                    old(registry)@,
                    old(store)@,
                    ids.deep_view(),
                    self.deep_view().session,
                    task_id@,
                    request.deep_view(),
                    digest@,
                    *at,
                ),
            ),
    {
        let session = self.session.as_str();
        match self.actor.prepare_start(
            registry,
            store,
            ids,
            session,
            task_id,
            request,
            digest,
            at,
        ) {
            Err(error) => fail(error),
            Ok(mutation) => if mutation.replayed {
                StartNext::Finished(Ok(mutation))
            } else {
                StartNext::Await(StartStage::Prepared { op: mutation.value })
            },
        }
    }

    fn start_begin(
        &self,
        registry: &mut Registry,
        store: &mut WorkStore,
        ids: &Ids,
        task_id: &str,
        op: Operation,
        at: &Moment,
    ) -> (res: StartNext)
        ensures
            final(registry)@ == looked_at(self.deep_view().actor, old(registry)@, at.seen).0,
            (final(store)@, res.deep_view()) == begin_taken(
                old(store)@,
                self.deep_view().session,
                task_id@,
                op.deep_view(),
                step_taken(
                    self.deep_view().actor,
                    old(registry)@,
                    old(store)@,
                    ids.first@,
                    self.deep_view().session,
                    op.deep_view(),
                    false,
                    *at,
                ),
                at.now,
            ),
    {
        let session = self.session.as_str();
        match self.actor.advance(registry, store, ids, session, &op, false, at) {
            Err(error) => StartNext::Finished(
                refuse_prepared(store, session, op.id.as_str(), error.0, at.now),
            ),
            Ok(op) => match store.detail(session, task_id) {
                Err(error) => fail(error),
                Ok(detail) => StartNext::Await(StartStage::Begun { op, task: detail.task }),
            },
        }
    }

    fn start_leave(
        &self,
        registry: &mut Registry,
        store: &mut WorkStore,
        op: &Operation,
        next: StartStage,
        at: &Moment,
    ) -> (res: StartNext)
        ensures
            final(registry)@ == looked_at(self.deep_view().actor, old(registry)@, at.seen).0,
            (final(store)@, res.deep_view()) == leave_taken(
                old(store)@,
                self.deep_view().session,
                op.deep_view(),
                next_effect(
                    self.deep_view().actor,
                    old(registry)@,
                    old(store)@,
                    self.deep_view().session,
                    op.deep_view(),
                    *at,
                ),
                next.deep_view(),
                at.now,
            ),
    {
        let session = self.session.as_str();
        match self.actor.authorize_next_effect(registry, store, session, op, at) {
            Err(error) => StartNext::Finished(
                refuse_op(store, session, op.id.as_str(), error.0, at.now),
            ),
            Ok(_) => StartNext::Await(next),
        }
    }

    fn start_claim(
        &self,
        registry: &mut Registry,
        store: &mut WorkStore,
        ids: &Ids,
        op: Operation,
        pane: String,
        at: &Moment,
    ) -> (res: StartNext)
        ensures
            final(registry)@ == looked_at(self.deep_view().actor, old(registry)@, at.seen).0,
            (final(store)@, res.deep_view()) == claim_taken(
                old(store)@,
                self.deep_view().session,
                op.deep_view(),
                pane@,
                step_taken(
                    self.deep_view().actor,
                    old(registry)@,
                    old(store)@,
                    ids.first@,
                    self.deep_view().session,
                    op.deep_view(),
                    true,
                    *at,
                ),
                at.now,
            ),
    {
        let session = self.session.as_str();
        match self.actor.advance(registry, store, ids, session, &op, true, at) {
            Err(error) => StartNext::Finished(
                refuse_op(store, session, op.id.as_str(), error.0, at.now),
            ),
            Ok(op) => StartNext::Await(StartStage::Claimed { op, pane }),
        }
    }

    /// One step of a start: takes what came of the thing that was awaited, writes what has to be
    /// written and says what is awaited next.
    pub fn start(
        &self,
        registry: &mut Registry,
        store: &mut WorkStore,
        ids: &Ids,
        task_id: &str,
        request: &StartRequest,
        stage: StartStage,
        event: StartEvent,
        at: &Moment,
    ) -> (res: StartNext)
        ensures
            (final(registry)@, final(store)@, res.deep_view()) == start_step(
                self.deep_view(),
                old(registry)@,
                old(store)@,
                ids.deep_view(),
                task_id@,
                request.deep_view(),
                stage.deep_view(),
                event.deep_view(),
                *at,
            ),
            (stage.deep_view(), event.deep_view()) matches (
                StartStageModel::Cleared { op, task: _ },
                StartEventModel::Place(BindingReplyModel::Bound(binding)),
            ) ==> (checkpoint_outcome(
                old(store)@,
                self.deep_view().session,
                op.id,
                binding,
                at.now,
            ) matches Ok((recorded, placed)) ==> (placed.state == OperationState::Submitting ==> {
                let needs = request.branch_name is Some;
                let given = placed.resources.worktree_path is Some;
                &&& res is Await <==> !needs || given
                &&& res is Await ==> final(store)@ == recorded && res.deep_view()
                    == StartNextModel::Await(StartStageModel::Placed { op: placed })
                &&& res.deep_view() matches StartNextModel::Finished(Ok(mutation)) ==> needs && !given
                    && mutation.value.state == OperationState::Refused
                    && mutation.value.failure_code == Some(FailureCode::NotReady)
            })),
    {
        proof {
            if let (StartStageModel::Cleared { op, task }, StartEventModel::Place(reply)) = (
                stage.deep_view(),
                event.deep_view(),
            ) {
                branches_need_their_worktrees(
                    self.deep_view(),
                    registry@,
                    store@,
                    ids.deep_view(),
                    task_id@,
                    request.deep_view(),
                    op,
                    task,
                    reply,
                    *at,
                );
            }
        }
        let session = self.session.as_str();
        match (stage, event) {
            (StartStage::Asked, StartEvent::Support { supported, branch_valid }) => take_support(
                request,
                supported,
                branch_valid,
                store,
            ),
            (StartStage::Supported { digest }, StartEvent::Observed) => self.start_intent(
                registry,
                store,
                ids,
                task_id,
                request,
                digest.as_str(),
                at,
            ),
            (StartStage::Prepared { op }, StartEvent::Preflight { ready }) => if ready {
                StartNext::Await(StartStage::Preflighted { op })
            } else {
                StartNext::Finished(
                    refuse_prepared(
                        store,
                        session,
                        op.id.as_str(),
                        FailureCode::CapabilityUnavailable,
                        at.now,
                    ),
                )
            },
            (StartStage::Preflighted { op }, StartEvent::Observed) => self.start_begin(
                registry,
                store,
                ids,
                task_id,
                op,
                at,
            ),
            (StartStage::Begun { op, task }, StartEvent::Render(rendered)) => take_render(
                store,
                session,
                task_id,
                op,
                task,
                rendered,
                at.now,
            ),
            (StartStage::Rendered { op, task }, StartEvent::Observed) => {
                let held = op.replica();
                self.start_leave(registry, store, &held, StartStage::Cleared { op, task }, at)
            },
            (StartStage::Cleared { op, task: _ }, StartEvent::Place(reply)) => take_place(
                store,
                session,
                request,
                op,
                reply,
                at.now,
            ),
            (StartStage::Placed { op }, StartEvent::Observed) => {
                let held = op.replica();
                self.start_leave(registry, store, &held, StartStage::Recleared { op }, at)
            },
            (StartStage::Recleared { op }, StartEvent::Locate(reply)) => take_locate(
                store,
                session,
                task_id,
                op,
                reply,
                at.now,
            ),
            (StartStage::Located { op, pane }, StartEvent::Observed) => self.start_claim(
                registry,
                store,
                ids,
                op,
                pane,
                at,
            ),
            (StartStage::Claimed { op, pane: _ }, StartEvent::Launch(reply)) => take_launch(
                store,
                session,
                op,
                reply,
                at.now,
            ),
            _ => stop(FailureCode::InvalidInput),
        }
    }
}

/// How far along a stage is.
pub open spec fn rank(stage: StartStageModel) -> int {
    match stage {
        StartStageModel::Asked => 0,
        StartStageModel::Supported { .. } => 1,
        StartStageModel::Prepared { .. } => 2,
        StartStageModel::Preflighted { .. } => 3,
        StartStageModel::Begun { .. } => 4,
        StartStageModel::Rendered { .. } => 5,
        StartStageModel::Cleared { .. } => 6,
        StartStageModel::Placed { .. } => 7,
        StartStageModel::Recleared { .. } => 8,
        StartStageModel::Located { .. } => 9,
        StartStageModel::Claimed { .. } => 10,
    }
}

/// A start only ever goes on to the very next stage, so each native step is asked for at most once.
pub proof fn start_goes_on(
    run: ExecutionModel,
    grants: Seq<GrantModel>,
    s: StoreModel,
    ids: IdsModel,
    task_id: Text,
    request: StartRequestModel,
    stage: StartStageModel,
    event: StartEventModel,
    at: Moment,
)
    ensures
        start_step(run, grants, s, ids, task_id, request, stage, event, at).2 matches
            StartNextModel::Await(next) ==> rank(next) == rank(stage) + 1,
{
}

/// A launch is asked for only once its dispatch was claimed in the store, and the claim is the last
/// thing that was written.
pub proof fn launch_follows_the_claim(
    run: ExecutionModel,
    grants: Seq<GrantModel>,
    s: StoreModel,
    ids: IdsModel,
    task_id: Text,
    request: StartRequestModel,
    stage: StartStageModel,
    event: StartEventModel,
    at: Moment,
)
    ensures
        start_step(run, grants, s, ids, task_id, request, stage, event, at).2 matches
            StartNextModel::Await(StartStageModel::Claimed { op, pane }) ==> (stage matches
            StartStageModel::Located { op: held, pane: _ } && step_taken(
            run.actor,
            grants,
            s,
            ids.first,
            run.session,
            held,
            true,
            at,
        ) == Ok::<(StoreModel, OperationModel), WorkError>(
            (start_step(run, grants, s, ids, task_id, request, stage, event, at).1, op),
        )),
{
}

/// A request that was carried out before ends at once: nothing native is asked for.
pub proof fn repeated_start_has_no_effect(
    run: ExecutionModel,
    grants: Seq<GrantModel>,
    s: StoreModel,
    ids: IdsModel,
    task_id: Text,
    request: StartRequestModel,
    digest: Text,
    at: Moment,
)
    requires
        start_prepared(run.actor, grants, s, ids, run.session, task_id, request, digest, at) matches
            Ok((_, mutation)) && mutation.replayed,
    ensures
        start_step(
            run,
            grants,
            s,
            ids,
            task_id,
            request,
            StartStageModel::Supported { digest },
            StartEventModel::Observed,
            at,
        ).2 is Finished,
{
}

/// Where support is missing or the request is malformed nothing is written.
pub proof fn unsupported_start_writes_nothing(
    s: StoreModel,
    request: StartRequestModel,
    supported: bool,
    branch_valid: bool,
)
    ensures
        support_taken(s, request, supported, branch_valid).0 == s,
        !supported ==> support_taken(s, request, supported, branch_valid).1
            == StartNextModel::Finished(refused(FailureCode::CapabilityUnavailable)),
{
}

} // verus!
