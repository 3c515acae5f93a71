//! What a start answers at each of its stages.
use vstd::prelude::*;
use crate::digest::digest_of;
use crate::json::ToJson;
use crate::value::Text;
use crate::work::model::AttemptRole;
use crate::work::model::FailureCode;
use crate::work::model::MutationModel;
use crate::work::model::NativeBindingModel;
use crate::work::model::Operation;
use crate::work::model::OperationModel;
use crate::work::model::OperationOutcomeModel;
use crate::work::model::OperationState;
use crate::work::model::Task;
use crate::work::model::TaskModel;
use crate::work::model::WorkError;
use crate::work::model::WorkResult;
use crate::work::store::attempts::launch_outcome;
use crate::work::store::attempts::start_refusal_outcome;
use crate::work::store::dispatches::checkpointing_is_exact;
use crate::work::store::history::well_formed;
use crate::work::store::operations::checkpoint_outcome;
use crate::work::store::operations::finalize_outcome;
use crate::work::store::operations::refuse_outcome;
use crate::work::store::records::loaded;
use crate::work::store::tables::StoreModel;
use crate::work_actor::IdsModel;
use crate::work_actor::Moment;
use crate::work_actor::next_effect;
use crate::work_actor::start_prepared;
use crate::work_actor::step_taken;
use crate::work_authority::GrantModel;
use crate::work_execution::ExecutionModel;
use crate::work_execution::NativeAnswerModel;
use crate::work_execution::NativeFailureModel;
use crate::work_execution::StartRequest;
use crate::work_execution::StartRequestModel;
use crate::work_execution::checkpointed;
use crate::work_execution::ending;
use crate::work_execution::launch_open;
use crate::work_execution::op_finished;
use crate::work_execution::op_refused;
use crate::work_execution::prepared_refused;
use crate::work_execution::start::BindingReplyModel;
use crate::work_execution::start::LaunchReplyModel;
use crate::work_execution::start::StartEventModel;
use crate::work_execution::start::StartNextModel;
use crate::work_execution::start::StartStageModel;
use crate::work_execution::start::ended;
use crate::work_execution::start::launch_recorded;
use crate::work_execution::start::proof_kept;
use crate::work_execution::start::start_step;

verus! {

/// Whether an operation was brought to an end, and the start with it: its last state and the
/// reason are recorded, and are the answer. Where they cannot be recorded the error is the answer,
/// and nothing changes.
pub open spec fn ends_as(
    s: StoreModel,
    session: Text,
    id: Text,
    state: OperationState,
    code: Option<FailureCode>,
    now: i64,
    later: StoreModel,
    next: StartNextModel,
) -> bool {
    let end = OperationOutcomeModel {
        state,
        resources: NativeBindingModel {
            workspace_id: None,
            tab_id: None,
            instance_id: None,
            target: None,
            pane_id: None,
            worktree_path: None,
        },
        failure_code: code,
    };
    match finalize_outcome(s, session, id, end, now) {
        Err(error) => later == s && next == StartNextModel::Finished(Err(error)),
        Ok((store, op)) => later == store && next == StartNextModel::Finished(
            Ok(MutationModel { value: op, replayed: false }),
        ) && op.state == state && op.failure_code == code,
    }
}

/// Whether an intent was given up before anything went out, and the start with it.
pub open spec fn given_up_as(
    s: StoreModel,
    session: Text,
    id: Text,
    code: FailureCode,
    now: i64,
    later: StoreModel,
    next: StartNextModel,
) -> bool {
    match refuse_outcome(s, session, id, code, now) {
        Err(error) => later == s && next == StartNextModel::Finished(Err(error)),
        Ok((store, op)) => later == store && next == StartNextModel::Finished(
            Ok(MutationModel { value: op, replayed: false }),
        ) && op.state == OperationState::Refused && op.failure_code == Some(code),
    }
}

/// Whether a word is what a native side said.
pub open spec fn word_is(code: Option<Text>, word: Text) -> bool {
    code matches Some(said) && said == word
}

/// Whether an operation ended as a native failure asks: unknown effects leave it unconfirmed, and
/// only a step that surely had none refuses it, for the reason that was named.
pub open spec fn fails_as(
    s: StoreModel,
    session: Text,
    id: Text,
    failure: NativeFailureModel,
    now: i64,
    later: StoreModel,
    next: StartNextModel,
) -> bool {
    match failure {
        NativeFailureModel::Other => ends_as(
            s,
            session,
            id,
            OperationState::Unconfirmed,
            Some(FailureCode::DeliveryUnconfirmed),
            now,
            later,
            next,
        ),
        NativeFailureModel::Unsupported => ends_as(
            s,
            session,
            id,
            OperationState::Refused,
            Some(FailureCode::CapabilityUnavailable),
            now,
            later,
            next,
        ),
        NativeFailureModel::Refused { code } => exists|reason: FailureCode|
            {
                &&& #[trigger] ends_as(
                    s,
                    session,
                    id,
                    OperationState::Refused,
                    Some(reason),
                    now,
                    later,
                    next,
                )
                &&& reason == FailureCode::CapabilityUnavailable <==> word_is(
                    code,
                    "unsupported_agent_kind"@,
                )
                &&& reason == FailureCode::InstanceChanged <==> !word_is(
                    code,
                    "unsupported_agent_kind"@,
                ) && (word_is(code, "instance_changed"@) || word_is(code, "launch_changed"@)
                    || word_is(code, "stale_launch"@))
                &&& reason == FailureCode::ApprovalRequired || reason == FailureCode::NotReady
                    || reason == FailureCode::InstanceChanged || reason
                    == FailureCode::CapabilityUnavailable
                &&& word_is(
                    code,
                    "approval_required"@,
                ) || word_is(code, "agent_blocked"@) ==> reason
                    != FailureCode::NotReady
                &&& reason == FailureCode::ApprovalRequired ==> word_is(code, "approval_required"@)
                    || word_is(code, "agent_blocked"@)
            },
        NativeFailureModel::StartNotStarted { code, .. } => ends_as(
            s,
            session,
            id,
            OperationState::Refused,
            Some(
                if word_is(code, "unsupported_agent_kind"@) {
                    FailureCode::CapabilityUnavailable
                } else if word_is(code, "resource_limit"@) {
                    FailureCode::ResourceLimit
                } else {
                    FailureCode::NotReady
                },
            ),
            now,
            later,
            next,
        ),
    }
}

proof fn refusing_ends(
    s: StoreModel,
    session: Text,
    id: Text,
    code: FailureCode,
    now: i64,
)
    ensures
        ({
            let (later, next) = ended(s, op_refused(s, session, id, code, now));
            ends_as(s, session, id, OperationState::Refused, Some(code), now, later, next)
        }),
{
    reveal(op_refused);
}

proof fn giving_up_ends(s: StoreModel, session: Text, id: Text, code: FailureCode, now: i64)
    ensures
        ({
            let (later, next) = ended(s, prepared_refused(s, session, id, code, now));
            given_up_as(s, session, id, code, now, later, next)
        }),
{
    reveal(prepared_refused);
}

proof fn failing_ends(s: StoreModel, session: Text, id: Text, failure: NativeFailureModel, now: i64)
    ensures
        ({
            let (later, next) = ended(
                s,
                op_finished(s, session, id, NativeAnswerModel::Failed(failure), now),
            );
            fails_as(s, session, id, failure, now, later, next)
        }),
{
    reveal(op_finished);
    let (later, next) = ended(
        s,
        op_finished(s, session, id, NativeAnswerModel::Failed(failure), now),
    );
    let (state, reason) = ending(NativeAnswerModel::Failed(failure));
    assert(ends_as(s, session, id, state, reason, now, later, next));
    if let NativeFailureModel::Refused { code } = failure {
        reveal_strlit("unsupported_agent_kind");
        reveal_strlit("instance_changed");
        reveal_strlit("launch_changed");
        reveal_strlit("stale_launch");
        reveal_strlit("approval_required");
        reveal_strlit("agent_blocked");
        assert("approval_required"@.len() != "instance_changed"@.len());
        assert("approval_required"@.len() != "launch_changed"@.len());
        assert("approval_required"@.len() != "stale_launch"@.len());
        assert("agent_blocked"@.len() != "instance_changed"@.len());
        assert("agent_blocked"@.len() != "launch_changed"@.len());
        assert("agent_blocked"@.len() != "stale_launch"@.len());
        assert("agent_blocked"@.len() != "unsupported_agent_kind"@.len());
        assert("approval_required"@.len() != "unsupported_agent_kind"@.len());
    }
}

proof fn doing_ends(s: StoreModel, session: Text, id: Text, now: i64)
    ensures
        ({
            let (later, next) = ended(s, op_finished(s, session, id, NativeAnswerModel::Done, now));
            ends_as(s, session, id, OperationState::Acknowledged, None, now, later, next)
        }),
{
    reveal(op_finished);
}

proof fn proof_is_kept(
    s: StoreModel,
    session: Text,
    op: OperationModel,
    owner_epoch: Text,
    receipt_id: Text,
    now: i64,
)
    ensures
        proof_kept(s, session, op, owner_epoch, receipt_id, now) == start_refusal_outcome(
            s,
            session,
            op.id,
            owner_epoch,
            receipt_id,
            now,
        ),
{
    reveal(proof_kept);
}

proof fn launch_is_recorded(
    s: StoreModel,
    session: Text,
    op: OperationModel,
    binding: NativeBindingModel,
    owner_epoch: Option<Text>,
    now: i64,
)
    ensures
        launch_recorded(s, session, op, binding, owner_epoch, now) == if owner_epoch is Some {
            launch_outcome(s, session, op.id, binding, owner_epoch->0, now)
        } else {
            checkpoint_outcome(s, session, op.id, binding, now)
        },
{
    reveal(launch_recorded);
}

/// A start is asked for where the native side supports it, a branch that is given has a valid name,
/// and a worker comes with a branch. What was asked for is kept by its digest. Nothing is written.
pub proof fn starts_are_asked_for(
    run: ExecutionModel,
    grants: Seq<GrantModel>,
    s: StoreModel,
    ids: IdsModel,
    task_id: Text,
    request: StartRequestModel,
    supported: bool,
    branch_valid: bool,
    at: Moment,
)
    ensures
        ({
            let event = StartEventModel::Support { supported, branch_valid };
            let (then, later, next) = start_step(
                run,
                grants,
                s,
                ids,
                task_id,
                request,
                StartStageModel::Asked,
                event,
                at,
            );
            let named = request.branch_name is Some;
            &&& then == grants && later == s
            &&& next is Await <==> supported && (named ==> branch_valid) && (request.role
                == AttemptRole::Worker ==> named)
            &&& next is Await ==> next == StartNextModel::Await(
                StartStageModel::Supported { digest: digest_of(StartRequest::json(request)) },
            )
            &&& next is Finished ==> next == StartNextModel::Finished(
                Err(
                    WorkError(
                        if supported {
                            FailureCode::InvalidInput
                        } else {
                            FailureCode::CapabilityUnavailable
                        },
                    ),
                ),
            )
        }),
{
}

/// An intent that is recorded now goes on as it was recorded. One that was recorded before ends the
/// start with the earlier answer; an error ends it, and leaves the store as it was.
pub proof fn intents_are_recorded(
    run: ExecutionModel,
    grants: Seq<GrantModel>,
    s: StoreModel,
    ids: IdsModel,
    task_id: Text,
    request: StartRequestModel,
    digest: Text,
    at: Moment,
)
    ensures
        ({
            let (then, later, next) = start_step(
                run,
                grants,
                s,
                ids,
                task_id,
                request,
                StartStageModel::Supported { digest },
                StartEventModel::Observed,
                at,
            );
            match start_prepared(
                run.actor,
                grants,
                s,
                ids,
                run.session,
                task_id,
                request,
                digest,
                at,
            ) {
                Err(error) => later == s && next == StartNextModel::Finished(Err(error)),
                Ok((store, mutation)) => later == store && (if mutation.replayed {
                    next == StartNextModel::Finished(Ok(mutation))
                } else {
                    next == StartNextModel::Await(StartStageModel::Prepared { op: mutation.value })
                }),
            }
        }),
{
}

/// A recorded intent goes on where the native side is ready for the kind of agent, and is given up
/// otherwise.
pub proof fn preflights_decide(
    run: ExecutionModel,
    grants: Seq<GrantModel>,
    s: StoreModel,
    ids: IdsModel,
    task_id: Text,
    request: StartRequestModel,
    op: OperationModel,
    ready: bool,
    at: Moment,
)
    ensures
        ({
            let (then, later, next) = start_step(
                run,
                grants,
                s,
                ids,
                task_id,
                request,
                StartStageModel::Prepared { op },
                StartEventModel::Preflight { ready },
                at,
            );
            &&& then == grants
            &&& ready ==> later == s && next == StartNextModel::Await(
                StartStageModel::Preflighted { op },
            )
            &&& !ready ==> given_up_as(
                s,
                run.session,
                op.id,
                FailureCode::CapabilityUnavailable,
                at.now,
                later,
                next,
            )
        }),
{
    giving_up_ends(s, run.session, op.id, FailureCode::CapabilityUnavailable, at.now);
}

/// An operation that may begin is begun, and goes on with its task as it is recorded; one that may
/// not is given up for the reason that was found.
pub proof fn beginnings_are_recorded(
    run: ExecutionModel,
    grants: Seq<GrantModel>,
    s: StoreModel,
    ids: IdsModel,
    task_id: Text,
    request: StartRequestModel,
    op: OperationModel,
    at: Moment,
)
    ensures
        ({
            let (then, later, next) = start_step(
                run,
                grants,
                s,
                ids,
                task_id,
                request,
                StartStageModel::Preflighted { op },
                StartEventModel::Observed,
                at,
            );
            match step_taken(run.actor, grants, s, ids.first, run.session, op, false, at) {
                Err(error) => given_up_as(s, run.session, op.id, error.0, at.now, later, next),
                Ok((store, begun)) => later == store && (match loaded::<Task>(
                    store,
                    run.session,
                    task_id,
                ) {
                    Err(error) => next == StartNextModel::Finished(Err(error)),
                    Ok(task) => next == StartNextModel::Await(
                        StartStageModel::Begun { op: begun, task },
                    ),
                }),
            }
        }),
{
    if let Err(error) = step_taken(run.actor, grants, s, ids.first, run.session, op, false, at) {
        giving_up_ends(s, run.session, op.id, error.0, at.now);
    }
}

/// A start goes on where its prompt could be rendered and launches under its task are open;
/// otherwise the operation is refused for the reason that was found.
pub proof fn renderings_decide(
    run: ExecutionModel,
    grants: Seq<GrantModel>,
    s: StoreModel,
    ids: IdsModel,
    task_id: Text,
    request: StartRequestModel,
    op: OperationModel,
    task: TaskModel,
    rendered: WorkResult<()>,
    at: Moment,
)
    ensures
        ({
            let (then, later, next) = start_step(
                run,
                grants,
                s,
                ids,
                task_id,
                request,
                StartStageModel::Begun { op, task },
                StartEventModel::Render(rendered),
                at,
            );
            &&& then == grants
            &&& match rendered {
                Err(error) => ends_as(
                    s,
                    run.session,
                    op.id,
                    OperationState::Refused,
                    Some(error.0),
                    at.now,
                    later,
                    next,
                ),
                Ok(_) => match launch_open(s, run.session, task_id) {
                    Err(error) => ends_as(
                        s,
                        run.session,
                        op.id,
                        OperationState::Refused,
                        Some(error.0),
                        at.now,
                        later,
                        next,
                    ),
                    Ok(_) => later == s && next == StartNextModel::Await(
                        StartStageModel::Rendered { op, task },
                    ),
                },
            }
        }),
{
    if let Err(error) = rendered {
        refusing_ends(s, run.session, op.id, error.0, at.now);
    } else if let Err(error) = launch_open(s, run.session, task_id) {
        refusing_ends(s, run.session, op.id, error.0, at.now);
    }
}

/// Before each native step the actor's leave is asked for: with it the start goes on and nothing is
/// written; without it the operation is refused for the reason that was found.
pub proof fn leave_is_asked_for(
    run: ExecutionModel,
    grants: Seq<GrantModel>,
    s: StoreModel,
    ids: IdsModel,
    task_id: Text,
    request: StartRequestModel,
    op: OperationModel,
    task: TaskModel,
    at: Moment,
)
    ensures
        ({
            let leave = next_effect(run.actor, grants, s, run.session, op, at);
            let seen = StartEventModel::Observed;
            let rendered = StartStageModel::Rendered { op, task };
            let placed = StartStageModel::Placed { op };
            let (_, first, place) = start_step(
                run,
                grants,
                s,
                ids,
                task_id,
                request,
                rendered,
                seen,
                at,
            );
            let (_, second, locate) = start_step(
                run,
                grants,
                s,
                ids,
                task_id,
                request,
                placed,
                seen,
                at,
            );
            match leave {
                Ok(_) => first == s && second == s && place == StartNextModel::Await(
                    StartStageModel::Cleared { op, task },
                ) && locate == StartNextModel::Await(StartStageModel::Recleared { op }),
                Err(error) => ends_as(
                    s,
                    run.session,
                    op.id,
                    OperationState::Refused,
                    Some(error.0),
                    at.now,
                    first,
                    place,
                ) && ends_as(
                    s,
                    run.session,
                    op.id,
                    OperationState::Refused,
                    Some(error.0),
                    at.now,
                    second,
                    locate,
                ),
            }
        }),
{
    if let Err(error) = next_effect(run.actor, grants, s, run.session, op, at) {
        refusing_ends(s, run.session, op.id, error.0, at.now);
    }
}

/// After a place was made and recorded, and while the operation is under way, a start with a
/// branch goes on exactly where the operation's resources name a worktree; without one it is
/// refused as not ready. A start without a branch goes on. What the native side could not do ends
/// the operation.
pub proof fn branches_need_their_worktrees(
    run: ExecutionModel,
    grants: Seq<GrantModel>,
    s: StoreModel,
    ids: IdsModel,
    task_id: Text,
    request: StartRequestModel,
    op: OperationModel,
    task: TaskModel,
    reply: BindingReplyModel,
    at: Moment,
)
    ensures
        ({
            let (then, later, next) = start_step(
                run,
                grants,
                s,
                ids,
                task_id,
                request,
                StartStageModel::Cleared { op, task },
                StartEventModel::Place(reply),
                at,
            );
            &&& then == grants
            &&& match reply {
                BindingReplyModel::Failed(failure) => fails_as(
                    s,
                    run.session,
                    op.id,
                    failure,
                    at.now,
                    later,
                    next,
                ),
                BindingReplyModel::Bound(binding) => match checkpoint_outcome(
                    s,
                    run.session,
                    op.id,
                    binding,
                    at.now,
                ) {
                    Err(error) => later == s && next == StartNextModel::Finished(Err(error)),
                    Ok((store, placed)) => {
                        let under_way = placed.state == OperationState::Submitting;
                        let goes_on = later == store && next == StartNextModel::Await(
                            StartStageModel::Placed { op: placed },
                        );
                        let not_ready = ends_as(
                            store,
                            run.session,
                            placed.id,
                            OperationState::Refused,
                            Some(FailureCode::NotReady),
                            at.now,
                            later,
                            next,
                        ) && next is Finished;
                        &&& !under_way ==> later == store && next == StartNextModel::Finished(
                            Ok(MutationModel { value: placed, replayed: false }),
                        )
                        &&& under_way && request.branch_name is None ==> goes_on
                        &&& under_way && request.branch_name is Some ==> (goes_on
                            <==> placed.resources.worktree_path is Some)
                        &&& under_way && request.branch_name is Some ==> (not_ready
                            <==> placed.resources.worktree_path is None)
                    },
                },
            }
        }),
{
    reveal(checkpointed);
    match reply {
        BindingReplyModel::Failed(failure) => {
            failing_ends(s, run.session, op.id, failure, at.now);
        },
        BindingReplyModel::Bound(binding) => {
            if let Ok((store, placed)) = checkpoint_outcome(
                s,
                run.session,
                op.id,
                binding,
                at.now,
            ) {
                refusing_ends(store, run.session, placed.id, FailureCode::NotReady, at.now);
            }
        },
    }
}

/// The worktree of a branch may come with the place or have been known before: in a well-formed
/// store a start with a branch whose place was recorded goes on exactly where one of the two names
/// it.
pub proof fn worktrees_come_with_the_place(
    run: ExecutionModel,
    grants: Seq<GrantModel>,
    s: StoreModel,
    ids: IdsModel,
    task_id: Text,
    request: StartRequestModel,
    op: OperationModel,
    task: TaskModel,
    binding: NativeBindingModel,
    at: Moment,
)
    requires
        well_formed(s),
        request.branch_name is Some,
        checkpoint_outcome(s, run.session, op.id, binding, at.now) matches Ok((_, placed))
            && placed.state == OperationState::Submitting,
    ensures
        ({
            let was = loaded::<Operation>(s, run.session, op.id)->Ok_0;
            let (_, _, next) = start_step(
                run,
                grants,
                s,
                ids,
                task_id,
                request,
                StartStageModel::Cleared { op, task },
                StartEventModel::Place(BindingReplyModel::Bound(binding)),
                at,
            );
            next is Await <==> (was.resources.worktree_path is Some || binding.worktree_path is Some)
        }),
{
    let reply = BindingReplyModel::Bound(binding);
    branches_need_their_worktrees(run, grants, s, ids, task_id, request, op, task, reply, at);
    checkpointing_is_exact(s, run.session, op.id, binding, at.now);
}

/// After the place was located and recorded, and while the operation is under way, a start goes on
/// where launches under its task are open and the operation's resources name a pane: with that
/// pane. It is refused for what closed the launches, or as not ready without a pane.
pub proof fn launches_need_their_pane(
    run: ExecutionModel,
    grants: Seq<GrantModel>,
    s: StoreModel,
    ids: IdsModel,
    task_id: Text,
    request: StartRequestModel,
    op: OperationModel,
    reply: BindingReplyModel,
    at: Moment,
)
    ensures
        ({
            let (then, later, next) = start_step(
                run,
                grants,
                s,
                ids,
                task_id,
                request,
                StartStageModel::Recleared { op },
                StartEventModel::Locate(reply),
                at,
            );
            &&& then == grants
            &&& match reply {
                BindingReplyModel::Failed(failure) => fails_as(
                    s,
                    run.session,
                    op.id,
                    failure,
                    at.now,
                    later,
                    next,
                ),
                BindingReplyModel::Bound(binding) => match checkpoint_outcome(
                    s,
                    run.session,
                    op.id,
                    binding,
                    at.now,
                ) {
                    Err(error) => later == s && next == StartNextModel::Finished(Err(error)),
                    Ok((store, found)) => {
                        let under_way = found.state == OperationState::Submitting;
                        let open = launch_open(store, run.session, task_id);
                        &&& !under_way ==> later == store && next == StartNextModel::Finished(
                            Ok(MutationModel { value: found, replayed: false }),
                        )
                        &&& next is Await <==> under_way && open is Ok && found.resources.pane_id
                            is Some
                        &&& next is Await ==> later == store && next == StartNextModel::Await(
                            StartStageModel::Located { op: found, pane: found.resources.pane_id->0 },
                        )
                        &&& under_way && (open matches Err(error)) ==> ends_as(
                            store,
                            run.session,
                            found.id,
                            OperationState::Refused,
                            Some(open->Err_0.0),
                            at.now,
                            later,
                            next,
                        )
                        &&& under_way && open is Ok && found.resources.pane_id is None ==> ends_as(
                            store,
                            run.session,
                            found.id,
                            OperationState::Refused,
                            Some(FailureCode::NotReady),
                            at.now,
                            later,
                            next,
                        )
                    },
                },
            }
        }),
{
    reveal(checkpointed);
    match reply {
        BindingReplyModel::Failed(failure) => {
            failing_ends(s, run.session, op.id, failure, at.now);
        },
        BindingReplyModel::Bound(binding) => {
            if let Ok((store, found)) = checkpoint_outcome(
                s,
                run.session,
                op.id,
                binding,
                at.now,
            ) {
                if let Err(error) = launch_open(store, run.session, task_id) {
                    refusing_ends(store, run.session, found.id, error.0, at.now);
                }
                refusing_ends(store, run.session, found.id, FailureCode::NotReady, at.now);
            }
        },
    }
}

/// A dispatch that may be claimed is claimed, and the launch is asked for with the pane that was
/// located; one that may not ends the operation for the reason that was found.
pub proof fn claims_come_before_launches(
    run: ExecutionModel,
    grants: Seq<GrantModel>,
    s: StoreModel,
    ids: IdsModel,
    task_id: Text,
    request: StartRequestModel,
    op: OperationModel,
    pane: Text,
    at: Moment,
)
    ensures
        ({
            let (then, later, next) = start_step(
                run,
                grants,
                s,
                ids,
                task_id,
                request,
                StartStageModel::Located { op, pane },
                StartEventModel::Observed,
                at,
            );
            match step_taken(run.actor, grants, s, ids.first, run.session, op, true, at) {
                Err(error) => ends_as(
                    s,
                    run.session,
                    op.id,
                    OperationState::Refused,
                    Some(error.0),
                    at.now,
                    later,
                    next,
                ),
                Ok((store, claimed)) => later == store && next == StartNextModel::Await(
                    StartStageModel::Claimed { op: claimed, pane },
                ),
            }
        }),
{
    if let Err(error) = step_taken(run.actor, grants, s, ids.first, run.session, op, true, at) {
        refusing_ends(s, run.session, op.id, error.0, at.now);
    }
}

/// A launch ends its start. What it made is recorded, with the epoch of its owner where there is
/// one; it is acknowledged exactly where the operation's resources name an instance, and
/// unconfirmed otherwise. Proof that no process was made counts for its own operation alone, and
/// is kept before the operation is refused. Other failures end the operation as they ask.
#[verifier::rlimit(60)]
#[verifier::spinoff_prover]
pub proof fn launches_end_starts(
    run: ExecutionModel,
    grants: Seq<GrantModel>,
    s: StoreModel,
    ids: IdsModel,
    task_id: Text,
    request: StartRequestModel,
    op: OperationModel,
    pane: Text,
    reply: LaunchReplyModel,
    at: Moment,
)
    ensures
        ({
            let (then, later, next) = start_step(
                run,
                grants,
                s,
                ids,
                task_id,
                request,
                StartStageModel::Claimed { op, pane },
                StartEventModel::Launch(reply),
                at,
            );
            &&& then == grants
            &&& next is Finished
            &&& match reply {
                LaunchReplyModel::Launched { binding, owner_epoch } => match if owner_epoch is Some {
                    launch_outcome(s, run.session, op.id, binding, owner_epoch->0, at.now)
                } else {
                    checkpoint_outcome(s, run.session, op.id, binding, at.now)
                } {
                    Err(error) => later == s && next == StartNextModel::Finished(Err(error)),
                    Ok((store, launched)) => {
                        &&& launched.resources.instance_id is Some ==> ends_as(
                            store,
                            run.session,
                            launched.id,
                            OperationState::Acknowledged,
                            None,
                            at.now,
                            later,
                            next,
                        )
                        &&& launched.resources.instance_id is None ==> ends_as(
                            store,
                            run.session,
                            launched.id,
                            OperationState::Unconfirmed,
                            Some(FailureCode::DeliveryUnconfirmed),
                            at.now,
                            later,
                            next,
                        )
                    },
                },
                LaunchReplyModel::Failed(failure) => match failure {
                    NativeFailureModel::StartNotStarted {
                        operation_id,
                        owner_epoch,
                        receipt_id,
                        code,
                    } => if operation_id == op.id {
                        match start_refusal_outcome(
                            s,
                            run.session,
                            op.id,
                            owner_epoch,
                            receipt_id,
                            at.now,
                        ) {
                            Err(error) => later == s && next == StartNextModel::Finished(Err(error)),
                            Ok((store, _)) => fails_as(
                                store,
                                run.session,
                                op.id,
                                failure,
                                at.now,
                                later,
                                next,
                            ),
                        }
                    } else {
                        later == s && next == StartNextModel::Finished(
                            Err(WorkError(FailureCode::ScopeMismatch)),
                        )
                    },
                    _ => fails_as(s, run.session, op.id, failure, at.now, later, next),
                },
            }
        }),
{
    match reply {
        LaunchReplyModel::Failed(failure) => {
            failing_ends(s, run.session, op.id, failure, at.now);
            if let NativeFailureModel::StartNotStarted { owner_epoch, receipt_id, .. } = failure {
                proof_is_kept(s, run.session, op, owner_epoch, receipt_id, at.now);
                if let Ok((store, _)) = start_refusal_outcome(
                    s,
                    run.session,
                    op.id,
                    owner_epoch,
                    receipt_id,
                    at.now,
                ) {
                    failing_ends(store, run.session, op.id, failure, at.now);
                }
            }
        },
        LaunchReplyModel::Launched { binding, owner_epoch } => {
            launch_is_recorded(s, run.session, op, binding, owner_epoch, at.now);
            let recorded = launch_recorded(s, run.session, op, binding, owner_epoch, at.now);
            if let Ok((store, launched)) = recorded {
                failing_ends(store, run.session, launched.id, NativeFailureModel::Other, at.now);
                doing_ends(store, run.session, launched.id, at.now);
            }
        },
    }
}

} // verus!
