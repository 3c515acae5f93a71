//! What an actor has leave to do.
use vstd::prelude::*;
use crate::value::Text;
use crate::work::model::CreateTaskModel;
use crate::work::model::DelegationFenceModel;
use crate::work::model::FailureCode;
use crate::work::model::FrozenInputRefModel;
use crate::work::model::MutationModel;
use crate::work::model::NewAttemptModel;
use crate::work::model::Operation;
use crate::work::model::OperationKind;
use crate::work::model::OperationModel;
use crate::work::model::OperationState;
use crate::work::model::Task;
use crate::work::model::TaskModel;
use crate::work::model::WorkError;
use crate::work::store::admissions::fences_in_force_coordinate;
use crate::work::store::admissions::in_force;
use crate::work::store::attempts::StartModel;
use crate::work::store::attempts::dispatch_outcome;
use crate::work::store::attempts::start_outcome;
use crate::work::store::authority::DelegatedCreateModel;
use crate::work::store::authority::OperationTargetModel;
use crate::work::store::authority::delegated_inputs;
use crate::work::store::authority::governs_id;
use crate::work::store::delegation::delegated_create_replayed;
use crate::work::store::delegation::dependencies_outcome;
use crate::work::store::deliveries::DeliveryModel;
use crate::work::store::deliveries::PromiseModel;
use crate::work::store::deliveries::delivery_outcome;
use crate::work::store::freshness::tasks_stand;
use crate::work::store::history::well_formed;
use crate::work::store::operations::begin_outcome;
use crate::work::store::pagination::immutable_record_of;
use crate::work::store::pagination::records_paged;
use crate::work::store::readings::details_are_whole;
use crate::work::store::records::loaded;
use crate::work::store::rules::launchable;
use crate::work::store::tables::StoreModel;
use crate::work::store::tasks::detail_of;
use crate::work_actor::AuthorityModel;
use crate::work_actor::ChildPlanModel;
use crate::work_actor::ChildRecordModel;
use crate::work_actor::CommitModel;
use crate::work_actor::IdsModel;
use crate::work_actor::Moment;
use crate::work_actor::Observation;
use crate::work_actor::WorkActorModel;
use crate::work_actor::admitted;
use crate::work_actor::advanced;
use crate::work_actor::child_dependencies_set;
use crate::work_actor::child_planned;
use crate::work_actor::child_read;
use crate::work_actor::cleared_to_act;
use crate::work_actor::delivery_prepared;
use crate::work_actor::detail_seen;
use crate::work_actor::looked_at;
use crate::work_actor::next_effect;
use crate::work_actor::start_prepared;
use crate::work_actor::step_taken;
use crate::work_authority::GrantModel;
use crate::work_authority::delegated;
use crate::work_authority::invalidated;
use crate::work_authority::keeping::coordination_is_taken_exactly;
use crate::work_authority::keeping::reports_alike;
use crate::work_delegation::ChildReadRequestModel;
use crate::work_delegation::CreateChildRequestModel;
use crate::work_delegation::DependencyUpdateRequestModel;
use crate::work_execution::DeliveryRequestModel;
use crate::work_execution::StartRequestModel;

verus! {

/// A look at a coordinator's process lets it go on exactly where it was seen alive; a device is
/// not looked at. A process that has exited loses its coordination, and no other grant loses
/// anything; any other look changes nothing.
pub proof fn looks_decide(
    actor: WorkActorModel,
    grants: Seq<GrantModel>,
    seen: Observation,
    k: int,
)
    requires
        0 <= k < grants.len(),
    ensures
        ({
            let (later, res) = looked_at(actor, grants, seen);
            let lead = actor.authority;
            let own = grants[k].scope == lead->principal.scope && grants[k].delegation == Some(
                lead->principal.fence,
            );
            &&& res is Ok <==> (lead is Paired || seen == Observation::Live)
            &&& res matches Err(error) ==> error.0 == FailureCode::NotReady
            &&& lead is Paired || seen != Observation::Exited ==> later == grants
            &&& later.len() == grants.len()
            &&& reports_alike(grants[k], later[k])
            &&& lead is LocalLead && seen == Observation::Exited && own ==> later[k].delegation
                is None
            &&& !(lead is LocalLead && own) ==> later[k] == grants[k]
        }),
{
    if let AuthorityModel::LocalLead { token: _, principal } = actor.authority {
        coordination_is_taken_exactly(
            grants,
            principal.scope,
            principal.fence,
            principal.scope.session_id,
            principal.scope.task_id,
            k,
        );
        assert(invalidated(grants, principal.scope, principal.fence)[k] == grants[k]
            || grants[k].scope == principal.scope);
    }
}

/// A device has leave exactly where it may still act, under its own name and without a fence. A
/// lead has leave exactly where its token still coordinates in the scope and under the fence that
/// it began with, in the session of that scope, and the fence is in force; under the name that the
/// grant gives it.
pub proof fn leave_is_given_exactly(
    actor: WorkActorModel,
    grants: Seq<GrantModel>,
    s: StoreModel,
    session: Text,
    at: Moment,
)
    requires
        well_formed(s),
    ensures
        ({
            let res = admitted(actor, grants, s, session, at);
            match actor.authority {
                AuthorityModel::Paired => {
                    &&& res is Ok <==> at.device is Ok
                    &&& res matches Ok(commit) ==> commit.actor == actor.id && commit.fence is None
                    &&& res matches Err(error) ==> Err::<(), WorkError>(error) == at.device
                },
                AuthorityModel::LocalLead { token, principal } => {
                    let current = delegated(grants, token, at.now);
                    let same = current matches Ok(now) && now.scope == principal.scope && now.fence
                        == principal.fence && principal.scope.session_id == session;
                    &&& res is Ok <==> same && in_force(s, session, principal.fence)
                    &&& res matches Ok(commit) ==> commit.actor == current->Ok_0.actor_id
                        && commit.fence == Some(principal.fence)
                    &&& current matches Ok(_) ==> !same ==> (res matches Err(error) && error.0
                        == FailureCode::ScopeMismatch)
                    &&& current matches Err(error) ==> (res matches Err(other) && other == error)
                },
            }
        }),
{
    if let AuthorityModel::LocalLead { token: _, principal } = actor.authority {
        fences_in_force_coordinate(s, session, principal.fence);
    }
}

/// Leave to act takes both: a look that lets the actor go on, and leave at that moment.
pub proof fn acting_takes_a_look_and_leave(
    actor: WorkActorModel,
    grants: Seq<GrantModel>,
    s: StoreModel,
    session: Text,
    at: Moment,
)
    ensures
        cleared_to_act(actor, grants, s, session, at) is Ok <==> (actor.authority is Paired
            || at.seen == Observation::Live) && admitted(actor, grants, s, session, at) is Ok,
        cleared_to_act(actor, grants, s, session, at) is Ok ==> cleared_to_act(
            actor,
            grants,
            s,
            session,
            at,
        ) == admitted(actor, grants, s, session, at),
        cleared_to_act(actor, grants, s, session, at) matches Err(error) ==> {
            ||| actor.authority is LocalLead && at.seen != Observation::Live && error.0
                == FailureCode::NotReady
            ||| admitted(actor, grants, s, session, at) matches Err(other) && other == error
        },
{
}

/// A coordinator reads of a child what is recorded of it: the task, one record that never changes,
/// or a page of twenty records of one kind in a given state. Only a child that it governs is read,
/// and a request that mixes these is invalid.
pub proof fn children_are_read_as_recorded(
    s: StoreModel,
    session: Text,
    fence: Option<DelegationFenceModel>,
    request: ChildReadRequestModel,
)
    requires
        well_formed(s),
    ensures
        ({
            let res = child_read(s, session, fence, request);
            let governed = fence matches Some(fence) && governs_id(
                s,
                session,
                fence,
                request.task_id,
            ) is Ok;
            let whole = request.kind is None;
            let single = request.kind is Some && request.record_id is Some;
            let clean = {
                ||| whole && request.record_id is None && request.snapshot_revision is None
                    && request.after_id is None
                ||| single && request.snapshot_revision is None && request.after_id is None
                ||| !whole && !single && request.snapshot_revision is Some
            };
            &&& res is Ok ==> governed && clean
            &&& fence is None ==> (res matches Err(error) && error.0 == FailureCode::ScopeMismatch)
            &&& governed && !clean ==> (res matches Err(error) && error.0
                == FailureCode::InvalidInput)
            &&& governed && clean && whole ==> (res matches Ok(record) && (record matches
                ChildRecordModel::Task { task, cursor } && loaded::<Task>(
                s,
                session,
                request.task_id,
            ) == Ok::<TaskModel, WorkError>(task) && (s.changes.len() > 0 ==> cursor
                == s.changes.last().cursor) && (s.changes.len() == 0 ==> cursor == 0)))
            &&& governed && clean && single ==> match immutable_record_of(
                s,
                session,
                request.task_id,
                request.kind->0,
                request.record_id->0,
            ) {
                Ok(record) => res == Ok::<ChildRecordModel, WorkError>(
                    ChildRecordModel::Record(record),
                ),
                Err(error) => res matches Err(other) && other == error,
            }
            &&& governed && clean && !whole && !single ==> match records_paged(
                s,
                session,
                request.task_id,
                request.kind->0,
                request.snapshot_revision->0,
                request.after_id,
                20,
            ) {
                Ok(page) => res == Ok::<ChildRecordModel, WorkError>(ChildRecordModel::Page(page)),
                Err(error) => res matches Err(other) && other == error,
            }
        }),
{
    details_are_whole(s, session, request.task_id);
}

/// What a coordinator asks for as a child is a task below its own, in the same repository, as it
/// was asked for, once its inputs are admitted for its own task. A request that was carried out
/// before is answered as before.
pub proof fn children_are_planned_below_their_coordinator(
    s: StoreModel,
    session: Text,
    commit: CommitModel,
    request: CreateChildRequestModel,
    now: i64,
)
    requires
        well_formed(s),
    ensures
        ({
            let res = child_planned(s, session, commit, request, now);
            &&& commit.fence is None ==> (res matches Err(error) && error.0
                == FailureCode::ScopeMismatch)
            &&& res matches Ok(plan) ==> (commit.fence matches Some(fence) && (loaded::<Task>(
                s,
                session,
                fence.coordinator_task_id,
            ) matches Ok(parent) && ({
                let input = CreateTaskModel {
                    repo_path: parent.repo_path,
                    title: request.title,
                    brief: request.brief,
                    parent_task_id: Some(fence.coordinator_task_id),
                    policy: request.policy,
                };
                let context = DelegatedCreateModel {
                    fence,
                    expected_parent_revision: request.expected_parent_revision,
                    dependencies: request.dependencies,
                };
                let before = delegated_create_replayed(
                    s,
                    commit.actor,
                    session,
                    request.request_key,
                    input,
                    request.input_refs,
                    context,
                );
                match plan {
                    ChildPlanModel::Replayed(found) => before == Ok::<
                        Option<MutationModel<TaskModel>>,
                        WorkError,
                    >(Some(found)),
                    ChildPlanModel::Render { input: asked, inputs } => asked == input && before
                        == Ok::<Option<MutationModel<TaskModel>>, WorkError>(None)
                        && delegated_inputs(
                        s,
                        commit.actor,
                        session,
                        fence,
                        None,
                        request.input_refs,
                        now,
                    ) == Ok::<Seq<FrozenInputRefModel>, WorkError>(inputs),
                }
            })))
        }),
{
    if let Some(fence) = commit.fence {
        tasks_stand(s, session, fence.coordinator_task_id);
    }
}

/// A device takes an operation on as it is; a lead means its own operation: the task and the
/// attempt that it was recorded with, under the lead's fence. A dispatch is claimed for starts
/// alone; anything else is begun as what it is.
pub proof fn operations_are_taken_on_exactly(
    s: StoreModel,
    fact_id: Text,
    session: Text,
    op: OperationModel,
    dispatch: bool,
    fence: Option<DelegationFenceModel>,
    now: i64,
)
    ensures
        ({
            let res = advanced(s, fact_id, session, op, dispatch, fence, now);
            let kind = if dispatch {
                OperationKind::StartAttempt
            } else {
                op.kind
            };
            let target: Option<OperationTargetModel> = if fence is Some {
                Some(
                    OperationTargetModel {
                        task_id: op.task_id,
                        attempt_id: op.attempt_id->0,
                        kind,
                        fence: fence->0,
                    },
                )
            } else {
                None
            };
            &&& fence is Some && op.attempt_id is None ==> (res matches Err(error) && error.0
                == FailureCode::ScopeMismatch)
            &&& fence is None || op.attempt_id is Some ==> res == if dispatch {
                dispatch_outcome(s, fact_id, session, op.id, target, now)
            } else {
                begin_outcome(s, fact_id, session, op.id, target, now)
            }
        }),
{
}

/// The next native effect of an operation is allowed to a device; to a lead exactly where it has
/// leave, governs the operation's task, and the operation is recorded under its fence, with the
/// task and the attempt that it means, is under way, and launches under its task are open.
pub proof fn effects_are_allowed_exactly(
    actor: WorkActorModel,
    grants: Seq<GrantModel>,
    s: StoreModel,
    session: Text,
    op: OperationModel,
    at: Moment,
)
    ensures
        actor.authority is Paired ==> next_effect(actor, grants, s, session, op, at) is Ok,
        actor.authority is LocalLead ==> (next_effect(actor, grants, s, session, op, at) is Ok <==> (
        cleared_to_act(actor, grants, s, session, at) matches Ok(commit) && (commit.fence matches
            Some(fence) && (loaded::<Operation>(s, session, op.id) matches Ok(current)
            && governs_id(s, session, fence, current.task_id) is Ok && current.delegation_fence
            == Some(fence) && current.task_id == op.task_id && current.attempt_id == op.attempt_id
            && current.state == OperationState::Submitting && (loaded::<Task>(
            s,
            session,
            op.task_id,
        ) matches Ok(task) && launchable(s, task.session_id, task, Seq::empty()) is Ok))))),
        actor.authority is LocalLead ==> (cleared_to_act(actor, grants, s, session, at) matches Err(
            error,
        ) ==> (next_effect(actor, grants, s, session, op, at) matches Err(other) && other
            == error)),
{
    reveal(next_effect);
}

/// An intent to start is recorded as it was asked for, in the actor's name and under its fence;
/// without leave nothing is recorded.
pub proof fn starts_are_prepared_as_asked(
    actor: WorkActorModel,
    grants: Seq<GrantModel>,
    s: StoreModel,
    ids: IdsModel,
    session: Text,
    task: Text,
    request: StartRequestModel,
    digest: Text,
    at: Moment,
)
    ensures
        match cleared_to_act(actor, grants, s, session, at) {
            Err(error) => start_prepared(
                actor,
                grants,
                s,
                ids,
                session,
                task,
                request,
                digest,
                at,
            ) matches Err(other) && other == error,
            Ok(commit) => start_prepared(actor, grants, s, ids, session, task, request, digest, at)
                == start_outcome(
                s,
                ids.first,
                ids.second,
                ids.third,
                (StartModel {
                    actor: commit.actor,
                    session,
                    task_id: task,
                    key: request.request_key,
                    expected_revision: request.expected_revision,
                    input: NewAttemptModel { agent_kind: request.agent_kind, role: request.role },
                    digest,
                }),
                commit.fence,
                at.now,
            ),
        },
{
    reveal(start_prepared);
}

/// An intent to deliver is recorded as it was asked for, in the actor's name and under its fence,
/// with the inputs and the final prompt that were promised; without leave nothing is recorded.
pub proof fn deliveries_are_prepared_as_asked(
    actor: WorkActorModel,
    grants: Seq<GrantModel>,
    s: StoreModel,
    id: Text,
    session: Text,
    task: Text,
    attempt: Text,
    request: DeliveryRequestModel,
    instructions: Text,
    inputs: Seq<FrozenInputRefModel>,
    digest: Text,
    at: Moment,
)
    ensures
        ({
            let res = delivery_prepared(
                actor,
                grants,
                s,
                id,
                session,
                task,
                attempt,
                request,
                instructions,
                inputs,
                digest,
                at,
            );
            match cleared_to_act(actor, grants, s, session, at) {
                Err(error) => res matches Err(other) && other == error,
                Ok(commit) => res == delivery_outcome(
                    s,
                    id,
                    (DeliveryModel {
                        actor: commit.actor,
                        session,
                        task_id: task,
                        attempt_id: attempt,
                        key: request.request_key,
                        expected_revision: request.expected_revision,
                        expected_instance: request.expected_instance_id,
                        text: request.text,
                        instruction_version: Some(instructions),
                        input_refs: request.input_refs,
                    }),
                    Some(PromiseModel { expected_inputs: inputs, final_prompt_digest: digest }),
                    commit.fence,
                    at.now,
                ),
            }
        }),
{
    reveal(delivery_prepared);
}

/// An actor takes a step exactly where it has leave, and then as the operation asks.
pub proof fn steps_take_leave(
    actor: WorkActorModel,
    grants: Seq<GrantModel>,
    s: StoreModel,
    fact_id: Text,
    session: Text,
    op: OperationModel,
    dispatch: bool,
    at: Moment,
)
    ensures
        match cleared_to_act(actor, grants, s, session, at) {
            Err(error) => step_taken(
                actor,
                grants,
                s,
                fact_id,
                session,
                op,
                dispatch,
                at,
            ) matches Err(
                other,
            ) && other == error,
            Ok(commit) => step_taken(actor, grants, s, fact_id, session, op, dispatch, at)
                == advanced(s, fact_id, session, op, dispatch, commit.fence, at.now),
        },
{
    reveal(step_taken);
}

/// An actor sees the detail of a task: a device of any, a lead of the children that it governs.
pub proof fn details_are_seen_exactly(
    s: StoreModel,
    session: Text,
    fence: Option<DelegationFenceModel>,
    task: Text,
)
    ensures
        ({
            let res = detail_seen(s, session, fence, task);
            let allowed = fence is None || governs_id(s, session, fence->0, task) is Ok;
            &&& allowed ==> res == detail_of(s, session, task)
            &&& !allowed ==> res is Err
        }),
{
}

/// A lead gives a child prerequisites in the session of its own scope, under its own fence and
/// name; a device does not, and without leave nothing changes.
pub proof fn children_are_given_prerequisites_by_leads(
    actor: WorkActorModel,
    grants: Seq<GrantModel>,
    s: StoreModel,
    id: Text,
    task_id: Text,
    request: DependencyUpdateRequestModel,
    at: Moment,
)
    ensures
        ({
            let res = child_dependencies_set(actor, grants, s, id, task_id, request, at);
            let session = actor.authority->principal.scope.session_id;
            &&& actor.authority is Paired ==> (res matches Err(error) && error.0
                == FailureCode::ScopeMismatch)
            &&& actor.authority is LocalLead ==> match cleared_to_act(
                actor,
                grants,
                s,
                session,
                at,
            ) {
                Err(error) => res matches Err(other) && other == error,
                Ok(commit) => commit.fence is Some && res == dependencies_outcome(
                    s,
                    id,
                    commit.actor,
                    session,
                    task_id,
                    request.request_key,
                    request.expected_revision,
                    request.dependencies,
                    commit.fence,
                    at.now,
                ),
            }
        }),
{
}

} // verus!
