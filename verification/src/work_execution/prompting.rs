//! What a delivery answers at each of its stages.
use vstd::utf8::encode_utf8;
use vstd::prelude::*;
use crate::digest::sha256_hex;
use crate::value::Text;
use crate::work::model::AttemptModel;
use crate::work::model::FailureCode;
use crate::work::model::FrozenInputRefModel;
use crate::work::model::MutationModel;
use crate::work::model::NativeBindingModel;
use crate::work::model::OperationKind;
use crate::work::model::OperationModel;
use crate::work::model::OperationOutcomeModel;
use crate::work::model::OperationState;
use crate::work::model::Reservation;
use crate::work::model::TaskDetailModel;
use crate::work::model::WorkError;
use crate::work::model::WorkResult;
use crate::work::store::deliveries::DeliveryModel;
use crate::work::store::deliveries::any_prompt;
use crate::work::store::deliveries::prompted_by;
use crate::work::store::deliveries::redelivered;
use crate::work::store::operations::finalize_outcome;
use crate::work::store::operations::refuse_outcome;
use crate::work::store::tables::StoreModel;
use crate::work_actor::IdsModel;
use crate::work_actor::Moment;
use crate::work_actor::admitted;
use crate::work_actor::delivery_prepared;
use crate::work_actor::detail_seen;
use crate::work_actor::inputs_seen;
use crate::work_actor::step_taken;
use crate::work_authority::GrantModel;
use crate::work_execution::DeliveryRequestModel;
use crate::work_execution::ExecutionModel;
use crate::work_execution::NativeAnswerModel;
use crate::work_execution::delivery::DeliveryEventModel;
use crate::work_execution::delivery::DeliveryNextModel;
use crate::work_execution::delivery::DeliveryStageModel;
use crate::work_execution::delivery::attempt_in;
use crate::work_execution::delivery::attempts_are_found;
use crate::work_execution::delivery::delivery_begun;
use crate::work_execution::delivery::delivery_step;
use crate::work_execution::delivery::delivery_vetted;
use crate::work_execution::delivery::vetted;
use crate::work_execution::ending;
use crate::work_execution::op_finished;
use crate::work_execution::prepared_refused;

verus! {

/// A native answer ends an operation as far as it proves something: done acknowledges it, an
/// unknown effect leaves it unconfirmed, and everything that surely had none refuses it, for the
/// reason that was named.
pub proof fn native_answers_end_exactly(answer: NativeAnswerModel)
    ensures
        ({
            let (state, reason) = ending(answer);
            let failure = answer->Failed_0;
            let refused_with: Option<Text> = if answer is Failed && failure is Refused {
                failure->Refused_code
            } else {
                None
            };
            let unstarted_with: Option<Text> = if answer is Failed && failure is StartNotStarted {
                failure->StartNotStarted_code
            } else {
                None
            };
            &&& state == OperationState::Acknowledged <==> answer is Done
            &&& state == OperationState::Unconfirmed <==> answer is Failed && failure is Other
            &&& state == OperationState::Refused <==> answer is Failed && !(failure is Other)
            &&& reason is None <==> answer is Done
            &&& reason == Some(FailureCode::DeliveryUnconfirmed) <==> answer is Failed && failure
                is Other
            &&& reason == Some(FailureCode::CapabilityUnavailable) <==> answer is Failed && (failure
                is Unsupported || refused_with == Some("unsupported_agent_kind"@) || unstarted_with
                == Some("unsupported_agent_kind"@))
            &&& reason == Some(FailureCode::ResourceLimit) <==> unstarted_with == Some(
                "resource_limit"@,
            )
            &&& reason == Some(FailureCode::InstanceChanged) <==> refused_with == Some(
                "instance_changed"@,
            ) || refused_with == Some("launch_changed"@) || refused_with == Some("stale_launch"@)
            &&& reason == Some(FailureCode::ApprovalRequired) <==> refused_with == Some(
                "approval_required"@,
            ) || refused_with == Some("agent_blocked"@)
            &&& reason matches Some(code) ==> code == FailureCode::DeliveryUnconfirmed || code
                == FailureCode::CapabilityUnavailable || code == FailureCode::ResourceLimit || code
                == FailureCode::InstanceChanged || code == FailureCode::ApprovalRequired || code
                == FailureCode::NotReady
        }),
{
    reveal_strlit("unsupported_agent_kind");
    reveal_strlit("instance_changed");
    reveal_strlit("launch_changed");
    reveal_strlit("stale_launch");
    reveal_strlit("approval_required");
    reveal_strlit("agent_blocked");
    reveal_strlit("resource_limit");
    assert("approval_required"@.len() == 17);
    assert("instance_changed"@.len() == 16);
    assert("launch_changed"@.len() == 14);
    assert("resource_limit"@.len() == 14);
    assert("stale_launch"@.len() == 12);
    assert("agent_blocked"@.len() == 13);
    assert("unsupported_agent_kind"@.len() == 22);
}

/// A delivery is asked for by its own actor, with leave; one that was carried out before ends at
/// once with the earlier answer. Nothing is written.
pub proof fn deliveries_are_asked_for(
    run: ExecutionModel,
    grants: Seq<GrantModel>,
    s: StoreModel,
    actor: Text,
    task: Text,
    attempt: Text,
    request: DeliveryRequestModel,
    instructions: Text,
    at: Moment,
)
    ensures
        ({
            let next = delivery_begun(
                run,
                grants,
                s,
                actor,
                task,
                attempt,
                request,
                instructions,
                at,
            );
            let leave = admitted(run.actor, grants, s, run.session, at);
            let asked = DeliveryModel {
                actor: leave->Ok_0.actor,
                session: run.session,
                task_id: task,
                attempt_id: attempt,
                key: request.request_key,
                expected_revision: request.expected_revision,
                expected_instance: request.expected_instance_id,
                text: request.text,
                instruction_version: Some(instructions),
                input_refs: request.input_refs,
            };
            let before = redelivered(s, asked, leave->Ok_0.fence);
            &&& next is Await <==> run.actor.id == actor && leave is Ok && (before matches Ok(found)
                && found is None)
            &&& next is Await ==> next == DeliveryNextModel::Await(DeliveryStageModel::Asked)
            &&& run.actor.id != actor ==> next == DeliveryNextModel::Finished(
                Err(WorkError(FailureCode::ScopeMismatch)),
            )
            &&& run.actor.id == actor && leave is Err ==> next == DeliveryNextModel::Finished(
                Err(leave->Err_0),
            )
            &&& run.actor.id == actor && leave is Ok ==> (before matches Ok(Some(found)) ==> next
                == DeliveryNextModel::Finished(Ok(found)))
            &&& run.actor.id == actor && leave is Ok ==> (before matches Err(error) ==> next
                == DeliveryNextModel::Finished(Err(error)))
        }),
{
    reveal(delivery_begun);
}

/// Whether an attempt of a task is the one that a prompt is meant for: the task stands at the
/// revision that the caller knows, and the attempt runs as the instance that the caller knows and
/// holds its place.
pub open spec fn is_meant(
    detail: TaskDetailModel,
    attempt: AttemptModel,
    request: DeliveryRequestModel,
) -> bool {
    &&& detail.task.revision == request.expected_revision
    &&& attempt.binding.instance_id == Some(request.expected_instance_id)
    &&& attempt.lifecycle.reservation == Reservation::Reserved
}

/// A prompt is vetted exactly where its attempt is an attempt of the task and the one that is
/// meant. It is the first exactly where no earlier prompt to the attempt went unrefused.
pub proof fn prompts_are_vetted_exactly(
    detail: TaskDetailModel,
    attempt_id: Text,
    request: DeliveryRequestModel,
    k: int,
)
    requires
        0 <= k < detail.attempts.len(),
        detail.attempts[k].id == attempt_id,
        forall|i: int, j: int|
            0 <= i < j < detail.attempts.len() ==> (#[trigger] detail.attempts[i]).id != (
            #[trigger] detail.attempts[j]).id,
    ensures
        ({
            let res = vetted(detail, attempt_id, request);
            let attempt = detail.attempts[k];
            &&& res is Ok <==> is_meant(detail, attempt, request)
            &&& res matches Ok((owner_epoch, first)) ==> owner_epoch
                == attempt.lifecycle.native_owner_epoch && (first <==> forall|i: int|
                0 <= i < detail.operations.len() ==> !((#[trigger] detail.operations[i]).kind
                    == OperationKind::DeliverPrompt && detail.operations[i].attempt_id == Some(
                    attempt_id,
                ) && detail.operations[i].state != OperationState::Refused))
            &&& res matches Err(error) ==> error.0 == (if detail.task.revision
                == request.expected_revision {
                FailureCode::InstanceChanged
            } else {
                FailureCode::RevisionConflict
            })
        }),
{
    attempts_are_found(detail.attempts, attempt_id);
    let i = attempt_in(detail.attempts, attempt_id)->0;
    if i < k {
        assert(detail.attempts[i].id != detail.attempts[k].id);
    } else if k < i {
        assert(detail.attempts[k].id != detail.attempts[i].id);
    }
    let all = detail.operations;
    if any_prompt(all, attempt_id) {
        let j = choose|j: int| 0 <= j < all.len() && prompted_by(#[trigger] all[j], attempt_id);
        assert(all[j].kind == OperationKind::DeliverPrompt);
    } else {
        assert forall|j: int| 0 <= j < all.len() implies !((#[trigger] all[j]).kind
            == OperationKind::DeliverPrompt && all[j].attempt_id == Some(attempt_id)
            && all[j].state != OperationState::Refused) by {
            assert(!prompted_by(all[j], attempt_id));
        }
    }
}

/// A delivery goes on exactly where the native side supports it, the actor has leave and sees the
/// task, the attempt is the one that is meant, and the inputs are admitted. It goes on with what
/// was found.
pub proof fn deliveries_are_vetted(
    run: ExecutionModel,
    grants: Seq<GrantModel>,
    s: StoreModel,
    ids: IdsModel,
    task: Text,
    attempt: Text,
    request: DeliveryRequestModel,
    instructions: Text,
    supported: bool,
    at: Moment,
)
    ensures
        ({
            let (then, later, next) = delivery_step(
                run,
                grants,
                s,
                ids,
                task,
                attempt,
                request,
                instructions,
                DeliveryStageModel::Asked,
                DeliveryEventModel::Support { supported },
                at,
            );
            let leave = admitted(run.actor, grants, s, run.session, at);
            let seen = detail_seen(s, run.session, leave->Ok_0.fence, task);
            let fit = vetted(seen->Ok_0, attempt, request);
            let given = inputs_seen(
                s,
                run.session,
                leave->Ok_0,
                seen->Ok_0.task,
                request.input_refs,
                at.now,
            );
            &&& then == grants && later == s
            &&& next is Await <==> supported && leave is Ok && seen is Ok && fit is Ok && given is Ok
            &&& next is Await ==> next == DeliveryNextModel::Await(
                DeliveryStageModel::Vetted {
                    owner_epoch: fit->Ok_0.0,
                    bootstrap: fit->Ok_0.1,
                    inputs: given->Ok_0,
                },
            )
            &&& !supported ==> next == DeliveryNextModel::Finished(
                Err(WorkError(FailureCode::CapabilityUnavailable)),
            )
            &&& supported && leave is Err ==> next == DeliveryNextModel::Finished(Err(leave->Err_0))
            &&& supported && leave is Ok && seen is Err ==> next == DeliveryNextModel::Finished(
                Err(seen->Err_0),
            )
            &&& supported && leave is Ok && seen is Ok && fit is Err ==> next
                == DeliveryNextModel::Finished(Err(fit->Err_0))
        }),
{
    reveal(delivery_vetted);
}

/// A process that would take the prompt lets the delivery go on, and one that would not ends it: a
/// blocked agent needs approval, an unsupported prompt cannot be bound, and anything else is not
/// ready. A rendered prompt goes on as it was rendered. Nothing is written.
pub proof fn prompts_are_checked_and_rendered(
    run: ExecutionModel,
    grants: Seq<GrantModel>,
    s: StoreModel,
    ids: IdsModel,
    task: Text,
    attempt: Text,
    request: DeliveryRequestModel,
    instructions: Text,
    owner_epoch: Option<Text>,
    bootstrap: bool,
    inputs: Seq<FrozenInputRefModel>,
    answer: NativeAnswerModel,
    rendered: WorkResult<Text>,
    at: Moment,
)
    ensures
        ({
            let (then, later, next) = delivery_step(
                run,
                grants,
                s,
                ids,
                task,
                attempt,
                request,
                instructions,
                DeliveryStageModel::Vetted { owner_epoch, bootstrap, inputs },
                DeliveryEventModel::Preflight(answer),
                at,
            );
            &&& then == grants && later == s
            &&& answer is Done ==> next == DeliveryNextModel::Await(
                DeliveryStageModel::Checked { bootstrap, inputs },
            )
            &&& answer matches NativeAnswerModel::Failed(failure) ==> next
                == DeliveryNextModel::Finished(
                Err(
                    WorkError(
                        if failure is Unsupported {
                            FailureCode::CapabilityUnavailable
                        } else if failure is Refused && failure->Refused_code == Some(
                            "agent_blocked"@,
                        ) {
                            FailureCode::ApprovalRequired
                        } else {
                            FailureCode::NotReady
                        },
                    ),
                ),
            )
        }),
        ({
            let (then, later, next) = delivery_step(
                run,
                grants,
                s,
                ids,
                task,
                attempt,
                request,
                instructions,
                DeliveryStageModel::Checked { bootstrap, inputs },
                DeliveryEventModel::Render(rendered),
                at,
            );
            &&& then == grants && later == s
            &&& rendered matches Ok(prompt) ==> next == DeliveryNextModel::Await(
                DeliveryStageModel::Rendered { inputs, prompt },
            )
            &&& rendered matches Err(error) ==> next == DeliveryNextModel::Finished(Err(error))
        }),
{
}

/// The intent to deliver is recorded with the inputs and the digest of the very prompt that was
/// rendered, and goes on with that prompt. One that was recorded before ends with the earlier
/// answer.
pub proof fn prompts_are_recorded_as_rendered(
    run: ExecutionModel,
    grants: Seq<GrantModel>,
    s: StoreModel,
    ids: IdsModel,
    task: Text,
    attempt: Text,
    request: DeliveryRequestModel,
    instructions: Text,
    inputs: Seq<FrozenInputRefModel>,
    prompt: Text,
    at: Moment,
)
    ensures
        ({
            let (then, later, next) = delivery_step(
                run,
                grants,
                s,
                ids,
                task,
                attempt,
                request,
                instructions,
                DeliveryStageModel::Rendered { inputs, prompt },
                DeliveryEventModel::Observed,
                at,
            );
            match delivery_prepared(
                run.actor,
                grants,
                s,
                ids.first,
                run.session,
                task,
                attempt,
                request,
                instructions,
                inputs,
                sha256_hex(encode_utf8(prompt)),
                at,
            ) {
                Err(error) => later == s && next == DeliveryNextModel::Finished(Err(error)),
                Ok((store, mutation)) => later == store && (if mutation.replayed {
                    next == DeliveryNextModel::Finished(Ok(mutation))
                } else {
                    next == DeliveryNextModel::Await(
                        DeliveryStageModel::Prepared { op: mutation.value, prompt },
                    )
                }),
            }
        }),
{
}

/// A delivery that may begin is begun, and its prompt is the one that was recorded; one that may
/// not is given up for the reason that was found.
pub proof fn deliveries_are_begun(
    run: ExecutionModel,
    grants: Seq<GrantModel>,
    s: StoreModel,
    ids: IdsModel,
    task: Text,
    attempt: Text,
    request: DeliveryRequestModel,
    instructions: Text,
    op: OperationModel,
    prompt: Text,
    at: Moment,
)
    ensures
        ({
            let (then, later, next) = delivery_step(
                run,
                grants,
                s,
                ids,
                task,
                attempt,
                request,
                instructions,
                DeliveryStageModel::Prepared { op, prompt },
                DeliveryEventModel::Observed,
                at,
            );
            match step_taken(run.actor, grants, s, ids.first, run.session, op, false, at) {
                Ok((store, begun)) => later == store && next == DeliveryNextModel::Await(
                    DeliveryStageModel::Begun { op: begun, prompt },
                ),
                Err(error) => match refuse_outcome(s, run.session, op.id, error.0, at.now) {
                    Ok((store, ended)) => later == store && next == DeliveryNextModel::Finished(
                        Ok(MutationModel { value: ended, replayed: false }),
                    ) && ended.state == OperationState::Refused && ended.failure_code == Some(
                        error.0,
                    ),
                    Err(worse) => later == s && next == DeliveryNextModel::Finished(Err(worse)),
                },
            }
        }),
{
    reveal(prepared_refused);
}

/// What the native side answers to a prompt ends the delivery, as far as the answer proves
/// something.
pub proof fn answers_end_deliveries(
    run: ExecutionModel,
    grants: Seq<GrantModel>,
    s: StoreModel,
    ids: IdsModel,
    task: Text,
    attempt: Text,
    request: DeliveryRequestModel,
    instructions: Text,
    op: OperationModel,
    prompt: Text,
    answer: NativeAnswerModel,
    at: Moment,
)
    ensures
        ({
            let (then, later, next) = delivery_step(
                run,
                grants,
                s,
                ids,
                task,
                attempt,
                request,
                instructions,
                DeliveryStageModel::Begun { op, prompt },
                DeliveryEventModel::Prompt(answer),
                at,
            );
            let end = OperationOutcomeModel {
                state: ending(answer).0,
                resources: NativeBindingModel {
                    workspace_id: None,
                    tab_id: None,
                    instance_id: None,
                    target: None,
                    pane_id: None,
                    worktree_path: None,
                },
                failure_code: ending(answer).1,
            };
            &&& then == grants
            &&& match finalize_outcome(s, run.session, op.id, end, at.now) {
                Ok((store, ended)) => later == store && next == DeliveryNextModel::Finished(
                    Ok(MutationModel { value: ended, replayed: false }),
                ) && (answer is Done ==> ended.state == OperationState::Acknowledged
                    && ended.failure_code is None) && (answer is Failed ==> ended.state
                    != OperationState::Acknowledged && ended.failure_code is Some),
                Err(error) => later == s && next == DeliveryNextModel::Finished(Err(error)),
            }
        }),
{
    reveal(op_finished);
    native_answers_end_exactly(answer);
}

} // verus!
