//! Interruption by a paired human: a durable intent, one native effect, retained evidence.
use vstd::prelude::*;
use crate::value::Replica;
use crate::value::Text;
use crate::value::shown;
use crate::work::model::FailureCode;
use crate::work::model::InterruptInput;
use crate::work::model::InterruptInputModel;
use crate::work::model::InterruptionOutcome;
use crate::work::model::InterruptionOutcomeModel;
use crate::work::model::InterruptionReceipt;
use crate::work::model::InterruptionReceiptModel;
use crate::work::model::Mutation;
use crate::work::model::MutationModel;
use crate::work::model::Operation;
use crate::work::model::OperationModel;
use crate::work::model::WorkError;
use crate::work::model::WorkResult;
use crate::work::store::interruptions::interrupt_finalized;
use crate::work::store::interruptions::interrupt_outcome;
use crate::work::store::operations::begin_outcome;
use crate::work::store::operations::refuse_outcome;
use crate::work::store::records::refuse;
use crate::work::store::records::refused;
use crate::work::store::tables::StoreModel;
use crate::work::store::tables::WorkStore;
use crate::work::store::transaction::after;
use crate::work::store::transaction::answer;
use crate::work::store::transaction::commits;
use crate::work::store::transaction::first_time;
use crate::work_actor::Ids;
use crate::work_actor::IdsModel;
use crate::work_execution::NativeFailure;
use crate::work_execution::NativeFailureModel;
use crate::work_execution::code_is;
use crate::work_execution::prepared_refused;
use crate::work_execution::refuse_prepared;
use crate::work_execution::says;
use crate::work_execution::told;

verus! {

/// An interrupt that is meant for exactly one process.
#[derive(Debug, PartialEq, Eq)]
pub struct BoundInterrupt {
    pub operation_id: String,
    pub expected_launch_id: String,
    pub expected_owner_epoch: String,
}

/// The value of a `BoundInterrupt`.
#[verifier::ext_equal]
pub struct BoundInterruptModel {
    pub operation_id: Text,
    pub expected_launch_id: Text,
    pub expected_owner_epoch: Text,
}

impl DeepView for BoundInterrupt {
    type V = BoundInterruptModel;

    open spec fn deep_view(&self) -> BoundInterruptModel {
        BoundInterruptModel {
            operation_id: self.operation_id.deep_view(),
            expected_launch_id: self.expected_launch_id.deep_view(),
            expected_owner_epoch: self.expected_owner_epoch.deep_view(),
        }
    }
}

/// What a native interrupt came to.
#[derive(Debug, PartialEq, Eq)]
pub enum InterruptReply {
    Received(InterruptionReceipt),
    Failed(NativeFailure),
}

/// The value of an `InterruptReply`.
#[verifier::ext_equal]
pub enum InterruptReplyModel {
    Received(InterruptionReceiptModel),
    Failed(NativeFailureModel),
}

impl DeepView for InterruptReply {
    type V = InterruptReplyModel;

    open spec fn deep_view(&self) -> InterruptReplyModel {
        match self {
            InterruptReply::Received(value) => InterruptReplyModel::Received(value.deep_view()),
            InterruptReply::Failed(value) => InterruptReplyModel::Failed(value.deep_view()),
        }
    }
}

/// The intent to interrupt is recorded.
#[verifier::opaque]
pub open spec fn interrupt_intended(
    s: StoreModel,
    ids: IdsModel,
    actor: Text,
    session: Text,
    task: Text,
    attempt: Text,
    input: InterruptInputModel,
    now: i64,
) -> WorkResult<(StoreModel, MutationModel<OperationModel>)> {
    interrupt_outcome(s, ids.first, ids.second, actor, session, task, attempt, input, now)
}

/// The interruption is begun.
#[verifier::opaque]
pub open spec fn interrupt_started(
    s: StoreModel,
    ids: IdsModel,
    session: Text,
    id: Text,
    now: i64,
) -> WorkResult<(StoreModel, OperationModel)> {
    begin_outcome(s, ids.third, session, id, None, now)
}

/// The intent is recorded and begun in one go. Where it cannot be begun it is refused, and the
/// reason is the answer.
pub open spec fn interrupt_dispatched(
    s: StoreModel,
    ids: IdsModel,
    actor: Text,
    session: Text,
    task: Text,
    attempt: Text,
    input: InterruptInputModel,
    now: i64,
) -> (StoreModel, WorkResult<MutationModel<OperationModel>>) {
    match interrupt_intended(s, ids, actor, session, task, attempt, input, now) {
        Err(error) => (s, Err(error)),
        Ok((s1, mutation)) => if mutation.replayed {
            (s1, Ok(mutation))
        } else {
            match interrupt_started(s1, ids, session, mutation.value.id, now) {
                Ok((s2, op)) => (s2, Ok(first_time(op))),
                Err(error) => {
                    let end = prepared_refused(s1, session, mutation.value.id, error.0, now);
                    (
                        after(s1, end),
                        match end {
                            Err(error) => Err(error),
                            Ok(_) => Err(error),
                        },
                    )
                },
            }
        },
    }
}

fn intend(
    store: &mut WorkStore,
    ids: &Ids,
    actor: &str,
    session: &str,
    task: &str,
    attempt: &str,
    input: InterruptInput,
    now: i64,
) -> (res: WorkResult<Mutation<Operation>>)
    ensures
        commits(
            old(store)@,
            final(store)@,
            interrupt_intended(
                old(store)@,
                ids.deep_view(),
                actor@,
                session@,
                task@,
                attempt@,
                input.deep_view(),
                now,
            ),
            shown(res),
        ),
{
    reveal(interrupt_intended);
    store.prepare_interrupt_as(
        ids.first.as_str(),
        ids.second.as_str(),
        actor,
        session,
        task,
        attempt,
        input,
        now,
    )
}

fn begin(store: &mut WorkStore, ids: &Ids, session: &str, id: &str, now: i64) -> (res: WorkResult<
    Operation,
>)
    ensures
        commits(
            old(store)@,
            final(store)@,
            interrupt_started(old(store)@, ids.deep_view(), session@, id@, now),
            shown(res),
        ),
{
    reveal(interrupt_started);
    store.begin_operation_as(ids.third.as_str(), session, id, None, now)
}

/// Records the intent to interrupt and begins it: no native effect and no revocation can come
/// between the two.
pub fn dispatch_interrupt(
    store: &mut WorkStore,
    ids: &Ids,
    actor: &str,
    session: &str,
    task: &str,
    attempt: &str,
    input: InterruptInput,
    now: i64,
) -> (res: WorkResult<Mutation<Operation>>)
    ensures
        (final(store)@, shown(res)) == interrupt_dispatched(
            old(store)@,
            ids.deep_view(),
            actor@,
            session@,
            task@,
            attempt@,
            input.deep_view(),
            now,
        ),
{
    let mutation = intend(store, ids, actor, session, task, attempt, input, now)?;
    if mutation.replayed {
        return Ok(mutation);
    }
    match begin(store, ids, session, mutation.value.id.as_str(), now) {
        Ok(value) => Ok(Mutation { value, replayed: false }),
        Err(error) => {
            refuse_prepared(store, session, mutation.value.id.as_str(), error.0, now)?;
            Err(error)
        },
    }
}

/// The interrupt that an operation stands for.
pub open spec fn interrupt_request_of(op: OperationModel) -> WorkResult<BoundInterruptModel> {
    match (op.resources.instance_id, op.interruption_owner_epoch) {
        (Some(launch), Some(epoch)) => Ok(
            BoundInterruptModel {
                operation_id: op.id,
                expected_launch_id: launch,
                expected_owner_epoch: epoch,
            },
        ),
        _ => refused(FailureCode::InstanceChanged),
    }
}

/// The interrupt that an operation stands for: it names the process and the owner that were
/// recorded, so that no other can be hit.
pub fn bound_interrupt(op: &Operation) -> (res: WorkResult<BoundInterrupt>)
    ensures
        shown(res) == interrupt_request_of(op.deep_view()),
{
    match (&op.resources.instance_id, &op.interruption_owner_epoch) {
        (Some(launch), Some(epoch)) => Ok(
            BoundInterrupt {
                operation_id: op.id.replica(),
                expected_launch_id: launch.replica(),
                expected_owner_epoch: epoch.replica(),
            },
        ),
        _ => refuse(FailureCode::InstanceChanged),
    }
}

/// What a native reply proves. Only the agreed refusals prove that nothing was written.
pub open spec fn interruption_of(reply: InterruptReplyModel) -> InterruptionOutcomeModel {
    match reply {
        InterruptReplyModel::Received(receipt) => InterruptionOutcomeModel::Acknowledged(receipt),
        InterruptReplyModel::Failed(failure) => match failure {
            NativeFailureModel::Unsupported => InterruptionOutcomeModel::Refused(
                FailureCode::CapabilityUnavailable,
            ),
            NativeFailureModel::Refused { code } => if says(code, "resource_limit"@) {
                InterruptionOutcomeModel::Refused(FailureCode::ResourceLimit)
            } else if says(code, "instance_changed"@) {
                InterruptionOutcomeModel::Refused(FailureCode::InstanceChanged)
            } else if says(code, "unsupported"@) {
                InterruptionOutcomeModel::Refused(FailureCode::CapabilityUnavailable)
            } else {
                InterruptionOutcomeModel::Unconfirmed
            },
            _ => InterruptionOutcomeModel::Unconfirmed,
        },
    }
}

/// What a native reply proves.
pub fn outcome(reply: InterruptReply) -> (res: InterruptionOutcome)
    ensures
        res.deep_view() == interruption_of(reply.deep_view()),
{
    match reply {
        InterruptReply::Received(receipt) => InterruptionOutcome::Acknowledged(receipt),
        InterruptReply::Failed(failure) => match failure {
            NativeFailure::Unsupported => InterruptionOutcome::Refused(
                FailureCode::CapabilityUnavailable,
            ),
            NativeFailure::Refused { code } => if code_is(&code, "resource_limit") {
                InterruptionOutcome::Refused(FailureCode::ResourceLimit)
            } else if code_is(&code, "instance_changed") {
                InterruptionOutcome::Refused(FailureCode::InstanceChanged)
            } else if code_is(&code, "unsupported") {
                InterruptionOutcome::Refused(FailureCode::CapabilityUnavailable)
            } else {
                InterruptionOutcome::Unconfirmed
            },
            _ => InterruptionOutcome::Unconfirmed,
        },
    }
}

/// The end of an interruption. Recording what was observed needs no authority: it is no new action.
#[verifier::opaque]
pub open spec fn interrupt_ended(
    s: StoreModel,
    session: Text,
    id: Text,
    reply: InterruptReplyModel,
    now: i64,
) -> WorkResult<(StoreModel, OperationModel)> {
    interrupt_finalized(s, session, id, interruption_of(reply), now)
}

/// Ends an interruption with what the native side answered.
pub fn end_interrupt(
    store: &mut WorkStore,
    session: &str,
    id: &str,
    reply: InterruptReply,
    now: i64,
) -> (res: WorkResult<Mutation<Operation>>)
    ensures
        final(store)@ == after(
            old(store)@,
            interrupt_ended(old(store)@, session@, id@, reply.deep_view(), now),
        ),
        shown(res) == told(
            answer(interrupt_ended(old(store)@, session@, id@, reply.deep_view(), now)),
        ),
{
    reveal(interrupt_ended);
    let value = store.finalize_interrupt(session, id, outcome(reply), now)?;
    Ok(Mutation { value, replayed: false })
}

/// A request that was carried out before is answered as it was and dispatches nothing.
pub proof fn repeated_interrupt_dispatches_nothing(
    s: StoreModel,
    ids: IdsModel,
    actor: Text,
    session: Text,
    task: Text,
    attempt: Text,
    input: InterruptInputModel,
    now: i64,
)
    requires
        interrupt_intended(s, ids, actor, session, task, attempt, input, now) matches Ok(
            (_, mutation),
        ) && mutation.replayed,
    ensures
        interrupt_dispatched(s, ids, actor, session, task, attempt, input, now).1 matches Ok(
            mutation,
        ) && mutation.replayed,
{
}

/// An interrupt names exactly the process and the owner that were recorded.
pub proof fn interrupts_name_the_recorded_process(op: OperationModel)
    ensures
        interrupt_request_of(op) matches Ok(request) ==> op.resources.instance_id == Some(
            request.expected_launch_id,
        ) && op.interruption_owner_epoch == Some(request.expected_owner_epoch)
            && request.operation_id == op.id,
{
}

/// An interrupt is recorded and begun in one go. One that was recorded before is answered as it
/// was. Where it cannot be begun it is given up for the reason that was found, and that reason is
/// the answer.
pub proof fn interrupts_are_recorded_and_begun(
    s: StoreModel,
    ids: IdsModel,
    actor: Text,
    session: Text,
    task: Text,
    attempt: Text,
    input: InterruptInputModel,
    now: i64,
)
    ensures
        ({
            let (later, res) = interrupt_dispatched(
                s,
                ids,
                actor,
                session,
                task,
                attempt,
                input,
                now,
            );
            match interrupt_outcome(
                s,
                ids.first,
                ids.second,
                actor,
                session,
                task,
                attempt,
                input,
                now,
            ) {
                Err(error) => later == s && (res matches Err(other) && other == error),
                Ok((recorded, mutation)) => if mutation.replayed {
                    later == recorded && res == Ok::<MutationModel<OperationModel>, WorkError>(
                        mutation,
                    )
                } else {
                    match begin_outcome(
                        recorded,
                        ids.third,
                        session,
                        mutation.value.id,
                        None,
                        now,
                    ) {
                        Ok((begun, op)) => later == begun && (res matches Ok(told) && told.value
                            == op && !told.replayed),
                        Err(error) => match refuse_outcome(
                            recorded,
                            session,
                            mutation.value.id,
                            error.0,
                            now,
                        ) {
                            Ok((ended, _)) => later == ended && (res matches Err(other) && other
                                == error),
                            Err(worse) => later == recorded && (res matches Err(other) && other
                                == worse),
                        },
                    }
                },
            }
        }),
{
    reveal(interrupt_intended);
    reveal(interrupt_started);
    reveal(prepared_refused);
}

/// An operation stands for an interrupt exactly where it knows the process and the epoch of its
/// owner.
pub proof fn interrupts_need_their_process(op: OperationModel)
    ensures
        interrupt_request_of(op) is Ok <==> op.resources.instance_id is Some
            && op.interruption_owner_epoch is Some,
        interrupt_request_of(op) matches Err(error) ==> error.0 == FailureCode::InstanceChanged,
{
}

/// A reply ends an interrupt as far as it proves something: a receipt acknowledges it with that
/// receipt, one of the agreed refusals refuses it for its own reason, and anything else leaves it
/// unconfirmed.
pub proof fn replies_end_interrupts(
    s: StoreModel,
    session: Text,
    id: Text,
    reply: InterruptReplyModel,
    now: i64,
)
    ensures
        ({
            let code: Option<Text> = reply->Failed_0->Refused_code;
            let refuses = reply is Failed && reply->Failed_0 is Refused && code is Some;
            let unsupported = (reply is Failed && reply->Failed_0 is Unsupported) || (refuses
                && code->0 == "unsupported"@);
            let limited = refuses && code->0 == "resource_limit"@;
            let moved = refuses && code->0 == "instance_changed"@;
            exists|end: InterruptionOutcomeModel|
                {
                    &&& interrupt_ended(
                        s,
                        session,
                        id,
                        reply,
                        now,
                    ) == #[trigger] interrupt_finalized(
                        s,
                        session,
                        id,
                        end,
                        now,
                    )
                    &&& reply matches InterruptReplyModel::Received(receipt) ==> end
                        == InterruptionOutcomeModel::Acknowledged(receipt)
                    &&& unsupported ==> end == InterruptionOutcomeModel::Refused(
                        FailureCode::CapabilityUnavailable,
                    )
                    &&& limited ==> end == InterruptionOutcomeModel::Refused(
                        FailureCode::ResourceLimit,
                    )
                    &&& moved ==> end == InterruptionOutcomeModel::Refused(
                        FailureCode::InstanceChanged,
                    )
                    &&& reply is Failed && !unsupported && !limited && !moved ==> end
                        == InterruptionOutcomeModel::Unconfirmed
                }
        }),
{
    reveal(interrupt_ended);
    reveal_strlit("unsupported");
    reveal_strlit("resource_limit");
    reveal_strlit("instance_changed");
    assert("unsupported"@.len() != "resource_limit"@.len());
    assert("unsupported"@.len() != "instance_changed"@.len());
    assert("resource_limit"@.len() != "instance_changed"@.len());
    let end = interruption_of(reply);
    assert(interrupt_ended(s, session, id, reply, now) == interrupt_finalized(
        s,
        session,
        id,
        end,
        now,
    ));
}

} // verus!
