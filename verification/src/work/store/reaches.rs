//! What prompts, interruptions and reconciliations leave behind, said of the records themselves.
use vstd::prelude::*;
use crate::text::is_native_identity;
use crate::value::Text;
use crate::work::model::Attempt;
use crate::work::model::AttemptModel;
use crate::work::model::DelegationFenceModel;
use crate::work::model::FailureCode;
use crate::work::model::FrozenInputRefModel;
use crate::work::model::InputRefModel;
use crate::work::model::InterruptInputModel;
use crate::work::model::InterruptionOutcomeModel;
use crate::work::model::LaunchPhase;
use crate::work::model::Operation;
use crate::work::model::OperationKind;
use crate::work::model::OperationModel;
use crate::work::model::OperationState;
use crate::work::model::ReconcileInputModel;
use crate::work::model::Reservation;
use crate::work::model::Task;
use crate::work::model::TaskModel;
use crate::work::model::WorkError;
use crate::work::store::changes::changed;
use crate::work::store::creations::claims_are_exact;
use crate::work::store::creations::is_claimed_row;
use crate::work::store::deliveries::DeliveryModel;
use crate::work::store::deliveries::PromiseModel;
use crate::work::store::deliveries::any_pending;
use crate::work::store::deliveries::any_prompt;
use crate::work::store::deliveries::client_digest;
use crate::work::store::deliveries::delivery_admitted;
use crate::work::store::deliveries::delivery_inputs;
use crate::work::store::deliveries::delivery_opened;
use crate::work::store::deliveries::delivery_outcome;
use crate::work::store::deliveries::delivery_request;
use crate::work::store::deliveries::pending_on;
use crate::work::store::deliveries::prompted_by;
use crate::work::store::deliveries::retried;
use crate::work::store::deliveries::versions;
use crate::work::store::dispatches::is_new_operation;
use crate::work::store::dispatches::operation_lands;
use crate::work::store::dispatches::record_lands;
use crate::work::store::effects::change_lands;
use crate::work::store::effects::keys_stand_for_requests;
use crate::work::store::effects::new_key;
use crate::work::store::effects::others_stay;
use crate::work::store::effects::others_stayed;
use crate::work::store::effects::put_lands;
use crate::work::store::effects::remembered;
use crate::work::store::effects::reserve_lands;
use crate::work::store::effects::same_place;
use crate::work::store::effects::standing_is_recorded;
use crate::work::store::facts::fact_recorded;
use crate::work::store::facts::fact_reserved;
use crate::work::store::freshness::claiming_touches_uploads;
use crate::work::store::freshness::tasks_stand;
use crate::work::store::growth::delivering_grows;
use crate::work::store::growth::ending_interrupt_grows;
use crate::work::store::growth::interrupting_grows;
use crate::work::store::growth::listed_is_recorded;
use crate::work::store::growth::reconciling_grows;
use crate::work::store::growth::recorded_is_listed;
use crate::work::store::history::claiming_grows;
use crate::work::store::history::filed_as_said;
use crate::work::store::history::found_where_filed;
use crate::work::store::history::loaded_attempt_is_filed;
use crate::work::store::history::putting_grows;
use crate::work::store::history::recording_grows;
use crate::work::store::history::reserving_grows;
use crate::work::store::history::unused;
use crate::work::store::history::well_formed;
use crate::work::store::inputs::claimed;
use crate::work::store::inputs::frozen_all;
use crate::work::store::inputs::resolved;
use crate::work::store::interruptions::interrupt_admitted;
use crate::work::store::interruptions::interrupt_finalized;
use crate::work::store::interruptions::interrupt_outcome;
use crate::work::store::interruptions::interrupt_request;
use crate::work::store::interruptions::interrupting;
use crate::work::store::readings::announces;
use crate::work::store::readings::filed_as;
use crate::work::store::readings::recorded_as;
use crate::work::store::reconciliation::reconcile_outcome;
use crate::work::store::reconciliation::reconcile_request;
use crate::work::store::records::listed;
use crate::work::store::records::loaded;
use crate::work::store::records::position;
use crate::work::store::records::position_in_range;
use crate::work::store::records::put;
use crate::work::store::redeliveries::keeps_a_row;
use crate::work::store::redeliveries::rows_are_kept;
use crate::work::store::redeliveries::rows_stay_kept;
use crate::work::store::requests::replayed;
use crate::work::store::tables::BodyModel;
use crate::work::store::tables::FactKind;
use crate::work::store::tables::InterruptionFactModel;
use crate::work::store::tables::ReceiptBodyModel;
use crate::work::store::tables::ReconciliationIntentModel;
use crate::work::store::tables::RecordModel;
use crate::work::store::tables::RequestKind;
use crate::work::store::tables::ReservedFactModel;
use crate::work::store::tables::StoreModel;

verus! {

/// Whether an operation reaches into a native process and may still have an effect that is not
/// known.
pub open spec fn still_open(op: OperationModel) -> bool {
    &&& op.kind == OperationKind::StartAttempt || op.kind == OperationKind::DeliverPrompt || op.kind
        == OperationKind::InterruptAttempt
    &&& op.state == OperationState::Prepared || op.state == OperationState::Submitting || op.state
        == OperationState::Unconfirmed
}

/// Whether some operation that is filed under a task is on an attempt and still open.
pub open spec fn open_on(s: StoreModel, session: Text, task_id: Text, attempt_id: Text) -> bool {
    exists|i: int|
        0 <= i < s.records.len() && (#[trigger] s.records[i]).session == session
            && s.records[i].task_id == task_id && (s.records[i].body matches BodyModel::Operation(op)
            && op.attempt_id == Some(attempt_id) && still_open(op))
}

/// Whether some prompt to an attempt that is filed under a task was not refused.
pub open spec fn prompted_before(
    s: StoreModel,
    session: Text,
    task_id: Text,
    attempt_id: Text,
) -> bool {
    exists|i: int|
        0 <= i < s.records.len() && (#[trigger] s.records[i]).session == session
            && s.records[i].task_id == task_id && (s.records[i].body matches BodyModel::Operation(op)
            && op.attempt_id == Some(attempt_id) && op.kind == OperationKind::DeliverPrompt
            && op.state != OperationState::Refused)
}

/// What is listed of the operations of a task is what is filed, for both questions.
proof fn questions_agree(s: StoreModel, session: Text, task_id: Text, attempt_id: Text)
    ensures
        any_pending(listed::<Operation>(s.records, session, task_id), attempt_id) <==> open_on(
            s,
            session,
            task_id,
            attempt_id,
        ),
        any_prompt(listed::<Operation>(s.records, session, task_id), attempt_id)
            <==> prompted_before(s, session, task_id, attempt_id),
{
    let all = listed::<Operation>(s.records, session, task_id);
    if any_pending(all, attempt_id) {
        let k = choose|k: int| 0 <= k < all.len() && pending_on(#[trigger] all[k], attempt_id);
        let at = listed_is_recorded::<Operation>(s.records, session, task_id, all[k]);
        assert(s.records[at].session == session);
    }
    if any_prompt(all, attempt_id) {
        let k = choose|k: int| 0 <= k < all.len() && prompted_by(#[trigger] all[k], attempt_id);
        let at = listed_is_recorded::<Operation>(s.records, session, task_id, all[k]);
        assert(s.records[at].session == session);
    }
    if open_on(s, session, task_id, attempt_id) {
        let i = choose|i: int|
            0 <= i < s.records.len() && (#[trigger] s.records[i]).session == session
                && s.records[i].task_id == task_id && (s.records[i].body matches
                BodyModel::Operation(op) && op.attempt_id == Some(attempt_id) && still_open(op));
        let op = s.records[i].body->Operation_0;
        recorded_is_listed::<Operation>(s.records, session, task_id, i, op);
        let k = choose|k: int| 0 <= k < all.len() && all[k] == op;
        assert(pending_on(all[k], attempt_id));
    }
    if prompted_before(s, session, task_id, attempt_id) {
        let i = choose|i: int|
            0 <= i < s.records.len() && (#[trigger] s.records[i]).session == session
                && s.records[i].task_id == task_id && (s.records[i].body matches
                BodyModel::Operation(op) && op.attempt_id == Some(attempt_id) && op.kind
                == OperationKind::DeliverPrompt && op.state != OperationState::Refused);
        let op = s.records[i].body->Operation_0;
        recorded_is_listed::<Operation>(s.records, session, task_id, i, op);
        let k = choose|k: int| 0 <= k < all.len() && all[k] == op;
        assert(prompted_by(all[k], attempt_id));
    }
}

/// A prompt that is recorded goes to an attempt of its task that holds its reservation and runs in
/// the process that was expected, while nothing native is open on it. The operation knows the
/// process, the fence and the inputs, and carries the instruction version exactly where no earlier
/// prompt to the attempt went unrefused. What was promised of it is kept with it.
pub proof fn delivering_is_exact(
    s: StoreModel,
    id: Text,
    d: DeliveryModel,
    promise: Option<PromiseModel>,
    fence: Option<DelegationFenceModel>,
    now: i64,
)
    requires
        well_formed(s),
        unused(s, id),
        delivery_outcome(s, id, d, promise, fence, now) matches Ok((_, answer)) && !answer.replayed,
    ensures
        ({
            let (next, answer) = delivery_outcome(s, id, d, promise, fence, now)->Ok_0;
            let kind = RequestKind::Work(OperationKind::DeliverPrompt);
            let op = answer.value;
            &&& new_key(s, d.actor, d.session, kind, d.key)
            &&& loaded::<Task>(s, d.session, d.task_id) matches Ok(task) && task.revision
                == d.expected_revision && recorded_as(
                next,
                d.session,
                d.task_id,
                BodyModel::Task(
                    TaskModel {
                        revision: (d.expected_revision + 1) as u64,
                        updated_at_ms: now,
                        ..task
                    },
                ),
            )
            &&& loaded::<Attempt>(s, d.session, d.attempt_id) matches Ok(attempt) && attempt.task_id
                == d.task_id && attempt.lifecycle.reservation == Reservation::Reserved
                && attempt.binding.instance_id == Some(d.expected_instance) && op.resources
                == attempt.binding
            &&& !open_on(s, d.session, d.task_id, d.attempt_id)
            &&& is_new_operation(
                op,
                id,
                d.task_id,
                d.attempt_id,
                OperationKind::DeliverPrompt,
                now,
            )
            &&& op.delegation_fence == fence && op.dependency_snapshot.len() == 0
            &&& op.bootstrap_version == if prompted_before(s, d.session, d.task_id, d.attempt_id) {
                None
            } else {
                d.instruction_version
            }
            &&& op.input_refs.len() == d.input_refs.len()
            &&& fence is None ==> resolved(
                s,
                d.actor,
                d.session,
                loaded::<Task>(s, d.session, d.task_id)->Ok_0.repo_path,
                Some(d.task_id),
                d.input_refs,
                now,
            ) == Ok::<Seq<FrozenInputRefModel>, WorkError>(op.input_refs)
            &&& next.inputs.len() == s.inputs.len() && forall|i: int|
                0 <= i < s.inputs.len() ==> is_claimed_row(
                    s.inputs[i],
                    #[trigger] next.inputs[i],
                    d.task_id,
                    op.input_refs,
                )
            &&& promise matches Some(made) ==> op.input_refs == made.expected_inputs
            &&& recorded_as(next, d.session, id, BodyModel::Operation(op))
            &&& others_stay(s, next, seq![id, d.task_id])
            &&& announces(
                s,
                next,
                d.session,
                d.task_id,
                d.expected_revision + 1,
                "delivery_prepared"@,
                id,
            )
            &&& remembered(
                s,
                next,
                d.actor,
                d.session,
                kind,
                d.key,
                ReceiptBodyModel::Operation(op),
            )
            &&& promise is None ==> next.deliveries == s.deliveries
            &&& promise matches Some(made) ==> next.deliveries.len() == s.deliveries.len() + 1
                && next.deliveries.take(s.deliveries.len() as int) == s.deliveries
                && next.deliveries.last().operation_id == id
                && next.deliveries.last().request_digest == client_digest(d, fence)
                && next.deliveries.last().final_prompt_digest == made.final_prompt_digest
                && next.deliveries.last().instruction_version == Some(d.instruction_version)
        }),
{
    let outcome = delivery_outcome(s, id, d, promise, fence, now);
    let request = delivery_request(d, promise, fence);
    keys_stand_for_requests::<Operation>(s, request);
    fresh_deliveries_are_opened(s, id, d, promise, fence, now);
    let (session, task_id) = (d.session, d.task_id);
    let (task, attempt) = delivery_admitted(s, d, fence)->Ok_0;
    let op = outcome->Ok_0.1.value;
    let inputs = delivery_inputs(s, d, promise, fence, task, now)->Ok_0;
    frozen_count(s, d.actor, session, task.repo_path, Some(d.task_id), d.input_refs, now);
    frozen_count(s, d.actor, session, task.repo_path, Some(task.id), d.input_refs, now);
    questions_agree(s, session, task_id, d.attempt_id);
    tasks_stand(s, session, task_id);
    position_in_range(s.records, task_id);
    position_in_range(s.records, d.attempt_id);
    claiming_grows(s, session, task_id, op.input_refs);
    claiming_touches_uploads(s, session, task_id, op.input_refs);
    claims_are_exact(s, session, task_id, op.input_refs);
    let held = claimed(s, session, task_id, op.input_refs)->Ok_0;
    let body = BodyModel::Operation(op);
    loaded_attempt_is_filed(s, session, d.attempt_id);
    put_lands(held, session, id, task_id, body);
    putting_grows(held, session, id, task_id, body);
    let filed = put(held, session, id, task_id, body)->Ok_0;
    assert(same_place(held, filed, task_id));
    change_lands(s, filed, task, "delivery_prepared"@, id, now);
    let next = changed(filed, task, "delivery_prepared"@, id, now)->Ok_0.0;
    let later = outcome->Ok_0.0;
    assert(same_place(filed, next, id));
    delivering_grows(s, id, d, promise, fence, now);
    let ids = seq![id, task_id];
    assert(ids[0] == id && ids[1] == task_id);
    assert forall|other: Text| !ids.contains(other) implies #[trigger] same_place(
        s,
        later,
        other,
    ) by {
        assert(same_place(held, filed, other) && same_place(filed, next, other));
    }
    others_stayed(s, later, ids);
    assert(later.receipts.take(s.receipts.len() as int) =~= s.receipts);
    standing_is_recorded(next, session, task_id);
    standing_is_recorded(next, session, id);
    if promise is Some {
        assert(later.deliveries.take(s.deliveries.len() as int) =~= s.deliveries);
    }
}

/// A delivery that is answered for the first time is one that was opened.
proof fn fresh_deliveries_are_opened(
    s: StoreModel,
    id: Text,
    d: DeliveryModel,
    promise: Option<PromiseModel>,
    fence: Option<DelegationFenceModel>,
    now: i64,
)
    requires
        delivery_outcome(s, id, d, promise, fence, now) matches Ok((_, answer)) && !answer.replayed,
    ensures
        delivery_outcome(s, id, d, promise, fence, now) == delivery_opened(
            s,
            id,
            d,
            promise,
            fence,
            now,
        ),
        replayed::<Operation>(s, delivery_request(d, promise, fence)) == Ok::<
            Option<OperationModel>,
            WorkError,
        >(None),
{
    if promise is Some {
        let list = versions(s, d.actor, d.session, d.key, d.instruction_version);
        if list is Ok {
            found_is_repeated(s, d, list->Ok_0, fence);
        }
    }
}

/// What is found of an earlier delivery is answered as a repetition.
proof fn found_is_repeated(
    s: StoreModel,
    d: DeliveryModel,
    list: Seq<Option<Text>>,
    fence: Option<DelegationFenceModel>,
)
    ensures
        retried(s, d, list, fence) matches Ok(Some(found)) ==> found.replayed,
    decreases list.len(),
{
    if list.len() > 0 {
        found_is_repeated(s, d, list.drop_first(), fence);
    }
}

/// As many references are frozen as were given.
proof fn frozen_count(
    s: StoreModel,
    actor: Text,
    session: Text,
    repo: Text,
    task: Option<Text>,
    refs: Seq<InputRefModel>,
    now: i64,
)
    ensures
        frozen_all(s, actor, session, repo, task, refs, now) matches Ok(kept) ==> kept.len()
            == refs.len(),
    decreases refs.len(),
{
    if refs.len() > 0 {
        frozen_count(s, actor, session, repo, task, refs.drop_last(), now);
    }
}

/// An interruption that is recorded means the very process that an attempt of the task runs in:
/// its launch is confirmed, it holds its reservation, and process and owner are the ones that were
/// expected. No other interruption of it is open.
pub proof fn interrupting_is_exact(
    s: StoreModel,
    id: Text,
    fact_id: Text,
    actor: Text,
    session: Text,
    task_id: Text,
    attempt_id: Text,
    input: InterruptInputModel,
    now: i64,
)
    requires
        well_formed(s),
        unused(s, id),
        unused(s, fact_id),
        id != fact_id,
    ensures
        interrupt_outcome(
            s,
            id,
            fact_id,
            actor,
            session,
            task_id,
            attempt_id,
            input,
            now,
        ) matches Ok(
            (next, answer),
        ) ==> (!answer.replayed ==> {
            let kind = RequestKind::Work(OperationKind::InterruptAttempt);
            let op = answer.value;
            &&& new_key(s, actor, session, kind, input.request_key)
            &&& is_native_identity(input.expected_instance_id) && is_native_identity(
                input.expected_native_owner_epoch,
            )
            &&& loaded::<Task>(s, session, task_id) matches Ok(task) && task.revision
                == input.expected_revision && recorded_as(
                next,
                session,
                task_id,
                BodyModel::Task(
                    TaskModel {
                        revision: (input.expected_revision + 1) as u64,
                        updated_at_ms: now,
                        ..task
                    },
                ),
            )
            &&& loaded::<Attempt>(s, session, attempt_id) matches Ok(attempt) && attempt.task_id
                == task_id && attempt.lifecycle.reservation == Reservation::Reserved
                && attempt.lifecycle.launch_phase == LaunchPhase::LaunchConfirmed
                && attempt.binding.instance_id == Some(input.expected_instance_id)
                && attempt.lifecycle.native_owner_epoch == Some(input.expected_native_owner_epoch)
                && op.resources == attempt.binding
            &&& op.interruption_owner_epoch == Some(input.expected_native_owner_epoch)
            &&& is_new_operation(op, id, task_id, attempt_id, OperationKind::InterruptAttempt, now)
            &&& forall|i: int|
                0 <= i < s.records.len() && (#[trigger] s.records[i]).session == session
                    && s.records[i].task_id == task_id ==> (s.records[i].body matches
                    BodyModel::Operation(other) ==> !(other.kind == OperationKind::InterruptAttempt
                    && other.attempt_id == Some(attempt_id) && still_open(other)))
            &&& recorded_as(next, session, id, BodyModel::Operation(op))
            &&& keeps_a_row(next, session, FactKind::Interruption, id)
            &&& others_stay(s, next, seq![id, fact_id, task_id])
            &&& announces(
                s,
                next,
                session,
                task_id,
                input.expected_revision + 1,
                "operation_changed"@,
                id,
            )
            &&& remembered(
                s,
                next,
                actor,
                session,
                kind,
                input.request_key,
                ReceiptBodyModel::Operation(op),
            )
        }),
        interrupt_outcome(
            s,
            id,
            fact_id,
            actor,
            session,
            task_id,
            attempt_id,
            input,
            now,
        ) matches Ok(
            (next, answer),
        ) ==> (answer.replayed ==> next == s),
{
    let outcome = interrupt_outcome(
        s,
        id,
        fact_id,
        actor,
        session,
        task_id,
        attempt_id,
        input,
        now,
    );
    let request = interrupt_request(actor, session, task_id, attempt_id, input);
    keys_stand_for_requests::<Operation>(s, request);
    if outcome is Ok && !outcome->Ok_0.1.replayed {
        let (task, op) = interrupt_admitted(s, id, session, task_id, attempt_id, input, now)->Ok_0;
        tasks_stand(s, session, task_id);
        position_in_range(s.records, task_id);
        loaded_attempt_is_filed(s, session, attempt_id);
        let all = listed::<Operation>(s.records, session, task_id);
        assert forall|i: int|
            0 <= i < s.records.len() && (#[trigger] s.records[i]).session == session
                && s.records[i].task_id == task_id implies (s.records[i].body matches
            BodyModel::Operation(other) ==> !(other.kind == OperationKind::InterruptAttempt
            && other.attempt_id == Some(attempt_id) && still_open(other))) by {
            if let BodyModel::Operation(other) = s.records[i].body {
                recorded_is_listed::<Operation>(s.records, session, task_id, i, other);
                let k = choose|k: int| 0 <= k < all.len() && all[k] == other;
                assert(!interrupting(all[k], attempt_id));
            }
        }
        let body = BodyModel::Operation(op);
        put_lands(s, session, id, task_id, body);
        putting_grows(s, session, id, task_id, body);
        let filed = put(s, session, id, task_id, body)->Ok_0;
        assert(same_place(s, filed, fact_id));
        assert(same_place(s, filed, task_id));
        reserve_lands(filed, session, op, FactKind::Interruption, fact_id);
        reserving_grows(filed, session, op, FactKind::Interruption, fact_id);
        let kept = fact_reserved(filed, session, op, FactKind::Interruption, fact_id)->Ok_0;
        assert(same_place(filed, kept, id));
        assert(same_place(filed, kept, task_id));
        change_lands(s, kept, task, "operation_changed"@, id, now);
        let next = changed(kept, task, "operation_changed"@, id, now)->Ok_0.0;
        let later = outcome->Ok_0.0;
        assert(same_place(kept, next, id));
        interrupting_grows(s, id, fact_id, actor, session, task_id, attempt_id, input, now);
        rows_are_kept(filed, session, op, FactKind::Interruption, fact_id);
        rows_stay_kept(kept, next, session, FactKind::Interruption, id, task_id);
        assert(later.records == next.records);
        let ids = seq![id, fact_id, task_id];
        assert(ids[0] == id && ids[1] == fact_id && ids[2] == task_id);
        assert forall|other: Text| !ids.contains(other) implies #[trigger] same_place(
            s,
            later,
            other,
        ) by {
            assert(same_place(s, filed, other) && same_place(filed, kept, other));
            assert(same_place(kept, next, other));
        }
        others_stayed(s, later, ids);
        assert(later.receipts.take(s.receipts.len() as int) =~= s.receipts);
        standing_is_recorded(next, session, task_id);
        standing_is_recorded(next, session, id);
    }
}

/// An interruption that is going out ends acknowledged exactly on a receipt of its own write of
/// one Escape to its own process; refused exactly where the native side refused it for want of
/// room, for another process or for want of the means; and unconfirmed in every other case.
pub proof fn interruptions_end_exactly(
    s: StoreModel,
    session: Text,
    operation_id: Text,
    end: InterruptionOutcomeModel,
    now: i64,
)
    requires
        well_formed(s),
    ensures
        interrupt_finalized(s, session, operation_id, end, now) matches Ok((later, op)) ==> {
            &&& loaded::<Operation>(s, session, operation_id) matches Ok(was) && was.kind
                == OperationKind::InterruptAttempt && was.state == OperationState::Submitting && op
                == (OperationModel {
                state: op.state,
                failure_code: op.failure_code,
                interruption_receipt: op.interruption_receipt,
                updated_at_ms: now,
                ..was
            })
            &&& recorded_as(later, session, operation_id, BodyModel::Operation(op))
            &&& op.state == OperationState::Acknowledged || op.state == OperationState::Refused
                || op.state == OperationState::Unconfirmed
            &&& op.state == OperationState::Acknowledged <==> (end matches
                InterruptionOutcomeModel::Acknowledged(receipt) && receipt.operation_id
                == operation_id && op.resources.instance_id == Some(receipt.launch_id)
                && op.interruption_owner_epoch == Some(receipt.owner_epoch) && is_native_identity(
                receipt.receipt_id,
            ) && receipt.key == "Escape"@ && receipt.bytes_written == 1 && receipt.input_disposition
                == "written"@)
            &&& op.state == OperationState::Refused <==> (end matches
                InterruptionOutcomeModel::Refused(code) && (code == FailureCode::ResourceLimit
                || code == FailureCode::InstanceChanged || code
                == FailureCode::CapabilityUnavailable))
            &&& op.state == OperationState::Acknowledged ==> op.failure_code is None
                && op.interruption_receipt == Some(end->Acknowledged_0)
            &&& op.state == OperationState::Refused ==> op.failure_code == Some(end->Refused_0)
                && op.interruption_receipt is None
            &&& op.state == OperationState::Unconfirmed ==> op.failure_code == Some(
                FailureCode::DeliveryUnconfirmed,
            ) && op.interruption_receipt is None
            &&& exists|i: int|
                0 <= i < later.records.len() && (#[trigger] later.records[i]).session == session
                    && later.records[i].body == BodyModel::InterruptionFact(
                    InterruptionFactModel {
                        operation_id,
                        state: op.state,
                        failure_code: op.failure_code,
                        receipt: op.interruption_receipt,
                    },
                )
        },
{
    let outcome = interrupt_finalized(s, session, operation_id, end, now);
    if outcome is Ok {
        let (later, op) = outcome->Ok_0;
        let was = loaded::<Operation>(s, session, operation_id)->Ok_0;
        position_in_range(s.records, operation_id);
        assert(filed_as_said(s.records[position(s.records, operation_id)->0]));
        let body = BodyModel::InterruptionFact(
            InterruptionFactModel {
                operation_id: op.id,
                state: op.state,
                failure_code: op.failure_code,
                receipt: op.interruption_receipt,
            },
        );
        record_lands(s, session, op, FactKind::Interruption, body);
        recording_grows(s, session, op, FactKind::Interruption, body);
        let noted = fact_recorded(s, session, op, FactKind::Interruption, body)->Ok_0;
        let at = choose|at: int|
            0 <= at < s.records.len() && (#[trigger] s.records[at]).session == session
                && s.records[at].task_id == op.task_id && s.records[at].body
                == BodyModel::Reserved(
                ReservedFactModel { purpose: FactKind::Interruption, operation_id: op.id },
            ) && noted.records[at] == (RecordModel { body, wire: None, ..s.records[at] })
                && forall|i: int|
                0 <= i < s.records.len() && i != at ==> noted.records[i] == s.records[i];
        assert(same_place(s, noted, operation_id));
        operation_lands(s, noted, session, op, now);
        found_where_filed(noted.records, at);
        let task_at = noted.records[at].id;
        let task = loaded::<Task>(noted, session, op.task_id)->Ok_0;
        position_in_range(noted.records, op.task_id);
        assert(task_at != op.task_id && task_at != op.id);
        assert(same_place(noted, later, task_at));
        ending_interrupt_grows(s, session, operation_id, end, now);
        assert(later.records[at] == noted.records[at]);
        assert(later.records[at].session == session && later.records[at].body == body);
        standing_is_recorded(later, session, operation_id);
    }
}

/// A reconciliation that is recorded is about an attempt of the task that is bound as was
/// expected; it keeps what was expected, and quota for what it will find.
pub proof fn reconciling_is_exact(
    s: StoreModel,
    id: Text,
    intent_id: Text,
    fact_id: Text,
    actor: Text,
    session: Text,
    task_id: Text,
    attempt_id: Text,
    input: ReconcileInputModel,
    now: i64,
)
    requires
        well_formed(s),
        unused(s, id),
        unused(s, intent_id),
        unused(s, fact_id),
        id != intent_id,
        id != fact_id,
        intent_id != fact_id,
    ensures
        reconcile_outcome(
            s,
            id,
            intent_id,
            fact_id,
            actor,
            session,
            task_id,
            attempt_id,
            input,
            now,
        ) matches Ok((next, answer)) ==> (!answer.replayed ==> {
            let kind = RequestKind::Work(OperationKind::ReconcileAttempt);
            let op = answer.value;
            &&& new_key(s, actor, session, kind, input.request_key)
            &&& loaded::<Task>(s, session, task_id) matches Ok(task) && task.revision
                == input.expected_revision
            &&& loaded::<Attempt>(s, session, attempt_id) matches Ok(attempt) && attempt.task_id
                == task_id && attempt.binding.instance_id == input.expected_instance_id
                && attempt.lifecycle.native_owner_epoch == input.expected_native_owner_epoch
                && loaded::<Attempt>(next, session, attempt_id) == Ok::<AttemptModel, WorkError>(
                attempt,
            )
            &&& is_new_operation(op, id, task_id, attempt_id, OperationKind::ReconcileAttempt, now)
            &&& recorded_as(next, session, id, BodyModel::Operation(op))
            &&& filed_as(
                next,
                session,
                task_id,
                intent_id,
                BodyModel::ReconciliationIntent(
                    ReconciliationIntentModel { operation_id: id, input },
                ),
            )
            &&& others_stay(s, next, seq![id, intent_id, fact_id, task_id])
            &&& announces(
                s,
                next,
                session,
                task_id,
                input.expected_revision + 1,
                "reconciliation_prepared"@,
                id,
            )
            &&& remembered(
                s,
                next,
                actor,
                session,
                kind,
                input.request_key,
                ReceiptBodyModel::Operation(op),
            )
        }),
        reconcile_outcome(
            s,
            id,
            intent_id,
            fact_id,
            actor,
            session,
            task_id,
            attempt_id,
            input,
            now,
        ) matches Ok((next, answer)) ==> (answer.replayed ==> next == s),
{
    let outcome = reconcile_outcome(
        s,
        id,
        intent_id,
        fact_id,
        actor,
        session,
        task_id,
        attempt_id,
        input,
        now,
    );
    let request = reconcile_request(actor, session, task_id, attempt_id, input);
    keys_stand_for_requests::<Operation>(s, request);
    if outcome is Ok && !outcome->Ok_0.1.replayed {
        let task = loaded::<Task>(s, session, task_id)->Ok_0;
        let op = outcome->Ok_0.1.value;
        tasks_stand(s, session, task_id);
        position_in_range(s.records, task_id);
        position_in_range(s.records, attempt_id);
        loaded_attempt_is_filed(s, session, attempt_id);
        let first = BodyModel::Operation(op);
        let second = BodyModel::ReconciliationIntent(
            ReconciliationIntentModel { operation_id: id, input },
        );
        put_lands(s, session, id, task_id, first);
        putting_grows(s, session, id, task_id, first);
        let filed = put(s, session, id, task_id, first)->Ok_0;
        assert(same_place(s, filed, intent_id) && same_place(s, filed, fact_id));
        assert(same_place(s, filed, task_id) && same_place(s, filed, attempt_id));
        put_lands(filed, session, intent_id, task_id, second);
        putting_grows(filed, session, intent_id, task_id, second);
        let meant = put(filed, session, intent_id, task_id, second)->Ok_0;
        assert(same_place(filed, meant, id) && same_place(filed, meant, fact_id));
        assert(same_place(filed, meant, task_id) && same_place(filed, meant, attempt_id));
        reserve_lands(meant, session, op, FactKind::Reconciliation, fact_id);
        reserving_grows(meant, session, op, FactKind::Reconciliation, fact_id);
        let kept = fact_reserved(meant, session, op, FactKind::Reconciliation, fact_id)->Ok_0;
        assert(same_place(meant, kept, id) && same_place(meant, kept, intent_id));
        assert(same_place(meant, kept, task_id) && same_place(meant, kept, attempt_id));
        change_lands(s, kept, task, "reconciliation_prepared"@, id, now);
        let next = changed(kept, task, "reconciliation_prepared"@, id, now)->Ok_0.0;
        let later = outcome->Ok_0.0;
        assert(same_place(kept, next, id) && same_place(kept, next, intent_id));
        assert(same_place(kept, next, attempt_id));
        reconciling_grows(
            s,
            id,
            intent_id,
            fact_id,
            actor,
            session,
            task_id,
            attempt_id,
            input,
            now,
        );
        let ids = seq![id, intent_id, fact_id, task_id];
        assert(ids[0] == id && ids[1] == intent_id && ids[2] == fact_id && ids[3] == task_id);
        assert forall|other: Text| !ids.contains(other) implies #[trigger] same_place(
            s,
            later,
            other,
        ) by {
            assert(same_place(s, filed, other) && same_place(filed, meant, other));
            assert(same_place(meant, kept, other) && same_place(kept, next, other));
        }
        others_stayed(s, later, ids);
        assert(later.receipts.take(s.receipts.len() as int) =~= s.receipts);
        standing_is_recorded(next, session, id);
    }
}

} // verus!
