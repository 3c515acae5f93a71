//! What stays true of a store however it grows: answers, results, releases, claims and fences.
use vstd::prelude::*;
use crate::value::Text;
use crate::work::model::Attempt;
use crate::work::model::AttemptModel;
use crate::work::model::AttemptRole;
use crate::work::model::CreateTaskModel;
use crate::work::model::DelegationConfigModel;
use crate::work::model::DelegationFenceModel;
use crate::work::model::DelegationStateModel;
use crate::work::model::DependencyReadiness;
use crate::work::model::FailureCode;
use crate::work::model::InputRefModel;
use crate::work::model::InputShare;
use crate::work::model::InterruptInputModel;
use crate::work::model::LaunchPhase;
use crate::work::model::Operation;
use crate::work::model::OperationKind;
use crate::work::model::OperationModel;
use crate::work::model::OperationState;
use crate::work::model::ReconciliationEvidenceModel;
use crate::work::model::ReconciliationReceipt;
use crate::work::model::ResultInputModel;
use crate::work::model::ResultSubmission;
use crate::work::model::ResultSubmissionModel;
use crate::work::model::Review;
use crate::work::model::ReviewInputModel;
use crate::work::model::ReviewModel;
use crate::work::model::Task;
use crate::work::model::TaskModel;
use crate::work::model::WorkError;
use crate::work::model::no_delegation;
use crate::work::store::attempts::StartModel;
use crate::work::store::attempts::both_saved;
use crate::work::store::attempts::dispatch_outcome;
use crate::work::store::attempts::in_phase;
use crate::work::store::attempts::is_lead;
use crate::work::store::attempts::start_outcome;
use crate::work::store::authority::DelegatedCreateModel;
use crate::work::store::authority::OperationTargetModel;
use crate::work::store::authority::controlled;
use crate::work::store::authority::is_child;
use crate::work::store::changes::changed;
use crate::work::store::changes::operation_saved;
use crate::work::store::changes::revised;
use crate::work::store::delegation::configure_outcome;
use crate::work::store::delegation::configure_request;
use crate::work::store::deliveries::DeliveryModel;
use crate::work::store::deliveries::PromiseModel;
use crate::work::store::deliveries::delivery_opened;
use crate::work::store::deliveries::pending_on;
use crate::work::store::dependencies::inspected;
use crate::work::store::facts::about;
use crate::work::store::facts::awaiting;
use crate::work::store::facts::fact_reserved;
use crate::work::store::growth::creating_grows;
use crate::work::store::growth::fresh_ids;
use crate::work::store::growth::opening_grows;
use crate::work::store::growth::recorded_is_listed;
use crate::work::store::growth::shares_miss;
use crate::work::store::history::attempt_follows;
use crate::work::store::history::awaiting_reserve;
use crate::work::store::history::changing_grows;
use crate::work::store::history::changing_is_local;
use crate::work::store::history::claiming_grows;
use crate::work::store::history::found_where_filed;
use crate::work::store::history::given_up;
use crate::work::store::history::grown;
use crate::work::store::history::growth_is_transitive;
use crate::work::store::history::input_follows;
use crate::work::store::history::keyholder_found;
use crate::work::store::history::may_put;
use crate::work::store::history::operation_follows;
use crate::work::store::history::putting_grows;
use crate::work::store::history::putting_is_local;
use crate::work::store::history::record_follows;
use crate::work::store::history::reserving_grows;
use crate::work::store::history::reserving_is_local;
use crate::work::store::history::rivals;
use crate::work::store::history::same_ids_same_places;
use crate::work::store::history::task_follows;
use crate::work::store::history::unused;
use crate::work::store::history::upload_found;
use crate::work::store::history::upload_in_range;
use crate::work::store::history::well_formed;
use crate::work::store::inputs::MAX_REFS;
use crate::work::store::inputs::claimed;
use crate::work::store::inputs::input_at;
use crate::work::store::inputs::parent_shares;
use crate::work::store::inputs::resolved;
use crate::work::store::inputs::shared;
use crate::work::store::inputs::uploaded;
use crate::work::store::interruptions::interrupt_admitted;
use crate::work::store::interruptions::interrupting;
use crate::work::store::operations::begin_outcome;
use crate::work::store::operations::begin_reserved;
use crate::work::store::reconciliation::attempt_found;
use crate::work::store::reconciliation::attempt_settled;
use crate::work::store::reconciliation::finding_outcome;
use crate::work::store::reconciliation::finding_settled;
use crate::work::store::reconciliation::observed;
use crate::work::store::reconciliation::reconcile_subject;
use crate::work::store::reconciliation::start_fenced;
use crate::work::store::records::listed;
use crate::work::store::records::loaded;
use crate::work::store::records::position;
use crate::work::store::records::position_in_range;
use crate::work::store::records::put;
use crate::work::store::recovery::opened;
use crate::work::store::requests::RequestModel;
use crate::work::store::requests::receipt_at;
use crate::work::store::requests::receipt_in_range;
use crate::work::store::requests::replayed;
use crate::work::store::requests::saved;
use crate::work::store::results::review_outcome;
use crate::work::store::results::submit_outcome;
use crate::work::store::rules::ancestor;
use crate::work::store::rules::budget_means_room;
use crate::work::store::rules::delegated_reservations;
use crate::work::store::rules::launch_means_unpaused;
use crate::work::store::rules::started_attempt;
use crate::work::store::summaries::is_active;
use crate::work::store::tables::Answer;
use crate::work::store::tables::BodyModel;
use crate::work::store::tables::DelegatedOriginModel;
use crate::work::store::tables::FactKind;
use crate::work::store::tables::ReceiptBodyModel;
use crate::work::store::tables::RecordModel;
use crate::work::store::tables::RequestKind;
use crate::work::store::tables::StoreModel;
use crate::work::store::tasks::create_outcome;
use crate::work::store::tasks::fresh_task;
use crate::work::store::tasks::inherited_policy;

verus! {

/// A record stays where it was found.
pub proof fn records_stay(s: StoreModel, later: StoreModel, id: Text)
    requires
        well_formed(later),
        grown(s, later),
    ensures
        position(s.records, id) matches Some(i) ==> position(later.records, id) == Some(i) && 0 <= i
            < s.records.len() && record_follows(s.records[i], later.records[i]),
{
    position_in_range(s.records, id);
    match position(s.records, id) {
        Some(i) => {
            assert(record_follows(s.records[i], later.records[i]));
            found_where_filed(later.records, i);
        },
        None => {},
    }
}

/// A task is never lost, and keeps what identifies it.
pub proof fn tasks_last(s: StoreModel, later: StoreModel, session: Text, id: Text)
    requires
        well_formed(later),
        grown(s, later),
    ensures
        loaded::<Task>(s, session, id) matches Ok(task) ==> (loaded::<Task>(
            later,
            session,
            id,
        ) matches Ok(next) && task_follows(task, next)),
{
    records_stay(s, later, id);
}

/// An attempt is never lost. Its known resources stay, its launch never goes back, and once it is
/// released it stays released.
pub proof fn attempts_last(s: StoreModel, later: StoreModel, session: Text, id: Text)
    requires
        well_formed(later),
        grown(s, later),
    ensures
        loaded::<Attempt>(s, session, id) matches Ok(attempt) ==> (loaded::<Attempt>(
            later,
            session,
            id,
        ) matches Ok(next) && attempt_follows(attempt, next)),
{
    records_stay(s, later, id);
}

/// An operation is never lost. It stays about the same thing, and its state never goes back.
pub proof fn operations_last(s: StoreModel, later: StoreModel, session: Text, id: Text)
    requires
        well_formed(later),
        grown(s, later),
    ensures
        loaded::<Operation>(s, session, id) matches Ok(op) ==> (loaded::<Operation>(
            later,
            session,
            id,
        ) matches Ok(next) && operation_follows(op, next)),
{
    records_stay(s, later, id);
}

/// A result never changes.
pub proof fn results_never_change(s: StoreModel, later: StoreModel, session: Text, id: Text)
    requires
        well_formed(later),
        grown(s, later),
        loaded::<ResultSubmission>(s, session, id) is Ok,
    ensures
        loaded::<ResultSubmission>(later, session, id) == loaded::<ResultSubmission>(
            s,
            session,
            id,
        ),
{
    records_stay(s, later, id);
}

/// A review never changes.
pub proof fn reviews_never_change(s: StoreModel, later: StoreModel, session: Text, id: Text)
    requires
        well_formed(later),
        grown(s, later),
        loaded::<Review>(s, session, id) is Ok,
    ensures
        loaded::<Review>(later, session, id) == loaded::<Review>(s, session, id),
{
    records_stay(s, later, id);
}

/// What was acknowledged or refused stays so.
pub proof fn ends_are_final(s: StoreModel, later: StoreModel, session: Text, id: Text)
    requires
        well_formed(later),
        grown(s, later),
        loaded::<Operation>(s, session, id) matches Ok(op) && (op.state
            == OperationState::Acknowledged || op.state == OperationState::Refused),
    ensures
        loaded::<Operation>(later, session, id) matches Ok(next) && next.state == loaded::<
            Operation,
        >(s, session, id)->Ok_0.state,
{
    operations_last(s, later, session, id);
}

/// An upload that a task has claimed stays with that task.
pub proof fn claims_last(s: StoreModel, later: StoreModel, session: Text, id: Text)
    requires
        well_formed(later),
        grown(s, later),
        uploaded(s, session, id) matches Some(row) && row.claimed_task is Some,
    ensures
        uploaded(later, session, id) == uploaded(s, session, id),
{
    upload_in_range(s.inputs, id);
    upload_in_range(later.inputs, id);
    let i = input_at(s.inputs, id)->0;
    assert(input_follows(s.inputs[i], later.inputs[i]));
    upload_found(later.inputs, i);
}

/// A receipt stays where it was found.
pub proof fn receipts_stay(
    s: StoreModel,
    later: StoreModel,
    actor: Text,
    session: Text,
    kind: RequestKind,
    key: Text,
)
    requires
        well_formed(later),
        grown(s, later),
    ensures
        receipt_at(s.receipts, actor, session, kind, key) matches Some(i) ==> receipt_at(
            later.receipts,
            actor,
            session,
            kind,
            key,
        ) == Some(i) && 0 <= i < s.receipts.len() && later.receipts[i] == s.receipts[i],
{
    receipt_in_range(s.receipts, actor, session, kind, key);
    receipt_in_range(later.receipts, actor, session, kind, key);
    match receipt_at(s.receipts, actor, session, kind, key) {
        Some(i) => {
            assert(later.receipts.subrange(0, s.receipts.len() as int)[i] == later.receipts[i]);
            keyholder_found(later.receipts, i);
        },
        None => {},
    }
}

/// A request that was carried out is answered alike for good, and another request under its key
/// is a conflict for good.
pub proof fn answers_last<T: Answer>(s: StoreModel, later: StoreModel, request: RequestModel)
    requires
        well_formed(later),
        grown(s, later),
    ensures
        receipt_at(
            s.receipts,
            request.actor,
            request.session,
            request.kind,
            request.key,
        ) is Some ==> replayed::<T>(later, request) == replayed::<T>(s, request),
{
    receipts_stay(s, later, request.actor, request.session, request.kind, request.key);
}

/// A request that was answered just now is found with its answer.
pub proof fn saved_is_found(s: StoreModel, request: RequestModel, body: ReceiptBodyModel)
    ensures
        receipt_at(
            saved(s, request, body).receipts,
            request.actor,
            request.session,
            request.kind,
            request.key,
        ) == Some(s.receipts.len() as int),
{
    assert(saved(s, request, body).receipts.last().request_key == request.key);
}

/// Once an attempt is released, no dispatch of its start is ever claimed.
pub proof fn released_is_never_dispatched(
    s: StoreModel,
    later: StoreModel,
    session: Text,
    operation_id: Text,
    fact_id: Text,
    target: Option<OperationTargetModel>,
    now: i64,
)
    requires
        well_formed(later),
        grown(s, later),
        loaded::<Operation>(s, session, operation_id) matches Ok(op) && (started_attempt(
            s,
            session,
            op,
        ) matches Ok(attempt) && !is_active(attempt)),
    ensures
        dispatch_outcome(later, fact_id, session, operation_id, target, now) is Err,
{
    let op = loaded::<Operation>(s, session, operation_id)->Ok_0;
    operations_last(s, later, session, operation_id);
    attempts_last(s, later, session, op.attempt_id->0);
}

/// Once an attempt is released, no new prompt is ever recorded for it.
pub proof fn released_is_never_prompted(
    s: StoreModel,
    later: StoreModel,
    id: Text,
    d: DeliveryModel,
    promise: Option<PromiseModel>,
    fence: Option<DelegationFenceModel>,
    now: i64,
)
    requires
        well_formed(later),
        grown(s, later),
        loaded::<Attempt>(s, d.session, d.attempt_id) matches Ok(attempt) && !is_active(attempt),
    ensures
        delivery_opened(later, id, d, promise, fence, now) is Err,
{
    attempts_last(s, later, d.session, d.attempt_id);
}

/// Once an attempt is released, no new interrupt is ever recorded for it.
pub proof fn released_is_never_interrupted(
    s: StoreModel,
    later: StoreModel,
    id: Text,
    session: Text,
    task_id: Text,
    attempt_id: Text,
    input: InterruptInputModel,
    now: i64,
)
    requires
        well_formed(later),
        grown(s, later),
        loaded::<Attempt>(s, session, attempt_id) matches Ok(attempt) && !is_active(attempt),
    ensures
        interrupt_admitted(later, id, session, task_id, attempt_id, input, now) is Err,
{
    attempts_last(s, later, session, attempt_id);
}

/// An operation goes out once: after it was begun, it is never begun again.
pub proof fn begun_once(
    s: StoreModel,
    fact_id: Text,
    session: Text,
    operation_id: Text,
    target: Option<OperationTargetModel>,
    now: i64,
    later: StoreModel,
    other_fact: Text,
    other_target: Option<OperationTargetModel>,
    other_now: i64,
)
    requires
        well_formed(s),
        unused(s, fact_id),
        begin_outcome(s, fact_id, session, operation_id, target, now) is Ok,
        well_formed(later),
        grown(begin_outcome(s, fact_id, session, operation_id, target, now)->Ok_0.0, later),
    ensures
        begin_outcome(later, other_fact, session, operation_id, other_target, other_now) is Err,
{
    let (next, begun) = begin_outcome(s, fact_id, session, operation_id, target, now)->Ok_0;
    let op = loaded::<Operation>(s, session, operation_id)->Ok_0;
    position_in_range(s.records, operation_id);
    let kept = begin_reserved(s, fact_id, session, op)->Ok_0;
    reserving_grows(s, session, op, FactKind::Reconciliation, fact_id);
    reserving_is_local(s, session, op, FactKind::Reconciliation, fact_id, operation_id);
    saved_operation_stands(kept, session, begun, now);
    operations_last(next, later, session, operation_id);
}

/// An operation that was filed with a change of its task stands as it was filed.
pub proof fn saved_operation_stands(s: StoreModel, session: Text, op: OperationModel, now: i64)
    requires
        well_formed(s),
        position(s.records, op.id) matches Some(i) && s.records[i].session == session,
        may_put(s, session, op.id, op.task_id, BodyModel::Operation(op)),
    ensures
        operation_saved(s, session, op, now) matches Ok(later) ==> loaded::<Operation>(
            later,
            session,
            op.id,
        ) == Ok::<OperationModel, WorkError>(op),
{
    if operation_saved(s, session, op, now) is Ok {
        let body = BodyModel::Operation(op);
        position_in_range(s.records, op.id);
        putting_grows(s, session, op.id, op.task_id, body);
        putting_is_local(s, session, op.id, op.task_id, body, op.task_id);
        let filed = put(s, session, op.id, op.task_id, body)->Ok_0;
        let task = loaded::<Task>(filed, session, op.task_id)->Ok_0;
        position_in_range(filed.records, op.task_id);
        changing_is_local(filed, task, "operation_changed"@, op.id, now, op.id);
    }
}

/// An attempt and its operation that were filed together are found as they were filed.
pub proof fn both_saved_stands(
    s: StoreModel,
    session: Text,
    attempt_id: Text,
    attempt: AttemptModel,
    op: OperationModel,
    now: i64,
)
    requires
        well_formed(s),
        loaded::<Attempt>(s, session, attempt_id) is Ok,
        loaded::<Operation>(s, session, op.id) is Ok,
        attempt_follows(loaded::<Attempt>(s, session, attempt_id)->Ok_0, attempt),
        attempt.lifecycle.native_owner_epoch is Some ==> attempt.lifecycle.launch_phase
            == LaunchPhase::LaunchConfirmed,
        attempt.lifecycle.release is Some ==> !is_active(attempt),
        operation_follows(loaded::<Operation>(s, session, op.id)->Ok_0, op),
    ensures
        both_saved(s, session, attempt_id, attempt, op, now) matches Ok((later, _)) ==> loaded::<
            Attempt,
        >(later, session, attempt_id) == Ok::<AttemptModel, WorkError>(attempt) && loaded::<
            Operation,
        >(later, session, op.id) == Ok::<OperationModel, WorkError>(op),
{
    if both_saved(s, session, attempt_id, attempt, op, now) is Ok {
        position_in_range(s.records, attempt_id);
        position_in_range(s.records, op.id);
        let body = BodyModel::Attempt(attempt);
        putting_grows(s, session, attempt_id, op.task_id, body);
        putting_is_local(s, session, attempt_id, op.task_id, body, op.id);
        let held = put(s, session, attempt_id, op.task_id, body)->Ok_0;
        saved_operation_stands(held, session, op, now);
        let second = BodyModel::Operation(op);
        putting_is_local(held, session, op.id, op.task_id, second, attempt_id);
        putting_is_local(held, session, op.id, op.task_id, second, op.task_id);
        let filed = put(held, session, op.id, op.task_id, second)->Ok_0;
        let task = loaded::<Task>(filed, session, op.task_id)->Ok_0;
        position_in_range(filed.records, op.task_id);
        changing_is_local(filed, task, "operation_changed"@, op.id, now, attempt_id);
    }
}

/// A dispatch that was claimed leaves its attempt claimed and its start going out.
proof fn claim_stands(
    s: StoreModel,
    fact_id: Text,
    session: Text,
    operation_id: Text,
    target: Option<OperationTargetModel>,
    now: i64,
)
    requires
        well_formed(s),
        unused(s, fact_id),
        dispatch_outcome(s, fact_id, session, operation_id, target, now) is Ok,
    ensures
        ({
            let (next, op) = dispatch_outcome(
                s,
                fact_id,
                session,
                operation_id,
                target,
                now,
            )->Ok_0;
            &&& op.id == operation_id && op.attempt_id is Some
            &&& loaded::<Operation>(next, session, operation_id) == Ok::<OperationModel, WorkError>(
                op,
            )
            &&& loaded::<Attempt>(s, session, op.attempt_id->0) is Ok
            &&& loaded::<Attempt>(next, session, op.attempt_id->0) == Ok::<AttemptModel, WorkError>(
                in_phase(
                    loaded::<Attempt>(s, session, op.attempt_id->0)->Ok_0,
                    LaunchPhase::DispatchClaimed,
                ),
            )
        }),
{
    let (next, op) = dispatch_outcome(s, fact_id, session, operation_id, target, now)->Ok_0;
    position_in_range(s.records, operation_id);
    let attempt_id = op.attempt_id->0;
    position_in_range(s.records, attempt_id);
    let attempt = loaded::<Attempt>(s, session, attempt_id)->Ok_0;
    reserving_grows(s, session, op, FactKind::StartRefusal, fact_id);
    reserving_is_local(s, session, op, FactKind::StartRefusal, fact_id, attempt_id);
    reserving_is_local(s, session, op, FactKind::StartRefusal, fact_id, operation_id);
    let kept = fact_reserved(s, session, op, FactKind::StartRefusal, fact_id)->Ok_0;
    both_saved_stands(
        kept,
        session,
        attempt_id,
        in_phase(attempt, LaunchPhase::DispatchClaimed),
        op,
        now,
    );
}

/// A dispatch is claimed only for a start that is going out, of an attempt that holds its
/// reservation and was not dispatched, while neither its task nor any ancestor is paused and its
/// dependencies are ready. It leaves the attempt claimed.
pub proof fn claims_mean_readiness(
    s: StoreModel,
    fact_id: Text,
    session: Text,
    operation_id: Text,
    target: Option<OperationTargetModel>,
    now: i64,
    steps: nat,
)
    requires
        well_formed(s),
        unused(s, fact_id),
        dispatch_outcome(s, fact_id, session, operation_id, target, now) is Ok,
    ensures
        loaded::<Operation>(s, session, operation_id) matches Ok(op) && {
            &&& op.kind == OperationKind::StartAttempt
            &&& op.state == OperationState::Submitting
            &&& op.attempt_id matches Some(id) && (loaded::<Attempt>(s, session, id) matches Ok(
                attempt,
            ) && is_active(attempt) && attempt.lifecycle.launch_phase == LaunchPhase::NotDispatched)
                && (loaded::<Attempt>(
                dispatch_outcome(s, fact_id, session, operation_id, target, now)->Ok_0.0,
                session,
                id,
            ) matches Ok(claimed) && is_active(claimed) && claimed.lifecycle.launch_phase
                == LaunchPhase::DispatchClaimed)
            &&& loaded::<Task>(s, session, op.task_id) matches Ok(task) && (inspected(
                s,
                session,
                task,
            ) matches Ok((readiness, _)) && readiness == DependencyReadiness::Ready) && (ancestor(
                s,
                session,
                task,
                steps,
            ) matches Some(above) ==> !above.paused)
        },
{
    claim_stands(s, fact_id, session, operation_id, target, now);
    let op = loaded::<Operation>(s, session, operation_id)->Ok_0;
    let task = loaded::<Task>(s, session, op.task_id)->Ok_0;
    position_in_range(s.records, op.task_id);
    launch_means_unpaused(s, session, task, Seq::empty(), steps);
}

/// A claim and a release for want of a dispatch exclude each other: once a dispatch was claimed, its
/// attempt is never given up as not dispatched.
pub proof fn claimed_is_never_given_up(
    s: StoreModel,
    fact_id: Text,
    session: Text,
    operation_id: Text,
    target: Option<OperationTargetModel>,
    now: i64,
    later: StoreModel,
)
    requires
        well_formed(s),
        unused(s, fact_id),
        dispatch_outcome(s, fact_id, session, operation_id, target, now) is Ok,
        well_formed(later),
        grown(dispatch_outcome(s, fact_id, session, operation_id, target, now)->Ok_0.0, later),
    ensures
        ({
            let op = dispatch_outcome(s, fact_id, session, operation_id, target, now)->Ok_0.1;
            op.attempt_id is Some && (loaded::<Attempt>(
                later,
                session,
                op.attempt_id->0,
            ) matches Ok(attempt) && !given_up(attempt))
        }),
{
    claim_stands(s, fact_id, session, operation_id, target, now);
    let (next, op) = dispatch_outcome(s, fact_id, session, operation_id, target, now)->Ok_0;
    position_in_range(s.records, op.attempt_id->0);
    attempts_last(next, later, session, op.attempt_id->0);
}

/// The permission to call the native start is given once: after a dispatch was claimed, it is
/// never claimed again.
pub proof fn dispatched_once(
    s: StoreModel,
    fact_id: Text,
    session: Text,
    operation_id: Text,
    target: Option<OperationTargetModel>,
    now: i64,
    later: StoreModel,
    other_fact: Text,
    other_target: Option<OperationTargetModel>,
    other_now: i64,
)
    requires
        well_formed(s),
        unused(s, fact_id),
        dispatch_outcome(s, fact_id, session, operation_id, target, now) is Ok,
        well_formed(later),
        grown(dispatch_outcome(s, fact_id, session, operation_id, target, now)->Ok_0.0, later),
    ensures
        dispatch_outcome(later, other_fact, session, operation_id, other_target, other_now) is Err,
{
    claim_stands(s, fact_id, session, operation_id, target, now);
    let (next, op) = dispatch_outcome(s, fact_id, session, operation_id, target, now)->Ok_0;
    operations_last(next, later, session, operation_id);
    attempts_last(next, later, session, op.attempt_id->0);
}

/// Once delegation was configured anew, no fence of an earlier epoch is ever in force again.
pub proof fn old_fences_never_return(
    s: StoreModel,
    actor: Text,
    session: Text,
    task_id: Text,
    key: Text,
    expected_revision: u64,
    input: DelegationConfigModel,
    now: i64,
    later: StoreModel,
    fence: DelegationFenceModel,
)
    requires
        well_formed(s),
        replayed::<Task>(
            s,
            configure_request(actor, session, task_id, key, expected_revision, input),
        ) == Ok::<Option<TaskModel>, WorkError>(None),
        configure_outcome(s, actor, session, task_id, key, expected_revision, input, now) is Ok,
        well_formed(later),
        grown(
            configure_outcome(
                s,
                actor,
                session,
                task_id,
                key,
                expected_revision,
                input,
                now,
            )->Ok_0.0,
            later,
        ),
        fence.coordinator_task_id == task_id,
        loaded::<Task>(s, session, task_id) matches Ok(task) && fence.coordinator_epoch
            <= task.delegation.coordinator_epoch,
    ensures
        controlled(later, session, fence) is Err,
{
    let next = configure_outcome(
        s,
        actor,
        session,
        task_id,
        key,
        expected_revision,
        input,
        now,
    )->Ok_0.0;
    let task = loaded::<Task>(s, session, task_id)->Ok_0;
    position_in_range(s.records, task_id);
    let set = TaskModel {
        delegation: DelegationStateModel {
            policy: input.policy,
            coordinator_attempt_id: input.coordinator_attempt_id,
            coordinator_epoch: (task.delegation.coordinator_epoch + 1) as u64,
        },
        ..task
    };
    changing_grows(s, set, "delegation_configured"@, task_id, now);
    let body = BodyModel::Task(revised(set, now));
    putting_is_local(s, session, task_id, task_id, body, task_id);
    tasks_last(next, later, session, task_id);
}

/// A coordinator whose attempt was released has no authority again.
pub proof fn released_coordinator_has_no_authority(
    s: StoreModel,
    later: StoreModel,
    session: Text,
    fence: DelegationFenceModel,
)
    requires
        well_formed(later),
        grown(s, later),
        loaded::<Attempt>(s, session, fence.coordinator_attempt_id) matches Ok(attempt)
            && !is_active(attempt),
    ensures
        controlled(later, session, fence) is Err,
{
    attempts_last(s, later, session, fence.coordinator_attempt_id);
}

/// A task has at most one active lead.
pub proof fn one_lead_per_task(s: StoreModel, session: Text, a: Text, b: Text)
    requires
        well_formed(s),
        loaded::<Attempt>(s, session, a) matches Ok(attempt) && is_lead(attempt),
        loaded::<Attempt>(s, session, b) matches Ok(attempt) && is_lead(attempt),
        loaded::<Attempt>(s, session, a)->Ok_0.task_id == loaded::<Attempt>(
            s,
            session,
            b,
        )->Ok_0.task_id,
    ensures
        a == b,
{
    position_in_range(s.records, a);
    position_in_range(s.records, b);
    let i = position(s.records, a)->0;
    let j = position(s.records, b)->0;
    if i < j {
        assert(!rivals(s.records[i], s.records[j]));
    } else if j < i {
        assert(!rivals(s.records[j], s.records[i]));
    }
}

/// An attempt is recorded only where neither its task nor any ancestor is paused, and where every
/// ancestor whose allowance it counts against has room for it.
pub proof fn started_within_allowance(
    s: StoreModel,
    attempt_id: Text,
    op_id: Text,
    fact_id: Text,
    d: StartModel,
    fence: Option<DelegationFenceModel>,
    now: i64,
    steps: nat,
)
    requires
        well_formed(s),
        start_outcome(s, attempt_id, op_id, fact_id, d, fence, now) matches Ok((_, answer))
            && !answer.replayed,
    ensures
        loaded::<Task>(s, d.session, d.task_id) is Ok,
        ancestor(s, d.session, loaded::<Task>(s, d.session, d.task_id)->Ok_0, steps) matches Some(
            above,
        ) ==> !above.paused && (steps > 0 || d.input.role == AttemptRole::Worker
            ==> delegated_reservations(s, s.records, d.session, above.id)
            < above.policy.max_workers),
{
    let task = loaded::<Task>(s, d.session, d.task_id)->Ok_0;
    position_in_range(s.records, d.task_id);
    launch_means_unpaused(s, d.session, task, Seq::empty(), steps);
    if d.input.role == AttemptRole::Worker {
        budget_means_room(s, d.session, task, 0, steps);
    } else if steps > 0 && ancestor(s, d.session, task, steps) is Some {
        let next = loaded::<Task>(s, d.session, task.parent_task_id->0)->Ok_0;
        budget_means_room(s, d.session, next, 0, (steps - 1) as nat);
    }
}

/// While an interrupt of an attempt has not ended, no other is recorded for it.
pub proof fn interrupts_do_not_overlap(
    s: StoreModel,
    id: Text,
    session: Text,
    task_id: Text,
    attempt_id: Text,
    input: InterruptInputModel,
    now: i64,
    open: Text,
)
    requires
        well_formed(s),
        loaded::<Operation>(s, session, open) matches Ok(op) && interrupting(op, attempt_id)
            && op.task_id == task_id,
    ensures
        interrupt_admitted(s, id, session, task_id, attempt_id, input, now) is Err,
{
    let op = loaded::<Operation>(s, session, open)->Ok_0;
    position_in_range(s.records, open);
    let at = position(s.records, open)->0;
    recorded_is_listed::<Operation>(s.records, session, task_id, at, op);
}

/// While a native effect on an attempt is open, no prompt is recorded for it: a prompt whose end
/// is not known is never followed by another.
pub proof fn prompts_do_not_overlap(
    s: StoreModel,
    id: Text,
    d: DeliveryModel,
    promise: Option<PromiseModel>,
    fence: Option<DelegationFenceModel>,
    now: i64,
    open: Text,
)
    requires
        well_formed(s),
        loaded::<Operation>(s, d.session, open) matches Ok(op) && pending_on(op, d.attempt_id)
            && op.task_id == d.task_id,
    ensures
        delivery_opened(s, id, d, promise, fence, now) is Err,
{
    let op = loaded::<Operation>(s, d.session, open)->Ok_0;
    position_in_range(s.records, open);
    let at = position(s.records, open)->0;
    recorded_is_listed::<Operation>(s.records, d.session, d.task_id, at, op);
}

/// Whether a record is what a reconciliation found.
spec fn is_finding(record: RecordModel, session: Text, operation_id: Text) -> bool {
    record.session == session && (record.body matches BodyModel::Reconciliation(receipt)
        && receipt.operation_id == operation_id)
}

/// What a reconciliation found is found under its operation where one record says so.
proof fn finding_is_seen(records: Seq<RecordModel>, session: Text, operation_id: Text)
    ensures
        about::<ReconciliationReceipt>(records, session, operation_id) is None <==> (forall|i: int|
            0 <= i < records.len() ==> !is_finding(#[trigger] records[i], session, operation_id)),
        about::<ReconciliationReceipt>(records, session, operation_id) matches Some(receipt)
            ==> exists|i: int|
            0 <= i < records.len() && is_finding(#[trigger] records[i], session, operation_id)
                && records[i].body == BodyModel::Reconciliation(receipt),
    decreases records.len(),
{
    if records.len() > 0 {
        let rest = records.drop_last();
        finding_is_seen(rest, session, operation_id);
        let last = records.last();
        assert(last == records[records.len() - 1]);
        match about::<ReconciliationReceipt>(rest, session, operation_id) {
            Some(receipt) => {
                let i = choose|i: int|
                    0 <= i < rest.len() && is_finding(#[trigger] rest[i], session, operation_id)
                        && rest[i].body == BodyModel::Reconciliation(receipt);
                assert(records[i] == rest[i]);
            },
            None => {
                assert forall|i: int| 0 <= i < rest.len() implies !is_finding(
                    #[trigger] records[i],
                    session,
                    operation_id,
                ) by {
                    assert(rest[i] == records[i]);
                }
            },
        }
    }
}

/// Whether a store holds no finding of a reconciliation.
spec fn unfound(s: StoreModel, session: Text, operation_id: Text) -> bool {
    forall|i: int|
        0 <= i < s.records.len() ==> !is_finding(#[trigger] s.records[i], session, operation_id)
}

proof fn putting_finds_nothing(
    s: StoreModel,
    session: Text,
    id: Text,
    task: Text,
    body: BodyModel,
    operation_id: Text,
)
    requires
        unfound(s, session, operation_id),
        !(body is Reconciliation),
    ensures
        put(s, session, id, task, body) matches Ok(later) ==> unfound(later, session, operation_id),
{
    position_in_range(s.records, id);
}

/// A finding is recorded once: later evidence, whatever it is, is answered with the first finding
/// and changes nothing.
pub proof fn findings_are_recorded_once(
    s: StoreModel,
    session: Text,
    operation_id: Text,
    expected_revision: u64,
    evidence: ReconciliationEvidenceModel,
    now: i64,
    other_revision: u64,
    other_evidence: ReconciliationEvidenceModel,
    other_now: i64,
)
    requires
        well_formed(s),
        finding_outcome(s, session, operation_id, expected_revision, evidence, now) is Ok,
    ensures
        ({
            let outcome = finding_outcome(
                s,
                session,
                operation_id,
                expected_revision,
                evidence,
                now,
            );
            finding_outcome(
                outcome->Ok_0.0,
                session,
                operation_id,
                other_revision,
                other_evidence,
                other_now,
            ) == outcome
        }),
{
    let outcome = finding_outcome(s, session, operation_id, expected_revision, evidence, now);
    let (next, receipt) = outcome->Ok_0;
    if about::<ReconciliationReceipt>(s.records, session, operation_id) is None {
        reveal(reconcile_subject);
        reveal(finding_settled);
        finding_is_seen(s.records, session, operation_id);
        let op = loaded::<Operation>(s, session, operation_id)->Ok_0;
        position_in_range(s.records, operation_id);
        let (task, attempt, start) = reconcile_subject(s, session, op, expected_revision)->Ok_0;
        position_in_range(s.records, op.task_id);
        let release = observed(s, session, attempt, start, evidence)->Ok_0.1;
        let fenced = start_fenced(s, session, op.task_id, start, release, now)->Ok_0;
        let stopped = OperationModel {
            state: OperationState::Refused,
            failure_code: Some(FailureCode::NotReady),
            updated_at_ms: now,
            ..start
        };
        let first = BodyModel::Operation(stopped);
        putting_finds_nothing(s, session, start.id, op.task_id, first, operation_id);
        let found = attempt_found(attempt, op.id, release, now);
        let second = BodyModel::Attempt(found);
        putting_finds_nothing(fenced, session, attempt.id, op.task_id, second, operation_id);
        let settled = attempt_settled(fenced, session, op.task_id, found, release)->Ok_0;
        let ended = OperationModel {
            state: OperationState::Acknowledged,
            updated_at_ms: now,
            ..op
        };
        let third = BodyModel::Operation(ended);
        putting_finds_nothing(settled, session, op.id, op.task_id, third, operation_id);
        let filed = put(settled, session, op.id, op.task_id, third)->Ok_0;
        let fourth = BodyModel::Task(revised(task, now));
        putting_finds_nothing(filed, session, task.id, task.id, fourth, operation_id);
        let told = changed(filed, task, "attempt_reconciled"@, op.id, now)->Ok_0.0;
        assert(unfound(told, session, operation_id));
        let rows = awaiting(told.records, session, FactKind::Reconciliation, ended);
        awaiting_reserve(told.records, session, FactKind::Reconciliation, ended);
        assert(is_finding(next.records[rows[0]], session, operation_id));
        finding_is_seen(next.records, session, operation_id);
        let known = about::<ReconciliationReceipt>(next.records, session, operation_id)->0;
        let i = choose|i: int|
            0 <= i < next.records.len() && is_finding(
                #[trigger] next.records[i],
                session,
                operation_id,
            ) && next.records[i].body == BodyModel::Reconciliation(known);
        assert(i == rows[0]) by {
            if i != rows[0] {
                assert(next.records[i] == told.records[i]);
            }
        }
    }
}

/// Opening a store leaves no operation going out: what was going out when it was closed is not
/// known to have happened, and is never sent again.
pub proof fn reopening_settles_operations(s: StoreModel, session: Text, operation_id: Text)
    requires
        well_formed(s),
        opened(s) is Ok,
    ensures
        loaded::<Operation>(opened(s)->Ok_0, session, operation_id) matches Ok(op) ==> op.state
            != OperationState::Submitting,
{
    opening_grows(s);
    position_in_range(opened(s)->Ok_0.records, operation_id);
}

/// A store that is opened again has every attempt as it was: what is known of its process, its
/// reservation and why it was given back.
pub proof fn reopening_keeps_attempts(s: StoreModel, session: Text, id: Text)
    requires
        well_formed(s),
        opened(s) is Ok,
    ensures
        loaded::<Attempt>(opened(s)->Ok_0, session, id) == loaded::<Attempt>(s, session, id),
{
    opening_grows(s);
    let later = opened(s)->Ok_0;
    assert forall|i: int| 0 <= i < s.records.len() implies (#[trigger] s.records[i]).id
        == later.records[i].id by {
        assert(record_follows(s.records[i], later.records[i]));
    }
    same_ids_same_places(s.records, later.records, id);
    position_in_range(s.records, id);
    if position(s.records, id) is Some {
        let i = position(s.records, id)->0;
        assert(record_follows(s.records[i], later.records[i]));
    }
}

/// A task that was created is found as it was answered.
pub proof fn created_tasks_stand(
    s: StoreModel,
    id: Text,
    origin_id: Text,
    share_ids: Seq<Text>,
    actor: Text,
    session: Text,
    key: Text,
    input: CreateTaskModel,
    refs: Seq<InputRefModel>,
    context: Option<DelegatedCreateModel>,
    now: i64,
)
    requires
        well_formed(s),
        fresh_ids(s, share_ids.push(id).push(origin_id)),
        share_ids.len() >= MAX_REFS,
    ensures
        create_outcome(
            s,
            id,
            origin_id,
            share_ids,
            actor,
            session,
            key,
            input,
            refs,
            context,
            now,
        ) matches Ok((next, answer)) ==> (!answer.replayed ==> loaded::<Task>(next, session, id)
            == Ok::<TaskModel, WorkError>(answer.value) && answer.value.id == id),
{
    let outcome = create_outcome(
        s,
        id,
        origin_id,
        share_ids,
        actor,
        session,
        key,
        input,
        refs,
        context,
        now,
    );
    let ids = share_ids.push(id).push(origin_id);
    let n = share_ids.len() as int;
    assert(ids[n] == id && ids[n + 1] == origin_id);
    assert(unused(s, ids[n]));
    assert forall|k: int| 0 <= k < share_ids.len() implies (#[trigger] share_ids[k]) != id by {
        assert(ids[k] == share_ids[k]);
    }
    if outcome is Ok && !outcome->Ok_0.1.replayed {
        match context {
            None => {
                let task = fresh_task(id, session, input, Seq::empty(), no_delegation(), now);
                let inputs = resolved(s, actor, session, input.repo_path, None, refs, now)->Ok_0;
                claiming_grows(s, session, id, inputs);
                let held = claimed(s, session, id, inputs)->Ok_0;
                let whole = revised(TaskModel { input_refs: inputs, ..task }, now);
                putting_is_local(held, session, id, id, BodyModel::Task(whole), id);
            },
            Some(context) => {
                let parent_id = context.fence.coordinator_task_id;
                let parent = loaded::<Task>(s, session, parent_id)->Ok_0;
                position_in_range(s.records, parent_id);
                let task = fresh_task(
                    id,
                    session,
                    input,
                    context.dependencies,
                    inherited_policy(parent.delegation.policy),
                    now,
                );
                let inputs = parent_shares(s, actor, session, parent, refs, now)->Ok_0;
                let given = shared(
                    s,
                    session,
                    parent,
                    id,
                    context.fence,
                    inputs,
                    share_ids,
                    now,
                )->Ok_0;
                shares_miss(
                    s,
                    session,
                    parent,
                    id,
                    context.fence,
                    listed::<InputShare>(s.records, session, id),
                    inputs,
                    share_ids,
                    now,
                    id,
                );
                let whole = TaskModel { input_refs: inputs, ..task };
                let body = BodyModel::Task(revised(whole, now));
                putting_is_local(given, session, id, id, body, id);
                let made = changed(given, whole, "task_created"@, id, now)->Ok_0.0;
                let origin = BodyModel::DelegatedOrigin(
                    DelegatedOriginModel { actor_id: actor, fence: context.fence },
                );
                putting_is_local(made, session, origin_id, id, origin, id);
                let noted = put(made, session, origin_id, id, origin)->Ok_0;
                let above = loaded::<Task>(noted, session, parent_id)->Ok_0;
                position_in_range(noted.records, parent_id);
                assert(unused(s, ids[n + 1]));
                assert forall|k: int| 0 <= k < share_ids.len() implies (#[trigger] share_ids[k])
                    != parent_id by {
                    assert(unused(s, ids[k]));
                }
                shares_miss(
                    s,
                    session,
                    parent,
                    id,
                    context.fence,
                    listed::<InputShare>(s.records, session, id),
                    inputs,
                    share_ids,
                    now,
                    parent_id,
                );
                putting_is_local(given, session, id, id, body, parent_id);
                putting_is_local(made, session, origin_id, id, origin, parent_id);
                assert(above.id == parent_id);
                changing_is_local(noted, above, "child_created"@, id, now, id);
            },
        }
    }
}

/// A result that was submitted is found as it was answered, for good.
pub proof fn submitted_results_stand(
    s: StoreModel,
    id: Text,
    actor: Text,
    session: Text,
    task_id: Text,
    key: Text,
    expected_revision: u64,
    input: ResultInputModel,
    now: i64,
    later: StoreModel,
)
    requires
        well_formed(s),
        unused(s, id),
        submit_outcome(s, id, actor, session, task_id, key, expected_revision, input, now) matches Ok(
            (next, answer),
        ) && !answer.replayed && grown(next, later),
        well_formed(later),
    ensures
        ({
            let result = submit_outcome(
                s,
                id,
                actor,
                session,
                task_id,
                key,
                expected_revision,
                input,
                now,
            )->Ok_0.1.value;
            &&& result == ResultSubmissionModel { id, task_id, result: input, created_at_ms: now }
            &&& loaded::<ResultSubmission>(later, session, id) == Ok::<
                ResultSubmissionModel,
                WorkError,
            >(result)
        }),
{
    let (next, answer) = submit_outcome(
        s,
        id,
        actor,
        session,
        task_id,
        key,
        expected_revision,
        input,
        now,
    )->Ok_0;
    let task = loaded::<Task>(s, session, task_id)->Ok_0;
    position_in_range(s.records, task_id);
    let body = BodyModel::Result(answer.value);
    putting_is_local(s, session, id, task_id, body, task_id);
    let filed = put(s, session, id, task_id, body)->Ok_0;
    changing_is_local(filed, task, "result_submitted"@, id, now, id);
    results_never_change(next, later, session, id);
}

/// A review that was given is found as it was answered, for good.
pub proof fn given_reviews_stand(
    s: StoreModel,
    id: Text,
    actor: Text,
    session: Text,
    task_id: Text,
    key: Text,
    expected_revision: u64,
    input: ReviewInputModel,
    now: i64,
    later: StoreModel,
)
    requires
        well_formed(s),
        unused(s, id),
        review_outcome(s, id, actor, session, task_id, key, expected_revision, input, now) matches Ok(
            (next, answer),
        ) && !answer.replayed && grown(next, later),
        well_formed(later),
    ensures
        ({
            let review = review_outcome(
                s,
                id,
                actor,
                session,
                task_id,
                key,
                expected_revision,
                input,
                now,
            )->Ok_0.1.value;
            &&& review == (ReviewModel {
                id,
                task_id,
                actor_id: actor,
                review: input,
                created_at_ms: now,
            })
            &&& loaded::<Review>(later, session, id) == Ok::<ReviewModel, WorkError>(review)
        }),
{
    let (next, answer) = review_outcome(
        s,
        id,
        actor,
        session,
        task_id,
        key,
        expected_revision,
        input,
        now,
    )->Ok_0;
    let task = loaded::<Task>(s, session, task_id)->Ok_0;
    position_in_range(s.records, task_id);
    let body = BodyModel::Review(answer.value);
    putting_is_local(s, session, id, task_id, body, task_id);
    let filed = put(s, session, id, task_id, body)->Ok_0;
    changing_is_local(filed, task, "result_reviewed"@, id, now, id);
    reviews_never_change(next, later, session, id);
}

/// A child asks for no more than its parent has, when it is created and ever after: the same
/// repository, no more workers, and no other agents.
pub proof fn children_never_widen(
    s: StoreModel,
    id: Text,
    origin_id: Text,
    share_ids: Seq<Text>,
    actor: Text,
    session: Text,
    key: Text,
    input: CreateTaskModel,
    refs: Seq<InputRefModel>,
    context: Option<DelegatedCreateModel>,
    now: i64,
    later: StoreModel,
)
    requires
        well_formed(s),
        fresh_ids(s, share_ids.push(id).push(origin_id)),
        share_ids.len() >= MAX_REFS,
        create_outcome(
            s,
            id,
            origin_id,
            share_ids,
            actor,
            session,
            key,
            input,
            refs,
            context,
            now,
        ) matches Ok((next, answer)) && !answer.replayed && grown(next, later),
        well_formed(later),
        input.parent_task_id is Some,
    ensures
        loaded::<Task>(later, session, id) is Ok,
        loaded::<Task>(later, session, input.parent_task_id->0) is Ok,
        is_child(
            loaded::<Task>(later, session, id)->Ok_0,
            loaded::<Task>(later, session, input.parent_task_id->0)->Ok_0,
        ),
{
    let parent_id = input.parent_task_id->0;
    let next = create_outcome(
        s,
        id,
        origin_id,
        share_ids,
        actor,
        session,
        key,
        input,
        refs,
        context,
        now,
    )->Ok_0.0;
    position_in_range(s.records, parent_id);
    creating_grows(
        s,
        id,
        origin_id,
        share_ids,
        actor,
        session,
        key,
        input,
        refs,
        context,
        now,
    );
    growth_is_transitive(s, next, later);
    tasks_last(s, later, session, parent_id);
    created_tasks_stand(
        s,
        id,
        origin_id,
        share_ids,
        actor,
        session,
        key,
        input,
        refs,
        context,
        now,
    );
    tasks_last(next, later, session, id);
}

} // verus!
